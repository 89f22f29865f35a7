//! A registry of claims: who owns which byte string, and since when.
//!
//! A claim is a string of bytes of bounded length. An account registers it,
//! and may later give it up or hand it to another account. The host tells the
//! registry who is calling and what the current block is; the registry tells
//! the host what happened.

pub mod laws;
pub mod registry;
pub mod rules;
pub mod types;

pub use crate::registry::{Pallet, Registry};
pub use crate::rules::{
    decide_create, decide_revoke, decide_transfer, ensure_admissible, ensure_fits, ensure_signed,
    Decision,
};
pub use crate::types::{AccountId, BlockNumber, Config, Error, Event, Origin, Registration};
