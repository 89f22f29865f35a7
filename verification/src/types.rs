//! The plain values that pass between the host and the registry.

use vstd::prelude::*;

verus! {

/// The identity of a principal, as the host has verified it.
pub type AccountId = u64;

/// A position in the host's sequence of blocks.
pub type BlockNumber = u64;

/// What the registry records for a claim: its owner, and the block at which
/// that owner got it.
pub type Registration = (AccountId, BlockNumber);

/// Where a call comes from, as the host hands it over.
#[derive(Clone, Copy, PartialEq, Eq, Debug, Structural)]
pub enum Origin {
    /// The host itself.
    Root,
    /// A principal whose signature the host has checked.
    Signed(AccountId),
    /// Nobody: the call carries no signature.
    Unsigned,
}

impl Origin {
    /// The origin of a call that `who` has signed.
    pub fn signed(who: AccountId) -> (origin: Origin)
        ensures
            origin == Origin::Signed(who),
    {
        Origin::Signed(who)
    }
}

/// The one setting of the registry, fixed when it is made.
#[derive(Clone, Copy, PartialEq, Eq, Debug, Structural)]
pub struct Config {
    /// The greatest number of bytes that a claim may have.
    pub max_claim_length: u32,
}

/// Why an operation was turned down. A call that is turned down changes
/// nothing.
#[derive(Clone, Copy, PartialEq, Eq, Debug, Structural)]
pub enum Error {
    /// The claim has more bytes than the registry admits.
    ClaimTooLong,
    /// The claim is registered already.
    ClaimAlreadyExists,
    /// The claim is not registered.
    ClaimNotFound,
    /// The claim belongs to somebody other than the caller.
    NotClaimOwner,
    /// The call was not signed.
    Unauthenticated,
}

/// What an operation that went through reports to the host. The account is
/// the one that made the call: for a transfer the owner who gave the claim
/// away, not the one who received it.
#[derive(PartialEq, Eq, Debug)]
pub enum Event {
    /// The account registered the claim.
    ClaimCreated(AccountId, Vec<u8>),
    /// The account gave the claim up.
    ClaimRevoked(AccountId, Vec<u8>),
    /// The account handed the claim to another.
    ClaimTransferred(AccountId, Vec<u8>),
}

} // verus!
