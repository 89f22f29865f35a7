//! The rules of the registry, on plain values: who may call, and what a call
//! does to the one claim that it names. Nothing here holds any state, so a
//! host that keeps the record in a store of its own can decide by the same
//! rules: it reads what is on record for the claim, asks here, and writes
//! what it is told.

use vstd::prelude::*;
use crate::types::{AccountId, BlockNumber, Config, Error, Origin, Registration};

verus! {

/// What a permitted call comes to: who made it, and what is on record for
/// its claim once it is carried out (`None`: nothing).
#[derive(Clone, Copy, PartialEq, Eq, Debug)]
pub struct Decision {
    /// The account that made the call.
    pub who: AccountId,
    /// What the call leaves on record for its claim.
    pub next: Option<Registration>,
}

/// The account behind a signed origin; any other origin is turned away.
pub open spec fn signer(origin: Origin) -> Result<AccountId, Error> {
    match origin {
        Origin::Signed(who) => Ok(who),
        _ => Err(Error::Unauthenticated),
    }
}

/// Whether a claim of `claim_len` bytes is within the bound of `config`.
pub open spec fn fits(config: Config, claim_len: nat) -> bool {
    claim_len <= config.max_claim_length
}

/// What every call must pass before the record is looked at: it must be
/// signed, and then its claim must fit. The result is the caller.
pub open spec fn admission(
    config: Config,
    origin: Origin,
    claim_len: nat,
) -> Result<AccountId, Error> {
    match signer(origin) {
        Err(e) => Err(e),
        Ok(who) => if fits(config, claim_len) {
            Ok(who)
        } else {
            Err(Error::ClaimTooLong)
        },
    }
}

/// The rule for registering a claim for which `current` is on record:
/// nothing may be on record for it, and `who` then owns it as of `now`.
pub open spec fn create_decision(
    who: AccountId,
    current: Option<Registration>,
    now: BlockNumber,
) -> Result<Decision, Error> {
    match current {
        None => Ok(Decision { who, next: Some((who, now)) }),
        Some(_) => Err(Error::ClaimAlreadyExists),
    }
}

/// What the owner of a claim may do with it is decided the same way for
/// whatever the owner does: the claim must be on record, and `who` must be
/// the owner on record. `next` is what the call leaves on record.
pub open spec fn owner_decision(
    who: AccountId,
    current: Option<Registration>,
    next: Option<Registration>,
) -> Result<Decision, Error> {
    match current {
        None => Err(Error::ClaimNotFound),
        Some(registration) => if registration.0 == who {
            Ok(Decision { who, next })
        } else {
            Err(Error::NotClaimOwner)
        },
    }
}

/// The rule for giving a claim up: its owner may, and nothing is left on
/// record.
pub open spec fn revoke_decision(
    who: AccountId,
    current: Option<Registration>,
) -> Result<Decision, Error> {
    owner_decision(who, current, None)
}

/// The rule for handing a claim over: its owner may, and `new_owner` then
/// owns it as of `now`.
pub open spec fn transfer_decision(
    who: AccountId,
    new_owner: AccountId,
    current: Option<Registration>,
    now: BlockNumber,
) -> Result<Decision, Error> {
    owner_decision(who, current, Some((new_owner, now)))
}

/// Tells who signed a call, and turns away a call that nobody signed.
pub fn ensure_signed(origin: Origin) -> (res: Result<AccountId, Error>)
    ensures
        res == signer(origin),
{
    match origin {
        Origin::Signed(who) => Ok(who),
        _ => Err(Error::Unauthenticated),
    }
}

/// Turns away a claim of more bytes than the bound.
pub fn ensure_fits(config: &Config, claim_len: usize) -> (res: Result<(), Error>)
    ensures
        res == if fits(*config, claim_len as nat) {
            Ok::<(), Error>(())
        } else {
            Err(Error::ClaimTooLong)
        },
{
    if claim_len <= config.max_claim_length as usize {
        Ok(())
    } else {
        Err(Error::ClaimTooLong)
    }
}

/// Lets a call that names a claim of `claim_len` bytes through to the record,
/// and tells who makes it. The signature is looked at first: an unsigned call
/// is turned away as such, however long its claim.
pub fn ensure_admissible(
    config: &Config,
    origin: Origin,
    claim_len: usize,
) -> (res: Result<AccountId, Error>)
    ensures
        res == admission(*config, origin, claim_len as nat),
{
    match ensure_signed(origin) {
        Err(e) => Err(e),
        Ok(who) => match ensure_fits(config, claim_len) {
            Err(e) => Err(e),
            Ok(()) => Ok(who),
        },
    }
}

/// Decides on the call of `who` to register a claim for which `current` is on
/// record.
pub fn decide_create(
    who: AccountId,
    current: Option<Registration>,
    now: BlockNumber,
) -> (res: Result<Decision, Error>)
    ensures
        res == create_decision(who, current, now),
{
    match current {
        None => Ok(Decision { who, next: Some((who, now)) }),
        Some(_) => Err(Error::ClaimAlreadyExists),
    }
}

/// Checks that the claim for which `current` is on record is there and is
/// `who`'s.
fn ensure_owner(who: AccountId, current: Option<Registration>) -> (res: Result<(), Error>)
    ensures
        res == match owner_decision(who, current, None) {
            Ok(_) => Ok::<(), Error>(()),
            Err(e) => Err(e),
        },
{
    match current {
        None => Err(Error::ClaimNotFound),
        Some((owner, _)) => if owner == who {
            Ok(())
        } else {
            Err(Error::NotClaimOwner)
        },
    }
}

/// Decides on the call of `who` to give up a claim for which `current` is on
/// record.
pub fn decide_revoke(
    who: AccountId,
    current: Option<Registration>,
) -> (res: Result<Decision, Error>)
    ensures
        res == revoke_decision(who, current),
{
    match ensure_owner(who, current) {
        Ok(()) => Ok(Decision { who, next: None }),
        Err(e) => Err(e),
    }
}

/// Decides on the call of `who` to hand a claim for which `current` is on
/// record to `new_owner`.
pub fn decide_transfer(
    who: AccountId,
    new_owner: AccountId,
    current: Option<Registration>,
    now: BlockNumber,
) -> (res: Result<Decision, Error>)
    ensures
        res == transfer_decision(who, new_owner, current, now),
{
    match ensure_owner(who, current) {
        Ok(()) => Ok(Decision { who, next: Some((new_owner, now)) }),
        Err(e) => Err(e),
    }
}

} // verus!
