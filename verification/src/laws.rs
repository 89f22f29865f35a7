//! What holds of the registry whatever is on record, stated over
//! [`Registry`], in whose terms the contracts of the pallet are stated.

use vstd::prelude::*;
use crate::registry::Registry;
use crate::rules::{fits, Decision};
use crate::types::{AccountId, BlockNumber, Error, Origin};

verus! {

/// A claim that fits and is not on record can be registered by any account:
/// it is then on record for that account as of the block of the call. While
/// it stays on record nobody can register it again, and the attempt leaves
/// the first registration as it is.
pub proof fn law_create_once(
    registry: Registry,
    who: AccountId,
    claim: Seq<u8>,
    now: BlockNumber,
    again: AccountId,
    later: BlockNumber,
)
    requires
        registry.lookup(claim) is None,
        fits(registry.config, claim.len()),
    ensures
        registry.decide_create(Origin::Signed(who), claim, now) == Ok::<Decision, Error>(
            Decision { who, next: Some((who, now)) },
        ),
        registry.create_claim(Origin::Signed(who), claim, now).lookup(claim) == Some((who, now)),
        registry.create_claim(Origin::Signed(who), claim, now).decide_create(
            Origin::Signed(again),
            claim,
            later,
        ) == Err::<Decision, Error>(Error::ClaimAlreadyExists),
        registry.create_claim(Origin::Signed(who), claim, now).create_claim(
            Origin::Signed(again),
            claim,
            later,
        ) == registry.create_claim(Origin::Signed(who), claim, now),
{
}

/// Only its owner can give a claim up. An attempt by any other account is
/// turned down as not the owner's and leaves the record as it is; the
/// owner's own call takes the claim off the record.
pub proof fn law_revoke_by_owner_only(
    registry: Registry,
    claim: Seq<u8>,
    owner: AccountId,
    since: BlockNumber,
    other: AccountId,
)
    requires
        registry.wf(),
        registry.lookup(claim) == Some((owner, since)),
        other != owner,
    ensures
        registry.decide_revoke(Origin::Signed(other), claim) == Err::<Decision, Error>(
            Error::NotClaimOwner,
        ),
        registry.revoke_claim(Origin::Signed(other), claim) == registry,
        registry.decide_revoke(Origin::Signed(owner), claim) == Ok::<Decision, Error>(
            Decision { who: owner, next: None },
        ),
        registry.revoke_claim(Origin::Signed(owner), claim).lookup(claim) is None,
{
}

/// The owner of a claim can hand it to any account, itself included: the
/// claim is then on record for the receiver as of the block of the call, and
/// the receiver can give it up.
pub proof fn law_transfer_hands_over(
    registry: Registry,
    claim: Seq<u8>,
    owner: AccountId,
    since: BlockNumber,
    receiver: AccountId,
    now: BlockNumber,
)
    requires
        registry.wf(),
        registry.lookup(claim) == Some((owner, since)),
    ensures
        registry.decide_transfer(Origin::Signed(owner), receiver, claim, now) == Ok::<
            Decision,
            Error,
        >(Decision { who: owner, next: Some((receiver, now)) }),
        registry.transfer_claim(Origin::Signed(owner), receiver, claim, now).lookup(claim) == Some(
            (receiver, now),
        ),
        registry.transfer_claim(Origin::Signed(owner), receiver, claim, now).decide_revoke(
            Origin::Signed(receiver),
            claim,
        ) == Ok::<Decision, Error>(Decision { who: receiver, next: None }),
{
}

/// Once a claim is handed to another account, the account that gave it away
/// has no say over it: its attempt to give the claim up is turned down as not
/// the owner's.
pub proof fn law_transfer_ends_authority(
    registry: Registry,
    claim: Seq<u8>,
    owner: AccountId,
    since: BlockNumber,
    receiver: AccountId,
    now: BlockNumber,
)
    requires
        registry.wf(),
        registry.lookup(claim) == Some((owner, since)),
        receiver != owner,
    ensures
        registry.transfer_claim(Origin::Signed(owner), receiver, claim, now).decide_revoke(
            Origin::Signed(owner),
            claim,
        ) == Err::<Decision, Error>(Error::NotClaimOwner),
        registry.transfer_claim(Origin::Signed(owner), receiver, claim, now).decide_transfer(
            Origin::Signed(owner),
            owner,
            claim,
            now,
        ) == Err::<Decision, Error>(Error::NotClaimOwner),
{
}

/// A signed call that names a claim longer than the bound is turned down as
/// too long, whatever the operation and whatever is on record, and changes
/// nothing.
pub proof fn law_length_bound(
    registry: Registry,
    who: AccountId,
    receiver: AccountId,
    claim: Seq<u8>,
    now: BlockNumber,
)
    requires
        !fits(registry.config, claim.len()),
    ensures
        registry.decide_create(Origin::Signed(who), claim, now) == Err::<Decision, Error>(
            Error::ClaimTooLong,
        ),
        registry.decide_revoke(Origin::Signed(who), claim) == Err::<Decision, Error>(
            Error::ClaimTooLong,
        ),
        registry.decide_transfer(Origin::Signed(who), receiver, claim, now) == Err::<
            Decision,
            Error,
        >(Error::ClaimTooLong),
        registry.create_claim(Origin::Signed(who), claim, now) == registry,
        registry.revoke_claim(Origin::Signed(who), claim) == registry,
        registry.transfer_claim(Origin::Signed(who), receiver, claim, now) == registry,
{
}

/// A claim that its owner gave up is free again: another account can
/// register it, and it is then on record for that account as of the block of
/// the later call.
pub proof fn law_revoke_then_recreate(
    registry: Registry,
    claim: Seq<u8>,
    first: AccountId,
    now: BlockNumber,
    second: AccountId,
    later: BlockNumber,
)
    requires
        registry.lookup(claim) is None,
        fits(registry.config, claim.len()),
    ensures
        registry.create_claim(Origin::Signed(first), claim, now).decide_revoke(
            Origin::Signed(first),
            claim,
        ) == Ok::<Decision, Error>(Decision { who: first, next: None }),
        registry.create_claim(Origin::Signed(first), claim, now).revoke_claim(
            Origin::Signed(first),
            claim,
        ).decide_create(Origin::Signed(second), claim, later) == Ok::<Decision, Error>(
            Decision { who: second, next: Some((second, later)) },
        ),
        registry.create_claim(Origin::Signed(first), claim, now).revoke_claim(
            Origin::Signed(first),
            claim,
        ).create_claim(Origin::Signed(second), claim, later).lookup(claim) == Some(
            (second, later),
        ),
{
}

/// A registration that is turned down changes nothing, so the same call made
/// again is turned down for the same reason.
pub proof fn law_failed_create_repeats(
    registry: Registry,
    origin: Origin,
    claim: Seq<u8>,
    now: BlockNumber,
)
    requires
        registry.decide_create(origin, claim, now) is Err,
    ensures
        registry.create_claim(origin, claim, now) == registry,
        registry.create_claim(origin, claim, now).decide_create(origin, claim, now)
            == registry.decide_create(origin, claim, now),
{
}

/// An attempt to give a claim up that is turned down changes nothing, so the
/// same call made again is turned down for the same reason.
pub proof fn law_failed_revoke_repeats(registry: Registry, origin: Origin, claim: Seq<u8>)
    requires
        registry.decide_revoke(origin, claim) is Err,
    ensures
        registry.revoke_claim(origin, claim) == registry,
        registry.revoke_claim(origin, claim).decide_revoke(origin, claim)
            == registry.decide_revoke(origin, claim),
{
}

/// An attempt to hand a claim over that is turned down changes nothing, so
/// the same call made again is turned down for the same reason.
pub proof fn law_failed_transfer_repeats(
    registry: Registry,
    origin: Origin,
    receiver: AccountId,
    claim: Seq<u8>,
    now: BlockNumber,
)
    requires
        registry.decide_transfer(origin, receiver, claim, now) is Err,
    ensures
        registry.transfer_claim(origin, receiver, claim, now) == registry,
        registry.transfer_claim(origin, receiver, claim, now).decide_transfer(
            origin,
            receiver,
            claim,
            now,
        ) == registry.decide_transfer(origin, receiver, claim, now),
{
}

/// A call that nobody signed is turned down as such, whatever it asks for,
/// and changes nothing.
pub proof fn law_unsigned_is_turned_down(
    registry: Registry,
    origin: Origin,
    receiver: AccountId,
    claim: Seq<u8>,
    now: BlockNumber,
)
    requires
        !(origin is Signed),
    ensures
        registry.decide_create(origin, claim, now) == Err::<Decision, Error>(
            Error::Unauthenticated,
        ),
        registry.decide_revoke(origin, claim) == Err::<Decision, Error>(Error::Unauthenticated),
        registry.decide_transfer(origin, receiver, claim, now) == Err::<Decision, Error>(
            Error::Unauthenticated,
        ),
        registry.create_claim(origin, claim, now) == registry,
        registry.revoke_claim(origin, claim) == registry,
        registry.transfer_claim(origin, receiver, claim, now) == registry,
{
}

/// A call touches the one claim that it names: what is on record for any other
/// claim stays as it is.
pub proof fn law_other_claims_untouched(
    registry: Registry,
    origin: Origin,
    receiver: AccountId,
    claim: Seq<u8>,
    now: BlockNumber,
    other: Seq<u8>,
)
    requires
        other != claim,
    ensures
        registry.create_claim(origin, claim, now).lookup(other) == registry.lookup(other),
        registry.revoke_claim(origin, claim).lookup(other) == registry.lookup(other),
        registry.transfer_claim(origin, receiver, claim, now).lookup(other) == registry.lookup(
            other,
        ),
{
}

/// No call changes the setting of the registry, and every call keeps the
/// claims on record within the bound.
pub proof fn law_bound_is_kept(
    registry: Registry,
    origin: Origin,
    receiver: AccountId,
    claim: Seq<u8>,
    now: BlockNumber,
)
    requires
        registry.wf(),
    ensures
        registry.create_claim(origin, claim, now).config == registry.config,
        registry.revoke_claim(origin, claim).config == registry.config,
        registry.transfer_claim(origin, receiver, claim, now).config == registry.config,
        registry.create_claim(origin, claim, now).wf(),
        registry.revoke_claim(origin, claim).wf(),
        registry.transfer_claim(origin, receiver, claim, now).wf(),
{
}

} // verus!
