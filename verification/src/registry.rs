//! The registry that keeps its own record: [`Pallet`], and [`Registry`], the
//! record as the contracts speak of it.

use vstd::prelude::*;
use crate::rules::{
    admission, create_decision, decide_create, decide_revoke, decide_transfer,
    ensure_admissible, fits, revoke_decision, transfer_decision, Decision,
};
use crate::types::{AccountId, BlockNumber, Config, Error, Event, Origin, Registration};

verus! {

/// The registry as the contracts speak of it: its setting, and the
/// registration of every claim that is on record.
pub struct Registry {
    /// The setting that the registry was made with.
    pub config: Config,
    /// The claims on record, each with its registration.
    pub proofs: Map<Seq<u8>, Registration>,
}

impl Registry {
    /// Every claim on record is within the bound.
    pub open spec fn wf(self) -> bool {
        forall|claim: Seq<u8>| #[trigger]
            self.proofs.contains_key(claim) ==> fits(self.config, claim.len())
    }

    /// What is on record for `claim`.
    pub open spec fn lookup(self, claim: Seq<u8>) -> Option<Registration> {
        if self.proofs.contains_key(claim) {
            Some(self.proofs[claim])
        } else {
            None
        }
    }

    /// The registry with `next` on record for `claim` and every other claim as
    /// it was.
    pub open spec fn record(self, claim: Seq<u8>, next: Option<Registration>) -> Registry {
        Registry {
            config: self.config,
            proofs: match next {
                Some(registration) => self.proofs.insert(claim, registration),
                None => self.proofs.remove(claim),
            },
        }
    }

    /// The registry once `decision` on `claim` is carried out: a call that was
    /// turned down leaves it as it was.
    pub open spec fn carry_out(self, claim: Seq<u8>, decision: Result<Decision, Error>) -> Registry {
        match decision {
            Ok(permitted) => self.record(claim, permitted.next),
            Err(_) => self,
        }
    }

    /// Who makes a call that names `claim`, if the call gets as far as the
    /// record.
    pub open spec fn caller(self, origin: Origin, claim: Seq<u8>) -> Result<AccountId, Error> {
        admission(self.config, origin, claim.len())
    }

    /// How a call that registers `claim` is decided here.
    pub open spec fn decide_create(
        self,
        origin: Origin,
        claim: Seq<u8>,
        now: BlockNumber,
    ) -> Result<Decision, Error> {
        match self.caller(origin, claim) {
            Ok(who) => create_decision(who, self.lookup(claim), now),
            Err(e) => Err(e),
        }
    }

    /// How a call that gives `claim` up is decided here.
    pub open spec fn decide_revoke(self, origin: Origin, claim: Seq<u8>) -> Result<Decision, Error> {
        match self.caller(origin, claim) {
            Ok(who) => revoke_decision(who, self.lookup(claim)),
            Err(e) => Err(e),
        }
    }

    /// How a call that hands `claim` to `new_owner` is decided here.
    pub open spec fn decide_transfer(
        self,
        origin: Origin,
        new_owner: AccountId,
        claim: Seq<u8>,
        now: BlockNumber,
    ) -> Result<Decision, Error> {
        match self.caller(origin, claim) {
            Ok(who) => transfer_decision(who, new_owner, self.lookup(claim), now),
            Err(e) => Err(e),
        }
    }

    /// The registry after a call that registers `claim`.
    pub open spec fn create_claim(self, origin: Origin, claim: Seq<u8>, now: BlockNumber) -> Registry {
        self.carry_out(claim, self.decide_create(origin, claim, now))
    }

    /// The registry after a call that gives `claim` up.
    pub open spec fn revoke_claim(self, origin: Origin, claim: Seq<u8>) -> Registry {
        self.carry_out(claim, self.decide_revoke(origin, claim))
    }

    /// The registry after a call that hands `claim` to `new_owner`.
    pub open spec fn transfer_claim(
        self,
        origin: Origin,
        new_owner: AccountId,
        claim: Seq<u8>,
        now: BlockNumber,
    ) -> Registry {
        self.carry_out(claim, self.decide_transfer(origin, new_owner, claim, now))
    }
}

/// One claim on record, with its registration.
struct Entry {
    claim: Vec<u8>,
    registration: Registration,
}

/// Whether some entry is for `claim`.
spec fn holds(entries: Seq<Entry>, claim: Seq<u8>) -> bool {
    exists|i: int| 0 <= i < entries.len() && (#[trigger] entries[i]).claim@ == claim
}

/// The place of an entry for `claim`, where there is one.
spec fn slot(entries: Seq<Entry>, claim: Seq<u8>) -> int {
    choose|i: int| 0 <= i < entries.len() && (#[trigger] entries[i]).claim@ == claim
}

/// No two entries are for the same claim.
spec fn distinct(entries: Seq<Entry>) -> bool {
    forall|i: int, j: int|
        0 <= i < j < entries.len() ==> (#[trigger] entries[i]).claim@ != (#[trigger] entries[j]).claim@
}

/// Every entry's claim is within the bound.
spec fn bounded(config: Config, entries: Seq<Entry>) -> bool {
    forall|i: int| 0 <= i < entries.len() ==> fits(config, (#[trigger] entries[i]).claim@.len())
}

/// The registrations that the entries stand for.
spec fn proofs_of(entries: Seq<Entry>) -> Map<Seq<u8>, Registration> {
    Map::new(
        |claim: Seq<u8>| holds(entries, claim),
        |claim: Seq<u8>| entries[slot(entries, claim)].registration,
    )
}

/// A new entry for a claim that has none yet puts that claim on record and
/// touches no other.
proof fn lemma_push(entries: Seq<Entry>, entry: Entry)
    requires
        distinct(entries),
        !holds(entries, entry.claim@),
    ensures
        distinct(entries.push(entry)),
        proofs_of(entries.push(entry)) == proofs_of(entries).insert(entry.claim@, entry.registration),
{
    let after = entries.push(entry);
    assert forall|claim: Seq<u8>|
        holds(after, claim) <==> (holds(entries, claim) || claim == entry.claim@) by {
        if holds(entries, claim) {
            assert(after[slot(entries, claim)].claim@ == claim);
        }
        if claim == entry.claim@ {
            assert(after[entries.len() as int].claim@ == claim);
        }
    }
}

/// Another entry for the same claim in place of the old one replaces what is
/// on record for that claim and touches no other.
proof fn lemma_update(entries: Seq<Entry>, at: int, entry: Entry)
    requires
        distinct(entries),
        0 <= at < entries.len(),
        entries[at].claim@ == entry.claim@,
    ensures
        distinct(entries.update(at, entry)),
        proofs_of(entries.update(at, entry)) == proofs_of(entries).insert(
            entry.claim@,
            entry.registration,
        ),
{
    let after = entries.update(at, entry);
    assert forall|i: int| 0 <= i < after.len() implies
        (#[trigger] after[i]).claim@ == entries[i].claim@ by {}
    assert forall|claim: Seq<u8>| holds(after, claim) <==> holds(entries, claim) by {
        if holds(entries, claim) {
            assert(after[slot(entries, claim)].claim@ == claim);
        }
    }
}

/// Taking an entry out takes its claim off the record and touches no other.
proof fn lemma_remove(entries: Seq<Entry>, at: int)
    requires
        distinct(entries),
        0 <= at < entries.len(),
    ensures
        distinct(entries.remove(at)),
        proofs_of(entries.remove(at)) == proofs_of(entries).remove(entries[at].claim@),
{
    let after = entries.remove(at);
    assert forall|i: int| 0 <= i < after.len() implies
        #[trigger] after[i] == entries[if i < at { i } else { i + 1 }] by {}
    assert forall|claim: Seq<u8>|
        holds(after, claim) <==> (holds(entries, claim) && claim != entries[at].claim@) by {
        if holds(entries, claim) && claim != entries[at].claim@ {
            let i = slot(entries, claim);
            assert(after[if i < at { i } else { i - 1 }] == entries[i]);
        }
    }
}

/// A copy of `bytes`.
fn copy_of(bytes: &Vec<u8>) -> (res: Vec<u8>)
    ensures
        res@ == bytes@,
{
    bytes.clone()
}

/// The place of the entry for `claim`, if there is one.
fn position(entries: &Vec<Entry>, claim: &Vec<u8>) -> (res: Option<usize>)
    ensures
        match res {
            Some(at) => at < entries.len() && entries[at as int].claim@ == claim@,
            None => !holds(entries@, claim@),
        },
{
    let mut at: usize = 0;
    while at < entries.len()
        invariant
            at <= entries.len(),
            forall|i: int| 0 <= i < at ==> (#[trigger] entries[i]).claim@ != claim@,
        decreases entries.len() - at,
    {
        if entries[at].claim == *claim {
            return Some(at);
        }
        at += 1;
    }
    None
}

/// The registry itself: its setting, and the claims on record.
pub struct Pallet {
    config: Config,
    entries: Vec<Entry>,
}

impl View for Pallet {
    type V = Registry;

    closed spec fn view(&self) -> Registry {
        Registry { config: self.config, proofs: proofs_of(self.entries@) }
    }
}

impl Pallet {
    /// No claim has two entries, and every entry is within the bound.
    #[verifier::type_invariant]
    spec fn inv(self) -> bool {
        distinct(self.entries@) && bounded(self.config, self.entries@)
    }

    /// An empty registry with the setting `config`.
    pub fn new(config: Config) -> (pallet: Pallet)
        ensures
            pallet@.config == config,
            pallet@.proofs == Map::<Seq<u8>, Registration>::empty(),
            pallet@.wf(),
    {
        Pallet { config, entries: Vec::new() }
    }

    /// The setting that the registry was made with.
    pub fn config(&self) -> (config: Config)
        ensures
            config == self@.config,
    {
        self.config
    }

    /// What is on record for `claim`.
    pub fn lookup(&self, claim: &Vec<u8>) -> (res: Option<Registration>)
        ensures
            res == self@.lookup(claim@),
            self@.wf(),
    {
        proof {
            use_type_invariant(self);
        }
        match position(&self.entries, claim) {
            Some(at) => Some(self.entries[at].registration),
            None => None,
        }
    }

    /// Puts `next` on record for `claim`, in place of what was there.
    fn record(&mut self, claim: &Vec<u8>, next: Option<Registration>)
        requires
            next is Some ==> fits(old(self)@.config, claim@.len()),
        ensures
            final(self)@ == old(self)@.record(claim@, next),
            final(self)@.wf(),
    {
        proof {
            use_type_invariant(&*self);
        }
        // The entries are taken out while they change, so that the registry
        // is in order at every moment.
        let mut entries: Vec<Entry> = Vec::new();
        std::mem::swap(&mut entries, &mut self.entries);
        let ghost before = entries@;
        match (position(&entries, claim), next) {
            (Some(at), Some(registration)) => {
                let entry = Entry { claim: copy_of(claim), registration };
                proof {
                    lemma_update(before, at as int, entry);
                }
                entries[at] = entry;
            },
            (Some(at), None) => {
                proof {
                    lemma_remove(before, at as int);
                }
                entries.remove(at);
            },
            (None, Some(registration)) => {
                let entry = Entry { claim: copy_of(claim), registration };
                proof {
                    lemma_push(before, entry);
                }
                entries.push(entry);
            },
            (None, None) => {
                assert(proofs_of(before).remove(claim@) =~= proofs_of(before));
            },
        }
        self.entries = entries;
    }

    /// Registers `claim` for the account that signed `origin`, as of `now`.
    ///
    /// The call is turned down, and nothing changes, when nobody signed it,
    /// when the claim is too long, or when the claim is on record already.
    pub fn create_claim(
        &mut self,
        origin: Origin,
        claim: Vec<u8>,
        now: BlockNumber,
    ) -> (res: Result<Event, Error>)
        ensures
            final(self)@ == old(self)@.create_claim(origin, claim@, now),
            final(self)@.wf(),
            res == match old(self)@.decide_create(origin, claim@, now) {
                Ok(permitted) => Ok::<Event, Error>(Event::ClaimCreated(permitted.who, claim)),
                Err(e) => Err(e),
            },
    {
        proof {
            use_type_invariant(&*self);
        }
        let who = match ensure_admissible(&self.config, origin, claim.len()) {
            Ok(who) => who,
            Err(e) => { return Err(e); },
        };
        match decide_create(who, self.lookup(&claim), now) {
            Ok(permitted) => {
                self.record(&claim, permitted.next);
                Ok(Event::ClaimCreated(permitted.who, claim))
            },
            Err(e) => Err(e),
        }
    }

    /// Takes `claim` off the record, for its owner.
    ///
    /// The call is turned down, and nothing changes, when nobody signed it,
    /// when the claim is too long, when it is not on record, or when it is
    /// somebody else's.
    pub fn revoke_claim(&mut self, origin: Origin, claim: Vec<u8>) -> (res: Result<Event, Error>)
        ensures
            final(self)@ == old(self)@.revoke_claim(origin, claim@),
            final(self)@.wf(),
            res == match old(self)@.decide_revoke(origin, claim@) {
                Ok(permitted) => Ok::<Event, Error>(Event::ClaimRevoked(permitted.who, claim)),
                Err(e) => Err(e),
            },
    {
        proof {
            use_type_invariant(&*self);
        }
        let who = match ensure_admissible(&self.config, origin, claim.len()) {
            Ok(who) => who,
            Err(e) => { return Err(e); },
        };
        match decide_revoke(who, self.lookup(&claim)) {
            Ok(permitted) => {
                self.record(&claim, permitted.next);
                Ok(Event::ClaimRevoked(permitted.who, claim))
            },
            Err(e) => Err(e),
        }
    }

    /// Hands `claim` from its owner to `owner`, as of `now`.
    ///
    /// The call is turned down, and nothing changes, when nobody signed it,
    /// when the claim is too long, when it is not on record, or when it is
    /// somebody else's. The event names the caller, who owned the claim
    /// before.
    pub fn transfer_claim(
        &mut self,
        origin: Origin,
        owner: AccountId,
        claim: Vec<u8>,
        now: BlockNumber,
    ) -> (res: Result<Event, Error>)
        ensures
            final(self)@ == old(self)@.transfer_claim(origin, owner, claim@, now),
            final(self)@.wf(),
            res == match old(self)@.decide_transfer(origin, owner, claim@, now) {
                Ok(permitted) => Ok::<Event, Error>(Event::ClaimTransferred(permitted.who, claim)),
                Err(e) => Err(e),
            },
    {
        proof {
            use_type_invariant(&*self);
        }
        let who = match ensure_admissible(&self.config, origin, claim.len()) {
            Ok(who) => who,
            Err(e) => { return Err(e); },
        };
        match decide_transfer(who, owner, self.lookup(&claim), now) {
            Ok(permitted) => {
                self.record(&claim, permitted.next);
                Ok(Event::ClaimTransferred(permitted.who, claim))
            },
            Err(e) => Err(e),
        }
    }
}

} // verus!
