use rand::rngs::StdRng;
use vstd::prelude::*;

use crate::chance::roll;

verus! {

/// Conditions a creature can be under. The first six are non-volatile (at
/// most one at a time); the others are volatile.
#[derive(Debug, PartialEq, Eq, Structural, Copy, Clone, Hash)]
pub enum Status {
    Paralyse,
    Burn,
    Poison,
    Toxic,
    Sleep,
    Freeze,
    Flinch,
    Confusion,
    Drowsy,
}

/// The number of status kinds.
pub const STATUS_KINDS: usize = 9;

impl Status {
    pub open spec fn spec_is_nv(&self) -> bool {
        match self {
            Status::Paralyse | Status::Burn | Status::Poison | Status::Toxic | Status::Sleep
            | Status::Freeze => true,
            _ => false,
        }
    }

    /// Whether the status is non-volatile.
    #[verifier::when_used_as_spec(spec_is_nv)]
    pub fn is_nv(&self) -> (r: bool)
        ensures
            r == self.spec_is_nv(),
    {
        match self {
            Status::Paralyse | Status::Burn | Status::Poison | Status::Toxic | Status::Sleep
            | Status::Freeze => true,
            _ => false,
        }
    }

    /// How the status is named in the log.
    pub fn name(&self) -> &'static str {
        match self {
            Status::Paralyse => "PAR",
            Status::Burn => "BRN",
            Status::Poison => "PSN",
            Status::Toxic => "TOX",
            Status::Sleep => "SLP",
            Status::Freeze => "FRZ",
            Status::Flinch => "flinched",
            Status::Confusion => "confused",
            Status::Drowsy => "drowsy",
        }
    }

    pub open spec fn spec_slot(&self) -> usize {
        match self {
            Status::Paralyse => 0,
            Status::Burn => 1,
            Status::Poison => 2,
            Status::Toxic => 3,
            Status::Sleep => 4,
            Status::Freeze => 5,
            Status::Flinch => 6,
            Status::Confusion => 7,
            Status::Drowsy => 8,
        }
    }

    /// The position of the status in a `StatusBlock`.
    #[verifier::when_used_as_spec(spec_slot)]
    pub fn slot(&self) -> (r: usize)
        ensures
            r == self.spec_slot(),
            r < STATUS_KINDS,
    {
        match self {
            Status::Paralyse => 0,
            Status::Burn => 1,
            Status::Poison => 2,
            Status::Toxic => 3,
            Status::Sleep => 4,
            Status::Freeze => 5,
            Status::Flinch => 6,
            Status::Confusion => 7,
            Status::Drowsy => 8,
        }
    }

    /// The lowest counter the status starts with when inflicted.
    pub open spec fn first_counter_low(self) -> u8 {
        match self {
            Status::Sleep => 1,
            Status::Confusion => 2,
            Status::Drowsy => 2,
            _ => 0,
        }
    }

    /// The highest counter the status starts with when inflicted.
    pub open spec fn first_counter_high(self) -> u8 {
        match self {
            Status::Sleep => 3,
            Status::Confusion => 4,
            Status::Drowsy => 2,
            _ => 0,
        }
    }

    /// The counter after one end-of-turn tick: Toxic counts up (up to 255),
    /// Sleep, Confusion and Drowsy count down to 0, the others keep theirs.
    pub open spec fn ticked(self, c: u8) -> u8 {
        match self {
            Status::Toxic => if c < 255 { (c + 1) as u8 } else { c },
            Status::Sleep | Status::Confusion | Status::Drowsy => if c > 0 { (c - 1) as u8 } else { c },
            _ => c,
        }
    }
}

/// The statuses of one creature, each with its own counter, holding at most
/// one non-volatile status.
#[derive(Debug)]
pub struct StatusBlock {
    slots: Vec<Option<u8>>,
    nv: Option<Status>,
}

impl StatusBlock {
    /// The counter of `s`, or `None` when `s` is absent.
    pub closed spec fn get(&self, s: Status) -> Option<u8> {
        self.slots@[s.spec_slot() as int]
    }

    pub open spec fn has(&self, s: Status) -> bool {
        self.get(s) is Some
    }

    /// The non-volatile status held, if any.
    pub closed spec fn nv_status(&self) -> Option<Status> {
        self.nv
    }

    pub closed spec fn wf(&self) -> bool {
        &&& self.slots@.len() == STATUS_KINDS
        &&& forall|s: Status| #[trigger] s.spec_is_nv() ==> (self.has(s) <==> self.nv == Some(s))
        &&& self.nv matches Some(s) ==> s.spec_is_nv()
    }

    /// The same statuses and counters.
    pub open spec fn same(&self, other: &StatusBlock) -> bool {
        forall|s: Status| #[trigger] self.get(s) == other.get(s)
    }

    /// `other` differs from `self` at most in the counter of `s`.
    pub open spec fn same_except(&self, other: &StatusBlock, s: Status) -> bool {
        forall|t: Status| t != s ==> #[trigger] self.get(t) == other.get(t)
    }

    pub fn new() -> (r: Self)
        ensures
            r.wf(),
            forall|s: Status| !#[trigger] r.has(s),
    {
        let mut slots: Vec<Option<u8>> = Vec::new();
        let mut i: usize = 0;
        while i < STATUS_KINDS
            invariant
                i <= STATUS_KINDS,
                slots@.len() == i,
                forall|j: int| 0 <= j < i ==> slots@[j] is None,
            decreases STATUS_KINDS - i,
        {
            slots.push(None);
            i += 1;
        }
        StatusBlock { slots, nv: None }
    }

    pub fn contains(&self, s: Status) -> (r: bool)
        requires
            self.wf(),
        ensures
            r == self.has(s),
    {
        self.slots[s.slot()].is_some()
    }

    /// The counter of `s`, if present.
    pub fn counter(&self, s: Status) -> (r: Option<u8>)
        requires
            self.wf(),
        ensures
            r == self.get(s),
    {
        self.slots[s.slot()]
    }

    /// The non-volatile status held, if any.
    pub fn nv(&self) -> (r: Option<Status>)
        ensures
            r == self.nv_status(),
    {
        self.nv
    }

    /// Inserts `status` with counter `c`. Fails (changing nothing) when the
    /// status is already present, or when it is non-volatile and another
    /// non-volatile status is present.
    pub fn insert(&mut self, status: Status, c: u8) -> (r: bool)
        requires
            old(self).wf(),
        ensures
            final(self).wf(),
            r == (!old(self).has(status) && !(status.spec_is_nv() && old(self).nv_status() is Some)),
            r ==> final(self).get(status) == Some(c) && old(self).same_except(&*final(self), status),
            !r ==> final(self).same(&*old(self)),
            r && status.spec_is_nv() ==> final(self).nv_status() == Some(status),
            !status.spec_is_nv() || !r ==> final(self).nv_status() == old(self).nv_status(),
    {
        let i = status.slot();
        if self.slots[i].is_some() {
            return false;
        }
        if status.is_nv() {
            if self.nv.is_some() {
                return false;
            }
            self.nv = Some(status);
        }
        self.slots.set(i, Some(c));
        proof {
            assert forall|s: Status| s != status implies #[trigger] old(self).get(s) == self.get(s) by {
                Self::lemma_slot_injective(s, status);
            }
        }
        true
    }

    /// Inflicts `status`, drawing its starting counter from `rng` (Sleep
    /// lasts 1 to 3 turns, Confusion 2 to 4, Drowsy 2, the others count
    /// from 0). Fails exactly as `insert` does.
    pub fn add(&mut self, status: &Status, rng: &mut StdRng) -> (r: bool)
        requires
            old(self).wf(),
        ensures
            final(self).wf(),
            r == (!old(self).has(*status) && !(status.spec_is_nv() && old(self).nv_status() is Some)),
            r ==> old(self).same_except(&*final(self), *status),
            r ==> (final(self).get(*status) matches Some(c)
                && status.first_counter_low() <= c <= status.first_counter_high()),
            !r ==> final(self).same(&*old(self)),
            r && status.spec_is_nv() ==> final(self).nv_status() == Some(*status),
            !status.spec_is_nv() || !r ==> final(self).nv_status() == old(self).nv_status(),
    {
        let c: u8 = match status {
            Status::Sleep => roll(rng, 1, 3) as u8,
            Status::Confusion => roll(rng, 2, 4) as u8,
            Status::Drowsy => 2,
            _ => 0,
        };
        self.insert(*status, c)
    }

    /// Removes `status`; returns whether it was present.
    pub fn remove(&mut self, status: Status) -> (r: bool)
        requires
            old(self).wf(),
        ensures
            final(self).wf(),
            r == old(self).has(status),
            !final(self).has(status),
            old(self).same_except(&*final(self), status),
            final(self).nv_status() == (if status.spec_is_nv() && r { None } else { old(self).nv_status() }),
    {
        let i = status.slot();
        if self.slots[i].is_none() {
            return false;
        }
        if status.is_nv() {
            self.nv = None;
        }
        self.slots.set(i, None);
        proof {
            assert forall|s: Status| s != status implies #[trigger] old(self).get(s) == self.get(s) by {
                Self::lemma_slot_injective(s, status);
            }
        }
        true
    }

    /// Removes the non-volatile status, leaving volatile ones alone; returns
    /// whether there was one.
    pub fn clear_nv(&mut self) -> (r: bool)
        requires
            old(self).wf(),
        ensures
            final(self).wf(),
            r == (old(self).nv_status() is Some),
            final(self).nv_status() is None,
            forall|s: Status| !s.spec_is_nv() ==> #[trigger] final(self).get(s) == old(self).get(s),
            forall|s: Status| s.spec_is_nv() ==> !#[trigger] final(self).has(s),
    {
        if let Some(status) = self.nv {
            self.remove(status);
            true
        } else {
            false
        }
    }

    /// Advances the counter of `status`, if present, by one end-of-turn
    /// tick.
    pub fn increment(&mut self, status: &Status)
        requires
            old(self).wf(),
        ensures
            final(self).wf(),
            final(self).nv_status() == old(self).nv_status(),
            old(self).same_except(&*final(self), *status),
            final(self).get(*status) == (match old(self).get(*status) {
                Some(c) => Some(status.ticked(c)),
                None => None,
            }),
    {
        let i = status.slot();
        if let Some(c) = self.slots[i] {
            let next: u8 = match status {
                Status::Toxic => if c < 255 { c + 1 } else { c },
                Status::Sleep | Status::Confusion | Status::Drowsy => if c > 0 { c - 1 } else { c },
                _ => c,
            };
            self.slots.set(i, Some(next));
            proof {
                assert forall|s: Status| s != *status implies #[trigger] old(self).get(s) == self.get(s) by {
                    Self::lemma_slot_injective(s, *status);
                }
            }
        }
    }

    /// In a well-formed block the non-volatile status held is exactly the
    /// one non-volatile status present.
    pub proof fn lemma_nv_present(&self)
        requires
            self.wf(),
        ensures
            forall|s: Status| #[trigger] s.spec_is_nv() ==> (self.has(s) <==> self.nv_status() == Some(s)),
            self.nv_status() matches Some(s) ==> s.spec_is_nv() && self.has(s),
    {
    }

    proof fn lemma_slot_injective(a: Status, b: Status)
        ensures
            a != b ==> a.spec_slot() != b.spec_slot(),
    {
    }

    /// At most one non-volatile status is present in a well-formed block.
    pub proof fn lemma_at_most_one_nv(&self, a: Status, b: Status)
        requires
            self.wf(),
            a.spec_is_nv(),
            b.spec_is_nv(),
            self.has(a),
            self.has(b),
        ensures
            a == b,
    {
    }
}

} // verus!
