use rand::rngs::StdRng;
use vstd::prelude::*;

use crate::bounded_i32::BoundedI32;
use crate::chance::roll;
use crate::game::{MoveSelection, WeatherId};
use crate::moves::Move;
use crate::poketype::{eff_quarters, Poketype, Type};
use crate::preset::PokeId;
use crate::selvec::PointerVec;
use crate::stat::{StatBlock, StatId};
use crate::status::{Status, StatusBlock};
use crate::trigger::{Ability, Item};

verus! {

/// One creature in a roster.
#[derive(Debug)]
pub struct Pokemon {
    pub ability: Ability,
    pub hp: BoundedI32,
    pub id: PokeId,
    pub item: Option<Item>,
    pub moves: PointerVec<Move>,
    pub poketype: Poketype,
    pub stats: StatBlock,
    pub status: StatusBlock,
}

/// Why a creature loses its action.
#[derive(Debug, PartialEq, Eq, Structural, Copy, Clone)]
pub enum Hindrance {
    FullPara,
    Asleep,
    Frozen,
    HitItself,
    Flinched,
}

/// The outcome of the check made before a creature acts: the statuses it
/// recovered from on the way, and the reason it cannot act, if any.
#[derive(Debug, PartialEq, Eq, Structural, Copy, Clone)]
pub struct MoveCheck {
    pub woke: bool,
    pub thawed: bool,
    pub unconfused: bool,
    pub hindrance: Option<Hindrance>,
}

/// Paralysis stops the action when its draw (from `0..=3`) is 0.
pub open spec fn para_stops(b: StatusBlock, para: u32) -> bool {
    b.has(Status::Paralyse) && para == 0
}

/// Sleep stops the action while its counter is above 0.
pub open spec fn sleep_stops(b: StatusBlock, para: u32) -> bool {
    !para_stops(b, para) && (b.get(Status::Sleep) matches Some(c) && c > 0)
}

pub open spec fn reaches_freeze(b: StatusBlock, para: u32) -> bool {
    !para_stops(b, para) && !sleep_stops(b, para)
}

/// Freeze stops the action unless its draw (from `0..=9`) is 0, which thaws.
pub open spec fn freeze_stops(b: StatusBlock, para: u32, thaw: u32) -> bool {
    reaches_freeze(b, para) && b.has(Status::Freeze) && thaw != 0
}

pub open spec fn reaches_confusion(b: StatusBlock, para: u32, thaw: u32) -> bool {
    reaches_freeze(b, para) && !freeze_stops(b, para, thaw)
}

/// Confusion with a counter above 0 stops the action when the coin (from
/// `0..=1`) is 0.
pub open spec fn confusion_stops(b: StatusBlock, para: u32, thaw: u32, coin: u32) -> bool {
    reaches_confusion(b, para, thaw) && (b.get(Status::Confusion) matches Some(c) && c > 0) && coin == 0
}

pub open spec fn reaches_flinch(b: StatusBlock, para: u32, thaw: u32, coin: u32) -> bool {
    reaches_confusion(b, para, thaw) && !confusion_stops(b, para, thaw, coin)
}

/// The first reason, in the fixed order paralysis, sleep, freeze, confusion,
/// flinch, that stops the action.
pub open spec fn hindrance_of(b: StatusBlock, para: u32, thaw: u32, coin: u32) -> Option<Hindrance> {
    if para_stops(b, para) {
        Some(Hindrance::FullPara)
    } else if sleep_stops(b, para) {
        Some(Hindrance::Asleep)
    } else if freeze_stops(b, para, thaw) {
        Some(Hindrance::Frozen)
    } else if confusion_stops(b, para, thaw, coin) {
        Some(Hindrance::HitItself)
    } else if reaches_flinch(b, para, thaw, coin) && b.has(Status::Flinch) {
        Some(Hindrance::Flinched)
    } else {
        None
    }
}

/// A counter that runs down: at 0 the status ends, otherwise it drops by 1.
pub open spec fn run_down(c: Option<u8>) -> Option<u8> {
    match c {
        Some(n) => if n == 0 { None } else { Some((n - 1) as u8) },
        None => None,
    }
}

/// The counter of `s` after the check.
pub open spec fn status_after_check(b: StatusBlock, para: u32, thaw: u32, coin: u32, s: Status) -> Option<u8> {
    match s {
        Status::Sleep => if !para_stops(b, para) { run_down(b.get(s)) } else { b.get(s) },
        Status::Freeze => if reaches_freeze(b, para) && thaw == 0 { None } else { b.get(s) },
        Status::Confusion => if reaches_confusion(b, para, thaw) { run_down(b.get(s)) } else { b.get(s) },
        Status::Flinch => if reaches_flinch(b, para, thaw, coin) { None } else { b.get(s) },
        _ => b.get(s),
    }
}

/// The outcome `r` and the statuses of `new` are those of the check on
/// `old` with the draws `para` (from `0..=3`), `thaw` (from `0..=9`) and
/// `coin` (from `0..=1`).
pub open spec fn checked(old: Pokemon, new: Pokemon, r: MoveCheck, para: u32, thaw: u32, coin: u32) -> bool {
    &&& para <= 3 && thaw <= 9 && coin <= 1
    &&& r.hindrance == hindrance_of(old.status, para, thaw, coin)
    &&& r.woke == (!para_stops(old.status, para) && old.status.get(Status::Sleep) == Some(0u8))
    &&& r.thawed == (reaches_freeze(old.status, para) && old.status.has(Status::Freeze) && thaw == 0)
    &&& r.unconfused == (reaches_confusion(old.status, para, thaw) && old.status.get(Status::Confusion) == Some(0u8))
    &&& forall|s: Status| #[trigger] new.status.get(s) == status_after_check(old.status, para, thaw, coin, s)
    &&& new.status.nv_status() == (if r.woke || r.thawed { None } else { old.status.nv_status() })
    &&& old.same_but_status(new)
}

impl Pokemon {
    pub open spec fn wf(&self) -> bool {
        &&& self.hp.wf()
        &&& self.hp.min == 0
        &&& self.moves.wf()
        &&& forall|i: int| 0 <= i < self.moves.data@.len() ==> #[trigger] self.moves.data@[i].wf()
        &&& self.stats.wf()
        &&& self.status.wf()
    }

    /// This creature with its health set to `v`.
    pub open spec fn with_hp(self, v: int) -> Pokemon {
        Pokemon { hp: BoundedI32 { data: v as i32, ..self.hp }, ..self }
    }

    /// `other` is this creature with at most its stats changed.
    pub open spec fn same_but_stats(self, other: Pokemon) -> bool {
        other == Pokemon { stats: other.stats, ..self }
    }

    /// `other` is this creature with at most its statuses changed.
    pub open spec fn same_but_status(self, other: Pokemon) -> bool {
        other == Pokemon { status: other.status, ..self }
    }

    /// The effective value of stat `id` under `weather`.
    pub open spec fn stat_value(&self, id: StatId, weather: Option<WeatherId>) -> int {
        self.stats.get(id).value(weather, self.item, self.status.has(Status::Paralyse), self.poketype)
    }

    pub fn new(
        ability: Ability,
        hp: BoundedI32,
        id: PokeId,
        item: Option<Item>,
        moves: PointerVec<Move>,
        poketype: Poketype,
        stats: [i32; 5],
    ) -> (r: Self)
        requires
            hp.wf(),
            hp.min == 0,
            moves.wf(),
            forall|i: int| 0 <= i < moves.data@.len() ==> #[trigger] moves.data@[i].wf(),
            forall|i: int| 0 <= i < 5 ==> stats@[i] >= 0,
        ensures
            r.wf(),
            r.ability == ability,
            r.hp == hp,
            r.id == id,
            r.item == item,
            r.moves == moves,
            r.poketype == poketype,
            r.stats.atk.base == stats@[0],
            r.stats.def.base == stats@[1],
            r.stats.spa.base == stats@[2],
            r.stats.spd.base == stats@[3],
            r.stats.spe.base == stats@[4],
            forall|s: StatId| #[trigger] r.stats.get(s).stage.data == 0,
            forall|s: Status| !#[trigger] r.status.has(s),
    {
        Pokemon {
            ability,
            hp,
            id,
            item,
            moves,
            poketype,
            stats: StatBlock::new(stats),
            status: StatusBlock::new(),
        }
    }

    /// The move a selection uses, if it is a move.
    pub fn get_move(&self, move_: &MoveSelection) -> (r: Option<&Move>)
        requires
            move_ matches MoveSelection::Move(i) ==> i < self.moves.data@.len(),
        ensures
            match *move_ {
                MoveSelection::Switch(_) => r is None,
                MoveSelection::Move(i) => r matches Some(m) && *m == self.moves.data@[i as int],
            },
    {
        match move_ {
            MoveSelection::Switch(_) => None,
            MoveSelection::Move(idx) => Some(self.moves.get(*idx)),
        }
    }

    pub fn has_type(&self, target: &Type) -> (r: bool)
        ensures
            r == self.poketype.types().contains(*target),
    {
        self.poketype.contains(*target)
    }

    /// The multiplier of an attack of type `target` against this creature, in
    /// quarters.
    pub fn type_eff(&self, target: &Type) -> (r: u32)
        ensures
            r == eff_quarters(*target, self.poketype),
            r <= 16,
    {
        target.calc_eff(&self.poketype)
    }

    /// The effective value of stat `id` under `weather`.
    pub fn stat(&self, id: StatId, weather: Option<WeatherId>) -> (r: i64)
        requires
            self.wf(),
        ensures
            r == self.stat_value(id, weather),
            r >= 0,
    {
        let paralysed = self.status.contains(Status::Paralyse);
        self.stats.stat(id).curr(weather, self.item, paralysed, &self.poketype)
    }

    /// The check made before this creature acts, given the draws for
    /// paralysis (`0..=3`), thawing (`0..=9`) and confusion (`0..=1`): in
    /// the order paralysis, sleep, freeze, confusion, flinch it stops at the
    /// first status that costs the action. On the way sleep and confusion
    /// counters run down (ending at 0), freeze may thaw, and a flinch always
    /// ends.
    pub fn check_interference(&mut self, para: u32, thaw: u32, coin: u32) -> (r: MoveCheck)
        requires
            old(self).wf(),
        ensures
            final(self).wf(),
            final(self).hp == old(self).hp,
            final(self).stats == old(self).stats,
            final(self).moves == old(self).moves,
            final(self).item == old(self).item,
            final(self).poketype == old(self).poketype,
            final(self).id == old(self).id,
            final(self).ability == old(self).ability,
            r.hindrance == hindrance_of(old(self).status, para, thaw, coin),
            r.woke == (!para_stops(old(self).status, para) && old(self).status.get(Status::Sleep) == Some(0u8)),
            r.thawed == (reaches_freeze(old(self).status, para) && old(self).status.has(Status::Freeze) && thaw == 0),
            r.unconfused == (reaches_confusion(old(self).status, para, thaw)
                && old(self).status.get(Status::Confusion) == Some(0u8)),
            forall|s: Status| #[trigger] final(self).status.get(s)
                == status_after_check(old(self).status, para, thaw, coin, s),
            final(self).status.nv_status() == (if r.woke || r.thawed { None } else { old(self).status.nv_status() }),
    {
        let ghost b = self.status;
        let mut out = MoveCheck { woke: false, thawed: false, unconfused: false, hindrance: None };
        proof { b.lemma_nv_present(); }
        if self.status.contains(Status::Paralyse) && para == 0 {
            out.hindrance = Some(Hindrance::FullPara);
            return out;
        }
        match self.status.counter(Status::Sleep) {
            Some(c) => {
                if c == 0 {
                    self.status.remove(Status::Sleep);
                    out.woke = true;
                } else {
                    self.status.increment(&Status::Sleep);
                    out.hindrance = Some(Hindrance::Asleep);
                    return out;
                }
            },
            None => {},
        }
        let ghost b1 = self.status;
        if self.status.contains(Status::Freeze) {
            if thaw == 0 {
                self.status.remove(Status::Freeze);
                out.thawed = true;
            } else {
                out.hindrance = Some(Hindrance::Frozen);
                return out;
            }
        }
        let ghost b2 = self.status;
        match self.status.counter(Status::Confusion) {
            Some(c) => {
                if c == 0 {
                    self.status.remove(Status::Confusion);
                    out.unconfused = true;
                } else {
                    self.status.increment(&Status::Confusion);
                    if coin == 0 {
                        out.hindrance = Some(Hindrance::HitItself);
                        return out;
                    }
                }
            },
            None => {},
        }
        if self.status.remove(Status::Flinch) {
            out.hindrance = Some(Hindrance::Flinched);
        }
        out
    }

    /// The check made before this creature acts (see `check_interference`),
    /// with its draws taken from `rng`.
    pub fn exec_moveskip(&mut self, rng: &mut StdRng) -> (r: MoveCheck)
        requires
            old(self).wf(),
        ensures
            final(self).wf(),
            final(self).hp == old(self).hp,
            final(self).stats == old(self).stats,
            final(self).moves == old(self).moves,
            final(self).item == old(self).item,
            final(self).poketype == old(self).poketype,
            final(self).id == old(self).id,
            exists|para: u32, thaw: u32, coin: u32| #[trigger] checked(*old(self), *final(self), r, para, thaw, coin),
    {
        let para = roll(rng, 0, 3);
        let thaw = roll(rng, 0, 9);
        let coin = roll(rng, 0, 1);
        let r = self.check_interference(para, thaw, coin);
        assert(checked(*old(self), *self, r, para, thaw, coin));
        r
    }
}

} // verus!
