use vstd::prelude::*;

use crate::bounded_i32::BoundedI32;
use crate::game::{HazardId, MoveSelection};
use crate::pokemon::Pokemon;
use crate::preset::PokeId;
use crate::selvec::PointerVec;

verus! {

/// The hazard layers on one side, each bounded by its hazard's maximum.
#[derive(Debug, Clone, Copy)]
pub struct HazardBlock {
    pub stealth_rock: BoundedI32,
    pub spikes: BoundedI32,
    pub toxic_spikes: BoundedI32,
}

impl HazardBlock {
    pub open spec fn spec_cap(h: HazardId) -> u8 {
        match h {
            HazardId::StealthRock => 1,
            HazardId::Spikes => 3,
            HazardId::ToxicSpikes => 2,
        }
    }

    /// How many layers of `h` a side holds at most: one of Stealth Rock,
    /// three of Spikes, two of Toxic Spikes, the layers the switch-in table
    /// distinguishes.
    #[verifier::when_used_as_spec(spec_cap)]
    pub fn cap(h: HazardId) -> (r: u8)
        ensures
            r == Self::spec_cap(h),
    {
        match h {
            HazardId::StealthRock => 1,
            HazardId::Spikes => 3,
            HazardId::ToxicSpikes => 2,
        }
    }

    pub open spec fn counter(self, h: HazardId) -> BoundedI32 {
        match h {
            HazardId::StealthRock => self.stealth_rock,
            HazardId::Spikes => self.spikes,
            HazardId::ToxicSpikes => self.toxic_spikes,
        }
    }

    /// The number of layers of `h`.
    pub open spec fn layers(self, h: HazardId) -> int {
        self.counter(h).data as int
    }

    pub open spec fn wf(self) -> bool {
        forall|h: HazardId| #[trigger] self.counter(h).wf()
            && self.counter(h).min == 0
            && self.counter(h).max == Self::spec_cap(h)
    }

    pub open spec fn is_clear(self) -> bool {
        forall|h: HazardId| #[trigger] self.layers(h) == 0
    }

    /// No hazards.
    pub fn new() -> (r: Self)
        ensures
            r.wf(),
            r.is_clear(),
    {
        let r = HazardBlock {
            stealth_rock: BoundedI32 { data: 0, min: 0, max: 1 },
            spikes: BoundedI32 { data: 0, min: 0, max: 3 },
            toxic_spikes: BoundedI32 { data: 0, min: 0, max: 2 },
        };
        assert forall|h: HazardId| #[trigger] r.counter(h).wf()
            && r.counter(h).min == 0
            && r.counter(h).max == Self::spec_cap(h) by {
            match h {
                HazardId::StealthRock => {},
                HazardId::Spikes => {},
                HazardId::ToxicSpikes => {},
            }
        }
        r
    }

    /// The number of layers of `h`.
    pub fn get(&self, h: HazardId) -> (r: i32)
        ensures
            r == self.layers(h),
    {
        match h {
            HazardId::StealthRock => self.stealth_rock.data,
            HazardId::Spikes => self.spikes.data,
            HazardId::ToxicSpikes => self.toxic_spikes.data,
        }
    }

    /// Adds a layer of `h` unless it is at its maximum; returns whether a
    /// layer was added. The other hazards are untouched.
    pub fn inflict(&mut self, h: HazardId) -> (r: bool)
        requires
            old(self).wf(),
        ensures
            final(self).wf(),
            r == (old(self).layers(h) < Self::spec_cap(h)),
            r ==> final(self).layers(h) == old(self).layers(h) + 1,
            !r ==> *final(self) == *old(self),
            forall|o: HazardId| o != h ==> #[trigger] final(self).counter(o) == old(self).counter(o),
    {
        let ghost before = *self;
        assert(before.counter(h).wf());
        let r = match h {
            HazardId::StealthRock => {
                if self.stealth_rock.is_max() {
                    false
                } else {
                    self.stealth_rock.raise(1);
                    true
                }
            },
            HazardId::Spikes => {
                if self.spikes.is_max() {
                    false
                } else {
                    self.spikes.raise(1);
                    true
                }
            },
            HazardId::ToxicSpikes => {
                if self.toxic_spikes.is_max() {
                    false
                } else {
                    self.toxic_spikes.raise(1);
                    true
                }
            },
        };
        assert forall|o: HazardId| #[trigger] self.counter(o).wf()
            && self.counter(o).min == 0
            && self.counter(o).max == Self::spec_cap(o) by {
            assert(before.counter(o).wf());
        }
        r
    }
}

/// One side of the battle: its roster, hazards and submitted selections.
#[derive(Debug)]
pub struct Player {
    pub ai: bool,
    pub hazards: HazardBlock,
    pub roster: PointerVec<Pokemon>,
    pub inputs: Vec<MoveSelection>,
}

/// Every creature of the roster is well formed, those before the living
/// boundary have health left and those after it have none.
pub open spec fn roster_wf(roster: PointerVec<Pokemon>) -> bool {
    &&& roster.wf()
    &&& forall|i: int| 0 <= i < roster.data@.len() ==> (#[trigger] roster.data@[i]).wf()
        && (roster.data@[i].hp.data > 0 <==> i < roster.dead)
}

impl Player {
    pub open spec fn wf(&self) -> bool {
        &&& self.hazards.wf()
        &&& roster_wf(self.roster)
    }

    /// A measure that no effect increases: twice the living count, plus one
    /// while no creature is active.
    pub open spec fn pot(&self) -> int {
        2 * self.roster.dead + if self.roster.active is None { 1int } else { 0int }
    }

    /// The active creature, if any.
    pub open spec fn active_mon(&self) -> Option<Pokemon> {
        match self.roster.active {
            Some(i) => Some(self.roster.data@[i as int]),
            None => None,
        }
    }

    /// Whether `sel` is legal for this side: a switch to a living creature
    /// that is not active, or (unless the side must switch) a move of the
    /// active creature with uses left.
    pub open spec fn valid_selection(&self, awaiting_switch: bool, sel: MoveSelection) -> bool {
        match sel {
            MoveSelection::Switch(i) => i < self.roster.dead && self.roster.active != Some(i),
            MoveSelection::Move(i) => {
                &&& !awaiting_switch
                &&& self.roster.active matches Some(a)
                &&& i < self.roster.data@[a as int].moves.data@.len()
                &&& self.roster.data@[a as int].moves.data@[i as int].pp.data > 0
            },
        }
    }

    /// A side with the given roster, no hazards and no selections; the first
    /// creature is sent out.
    pub fn with_roster(ai: bool, roster: Vec<Pokemon>) -> (r: Self)
        requires
            roster@.len() > 0,
            forall|i: int| 0 <= i < roster@.len() ==> #[trigger] roster@[i].wf() && roster@[i].hp.data > 0,
        ensures
            r.wf(),
            r.ai == ai,
            r.roster.data@ == roster@,
            r.roster.dead == roster@.len(),
            r.roster.active == Some(0usize),
            r.hazards.is_clear(),
            r.inputs@.len() == 0,
    {
        let r = Player {
            ai,
            hazards: HazardBlock::new(),
            roster: PointerVec::from(roster),
            inputs: Vec::new(),
        };
        assert forall|i: int| 0 <= i < r.roster.data@.len() implies (#[trigger] r.roster.data@[i]).wf()
            && (r.roster.data@[i].hp.data > 0 <==> i < r.roster.dead) by {
            assert(roster@[i].wf() && roster@[i].hp.data > 0);
        }
        r
    }

    /// A side with the preset roster Jirachi, Tyranitar, Heatran, Breloom,
    /// Zapdos and Starmie.
    pub fn new(ai: bool) -> (r: Self)
        ensures
            r.wf(),
            r.ai == ai,
            r.roster.data@.len() == 6,
            r.roster.dead == 6,
            r.roster.active == Some(0usize),
            r.hazards.is_clear(),
            r.inputs@.len() == 0,
    {
        let roster = vec![
            Pokemon::preset(PokeId::Jirachi),
            Pokemon::preset(PokeId::Tyranitar),
            Pokemon::preset(PokeId::Heatran),
            Pokemon::preset(PokeId::Breloom),
            Pokemon::preset(PokeId::Zapdos),
            Pokemon::preset(PokeId::Starmie),
        ];
        Player::with_roster(ai, roster)
    }

    /// How the side is named in the log.
    pub fn name(&self) -> &'static str {
        if self.ai {
            "Bot"
        } else {
            "Human"
        }
    }

    pub fn has_active(&self) -> (r: bool)
        ensures
            r == self.roster.active is Some,
    {
        self.roster.active.is_some()
    }

    /// The legal selections: switches to every living creature that is not
    /// active, then, unless the side must switch, every move of the active
    /// creature with uses left.
    pub fn list_valid_inputs(&self, awaiting_switch: bool) -> (r: Vec<MoveSelection>)
        requires
            self.wf(),
        ensures
            forall|sel: MoveSelection| r@.contains(sel) <==> self.valid_selection(awaiting_switch, sel),
            r@.no_duplicates(),
    {
        let mut out: Vec<MoveSelection> = Vec::new();
        let dead = self.roster.dead;
        let mut i: usize = 0;
        while i < dead
            invariant
                self.wf(),
                dead == self.roster.dead,
                i <= dead,
                forall|sel: MoveSelection| out@.contains(sel) <==> (sel matches MoveSelection::Switch(k)
                    && k < i && self.valid_selection(awaiting_switch, sel)),
                out@.no_duplicates(),
            decreases dead - i,
        {
            if self.roster.active != Some(i) {
                let ghost prev = out@;
                assert(!prev.contains(MoveSelection::Switch(i)));
                out.push(MoveSelection::Switch(i));
                assert(out@.no_duplicates()) by {
                    assert forall|x: int, y: int| 0 <= x < out@.len() && 0 <= y < out@.len() && x != y
                        implies out@[x] != out@[y] by {
                        if y == prev.len() { assert(prev[x] == out@[x]); }
                        if x == prev.len() { assert(prev[y] == out@[y]); }
                    }
                }
                assert forall|sel: MoveSelection| out@.contains(sel) <==> (sel matches MoveSelection::Switch(k)
                    && k < i + 1 && self.valid_selection(awaiting_switch, sel)) by {
                    if sel == MoveSelection::Switch(i) {
                        assert(out@[prev.len() as int] == sel);
                    }
                    if prev.contains(sel) {
                        let j = choose|j: int| 0 <= j < prev.len() && prev[j] == sel;
                        assert(out@[j] == sel);
                    }
                    if out@.contains(sel) && sel != MoveSelection::Switch(i) {
                        let j = choose|j: int| 0 <= j < out@.len() && out@[j] == sel;
                        assert(prev[j] == sel);
                    }
                }
            }
            i += 1;
        }
        if !awaiting_switch {
            if let Some(a) = self.roster.active {
                let mon = self.roster.get(a);
                let n = mon.moves.len();
                let mut j: usize = 0;
                while j < n
                    invariant
                        self.wf(),
                        !awaiting_switch,
                        self.roster.active == Some(a),
                        *mon == self.roster.data@[a as int],
                        n == mon.moves.data@.len(),
                        j <= n,
                        forall|sel: MoveSelection| out@.contains(sel) <==> (match sel {
                            MoveSelection::Switch(_) => self.valid_selection(awaiting_switch, sel),
                            MoveSelection::Move(k) => k < j && self.valid_selection(awaiting_switch, sel),
                        }),
                        out@.no_duplicates(),
                    decreases n - j,
                {
                    if mon.moves.get(j).pp.data > 0 {
                        let ghost prev = out@;
                        assert(!prev.contains(MoveSelection::Move(j)));
                        out.push(MoveSelection::Move(j));
                        assert(out@.no_duplicates()) by {
                            assert forall|x: int, y: int| 0 <= x < out@.len() && 0 <= y < out@.len() && x != y
                                implies out@[x] != out@[y] by {
                                if y == prev.len() { assert(prev[x] == out@[x]); }
                                if x == prev.len() { assert(prev[y] == out@[y]); }
                            }
                        }
                        assert forall|sel: MoveSelection| out@.contains(sel) <==> (match sel {
                            MoveSelection::Switch(_) => self.valid_selection(awaiting_switch, sel),
                            MoveSelection::Move(k) => k < j + 1 && self.valid_selection(awaiting_switch, sel),
                        }) by {
                            if sel == MoveSelection::Move(j) {
                                assert(out@[prev.len() as int] == sel);
                            }
                            if prev.contains(sel) {
                                let t = choose|t: int| 0 <= t < prev.len() && prev[t] == sel;
                                assert(out@[t] == sel);
                            }
                            if out@.contains(sel) && sel != MoveSelection::Move(j) {
                                let t = choose|t: int| 0 <= t < out@.len() && out@[t] == sel;
                                assert(prev[t] == sel);
                            }
                        }
                    }
                    j += 1;
                }
            }
        }
        out
    }
}

} // verus!
