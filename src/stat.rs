use vstd::prelude::*;

use crate::bounded_i32::{clamp, BoundedI32};
use crate::game::WeatherId;
use crate::poketype::{Poketype, Type};
use crate::trigger::Item;

verus! {

/// The five battle stats.
#[derive(Hash, PartialEq, Eq, Structural, Clone, Copy, Debug, Default)]
pub enum StatId {
    #[default]
    Atk,
    Def,
    Spa,
    Spd,
    Spe,
}

impl StatId {
    /// The stat's short name.
    pub fn name(&self) -> &'static str {
        match self {
            StatId::Atk => "ATK",
            StatId::Def => "DEF",
            StatId::Spa => "SPA",
            StatId::Spd => "SPD",
            StatId::Spe => "SPE",
        }
    }
}

/// The lowest stage a stat can be lowered to.
pub const MIN_STAGE: i32 = -6;

/// The highest stage a stat can be raised to.
pub const MAX_STAGE: i32 = 6;

/// `base` scaled by a stage in `[-6, 6]`: `base * 2 / (2 - stage)` below
/// zero, `base * (2 + stage) / 2` above, truncated.
pub open spec fn staged(base: int, stage: int) -> int {
    if stage < 0 {
        base * 2 / (2 - stage)
    } else if stage == 0 {
        base
    } else {
        base * (2 + stage) / 2
    }
}

/// `v` multiplied by 1.5, truncated.
pub open spec fn boosted(v: int) -> int {
    v * 3 / 2
}

/// The effective value of stat `id` with base `base` and stage `stage`,
/// given the weather, the held item, whether the holder is paralysed, and
/// its types.
pub open spec fn effective_value(
    id: StatId,
    base: int,
    stage: int,
    weather: Option<WeatherId>,
    item: Option<Item>,
    paralysed: bool,
    poketype: Poketype,
) -> int {
    let v = staged(base, stage);
    match id {
        StatId::Spe => {
            let scarfed = if item == Some(Item::ChoiceScarf) { boosted(v) } else { v };
            if paralysed { scarfed / 4 } else { scarfed }
        },
        StatId::Spd => if weather == Some(WeatherId::Sand) && poketype.types().contains(Type::Rock) {
            boosted(v)
        } else {
            v
        },
        StatId::Def => if weather == Some(WeatherId::Hail) && poketype.types().contains(Type::Ice) {
            boosted(v)
        } else {
            v
        },
        _ => v,
    }
}

/// One stat: its base value and its stage modifier.
#[derive(Debug, Clone, Copy)]
pub struct Stat {
    pub id: StatId,
    pub base: i32,
    pub stage: BoundedI32,
}

impl Stat {
    pub open spec fn wf(self) -> bool {
        &&& self.base >= 0
        &&& self.stage.wf()
        &&& self.stage.min == MIN_STAGE
        &&& self.stage.max == MAX_STAGE
    }

    /// The effective value of this stat in the given circumstances.
    pub open spec fn value(
        self,
        weather: Option<WeatherId>,
        item: Option<Item>,
        paralysed: bool,
        poketype: Poketype,
    ) -> int {
        effective_value(self.id, self.base as int, self.stage.data as int, weather, item, paralysed, poketype)
    }

    /// A stat with base `value` at stage 0.
    pub fn new(value: i32, id: StatId) -> (r: Self)
        requires
            value >= 0,
        ensures
            r.wf(),
            r.id == id,
            r.base == value,
            r.stage.data == 0,
    {
        Stat { id, base: value, stage: BoundedI32 { data: 0, min: MIN_STAGE, max: MAX_STAGE } }
    }

    /// The effective value: the base scaled by the stage, then for Speed
    /// multiplied by 1.5 with a Choice Scarf and quartered under paralysis,
    /// for Special Defense multiplied by 1.5 in a sandstorm for a Rock type,
    /// and for Defense multiplied by 1.5 in hail for an Ice type; each step
    /// truncated.
    pub fn curr(
        &self,
        weather: Option<WeatherId>,
        item: Option<Item>,
        paralysed: bool,
        poketype: &Poketype,
    ) -> (r: i64)
        requires
            self.wf(),
        ensures
            r == self.value(weather, item, paralysed, *poketype),
            r >= 0,
    {
        let base = self.base as i64;
        let stage = self.stage.data as i64;
        let v: i64 = if stage < 0 {
            base * 2 / (2 - stage)
        } else if stage == 0 {
            base
        } else {
            assert(base * (2 + stage) <= 8 * 0x7fff_ffff) by (nonlinear_arith)
                requires
                    0 <= base <= 0x7fff_ffff,
                    0 < stage <= 6,
            ;
            base * (2 + stage) / 2
        };
        assert(0 <= v <= 4 * base) by (nonlinear_arith)
            requires
                base >= 0,
                -6 <= stage <= 6,
                v == staged(base as int, stage as int),
        ;
        match self.id {
            StatId::Spe => {
                let scarfed = if item == Some(Item::ChoiceScarf) { v * 3 / 2 } else { v };
                if paralysed { scarfed / 4 } else { scarfed }
            },
            StatId::Spd => if weather == Some(WeatherId::Sand) && poketype.contains(Type::Rock) {
                v * 3 / 2
            } else {
                v
            },
            StatId::Def => if weather == Some(WeatherId::Hail) && poketype.contains(Type::Ice) {
                v * 3 / 2
            } else {
                v
            },
            _ => v,
        }
    }

    /// Moves the stage by `diff`, clamped to `[-6, 6]`; returns whether the
    /// stage changed.
    pub fn alter(&mut self, diff: i32) -> (r: bool)
        requires
            old(self).wf(),
        ensures
            final(self).wf(),
            final(self).id == old(self).id,
            final(self).base == old(self).base,
            final(self).stage.data == clamp(old(self).stage.data + diff, MIN_STAGE as int, MAX_STAGE as int),
            r == (final(self).stage.data != old(self).stage.data),
    {
        let prev = self.stage.data;
        self.stage.raise(diff as i64);
        prev != self.stage.data
    }
}

/// Altering a stage keeps it within `[-6, 6]`, and for a non-zero `diff`
/// the stage stays the same exactly when it already sat at the bound in the
/// direction of `diff`.
pub proof fn lemma_alter_saturation(s: Stat, diff: i32)
    requires
        s.wf(),
        diff != 0,
    ensures
        ({
            let next = clamp(s.stage.data + diff, MIN_STAGE as int, MAX_STAGE as int);
            &&& MIN_STAGE <= next <= MAX_STAGE
            &&& (next == s.stage.data <==> (diff > 0 && s.stage.data == MAX_STAGE) || (diff < 0
                && s.stage.data == MIN_STAGE))
        }),
{
}

/// The five stats of a creature.
#[derive(Debug, Clone, Copy)]
pub struct StatBlock {
    pub atk: Stat,
    pub def: Stat,
    pub spa: Stat,
    pub spd: Stat,
    pub spe: Stat,
}

impl StatBlock {
    pub open spec fn get(self, id: StatId) -> Stat {
        match id {
            StatId::Atk => self.atk,
            StatId::Def => self.def,
            StatId::Spa => self.spa,
            StatId::Spd => self.spd,
            StatId::Spe => self.spe,
        }
    }

    pub open spec fn wf(self) -> bool {
        forall|id: StatId| #[trigger] self.get(id).wf() && self.get(id).id == id
    }

    /// Stats with the given base values, in the order Attack, Defense,
    /// Special Attack, Special Defense, Speed, all at stage 0.
    pub fn new(values: [i32; 5]) -> (r: Self)
        requires
            forall|i: int| 0 <= i < 5 ==> values@[i] >= 0,
        ensures
            r.wf(),
            r.atk.base == values@[0],
            r.def.base == values@[1],
            r.spa.base == values@[2],
            r.spd.base == values@[3],
            r.spe.base == values@[4],
            forall|id: StatId| #[trigger] r.get(id).stage.data == 0,
    {
        let r = StatBlock {
            atk: Stat::new(values[0], StatId::Atk),
            def: Stat::new(values[1], StatId::Def),
            spa: Stat::new(values[2], StatId::Spa),
            spd: Stat::new(values[3], StatId::Spd),
            spe: Stat::new(values[4], StatId::Spe),
        };
        assert forall|id: StatId| #[trigger] r.get(id).wf() && r.get(id).id == id by {
            match id {
                StatId::Atk => {},
                StatId::Def => {},
                StatId::Spa => {},
                StatId::Spd => {},
                StatId::Spe => {},
            }
        }
        r
    }

    /// The stat `id`.
    pub fn stat(&self, id: StatId) -> (r: &Stat)
        ensures
            *r == self.get(id),
    {
        match id {
            StatId::Atk => &self.atk,
            StatId::Def => &self.def,
            StatId::Spa => &self.spa,
            StatId::Spd => &self.spd,
            StatId::Spe => &self.spe,
        }
    }

    /// Moves the stage of stat `id` by `diff` (see `Stat::alter`), leaving
    /// the other stats alone.
    pub fn alter(&mut self, id: StatId, diff: i32) -> (r: bool)
        requires
            old(self).wf(),
        ensures
            final(self).wf(),
            final(self).get(id).base == old(self).get(id).base,
            final(self).get(id).stage.data == clamp(
                old(self).get(id).stage.data + diff,
                MIN_STAGE as int,
                MAX_STAGE as int,
            ),
            r == (final(self).get(id).stage.data != old(self).get(id).stage.data),
            forall|other: StatId| other != id ==> #[trigger] final(self).get(other) == old(self).get(other),
    {
        let ghost before = *self;
        let r = match id {
            StatId::Atk => self.atk.alter(diff),
            StatId::Def => self.def.alter(diff),
            StatId::Spa => self.spa.alter(diff),
            StatId::Spd => self.spd.alter(diff),
            StatId::Spe => self.spe.alter(diff),
        };
        assert(before.get(id).wf());
        assert forall|i: StatId| #[trigger] self.get(i).wf() && self.get(i).id == i by {
            assert(before.get(i).wf());
        }
        r
    }
}

} // verus!
