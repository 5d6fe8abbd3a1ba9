use vstd::prelude::*;

use crate::bounded_i32::BoundedI32;
use crate::moves::{Move, MoveId};
use crate::pokemon::Pokemon;
use crate::poketype::{Poketype, Type};
use crate::selvec::PointerVec;
use crate::status::Status;
use crate::trigger::{Ability, Item};

verus! {

/// The species of the preset catalog.
#[derive(Debug, Default, PartialEq, Eq, Structural, Copy, Clone)]
pub enum PokeId {
    #[default]
    Jirachi,
    Zapdos,
    Starmie,
    Heatran,
    Tyranitar,
    Breloom,
}

/// The maximum health of a preset species.
pub open spec fn preset_hp(id: PokeId) -> i32 {
    match id {
        PokeId::Jirachi => 404,
        PokeId::Zapdos => 383,
        PokeId::Starmie => 261,
        PokeId::Heatran => 261,
        PokeId::Tyranitar => 341,
        PokeId::Breloom => 280,
    }
}

impl PokeId {
    /// The species name.
    pub fn name(&self) -> &'static str {
        match self {
            PokeId::Jirachi => "Jirachi",
            PokeId::Zapdos => "Zapdos",
            PokeId::Starmie => "Starmie",
            PokeId::Heatran => "Heatran",
            PokeId::Tyranitar => "Tyranitar",
            PokeId::Breloom => "Breloom",
        }
    }
}

impl Pokemon {
    /// A fresh creature of the preset species `value`: full health, stages
    /// at 0, no statuses, its four catalog moves.
    pub fn preset(value: PokeId) -> (r: Pokemon)
        ensures
            r.wf(),
            r.id == value,
            r.hp.data == r.hp.max,
            r.hp.max == preset_hp(value),
            r.hp.max > 0,
            r.moves.data@.len() == 4,
            forall|s: Status| !#[trigger] r.status.has(s),
    {
        match value {
            PokeId::Jirachi => Pokemon::new(
                Ability::SereneGrace,
                BoundedI32::zero(404),
                value,
                Some(Item::Leftovers),
                PointerVec::from(vec![Move::from(MoveId::IronHead), Move::from(MoveId::BodySlam), Move::from(MoveId::Firepunch), Move::from(MoveId::Refresh)]),
                Poketype::Dual([Type::Steel, Type::Psychic]),
                [249, 236, 212, 286, 263],
            ),
            PokeId::Zapdos => Pokemon::new(
                Ability::Pressure,
                BoundedI32::zero(383),
                value,
                Some(Item::Leftovers),
                PointerVec::from(vec![Move::from(MoveId::Thunderbolt), Move::from(MoveId::Roost), Move::from(MoveId::Hpice), Move::from(MoveId::Uturn)]),
                Poketype::Dual([Type::Electric, Type::Flying]),
                [193, 288, 286, 216, 244],
            ),
            PokeId::Starmie => Pokemon::new(
                Ability::NaturalCure,
                BoundedI32::zero(261),
                value,
                Some(Item::Leftovers),
                PointerVec::from(vec![Move::from(MoveId::Hydropump), Move::from(MoveId::Thunderwave), Move::from(MoveId::Icebeam), Move::from(MoveId::Rapidspin)]),
                Poketype::Dual([Type::Water, Type::Psychic]),
                [139, 207, 299, 206, 361],
            ),
            PokeId::Heatran => Pokemon::new(
                Ability::Flashfire,
                BoundedI32::zero(261),
                value,
                Some(Item::Leftovers),
                PointerVec::from(vec![Move::from(MoveId::Stealthrock), Move::from(MoveId::Fireblast), Move::from(MoveId::Earthpower), Move::from(MoveId::Explosion)]),
                Poketype::Dual([Type::Fire, Type::Steel]),
                [193, 247, 326, 248, 253],
            ),
            PokeId::Tyranitar => Pokemon::new(
                Ability::SandStream,
                BoundedI32::zero(341),
                value,
                Some(Item::Leftovers),
                PointerVec::from(vec![Move::from(MoveId::Crunch), Move::from(MoveId::Pursuit), Move::from(MoveId::Superpower), Move::from(MoveId::Stoneedge)]),
                Poketype::Dual([Type::Rock, Type::Dark]),
                [367, 256, 206, 237, 243],
            ),
            PokeId::Breloom => Pokemon::new(
                Ability::SandStream,
                BoundedI32::zero(280),
                value,
                Some(Item::ToxicOrb),
                PointerVec::from(vec![Move::from(MoveId::Spore), Move::from(MoveId::Superpower), Move::from(MoveId::Seedbomb), Move::from(MoveId::Machpunch)]),
                Poketype::Dual([Type::Grass, Type::Fighting]),
                [393, 196, 140, 156, 222],
            ),
        }
    }
}

} // verus!
