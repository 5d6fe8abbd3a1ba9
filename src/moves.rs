use vstd::prelude::*;

use crate::bounded_i32::BoundedI32;
use crate::effect::{at_most_one_mid_switch, Effect, PlayerId};
use crate::game::HazardId;
use crate::poketype::Type;
use crate::stat::StatId;
use crate::status::Status;

verus! {

/// Whether a move is physical, special or a status move.
#[derive(Debug, Eq, PartialEq, Structural, Copy, Clone)]
pub enum Mtype {
    Physical,
    Special,
    Status,
}

/// The moves of the catalog.
#[derive(PartialEq, Eq, Structural, Debug, Default, Copy, Clone)]
pub enum MoveId {
    #[default]
    Default,
    IronHead,
    BodySlam,
    Uturn,
    Stealthrock,
    Thunderbolt,
    Roost,
    Hpice,
    Firepunch,
    Refresh,
    Hydropump,
    Thunderwave,
    Icebeam,
    Rapidspin,
    Fireblast,
    Earthpower,
    Explosion,
    Crunch,
    Pursuit,
    Superpower,
    Stoneedge,
    Spore,
    Seedbomb,
    Machpunch,
    Struggle,
    Switch(usize),
}

/// A move in a movepool. `freq` is the chance, in percent, that its
/// secondary effects fire (always, when `None`); `accuracy` is in percent.
#[derive(Debug)]
pub struct Move {
    pub id: MoveId,
    pub pp: BoundedI32,
    pub damage_type: Mtype,
    pub poke_type: Type,
    pub base_power: Option<u32>,
    pub priority: i8,
    pub effects: Vec<Effect>,
    pub freq: Option<u32>,
    pub target: PlayerId,
    pub accuracy: Option<u32>,
}

impl Mtype {
    /// The category's name.
    pub fn name(&self) -> &'static str {
        match self {
            Mtype::Physical => "Physical",
            Mtype::Special => "Special",
            Mtype::Status => "Status",
        }
    }
}

impl MoveId {
    /// The move's name.
    pub fn name(&self) -> &'static str {
        match self {
            MoveId::Default => "Default",
            MoveId::IronHead => "Iron Head",
            MoveId::BodySlam => "Body Slam",
            MoveId::Uturn => "U turn",
            MoveId::Stealthrock => "Stealth Rock",
            MoveId::Thunderbolt => "Thunderbolt",
            MoveId::Roost => "Roost",
            MoveId::Hpice => "HP Ice",
            MoveId::Firepunch => "Fire Punch",
            MoveId::Refresh => "Refresh",
            MoveId::Hydropump => "Hydro Pump",
            MoveId::Thunderwave => "Thunder Wave",
            MoveId::Icebeam => "Ice Beam",
            MoveId::Rapidspin => "Rapid Spin",
            MoveId::Fireblast => "Fire Blast",
            MoveId::Earthpower => "Earth Power",
            MoveId::Explosion => "Explosion",
            MoveId::Crunch => "Crunch",
            MoveId::Pursuit => "Pursuit",
            MoveId::Superpower => "Superpower",
            MoveId::Stoneedge => "Stone Edge",
            MoveId::Spore => "Spore",
            MoveId::Seedbomb => "Seed Bomb",
            MoveId::Machpunch => "Mach Punch",
            MoveId::Struggle => "Struggle",
            MoveId::Switch(_) => "Switch",
        }
    }
}

impl Move {
    /// The move's name.
    pub fn id_name(&self) -> &'static str {
        self.id.name()
    }

    pub open spec fn wf(&self) -> bool {
        &&& self.pp.wf()
        &&& self.pp.min == 0
        &&& forall|i: int| 0 <= i < self.effects@.len() ==> #[trigger] self.effects@[i].wf()
        &&& self.freq matches Some(f) ==> 0 < f < 100
        &&& at_most_one_mid_switch(self.effects@)
        &&& self.accuracy matches Some(a) ==> 0 < a <= 100
    }
}

/// The base power of a catalog move, if it deals damage.
pub open spec fn catalog_power(id: MoveId) -> Option<u32> {
    match id {
        MoveId::Default => None,
        MoveId::IronHead => Some(80),
        MoveId::BodySlam => Some(85),
        MoveId::Uturn => Some(70),
        MoveId::Stealthrock => None,
        MoveId::Thunderbolt => Some(95),
        MoveId::Roost => None,
        MoveId::Hpice => Some(70),
        MoveId::Firepunch => Some(75),
        MoveId::Refresh => None,
        MoveId::Hydropump => Some(120),
        MoveId::Thunderwave => None,
        MoveId::Icebeam => Some(95),
        MoveId::Rapidspin => Some(20),
        MoveId::Fireblast => Some(120),
        MoveId::Earthpower => Some(90),
        MoveId::Explosion => Some(500),
        MoveId::Crunch => Some(80),
        MoveId::Pursuit => Some(40),
        MoveId::Superpower => Some(120),
        MoveId::Stoneedge => Some(120),
        MoveId::Spore => None,
        MoveId::Seedbomb => None,
        MoveId::Machpunch => None,
        MoveId::Struggle => None,
        MoveId::Switch(_) => None,
    }
}

/// The category of a catalog move.
pub open spec fn catalog_category(id: MoveId) -> Mtype {
    match id {
        MoveId::Default => Mtype::Physical,
        MoveId::IronHead => Mtype::Physical,
        MoveId::BodySlam => Mtype::Physical,
        MoveId::Uturn => Mtype::Physical,
        MoveId::Stealthrock => Mtype::Status,
        MoveId::Thunderbolt => Mtype::Special,
        MoveId::Roost => Mtype::Status,
        MoveId::Hpice => Mtype::Special,
        MoveId::Firepunch => Mtype::Physical,
        MoveId::Refresh => Mtype::Status,
        MoveId::Hydropump => Mtype::Special,
        MoveId::Thunderwave => Mtype::Physical,
        MoveId::Icebeam => Mtype::Special,
        MoveId::Rapidspin => Mtype::Physical,
        MoveId::Fireblast => Mtype::Special,
        MoveId::Earthpower => Mtype::Special,
        MoveId::Explosion => Mtype::Physical,
        MoveId::Crunch => Mtype::Physical,
        MoveId::Pursuit => Mtype::Physical,
        MoveId::Superpower => Mtype::Physical,
        MoveId::Stoneedge => Mtype::Physical,
        MoveId::Spore => Mtype::Status,
        MoveId::Seedbomb => Mtype::Physical,
        MoveId::Machpunch => Mtype::Physical,
        MoveId::Struggle => Mtype::Physical,
        MoveId::Switch(_) => Mtype::Physical,
    }
}

/// The type of a catalog move.
pub open spec fn catalog_type(id: MoveId) -> Type {
    match id {
        MoveId::Default => Type::Normal,
        MoveId::IronHead => Type::Steel,
        MoveId::BodySlam => Type::Normal,
        MoveId::Uturn => Type::Bug,
        MoveId::Stealthrock => Type::Rock,
        MoveId::Thunderbolt => Type::Electric,
        MoveId::Roost => Type::Flying,
        MoveId::Hpice => Type::Ice,
        MoveId::Firepunch => Type::Fire,
        MoveId::Refresh => Type::Normal,
        MoveId::Hydropump => Type::Water,
        MoveId::Thunderwave => Type::Electric,
        MoveId::Icebeam => Type::Ice,
        MoveId::Rapidspin => Type::Normal,
        MoveId::Fireblast => Type::Fire,
        MoveId::Earthpower => Type::Ground,
        MoveId::Explosion => Type::Normal,
        MoveId::Crunch => Type::Dark,
        MoveId::Pursuit => Type::Dark,
        MoveId::Superpower => Type::Fighting,
        MoveId::Stoneedge => Type::Rock,
        MoveId::Spore => Type::Grass,
        MoveId::Seedbomb => Type::Normal,
        MoveId::Machpunch => Type::Normal,
        MoveId::Struggle => Type::Normal,
        MoveId::Switch(_) => Type::Normal,
    }
}

/// The number of uses a catalog move starts with.
pub open spec fn catalog_pp(id: MoveId) -> i32 {
    match id {
        MoveId::Default => 24,
        MoveId::IronHead => 24,
        MoveId::BodySlam => 24,
        MoveId::Uturn => 32,
        MoveId::Stealthrock => 32,
        MoveId::Thunderbolt => 24,
        MoveId::Roost => 16,
        MoveId::Hpice => 24,
        MoveId::Firepunch => 24,
        MoveId::Refresh => 32,
        MoveId::Hydropump => 24,
        MoveId::Thunderwave => 24,
        MoveId::Icebeam => 24,
        MoveId::Rapidspin => 64,
        MoveId::Fireblast => 24,
        MoveId::Earthpower => 24,
        MoveId::Explosion => 24,
        MoveId::Crunch => 24,
        MoveId::Pursuit => 24,
        MoveId::Superpower => 24,
        MoveId::Stoneedge => 8,
        MoveId::Spore => 24,
        MoveId::Seedbomb => 24,
        MoveId::Machpunch => 24,
        MoveId::Struggle => 24,
        MoveId::Switch(_) => 24,
    }
}

impl Move {
    /// The catalog entry of `id`, with all its uses left.
    pub fn from(id: MoveId) -> (r: Move)
        ensures
            r.wf(),
            r.id == id,
            r.pp.data == r.pp.max,
            r.pp.max == catalog_pp(id),
            r.base_power == catalog_power(id),
            r.damage_type == catalog_category(id),
            r.poke_type == catalog_type(id),
            r.priority == 0,
    {
        match id {
            MoveId::Default => Move {
                id,
                pp: BoundedI32::zero(24),
                damage_type: Mtype::Physical,
                poke_type: Type::Normal,
                base_power: None,
                priority: 0,
                effects: Vec::new(),
                freq: None,
                target: PlayerId::Inactive,
                accuracy: None,
            },
            MoveId::IronHead => Move {
                id,
                pp: BoundedI32::zero(24),
                damage_type: Mtype::Physical,
                poke_type: Type::Steel,
                base_power: Some(80),
                priority: 0,
                effects: vec![Effect::InflictStatus(PlayerId::Inactive, Status::Flinch)],
                freq: Some(30),
                target: PlayerId::Inactive,
                accuracy: None,
            },
            MoveId::BodySlam => Move {
                id,
                pp: BoundedI32::zero(24),
                damage_type: Mtype::Physical,
                poke_type: Type::Normal,
                base_power: Some(85),
                priority: 0,
                effects: vec![Effect::InflictStatus(PlayerId::Inactive, Status::Paralyse)],
                freq: Some(30),
                target: PlayerId::Inactive,
                accuracy: None,
            },
            MoveId::Uturn => Move {
                id,
                pp: BoundedI32::zero(32),
                damage_type: Mtype::Physical,
                poke_type: Type::Bug,
                base_power: Some(70),
                priority: 0,
                effects: vec![Effect::MidSwitch(PlayerId::Active)],
                freq: None,
                target: PlayerId::Inactive,
                accuracy: None,
            },
            MoveId::Stealthrock => Move {
                id,
                pp: BoundedI32::zero(32),
                damage_type: Mtype::Status,
                poke_type: Type::Rock,
                base_power: None,
                priority: 0,
                effects: vec![Effect::InflictHazard(PlayerId::Inactive, HazardId::StealthRock)],
                freq: None,
                target: PlayerId::Inactive,
                accuracy: None,
            },
            MoveId::Thunderbolt => Move {
                id,
                pp: BoundedI32::zero(24),
                damage_type: Mtype::Special,
                poke_type: Type::Electric,
                base_power: Some(95),
                priority: 0,
                effects: vec![Effect::InflictStatus(PlayerId::Inactive, Status::Paralyse)],
                freq: Some(10),
                target: PlayerId::Inactive,
                accuracy: None,
            },
            MoveId::Roost => Move {
                id,
                pp: BoundedI32::zero(16),
                damage_type: Mtype::Status,
                poke_type: Type::Flying,
                base_power: None,
                priority: 0,
                effects: vec![Effect::Heal(PlayerId::Active, 2)],
                freq: None,
                target: PlayerId::Inactive,
                accuracy: None,
            },
            MoveId::Hpice => Move {
                id,
                pp: BoundedI32::zero(24),
                damage_type: Mtype::Special,
                poke_type: Type::Ice,
                base_power: Some(70),
                priority: 0,
                effects: Vec::new(),
                freq: None,
                target: PlayerId::Inactive,
                accuracy: None,
            },
            MoveId::Firepunch => Move {
                id,
                pp: BoundedI32::zero(24),
                damage_type: Mtype::Physical,
                poke_type: Type::Fire,
                base_power: Some(75),
                priority: 0,
                effects: vec![Effect::InflictStatus(PlayerId::Inactive, Status::Burn)],
                freq: Some(10),
                target: PlayerId::Inactive,
                accuracy: None,
            },
            MoveId::Refresh => Move {
                id,
                pp: BoundedI32::zero(32),
                damage_type: Mtype::Status,
                poke_type: Type::Normal,
                base_power: None,
                priority: 0,
                effects: vec![Effect::Cure(PlayerId::Active)],
                freq: None,
                target: PlayerId::Inactive,
                accuracy: None,
            },
            MoveId::Hydropump => Move {
                id,
                pp: BoundedI32::zero(24),
                damage_type: Mtype::Special,
                poke_type: Type::Water,
                base_power: Some(120),
                priority: 0,
                effects: Vec::new(),
                freq: None,
                target: PlayerId::Inactive,
                accuracy: Some(80),
            },
            MoveId::Thunderwave => Move {
                id,
                pp: BoundedI32::zero(24),
                damage_type: Mtype::Physical,
                poke_type: Type::Electric,
                base_power: None,
                priority: 0,
                effects: vec![Effect::InflictStatus(PlayerId::Inactive, Status::Paralyse)],
                freq: None,
                target: PlayerId::Inactive,
                accuracy: None,
            },
            MoveId::Icebeam => Move {
                id,
                pp: BoundedI32::zero(24),
                damage_type: Mtype::Special,
                poke_type: Type::Ice,
                base_power: Some(95),
                priority: 0,
                effects: Vec::new(),
                freq: None,
                target: PlayerId::Inactive,
                accuracy: None,
            },
            MoveId::Rapidspin => Move {
                id,
                pp: BoundedI32::zero(64),
                damage_type: Mtype::Physical,
                poke_type: Type::Normal,
                base_power: Some(20),
                priority: 0,
                effects: vec![Effect::ClearHazard(PlayerId::Active)],
                freq: None,
                target: PlayerId::Inactive,
                accuracy: None,
            },
            MoveId::Fireblast => Move {
                id,
                pp: BoundedI32::zero(24),
                damage_type: Mtype::Special,
                poke_type: Type::Fire,
                base_power: Some(120),
                priority: 0,
                effects: vec![Effect::InflictStatus(PlayerId::Inactive, Status::Burn)],
                freq: None,
                target: PlayerId::Inactive,
                accuracy: None,
            },
            MoveId::Earthpower => Move {
                id,
                pp: BoundedI32::zero(24),
                damage_type: Mtype::Special,
                poke_type: Type::Ground,
                base_power: Some(90),
                priority: 0,
                effects: vec![Effect::AlterStat(PlayerId::Inactive, StatId::Spd, -1)],
                freq: None,
                target: PlayerId::Inactive,
                accuracy: None,
            },
            MoveId::Explosion => Move {
                id,
                pp: BoundedI32::zero(24),
                damage_type: Mtype::Physical,
                poke_type: Type::Normal,
                base_power: Some(500),
                priority: 0,
                effects: vec![Effect::OHKO(PlayerId::Active)],
                freq: None,
                target: PlayerId::Inactive,
                accuracy: None,
            },
            MoveId::Crunch => Move {
                id,
                pp: BoundedI32::zero(24),
                damage_type: Mtype::Physical,
                poke_type: Type::Dark,
                base_power: Some(80),
                priority: 0,
                effects: vec![Effect::AlterStat(PlayerId::Inactive, StatId::Def, -1)],
                freq: None,
                target: PlayerId::Inactive,
                accuracy: None,
            },
            MoveId::Pursuit => Move {
                id,
                pp: BoundedI32::zero(24),
                damage_type: Mtype::Physical,
                poke_type: Type::Dark,
                base_power: Some(40),
                priority: 0,
                effects: Vec::new(),
                freq: None,
                target: PlayerId::Inactive,
                accuracy: None,
            },
            MoveId::Superpower => Move {
                id,
                pp: BoundedI32::zero(24),
                damage_type: Mtype::Physical,
                poke_type: Type::Fighting,
                base_power: Some(120),
                priority: 0,
                effects: vec![Effect::AlterStat(PlayerId::Active, StatId::Atk, -1), Effect::AlterStat(PlayerId::Active, StatId::Def, -1)],
                freq: None,
                target: PlayerId::Inactive,
                accuracy: None,
            },
            MoveId::Stoneedge => Move {
                id,
                pp: BoundedI32::zero(8),
                damage_type: Mtype::Physical,
                poke_type: Type::Rock,
                base_power: Some(120),
                priority: 0,
                effects: Vec::new(),
                freq: None,
                target: PlayerId::Inactive,
                accuracy: None,
            },
            MoveId::Spore => Move {
                id,
                pp: BoundedI32::zero(24),
                damage_type: Mtype::Status,
                poke_type: Type::Grass,
                base_power: None,
                priority: 0,
                effects: vec![Effect::InflictStatus(PlayerId::Inactive, Status::Sleep)],
                freq: None,
                target: PlayerId::Inactive,
                accuracy: None,
            },
            MoveId::Seedbomb => Move {
                id,
                pp: BoundedI32::zero(24),
                damage_type: Mtype::Physical,
                poke_type: Type::Normal,
                base_power: None,
                priority: 0,
                effects: Vec::new(),
                freq: None,
                target: PlayerId::Inactive,
                accuracy: None,
            },
            MoveId::Machpunch => Move {
                id,
                pp: BoundedI32::zero(24),
                damage_type: Mtype::Physical,
                poke_type: Type::Normal,
                base_power: None,
                priority: 0,
                effects: Vec::new(),
                freq: None,
                target: PlayerId::Inactive,
                accuracy: None,
            },
            MoveId::Struggle => Move {
                id,
                pp: BoundedI32::zero(24),
                damage_type: Mtype::Physical,
                poke_type: Type::Normal,
                base_power: None,
                priority: 0,
                effects: Vec::new(),
                freq: None,
                target: PlayerId::Inactive,
                accuracy: None,
            },
            MoveId::Switch(_) => Move {
                id,
                pp: BoundedI32::zero(24),
                damage_type: Mtype::Physical,
                poke_type: Type::Normal,
                base_power: None,
                priority: 0,
                effects: Vec::new(),
                freq: None,
                target: PlayerId::Inactive,
                accuracy: None,
            },
        }
    }
}

} // verus!
