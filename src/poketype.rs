use vstd::prelude::*;

verus! {

/// The elemental types of creatures and moves.
#[derive(Debug, Default, PartialEq, Eq, Structural, Copy, Clone)]
pub enum Type {
    #[default]
    Normal,
    Fire,
    Water,
    Electric,
    Grass,
    Ice,
    Fighting,
    Poison,
    Ground,
    Flying,
    Psychic,
    Bug,
    Rock,
    Ghostly,
    Dragon,
    Dark,
    Steel,
    Typeless,
}

/// The one or two types of a creature.
#[derive(Debug, PartialEq, Eq, Copy, Clone)]
pub enum Poketype {
    Mono(Type),
    Dual([Type; 2]),
}

/// How well an attacking type hits one defending type.
#[derive(Debug, PartialEq, Eq, Structural, Copy, Clone)]
pub enum TypeEff {
    Immune,
    Ineffective,
    Neutral,
    Super,
}

impl Poketype {
    /// The types of a creature, as a set.
    pub open spec fn types(self) -> Set<Type> {
        match self {
            Poketype::Mono(t) => set![t],
            Poketype::Dual(ts) => set![ts@[0], ts@[1]],
        }
    }

    pub fn contains(&self, value: Type) -> (r: bool)
        ensures
            r == self.types().contains(value),
    {
        match self {
            Poketype::Mono(data) => value == *data,
            Poketype::Dual(data) => value == data[0] || value == data[1],
        }
    }
}

impl TypeEff {
    /// The multiplier in halves: 0, 1/2, 1 and 2 become 0, 1, 2 and 4.
    pub open spec fn halves(self) -> nat {
        match self {
            TypeEff::Immune => 0,
            TypeEff::Ineffective => 1,
            TypeEff::Neutral => 2,
            TypeEff::Super => 4,
        }
    }

    pub fn in_halves(&self) -> (r: u32)
        ensures
            r == self.halves(),
    {
        match self {
            TypeEff::Immune => 0,
            TypeEff::Ineffective => 1,
            TypeEff::Neutral => 2,
            TypeEff::Super => 4,
        }
    }
}

/// The type chart: how `atk` fares against a defender of type `def`.
pub open spec fn chart(atk: Type, def: Type) -> TypeEff {
    match atk {
        Type::Normal => match def {
            Type::Fighting => TypeEff::Super,
            Type::Ghostly => TypeEff::Immune,
            _ => TypeEff::Neutral,
        },
        Type::Fire => match def {
            Type::Fire | Type::Water | Type::Rock | Type::Dragon => TypeEff::Ineffective,
            Type::Steel | Type::Grass | Type::Ice | Type::Bug => TypeEff::Super,
            _ => TypeEff::Neutral,
        },
        Type::Water => match def {
            Type::Dragon | Type::Water | Type::Grass => TypeEff::Ineffective,
            Type::Fire | Type::Ground | Type::Rock => TypeEff::Super,
            _ => TypeEff::Neutral,
        },
        Type::Electric => match def {
            Type::Water | Type::Flying => TypeEff::Super,
            Type::Dragon | Type::Electric | Type::Grass => TypeEff::Ineffective,
            Type::Ground => TypeEff::Immune,
            _ => TypeEff::Neutral,
        },
        Type::Grass => match def {
            Type::Fire | Type::Grass | Type::Poison | Type::Flying | Type::Bug
            | Type::Dragon => TypeEff::Ineffective,
            Type::Water | Type::Ground | Type::Rock => TypeEff::Super,
            _ => TypeEff::Neutral,
        },
        Type::Ice => match def {
            Type::Fire | Type::Water | Type::Ice | Type::Steel => TypeEff::Ineffective,
            Type::Grass | Type::Ground | Type::Flying | Type::Dragon => TypeEff::Super,
            _ => TypeEff::Neutral,
        },
        Type::Fighting => match def {
            Type::Poison | Type::Flying | Type::Psychic | Type::Bug => TypeEff::Ineffective,
            Type::Ghostly => TypeEff::Immune,
            Type::Rock | Type::Dark | Type::Steel | Type::Normal | Type::Ice => TypeEff::Super,
            _ => TypeEff::Neutral,
        },
        Type::Poison => match def {
            Type::Grass => TypeEff::Super,
            Type::Poison | Type::Ground | Type::Rock | Type::Ghostly
            | Type::Steel => TypeEff::Ineffective,
            _ => TypeEff::Neutral,
        },
        Type::Ground => match def {
            Type::Grass | Type::Bug => TypeEff::Ineffective,
            Type::Poison | Type::Rock | Type::Steel | Type::Fire
            | Type::Electric => TypeEff::Super,
            Type::Flying => TypeEff::Immune,
            _ => TypeEff::Neutral,
        },
        Type::Flying => match def {
            Type::Electric | Type::Rock | Type::Steel => TypeEff::Ineffective,
            Type::Grass | Type::Fighting | Type::Bug => TypeEff::Super,
            _ => TypeEff::Neutral,
        },
        Type::Psychic => match def {
            Type::Fighting | Type::Poison => TypeEff::Super,
            Type::Psychic | Type::Steel => TypeEff::Ineffective,
            Type::Dark => TypeEff::Immune,
            _ => TypeEff::Neutral,
        },
        Type::Bug => match def {
            Type::Grass | Type::Psychic | Type::Dark => TypeEff::Super,
            Type::Fighting | Type::Poison | Type::Flying | Type::Ghostly | Type::Steel
            | Type::Fire => TypeEff::Ineffective,
            _ => TypeEff::Neutral,
        },
        Type::Rock => match def {
            Type::Fire | Type::Ice | Type::Flying | Type::Bug => TypeEff::Super,
            Type::Fighting | Type::Ground | Type::Steel => TypeEff::Ineffective,
            _ => TypeEff::Neutral,
        },
        Type::Ghostly => match def {
            Type::Normal => TypeEff::Immune,
            Type::Psychic | Type::Ghostly => TypeEff::Super,
            Type::Dark | Type::Steel => TypeEff::Ineffective,
            _ => TypeEff::Neutral,
        },
        Type::Dragon => match def {
            Type::Dragon => TypeEff::Super,
            Type::Steel => TypeEff::Ineffective,
            _ => TypeEff::Neutral,
        },
        Type::Dark => match def {
            Type::Psychic | Type::Ghostly => TypeEff::Super,
            Type::Dark | Type::Steel | Type::Fighting => TypeEff::Ineffective,
            _ => TypeEff::Neutral,
        },
        Type::Steel => match def {
            Type::Fire | Type::Water | Type::Electric | Type::Steel => TypeEff::Ineffective,
            Type::Ice | Type::Rock => TypeEff::Super,
            _ => TypeEff::Neutral,
        },
        Type::Typeless => TypeEff::Neutral,
    }
}

/// The combined multiplier against a defender, in quarters: the product of
/// the chart's multipliers against each of its types (a single type counts
/// once).
pub open spec fn eff_quarters(atk: Type, def: Poketype) -> nat {
    match def {
        Poketype::Mono(t) => 2 * chart(atk, t).halves(),
        Poketype::Dual(ts) => chart(atk, ts@[0]).halves() * chart(atk, ts@[1]).halves(),
    }
}

impl Type {
    /// The type's name.
    pub fn name(&self) -> &'static str {
        match self {
            Type::Normal => "Normal",
            Type::Fire => "Fire",
            Type::Water => "Water",
            Type::Electric => "Electric",
            Type::Grass => "Grass",
            Type::Ice => "Ice",
            Type::Fighting => "Fighting",
            Type::Poison => "Poison",
            Type::Ground => "Ground",
            Type::Flying => "Flying",
            Type::Psychic => "Psychic",
            Type::Bug => "Bug",
            Type::Rock => "Rock",
            Type::Ghostly => "Ghost",
            Type::Dragon => "Dragon",
            Type::Dark => "Dark",
            Type::Steel => "Steel",
            Type::Typeless => "Typeless",
        }
    }

    pub fn effectiveness(&self, target_type: &Type) -> (r: TypeEff)
        ensures
            r == chart(*self, *target_type),
    {
        match self {
            Type::Normal => match target_type {
                Type::Fighting => TypeEff::Super,
                Type::Ghostly => TypeEff::Immune,
                _ => TypeEff::Neutral,
            },
            Type::Fire => match target_type {
                Type::Fire | Type::Water | Type::Rock | Type::Dragon => TypeEff::Ineffective,
                Type::Steel | Type::Grass | Type::Ice | Type::Bug => TypeEff::Super,
                _ => TypeEff::Neutral,
            },
            Type::Water => match target_type {
                Type::Dragon | Type::Water | Type::Grass => TypeEff::Ineffective,
                Type::Fire | Type::Ground | Type::Rock => TypeEff::Super,
                _ => TypeEff::Neutral,
            },
            Type::Electric => match target_type {
                Type::Water | Type::Flying => TypeEff::Super,
                Type::Dragon | Type::Electric | Type::Grass => TypeEff::Ineffective,
                Type::Ground => TypeEff::Immune,
                _ => TypeEff::Neutral,
            },
            Type::Grass => match target_type {
                Type::Fire | Type::Grass | Type::Poison | Type::Flying | Type::Bug
                | Type::Dragon => TypeEff::Ineffective,
                Type::Water | Type::Ground | Type::Rock => TypeEff::Super,
                _ => TypeEff::Neutral,
            },
            Type::Ice => match target_type {
                Type::Fire | Type::Water | Type::Ice | Type::Steel => TypeEff::Ineffective,
                Type::Grass | Type::Ground | Type::Flying | Type::Dragon => TypeEff::Super,
                _ => TypeEff::Neutral,
            },
            Type::Fighting => match target_type {
                Type::Poison | Type::Flying | Type::Psychic | Type::Bug => TypeEff::Ineffective,
                Type::Ghostly => TypeEff::Immune,
                Type::Rock | Type::Dark | Type::Steel | Type::Normal | Type::Ice => TypeEff::Super,
                _ => TypeEff::Neutral,
            },
            Type::Poison => match target_type {
                Type::Grass => TypeEff::Super,
                Type::Poison | Type::Ground | Type::Rock | Type::Ghostly
                | Type::Steel => TypeEff::Ineffective,
                _ => TypeEff::Neutral,
            },
            Type::Ground => match target_type {
                Type::Grass | Type::Bug => TypeEff::Ineffective,
                Type::Poison | Type::Rock | Type::Steel | Type::Fire
                | Type::Electric => TypeEff::Super,
                Type::Flying => TypeEff::Immune,
                _ => TypeEff::Neutral,
            },
            Type::Flying => match target_type {
                Type::Electric | Type::Rock | Type::Steel => TypeEff::Ineffective,
                Type::Grass | Type::Fighting | Type::Bug => TypeEff::Super,
                _ => TypeEff::Neutral,
            },
            Type::Psychic => match target_type {
                Type::Fighting | Type::Poison => TypeEff::Super,
                Type::Psychic | Type::Steel => TypeEff::Ineffective,
                Type::Dark => TypeEff::Immune,
                _ => TypeEff::Neutral,
            },
            Type::Bug => match target_type {
                Type::Grass | Type::Psychic | Type::Dark => TypeEff::Super,
                Type::Fighting | Type::Poison | Type::Flying | Type::Ghostly | Type::Steel
                | Type::Fire => TypeEff::Ineffective,
                _ => TypeEff::Neutral,
            },
            Type::Rock => match target_type {
                Type::Fire | Type::Ice | Type::Flying | Type::Bug => TypeEff::Super,
                Type::Fighting | Type::Ground | Type::Steel => TypeEff::Ineffective,
                _ => TypeEff::Neutral,
            },
            Type::Ghostly => match target_type {
                Type::Normal => TypeEff::Immune,
                Type::Psychic | Type::Ghostly => TypeEff::Super,
                Type::Dark | Type::Steel => TypeEff::Ineffective,
                _ => TypeEff::Neutral,
            },
            Type::Dragon => match target_type {
                Type::Dragon => TypeEff::Super,
                Type::Steel => TypeEff::Ineffective,
                _ => TypeEff::Neutral,
            },
            Type::Dark => match target_type {
                Type::Psychic | Type::Ghostly => TypeEff::Super,
                Type::Dark | Type::Steel | Type::Fighting => TypeEff::Ineffective,
                _ => TypeEff::Neutral,
            },
            Type::Steel => match target_type {
                Type::Fire | Type::Water | Type::Electric | Type::Steel => TypeEff::Ineffective,
                Type::Ice | Type::Rock => TypeEff::Super,
                _ => TypeEff::Neutral,
            },
            Type::Typeless => TypeEff::Neutral,
        }
    }

    /// The multiplier of this attacking type against `defending_type`, in
    /// quarters (so 0, 1, 2, 4, 8 or 16).
    pub fn calc_eff(&self, defending_type: &Poketype) -> (r: u32)
        ensures
            r == eff_quarters(*self, *defending_type),
            r <= 16,
    {
        match defending_type {
            Poketype::Mono(target) => 2 * self.effectiveness(target).in_halves(),
            Poketype::Dual(targets) => {
                let a = self.effectiveness(&targets[0]).in_halves();
                let b = self.effectiveness(&targets[1]).in_halves();
                assert(a <= 4 && b <= 4);
                assert(a * b <= 16) by (nonlinear_arith)
                    requires
                        a <= 4,
                        b <= 4,
                ;
                a * b
            },
        }
    }
}

} // verus!
