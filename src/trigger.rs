use vstd::prelude::*;

verus! {

/// Held items.
#[derive(Debug, Default, PartialEq, Eq, Structural, Copy, Clone)]
pub enum Item {
    #[default]
    Leftovers,
    ChoiceScarf,
    ToxicOrb,
}

impl Item {
    /// The item's name.
    pub fn name(&self) -> &'static str {
        match self {
            Item::Leftovers => "Leftovers",
            Item::ChoiceScarf => "Choice Scarf",
            Item::ToxicOrb => "Toxic Orb",
        }
    }

    pub open spec fn spec_is_choice(&self) -> bool {
        self == Item::ChoiceScarf
    }

    /// Whether the item is one of the "choice" items; the Choice Scarf is the
    /// one that boosts Speed.
    #[verifier::when_used_as_spec(spec_is_choice)]
    pub fn is_choice(&self) -> (r: bool)
        ensures
            r == self.spec_is_choice(),
    {
        match self {
            Item::ChoiceScarf => true,
            _ => false,
        }
    }
}

/// Abilities. They are carried by creatures but have no effect in battle.
#[derive(Debug, Default, PartialEq, Eq, Structural, Copy, Clone)]
pub enum Ability {
    #[default]
    SandStream,
    SereneGrace,
    Flashfire,
    Poisonheal,
    NaturalCure,
    Pressure,
    Levitate,
}

impl Ability {
    /// The ability's name.
    pub fn name(&self) -> &'static str {
        match self {
            Ability::SandStream => "Sand Stream",
            Ability::SereneGrace => "Serene Grace",
            Ability::Flashfire => "Flash Fire",
            Ability::Poisonheal => "Poison Heal",
            Ability::NaturalCure => "Natural Cure",
            Ability::Pressure => "Pressure",
            Ability::Levitate => "Levitate",
        }
    }
}

} // verus!
