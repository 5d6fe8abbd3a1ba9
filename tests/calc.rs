use pokebattle::bounded_i32::BoundedI32;
use pokebattle::calc::{damage_formula, eot_effects, first_mover, fires, switch_effects};
use pokebattle::pokemon::Pokemon;
use pokebattle::preset::PokeId;
use pokebattle::effect::{Damage, Effect, PlayerId};
use pokebattle::game::HazardId;
use pokebattle::player::HazardBlock;
use pokebattle::status::Status;
use pokebattle::game::WeatherId;
use pokebattle::moves::{Move, MoveId, Mtype};
use pokebattle::poketype::{Poketype, Type, TypeEff};
use pokebattle::stat::{Stat, StatBlock, StatId};
use pokebattle::trigger::Item;

#[test]
fn special_move_damage_scenario() {
    // floor(floor(floor(42*120*326/248)/50) * 0.925) with everything else neutral.
    let expected = (((42 * 120 * 326 / 248) / 50) as f64 * 0.925).floor() as i32;
    assert_eq!(expected, 122);
    assert_eq!(damage_formula(120, 326, 248, false, false, 4, 925), 122);
}

#[test]
fn damage_formula_multipliers() {
    // base 132; burn halves to 66; STAB 3/2; double effectiveness; full roll.
    assert_eq!(damage_formula(120, 326, 248, false, false, 4, 1000), 132);
    assert_eq!(damage_formula(120, 326, 248, true, false, 4, 1000), 66);
    assert_eq!(damage_formula(120, 326, 248, false, true, 4, 1000), 198);
    assert_eq!(damage_formula(120, 326, 248, false, false, 8, 1000), 264);
    assert_eq!(damage_formula(120, 326, 248, false, false, 0, 1000), 0);
    assert_eq!(damage_formula(120, 326, 248, false, true, 16, 850), 673);
    // a defending stat of 0 counts as 1
    assert_eq!(damage_formula(10, 5, 0, false, false, 4, 1000), 42);
    // capped at i32::MAX
    assert_eq!(damage_formula(u32::MAX, i64::MAX / 2, 1, false, true, 16, 1000), i32::MAX);
}

#[test]
fn type_chart_lookups() {
    assert_eq!(Type::Electric.effectiveness(&Type::Ground), TypeEff::Immune);
    assert_eq!(Type::Fire.effectiveness(&Type::Grass), TypeEff::Super);
    assert_eq!(Type::Water.effectiveness(&Type::Water), TypeEff::Ineffective);
    assert_eq!(Type::Typeless.effectiveness(&Type::Steel), TypeEff::Neutral);
    assert_eq!(Type::Fire.calc_eff(&Poketype::Dual([Type::Grass, Type::Steel])), 16);
    assert_eq!(Type::Electric.calc_eff(&Poketype::Dual([Type::Water, Type::Ground])), 0);
    assert_eq!(Type::Fire.calc_eff(&Poketype::Mono(Type::Water)), 2);
    assert_eq!(Type::Normal.calc_eff(&Poketype::Mono(Type::Normal)), 4);
    assert!(Poketype::Dual([Type::Rock, Type::Dark]).contains(Type::Dark));
    assert!(!Poketype::Mono(Type::Rock).contains(Type::Dark));
}

#[test]
fn stage_scaling() {
    let mut s = Stat::new(100, StatId::Atk);
    assert_eq!(s.curr(None, None, false, &Poketype::Mono(Type::Normal)), 100);
    s.alter(2);
    assert_eq!(s.curr(None, None, false, &Poketype::Mono(Type::Normal)), 200);
    s.alter(-4);
    assert_eq!(s.curr(None, None, false, &Poketype::Mono(Type::Normal)), 50);
    s.alter(-10);
    assert_eq!(s.stage.data, -6);
    assert_eq!(s.curr(None, None, false, &Poketype::Mono(Type::Normal)), 25);
    s.alter(20);
    assert_eq!(s.stage.data, 6);
    assert_eq!(s.curr(None, None, false, &Poketype::Mono(Type::Normal)), 400);
}

#[test]
fn stat_modifiers() {
    let spe = Stat::new(100, StatId::Spe);
    let normal = Poketype::Mono(Type::Normal);
    assert_eq!(spe.curr(None, Some(Item::ChoiceScarf), false, &normal), 150);
    assert_eq!(spe.curr(None, None, true, &normal), 25);
    assert_eq!(spe.curr(None, Some(Item::ChoiceScarf), true, &normal), 37);
    let spd = Stat::new(100, StatId::Spd);
    let rock = Poketype::Dual([Type::Rock, Type::Dark]);
    assert_eq!(spd.curr(Some(WeatherId::Sand), None, false, &rock), 150);
    assert_eq!(spd.curr(Some(WeatherId::Sand), None, false, &normal), 100);
    let def = Stat::new(100, StatId::Def);
    assert_eq!(def.curr(Some(WeatherId::Hail), None, false, &Poketype::Mono(Type::Ice)), 150);
    assert_eq!(def.curr(Some(WeatherId::Rain), None, false, &Poketype::Mono(Type::Ice)), 100);
}

#[test]
fn alter_reports_saturation() {
    let mut s = Stat::new(80, StatId::Spe);
    assert!(s.alter(6));
    assert!(!s.alter(1));
    assert_eq!(s.stage.data, 6);
    assert!(s.alter(-1));
    assert!(s.alter(-20));
    assert_eq!(s.stage.data, -6);
    assert!(!s.alter(-1));
    assert!(!s.alter(0));
    let mut block = StatBlock::new([1, 2, 3, 4, 5]);
    assert!(block.alter(StatId::Spd, 2));
    assert_eq!(block.stat(StatId::Spd).stage.data, 2);
    assert_eq!(block.stat(StatId::Spa).stage.data, 0);
    assert_eq!(block.stat(StatId::Spe).base, 5);
}

#[test]
fn bounded_values() {
    let b = BoundedI32::new(10, 0, 5);
    assert_eq!(b.data, 5);
    let b = BoundedI32::new(-3, 0, 5);
    assert_eq!(b.data, 0);
    let mut b = BoundedI32::zero(7);
    assert!(b.is_max());
    b.lower(3);
    assert_eq!(b.data, 4);
    b.raise(100);
    assert_eq!(b.data, 7);
    b.lower(i64::MAX);
    assert_eq!(b.data, 0);
}

#[test]
fn turn_order_rules() {
    assert_eq!(first_mover(1, 0, 10, 500, 1), 0);
    assert_eq!(first_mover(0, 128, 500, 10, 0), 1);
    assert_eq!(first_mover(0, 0, 11, 10, 1), 0);
    assert_eq!(first_mover(0, 0, 10, 11, 0), 1);
    assert_eq!(first_mover(0, 0, 10, 10, 0), 0);
    assert_eq!(first_mover(0, 0, 10, 10, 1), 1);
}

#[test]
fn secondary_effect_frequency() {
    assert!(fires(None, 99));
    assert!(fires(Some(30), 29));
    assert!(!fires(Some(30), 30));
    assert!(!fires(Some(0), 0));
}

#[test]
fn catalog_entries() {
    let m = Move::from(MoveId::Hydropump);
    assert_eq!(m.base_power, Some(120));
    assert_eq!(m.damage_type, Mtype::Special);
    assert_eq!(m.poke_type, Type::Water);
    assert_eq!(m.accuracy, Some(80));
    let m = Move::from(MoveId::Stoneedge);
    assert_eq!(m.pp.data, 8);
    let m = Move::from(MoveId::Stealthrock);
    assert_eq!(m.base_power, None);
    assert_eq!(m.effects.len(), 1);
    assert_eq!(MoveId::Uturn.name(), "U turn");
}

#[test]
fn switch_in_hazard_table() {
    let mut h = HazardBlock::new();
    assert!(switch_effects(&h, PlayerId::Active).is_empty());
    h.inflict(HazardId::StealthRock);
    h.inflict(HazardId::ToxicSpikes);
    h.inflict(HazardId::Spikes);
    assert_eq!(
        switch_effects(&h, PlayerId::Active),
        vec![
            Effect::Damage(PlayerId::Active, Damage::Fractional(1, 8)),
            Effect::InflictStatus(PlayerId::Active, Status::Poison),
            Effect::Damage(PlayerId::Active, Damage::Fractional(1, 8)),
        ]
    );
    for _ in 0..3 {
        h.inflict(HazardId::ToxicSpikes);
        h.inflict(HazardId::Spikes);
    }
    assert_eq!(h.get(HazardId::ToxicSpikes), 2);
    assert_eq!(h.get(HazardId::Spikes), 3);
    assert_eq!(
        switch_effects(&h, PlayerId::Inactive),
        vec![
            Effect::Damage(PlayerId::Inactive, Damage::Fractional(1, 8)),
            Effect::InflictStatus(PlayerId::Inactive, Status::Toxic),
            Effect::Damage(PlayerId::Inactive, Damage::Fractional(1, 4)),
        ]
    );
}

#[test]
fn hail_chips_ice_types() {
    let mut ice = Pokemon::preset(PokeId::Starmie);
    ice.item = None;
    ice.poketype = Poketype::Mono(Type::Ice);
    assert_eq!(
        eot_effects(&ice, Some(WeatherId::Hail)),
        vec![Effect::Damage(PlayerId::Active, Damage::Fractional(1, 12))]
    );
    let mut water = Pokemon::preset(PokeId::Starmie);
    water.item = None;
    assert!(eot_effects(&water, Some(WeatherId::Hail)).is_empty());
    assert_eq!(
        eot_effects(&water, Some(WeatherId::Sand)),
        vec![Effect::Damage(PlayerId::Active, Damage::Fractional(1, 12))]
    );
}
