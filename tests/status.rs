use pokebattle::pokemon::{Hindrance, Pokemon};
use pokebattle::preset::PokeId;
use pokebattle::status::{Status, StatusBlock};
use rand::rngs::StdRng;
use rand::SeedableRng;

const NON_VOLATILE: [Status; 6] = [
    Status::Paralyse,
    Status::Burn,
    Status::Poison,
    Status::Toxic,
    Status::Sleep,
    Status::Freeze,
];

#[test]
fn sleep_on_healthy_creature_then_no_other_non_volatile() {
    let mut rng = StdRng::seed_from_u64(11);
    let mut block = StatusBlock::new();
    assert!(block.add(&Status::Sleep, &mut rng));
    assert!(block.contains(Status::Sleep));
    for s in NON_VOLATILE.iter() {
        assert!(!block.add(s, &mut rng));
    }
    assert_eq!(block.nv(), Some(Status::Sleep));
    for s in NON_VOLATILE.iter() {
        assert_eq!(block.contains(*s), *s == Status::Sleep);
    }
}

#[test]
fn at_most_one_non_volatile() {
    let mut block = StatusBlock::new();
    assert!(block.insert(Status::Burn, 0));
    assert!(!block.insert(Status::Paralyse, 0));
    assert!(block.insert(Status::Confusion, 3));
    assert!(block.insert(Status::Flinch, 0));
    let held: Vec<Status> = NON_VOLATILE.iter().copied().filter(|s| block.contains(*s)).collect();
    assert_eq!(held, vec![Status::Burn]);
    assert!(block.clear_nv());
    assert!(!block.contains(Status::Burn));
    assert!(block.contains(Status::Confusion));
    assert!(block.insert(Status::Paralyse, 0));
    assert!(block.clear_nv());
}

#[test]
fn sleep_counters_vary_with_the_seed() {
    let mut seen = std::collections::BTreeSet::new();
    for seed in 0..64 {
        let mut rng = StdRng::seed_from_u64(seed);
        let mut block = StatusBlock::new();
        assert!(block.add(&Status::Sleep, &mut rng));
        let c = block.counter(Status::Sleep).unwrap();
        assert!((1..=3).contains(&c));
        seen.insert(c);
        let mut block = StatusBlock::new();
        assert!(block.add(&Status::Confusion, &mut rng));
        assert!((2..=4).contains(&block.counter(Status::Confusion).unwrap()));
    }
    assert_eq!(seen.len(), 3);
}

#[test]
fn counters_tick() {
    let mut block = StatusBlock::new();
    block.insert(Status::Toxic, 0);
    block.insert(Status::Drowsy, 1);
    block.increment(&Status::Toxic);
    block.increment(&Status::Drowsy);
    block.increment(&Status::Drowsy);
    assert_eq!(block.counter(Status::Toxic), Some(1));
    assert_eq!(block.counter(Status::Drowsy), Some(0));
    assert!(block.remove(Status::Toxic));
    assert_eq!(block.nv(), None);
}

#[test]
fn interference_order() {
    let mut mon = Pokemon::preset(PokeId::Zapdos);
    mon.status.insert(Status::Paralyse, 0);
    mon.status.insert(Status::Flinch, 0);
    let check = mon.check_interference(0, 5, 1);
    assert_eq!(check.hindrance, Some(Hindrance::FullPara));
    assert!(mon.status.contains(Status::Flinch));
    let check = mon.check_interference(2, 5, 1);
    assert_eq!(check.hindrance, Some(Hindrance::Flinched));
    assert!(!mon.status.contains(Status::Flinch));
    let check = mon.check_interference(2, 5, 1);
    assert_eq!(check.hindrance, None);

    let mut mon = Pokemon::preset(PokeId::Starmie);
    mon.status.insert(Status::Sleep, 1);
    mon.status.insert(Status::Confusion, 1);
    let check = mon.check_interference(1, 1, 0);
    assert_eq!(check.hindrance, Some(Hindrance::Asleep));
    assert_eq!(mon.status.counter(Status::Sleep), Some(0));
    assert_eq!(mon.status.counter(Status::Confusion), Some(1));
    let check = mon.check_interference(1, 1, 0);
    assert!(check.woke);
    assert_eq!(check.hindrance, Some(Hindrance::HitItself));
    assert_eq!(mon.status.counter(Status::Confusion), Some(0));
    let check = mon.check_interference(1, 1, 0);
    assert!(check.unconfused);
    assert_eq!(check.hindrance, None);

    let mut mon = Pokemon::preset(PokeId::Heatran);
    mon.status.insert(Status::Freeze, 0);
    assert_eq!(mon.check_interference(1, 3, 1).hindrance, Some(Hindrance::Frozen));
    let check = mon.check_interference(1, 0, 1);
    assert!(check.thawed);
    assert_eq!(check.hindrance, None);
    assert_eq!(mon.status.nv(), None);
}
