use vstd::prelude::*;

use crate::effect::{at_most_one_mid_switch, Damage, Effect, PlayerId};
use crate::game::WeatherId;
use crate::moves::{Move, Mtype};
use crate::player::HazardBlock;
use crate::pokemon::Pokemon;
use crate::poketype::{eff_quarters, Type};
use crate::stat::StatId;
use crate::status::Status;
use crate::trigger::Item;
use crate::game::HazardId;

verus! {

/// The lowest random factor of a damage roll, in thousandths.
pub const ROLL_MIN: u32 = 850;

/// The highest random factor of a damage roll, in thousandths.
pub const ROLL_MAX: u32 = 1000;

/// The damage of a hit, before it is capped to `i32`:
/// `floor(floor(floor(42 * power * atk / def) / 50) * burn) * stab * eff * roll`,
/// truncated at the end, where `burn` is 1/2 for a burned attacker's
/// physical move (else 1), `stab` is 3/2 or 1, `eff_quarters` is the type
/// multiplier in quarters and `roll` the random factor in thousandths. A
/// defending stat below 1 counts as 1.
pub open spec fn damage_value(
    power: int,
    atk: int,
    def: int,
    burned_physical: bool,
    stab: bool,
    eff_quarters: int,
    roll: int,
) -> int {
    let d = if def < 1 { 1 } else { def };
    let base = (42 * power * atk / d) / 50;
    let burned = if burned_physical { base / 2 } else { base };
    let stab_halves = if stab { 3int } else { 2int };
    burned * stab_halves * eff_quarters * roll / 8000
}

pub open spec fn cap_i32(v: int) -> int {
    if v > i32::MAX { i32::MAX as int } else { v }
}

/// The damage of a hit (see `damage_value`), capped at `i32::MAX`.
pub fn damage_formula(
    power: u32,
    atk: i64,
    def: i64,
    burned_physical: bool,
    stab: bool,
    eff_quarters: u32,
    roll: u32,
) -> (r: i32)
    requires
        atk >= 0,
        eff_quarters <= 16,
        roll <= ROLL_MAX,
    ensures
        r == cap_i32(damage_value(power as int, atk as int, def as int, burned_physical, stab, eff_quarters as int, roll as int)),
        r >= 0,
{
    let d: u128 = if def < 1 { 1 } else { def as u128 };
    let p = power as u128;
    let a = atk as u128;
    assert(42 * p * a <= 42 * 0xffff_ffff * 0x7fff_ffff_ffff_ffff) by (nonlinear_arith)
        requires
            p <= 0xffff_ffff,
            a <= 0x7fff_ffff_ffff_ffff,
    ;
    let raw = 42 * p * a;
    let q = raw / d;
    assert(q <= raw) by (nonlinear_arith)
        requires
            d >= 1,
            q == raw / d,
    ;
    let base = q / 50;
    let burned = if burned_physical { base / 2 } else { base };
    let stab_halves: u128 = if stab { 3 } else { 2 };
    let e = eff_quarters as u128;
    let rl = roll as u128;
    assert(burned <= raw);
    assert(burned * stab_halves <= burned * 3
        && burned * stab_halves * e <= burned * 48
        && burned * stab_halves * e * rl <= burned * 48000) by (nonlinear_arith)
        requires
            stab_halves <= 3,
            e <= 16,
            rl <= 1000,
    ;
    let v = burned * stab_halves * e * rl / 8000;
    if v > 0x7fff_ffff {
        0x7fff_ffff
    } else {
        v as i32
    }
}

/// Whether a move's secondary effects fire: always without a frequency,
/// otherwise when the draw (in percent, from `0..100`) is below it.
pub open spec fn spec_fires(freq: Option<u32>, draw: u32) -> bool {
    match freq {
        Some(f) => draw < f,
        None => true,
    }
}

#[verifier::when_used_as_spec(spec_fires)]
pub fn fires(freq: Option<u32>, draw: u32) -> (r: bool)
    ensures
        r == spec_fires(freq, draw),
{
    match freq {
        Some(f) => draw < f,
        None => true,
    }
}

/// The damage `attacker` deals to `defender` with `mv` (which has power
/// `power`), under `weather`, with random factor `roll`: physical moves pit
/// Attack against Defense, the others Special Attack against Special
/// Defense; a burn halves physical damage; a move of one of the attacker's
/// types gets 3/2.
pub open spec fn hit_damage(
    attacker: Pokemon,
    defender: Pokemon,
    mv: Move,
    power: u32,
    weather: Option<WeatherId>,
    roll: u32,
) -> int {
    let physical = mv.damage_type == Mtype::Physical;
    let atk = attacker.stat_value(if physical { StatId::Atk } else { StatId::Spa }, weather);
    let def = defender.stat_value(if physical { StatId::Def } else { StatId::Spd }, weather);
    cap_i32(damage_value(
        power as int,
        atk,
        def,
        physical && attacker.status.has(Status::Burn),
        attacker.poketype.types().contains(mv.poke_type),
        eff_quarters(mv.poke_type, defender.poketype) as int,
        roll as int,
    ))
}

/// The effects of `mv` used by `attacker` on `defender`: a hit on the
/// opponent when the move has power and the opponent has an active creature,
/// then the move's own effects when they fire for `draw`.
pub open spec fn spec_move_effects(
    attacker: Pokemon,
    defender: Option<Pokemon>,
    mv: Move,
    weather: Option<WeatherId>,
    roll: u32,
    draw: u32,
) -> Seq<Effect> {
    let hit = match (mv.base_power, defender) {
        (Some(power), Some(d)) => seq![Effect::Damage(
            PlayerId::Inactive,
            Damage::Normal(hit_damage(attacker, d, mv, power, weather, roll) as i32),
        )],
        _ => Seq::empty(),
    };
    if spec_fires(mv.freq, draw) {
        hit + mv.effects@
    } else {
        hit
    }
}

/// A move's effects hold at most one forced switch.
pub proof fn lemma_move_effects_one_switch(
    attacker: Pokemon,
    defender: Option<Pokemon>,
    mv: Move,
    weather: Option<WeatherId>,
    roll: u32,
    draw: u32,
)
    requires
        mv.wf(),
    ensures
        at_most_one_mid_switch(spec_move_effects(attacker, defender, mv, weather, roll, draw)),
{
    let all = spec_move_effects(attacker, defender, mv, weather, roll, draw);
    let hit = match (mv.base_power, defender) {
        (Some(power), Some(d)) => seq![Effect::Damage(
            PlayerId::Inactive,
            Damage::Normal(hit_damage(attacker, d, mv, power, weather, roll) as i32),
        )],
        _ => Seq::<Effect>::empty(),
    };
    assert forall|i: int, j: int| 0 <= i < all.len() && 0 <= j < all.len() && (#[trigger] all[i] is MidSwitch)
        && (#[trigger] all[j] is MidSwitch) implies i == j by {
        if spec_fires(mv.freq, draw) {
            assert(all == hit + mv.effects@);
            assert(i >= hit.len() && j >= hit.len());
            assert(all[i] == mv.effects@[i - hit.len()]);
            assert(all[j] == mv.effects@[j - hit.len()]);
        } else {
            assert(all == hit);
        }
    }
}

/// The effects of `mv` (see `spec_move_effects`), given the random factor
/// `roll` (in thousandths, from `850..=1000`) and the draw for its
/// secondary effects (in percent, from `0..100`).
pub fn move_effects(
    attacker: &Pokemon,
    defender: Option<&Pokemon>,
    mv: &Move,
    weather: Option<WeatherId>,
    roll: u32,
    draw: u32,
) -> (r: Vec<Effect>)
    requires
        attacker.wf(),
        defender matches Some(d) ==> d.wf(),
        mv.wf(),
        roll <= ROLL_MAX,
    ensures
        r@ == spec_move_effects(*attacker, match defender { Some(d) => Some(*d), None => None }, *mv, weather, roll, draw),
        forall|i: int| 0 <= i < r@.len() ==> #[trigger] r@[i].wf(),
{
    let mut out: Vec<Effect> = Vec::new();
    match (mv.base_power, defender) {
        (Some(power), Some(d)) => {
            let physical = mv.damage_type == Mtype::Physical;
            let atk = attacker.stat(if physical { StatId::Atk } else { StatId::Spa }, weather);
            let def = d.stat(if physical { StatId::Def } else { StatId::Spd }, weather);
            let burned = physical && attacker.status.contains(Status::Burn);
            let stab = attacker.has_type(&mv.poke_type);
            let eff = d.type_eff(&mv.poke_type);
            let dmg = damage_formula(power, atk, def, burned, stab, eff, roll);
            out.push(Effect::Damage(PlayerId::Inactive, Damage::Normal(dmg)));
        },
        _ => {},
    }
    let ghost hit = out@;
    if fires(mv.freq, draw) {
        let mut i: usize = 0;
        while i < mv.effects.len()
            invariant
                i <= mv.effects@.len(),
                out@ == hit + mv.effects@.subrange(0, i as int),
            decreases mv.effects@.len() - i,
        {
            out.push(mv.effects[i]);
            i += 1;
            assert(out@ =~= hit + mv.effects@.subrange(0, i as int));
        }
        assert(mv.effects@.subrange(0, mv.effects@.len() as int) =~= mv.effects@);
    }
    proof {
        assert forall|i: int| 0 <= i < out@.len() implies #[trigger] out@[i].wf() by {
            if i >= hit.len() {
                assert(out@[i] == mv.effects@[i - hit.len()]);
            }
        }
    }
    out
}

/// The effects on `target`'s creature as it switches in over `hazards`:
/// Stealth Rock takes 1/8 of its health; one layer of Toxic Spikes poisons
/// it and two badly poison it; one, two or three layers of Spikes take 1/8,
/// 1/6 or 1/4.
pub open spec fn spec_switch_effects(hazards: HazardBlock, target: PlayerId) -> Seq<Effect> {
    let rock = if hazards.layers(HazardId::StealthRock) == 1 {
        seq![Effect::Damage(target, Damage::Fractional(1, 8))]
    } else {
        Seq::empty()
    };
    let tspikes = hazards.layers(HazardId::ToxicSpikes);
    let toxic = if tspikes == 1 {
        seq![Effect::InflictStatus(target, Status::Poison)]
    } else if tspikes == 2 {
        seq![Effect::InflictStatus(target, Status::Toxic)]
    } else {
        Seq::empty()
    };
    let spikes = hazards.layers(HazardId::Spikes);
    let spiked = if spikes == 1 {
        seq![Effect::Damage(target, Damage::Fractional(1, 8))]
    } else if spikes == 2 {
        seq![Effect::Damage(target, Damage::Fractional(1, 6))]
    } else if spikes == 3 {
        seq![Effect::Damage(target, Damage::Fractional(1, 4))]
    } else {
        Seq::empty()
    };
    rock + toxic + spiked
}

/// The effects of the hazards on a creature switching in (see
/// `spec_switch_effects`).
pub fn switch_effects(hazards: &HazardBlock, target: PlayerId) -> (r: Vec<Effect>)
    ensures
        r@ == spec_switch_effects(*hazards, target),
        forall|i: int| 0 <= i < r@.len() ==> #[trigger] r@[i].wf(),
        forall|i: int| 0 <= i < r@.len() ==> !(#[trigger] r@[i] is MidSwitch),
{
    let mut out: Vec<Effect> = Vec::new();
    if hazards.get(HazardId::StealthRock) == 1 {
        out.push(Effect::Damage(target, Damage::Fractional(1, 8)));
    }
    let tspikes = hazards.get(HazardId::ToxicSpikes);
    if tspikes == 1 {
        out.push(Effect::InflictStatus(target, Status::Poison));
    } else if tspikes == 2 {
        out.push(Effect::InflictStatus(target, Status::Toxic));
    }
    let spikes = hazards.get(HazardId::Spikes);
    if spikes == 1 {
        out.push(Effect::Damage(target, Damage::Fractional(1, 8)));
    } else if spikes == 2 {
        out.push(Effect::Damage(target, Damage::Fractional(1, 6)));
    } else if spikes == 3 {
        out.push(Effect::Damage(target, Damage::Fractional(1, 4)));
    }
    assert(out@ =~= spec_switch_effects(*hazards, target));
    out
}

/// Weather chip damage at the end of a turn: a sandstorm chips 1/12 off
/// creatures that are neither Rock nor Steel, and hail chips 1/12 off Ice
/// types.
#[verifier::opaque]
pub open spec fn eot_chip(mon: Pokemon, weather: Option<WeatherId>) -> Seq<Effect> {
    let types = mon.poketype.types();
    if (weather == Some(WeatherId::Sand) && !types.contains(Type::Rock) && !types.contains(Type::Steel))
        || (weather == Some(WeatherId::Hail) && types.contains(Type::Ice)) {
        seq![Effect::Damage(PlayerId::Active, Damage::Fractional(1, 12))]
    } else {
        Seq::empty()
    }
}

/// Held items at the end of a turn: Leftovers heal 1/16, a Toxic Orb badly
/// poisons.
#[verifier::opaque]
pub open spec fn eot_item(mon: Pokemon) -> Seq<Effect> {
    match mon.item {
        Some(Item::Leftovers) => seq![Effect::Heal(PlayerId::Active, 16)],
        Some(Item::ToxicOrb) => seq![Effect::InflictStatus(PlayerId::Active, Status::Toxic)],
        _ => Seq::empty(),
    }
}

/// Statuses at the end of a turn: a burn or poison takes 1/8, bad poison
/// `counter`/16, and a drowsy creature whose counter ran out falls asleep.
#[verifier::opaque]
pub open spec fn eot_status(mon: Pokemon) -> Seq<Effect> {
    let burn = if mon.status.has(Status::Burn) {
        seq![Effect::Damage(PlayerId::Active, Damage::Fractional(1, 8))]
    } else {
        Seq::empty()
    };
    let poison = if mon.status.has(Status::Poison) {
        seq![Effect::Damage(PlayerId::Active, Damage::Fractional(1, 8))]
    } else {
        Seq::empty()
    };
    let toxic = match mon.status.get(Status::Toxic) {
        Some(c) => seq![Effect::Damage(PlayerId::Active, Damage::Fractional(c as i32, 16))],
        None => Seq::empty(),
    };
    let drowsy = if mon.status.get(Status::Drowsy) == Some(0u8) {
        seq![Effect::InflictStatus(PlayerId::Active, Status::Sleep)]
    } else {
        Seq::empty()
    };
    burn + poison + toxic + drowsy
}

/// The end-of-turn effects on the acting side's creature `mon`, whose status
/// counters have already ticked: weather, then item, then statuses.
pub open spec fn spec_eot_effects(mon: Pokemon, weather: Option<WeatherId>) -> Seq<Effect> {
    eot_chip(mon, weather) + eot_item(mon) + eot_status(mon)
}

/// The status part of the end-of-turn effects (see `eot_status`).
fn eot_status_effects(mon: &Pokemon) -> (r: Vec<Effect>)
    requires
        mon.wf(),
    ensures
        r@ == eot_status(*mon),
{
    reveal(eot_status);
    let mut out: Vec<Effect> = Vec::new();
    if mon.status.contains(Status::Burn) {
        out.push(Effect::Damage(PlayerId::Active, Damage::Fractional(1, 8)));
    }
    let ghost a = out@;
    if mon.status.contains(Status::Poison) {
        out.push(Effect::Damage(PlayerId::Active, Damage::Fractional(1, 8)));
    }
    let ghost b = out@;
    match mon.status.counter(Status::Toxic) {
        Some(c) => out.push(Effect::Damage(PlayerId::Active, Damage::Fractional(c as i32, 16))),
        None => {},
    }
    let ghost c = out@;
    if mon.status.counter(Status::Drowsy) == Some(0u8) {
        out.push(Effect::InflictStatus(PlayerId::Active, Status::Sleep));
    }
    proof {
        let m = *mon;
        let burn = if m.status.has(Status::Burn) {
            seq![Effect::Damage(PlayerId::Active, Damage::Fractional(1, 8))]
        } else {
            Seq::empty()
        };
        let poison = if m.status.has(Status::Poison) {
            seq![Effect::Damage(PlayerId::Active, Damage::Fractional(1, 8))]
        } else {
            Seq::empty()
        };
        let toxic = match m.status.get(Status::Toxic) {
            Some(c) => seq![Effect::Damage(PlayerId::Active, Damage::Fractional(c as i32, 16))],
            None => Seq::empty(),
        };
        let drowsy = if m.status.get(Status::Drowsy) == Some(0u8) {
            seq![Effect::InflictStatus(PlayerId::Active, Status::Sleep)]
        } else {
            Seq::empty()
        };
        assert(a =~= burn);
        assert(b =~= burn + poison);
        assert(c =~= burn + poison + toxic);
        assert(out@ =~= burn + poison + toxic + drowsy);
    }
    out
}

/// The weather part of the end-of-turn effects (see `eot_chip`).
fn eot_chip_effects(mon: &Pokemon, weather: Option<WeatherId>) -> (r: Vec<Effect>)
    requires
        mon.wf(),
    ensures
        r@ == eot_chip(*mon, weather),
{
    reveal(eot_chip);
    let mut out: Vec<Effect> = Vec::new();
    let rock = mon.has_type(&Type::Rock);
    let steel = mon.has_type(&Type::Steel);
    let ice = mon.has_type(&Type::Ice);
    if (weather == Some(WeatherId::Sand) && !rock && !steel) || (weather == Some(WeatherId::Hail) && ice) {
        out.push(Effect::Damage(PlayerId::Active, Damage::Fractional(1, 12)));
    }
    assert(out@ =~= eot_chip(*mon, weather));
    out
}

/// The item part of the end-of-turn effects (see `eot_item`).
fn eot_item_effects(mon: &Pokemon) -> (r: Vec<Effect>)
    ensures
        r@ == eot_item(*mon),
{
    reveal(eot_item);
    let mut out: Vec<Effect> = Vec::new();
    match mon.item {
        Some(Item::Leftovers) => out.push(Effect::Heal(PlayerId::Active, 16)),
        Some(Item::ToxicOrb) => out.push(Effect::InflictStatus(PlayerId::Active, Status::Toxic)),
        _ => {},
    }
    assert(out@ =~= eot_item(*mon));
    out
}

/// The end-of-turn effects (see `spec_eot_effects`).
pub fn eot_effects(mon: &Pokemon, weather: Option<WeatherId>) -> (r: Vec<Effect>)
    requires
        mon.wf(),
    ensures
        r@ == spec_eot_effects(*mon, weather),
        forall|i: int| 0 <= i < r@.len() ==> #[trigger] r@[i].wf(),
        forall|i: int| 0 <= i < r@.len() ==> !(#[trigger] r@[i] is MidSwitch),
{
    let mut out = eot_chip_effects(mon, weather);
    let mut items = eot_item_effects(mon);
    let mut statuses = eot_status_effects(mon);
    out.append(&mut items);
    out.append(&mut statuses);
    proof {
        lemma_eot_effects_plain(*mon, weather);
    }
    out
}

/// End-of-turn effects are well formed and never force a switch.
proof fn lemma_eot_effects_plain(mon: Pokemon, weather: Option<WeatherId>)
    ensures
        forall|i: int| 0 <= i < spec_eot_effects(mon, weather).len() ==> #[trigger] spec_eot_effects(mon, weather)[i].wf(),
        forall|i: int| 0 <= i < spec_eot_effects(mon, weather).len() ==> !(#[trigger] spec_eot_effects(mon, weather)[i] is MidSwitch),
{
    reveal(eot_chip);
    reveal(eot_item);
    reveal(eot_status);
    let a = eot_chip(mon, weather);
    let b = eot_item(mon);
    let c = eot_status(mon);
    let all = spec_eot_effects(mon, weather);
    assert forall|i: int| 0 <= i < all.len() implies #[trigger] all[i].wf() && !(all[i] is MidSwitch) by {
        if i < a.len() {
            assert(all[i] == a[i]);
        } else if i < a.len() + b.len() {
            assert(all[i] == b[i - a.len()]);
        } else {
            assert(all[i] == c[i - a.len() - b.len()]);
            assert(c.len() <= 4);
        }
    }
}

/// Which side acts first, 0 or 1: the higher priority, then the higher
/// Speed, and on a tie of both the coin (0 favours side 0).
pub open spec fn spec_first_mover(prio0: int, prio1: int, spe0: int, spe1: int, coin: u32) -> usize {
    if prio0 > prio1 || (prio0 == prio1 && (spe0 > spe1 || (spe0 == spe1 && coin == 0))) {
        0
    } else {
        1
    }
}

pub fn first_mover(prio0: i16, prio1: i16, spe0: i64, spe1: i64, coin: u32) -> (r: usize)
    ensures
        r == spec_first_mover(prio0 as int, prio1 as int, spe0 as int, spe1 as int, coin),
{
    if prio0 > prio1 || (prio0 == prio1 && (spe0 > spe1 || (spe0 == spe1 && coin == 0))) {
        0
    } else {
        1
    }
}

} // verus!
