use vstd::prelude::*;

use crate::bounded_i32::{clamp, BoundedI32};
use crate::game::{lemma_log_grew_refl, lemma_log_grew_trans, log_grew, write_log, Game, GameState, HazardId, WeatherId};
use crate::player::{roster_wf, HazardBlock, Player};
use crate::selvec::swapped;
use crate::pokemon::Pokemon;
use crate::stat::{StatId, MAX_STAGE, MIN_STAGE};
use crate::status::Status;

verus! {

/// Names a side: absolutely (`Player1`, `Player2`), or relative to the side
/// currently acting (`Active`, `Inactive`).
#[derive(PartialEq, Eq, Structural, Debug, Copy, Clone, Default)]
pub enum PlayerId {
    #[default]
    Player1,
    Player2,
    Active,
    Inactive,
}

impl PlayerId {
    pub open spec fn inverted(self) -> PlayerId {
        match self {
            PlayerId::Player1 => PlayerId::Player2,
            PlayerId::Player2 => PlayerId::Player1,
            PlayerId::Active => PlayerId::Inactive,
            PlayerId::Inactive => PlayerId::Active,
        }
    }

    /// Turns the id into the other side's.
    pub fn invert(&mut self)
        ensures
            *final(self) == old(self).inverted(),
    {
        match self {
            PlayerId::Player1 => *self = PlayerId::Player2,
            PlayerId::Player2 => *self = PlayerId::Player1,
            PlayerId::Active => *self = PlayerId::Inactive,
            PlayerId::Inactive => *self = PlayerId::Active,
        }
    }
}

/// An amount of damage: flat, or the fraction `n / d` of the target's
/// maximum health.
#[derive(Debug, PartialEq, Eq, Structural, Copy, Clone)]
pub enum Damage {
    Normal(i32),
    Fractional(i32, i32),
}

impl Damage {
    pub open spec fn wf(self) -> bool {
        self matches Damage::Fractional(n, d) ==> n >= 0 && d > 0
    }

    /// The amount dealt to a target whose health is `value`.
    pub open spec fn amount(self, value: BoundedI32) -> int {
        match self {
            Damage::Normal(out) => out as int,
            Damage::Fractional(n, d) => (value.max as int) * (n as int) / (d as int),
        }
    }

    /// The amount dealt to a target whose health is `value`: the flat
    /// amount, or `max * n / d` truncated.
    pub fn collapse(&self, value: BoundedI32) -> (r: i64)
        requires
            self.wf(),
            value.max >= 0,
        ensures
            r == self.amount(value),
    {
        match self {
            Damage::Normal(out) => *out as i64,
            Damage::Fractional(n, d) => {
                let m = value.max as i64;
                let n = *n as i64;
                assert(0 <= m * n <= 0x7fff_ffff * 0x7fff_ffff) by (nonlinear_arith)
                    requires
                        0 <= m <= 0x7fff_ffff,
                        0 <= n <= 0x7fff_ffff,
                ;
                m * n / (*d as i64)
            },
        }
    }
}

/// A command that changes the battle state; only the effect resolver
/// carries them out.
#[derive(Debug, PartialEq, Eq, Structural, Copy, Clone)]
pub enum Effect {
    AlterStat(PlayerId, StatId, i32),
    ClearHazard(PlayerId),
    Cure(PlayerId),
    Damage(PlayerId, Damage),
    Heal(PlayerId, i32),
    InflictHazard(PlayerId, HazardId),
    InflictStatus(PlayerId, Status),
    MidSwitch(PlayerId),
    OHKO(PlayerId),
    SetWeather(WeatherId),
    Switch(usize),
}

impl Effect {
    pub open spec fn wf(self) -> bool {
        match self {
            Effect::Damage(_, d) => d.wf(),
            Effect::Heal(_, frac) => frac > 0,
            _ => true,
        }
    }
}

/// Nothing but the random source differs.
pub open spec fn unchanged(old: Game, new: Game) -> bool {
    &&& new.players.data@ == old.players.data@
    &&& new.players.active == old.players.active
    &&& new.players.dead == old.players.dead
    &&& new.weather == old.weather
    &&& new.log@ == old.log@
    &&& new.state == old.state
    &&& new.prev_state@ == old.prev_state@
    &&& new.turn_count == old.turn_count
}

/// Besides the log, only side `t` changed, and of it only its roster and
/// hazards.
pub open spec fn only_side_changed(old: Game, new: Game, t: int) -> bool {
    &&& new.players.data@.len() == old.players.data@.len()
    &&& new.side(1 - t) == old.side(1 - t)
    &&& new.side(t).ai == old.side(t).ai
    &&& new.side(t).inputs == old.side(t).inputs
    &&& new.players.active == old.players.active
    &&& new.players.dead == old.players.dead
    &&& new.weather == old.weather
    &&& new.state == old.state
    &&& new.prev_state@ == old.prev_state@
    &&& new.turn_count == old.turn_count
}

/// Side `t`'s active creature `m`, at slot `a`, now has health `hp`: it
/// stays in place while it has health left, and otherwise faints (it is
/// exchanged with the last living creature and nothing is active).
pub open spec fn health_set(old: Player, new: Player, a: int, m: Pokemon, hp: int) -> bool {
    &&& new.hazards == old.hazards
    &&& if hp > 0 {
        &&& new.roster.data@ == old.roster.data@.update(a, m.with_hp(hp))
        &&& new.roster.active == old.roster.active
        &&& new.roster.dead == old.roster.dead
    } else {
        &&& new.roster.data@ == swapped(old.roster.data@.update(a, m.with_hp(0)), a, old.roster.dead - 1)
        &&& new.roster.active is None
        &&& new.roster.dead == old.roster.dead - 1
    }
}

/// What `Damage(target, d)` does: the target's active creature loses the
/// amount, its health clamped to `[0, max]`; one line is logged, and a
/// second when it faints. Nothing happens without an active creature or
/// when the health does not change.
pub open spec fn damage_post(old: Game, new: Game, target: PlayerId, d: Damage) -> bool {
    let t = old.side_of(target);
    match old.side(t).active_mon() {
        None => unchanged(old, new),
        Some(m) => {
            let hp = clamp(m.hp.data - d.amount(m.hp), 0, m.hp.max as int);
            if hp == m.hp.data {
                unchanged(old, new)
            } else {
                &&& only_side_changed(old, new, t)
                &&& health_set(old.side(t), new.side(t), old.side(t).roster.active->0 as int, m, hp)
                &&& log_grew(old.log@, new.log@, if hp > 0 { 1 } else { 2 })
            }
        },
    }
}

/// What `OHKO(target)` does: the target's active creature drops to 0 health
/// and faints, with one line logged.
pub open spec fn ohko_post(old: Game, new: Game, target: PlayerId) -> bool {
    let t = old.side_of(target);
    match old.side(t).active_mon() {
        None => unchanged(old, new),
        Some(m) => {
            &&& only_side_changed(old, new, t)
            &&& health_set(old.side(t), new.side(t), old.side(t).roster.active->0 as int, m, 0)
            &&& log_grew(old.log@, new.log@, 1)
        },
    }
}

/// What `Heal(target, frac)` does: the target's active creature gains
/// `max / frac` health, clamped at `max`, with one line logged; nothing
/// happens when its health does not change.
pub open spec fn heal_post(old: Game, new: Game, target: PlayerId, frac: i32) -> bool {
    let t = old.side_of(target);
    match old.side(t).active_mon() {
        None => unchanged(old, new),
        Some(m) => {
            let hp = clamp(m.hp.data + (m.hp.max as int) / (frac as int), 0, m.hp.max as int);
            if hp == m.hp.data {
                unchanged(old, new)
            } else {
                &&& only_side_changed(old, new, t)
                &&& health_set(old.side(t), new.side(t), old.side(t).roster.active->0 as int, m, hp)
                &&& log_grew(old.log@, new.log@, 1)
            }
        },
    }
}

/// Side `t`'s active creature `m`, at slot `a`, was replaced by `n`; nothing
/// else of the side changed.
pub open spec fn mon_replaced(old: Player, new: Player, a: int, n: Pokemon) -> bool {
    &&& new.hazards == old.hazards
    &&& new.roster.data@ == old.roster.data@.update(a, n)
    &&& new.roster.active == old.roster.active
    &&& new.roster.dead == old.roster.dead
}

/// What `AlterStat(target, stat, delta)` does: the stage of the target's
/// active creature moves by `delta`, clamped to `[-6, 6]`, with one line
/// logged; nothing happens when the stage does not change.
pub open spec fn alter_post(old: Game, new: Game, target: PlayerId, stat: StatId, delta: i32) -> bool {
    let t = old.side_of(target);
    match old.side(t).active_mon() {
        None => unchanged(old, new),
        Some(m) => {
            let stage = m.stats.get(stat).stage.data;
            let next = clamp(stage + delta, MIN_STAGE as int, MAX_STAGE as int);
            if next == stage {
                unchanged(old, new)
            } else {
                let a = old.side(t).roster.active->0 as int;
                let n = new.side(t).roster.data@[a];
                &&& only_side_changed(old, new, t)
                &&& mon_replaced(old.side(t), new.side(t), a, n)
                &&& m.same_but_stats(n)
                &&& n.stats.get(stat).stage.data == next
                &&& n.stats.get(stat).base == m.stats.get(stat).base
                &&& forall|o: StatId| o != stat ==> #[trigger] n.stats.get(o) == m.stats.get(o)
                &&& log_grew(old.log@, new.log@, 1)
            }
        },
    }
}

/// What `InflictStatus(target, status)` does: the status is added to the
/// target's active creature, with one line logged, unless it is present
/// already or it is non-volatile and another non-volatile status is.
pub open spec fn inflict_post(old: Game, new: Game, target: PlayerId, status: Status) -> bool {
    let t = old.side_of(target);
    match old.side(t).active_mon() {
        None => unchanged(old, new),
        Some(m) => {
            if m.status.has(status) || (status.spec_is_nv() && m.status.nv_status() is Some) {
                unchanged(old, new)
            } else {
                let a = old.side(t).roster.active->0 as int;
                let n = new.side(t).roster.data@[a];
                &&& only_side_changed(old, new, t)
                &&& mon_replaced(old.side(t), new.side(t), a, n)
                &&& m.same_but_status(n)
                &&& n.status.has(status)
                &&& m.status.same_except(&n.status, status)
                &&& (status.spec_is_nv() ==> n.status.nv_status() == Some(status))
                &&& log_grew(old.log@, new.log@, 1)
            }
        },
    }
}

/// What `Cure(target)` does: the non-volatile status of the target's active
/// creature is removed, with one line logged; nothing happens without one.
pub open spec fn cure_post(old: Game, new: Game, target: PlayerId) -> bool {
    let t = old.side_of(target);
    match old.side(t).active_mon() {
        None => unchanged(old, new),
        Some(m) => {
            if m.status.nv_status() is None {
                unchanged(old, new)
            } else {
                let a = old.side(t).roster.active->0 as int;
                let n = new.side(t).roster.data@[a];
                &&& only_side_changed(old, new, t)
                &&& mon_replaced(old.side(t), new.side(t), a, n)
                &&& m.same_but_status(n)
                &&& n.status.nv_status() is None
                &&& forall|s: Status| !s.spec_is_nv() ==> #[trigger] n.status.get(s) == m.status.get(s)
                &&& forall|s: Status| s.spec_is_nv() ==> !#[trigger] n.status.has(s)
                &&& log_grew(old.log@, new.log@, 1)
            }
        },
    }
}

/// What `InflictHazard(target, h)` does: one more layer of `h` on the
/// target's side, with one line logged; at its cap (see `HazardBlock::cap`),
/// nothing happens.
pub open spec fn hazard_post(old: Game, new: Game, target: PlayerId, h: HazardId) -> bool {
    let t = old.side_of(target);
    if old.side(t).hazards.layers(h) >= HazardBlock::spec_cap(h) {
        unchanged(old, new)
    } else {
        &&& only_side_changed(old, new, t)
        &&& new.side(t).roster == old.side(t).roster
        &&& new.side(t).hazards.layers(h) == old.side(t).hazards.layers(h) + 1
        &&& forall|o: HazardId| o != h ==> #[trigger] new.side(t).hazards.counter(o) == old.side(t).hazards.counter(o)
        &&& log_grew(old.log@, new.log@, 1)
    }
}

/// What `ClearHazard(target)` does: every hazard on the target's side drops
/// to 0 layers, and one line is logged, even when there were none.
pub open spec fn clear_post(old: Game, new: Game, target: PlayerId) -> bool {
    let t = old.side_of(target);
    &&& only_side_changed(old, new, t)
    &&& new.side(t).roster == old.side(t).roster
    &&& new.side(t).hazards.is_clear()
    &&& log_grew(old.log@, new.log@, 1)
}

/// Besides the log, at most the weather changed.
pub open spec fn only_weather_changed(old: Game, new: Game) -> bool {
    &&& new.players.data@ == old.players.data@
    &&& new.players.active == old.players.active
    &&& new.players.dead == old.players.dead
    &&& new.state == old.state
    &&& new.prev_state@ == old.prev_state@
    &&& new.turn_count == old.turn_count
}

/// What `SetWeather(w)` does: the weather becomes `w`, with one line
/// logged; nothing happens when it already is.
pub open spec fn weather_post(old: Game, new: Game, w: WeatherId) -> bool {
    if old.weather == Some(w) {
        unchanged(old, new)
    } else {
        &&& only_weather_changed(old, new)
        &&& new.weather == Some(w)
        &&& log_grew(old.log@, new.log@, 1)
    }
}

/// What `Switch(idx)` does: the acting side's active slot becomes `idx`,
/// with one line logged, when `idx` is a living slot other than the active
/// one; otherwise nothing happens.
pub open spec fn switch_post(old: Game, new: Game, idx: usize) -> bool {
    let t = old.acting();
    let p = old.side(t);
    if idx < p.roster.dead && p.roster.active != Some(idx) {
        &&& only_side_changed(old, new, t)
        &&& new.side(t).hazards == p.hazards
        &&& new.side(t).roster.data == p.roster.data
        &&& new.side(t).roster.dead == p.roster.dead
        &&& new.side(t).roster.active == Some(idx)
        &&& log_grew(old.log@, new.log@, 1)
    } else {
        unchanged(old, new)
    }
}

/// A phase that a forced switch can interrupt and later resume: any but
/// the end of the battle.
pub open spec fn resumable(s: GameState) -> bool {
    !(s is Completed)
}

/// What `MidSwitch(target)` does: when the target's side has more than one
/// living creature and the phase can be resumed, the phase is saved, the
/// battle awaits a switch from that side, and one line is logged; otherwise
/// nothing happens.
pub open spec fn mid_switch_post(old: Game, new: Game, target: PlayerId) -> bool {
    let t = old.side_of(target);
    if old.side(t).roster.dead > 1 && resumable(old.state) {
        &&& new.players.data@ == old.players.data@
        &&& new.players.dead == old.players.dead
        &&& new.players.active == Some(t as usize)
        &&& new.weather == old.weather
        &&& new.state == GameState::AwaitingSwitch
        &&& new.prev_state@ == old.prev_state@.push(old.state)
        &&& new.turn_count == old.turn_count
        &&& log_grew(old.log@, new.log@, 1)
    } else {
        unchanged(old, new)
    }
}

/// What applying `e` does.
pub open spec fn effect_post(old: Game, new: Game, e: Effect) -> bool {
    match e {
        Effect::AlterStat(target, stat, delta) => alter_post(old, new, target, stat, delta),
        Effect::ClearHazard(target) => clear_post(old, new, target),
        Effect::Cure(target) => cure_post(old, new, target),
        Effect::Damage(target, d) => damage_post(old, new, target, d),
        Effect::Heal(target, frac) => heal_post(old, new, target, frac),
        Effect::InflictHazard(target, h) => hazard_post(old, new, target, h),
        Effect::InflictStatus(target, status) => inflict_post(old, new, target, status),
        Effect::MidSwitch(target) => mid_switch_post(old, new, target),
        Effect::OHKO(target) => ohko_post(old, new, target),
        Effect::SetWeather(w) => weather_post(old, new, w),
        Effect::Switch(idx) => switch_post(old, new, idx),
    }
}

/// The phase and the saved phases after applying effects: unchanged, or
/// (by a forced switch) the old phase saved and a switch awaited.
pub open spec fn phase_frame(old: Game, new: Game) -> bool {
    ||| (new.state == old.state && new.prev_state@ == old.prev_state@)
    ||| (resumable(old.state) && new.state == GameState::AwaitingSwitch
        && new.prev_state@ == old.prev_state@.push(old.state))
}

/// What holds across applying effects, whatever they are: neither side's
/// measure grows, the turn count stays, and the log only grows.
pub open spec fn effects_frame(old: Game, new: Game) -> bool {
    &&& new.side(0).pot() <= old.side(0).pot()
    &&& new.side(1).pot() <= old.side(1).pot()
    &&& new.turn_count == old.turn_count
    &&& exists|n: nat| log_grew(old.log@, new.log@, n)
}

/// `gs` is the run of states that applying `effects` in order goes through:
/// each state is well formed and the next follows from it by the effect.
pub open spec fn chain(gs: Seq<Game>, effects: Seq<Effect>) -> bool {
    &&& gs.len() == effects.len() + 1
    &&& forall|i: int| 0 <= i < effects.len() ==> (#[trigger] gs[i]).wf() && effect_post(gs[i], gs[i + 1], effects[i])
}

/// `new` follows from `old` by applying `effects` in order.
pub open spec fn effects_applied(old: Game, new: Game, effects: Seq<Effect>) -> bool {
    exists|gs: Seq<Game>| #[trigger] chain(gs, effects) && gs[0] == old && gs.last() == new
}

/// `effects` holds at most one forced switch.
pub open spec fn at_most_one_mid_switch(effects: Seq<Effect>) -> bool {
    forall|i: int, j: int| 0 <= i < effects.len() && 0 <= j < effects.len() && (#[trigger] effects[i] is MidSwitch)
        && (#[trigger] effects[j] is MidSwitch) ==> i == j
}

/// Whether `effects` holds a forced switch.
pub open spec fn has_mid_switch(effects: Seq<Effect>) -> bool {
    exists|i: int| 0 <= i < effects.len() && #[trigger] effects[i] is MidSwitch
}

/// Every creature of both sides has health within `[0, max]`.
pub open spec fn health_bounded(g: Game) -> bool {
    forall|i: int, k: int| 0 <= i < 2 && 0 <= k < g.side(i).roster.data@.len() ==> {
        let hp = #[trigger] g.side(i).roster.data@[k].hp;
        0 <= hp.data <= hp.max
    }
}

/// Damage and healing keep every creature's health within `[0, max]`.
pub proof fn lemma_health_bounded(old: Game, new: Game, e: Effect)
    requires
        old.wf(),
        e is Damage || e is Heal,
        e.wf(),
        effect_post(old, new, e),
    ensures
        health_bounded(new),
{
    let t = match e {
        Effect::Damage(target, _) => old.side_of(target),
        Effect::Heal(target, _) => old.side_of(target),
        _ => 0,
    };
    assert forall|i: int, k: int| 0 <= i < 2 && 0 <= k < new.side(i).roster.data@.len() implies {
        let hp = #[trigger] new.side(i).roster.data@[k].hp;
        0 <= hp.data <= hp.max
    } by {
        if unchanged(old, new) || i != t {
            assert(old.side(i).roster.data@[k].wf());
        } else {
            let p = old.side(t);
            let a = p.roster.active->0 as int;
            let d = p.roster.dead as int;
            assert(p.roster.data@[k].wf());
            assert(p.roster.data@[a].wf());
            assert(p.roster.data@[d - 1].wf());
        }
    }
}

/// Inflicting a hazard that is at its maximum number of layers changes
/// nothing and logs nothing.
pub proof fn lemma_full_hazard_is_noop(old: Game, new: Game, target: PlayerId, h: HazardId)
    requires
        old.wf(),
        old.side(old.side_of(target)).hazards.layers(h) == HazardBlock::spec_cap(h),
        effect_post(old, new, Effect::InflictHazard(target, h)),
    ensures
        unchanged(old, new),
        new.log@ == old.log@,
{
}

/// A switch to a living creature other than the active one makes it active
/// and logs exactly one line.
pub proof fn lemma_switch_logs_once(old: Game, new: Game, idx: usize)
    requires
        old.wf(),
        idx < old.side(old.acting()).roster.dead,
        old.side(old.acting()).roster.active != Some(idx),
        effect_post(old, new, Effect::Switch(idx)),
    ensures
        new.side(old.acting()).roster.active == Some(idx),
        log_grew(old.log@, new.log@, 1),
{
}

/// Clearing the hazards of a side that has none, twice in a row, leaves the
/// same state both times and logs a line both times.
pub proof fn lemma_clear_twice(g0: Game, g1: Game, g2: Game, target: PlayerId)
    requires
        g0.wf(),
        g1.wf(),
        g2.wf(),
        g0.side(g0.side_of(target)).hazards.is_clear(),
        effect_post(g0, g1, Effect::ClearHazard(target)),
        effect_post(g1, g2, Effect::ClearHazard(target)),
    ensures
        g1.side(g0.side_of(target)).hazards == g0.side(g0.side_of(target)).hazards,
        g2.side(g0.side_of(target)).hazards == g1.side(g0.side_of(target)).hazards,
        g1.side(g0.side_of(target)).roster == g0.side(g0.side_of(target)).roster,
        g2.side(g0.side_of(target)).roster == g1.side(g0.side_of(target)).roster,
        g1.side(1 - g0.side_of(target)) == g0.side(1 - g0.side_of(target)),
        g2.side(1 - g0.side_of(target)) == g1.side(1 - g0.side_of(target)),
        g1.weather == g0.weather && g2.weather == g1.weather,
        g1.state == g0.state && g2.state == g1.state,
        log_grew(g0.log@, g1.log@, 1),
        log_grew(g1.log@, g2.log@, 1),
{
    let t = g0.side_of(target);
    let h0 = g0.side(t).hazards;
    let h1 = g1.side(t).hazards;
    let h2 = g2.side(t).hazards;
    assert(h0.counter(HazardId::StealthRock).wf() && h0.counter(HazardId::Spikes).wf()
        && h0.counter(HazardId::ToxicSpikes).wf());
    assert(h1.counter(HazardId::StealthRock).wf() && h1.counter(HazardId::Spikes).wf()
        && h1.counter(HazardId::ToxicSpikes).wf());
    assert(h2.counter(HazardId::StealthRock).wf() && h2.counter(HazardId::Spikes).wf()
        && h2.counter(HazardId::ToxicSpikes).wf());
    assert(h0.layers(HazardId::StealthRock) == 0 && h0.layers(HazardId::Spikes) == 0 && h0.layers(HazardId::ToxicSpikes) == 0);
    assert(h1.layers(HazardId::StealthRock) == 0 && h1.layers(HazardId::Spikes) == 0 && h1.layers(HazardId::ToxicSpikes) == 0);
    assert(h2.layers(HazardId::StealthRock) == 0 && h2.layers(HazardId::Spikes) == 0 && h2.layers(HazardId::ToxicSpikes) == 0);
    assert(g1.side_of(target) == t);
}

/// `player`'s name, then "'s ", then `mon`, then `rest`.
fn mon_line(player: &str, mon: &str, rest: &str) -> String {
    String::from_str(player).concat("'s ").concat(mon).concat(rest)
}

impl Game {
    /// Re-establishes the roster invariant of side `t` after its active
    /// creature at slot `a` was replaced by a well-formed one with health.
    pub(crate) proof fn lemma_roster_kept(old: Player, new: Player, a: usize)
        requires
            old.wf(),
            a < old.roster.data@.len(),
            new.hazards == old.hazards,
            new.roster.active == old.roster.active,
            new.roster.dead == old.roster.dead,
            old.roster.active == Some(a),
            new.roster.data@ == old.roster.data@.update(a as int, new.roster.data@[a as int]),
            new.roster.data@[a as int].wf(),
            new.roster.data@[a as int].hp.data > 0,
        ensures
            new.wf(),
    {
        assert(roster_wf(old.roster));
        assert(new.roster.data@.len() == old.roster.data@.len());
        assert forall|i: int| 0 <= i < new.roster.data@.len() implies (#[trigger] new.roster.data@[i]).wf()
            && (new.roster.data@[i].hp.data > 0 <==> i < new.roster.dead) by {
            if i != a {
                assert(new.roster.data@[i] == old.roster.data@[i]);
                assert(old.roster.data@[i].wf());
            } else {
                assert(old.roster.data@[a as int].hp.data > 0);
            }
        }
    }

    /// Applies `OHKO(target)` (see `ohko_post`).
    fn apply_ohko(&mut self, target: PlayerId)
        requires
            old(self).wf(),
        ensures
            final(self).wf(),
            ohko_post(*old(self), *final(self), target),
    {
        let t = self.side_index(target);
        let a = match self.players.data[t].roster.active {
            Some(a) => a,
            None => return,
        };
        let ghost m = self.side(t as int).roster.data@[a as int];
        assert(m.wf());
        let player_name = self.players.data[t].name();
        let mon_name = self.players.data[t].roster.data[a].id.name();
        {
            let player = self.players.get_mut(t);
            let mon = player.roster.get_mut(a);
            mon.hp.data = 0;
            player.roster.kill();
        }
        write_log(&mut self.log, mon_line(player_name, mon_name, " fainted!"));
        proof {
            let p = self.side(t as int);
            let d = old(self).side(t as int).roster.dead;
            assert forall|i: int| 0 <= i < p.roster.data@.len() implies (#[trigger] p.roster.data@[i]).wf()
                && (p.roster.data@[i].hp.data > 0 <==> i < p.roster.dead) by {
                assert(old(self).side(t as int).roster.data@[i].wf());
                assert(old(self).side(t as int).roster.data@[d - 1].wf());
            }
            assert(roster_wf(p.roster));
        }
    }

    /// Applies `Heal(target, frac)` (see `heal_post`).
    fn apply_heal(&mut self, target: PlayerId, frac: i32)
        requires
            old(self).wf(),
            frac > 0,
        ensures
            final(self).wf(),
            heal_post(*old(self), *final(self), target, frac),
    {
        let t = self.side_index(target);
        let a = match self.players.data[t].roster.active {
            Some(a) => a,
            None => return,
        };
        let ghost m = self.side(t as int).roster.data@[a as int];
        assert(m.wf());
        let prev = self.players.data[t].roster.data[a].hp.data;
        let max = self.players.data[t].roster.data[a].hp.max;
        let gain = max / frac;
        if gain == 0 || prev == max {
            return;
        }
        let player_name = self.players.data[t].name();
        let mon_name = self.players.data[t].roster.data[a].id.name();
        let now = {
            let player = self.players.get_mut(t);
            let mon = player.roster.get_mut(a);
            mon.hp.raise(gain as i64);
            mon.hp.data
        };
        let diff = (now as i64 - prev as i64).to_string();
        let line = mon_line(player_name, mon_name, String::from_str(" gained ").concat(diff.as_str()).concat(" hp").as_str());
        write_log(&mut self.log, line);
        proof {
            Self::lemma_roster_kept(old(self).side(t as int), self.side(t as int), a);
        }
    }

    /// Applies `AlterStat(target, stat, delta)` (see `alter_post`).
    fn apply_alter(&mut self, target: PlayerId, stat: StatId, delta: i32)
        requires
            old(self).wf(),
        ensures
            final(self).wf(),
            alter_post(*old(self), *final(self), target, stat, delta),
    {
        let t = self.side_index(target);
        let a = match self.players.data[t].roster.active {
            Some(a) => a,
            None => return,
        };
        let ghost m = self.side(t as int).roster.data@[a as int];
        assert(m.wf());
        assert(m.stats.get(stat).wf());
        let stage = self.players.data[t].roster.data[a].stats.stat(stat).stage.data;
        let wanted: i64 = stage as i64 + delta as i64;
        if (wanted >= MAX_STAGE as i64 && stage == MAX_STAGE) || (wanted <= MIN_STAGE as i64 && stage == MIN_STAGE) || delta == 0 {
            return;
        }
        let player_name = self.players.data[t].name();
        let mon_name = self.players.data[t].roster.data[a].id.name();
        {
            let player = self.players.get_mut(t);
            let mon = player.roster.get_mut(a);
            mon.stats.alter(stat, delta);
        }
        let how = if delta > 0 { " was raised" } else { " was lowered" };
        let line = mon_line(player_name, mon_name, String::from_str(" ").concat(stat.name()).concat(how).as_str());
        write_log(&mut self.log, line);
        proof {
            Self::lemma_roster_kept(old(self).side(t as int), self.side(t as int), a);
        }
    }

    /// Applies `InflictStatus(target, status)` (see `inflict_post`).
    fn apply_inflict(&mut self, target: PlayerId, status: Status)
        requires
            old(self).wf(),
        ensures
            final(self).wf(),
            inflict_post(*old(self), *final(self), target, status),
    {
        let t = self.side_index(target);
        let a = match self.players.data[t].roster.active {
            Some(a) => a,
            None => return,
        };
        let ghost m = self.side(t as int).roster.data@[a as int];
        assert(m.wf());
        if self.players.data[t].roster.data[a].status.contains(status)
            || (status.is_nv() && self.players.data[t].roster.data[a].status.nv().is_some()) {
            return;
        }
        let player_name = self.players.data[t].name();
        let mon_name = self.players.data[t].roster.data[a].id.name();
        {
            let player = self.players.get_mut(t);
            let mon = player.roster.get_mut(a);
            mon.status.add(&status, &mut self.rng);
        }
        write_log(&mut self.log, mon_line(player_name, mon_name, String::from_str(" was ").concat(status.name()).as_str()));
        proof {
            Self::lemma_roster_kept(old(self).side(t as int), self.side(t as int), a);
        }
    }

    /// Applies `Cure(target)` (see `cure_post`).
    fn apply_cure(&mut self, target: PlayerId)
        requires
            old(self).wf(),
        ensures
            final(self).wf(),
            cure_post(*old(self), *final(self), target),
    {
        let t = self.side_index(target);
        let a = match self.players.data[t].roster.active {
            Some(a) => a,
            None => return,
        };
        let ghost m = self.side(t as int).roster.data@[a as int];
        assert(m.wf());
        if self.players.data[t].roster.data[a].status.nv().is_none() {
            return;
        }
        let player_name = self.players.data[t].name();
        let mon_name = self.players.data[t].roster.data[a].id.name();
        {
            let player = self.players.get_mut(t);
            let mon = player.roster.get_mut(a);
            mon.status.clear_nv();
        }
        write_log(&mut self.log, mon_line(player_name, mon_name, " was cured of status"));
        proof {
            Self::lemma_roster_kept(old(self).side(t as int), self.side(t as int), a);
        }
    }

    /// Applies `InflictHazard(target, h)` (see `hazard_post`).
    fn apply_hazard(&mut self, target: PlayerId, h: HazardId)
        requires
            old(self).wf(),
        ensures
            final(self).wf(),
            hazard_post(*old(self), *final(self), target, h),
    {
        let t = self.side_index(target);
        if self.players.data[t].hazards.get(h) >= HazardBlock::cap(h) as i32 {
            return;
        }
        let player_name = self.players.data[t].name();
        {
            let player = self.players.get_mut(t);
            player.hazards.inflict(h);
        }
        let line = String::from_str(h.name()).concat(" was placed on ").concat(player_name).concat("'s field");
        write_log(&mut self.log, line);
    }

    /// Applies `ClearHazard(target)` (see `clear_post`).
    fn apply_clear(&mut self, target: PlayerId)
        requires
            old(self).wf(),
        ensures
            final(self).wf(),
            clear_post(*old(self), *final(self), target),
    {
        let t = self.side_index(target);
        let player_name = self.players.data[t].name();
        {
            let player = self.players.get_mut(t);
            player.hazards = HazardBlock::new();
        }
        let line = String::from_str("hazards were cleared from ").concat(player_name).concat("'s field");
        write_log(&mut self.log, line);
    }

    /// Applies `SetWeather(weather)` (see `weather_post`).
    fn apply_weather(&mut self, weather: WeatherId)
        requires
            old(self).wf(),
        ensures
            final(self).wf(),
            weather_post(*old(self), *final(self), weather),
    {
        if self.weather == Some(weather) {
            return;
        }
        self.weather = Some(weather);
        let line = match weather {
            WeatherId::Sand => "A sandstorm kicked up!",
            WeatherId::Hail => "Hail starts",
            WeatherId::Rain => "Rain starts",
        };
        write_log(&mut self.log, String::from_str(line));
    }

    /// Applies `Switch(idx)` (see `switch_post`).
    fn apply_switch(&mut self, idx: usize)
        requires
            old(self).wf(),
        ensures
            final(self).wf(),
            switch_post(*old(self), *final(self), idx),
    {
        let t = self.players.active.unwrap();
        if idx >= self.players.data[t].roster.dead || self.players.data[t].roster.active == Some(idx) {
            return;
        }
        let player_name = self.players.data[t].name();
        let mon_name = self.players.data[t].roster.data[idx].id.name();
        {
            let player = self.players.get_mut(t);
            player.roster.active = Some(idx);
        }
        let line = String::from_str(player_name).concat(" sends out ").concat(mon_name);
        write_log(&mut self.log, line);
        proof {
            let p = self.side(t as int);
            assert forall|i: int| 0 <= i < p.roster.data@.len() implies (#[trigger] p.roster.data@[i]).wf()
                && (p.roster.data@[i].hp.data > 0 <==> i < p.roster.dead) by {
                assert(old(self).side(t as int).roster.data@[i].wf());
            }
        }
    }

    /// Applies `MidSwitch(target)` (see `mid_switch_post`).
    fn apply_mid_switch(&mut self, target: PlayerId)
        requires
            old(self).wf(),
        ensures
            final(self).wf(),
            mid_switch_post(*old(self), *final(self), target),
    {
        let t = self.side_index(target);
        let resumable = match self.state {
            GameState::Completed(_) => false,
            _ => true,
        };
        if self.players.data[t].roster.dead <= 1 || !resumable {
            return;
        }
        let player_name = self.players.data[t].name();
        self.prev_state.push(self.state);
        self.state = GameState::AwaitingSwitch;
        self.players.active = Some(t);
        write_log(&mut self.log, String::from_str(player_name).concat(" selects a pokemon to switch to"));
    }

    /// What every effect keeps (see `effects_frame`); only a forced switch
    /// touches the phase or the acting side.
    pub proof fn lemma_effect_frame(old: Game, new: Game, e: Effect)
        requires
            old.wf(),
            effect_post(old, new, e),
        ensures
            effects_frame(old, new),
            phase_frame(old, new),
            !(e is MidSwitch) ==> new.state == old.state && new.prev_state@ == old.prev_state@
                && new.players.active == old.players.active,
    {
        let t = match e {
            Effect::Switch(_) => old.acting(),
            Effect::AlterStat(target, _, _) => old.side_of(target),
            Effect::ClearHazard(target) => old.side_of(target),
            Effect::Cure(target) => old.side_of(target),
            Effect::Damage(target, _) => old.side_of(target),
            Effect::Heal(target, _) => old.side_of(target),
            Effect::InflictHazard(target, _) => old.side_of(target),
            Effect::InflictStatus(target, _) => old.side_of(target),
            Effect::MidSwitch(target) => old.side_of(target),
            Effect::OHKO(target) => old.side_of(target),
            Effect::SetWeather(_) => 0,
        };
        assert(0 <= t < 2);
        if new.log@ == old.log@ {
            lemma_log_grew_refl(old.log@);
        }
        assert(new.side(0).pot() <= old.side(0).pot());
        assert(new.side(1).pot() <= old.side(1).pot());
    }

    /// Applies `effects` in order.
    pub fn apply_effects(&mut self, effects: Vec<Effect>)
        requires
            old(self).wf(),
            forall|i: int| 0 <= i < effects@.len() ==> #[trigger] effects@[i].wf(),
        ensures
            final(self).wf(),
            effects_frame(*old(self), *final(self)),
            effects_applied(*old(self), *final(self), effects@),
            !has_mid_switch(effects@) ==> final(self).state == old(self).state
                && final(self).prev_state@ == old(self).prev_state@
                && final(self).players.active == old(self).players.active,
            at_most_one_mid_switch(effects@) ==> phase_frame(*old(self), *final(self)),
    {
        let mut i: usize = 0;
        let ghost mut gs: Seq<Game> = seq![*self];
        proof { lemma_log_grew_refl(self.log@); }
        while i < effects.len()
            invariant
                self.wf(),
                i <= effects@.len(),
                forall|k: int| 0 <= k < effects@.len() ==> #[trigger] effects@[k].wf(),
                effects_frame(*old(self), *self),
                !has_mid_switch(effects@.subrange(0, i as int)) ==> self.state == old(self).state
                    && self.prev_state@ == old(self).prev_state@
                    && self.players.active == old(self).players.active,
                old(self).log@.len() > 0,
                at_most_one_mid_switch(effects@) ==> phase_frame(*old(self), *self),
                chain(gs, effects@.subrange(0, i as int)),
                gs[0] == *old(self),
                gs.last() == *self,
            decreases effects@.len() - i,
        {
            let ghost before = *self;
            let e = effects[i];
            assert(e.wf());
            self.apply_effect(e);
            proof {
                let old_gs = gs;
                gs = gs.push(*self);
                let sub = effects@.subrange(0, i + 1);
                assert forall|k: int| 0 <= k < sub.len() implies (#[trigger] gs[k]).wf() && effect_post(gs[k], gs[k + 1], sub[k]) by {
                    if k < i {
                        assert(sub[k] == effects@.subrange(0, i as int)[k]);
                        assert(gs[k] == old_gs[k] && gs[k + 1] == old_gs[k + 1]);
                    } else {
                        assert(gs[k] == before);
                        assert(sub[k] == e);
                    }
                }
                assert(chain(gs, sub));
                Self::lemma_effect_frame(before, *self, e);
                let n1 = choose|n: nat| log_grew(old(self).log@, before.log@, n);
                let n2 = choose|n: nat| log_grew(before.log@, self.log@, n);
                lemma_log_grew_trans(old(self).log@, before.log@, self.log@, n1, n2);
                assert(log_grew(old(self).log@, self.log@, n1 + n2));
                let pre = effects@.subrange(0, i as int);
                let post = effects@.subrange(0, i + 1);
                if !has_mid_switch(post) {
                    assert forall|k: int| 0 <= k < pre.len() implies !(#[trigger] pre[k] is MidSwitch) by {
                        assert(post[k] == pre[k]);
                    }
                    assert(post[i as int] == e);
                }
                if at_most_one_mid_switch(effects@) {
                    if e is MidSwitch {
                        assert forall|k: int| 0 <= k < pre.len() implies !(#[trigger] pre[k] is MidSwitch) by {
                            assert(pre[k] == effects@[k]);
                            assert(effects@[i as int] == e);
                        }
                        assert(!has_mid_switch(pre));
                    }
                }
            }
            i += 1;
        }
        proof {
            assert(effects@.subrange(0, effects@.len() as int) =~= effects@);
            assert(chain(gs, effects@));
        }
    }

    /// Applies one effect (see `effect_post`).
    pub fn apply_effect(&mut self, effect: Effect)
        requires
            old(self).wf(),
            effect.wf(),
        ensures
            final(self).wf(),
            effect_post(*old(self), *final(self), effect),
    {
        match effect {
            Effect::AlterStat(target, stat, delta) => self.apply_alter(target, stat, delta),
            Effect::ClearHazard(target) => self.apply_clear(target),
            Effect::Cure(target) => self.apply_cure(target),
            Effect::Damage(target, d) => self.apply_damage(target, d),
            Effect::Heal(target, frac) => self.apply_heal(target, frac),
            Effect::InflictHazard(target, h) => self.apply_hazard(target, h),
            Effect::InflictStatus(target, status) => self.apply_inflict(target, status),
            Effect::MidSwitch(target) => self.apply_mid_switch(target),
            Effect::OHKO(target) => self.apply_ohko(target),
            Effect::SetWeather(w) => self.apply_weather(w),
            Effect::Switch(idx) => self.apply_switch(idx),
        }
    }

    /// Applies `Damage(target, damage)` (see `damage_post`).
    fn apply_damage(&mut self, target: PlayerId, damage: Damage)
        requires
            old(self).wf(),
            damage.wf(),
        ensures
            final(self).wf(),
            damage_post(*old(self), *final(self), target, damage),
    {
        let t = self.side_index(target);
        let a = match self.players.data[t].roster.active {
            Some(a) => a,
            None => return,
        };
        let ghost m = self.side(t as int).roster.data@[a as int];
        assert(m.wf());
        let prev = self.players.data[t].roster.data[a].hp.data;
        let max = self.players.data[t].roster.data[a].hp.max;
        let amount = damage.collapse(self.players.data[t].roster.data[a].hp);
        if amount == 0 || (amount < 0 && prev == max) {
            return;
        }
        let player_name = self.players.data[t].name();
        let mon_name = self.players.data[t].roster.data[a].id.name();
        let now = {
            let player = self.players.get_mut(t);
            let mon = player.roster.get_mut(a);
            mon.hp.lower(amount);
            mon.hp.data
        };
        let diff = (prev as i64 - now as i64).to_string();
        let line = mon_line(player_name, mon_name, String::from_str(" lost ").concat(diff.as_str()).concat(" hp").as_str());
        write_log(&mut self.log, line);
        if now == 0 {
            let ghost log1 = self.log@;
            let player = self.players.get_mut(t);
            player.roster.kill();
            write_log(&mut self.log, String::from_str("They fainted"));
            proof { lemma_log_grew_trans(old(self).log@, log1, self.log@, 1, 1); }
        }
        proof {
            let p = self.side(t as int);
            let d = old(self).side(t as int).roster.dead;
            assert forall|i: int| 0 <= i < p.roster.data@.len() implies (#[trigger] p.roster.data@[i]).wf()
                && (p.roster.data@[i].hp.data > 0 <==> i < p.roster.dead) by {
                assert(old(self).side(t as int).roster.data@[i].wf());
                if now == 0 {
                    assert(old(self).side(t as int).roster.data@[d - 1].wf());
                }
            }
        }
    }
}

} // verus!
