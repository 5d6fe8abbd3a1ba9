use rand::rngs::StdRng;
use vstd::prelude::*;

use crate::calc::{cap_i32, damage_value, spec_eot_effects, spec_switch_effects, damage_formula, eot_effects, first_mover, spec_first_mover, move_effects, spec_move_effects, switch_effects, ROLL_MAX, ROLL_MIN};
use crate::chance::{pick, roll};
use crate::effect::{at_most_one_mid_switch, effects_applied, effects_frame, phase_frame, switch_post, unchanged, Damage, Effect, PlayerId};
use crate::player::Player;
use crate::pokemon::{checked, Hindrance, MoveCheck, Pokemon};
use crate::selvec::PointerVec;
use crate::stat::StatId;
use crate::status::{Status, StatusBlock};

verus! {

/// Field hazards laid on one side.
#[derive(Debug, PartialEq, Eq, Structural, Copy, Clone)]
pub enum HazardId {
    StealthRock,
    Spikes,
    ToxicSpikes,
}

impl HazardId {
    pub open spec fn spec_max_layers(&self) -> u8 {
        match self {
            HazardId::StealthRock => 1,
            HazardId::Spikes => 2,
            HazardId::ToxicSpikes => 3,
        }
    }

    /// The hazard's name.
    pub fn name(&self) -> &'static str {
        match self {
            HazardId::StealthRock => "Stealth Rock",
            HazardId::Spikes => "Spikes",
            HazardId::ToxicSpikes => "Toxic Spikes",
        }
    }

    /// The nominal number of layers of the hazard: 1, 2 and 3 for Stealth
    /// Rock, Spikes and Toxic Spikes. A side's `HazardBlock` bounds its layers
    /// by `HazardBlock::cap`.
    #[verifier::when_used_as_spec(spec_max_layers)]
    pub fn max_layers(&self) -> (r: u8)
        ensures
            r == self.spec_max_layers(),
    {
        match self {
            HazardId::StealthRock => 1,
            HazardId::Spikes => 2,
            HazardId::ToxicSpikes => 3,
        }
    }
}

/// The weather, shared by both sides.
#[derive(Debug, PartialEq, Eq, Structural, Copy, Clone, Default)]
pub enum WeatherId {
    #[default]
    Sand,
    Rain,
    Hail,
}

/// A selection submitted for one side: switch to a roster slot, or use the
/// move in a movepool slot.
#[derive(Debug, Clone, Copy, PartialEq, Eq, Structural)]
pub enum MoveSelection {
    Switch(usize),
    Move(usize),
}

/// The phase of the turn state machine.
#[derive(Default, Debug, PartialEq, Eq, Structural, Clone, Copy)]
pub enum GameState {
    #[default]
    TurnStart,
    MidTurn,
    TurnEnd,
    AwaitingSwitch,
    Completed(GameResult),
}

impl GameState {
    /// A description of the phase for display.
    pub fn describe(&self) -> String
        requires
            *self != GameState::Completed(GameResult::Incomplete),
    {
        match self {
            GameState::TurnStart => String::from_str("Turn Start"),
            GameState::MidTurn => String::from_str("Mid Turn"),
            GameState::TurnEnd => String::from_str("Turn End"),
            GameState::AwaitingSwitch => String::from_str("Awaiting Switch Input"),
            GameState::Completed(GameResult::Winner(w)) => {
                let n: u128 = *w as u128 + 1;
                String::from_str("Player ").concat(n.to_string().as_str()).concat(" won")
            },
            GameState::Completed(_) => String::from_str("Game tied"),
        }
    }
}

/// How a battle ended.
#[derive(Debug, PartialEq, Eq, Structural, Clone, Copy)]
pub enum GameResult {
    Winner(usize),
    Tie,
    Incomplete,
}

/// Misuse of the engine, refused before anything changes.
#[derive(Debug, PartialEq, Eq, Structural, Clone, Copy)]
pub enum GameError {
    /// A side that must act has no legal selection submitted.
    MissingSelection,
    /// A side that must act at the start of a turn has no active creature.
    NoActive,
}

/// The result for the given living counts: a tie when both are 0, a win for
/// the side that still has creatures when only the other's is 0.
pub open spec fn result_for(living0: nat, living1: nat) -> GameResult {
    if living0 == 0 && living1 == 0 {
        GameResult::Tie
    } else if living1 == 0 {
        GameResult::Winner(0)
    } else if living0 == 0 {
        GameResult::Winner(1)
    } else {
        GameResult::Incomplete
    }
}

/// Appends `message` to the last bucket of `log`.
pub fn write_log(log: &mut Vec<Vec<String>>, message: String)
    requires
        old(log)@.len() > 0,
    ensures
        final(log)@.len() == old(log)@.len(),
        forall|k: int| 0 <= k < old(log)@.len() - 1 ==> #[trigger] final(log)@[k] == old(log)@[k],
        final(log)@.last()@ == old(log)@.last()@.push(message),
        log_grew(old(log)@, final(log)@, 1),
{
    let n = log.len();
    log[n - 1].push(message);
    assert(final(log)@.last()@.subrange(0, old(log)@.last()@.len() as int) =~= old(log)@.last()@);
}

/// Growth of the log adds up.
pub proof fn lemma_log_grew_trans(a: Seq<Vec<String>>, b: Seq<Vec<String>>, c: Seq<Vec<String>>, n: nat, m: nat)
    requires
        a.len() > 0,
        log_grew(a, b, n),
        log_grew(b, c, m),
    ensures
        log_grew(a, c, n + m),
{
    assert(c.last()@.subrange(0, a.last()@.len() as int) =~= c.last()@.subrange(0, b.last()@.len() as int).subrange(0, a.last()@.len() as int));
}

/// A log has grown by nothing from itself.
pub proof fn lemma_log_grew_refl(a: Seq<Vec<String>>)
    ensures
        log_grew(a, a, 0),
{
    assert(a.last()@.subrange(0, a.last()@.len() as int) =~= a.last()@);
}

/// One battle between two sides.
#[derive(Debug)]
pub struct Game {
    pub players: PointerVec<Player>,
    pub turn_count: i32,
    pub weather: Option<WeatherId>,
    pub log: Vec<Vec<String>>,
    pub state: GameState,
    pub prev_state: Vec<GameState>,
    pub rng: StdRng,
}

/// `new` has the same buckets as `old`, with `n` lines added to the last.
pub open spec fn log_grew(old: Seq<Vec<String>>, new: Seq<Vec<String>>, n: nat) -> bool {
    &&& new.len() == old.len()
    &&& forall|k: int| 0 <= k < old.len() - 1 ==> #[trigger] new[k] == old[k]
    &&& new.last()@.len() == old.last()@.len() + n
    &&& new.last()@.subrange(0, old.last()@.len() as int) == old.last()@
}

/// How much of a turn a phase still has ahead of it, counting forced
/// interruptions.
pub open spec fn phase_weight(s: GameState) -> int {
    match s {
        GameState::MidTurn => 6,
        GameState::TurnEnd => 4,
        GameState::AwaitingSwitch => 1,
        _ => 0,
    }
}

/// The weights of the saved phases.
pub open spec fn stack_weight(s: Seq<GameState>) -> int
    decreases s.len(),
{
    if s.len() == 0 {
        0
    } else {
        stack_weight(s.drop_last()) + phase_weight(s.last())
    }
}

proof fn lemma_stack_weight_push(s: Seq<GameState>, x: GameState)
    ensures
        stack_weight(s.push(x)) == stack_weight(s) + phase_weight(x),
{
    assert(s.push(x).drop_last() =~= s);
}

proof fn lemma_stack_weight_nonneg(s: Seq<GameState>)
    ensures
        stack_weight(s) >= 0,
    decreases s.len(),
{
    if s.len() > 0 {
        lemma_stack_weight_nonneg(s.drop_last());
    }
}

/// `new` keeps the log `old`: every earlier bucket as it was, the last one
/// as a prefix of the same bucket, and perhaps buckets after it.
pub open spec fn log_kept(old: Seq<Vec<String>>, new: Seq<Vec<String>>) -> bool {
    &&& new.len() >= old.len()
    &&& forall|k: int| 0 <= k < old.len() - 1 ==> #[trigger] new[k] == old[k]
    &&& new[old.len() - 1]@.subrange(0, old.last()@.len() as int) == old.last()@
}

/// What one call of `Game::execute_turn` does: a finished battle stays as
/// it is; misuse is refused with nothing changed; otherwise the battle goes
/// through a run of phase steps (see `turn_run`) and comes to rest (see
/// `settled`). Living counts never grow.
pub open spec fn turn_post(old: Game, new: Game, r: Result<(), GameError>) -> bool {
    &&& old.state is Completed ==> r is Ok && unchanged(old, new)
    &&& !(old.state is Completed) ==> (r is Err <==> old.readiness() is Some)
    &&& r matches Err(e) ==> old.readiness() == Some(e) && unchanged(old, new)
    &&& r is Ok && !(old.state is Completed) ==> settled(new)
    &&& new.living(0) <= old.living(0)
    &&& new.living(1) <= old.living(1)
    &&& r is Ok && !(old.state is Completed) ==> exists|gs: Seq<Game>| #[trigger] turn_run(gs) && gs[0] == old && gs.last() == new
    &&& r is Ok && old.state == GameState::TurnStart ==> new.log@.len() == old.log@.len() + 1
    &&& r is Ok && old.state != GameState::TurnStart ==> new.log@.len() == old.log@.len()
    &&& r is Ok && !(old.state is Completed) && new.state is Completed ==> new.log@.last()@.last()@ == "game finished"@
    &&& r is Ok && !(old.state is Completed) ==> log_kept(old.log@, new.log@)
    &&& r is Ok && new.state == GameState::AwaitingSwitch && !(old.state is Completed)
        ==> !new.side(new.acting()).ai || !exists|sel: MoveSelection| #[trigger] new.side(new.acting()).valid_selection(true, sel)
    &&& r is Ok && old.state == GameState::AwaitingSwitch && !old.side(old.acting()).ai
        ==> new.log@.len() == old.log@.len() && new.log@.last()@.len() >= old.log@.last()@.len() + 2
}

proof fn lemma_run_push(gs: Seq<Game>, x: Game)
    requires
        turn_run(gs),
        gs.last().wf(),
        phase_step(gs.last(), x) || driver_glue(gs.last(), x),
    ensures
        turn_run(gs.push(x)),
{
    reveal(turn_run);
    let ns = gs.push(x);
    assert(ns[0] == gs[0] && ns[1] == gs[1]);
    assert forall|i: int| 1 <= i < ns.len() - 1 implies (#[trigger] ns[i]).wf() && (phase_step(ns[i], ns[i + 1])
        || driver_glue(ns[i], ns[i + 1])) by {
        if i < gs.len() - 1 {
            assert(ns[i] == gs[i] && ns[i + 1] == gs[i + 1]);
        } else {
            assert(ns[i] == gs.last() && ns[i + 1] == x);
        }
    }
}

/// The battle is completed exactly once. Once over, a call changes nothing;
/// a call that ends it declares the winner whose opponent has no living
/// creature left, or a tie when neither has.
pub proof fn lemma_completes_once(
    g0: Game,
    g1: Game,
    g2: Game,
    r1: Result<(), GameError>,
    r2: Result<(), GameError>,
)
    requires
        turn_post(g0, g1, r1),
        turn_post(g1, g2, r2),
        g1.state is Completed,
    ensures
        unchanged(g1, g2),
        g2.state == g1.state,
        !(g0.state is Completed) ==> (g1.state matches GameState::Completed(res)
            && res == result_for(g1.living(0), g1.living(1))
            && (res == GameResult::Tie <==> g1.living(0) == 0 && g1.living(1) == 0)
            && (res == GameResult::Winner(0) <==> g1.living(0) > 0 && g1.living(1) == 0)
            && (res == GameResult::Winner(1) <==> g1.living(0) == 0 && g1.living(1) > 0)),
{
}

/// `new` is `old` with `n` lines added to the log and nothing else changed
/// but the random source.
pub open spec fn same_but_log(old: Game, new: Game, n: nat) -> bool {
    &&& new.players.data@ == old.players.data@
    &&& new.players.active == old.players.active
    &&& new.players.dead == old.players.dead
    &&& new.weather == old.weather
    &&& new.state == old.state
    &&& new.prev_state@ == old.prev_state@
    &&& new.turn_count == old.turn_count
    &&& log_grew(old.log@, new.log@, n)
}

/// The slot that side `i`'s last selection switches to (0 if it is no
/// switch).
pub open spec fn switch_slot(g: Game, i: int) -> usize {
    match g.last_input(i) {
        Some(MoveSelection::Switch(k)) => k,
        _ => 0,
    }
}

/// The stages of a switch made by the acting side of `old`: a line is
/// logged (`g1`), the creature in the chosen slot comes in (`g2`), the
/// hazards on its side hit it (`g3`), and a blank line closes the action.
pub open spec fn switch_steps(old: Game, g1: Game, g2: Game, g3: Game, new: Game) -> bool {
    let a = old.acting();
    &&& same_but_log(old, g1, 1)
    &&& switch_post(g1, g2, switch_slot(old, a))
    &&& g2.wf()
    &&& effects_applied(g2, g3, spec_switch_effects(g2.side(a).hazards, PlayerId::Active))
    &&& same_but_log(g3, new, 1)
}

/// What the acting side's last selection, a switch, does: nothing unless it
/// is a legal switch, otherwise `switch_steps`.
pub open spec fn switch_exec(old: Game, new: Game) -> bool {
    if old.switch_ready(old.acting()) {
        exists|g1: Game, g2: Game, g3: Game| #[trigger] switch_steps(old, g1, g2, g3, new)
    } else {
        unchanged(old, new)
    }
}

/// The 40-power typeless physical blow that a confused creature deals itself.
pub open spec fn self_hit_damage(m: Pokemon, weather: Option<WeatherId>) -> int {
    cap_i32(damage_value(
        40,
        m.stat_value(StatId::Atk, weather),
        m.stat_value(StatId::Def, weather),
        m.status.has(Status::Burn),
        false,
        4,
        ROLL_MAX as int,
    ))
}

/// The effects of the acting side's creature of `g` using its move `idx`
/// after the check `c`: the move's effects (for the damage roll `roll` and
/// the draw `draw`) when nothing hinders it, the self-inflicted blow when it
/// hits itself in confusion, and nothing otherwise.
pub open spec fn action_effects(g: Game, c: MoveCheck, idx: usize, roll: u32, draw: u32) -> Seq<Effect> {
    let m = g.side(g.acting()).active_mon()->0;
    match c.hindrance {
        None => spec_move_effects(m, g.side(1 - g.acting()).active_mon(), m.moves.data@[idx as int], g.weather, roll, draw),
        Some(Hindrance::HitItself) => seq![Effect::Damage(PlayerId::Active, Damage::Normal(self_hit_damage(m, g.weather) as i32))],
        Some(_) => Seq::empty(),
    }
}

/// `g1` is `old` after the acting side's active creature went through the
/// check with outcome `c` (see `checked`), with some lines logged.
pub open spec fn check_done(old: Game, g1: Game, c: MoveCheck, para: u32, thaw: u32, coin: u32) -> bool {
    let a = old.acting();
    let mi = old.side(a).roster.active->0 as int;
    let p = old.side(a);
    let q = g1.side(a);
    &&& g1.players.data@.len() == 2
    &&& g1.side(1 - a) == old.side(1 - a)
    &&& q.ai == p.ai && q.inputs == p.inputs && q.hazards == p.hazards
    &&& q.roster.active == p.roster.active && q.roster.dead == p.roster.dead
    &&& q.roster.data@ == p.roster.data@.update(mi, q.roster.data@[mi])
    &&& checked(p.roster.data@[mi], q.roster.data@[mi], c, para, thaw, coin)
    &&& g1.players.active == old.players.active && g1.players.dead == old.players.dead
    &&& g1.weather == old.weather && g1.state == old.state && g1.prev_state@ == old.prev_state@
    &&& g1.turn_count == old.turn_count
    &&& log_grew(old.log@, g1.log@, check_lines(c))
}

/// The lines logged by the check before acting: one for each status
/// recovered from, then one naming the reason the action is lost or the
/// move used.
pub open spec fn check_lines(c: MoveCheck) -> nat {
    (if c.woke { 1nat } else { 0nat }) + (if c.thawed { 1nat } else { 0nat }) + (if c.unconfused { 1nat } else { 0nat }) + 1
}

/// The stages of a move used by the acting side of `old` (its move `idx`):
/// the check before acting (`g1`), then its effects (`g2`, see
/// `action_effects`), then a blank line.
pub open spec fn move_steps(
    old: Game,
    idx: usize,
    c: MoveCheck,
    para: u32,
    thaw: u32,
    coin: u32,
    roll: u32,
    draw: u32,
    g1: Game,
    g2: Game,
    new: Game,
) -> bool {
    &&& ROLL_MIN <= roll <= ROLL_MAX && draw < 100
    &&& check_done(old, g1, c, para, thaw, coin)
    &&& g1.wf()
    &&& effects_applied(g1, g2, action_effects(g1, c, idx, roll, draw))
    &&& same_but_log(g2, new, 1)
}

/// What the acting side's last selection does (see `Game::execute_move`).
pub open spec fn move_exec(old: Game, new: Game) -> bool {
    let a = old.acting();
    match old.last_input(a) {
        None => unchanged(old, new),
        Some(MoveSelection::Switch(_)) => switch_exec(old, new),
        Some(MoveSelection::Move(idx)) => match old.side(a).active_mon() {
            Some(m) => if idx < m.moves.data@.len() {
                exists|c: MoveCheck, para: u32, thaw: u32, coin: u32, roll: u32, draw: u32, g1: Game, g2: Game|
                    #[trigger] move_steps(old, idx, c, para, thaw, coin, roll, draw, g1, g2, new)
            } else {
                unchanged(old, new)
            },
            None => unchanged(old, new),
        },
    }
}

/// The counter of `s` after an end-of-turn tick: Toxic counts up, Drowsy
/// and Confusion down, a flinch ends, the others stay.
pub open spec fn tick_get(b: StatusBlock, s: Status) -> Option<u8> {
    match s {
        Status::Toxic | Status::Drowsy | Status::Confusion => match b.get(s) {
            Some(c) => Some(s.ticked(c)),
            None => None,
        },
        Status::Flinch => None,
        _ => b.get(s),
    }
}

/// The stages of the end of the turn for the acting side of `old`: its
/// creature's counters tick (giving `t`); a Drowsy counter that ran out is
/// removed (`g1`); then the end-of-turn effects of `t` apply.
pub open spec fn eot_steps(old: Game, t: Pokemon, g1: Game, new: Game) -> bool {
    let a = old.acting();
    let mi = old.side(a).roster.active->0 as int;
    let p = old.side(a);
    let q = g1.side(a);
    let m = p.roster.data@[mi];
    let n = q.roster.data@[mi];
    &&& m.same_but_status(t)
    &&& forall|s: Status| #[trigger] t.status.get(s) == tick_get(m.status, s)
    &&& t.same_but_status(n)
    &&& forall|s: Status| #[trigger] n.status.get(s) == (if s == Status::Drowsy && t.status.get(s) == Some(0u8) {
        None
    } else {
        t.status.get(s)
    })
    &&& g1.players.data@.len() == 2
    &&& g1.side(1 - a) == old.side(1 - a)
    &&& q.ai == p.ai && q.inputs == p.inputs && q.hazards == p.hazards
    &&& q.roster.active == p.roster.active && q.roster.dead == p.roster.dead
    &&& q.roster.data@ == p.roster.data@.update(mi, n)
    &&& g1.players.active == old.players.active && g1.players.dead == old.players.dead
    &&& g1.weather == old.weather && g1.state == old.state && g1.prev_state@ == old.prev_state@
    &&& g1.turn_count == old.turn_count && g1.log@ == old.log@
    &&& g1.wf()
    &&& effects_applied(g1, new, spec_eot_effects(t, old.weather))
}

/// What the end of the turn does for the acting side (see
/// `Game::apply_eot_effects`).
pub open spec fn eot_exec(old: Game, new: Game) -> bool {
    match old.side(old.acting()).roster.active {
        None => unchanged(old, new),
        Some(_) => exists|t: Pokemon, g1: Game| #[trigger] eot_steps(old, t, g1, new),
    }
}

/// `new` is `old` in phase `st`, acting side `acting`, and otherwise the
/// same but for the random source.
pub open spec fn moved_to(old: Game, new: Game, st: GameState, acting: Option<usize>) -> bool {
    &&& new.players.data@ == old.players.data@
    &&& new.players.dead == old.players.dead
    &&& new.players.active == acting
    &&& new.weather == old.weather
    &&& new.state == st
    &&& new.prev_state@ == old.prev_state@
    &&& new.turn_count == old.turn_count
    &&& new.log@ == old.log@
}

/// `g1` is `old` once a turn has opened: a new empty log bucket, the turn
/// count up by one (saturating), the computer sides' selections drawn from
/// their legal ones, the phase `MidTurn`, and the acting side the first
/// mover for some coin.
pub open spec fn turn_opened(old: Game, g1: Game, coin: u32) -> bool {
    &&& g1.wf()
    &&& g1.log@.len() == old.log@.len() + 1
    &&& g1.log@.subrange(0, old.log@.len() as int) == old.log@
    &&& g1.log@.last()@.len() == 0
    &&& g1.turn_count == (if old.turn_count < i32::MAX { old.turn_count + 1 } else { old.turn_count as int })
    &&& g1.state == GameState::MidTurn
    &&& g1.prev_state@ == old.prev_state@
    &&& g1.weather == old.weather
    &&& forall|i: int| 0 <= i < 2 ==> {
        &&& (#[trigger] g1.side(i)).roster == old.side(i).roster
        &&& g1.side(i).hazards == old.side(i).hazards
        &&& g1.side(i).ai == old.side(i).ai
        &&& !old.side(i).ai ==> g1.side(i).inputs == old.side(i).inputs
    }
    &&& coin <= 1
    &&& g1.players.active == Some(first_of(g1, true, coin))
}

/// What the start of a turn does: it opens (see `turn_opened`), then the
/// first mover's selection, if it has one, is carried out (see
/// `move_exec`).
pub open spec fn turn_start_post(old: Game, new: Game) -> bool {
    exists|g1: Game, coin: u32| #[trigger] turn_opened(old, g1, coin) && (if g1.last_input(g1.acting()) is Some {
        move_exec(g1, new)
    } else {
        unchanged(g1, new)
    })
}

/// What the middle of a turn does: the phase becomes `TurnEnd`, and the
/// acting side's selection is carried out if it has one and still has an
/// active creature.
pub open spec fn mid_turn_post(old: Game, new: Game) -> bool {
    exists|g1: Game| #[trigger] moved_to(old, g1, GameState::TurnEnd, old.players.active) && g1.wf() && (if old.side(
        old.acting(),
    ).roster.active is Some && old.last_input(old.acting()) is Some {
        move_exec(g1, new)
    } else {
        unchanged(g1, new)
    })
}

/// What the end of a turn does: the phase becomes `TurnStart` and the side
/// that is faster (the coin breaking a tie) acts first (`g1`); each side in
/// turn goes through `eot_exec` (`g2`, `g3` after handing over, `g4`,
/// `g5`); then a side without an active creature is flagged to choose a
/// replacement.
pub open spec fn turn_end_post(old: Game, new: Game) -> bool {
    exists|g1: Game, g2: Game, g3: Game, g4: Game, g5: Game, coin: u32| #[trigger] turn_ended(old, g1, g2, g3, g4, g5, coin)
        && replacement_flagged(g5, new)
}

pub open spec fn turn_ended(old: Game, g1: Game, g2: Game, g3: Game, g4: Game, g5: Game, coin: u32) -> bool {
    &&& coin <= 1
    &&& moved_to(old, g1, GameState::TurnStart, Some(first_of(old, false, coin)))
    &&& g1.wf() && eot_exec(g1, g2)
    &&& g2.wf() && moved_to(g2, g3, g2.state, Some((1 - g2.acting()) as usize))
    &&& g3.wf() && eot_exec(g3, g4)
    &&& g4.wf() && moved_to(g4, g5, g4.state, Some((1 - g4.acting()) as usize))
}

/// A side left without an active creature must choose a replacement: the
/// phase is saved and the battle awaits that side (side 0 first).
pub open spec fn replacement_flagged(old: Game, new: Game) -> bool {
    let lack0 = old.side(0).roster.active is None;
    let lack1 = old.side(1).roster.active is None;
    if lack0 || lack1 {
        &&& new.players.data@ == old.players.data@
        &&& new.players.dead == old.players.dead
        &&& new.players.active == Some(if lack0 { 0usize } else { 1usize })
        &&& new.weather == old.weather
        &&& new.state == GameState::AwaitingSwitch
        &&& new.prev_state@ == old.prev_state@.push(GameState::TurnStart)
        &&& new.turn_count == old.turn_count
        &&& new.log@ == old.log@
    } else {
        unchanged(old, new)
    }
}

/// What a replacement does (see `Game::step_await`): the flagged side's
/// switch (`g1`, see `switch_exec`); then, if the new creature fainted on
/// entry the side chooses again, if at the end of a turn the other side
/// also needs a replacement it is flagged, and otherwise the saved phase
/// resumes.
pub open spec fn await_post(old: Game, new: Game) -> bool {
    exists|g1: Game| #[trigger] switch_exec(old, g1) && g1.wf() && await_resolved(old, g1, new)
}

pub open spec fn await_resolved(old: Game, g1: Game, new: Game) -> bool {
    let s = old.acting();
    let o = 1 - s;
    let top_start = g1.prev_state@.len() > 0 && g1.prev_state@.last() == GameState::TurnStart;
    if !old.switch_ready(s) {
        unchanged(g1, new)
    } else if g1.side(s).roster.active is None && g1.living(s) > 0 {
        unchanged(g1, new)
    } else if old.side(s).roster.active is None && top_start && g1.side(o).roster.active is None && g1.living(o) > 0 {
        moved_to(g1, new, g1.state, Some(o as usize))
    } else {
        &&& new.players.data@ == g1.players.data@
        &&& new.players.dead == g1.players.dead
        &&& new.players.active == g1.players.active
        &&& new.weather == g1.weather
        &&& new.state == g1.prev_state@.last()
        &&& new.prev_state@ == g1.prev_state@.drop_last()
        &&& new.turn_count == g1.turn_count
        &&& new.log@ == g1.log@
    }
}

/// What one phase step does, by the phase of `old`.
#[verifier::opaque]
pub open spec fn phase_step(old: Game, new: Game) -> bool {
    match old.state {
        GameState::TurnStart => turn_start_post(old, new),
        GameState::MidTurn => mid_turn_post(old, new),
        GameState::TurnEnd => turn_end_post(old, new),
        GameState::AwaitingSwitch => await_post(old, new),
        GameState::Completed(_) => unchanged(old, new),
    }
}

/// What the driver does between phase steps: it hands the turn to the other
/// side after `MidTurn` or `TurnEnd`, draws a computer side's replacement
/// while it awaits one (finding none when it has no legal switch), or ends
/// the battle (with one line logged) once a
/// side has no living creature.
#[verifier::opaque]
pub open spec fn driver_glue(old: Game, new: Game) -> bool {
    ||| ((old.state == GameState::MidTurn || old.state == GameState::TurnEnd)
        && moved_to(old, new, old.state, Some((1 - old.acting()) as usize)))
    ||| (old.state == GameState::AwaitingSwitch && old.side(old.acting()).ai && {
        let s = old.acting();
        &&& new.last_input(s) matches Some(sel) && old.side(s).valid_selection(true, sel)
        &&& new.side(s).roster == old.side(s).roster && new.side(s).hazards == old.side(s).hazards
        &&& new.side(1 - s) == old.side(1 - s)
        &&& new.players.active == old.players.active && new.state == old.state
        &&& new.prev_state@ == old.prev_state@ && new.log@ == old.log@
        &&& new.weather == old.weather && new.turn_count == old.turn_count
    })
    ||| (old.state == GameState::AwaitingSwitch && old.side(old.acting()).ai && unchanged(old, new)
        && !exists|sel: MoveSelection| #[trigger] old.side(old.acting()).valid_selection(true, sel))
    ||| (result_for(old.living(0), old.living(1)) != GameResult::Incomplete
        && new.state == GameState::Completed(result_for(old.living(0), old.living(1)))
        && new.players.data@ == old.players.data@ && new.players.active == old.players.active
        && new.players.dead == old.players.dead && new.weather == old.weather
        && new.prev_state@ == old.prev_state@ && new.turn_count == old.turn_count
        && log_grew(old.log@, new.log@, 1))
}

/// `gs` is the run of states of one call of `Game::execute_turn`: a phase
/// step first, then phase steps and the driver's glue.
#[verifier::opaque]
pub open spec fn turn_run(gs: Seq<Game>) -> bool {
    &&& gs.len() >= 2
    &&& phase_step(gs[0], gs[1])
    &&& forall|i: int| 1 <= i < gs.len() - 1 ==> (#[trigger] gs[i]).wf() && (phase_step(gs[i], gs[i + 1])
        || driver_glue(gs[i], gs[i + 1]))
}

/// Which side acts first in `g`: by the priorities of both selections (when
/// `by_priority`) and then the Speeds of both active creatures, the coin
/// breaking a tie; side 0 when a side has no active creature.
pub open spec fn first_of(g: Game, by_priority: bool, coin: u32) -> usize {
    match (g.side(0).active_mon(), g.side(1).active_mon()) {
        (Some(m0), Some(m1)) => spec_first_mover(
            if by_priority { g.priority_of(0) } else { 0 },
            if by_priority { g.priority_of(1) } else { 0 },
            m0.stat_value(StatId::Spe, g.weather),
            m1.stat_value(StatId::Spe, g.weather),
            coin,
        ),
        _ => 0,
    }
}

/// A battle at rest: waiting at the start of a turn or for a replacement,
/// or over with the result its living counts give; while it is not over,
/// both sides have living creatures.
pub open spec fn settled(g: Game) -> bool {
    &&& (g.state == GameState::TurnStart || g.state == GameState::AwaitingSwitch || g.state is Completed)
    &&& g.state matches GameState::Completed(res) ==> res == result_for(g.living(0), g.living(1))
        && res != GameResult::Incomplete
    &&& !(g.state is Completed) ==> g.living(0) > 0 && g.living(1) > 0
}

impl Game {
    /// Side `i`.
    pub open spec fn side(&self, i: int) -> Player {
        self.players.data@[i]
    }

    /// The index of the side currently acting.
    pub open spec fn acting(&self) -> int {
        self.players.active->0 as int
    }

    /// The index of the side that `target` names.
    pub open spec fn side_of(&self, target: PlayerId) -> int {
        match target {
            PlayerId::Player1 => 0,
            PlayerId::Player2 => 1,
            PlayerId::Active => self.acting(),
            PlayerId::Inactive => 1 - self.acting(),
        }
    }

    /// The number of living creatures of side `i`.
    pub open spec fn living(&self, i: int) -> nat {
        self.side(i).roster.dead as nat
    }

    pub open spec fn stack_wf(&self) -> bool {
        &&& forall|k: int| 0 <= k < self.prev_state@.len() ==> {
            let s = #[trigger] self.prev_state@[k];
            &&& !(s is Completed)
            &&& s == GameState::AwaitingSwitch ==> k > 0
        }
        &&& self.state == GameState::AwaitingSwitch ==> self.prev_state@.len() > 0
    }

    pub open spec fn wf(&self) -> bool {
        &&& self.players.data@.len() == 2
        &&& self.players.dead == 2
        &&& self.players.active matches Some(a) && a < 2
        &&& self.side(0).wf()
        &&& self.side(1).wf()
        &&& self.log@.len() > 0
        &&& self.stack_wf()
    }

    /// A battle between `player1` and `player2` that starts at the beginning of a turn,
    /// drawing its randomness from `rng`.
    pub fn with_players(player1: Player, player2: Player, rng: StdRng) -> (r: Self)
        requires
            player1.wf(),
            player2.wf(),
        ensures
            r.wf(),
            r.side(0) == player1,
            r.side(1) == player2,
            r.state == GameState::TurnStart,
            r.prev_state@.len() == 0,
            r.weather is None,
            r.log@.len() == 1,
            r.acting() == 0,
    {
        let first = vec![String::from_str("Players sent out their starters!")];
        Game {
            players: PointerVec::from(vec![player1, player2]),
            turn_count: 0,
            weather: None,
            log: vec![first],
            state: GameState::TurnStart,
            prev_state: Vec::new(),
            rng,
        }
    }

    /// A battle between a human side and a computer side, each with the
    /// preset roster.
    pub fn new(rng: StdRng) -> (r: Self)
        ensures
            r.wf(),
            r.state == GameState::TurnStart,
            !r.side(0).ai,
            r.side(1).ai,
            r.living(0) == 6 && r.living(1) == 6,
            r.side(0).roster.active == Some(0usize) && r.side(1).roster.active == Some(0usize),
            r.side(0).inputs@.len() == 0 && r.side(1).inputs@.len() == 0,
    {
        Game::with_players(Player::new(false), Player::new(true), rng)
    }

    /// The index of the side that `target` names.
    pub fn side_index(&self, target: PlayerId) -> (r: usize)
        requires
            self.wf(),
        ensures
            r == self.side_of(target),
            r < 2,
    {
        let a = self.players.active.unwrap();
        match target {
            PlayerId::Player1 => 0,
            PlayerId::Player2 => 1,
            PlayerId::Active => a,
            PlayerId::Inactive => 1 - a,
        }
    }

    /// The result that the living counts give.
    pub fn check_winner(&self) -> (r: GameResult)
        requires
            self.wf(),
        ensures
            r == result_for(self.living(0), self.living(1)),
    {
        let d0 = self.players.data[0].roster.dead;
        let d1 = self.players.data[1].roster.dead;
        if d0 == 0 && d1 == 0 {
            GameResult::Tie
        } else if d1 == 0 {
            GameResult::Winner(0)
        } else if d0 == 0 {
            GameResult::Winner(1)
        } else {
            GameResult::Incomplete
        }
    }

    /// Whether side `i` must choose a replacement now.
    pub open spec fn awaiting(&self, i: int) -> bool {
        self.state == GameState::AwaitingSwitch && self.acting() == i
    }

    /// The last selection submitted for side `i`, if any.
    pub open spec fn last_input(&self, i: int) -> Option<MoveSelection> {
        let inputs = self.side(i).inputs@;
        if inputs.len() > 0 { Some(inputs.last()) } else { None }
    }

    /// The side that `side` names.
    pub fn player(&self, side: PlayerId) -> (r: &Player)
        requires
            self.wf(),
        ensures
            *r == self.side(self.side_of(side)),
    {
        let t = self.side_index(side);
        &self.players.data[t]
    }

    /// The legal selections for `side` (see `Player::valid_selection`); only
    /// switches while the battle awaits a replacement from it.
    pub fn list_valid_inputs(&self, side: PlayerId) -> (r: Vec<MoveSelection>)
        requires
            self.wf(),
        ensures
            forall|sel: MoveSelection| r@.contains(sel) <==> self.side(self.side_of(side)).valid_selection(
                self.awaiting(self.side_of(side)),
                sel,
            ),
    {
        let t = self.side_index(side);
        let awaiting = self.state == GameState::AwaitingSwitch && self.players.active == Some(t);
        self.players.data[t].list_valid_inputs(awaiting)
    }

    /// Submits `sel` for `side`.
    pub fn push_input(&mut self, side: PlayerId, sel: MoveSelection)
        requires
            old(self).wf(),
        ensures
            final(self).wf(),
            final(self).side(old(self).side_of(side)).inputs@ == old(self).side(old(self).side_of(side)).inputs@.push(sel),
            final(self).side(old(self).side_of(side)).roster == old(self).side(old(self).side_of(side)).roster,
            final(self).side(old(self).side_of(side)).hazards == old(self).side(old(self).side_of(side)).hazards,
            final(self).side(1 - old(self).side_of(side)) == old(self).side(1 - old(self).side_of(side)),
            final(self).players.active == old(self).players.active,
            final(self).state == old(self).state,
            final(self).prev_state@ == old(self).prev_state@,
            final(self).log@ == old(self).log@,
            final(self).weather == old(self).weather,
            final(self).turn_count == old(self).turn_count,
    {
        let t = self.side_index(side);
        let player = self.players.get_mut(t);
        player.inputs.push(sel);
    }

    /// Submits for side `side` a selection drawn uniformly from its legal
    /// ones; returns whether there was any.
    pub fn input_rand_ai(&mut self, side: usize) -> (r: bool)
        requires
            old(self).wf(),
            side < 2,
        ensures
            final(self).wf(),
            r ==> (final(self).last_input(side as int) matches Some(sel)
                && old(self).side(side as int).valid_selection(old(self).awaiting(side as int), sel)),
            r == exists|sel: MoveSelection| #[trigger] old(self).side(side as int).valid_selection(
                old(self).awaiting(side as int),
                sel,
            ),
            !r ==> final(self).side(side as int).inputs == old(self).side(side as int).inputs,
            final(self).side(side as int).roster == old(self).side(side as int).roster,
            final(self).side(side as int).hazards == old(self).side(side as int).hazards,
            final(self).side(side as int).ai == old(self).side(side as int).ai,
            final(self).side(1 - side) == old(self).side(1 - side),
            final(self).players.active == old(self).players.active,
            final(self).players.dead == old(self).players.dead,
            final(self).state == old(self).state,
            final(self).prev_state@ == old(self).prev_state@,
            final(self).log@ == old(self).log@,
            final(self).weather == old(self).weather,
            final(self).turn_count == old(self).turn_count,
    {
        let awaiting = self.state == GameState::AwaitingSwitch && self.players.active == Some(side);
        let choices = self.players.data[side].list_valid_inputs(awaiting);
        match pick(&choices, &mut self.rng) {
            Some(sel) => {
                let player = self.players.get_mut(side);
                player.inputs.push(sel);
                true
            },
            None => {
                proof {
                    assert forall|sel: MoveSelection| !#[trigger] old(self).side(side as int).valid_selection(
                        old(self).awaiting(side as int),
                        sel,
                    ) by {
                        assert(!choices@.contains(sel));
                    }
                }
                false
            },
        }
    }

    /// The priority of side `i`'s last selection: a switch outranks every
    /// move, a move of the active creature has its own priority, anything
    /// else counts as 0.
    pub open spec fn priority_of(&self, i: int) -> int {
        match self.last_input(i) {
            Some(MoveSelection::Switch(_)) => 128,
            Some(MoveSelection::Move(j)) => match self.side(i).roster.active {
                Some(a) => if j < self.side(i).roster.data@[a as int].moves.data@.len() {
                    self.side(i).roster.data@[a as int].moves.data@[j as int].priority as int
                } else {
                    0
                },
                None => 0,
            },
            None => 0,
        }
    }

    /// The priority of side `i`'s selection (see `priority_of`).
    fn selection_priority(&self, i: usize) -> (r: i16)
        requires
            self.wf(),
            i < 2,
        ensures
            r == self.priority_of(i as int),
    {
        let p = &self.players.data[i];
        let n = p.inputs.len();
        if n == 0 {
            return 0;
        }
        match p.inputs[n - 1] {
            MoveSelection::Switch(_) => 128,
            MoveSelection::Move(j) => match p.roster.active {
                Some(a) => if j < p.roster.data[a].moves.len() {
                    p.roster.data[a].moves.data[j].priority as i16
                } else {
                    0
                },
                None => 0,
            },
        }
    }

    /// The effective Speed of side `i`'s active creature, if any.
    fn active_speed(&self, i: usize) -> (r: Option<i64>)
        requires
            self.wf(),
            i < 2,
        ensures
            r is Some <==> self.side(i as int).roster.active is Some,
            r matches Some(v) ==> v == self.side(i as int).active_mon()->0.stat_value(StatId::Spe, self.weather),
    {
        let p = &self.players.data[i];
        match p.roster.active {
            Some(a) => {
                assert(p.roster.data@[a as int].wf());
                Some(p.roster.data[a].stat(StatId::Spe, self.weather))
            },
            None => None,
        }
    }

    /// Decides which side acts first this turn (see `first_mover`).
    fn init_turn_order(&mut self)
        requires
            old(self).wf(),
        ensures
            final(self).wf(),
            final(self).players.data@ == old(self).players.data@,
            final(self).log@ == old(self).log@,
            final(self).state == old(self).state,
            final(self).prev_state@ == old(self).prev_state@,
            final(self).weather == old(self).weather,
            final(self).turn_count == old(self).turn_count,
            exists|coin: u32| coin <= 1 && final(self).players.active == Some(#[trigger] first_of(*old(self), true, coin)),
    {
        let coin = roll(&mut self.rng, 0, 1);
        let first = match (self.active_speed(0), self.active_speed(1)) {
            (Some(s0), Some(s1)) => first_mover(self.selection_priority(0), self.selection_priority(1), s0, s1, coin),
            _ => 0,
        };
        assert(first == first_of(*old(self), true, coin));
        self.players.active = Some(first);
    }

    /// Decides which side goes first at the end of the turn, by Speed alone.
    fn order_turn_by_speed(&mut self)
        requires
            old(self).wf(),
        ensures
            final(self).wf(),
            final(self).players.data@ == old(self).players.data@,
            final(self).log@ == old(self).log@,
            final(self).state == old(self).state,
            final(self).prev_state@ == old(self).prev_state@,
            final(self).weather == old(self).weather,
            final(self).turn_count == old(self).turn_count,
            exists|coin: u32| coin <= 1 && final(self).players.active == Some(#[trigger] first_of(*old(self), false, coin)),
    {
        let coin = roll(&mut self.rng, 0, 1);
        let first = match (self.active_speed(0), self.active_speed(1)) {
            (Some(s0), Some(s1)) => first_mover(0, 0, s0, s1, coin),
            _ => 0,
        };
        assert(first == first_of(*old(self), false, coin));
        self.players.active = Some(first);
    }

    /// The end of the turn for the acting side's creature: its status
    /// counters tick (Toxic up; Drowsy and Confusion down; a flinch ends),
    /// then the end-of-turn effects apply (see `spec_eot_effects`).
    fn apply_eot_effects(&mut self)
        requires
            old(self).wf(),
        ensures
            final(self).wf(),
            effects_frame(*old(self), *final(self)),
            final(self).state == old(self).state,
            final(self).prev_state@ == old(self).prev_state@,
            final(self).players.active == old(self).players.active,
            eot_exec(*old(self), *final(self)),
    {
        let a = self.players.active.unwrap();
        let mi = match self.players.data[a].roster.active {
            Some(i) => i,
            None => {
                proof { crate::game::lemma_log_grew_refl(self.log@); }
                return;
            },
        };
        assert(self.side(a as int).roster.data@[mi as int].wf());
        {
            let player = self.players.get_mut(a);
            let mon = player.roster.get_mut(mi);
            mon.status.increment(&Status::Toxic);
            mon.status.increment(&Status::Drowsy);
            mon.status.increment(&Status::Confusion);
            mon.status.remove(Status::Flinch);
        }
        proof { Self::lemma_roster_kept(old(self).side(a as int), self.side(a as int), mi); }
        let ghost t = self.side(a as int).roster.data@[mi as int];
        proof {
            let m = old(self).side(a as int).roster.data@[mi as int];
            assert forall|s: Status| #[trigger] t.status.get(s) == tick_get(m.status, s) by {
                match s {
                    Status::Toxic => {},
                    Status::Drowsy => {},
                    Status::Confusion => {},
                    Status::Flinch => {},
                    _ => {},
                }
            }
        }
        let effects = eot_effects(&self.players.data[a].roster.data[mi], self.weather);
        if self.players.data[a].roster.data[mi].status.counter(Status::Drowsy) == Some(0u8) {
            let ghost mid = self.side(a as int);
            let player = self.players.get_mut(a);
            let mon = player.roster.get_mut(mi);
            mon.status.remove(Status::Drowsy);
            proof { Self::lemma_roster_kept(mid, self.side(a as int), mi); }
        }
        let ghost before = *self;
        self.apply_effects(effects);
        proof {
            assert(before.side(0).pot() == old(self).side(0).pot());
            assert(before.side(1).pot() == old(self).side(1).pot());
            assert(phase_frame(*old(self), *self));
            let m = old(self).side(a as int).roster.data@[mi as int];
            let n = before.side(a as int).roster.data@[mi as int];
            assert(m.same_but_status(t));
            assert(t.same_but_status(n));
            assert forall|s: Status| #[trigger] n.status.get(s) == (if s == Status::Drowsy && t.status.get(s) == Some(0u8) {
                None
            } else {
                t.status.get(s)
            }) by {}
            assert(before.side(a as int).roster.data@ =~= old(self).side(a as int).roster.data@.update(mi as int, n));
            assert(before.side(1 - a as int) == old(self).side(1 - a as int));
            assert(before.wf());
            assert(eot_steps(*old(self), t, before, *self));
        }
    }

    /// Whether side `i`'s last selection is a switch it can make now.
    pub open spec fn switch_ready(&self, i: int) -> bool {
        self.last_input(i) matches Some(sel) && (sel is Switch) && self.side(i).valid_selection(true, sel)
    }

    /// Carries out the acting side's last selection when it is a legal
    /// switch: the new creature comes in and the hazards on its side hit it.
    /// Returns whether it did; otherwise nothing changes.
    fn execute_switch(&mut self) -> (performed: bool)
        requires
            old(self).wf(),
        ensures
            final(self).wf(),
            performed == old(self).switch_ready(old(self).acting()),
            !performed ==> unchanged(*old(self), *final(self)),
            effects_frame(*old(self), *final(self)),
            final(self).state == old(self).state,
            final(self).prev_state@ == old(self).prev_state@,
            final(self).players.active == old(self).players.active,
            performed && old(self).side(old(self).acting()).roster.active is None
                ==> final(self).side(old(self).acting()).pot() < old(self).side(old(self).acting()).pot(),
            performed && final(self).side(old(self).acting()).roster.active is None
                ==> final(self).side(old(self).acting()).pot() < old(self).side(old(self).acting()).pot(),
            performed ==> exists|n: nat| n >= 2 && #[trigger] log_grew(old(self).log@, final(self).log@, n),
            switch_exec(*old(self), *final(self)),
    {
        proof { lemma_log_grew_refl(self.log@); }
        let a = self.players.active.unwrap();
        let n = self.players.data[a].inputs.len();
        if n == 0 {
            return false;
        }
        let idx = match self.players.data[a].inputs[n - 1] {
            MoveSelection::Switch(i) => i,
            MoveSelection::Move(_) => return false,
        };
        if idx >= self.players.data[a].roster.dead || self.players.data[a].roster.active == Some(idx) {
            return false;
        }
        let player_name = self.players.data[a].name();
        let line = match self.players.data[a].roster.active {
            Some(cur) => String::from_str(player_name).concat(" withdraws ").concat(self.players.data[a].roster.data[cur].id.name()),
            None => String::from_str(player_name).concat(" selects new mon"),
        };
        write_log(&mut self.log, line);
        let ghost g1 = *self;
        self.apply_effect(Effect::Switch(idx));
        proof { Self::lemma_effect_frame(g1, *self, Effect::Switch(idx)); }
        let ghost g2 = *self;
        let hazards = self.players.data[a].hazards;
        let effects = switch_effects(&hazards, PlayerId::Active);
        proof {
            assert(!crate::effect::has_mid_switch(effects@)) by {
                assert forall|i: int| 0 <= i < effects@.len() implies !(#[trigger] effects@[i] is MidSwitch) by {}
            }
        }
        self.apply_effects(effects);
        let ghost g3 = *self;
        write_log(&mut self.log, String::new());
        proof {
            let n1 = choose|n: nat| log_grew(g1.log@, g2.log@, n);
            let n2 = choose|n: nat| log_grew(g2.log@, g3.log@, n);
            lemma_log_grew_trans(old(self).log@, g1.log@, g2.log@, 1, n1);
            lemma_log_grew_trans(old(self).log@, g2.log@, g3.log@, 1 + n1, n2);
            lemma_log_grew_trans(old(self).log@, g3.log@, self.log@, 1 + n1 + n2, 1);
            assert(log_grew(old(self).log@, self.log@, 1 + n1 + n2 + 1));
            assert(g2.side(a as int).roster.active == Some(idx));
            assert(g2.side(a as int).pot() == 2 * g2.side(a as int).roster.dead);
            assert(switch_steps(*old(self), g1, g2, g3, *self));
        }
        true
    }

    /// The effects of the acting side's creature (in slot `mi`) using its
    /// move `idx`, with the damage roll and the secondary-effect draw taken
    /// from the random source.
    fn calc_move(&mut self, mi: usize, idx: usize) -> (r: Vec<Effect>)
        requires
            old(self).wf(),
            old(self).side(old(self).acting()).roster.active == Some(mi),
            idx < old(self).side(old(self).acting()).roster.data@[mi as int].moves.data@.len(),
        ensures
            final(self).players.data@ == old(self).players.data@,
            final(self).players.active == old(self).players.active,
            final(self).players.dead == old(self).players.dead,
            final(self).log@ == old(self).log@,
            final(self).state == old(self).state,
            final(self).prev_state@ == old(self).prev_state@,
            final(self).weather == old(self).weather,
            final(self).turn_count == old(self).turn_count,
            forall|i: int| 0 <= i < r@.len() ==> #[trigger] r@[i].wf(),
            exists|roll: u32, draw: u32| ROLL_MIN <= roll <= ROLL_MAX && draw < 100 && r@ == #[trigger] spec_move_effects(
                old(self).side(old(self).acting()).roster.data@[mi as int],
                old(self).side(1 - old(self).acting()).active_mon(),
                old(self).side(old(self).acting()).roster.data@[mi as int].moves.data@[idx as int],
                old(self).weather,
                roll,
                draw,
            ),
    {
        let a = self.players.active.unwrap();
        let o = 1 - a;
        let dmg_roll = roll(&mut self.rng, ROLL_MIN, ROLL_MAX);
        let draw = roll(&mut self.rng, 0, 99);
        let attacker = &self.players.data[a].roster.data[mi];
        assert(attacker.wf());
        assert(attacker.moves.data@[idx as int].wf());
        let defender = match self.players.data[o].roster.active {
            Some(j) => {
                assert(self.players.data@[o as int].roster.data@[j as int].wf());
                Some(&self.players.data[o].roster.data[j])
            },
            None => None,
        };
        move_effects(attacker, defender, attacker.moves.get(idx), self.weather, dmg_roll, draw)
    }

    /// Writes `line` about the acting side's creature `mon`.
    fn log_mon(&mut self, mon: &str, rest: &str)
        requires
            old(self).log@.len() > 0,
        ensures
            final(self).log@.len() > 0,
            log_grew(old(self).log@, final(self).log@, 1),
            final(self).players == old(self).players,
            final(self).state == old(self).state,
            final(self).prev_state == old(self).prev_state,
            final(self).weather == old(self).weather,
            final(self).turn_count == old(self).turn_count,
    {
        write_log(&mut self.log, String::from_str(mon).concat(rest));
    }

    /// Carries out the acting side's last selection. A switch goes through
    /// `execute_switch`. A move is first checked against the creature's
    /// statuses (paralysis, sleep, freeze, confusion, flinch); a confused
    /// creature that loses its action hits itself with a 40-power typeless
    /// physical blow. Otherwise the move's effects are applied.
    #[verifier::spinoff_prover]
    #[verifier::rlimit(60)]
    fn execute_move(&mut self)
        requires
            old(self).wf(),
            old(self).last_input(old(self).acting()) is Some,
        ensures
            final(self).wf(),
            effects_frame(*old(self), *final(self)),
            phase_frame(*old(self), *final(self)),
            move_exec(*old(self), *final(self)),
    {
        proof { lemma_log_grew_refl(self.log@); }
        let a = self.players.active.unwrap();
        let n = self.players.data[a].inputs.len();
        if n == 0 {
            return;
        }
        let idx = match self.players.data[a].inputs[n - 1] {
            MoveSelection::Switch(_) => {
                self.execute_switch();
                return;
            },
            MoveSelection::Move(i) => i,
        };
        let mi = match self.players.data[a].roster.active {
            Some(i) => i,
            None => return,
        };
        assert(self.side(a as int).roster.data@[mi as int].wf());
        if idx >= self.players.data[a].roster.data[mi].moves.len() {
            return;
        }
        let player_name = self.players.data[a].name();
        let mon_name = self.players.data[a].roster.data[mi].id.name();
        let check = {
            let player = self.players.get_mut(a);
            let mon = player.roster.get_mut(mi);
            mon.exec_moveskip(&mut self.rng)
        };
        proof { Self::lemma_roster_kept(old(self).side(a as int), self.side(a as int), mi); }
        let ghost g0 = *self;
        let ghost (wpara, wthaw, wcoin) = choose|p: u32, t: u32, c: u32| checked(
            old(self).side(a as int).roster.data@[mi as int],
            g0.side(a as int).roster.data@[mi as int],
            check,
            p,
            t,
            c,
        );
        let ghost mut wroll: u32 = ROLL_MIN;
        let ghost mut wdraw: u32 = 0;
        assert(g0.side(0).pot() == old(self).side(0).pot());
        assert(g0.side(1).pot() == old(self).side(1).pot());
        proof { lemma_log_grew_refl(self.log@); }
        let ghost mut lines: nat = 0;
        if check.woke {
            self.log_mon(mon_name, " woke up!");
            proof { lemma_log_grew_trans(g0.log@, old(self).log@, self.log@, 0, 1); lines = 1; }
        }
        let ghost g1 = *self;
        if check.thawed {
            self.log_mon(mon_name, " thawed!");
            proof { lemma_log_grew_trans(g0.log@, g1.log@, self.log@, lines, 1); lines = lines + 1; }
        }
        let ghost g2 = *self;
        if check.unconfused {
            self.log_mon(mon_name, " snapped out of confusion");
            proof { lemma_log_grew_trans(g0.log@, g2.log@, self.log@, lines, 1); lines = lines + 1; }
        }
        let ghost g3 = *self;
        let effects: Vec<Effect> = match check.hindrance {
            Some(h) => {
                let rest = match h {
                    Hindrance::FullPara => " was full para",
                    Hindrance::Asleep => " was sleeping",
                    Hindrance::Frozen => " is frozen",
                    Hindrance::HitItself => " hit itself in confusion",
                    Hindrance::Flinched => " flinched",
                };
                self.log_mon(mon_name, rest);
                proof { lemma_log_grew_trans(g0.log@, g3.log@, self.log@, lines, 1); lines = lines + 1; }
                if h == Hindrance::HitItself {
                    let mon = &self.players.data[a].roster.data[mi];
                    assert(mon.wf());
                    let atk = mon.stat(StatId::Atk, self.weather);
                    let def = mon.stat(StatId::Def, self.weather);
                    let burned = mon.status.contains(Status::Burn);
                    let dmg = damage_formula(40, atk, def, burned, false, 4, ROLL_MAX);
                    vec![Effect::Damage(PlayerId::Active, Damage::Normal(dmg))]
                } else {
                    Vec::new()
                }
            },
            None => {
                let line = String::from_str(player_name).concat("'s ").concat(mon_name).concat(" used ").concat(
                    self.players.data[a].roster.data[mi].moves.data[idx].id_name(),
                );
                write_log(&mut self.log, line);
                proof { lemma_log_grew_trans(g0.log@, g3.log@, self.log@, lines, 1); lines = lines + 1; }
                let effects = self.calc_move(mi, idx);
                proof {
                    let (r, d) = choose|r: u32, d: u32| ROLL_MIN <= r <= ROLL_MAX && d < 100 && effects@ == #[trigger] spec_move_effects(
                        self.side(a as int).roster.data@[mi as int],
                        self.side(1 - a as int).active_mon(),
                        self.side(a as int).roster.data@[mi as int].moves.data@[idx as int],
                        self.weather,
                        r,
                        d,
                    );
                    wroll = r;
                    wdraw = d;
                }
                effects
            },
        };
        let ghost g4 = *self;
        proof {
            match check.hindrance {
                None => {
                    let m = g4.side(a as int).roster.data@[mi as int];
                    assert(m.wf());
                    assert(m.moves.data@[idx as int].wf());
                    crate::calc::lemma_move_effects_one_switch(
                        m,
                        g4.side(1 - a as int).active_mon(),
                        m.moves.data@[idx as int],
                        g4.weather,
                        wroll,
                        wdraw,
                    );
                },
                _ => {},
            }
            assert(at_most_one_mid_switch(effects@));
        }
        self.apply_effects(effects);
        let ghost g5 = *self;
        write_log(&mut self.log, String::new());
        proof {
            let n2 = choose|n: nat| log_grew(g4.log@, g5.log@, n);
            lemma_log_grew_trans(g0.log@, g4.log@, g5.log@, lines, n2);
            lemma_log_grew_trans(g0.log@, g5.log@, self.log@, lines + n2, 1);
            lemma_log_grew_trans(old(self).log@, g0.log@, self.log@, 0, lines + n2 + 1);
            lemma_log_grew_trans(old(self).log@, g0.log@, g4.log@, 0, lines);
            assert(check_done(*old(self), g4, check, wpara, wthaw, wcoin));
            assert(effects@ == action_effects(g4, check, idx, wroll, wdraw));
            assert(lines == check_lines(check));
            assert(move_steps(*old(self), idx, check, wpara, wthaw, wcoin, wroll, wdraw, g4, g5, *self));
        }
    }

    /// The termination measure of the turn driver.
    pub open spec fn measure(&self) -> int {
        self.side(0).pot() + self.side(1).pot() + phase_weight(self.state) + stack_weight(self.prev_state@)
    }

    /// Side `i`'s last selection is legal for the start of a turn.
    pub open spec fn input_ready(&self, i: int) -> bool {
        self.last_input(i) matches Some(sel) && self.side(i).valid_selection(false, sel)
    }

    /// Why the battle cannot be advanced now, if it cannot: at the start of a
    /// turn both sides need an active creature and each human side a legal
    /// selection; while a human side must switch, it needs a legal switch.
    pub open spec fn readiness(&self) -> Option<GameError> {
        match self.state {
            GameState::TurnStart => if self.side(0).roster.active is None || self.side(1).roster.active is None {
                Some(GameError::NoActive)
            } else if (!self.side(0).ai && !self.input_ready(0)) || (!self.side(1).ai && !self.input_ready(1)) {
                Some(GameError::MissingSelection)
            } else {
                None
            },
            GameState::AwaitingSwitch => if !self.side(self.acting()).ai && !self.switch_ready(self.acting()) {
                Some(GameError::MissingSelection)
            } else {
                None
            },
            _ => None,
        }
    }

    /// Whether `sel` is legal for side `i` (see `Player::valid_selection`).
    fn selection_valid(&self, i: usize, awaiting: bool, sel: MoveSelection) -> (r: bool)
        requires
            self.wf(),
            i < 2,
        ensures
            r == self.side(i as int).valid_selection(awaiting, sel),
    {
        let p = &self.players.data[i];
        match sel {
            MoveSelection::Switch(k) => k < p.roster.dead && p.roster.active != Some(k),
            MoveSelection::Move(k) => {
                if awaiting {
                    return false;
                }
                match p.roster.active {
                    Some(a) => k < p.roster.data[a].moves.len() && p.roster.data[a].moves.data[k].pp.data > 0,
                    None => false,
                }
            },
        }
    }

    /// Whether side `i`'s last selection is legal (for a switch to be made
    /// now when `awaiting`).
    fn last_valid(&self, i: usize, awaiting: bool) -> (r: bool)
        requires
            self.wf(),
            i < 2,
        ensures
            r == (self.last_input(i as int) matches Some(sel) && self.side(i as int).valid_selection(awaiting, sel)),
    {
        let n = self.players.data[i].inputs.len();
        if n == 0 {
            false
        } else {
            self.selection_valid(i, awaiting, self.players.data[i].inputs[n - 1])
        }
    }

    /// Checks that the battle can be advanced (see `readiness`).
    pub fn check_ready(&self) -> (r: Result<(), GameError>)
        requires
            self.wf(),
        ensures
            r is Ok <==> self.readiness() is None,
            r matches Err(e) ==> self.readiness() == Some(e),
    {
        match self.state {
            GameState::TurnStart => {
                if self.players.data[0].roster.active.is_none() || self.players.data[1].roster.active.is_none() {
                    Err(GameError::NoActive)
                } else if (!self.players.data[0].ai && !self.last_valid(0, false))
                    || (!self.players.data[1].ai && !self.last_valid(1, false)) {
                    Err(GameError::MissingSelection)
                } else {
                    Ok(())
                }
            },
            GameState::AwaitingSwitch => {
                let s = self.players.active.unwrap();
                let n = self.players.data[s].inputs.len();
                let is_switch = n > 0 && match self.players.data[s].inputs[n - 1] {
                    MoveSelection::Switch(_) => true,
                    MoveSelection::Move(_) => false,
                };
                if !self.players.data[s].ai && !(is_switch && self.last_valid(s, true)) {
                    Err(GameError::MissingSelection)
                } else {
                    Ok(())
                }
            },
            _ => Ok(()),
        }
    }

    /// The start of a turn: a new log bucket, the computer sides choose, the
    /// turn order is decided, and the first mover acts.
    #[verifier::spinoff_prover]
    #[verifier::rlimit(60)]
    fn step_turn_start(&mut self)
        requires
            old(self).wf(),
            old(self).state == GameState::TurnStart,
        ensures
            final(self).wf(),
            !(final(self).state is Completed),
            final(self).side(0).pot() <= old(self).side(0).pot(),
            final(self).side(1).pot() <= old(self).side(1).pot(),
            final(self).log@.len() == old(self).log@.len() + 1,
            final(self).log@.subrange(0, old(self).log@.len() as int) == old(self).log@,
            turn_start_post(*old(self), *final(self)),
    {
        self.log.push(Vec::new());
        if self.turn_count < i32::MAX {
            self.turn_count = self.turn_count + 1;
        }
        let ghost h0 = *self;
        if self.players.data[0].ai {
            self.input_rand_ai(0);
        }
        let ghost h1 = *self;
        if self.players.data[1].ai {
            self.input_rand_ai(1);
        }
        let ghost h2 = *self;
        assert(h0.players.data@ == old(self).players.data@);
        assert(h1.side(0).roster == h0.side(0).roster && h1.side(1) == h0.side(1) && h1.side(0).ai == h0.side(0).ai
            && h1.side(0).hazards == h0.side(0).hazards);
        assert(!h0.side(0).ai ==> h1.side(0).inputs == h0.side(0).inputs);
        assert(h2.side(1).roster == h1.side(1).roster && h2.side(0) == h1.side(0) && h2.side(1).ai == h1.side(1).ai
            && h2.side(1).hazards == h1.side(1).hazards);
        assert(!h1.side(1).ai ==> h2.side(1).inputs == h1.side(1).inputs);
        let ghost pre = *self;
        self.init_turn_order();
        self.state = GameState::MidTurn;
        let ghost g1 = *self;
        let ghost coin = choose|coin: u32| coin <= 1 && g1.players.active == Some(#[trigger] first_of(pre, true, coin));
        proof {
            assert(first_of(g1, true, coin) == first_of(pre, true, coin));
            assert forall|i: int| 0 <= i < 2 implies {
                &&& (#[trigger] g1.side(i)).roster == old(self).side(i).roster
                &&& g1.side(i).hazards == old(self).side(i).hazards
                &&& g1.side(i).ai == old(self).side(i).ai
                &&& !old(self).side(i).ai ==> g1.side(i).inputs == old(self).side(i).inputs
            } by {
                assert(i == 0 || i == 1);
            }
            assert(g1.log@.last()@.len() == 0);
            assert(g1.log@.subrange(0, old(self).log@.len() as int) =~= old(self).log@);
            assert(g1.wf());
            assert(g1.turn_count == (if old(self).turn_count < i32::MAX { old(self).turn_count + 1 } else { old(self).turn_count as int }));
            assert(turn_opened(*old(self), g1, coin));
        }
        let a = self.players.active.unwrap();
        if self.players.data[a].inputs.len() > 0 {
            self.execute_move();
        } else {
            proof { lemma_log_grew_refl(self.log@); }
        }
        proof {
            let n = choose|n: nat| log_grew(g1.log@, self.log@, n);
            assert(self.log@.subrange(0, old(self).log@.len() as int) =~= old(self).log@);
        }
    }

    /// The middle of a turn: the second mover acts if it still has an active
    /// creature.
    #[verifier::spinoff_prover]
    #[verifier::rlimit(60)]
    fn step_mid_turn(&mut self)
        requires
            old(self).wf(),
            old(self).state == GameState::MidTurn,
        ensures
            final(self).wf(),
            !(final(self).state is Completed),
            final(self).side(0).pot() <= old(self).side(0).pot(),
            final(self).side(1).pot() <= old(self).side(1).pot(),
            final(self).measure() < old(self).measure(),
            exists|n: nat| #[trigger] log_grew(old(self).log@, final(self).log@, n),
            mid_turn_post(*old(self), *final(self)),
    {
        self.state = GameState::TurnEnd;
        proof { lemma_log_grew_refl(self.log@); }
        let ghost g = *self;
        let a = self.players.active.unwrap();
        if self.players.data[a].has_active() && self.players.data[a].inputs.len() > 0 {
            self.execute_move();
        }
        assert(moved_to(*old(self), g, GameState::TurnEnd, old(self).players.active));
        proof {
            if phase_frame(g, *self) && !(self.state == g.state && self.prev_state@ == g.prev_state@) {
                lemma_stack_weight_push(g.prev_state@, g.state);
            }
        }
    }

    /// The end of a turn: by Speed, each side's end-of-turn effects apply;
    /// a side left without an active creature must then choose a
    /// replacement before the next turn.
    #[verifier::spinoff_prover]
    #[verifier::rlimit(60)]
    fn step_turn_end(&mut self)
        requires
            old(self).wf(),
            old(self).state == GameState::TurnEnd,
        ensures
            final(self).wf(),
            !(final(self).state is Completed),
            final(self).side(0).pot() <= old(self).side(0).pot(),
            final(self).side(1).pot() <= old(self).side(1).pot(),
            final(self).measure() < old(self).measure(),
            exists|n: nat| #[trigger] log_grew(old(self).log@, final(self).log@, n),
            turn_end_post(*old(self), *final(self)),
    {
        self.state = GameState::TurnStart;
        let ghost pre = *self;
        self.order_turn_by_speed();
        let ghost g0 = *self;
        let ghost coin = choose|coin: u32| coin <= 1 && g0.players.active == Some(#[trigger] first_of(pre, false, coin));
        assert(first_of(pre, false, coin) == first_of(*old(self), false, coin));
        self.apply_eot_effects();
        let ghost e1 = *self;
        self.invert_active_player();
        let ghost g1 = *self;
        self.apply_eot_effects();
        let ghost e2 = *self;
        self.invert_active_player();
        let ghost g5 = *self;
        assert(turn_ended(*old(self), g0, e1, g1, e2, g5, coin));
        let ghost mut grown: nat = 0;
        proof {
            let n1 = choose|n: nat| log_grew(g0.log@, g1.log@, n);
            let n2 = choose|n: nat| log_grew(g1.log@, self.log@, n);
            lemma_log_grew_trans(g0.log@, g1.log@, self.log@, n1, n2);
            grown = n1 + n2;
        }
        let lack0 = !self.players.data[0].has_active();
        let lack1 = !self.players.data[1].has_active();
        if lack0 || lack1 {
            let ghost g = *self;
            self.prev_state.push(GameState::TurnStart);
            self.state = GameState::AwaitingSwitch;
            self.players.active = Some(if lack0 { 0 } else { 1 });
            proof { lemma_stack_weight_push(g.prev_state@, GameState::TurnStart); }
        }
        assert(log_grew(old(self).log@, self.log@, grown));
        assert(replacement_flagged(g5, *self));
    }

    /// A replacement: the flagged side makes its switch. If its new creature
    /// faints on entry, it must choose again; at the end of a turn, if the
    /// other side also needs a replacement, that side is flagged next;
    /// otherwise the saved phase resumes. Without a legal switch nothing
    /// happens.
    #[verifier::spinoff_prover]
    #[verifier::rlimit(60)]
    fn step_await(&mut self)
        requires
            old(self).wf(),
            old(self).state == GameState::AwaitingSwitch,
        ensures
            final(self).wf(),
            !(final(self).state is Completed),
            final(self).side(0).pot() <= old(self).side(0).pot(),
            final(self).side(1).pot() <= old(self).side(1).pot(),
            old(self).switch_ready(old(self).acting()) ==> final(self).measure() < old(self).measure(),
            exists|n: nat| #[trigger] log_grew(old(self).log@, final(self).log@, n),
            old(self).switch_ready(old(self).acting())
                ==> exists|n: nat| n >= 2 && #[trigger] log_grew(old(self).log@, final(self).log@, n),
            await_post(*old(self), *final(self)),
    {
        let s = self.players.active.unwrap();
        let was_lacking = !self.players.data[s].has_active();
        let performed = self.execute_switch();
        let ghost g1 = *self;
        if !performed {
            proof { lemma_log_grew_refl(self.log@); }
            assert(await_resolved(*old(self), g1, *self));
            return;
        }
        let ghost grown: nat = choose|n: nat| n >= 2 && log_grew(old(self).log@, self.log@, n);
        let o = 1 - s;
        let s_lacks = !self.players.data[s].has_active();
        let s_living = self.players.data[s].roster.dead > 0;
        let o_lacks = !self.players.data[o].has_active();
        let o_living = self.players.data[o].roster.dead > 0;
        let n = self.prev_state.len();
        let top_start = n > 0 && self.prev_state[n - 1] == GameState::TurnStart;
        if s_lacks && s_living {
        } else if was_lacking && top_start && o_lacks && o_living {
            self.players.active = Some(o);
        } else {
            let ghost g = *self;
            let x = self.prev_state.pop().unwrap();
            self.state = x;
            proof {
                lemma_stack_weight_push(self.prev_state@, x);
                assert(self.prev_state@.push(x) =~= g.prev_state@);
            }
        }
        assert(log_grew(old(self).log@, self.log@, grown));
        assert(await_resolved(*old(self), g1, *self));
    }

    /// Advances the battle by one phase.
    fn step(&mut self)
        requires
            old(self).wf(),
            !(old(self).state is Completed),
        ensures
            final(self).wf(),
            !(final(self).state is Completed),
            final(self).side(0).pot() <= old(self).side(0).pot(),
            final(self).side(1).pot() <= old(self).side(1).pot(),
            old(self).state != GameState::TurnStart
                && (old(self).state == GameState::AwaitingSwitch ==> old(self).switch_ready(old(self).acting()))
                ==> final(self).measure() < old(self).measure(),
            old(self).state == GameState::TurnStart ==> final(self).log@.len() == old(self).log@.len() + 1,
            old(self).state == GameState::TurnStart ==> final(self).log@.subrange(0, old(self).log@.len() as int) == old(self).log@,
            old(self).state != GameState::TurnStart ==> exists|n: nat| #[trigger] log_grew(old(self).log@, final(self).log@, n),
            old(self).state == GameState::AwaitingSwitch && old(self).switch_ready(old(self).acting())
                ==> exists|n: nat| n >= 2 && #[trigger] log_grew(old(self).log@, final(self).log@, n),
            phase_step(*old(self), *final(self)),
    {
        reveal(phase_step);
        match self.state {
            GameState::TurnStart => self.step_turn_start(),
            GameState::MidTurn => self.step_mid_turn(),
            GameState::TurnEnd => self.step_turn_end(),
            GameState::AwaitingSwitch => self.step_await(),
            GameState::Completed(_) => {},
        }
    }

    /// Drives the battle until it needs a fresh selection or is over: one
    /// call resolves a whole turn, including end-of-turn effects and any
    /// replacements the computer side makes, and stops at the start of the
    /// next turn, when a human side must choose a replacement, or when a side
    /// has no living creature left (a win for the other side, or a tie when
    /// both have none). A finished battle is left untouched. Misuse (see
    /// `readiness`) is refused with nothing changed.
    #[verifier::spinoff_prover]
    #[verifier::rlimit(100)]
    pub fn execute_turn(&mut self) -> (r: Result<(), GameError>)
        requires
            old(self).wf(),
        ensures
            final(self).wf(),
            turn_post(*old(self), *final(self), r),
    {
        if let GameState::Completed(_) = self.state {
            return Ok(());
        }
        match self.check_ready() {
            Err(e) => return Err(e),
            Ok(()) => {},
        }
        self.step();
        let ghost first = *self;
        let ghost mut gs: Seq<Game> = seq![*old(self), *self];
        proof {
            lemma_log_grew_refl(self.log@);
            reveal(turn_run);
            assert(gs[0] == *old(self) && gs[1] == *self);
        }
        loop
            invariant_except_break
                !(self.state is Completed),
            invariant
                self.wf(),
                old(self).wf(),
                first.log@.len() > 0,
                exists|n: nat| #[trigger] log_grew(first.log@, self.log@, n),
                turn_run(gs),
                gs.len() >= 2,
                gs[0] == *old(self),
                gs.last() == *self,
                self.side(0).pot() <= old(self).side(0).pot(),
                self.side(1).pot() <= old(self).side(1).pot(),
            ensures
                settled(*self),
                self.state is Completed ==> self.log@.last()@.last()@ == "game finished"@,
                self.state == GameState::AwaitingSwitch ==> !self.side(self.acting()).ai
                    || !exists|sel: MoveSelection| #[trigger] self.side(self.acting()).valid_selection(true, sel),
            decreases self.measure(),
        {
            proof { lemma_stack_weight_nonneg(self.prev_state@); }
            let ghost top = *self;
            let result = self.check_winner();
            if result != GameResult::Incomplete {
                self.state = GameState::Completed(result);
                let done = String::from_str("game finished");
                assert(done@ == "game finished"@);
                write_log(&mut self.log, done);
                proof {
                    let n = choose|n: nat| log_grew(first.log@, top.log@, n);
                    lemma_log_grew_trans(first.log@, top.log@, self.log@, n, 1);
                    reveal(driver_glue);
                    assert(driver_glue(top, *self));
                    lemma_run_push(gs, *self);
                    let ogs = gs;
                    gs = gs.push(*self);
                    assert(gs[0] == ogs[0]);
                }
                break;
            }
            match self.state {
                GameState::TurnStart => break,
                GameState::AwaitingSwitch => {
                    let s = self.players.active.unwrap();
                    if !self.players.data[s].ai {
                        break;
                    }
                    if !self.input_rand_ai(s) {
                        proof {
                            reveal(driver_glue);
                            assert(top.awaiting(s as int));
                            assert(self.side(s as int) == top.side(s as int));
                            assert(self.side(1 - s as int) == top.side(1 - s as int));
                            assert(self.players.data@ =~= top.players.data@) by {
                                assert(s == 0 || s == 1);
                            }
                            assert(driver_glue(top, *self));
                            lemma_run_push(gs, *self);
                            let ogs = gs;
                            gs = gs.push(*self);
                            assert(gs[0] == ogs[0]);
                        }
                        break;
                    }
                    proof {
                        reveal(driver_glue);
                    assert(driver_glue(top, *self));
                        lemma_run_push(gs, *self);
                        let ogs = gs;
                        gs = gs.push(*self);
                        assert(gs[0] == ogs[0]);
                    }
                },
                GameState::MidTurn | GameState::TurnEnd => {
                    self.invert_active_player();
                    proof {
                        reveal(driver_glue);
                    assert(driver_glue(top, *self));
                        lemma_run_push(gs, *self);
                        let ogs = gs;
                        gs = gs.push(*self);
                        assert(gs[0] == ogs[0]);
                    }
                },
                GameState::Completed(_) => break,
            }
            let ghost mid = *self;
            self.step();
            proof {
                lemma_run_push(gs, *self);
                let ogs = gs;
                gs = gs.push(*self);
                assert(gs[0] == ogs[0]);
                lemma_stack_weight_nonneg(self.prev_state@);
                let n1 = choose|n: nat| log_grew(first.log@, mid.log@, n);
                let n2 = choose|n: nat| log_grew(mid.log@, self.log@, n);
                lemma_log_grew_trans(first.log@, mid.log@, self.log@, n1, n2);
            }
        }
        proof {
            assert(turn_run(gs) && gs[0] == *old(self) && gs.last() == *self);
            let n = choose|n: nat| log_grew(first.log@, self.log@, n);
            let ol = old(self).log@;
            if old(self).state == GameState::TurnStart {
                assert(first.log@.subrange(0, ol.len() as int) == ol);
                assert forall|k: int| 0 <= k < ol.len() implies #[trigger] self.log@[k] == ol[k] by {
                    assert(first.log@.subrange(0, ol.len() as int)[k] == first.log@[k]);
                }
                assert(self.log@[ol.len() - 1]@.subrange(0, ol.last()@.len() as int) =~= ol.last()@);
            } else {
                let m = choose|m: nat| log_grew(ol, first.log@, m);
                lemma_log_grew_trans(ol, first.log@, self.log@, m, n);
            }
            assert(log_kept(ol, self.log@));
            if old(self).state == GameState::AwaitingSwitch && !old(self).side(old(self).acting()).ai {
                let m = choose|m: nat| m >= 2 && log_grew(old(self).log@, first.log@, m);
                lemma_log_grew_trans(old(self).log@, first.log@, self.log@, m, n);
            }
        }
        Ok(())
    }

    /// Hands the turn to the other side.
    pub fn invert_active_player(&mut self)
        requires
            old(self).wf(),
        ensures
            final(self).wf(),
            final(self).acting() == 1 - old(self).acting(),
            final(self).players.active == Some((1 - old(self).acting()) as usize),
            final(self).players.dead == old(self).players.dead,
            final(self).turn_count == old(self).turn_count,
            final(self).players.data@ == old(self).players.data@,
            final(self).log@ == old(self).log@,
            final(self).state == old(self).state,
            final(self).prev_state@ == old(self).prev_state@,
            final(self).weather == old(self).weather,
    {
        let a = self.players.active.unwrap();
        self.players.active = Some(1 - a);
    }
}

} // verus!
