use pokebattle::bounded_i32::BoundedI32;
use pokebattle::effect::{Damage, Effect, PlayerId};
use pokebattle::game::{Game, GameState, HazardId, WeatherId};
use pokebattle::player::HazardBlock;
use pokebattle::status::Status;
use rand::rngs::StdRng;
use rand::SeedableRng;

fn fresh_game(seed: u64) -> Game {
    Game::new(StdRng::seed_from_u64(seed))
}

fn last_bucket_len(game: &Game) -> usize {
    game.log.last().unwrap().len()
}

#[test]
fn switch_sets_active_and_logs_one_line() {
    let mut game = fresh_game(1);
    let before = last_bucket_len(&game);
    game.apply_effect(Effect::Switch(2));
    assert_eq!(game.players.data[0].roster.active, Some(2));
    assert_eq!(last_bucket_len(&game), before + 1);
    game.apply_effect(Effect::Switch(4));
    assert_eq!(game.players.data[0].roster.active, Some(4));
    assert_eq!(last_bucket_len(&game), before + 2);
}

#[test]
fn switch_to_active_slot_is_silent() {
    let mut game = fresh_game(1);
    let before = last_bucket_len(&game);
    game.apply_effect(Effect::Switch(0));
    assert_eq!(game.players.data[0].roster.active, Some(0));
    assert_eq!(last_bucket_len(&game), before);
}

#[test]
fn hazard_beyond_max_is_noop() {
    let mut game = fresh_game(2);
    let before = last_bucket_len(&game);
    game.apply_effect(Effect::InflictHazard(PlayerId::Player2, HazardId::StealthRock));
    assert_eq!(game.players.data[1].hazards.get(HazardId::StealthRock), 1);
    assert_eq!(last_bucket_len(&game), before + 1);
    game.apply_effect(Effect::InflictHazard(PlayerId::Player2, HazardId::StealthRock));
    assert_eq!(game.players.data[1].hazards.get(HazardId::StealthRock), 1);
    assert_eq!(last_bucket_len(&game), before + 1);
}

#[test]
fn hazard_layers_have_their_own_maximum() {
    let mut game = fresh_game(2);
    for _ in 0..5 {
        game.apply_effect(Effect::InflictHazard(PlayerId::Player1, HazardId::Spikes));
        game.apply_effect(Effect::InflictHazard(PlayerId::Player1, HazardId::ToxicSpikes));
    }
    assert_eq!(game.players.data[0].hazards.get(HazardId::Spikes), 3);
    assert_eq!(game.players.data[0].hazards.get(HazardId::ToxicSpikes), 2);
    assert_eq!(game.players.data[0].hazards.get(HazardId::StealthRock), 0);
    assert_eq!(HazardId::StealthRock.max_layers(), 1);
    assert_eq!(HazardId::Spikes.max_layers(), 2);
    assert_eq!(HazardId::ToxicSpikes.max_layers(), 3);
    assert_eq!(HazardBlock::cap(HazardId::Spikes), 3);
    assert_eq!(HazardBlock::cap(HazardId::ToxicSpikes), 2);
}

#[test]
fn clear_hazard_twice_logs_twice() {
    let mut game = fresh_game(3);
    let before = last_bucket_len(&game);
    game.apply_effect(Effect::ClearHazard(PlayerId::Player1));
    let layers_once: Vec<i32> = [HazardId::StealthRock, HazardId::Spikes, HazardId::ToxicSpikes]
        .iter()
        .map(|h| game.players.data[0].hazards.get(*h))
        .collect();
    assert_eq!(last_bucket_len(&game), before + 1);
    game.apply_effect(Effect::ClearHazard(PlayerId::Player1));
    let layers_twice: Vec<i32> = [HazardId::StealthRock, HazardId::Spikes, HazardId::ToxicSpikes]
        .iter()
        .map(|h| game.players.data[0].hazards.get(*h))
        .collect();
    assert_eq!(layers_once, vec![0, 0, 0]);
    assert_eq!(layers_once, layers_twice);
    assert_eq!(last_bucket_len(&game), before + 2);
}

#[test]
fn damage_and_heal_keep_health_in_bounds() {
    let mut game = fresh_game(4);
    // Jirachi leads with 404 health.
    game.apply_effect(Effect::Damage(PlayerId::Player1, Damage::Normal(100)));
    assert_eq!(game.players.data[0].roster.data[0].hp.data, 304);
    game.apply_effect(Effect::Heal(PlayerId::Player1, 2));
    assert_eq!(game.players.data[0].roster.data[0].hp.data, 404);
    let before = last_bucket_len(&game);
    game.apply_effect(Effect::Heal(PlayerId::Player1, 2));
    assert_eq!(game.players.data[0].roster.data[0].hp.data, 404);
    assert_eq!(last_bucket_len(&game), before);
    game.apply_effect(Effect::Damage(PlayerId::Player1, Damage::Normal(-50)));
    assert_eq!(game.players.data[0].roster.data[0].hp.data, 404);
    game.apply_effect(Effect::Damage(PlayerId::Player1, Damage::Fractional(1, 8)));
    assert_eq!(game.players.data[0].roster.data[0].hp.data, 354);
    for mon in game.players.data[0].roster.data.iter() {
        assert!(mon.hp.data >= 0 && mon.hp.data <= mon.hp.max);
    }
}

#[test]
fn lethal_damage_faints_and_moves_past_boundary() {
    let mut game = fresh_game(5);
    let before = last_bucket_len(&game);
    game.apply_effect(Effect::Damage(PlayerId::Player1, Damage::Normal(10_000)));
    let roster = &game.players.data[0].roster;
    assert_eq!(roster.active, None);
    assert_eq!(roster.dead, 5);
    assert_eq!(roster.data[5].hp.data, 0);
    assert_eq!(roster.data[5].id, pokebattle::preset::PokeId::Jirachi);
    assert_eq!(roster.data[0].id, pokebattle::preset::PokeId::Starmie);
    assert_eq!(last_bucket_len(&game), before + 2);
}

#[test]
fn ohko_faints_with_one_line() {
    let mut game = fresh_game(6);
    let before = last_bucket_len(&game);
    game.apply_effect(Effect::OHKO(PlayerId::Player2));
    assert_eq!(game.players.data[1].roster.active, None);
    assert_eq!(game.players.data[1].roster.dead, 5);
    assert_eq!(last_bucket_len(&game), before + 1);
}

#[test]
fn weather_change_logs_only_when_it_changes() {
    let mut game = fresh_game(7);
    let before = last_bucket_len(&game);
    game.apply_effect(Effect::SetWeather(WeatherId::Sand));
    assert_eq!(game.weather, Some(WeatherId::Sand));
    assert_eq!(last_bucket_len(&game), before + 1);
    game.apply_effect(Effect::SetWeather(WeatherId::Sand));
    assert_eq!(last_bucket_len(&game), before + 1);
    game.apply_effect(Effect::SetWeather(WeatherId::Rain));
    assert_eq!(game.weather, Some(WeatherId::Rain));
    assert_eq!(last_bucket_len(&game), before + 2);
}

#[test]
fn alter_stat_logs_only_on_change() {
    let mut game = fresh_game(8);
    let before = last_bucket_len(&game);
    for _ in 0..8 {
        game.apply_effect(Effect::AlterStat(PlayerId::Player1, pokebattle::stat::StatId::Atk, -1));
    }
    assert_eq!(game.players.data[0].roster.data[0].stats.atk.stage.data, -6);
    assert_eq!(last_bucket_len(&game), before + 6);
}

#[test]
fn inflict_and_cure_status() {
    let mut game = fresh_game(9);
    let before = last_bucket_len(&game);
    game.apply_effect(Effect::InflictStatus(PlayerId::Player2, Status::Burn));
    game.apply_effect(Effect::InflictStatus(PlayerId::Player2, Status::Paralyse));
    game.apply_effect(Effect::InflictStatus(PlayerId::Player2, Status::Confusion));
    let status = &game.players.data[1].roster.data[0].status;
    assert!(status.contains(Status::Burn));
    assert!(!status.contains(Status::Paralyse));
    assert!(status.contains(Status::Confusion));
    assert_eq!(last_bucket_len(&game), before + 2);
    game.apply_effect(Effect::Cure(PlayerId::Player2));
    let status = &game.players.data[1].roster.data[0].status;
    assert!(!status.contains(Status::Burn));
    assert!(status.contains(Status::Confusion));
    assert_eq!(last_bucket_len(&game), before + 3);
    game.apply_effect(Effect::Cure(PlayerId::Player2));
    assert_eq!(last_bucket_len(&game), before + 3);
}

#[test]
fn mid_switch_needs_two_living() {
    let mut game = fresh_game(10);
    game.state = GameState::MidTurn;
    game.apply_effect(Effect::MidSwitch(PlayerId::Active));
    assert_eq!(game.state, GameState::AwaitingSwitch);
    assert_eq!(game.prev_state, vec![GameState::MidTurn]);
}

#[test]
fn damage_collapse_fraction_of_max() {
    let hp = BoundedI32::zero(404);
    assert_eq!(Damage::Fractional(1, 8).collapse(hp), 50);
    assert_eq!(Damage::Fractional(3, 16).collapse(hp), 75);
    assert_eq!(Damage::Normal(-7).collapse(hp), -7);
}

#[test]
fn player_id_inverts() {
    let mut id = PlayerId::Player1;
    id.invert();
    assert_eq!(id, PlayerId::Player2);
    let mut id = PlayerId::Inactive;
    id.invert();
    assert_eq!(id, PlayerId::Active);
}

#[test]
fn mid_switch_while_awaiting_saves_the_phase() {
    let mut game = fresh_game(12);
    game.state = GameState::AwaitingSwitch;
    game.prev_state = vec![GameState::TurnStart];
    game.apply_effect(Effect::MidSwitch(PlayerId::Player2));
    assert_eq!(game.state, GameState::AwaitingSwitch);
    assert_eq!(game.prev_state, vec![GameState::TurnStart, GameState::AwaitingSwitch]);
    assert_eq!(game.players.active, Some(1));
}
