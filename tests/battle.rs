use pokebattle::bounded_i32::BoundedI32;
use pokebattle::effect::{Effect, PlayerId};
use pokebattle::game::{Game, GameError, GameResult, GameState, MoveSelection};
use pokebattle::moves::{Move, MoveId};
use pokebattle::player::Player;
use pokebattle::pokemon::Pokemon;
use pokebattle::preset::PokeId;
use pokebattle::selvec::PointerVec;
use rand::rngs::StdRng;
use rand::SeedableRng;

/// A preset creature with the given health, no item and a single move.
fn creature(id: PokeId, hp: i32, only_move: MoveId) -> Pokemon {
    let mut mon = Pokemon::preset(id);
    mon.hp = BoundedI32::new(hp, 0, mon.hp.max);
    mon.item = None;
    mon.moves = PointerVec::from(vec![Move::from(only_move)]);
    mon
}

fn first_line_of_last_turn(game: &Game) -> String {
    game.log.last().unwrap()[0].clone()
}

#[test]
fn faint_forces_switch_then_last_faint_completes() {
    let human = Player::with_roster(
        false,
        vec![
            creature(PokeId::Jirachi, 1, MoveId::Refresh),
            creature(PokeId::Zapdos, 1, MoveId::Refresh),
        ],
    );
    let bot = Player::with_roster(true, vec![creature(PokeId::Tyranitar, 341, MoveId::Pursuit)]);
    let mut game = Game::with_players(human, bot, StdRng::seed_from_u64(21));

    game.push_input(PlayerId::Player1, MoveSelection::Move(0));
    assert_eq!(game.execute_turn(), Ok(()));
    assert_eq!(game.state, GameState::AwaitingSwitch);
    assert_eq!(game.players.active, Some(0));
    assert_eq!(game.prev_state, vec![GameState::TurnStart]);
    assert_eq!(game.players.data[0].roster.dead, 1);
    assert_eq!(game.players.data[0].roster.active, None);
    assert_eq!(game.list_valid_inputs(PlayerId::Player1), vec![MoveSelection::Switch(0)]);

    game.push_input(PlayerId::Player1, MoveSelection::Switch(0));
    assert_eq!(game.execute_turn(), Ok(()));
    assert_eq!(game.state, GameState::TurnStart);
    assert_eq!(game.players.data[0].roster.active, Some(0));

    game.push_input(PlayerId::Player1, MoveSelection::Move(0));
    assert_eq!(game.execute_turn(), Ok(()));
    assert_eq!(game.players.data[0].roster.dead, 0);
    assert_eq!(game.state, GameState::Completed(GameResult::Winner(1)));

    let log_len = game.log.len();
    let bucket_len = game.log.last().unwrap().len();
    assert_eq!(game.execute_turn(), Ok(()));
    assert_eq!(game.state, GameState::Completed(GameResult::Winner(1)));
    assert_eq!(game.log.len(), log_len);
    assert_eq!(game.log.last().unwrap().len(), bucket_len);
}

#[test]
fn speed_tie_is_a_coin_flip() {
    let mut human_first = 0;
    let trials = 400;
    for seed in 0..trials {
        let human = Player::with_roster(false, vec![creature(PokeId::Jirachi, 404, MoveId::Refresh)]);
        let bot = Player::with_roster(true, vec![creature(PokeId::Jirachi, 404, MoveId::Refresh)]);
        let mut game = Game::with_players(human, bot, StdRng::seed_from_u64(seed));
        game.push_input(PlayerId::Player1, MoveSelection::Move(0));
        assert_eq!(game.execute_turn(), Ok(()));
        let first = first_line_of_last_turn(&game);
        if first.starts_with("Human") {
            human_first += 1;
        } else {
            assert!(first.starts_with("Bot"));
        }
    }
    assert!(human_first > 150 && human_first < 250, "human moved first {} times", human_first);
}

#[test]
fn missing_selection_is_refused() {
    let mut game = Game::new(StdRng::seed_from_u64(30));
    let before = game.log.len();
    assert_eq!(game.execute_turn(), Err(GameError::MissingSelection));
    assert_eq!(game.state, GameState::TurnStart);
    assert_eq!(game.log.len(), before);
    game.push_input(PlayerId::Player1, MoveSelection::Switch(0));
    assert_eq!(game.execute_turn(), Err(GameError::MissingSelection));
    game.push_input(PlayerId::Player1, MoveSelection::Move(7));
    assert_eq!(game.execute_turn(), Err(GameError::MissingSelection));
}

#[test]
fn no_active_creature_is_refused() {
    let mut game = Game::new(StdRng::seed_from_u64(31));
    game.apply_effect(Effect::OHKO(PlayerId::Player1));
    game.push_input(PlayerId::Player1, MoveSelection::Switch(1));
    let before = game.log.last().unwrap().len();
    assert_eq!(game.execute_turn(), Err(GameError::NoActive));
    assert_eq!(game.log.last().unwrap().len(), before);
}

#[test]
fn valid_inputs_list_switches_then_moves() {
    let game = Game::new(StdRng::seed_from_u64(32));
    let expected = vec![
        MoveSelection::Switch(1),
        MoveSelection::Switch(2),
        MoveSelection::Switch(3),
        MoveSelection::Switch(4),
        MoveSelection::Switch(5),
        MoveSelection::Move(0),
        MoveSelection::Move(1),
        MoveSelection::Move(2),
        MoveSelection::Move(3),
    ];
    assert_eq!(game.list_valid_inputs(PlayerId::Player1), expected);
    assert_eq!(game.players.data[0].list_valid_inputs(true), expected[..5].to_vec());
}

#[test]
fn computer_choices_are_legal_and_vary() {
    let mut seen = std::collections::BTreeSet::new();
    for seed in 0..64 {
        let mut game = Game::new(StdRng::seed_from_u64(seed));
        assert!(game.input_rand_ai(1));
        let choice = *game.players.data[1].inputs.last().unwrap();
        assert!(game.list_valid_inputs(PlayerId::Player2).contains(&choice));
        seen.insert(format!("{:?}", choice));
    }
    assert!(seen.len() > 3);
}

#[test]
fn random_battles_keep_invariants() {
    for seed in 0..20 {
        let mut game = Game::new(StdRng::seed_from_u64(seed));
        let mut living = [6usize, 6usize];
        for _ in 0..300 {
            if let GameState::Completed(result) = game.state {
                let d0 = game.players.data[0].roster.dead;
                let d1 = game.players.data[1].roster.dead;
                match result {
                    GameResult::Winner(0) => assert!(d0 > 0 && d1 == 0),
                    GameResult::Winner(1) => assert!(d0 == 0 && d1 > 0),
                    GameResult::Tie => assert!(d0 == 0 && d1 == 0),
                    _ => panic!("unexpected result {:?}", result),
                }
                break;
            }
            let choices = game.list_valid_inputs(PlayerId::Player1);
            let pick = choices[seed as usize % choices.len()];
            game.push_input(PlayerId::Player1, pick);
            assert_eq!(game.execute_turn(), Ok(()));
            assert!(matches!(
                game.state,
                GameState::TurnStart | GameState::AwaitingSwitch | GameState::Completed(_)
            ));
            for (i, side) in game.players.data.iter().enumerate() {
                assert!(side.roster.dead <= living[i]);
                living[i] = side.roster.dead;
                for (k, mon) in side.roster.data.iter().enumerate() {
                    assert!(mon.hp.data >= 0 && mon.hp.data <= mon.hp.max);
                    assert_eq!(mon.hp.data > 0, k < side.roster.dead);
                    for stat in [&mon.stats.atk, &mon.stats.def, &mon.stats.spa, &mon.stats.spd, &mon.stats.spe] {
                        assert!(stat.stage.data >= -6 && stat.stage.data <= 6);
                    }
                }
                if let Some(a) = side.roster.active {
                    assert!(a < side.roster.dead);
                }
            }
        }
    }
}
