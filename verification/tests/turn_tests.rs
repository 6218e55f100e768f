use game_rooms::room::{AdvanceTurnResponse, Game, StartGameResponse, State};
use game_rooms::settings::GameSettings;

fn room_with(prompts: Vec<&str>, rounds: u8) -> Game {
    let settings = GameSettings::new(
        prompts.into_iter().map(|p| p.to_string()).collect(),
        30,
        rounds,
        true,
    )
    .expect("settings are valid");
    Game::with_settings(settings)
}

fn join_id(g: &mut Game, nick: &str) -> u128 {
    match g.join(nick.to_string()) {
        game_rooms::room::PlayerJoinResponse::Success(id, _) => id,
        other => panic!("join refused: {:?}", other),
    }
}

fn playing_state(g: &Game) -> (usize, u8, String) {
    match &g.state {
        State::Playing(og) => (og.current_turn_index, og.current_round, og.current_prompt.clone()),
        _ => panic!("room is not playing"),
    }
}

#[test]
fn advance_in_lobby_reports_not_playing() {
    let mut g = Game::new();
    assert_eq!(g.advance_turn(), AdvanceTurnResponse::NotPlaying);
    assert!(matches!(g.state, State::Lobby));
}

#[test]
fn turns_rotate_through_non_spectators_and_rounds_advance_on_wrap() {
    let mut g = room_with(vec!["first prompt", "second prompt", "third prompt"], 2);
    let admin = join_id(&mut g, "creator");
    join_id(&mut g, "guesser");
    assert_eq!(g.start_game(admin), StartGameResponse::Started);
    assert_eq!(playing_state(&g), (0, 0, "first prompt".to_string()));

    // two non-spectators: the turn passes, then wraps into round one
    assert_eq!(g.advance_turn(), AdvanceTurnResponse::Advanced);
    assert_eq!(playing_state(&g), (1, 0, "second prompt".to_string()));

    assert_eq!(g.advance_turn(), AdvanceTurnResponse::Advanced);
    assert_eq!(playing_state(&g), (0, 1, "third prompt".to_string()));

    // the prompt cursor wraps around the list
    assert_eq!(g.advance_turn(), AdvanceTurnResponse::Advanced);
    assert_eq!(playing_state(&g), (1, 1, "first prompt".to_string()));

    // the last turn of the last round finishes the game
    assert_eq!(g.advance_turn(), AdvanceTurnResponse::GameFinished);
    assert!(matches!(g.state, State::Finished));

    // a finished room neither plays on nor restarts
    assert_eq!(g.advance_turn(), AdvanceTurnResponse::NotPlaying);
    assert_eq!(g.start_game(admin), StartGameResponse::GameAlreadyStarted);
}

#[test]
fn spectators_do_not_take_turns() {
    let mut g = room_with(vec!["only prompt"], 3);
    let admin = join_id(&mut g, "creator");
    assert_eq!(g.start_game(admin), StartGameResponse::Started);
    // a spectator joins mid-game; the admin is the only one taking turns
    join_id(&mut g, "watcher");
    assert_eq!(g.players.len(), 2);

    // each advance wraps immediately: one non-spectator means one turn per round
    assert_eq!(g.advance_turn(), AdvanceTurnResponse::Advanced);
    assert_eq!(playing_state(&g), (0, 1, "only prompt".to_string()));
    assert_eq!(g.advance_turn(), AdvanceTurnResponse::Advanced);
    assert_eq!(playing_state(&g), (0, 2, "only prompt".to_string()));
    assert_eq!(g.advance_turn(), AdvanceTurnResponse::GameFinished);
    assert!(matches!(g.state, State::Finished));
}

#[test]
fn single_round_game_finishes_after_everyone_drew_once() {
    let mut g = room_with(vec!["first prompt", "second prompt"], 1);
    let admin = join_id(&mut g, "creator");
    join_id(&mut g, "guesser");
    assert_eq!(g.start_game(admin), StartGameResponse::Started);
    assert_eq!(g.advance_turn(), AdvanceTurnResponse::Advanced);
    assert_eq!(g.advance_turn(), AdvanceTurnResponse::GameFinished);
    assert!(matches!(g.state, State::Finished));
}
