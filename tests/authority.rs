use cowboy::authority::{create_game, CreateGameError, GameInstance};
use cowboy::maps::default_map;
use cowboy::rules::RejectReason;
use cowboy::topics::game_topics;
use cowboy::types::{
    CommandType, CreateGameRequest, Direction, GameStatus, MapData, MapSource, PlayerName,
    StepEventType, SubmitCommandRequest, DEFAULT_PLAYER_HP,
};

fn custom_map(rows: usize, cols: usize) -> MapData {
    MapData { rows, cols, cells: vec![vec![0; cols]; rows] }
}

fn new_game(map: Option<MapData>, num_players: Option<u8>) -> GameInstance {
    create_game(
        "game-1".to_string(),
        "game.commands.game-1.v1".to_string(),
        "game.output.game-1.v1".to_string(),
        CreateGameRequest { turn_timeout_seconds: None, map, bot_players: None, num_players },
        default_map(),
        1_000,
    )
    .unwrap()
}

fn started_game() -> GameInstance {
    let mut game = new_game(Some(custom_map(5, 5)), Some(4));
    let (outcome, event) = game.start(2_000);
    assert!(outcome.started);
    assert!(event.is_some());
    game
}

fn pid(game: &GameInstance, name: PlayerName) -> String {
    game.state.players.iter().find(|p| p.player_name == name).unwrap().player_id.clone()
}

fn request(game: &GameInstance, id: &str, name: PlayerName, kind: CommandType, dir: Option<Direction>, text: Option<&str>) -> SubmitCommandRequest {
    SubmitCommandRequest {
        command_id: id.to_string(),
        player_id: pid(game, name),
        command_type: kind,
        direction: dir,
        speak_text: text.map(|t| t.to_string()),
        turn_no: game.turn_no,
        client_sent_at: 3_000,
    }
}

#[test]
fn create_game_without_map_uses_default_map() {
    let game = new_game(None, None);
    assert_eq!(game.map_source, MapSource::Default);
    assert_eq!(game.status, GameStatus::Created);
    assert_eq!(game.state.map.rows, 11);
    assert_eq!(game.state.map.cols, 11);
    assert_eq!(game.turn_no, 1);
    assert_eq!(game.round_no, 1);
    assert_eq!(game.turn_timeout_seconds, 120);
    assert_eq!(game.state.players.len(), 2);
    assert_eq!(game.current_player_id, pid(&game, PlayerName::A));
    assert_eq!(game.identities().len(), 2);
}

#[test]
fn create_game_with_custom_map_uses_custom_source() {
    let game = new_game(Some(custom_map(15, 15)), Some(4));
    assert_eq!(game.map_source, MapSource::Custom);
    assert_eq!(game.state.map.rows, 15);
    assert_eq!(game.state.players.len(), 4);
    let c = game.state.players.iter().find(|p| p.player_name == PlayerName::C).unwrap();
    assert_eq!((c.row, c.col), (14, 7));
}

#[test]
fn create_game_clamps_timeout_and_rejects_ragged_map() {
    let game = create_game(
        "g".to_string(),
        "i".to_string(),
        "o".to_string(),
        CreateGameRequest { turn_timeout_seconds: Some(0), map: None, bot_players: None, num_players: Some(3) },
        default_map(),
        0,
    )
    .unwrap();
    assert_eq!(game.turn_timeout_seconds, 1);
    let ragged = MapData { rows: 2, cols: 2, cells: vec![vec![0, 0], vec![0]] };
    let err = create_game(
        "g".to_string(),
        "i".to_string(),
        "o".to_string(),
        CreateGameRequest { turn_timeout_seconds: None, map: Some(ragged), bot_players: None, num_players: None },
        default_map(),
        0,
    )
    .unwrap_err();
    assert_eq!(err, CreateGameError::InvalidMap);
}

#[test]
fn start_game_is_idempotent_for_running_game() {
    let mut game = started_game();
    assert_eq!(game.status, GameStatus::Running);
    assert_eq!(game.last_step_seq, 1);
    let (second, event) = game.start(9_000);
    assert!(!second.started);
    assert_eq!(second.reason.unwrap().as_str(), "ALREADY_RUNNING");
    assert!(event.is_none());
    assert_eq!(game.started_at, Some(2_000));
    assert_eq!(game.last_step_seq, 1);
}

#[test]
fn start_game_emits_game_started_event() {
    let mut game = new_game(Some(custom_map(5, 5)), Some(2));
    let (_, event) = game.start(2_000);
    let event = event.unwrap();
    assert_eq!(event.event_type, StepEventType::GameStarted);
    assert_eq!(event.step_seq, 1);
    assert_eq!(event.game_id, "game-1");
    assert_eq!(event.created_at, 2_000);
}

#[test]
fn shoot_toward_own_shield_is_rejected_without_turn_advance() {
    let mut game = started_game();
    let player_a = pid(&game, PlayerName::A);
    let req = request(&game, "cmd-own-shield", PlayerName::A, CommandType::Shoot, Some(Direction::Up), None);
    let response = game.apply_command(&req, 3_000);
    assert!(response.accepted);
    assert!(!response.applied);
    assert_eq!(response.reason.unwrap().as_str(), "CANNOT_SHOOT_THROUGH_OWN_SHIELD");
    assert_eq!(response.turn_no, 1);
    assert_eq!(response.current_player_id, player_a);
}

#[test]
fn shoot_down_sweeps_perpendicular_without_damage() {
    let mut game = started_game();
    let player_b = pid(&game, PlayerName::B);
    let req = request(&game, "cmd-shoot-down", PlayerName::A, CommandType::Shoot, Some(Direction::Down), None);
    let response = game.apply_command(&req, 3_000);
    assert!(response.accepted);
    assert!(response.applied);
    assert_eq!(response.turn_no, 2);
    assert_eq!(response.round_no, 1);
    assert_eq!(response.current_player_id, player_b);
    let c = game.state.players.iter().find(|p| p.player_name == PlayerName::C).unwrap();
    assert_eq!(c.hp, DEFAULT_PLAYER_HP);
    assert!(game.state.players.iter().all(|p| p.hp == DEFAULT_PLAYER_HP));
}

#[test]
fn shoot_sweep_hits_player_in_line() {
    // A at (0,2) shoots Left: the beam enters (0,1) and sweeps Up (edge) and
    // Down along column 1; B stands at (2,1) after moving right.
    let mut game = started_game();
    let req = request(&game, "a-speak", PlayerName::A, CommandType::Speak, None, Some("hi"));
    assert!(game.apply_command(&req, 1).applied);
    let req = request(&game, "b-move", PlayerName::B, CommandType::Move, Some(Direction::Right), None);
    assert!(game.apply_command(&req, 2).applied);
    let req = request(&game, "c-speak", PlayerName::C, CommandType::Speak, None, Some("hi"));
    assert!(game.apply_command(&req, 3).applied);
    let req = request(&game, "d-speak", PlayerName::D, CommandType::Speak, None, Some("hi"));
    let r = game.apply_command(&req, 4);
    assert_eq!(r.round_no, 2);
    let req = request(&game, "a-shoot", PlayerName::A, CommandType::Shoot, Some(Direction::Left), None);
    assert!(game.apply_command(&req, 5).applied);
    let b = game.state.players.iter().find(|p| p.player_name == PlayerName::B).unwrap();
    assert_eq!((b.row, b.col), (2, 1));
    assert_eq!(b.hp, DEFAULT_PLAYER_HP - 1);
    assert!(b.alive);
}

#[test]
fn shield_blocks_incoming_beam_and_walls_lose_hit_points() {
    let mut map = custom_map(5, 5);
    map.cells[1][0] = 2;
    map.cells[1][4] = -1;
    let mut game = new_game(Some(map), Some(4));
    game.start(0);
    let req = request(&game, "a-down", PlayerName::A, CommandType::Shoot, Some(Direction::Down), None);
    assert!(game.apply_command(&req, 1).applied);
    assert_eq!(game.state.map.cells[1][0], 1);
    assert_eq!(game.state.map.cells[1][4], -1);
}

#[test]
fn speak_advances_turn_without_state_damage() {
    let mut game = started_game();
    let player_b = pid(&game, PlayerName::B);
    let req = request(&game, "cmd-speak", PlayerName::A, CommandType::Speak, None, Some("hello"));
    let response = game.apply_command(&req, 3_000);
    assert!(response.accepted);
    assert!(response.applied);
    assert_eq!(response.turn_no, 2);
    assert_eq!(response.current_player_id, player_b);
    let c = game.state.players.iter().find(|p| p.player_name == PlayerName::C).unwrap();
    assert_eq!(c.hp, DEFAULT_PLAYER_HP);
}

#[test]
fn speak_without_text_is_rejected_without_turn_advance() {
    let mut game = started_game();
    let player_a = pid(&game, PlayerName::A);
    let req = request(&game, "cmd-speak-empty", PlayerName::A, CommandType::Speak, None, Some("   "));
    let response = game.apply_command(&req, 3_000);
    assert!(response.accepted);
    assert!(!response.applied);
    assert_eq!(response.reason.unwrap().as_str(), "MISSING_SPEAK_TEXT");
    assert_eq!(response.turn_no, 1);
    assert_eq!(response.current_player_id, player_a);
}

#[test]
fn move_rules_reject_edge_and_walls() {
    let mut map = custom_map(5, 5);
    map.cells[1][2] = 1;
    let mut game = new_game(Some(map), Some(4));
    game.start(0);
    let req = request(&game, "m1", PlayerName::A, CommandType::Move, Some(Direction::Up), None);
    assert_eq!(game.apply_command(&req, 1).reason, Some(RejectReason::MoveOutOfBounds));
    let req = request(&game, "m2", PlayerName::A, CommandType::Move, Some(Direction::Down), None);
    assert_eq!(game.apply_command(&req, 1).reason, Some(RejectReason::MoveBlockedByBlock));
    let req = request(&game, "m3", PlayerName::A, CommandType::Move, None, None);
    assert_eq!(game.apply_command(&req, 1).reason, Some(RejectReason::MissingDirection));
    let req = request(&game, "m4", PlayerName::A, CommandType::Move, Some(Direction::Left), None);
    let r = game.apply_command(&req, 1);
    assert!(r.applied);
    let a = game.state.players.iter().find(|p| p.player_name == PlayerName::A).unwrap();
    assert_eq!((a.row, a.col), (0, 1));
}

#[test]
fn commands_out_of_turn_are_refused() {
    let mut game = new_game(Some(custom_map(5, 5)), Some(2));
    let req = request(&game, "x", PlayerName::A, CommandType::Speak, None, Some("hi"));
    assert_eq!(game.apply_command(&req, 0).reason, Some(RejectReason::GameNotRunning));
    game.start(0);
    let req = request(&game, "y", PlayerName::B, CommandType::Speak, None, Some("hi"));
    assert_eq!(game.apply_command(&req, 0).reason, Some(RejectReason::InvalidTurnPlayer));
    let mut req = request(&game, "z", PlayerName::A, CommandType::Speak, None, Some("hi"));
    req.turn_no = 7;
    let r = game.apply_command(&req, 0);
    assert!(!r.accepted);
    assert_eq!(r.reason, Some(RejectReason::StaleTurnNo));
}

#[test]
fn finish_game_marks_status_when_one_player_left() {
    let mut game = started_game();
    let player_a = pid(&game, PlayerName::A);
    for player in &mut game.state.players {
        if player.player_id != player_a {
            player.alive = false;
            player.hp = 0;
        }
    }
    let (finished, event) = game.finish(Some(1), 5_000);
    assert!(finished.finished);
    assert_eq!(finished.status, GameStatus::Finished);
    assert_eq!(finished.winner_player_id, Some(player_a));
    let event = event.unwrap();
    assert_eq!(event.event_type, StepEventType::GameFinished);
    assert_eq!(event.step_seq, 2);
    assert_eq!(game.last_step_seq, 2);
    assert_eq!(game.current_player_id, "");
    assert!(game.state.players.iter().all(|p| p.player_id != game.current_player_id));

    let (again, event) = game.finish(Some(1), 6_000);
    assert!(!again.finished);
    assert_eq!(again.reason.unwrap().as_str(), "ALREADY_FINISHED");
    assert!(event.is_none());
}

#[test]
fn finish_game_refuses_stale_turn_and_many_alive() {
    let mut game = started_game();
    let (r, _) = game.finish(Some(4), 0);
    assert_eq!(r.reason, Some(RejectReason::StaleTurnNo));
    let (r, _) = game.finish(None, 0);
    assert_eq!(r.reason, Some(RejectReason::NotLastPlayerLeft));
    assert_eq!(game.status, GameStatus::Running);
}

#[test]
fn get_game_reports_topics() {
    let game = started_game();
    let view = game.to_response();
    assert_eq!(view.input_topic, Some("game.commands.game-1.v1".to_string()));
    assert_eq!(view.output_topic, Some("game.output.game-1.v1".to_string()));
    assert_eq!(view.state.players.len(), 4);
}

#[test]
fn shot_off_the_map_is_blocked_by_edge() {
    let mut game = started_game();
    let req = request(&game, "a-shield", PlayerName::A, CommandType::Shield, Some(Direction::Down), None);
    assert!(game.apply_command(&req, 1).applied);
    for (i, name) in [PlayerName::B, PlayerName::C, PlayerName::D].iter().enumerate() {
        let req = request(&game, &format!("s{i}"), *name, CommandType::Speak, None, Some("pass"));
        assert!(game.apply_command(&req, 2).applied);
    }
    let before: Vec<(usize, usize, i32)> = game.state.players.iter().map(|p| (p.row, p.col, p.hp)).collect();
    let turn = game.turn_no;
    let req = request(&game, "a-up", PlayerName::A, CommandType::Shoot, Some(Direction::Up), None);
    let r = game.apply_command(&req, 3);
    assert!(!r.applied);
    assert_eq!(r.reason.unwrap().as_str(), "SHOOT_BLOCKED_BY_EDGE");
    assert_eq!(game.turn_no, turn);
    let after: Vec<(usize, usize, i32)> = game.state.players.iter().map(|p| (p.row, p.col, p.hp)).collect();
    assert_eq!(before, after);
}

#[test]
fn current_player_stays_alive_while_running() {
    let mut game = started_game();
    for i in 0..12 {
        let name = game.state.players.iter().find(|p| p.player_id == game.current_player_id).unwrap().player_name;
        let req = request(&game, &format!("c{i}"), name, CommandType::Timeout, None, None);
        game.apply_command(&req, i);
        let current = game.state.players.iter().find(|p| p.player_id == game.current_player_id).unwrap();
        assert!(current.alive);
    }
    assert_eq!(game.turn_no, 13);
    assert_eq!(game.round_no, 4);
}

#[test]
fn create_game_provisions_per_game_topics() {
    let topics = game_topics("record.commands", "record.output", "g-42");
    let game = create_game(
        "g-42".to_string(),
        topics.input_topic,
        topics.output_topic,
        CreateGameRequest { turn_timeout_seconds: Some(30), map: None, bot_players: None, num_players: Some(4) },
        default_map(),
        0,
    )
    .unwrap();
    let view = game.to_response();
    assert_eq!(view.input_topic, Some(format!("record.commands.{}.v1", "g-42")));
    assert_eq!(view.output_topic, Some(format!("record.output.{}.v1", "g-42")));
    assert_eq!(view.turn_timeout_seconds, 30);
    let created = game.create_response();
    assert_eq!(created.players.len(), 4);
    assert_eq!(created.players[3].player_name, PlayerName::D);
}
