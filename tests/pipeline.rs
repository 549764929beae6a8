use cowboy::authority::{create_game, GameInstance};
use cowboy::maps::default_map;
use cowboy::pipeline::{format_command_description, CommandLog, PipelineError};
use cowboy::rules::RejectReason;
use cowboy::timer::{
    action_for_step, build_timeout_command, game_still_waiting, is_fire_current, reschedule,
    StepAction,
};
use cowboy::types::{
    CommandEnvelope, CommandSource, CommandType, CreateGameRequest, Direction, GameStatus,
    MapData, PlayerName, ResultStatus, StepEventType,
};

fn game_on(map: MapData, players: u8, timeout: Option<u64>) -> GameInstance {
    let mut game = create_game(
        "game-1".to_string(),
        "game.commands.game-1.v1".to_string(),
        "game.output.game-1.v1".to_string(),
        CreateGameRequest { turn_timeout_seconds: timeout, map: Some(map), bot_players: None, num_players: Some(players) },
        default_map(),
        0,
    )
    .unwrap();
    game.start(10);
    game
}

fn empty_map(n: usize) -> MapData {
    MapData { rows: n, cols: n, cells: vec![vec![0; n]; n] }
}

fn pid(game: &GameInstance, name: PlayerName) -> String {
    game.state.players.iter().find(|p| p.player_name == name).unwrap().player_id.clone()
}

fn command(game: &GameInstance, id: &str, name: PlayerName, kind: CommandType, dir: Option<Direction>, text: Option<&str>) -> CommandEnvelope {
    CommandEnvelope {
        command_id: id.to_string(),
        source: CommandSource::User,
        game_id: game.game_id.clone(),
        player_id: Some(pid(game, name)),
        command_type: kind,
        direction: dir,
        speak_text: text.map(|t| t.to_string()),
        turn_no: game.turn_no,
        sent_at: 100,
    }
}

#[test]
fn duplicate_command_emits_step_without_mutation() {
    let mut game = game_on(empty_map(5), 4, None);
    let mut log = CommandLog::new();
    let cmd = command(&game, "cmd-move", PlayerName::A, CommandType::Move, Some(Direction::Left), None);
    let first = log.process_command(&mut game, cmd.clone(), 200).unwrap();
    assert_eq!(first.step.event_type, StepEventType::StepApplied);
    assert_eq!(first.result_status, ResultStatus::Applied);
    assert_eq!(first.step.turn_no, 2);
    assert_eq!(first.step.step_seq, 2);
    assert_eq!(game.last_step_seq, 2);
    let players_before: Vec<(usize, usize, i32)> = game.state.players.iter().map(|p| (p.row, p.col, p.hp)).collect();
    let turn_before = game.turn_no;
    let second = log.process_command(&mut game, cmd, 300).unwrap();
    assert_eq!(second.step.event_type, StepEventType::StepApplied);
    assert_eq!(second.result_status, ResultStatus::DuplicateCommand);
    assert_eq!(second.reason.unwrap().as_str(), "DUPLICATE_COMMAND");
    assert_eq!(game.turn_no, turn_before);
    let players_after: Vec<(usize, usize, i32)> = game.state.players.iter().map(|p| (p.row, p.col, p.hp)).collect();
    assert_eq!(players_before, players_after);
    assert_eq!(second.step.step_seq, 3);
    assert_eq!(game.last_step_seq, 3);
}

#[test]
fn invalid_bot_command_becomes_a_speak() {
    let mut map = empty_map(5);
    map.cells[1][0] = 2;
    let mut game = game_on(map, 4, None);
    let mut log = CommandLog::new();
    let a = command(&game, "a-1", PlayerName::A, CommandType::Speak, None, Some("hello"));
    log.process_command(&mut game, a, 200).unwrap();
    let mut shot = command(&game, "b-1", PlayerName::B, CommandType::Shoot, Some(Direction::Up), None);
    shot.source = CommandSource::Bot;
    let out = log.process_command(&mut game, shot, 300).unwrap();
    assert!(out.applied);
    assert_eq!(out.step.event_type, StepEventType::StepApplied);
    assert_eq!(out.result_status, ResultStatus::Applied);
    let played = out.step.command.unwrap();
    assert_eq!(played.command_type, CommandType::Speak);
    assert_eq!(played.speak_text, Some("invalid command: \"shoot up\"".to_string()));
    assert_eq!(played.direction, None);
    assert_eq!(game.current_player_id, pid(&game, PlayerName::C));
    assert_eq!(game.state.map.cells[1][0], 2);
}

#[test]
fn late_timeout_is_ignored() {
    let mut game = game_on(empty_map(5), 2, None);
    let mut log = CommandLog::new();
    let a = command(&game, "a-1", PlayerName::A, CommandType::Speak, None, Some("hi"));
    log.process_command(&mut game, a, 200).unwrap();
    let mut late = build_timeout_command(&game.game_id, 1, &pid(&game, PlayerName::A), 300);
    late.turn_no = 1;
    let out = log.process_command(&mut game, late, 300).unwrap();
    assert_eq!(out.reason.unwrap().as_str(), "LATE_TIMEOUT_IGNORED");
    assert_eq!(out.result_status, ResultStatus::IgnoredTimeout);
    assert_eq!(game.turn_no, 2);
}

#[test]
fn late_command_and_reserved_type_are_refused() {
    let mut game = game_on(empty_map(5), 2, None);
    let mut log = CommandLog::new();
    let mut started = command(&game, "s-1", PlayerName::A, CommandType::GameStarted, None, None);
    started.source = CommandSource::System;
    let out = log.process_command(&mut game, started, 1).unwrap();
    assert_eq!(out.reason, Some(RejectReason::ReservedCommandType));
    assert_eq!(out.result_status, ResultStatus::InvalidCommand);
    let mut late = command(&game, "l-1", PlayerName::A, CommandType::Speak, None, Some("hi"));
    late.turn_no = 0;
    let out = log.process_command(&mut game, late, 1).unwrap();
    assert_eq!(out.reason, Some(RejectReason::LateCommandIgnored));
    let mut anonymous = command(&game, "n-1", PlayerName::A, CommandType::Speak, None, Some("hi"));
    anonymous.player_id = None;
    assert_eq!(log.process_command(&mut game, anonymous, 1).unwrap_err(), PipelineError::MissingPlayerId);
    assert_eq!(game.turn_no, 1);
}

#[test]
fn wrong_player_is_not_converted() {
    let mut game = game_on(empty_map(5), 2, None);
    let mut log = CommandLog::new();
    let b = command(&game, "b-1", PlayerName::B, CommandType::Shoot, Some(Direction::Up), None);
    let out = log.process_command(&mut game, b, 1).unwrap();
    assert!(!out.applied);
    assert_eq!(out.result_status, ResultStatus::InvalidTurn);
    assert_eq!(out.step.command.unwrap().command_type, CommandType::Shoot);
}

#[test]
fn turn_timeout_fires_and_passes_the_turn() {
    let mut game = game_on(empty_map(5), 4, Some(1));
    let started = game.to_response();
    assert_eq!(started.status, GameStatus::Running);
    let (entry, seconds) = reschedule(None, game.status, game.turn_no, game.turn_timeout_seconds, 120, 10);
    assert_eq!(seconds, 1);
    let entry = entry.unwrap();
    assert_eq!(entry.generation, 1);
    assert!(is_fire_current(Some(entry), 1, 1));
    assert!(game_still_waiting(game.status, game.turn_no, 1));
    let timeout = build_timeout_command(&game.game_id, 1, &game.current_player_id, 1_210);
    assert_eq!(timeout.command_id, "timeout-game-1-1-1210");
    let mut log = CommandLog::new();
    let out = log.process_command(&mut game, timeout, 1_210).unwrap();
    assert_eq!(out.step.event_type, StepEventType::TimeoutApplied);
    assert_eq!(out.result_status, ResultStatus::TimeoutApplied);
    let cmd = out.step.command.clone().unwrap();
    assert_eq!(cmd.source, CommandSource::Timer);
    assert_eq!(cmd.turn_no, 1);
    assert_eq!(game.current_player_id, pid(&game, PlayerName::B));
    assert_eq!(action_for_step(&out.step), StepAction::Reschedule);
    let (next, _) = reschedule(Some(entry), game.status, game.turn_no, 1, 120, 1_300);
    assert_eq!(next.unwrap().generation, 2);
    assert!(!is_fire_current(next, 1, 1));
}

#[test]
fn last_player_standing_finishes_the_game() {
    let mut game = game_on(empty_map(5), 2, None);
    let mut log = CommandLog::new();
    let a = command(&game, "a-1", PlayerName::A, CommandType::Speak, None, Some("hi"));
    log.process_command(&mut game, a, 1).unwrap();
    let b = command(&game, "b-1", PlayerName::B, CommandType::Move, Some(Direction::Right), None);
    log.process_command(&mut game, b, 2).unwrap();
    for p in &mut game.state.players {
        if p.player_name == PlayerName::B {
            p.hp = 1;
        }
    }
    let shot = command(&game, "a-2", PlayerName::A, CommandType::Shoot, Some(Direction::Left), None);
    let out = log.process_command(&mut game, shot, 3).unwrap();
    assert!(out.applied);
    assert_eq!(game.status, GameStatus::Finished);
    let finished = out.finished.unwrap();
    assert_eq!(finished.event_type, StepEventType::GameFinished);
    assert_eq!(finished.step_seq, out.step.step_seq + 1);
    assert_eq!(game.last_step_seq, finished.step_seq);
    assert_eq!(game.current_player_id, "");
    let b = game.state.players.iter().find(|p| p.player_name == PlayerName::B).unwrap();
    assert_eq!(b.hp, 0);
    assert!(!b.alive);
    let after = command(&game, "a-3", PlayerName::A, CommandType::Speak, None, Some("gg"));
    let out = log.process_command(&mut game, after, 4).unwrap();
    assert_eq!(out.reason.unwrap().as_str(), "GAME_NOT_RUNNING");
}

#[test]
fn command_description_names_type_and_direction() {
    let game = game_on(empty_map(5), 2, None);
    let c = command(&game, "x", PlayerName::A, CommandType::Shoot, Some(Direction::Left), None);
    assert_eq!(format_command_description(&c), "shoot left");
    let c = command(&game, "x", PlayerName::A, CommandType::GameStarted, None, None);
    assert_eq!(format_command_description(&c), "game_started");
}
