use cowboy::authority::to_snapshot;
use cowboy::maps::{default_map, initial_players};
use cowboy::types::{
    CommandEnvelope, CommandSource, CommandType, GameInstanceResponse, GameStateSnapshot,
    GameStatus, MapSource, ResultStatus, StepEvent, StepEventType,
};
use cowboy::watcher::{
    frame_kind, is_game_finished_step, is_shoot_step, is_speak_step, is_timeout_step, FrameKind,
    PollFrame, StreamCursor,
};

fn timeout_step(event_type: StepEventType, command_type: Option<CommandType>) -> StepEvent {
    let command = command_type.map(|kind| CommandEnvelope {
        command_id: "cmd-1".to_string(),
        source: CommandSource::Timer,
        game_id: "game-1".to_string(),
        player_id: Some("Up".to_string()),
        command_type: kind,
        direction: None,
        speak_text: None,
        turn_no: 4,
        sent_at: 0,
    });

    StepEvent {
        game_id: "game-1".to_string(),
        step_seq: 8,
        turn_no: 4,
        round_no: 2,
        event_type,
        result_status: ResultStatus::TimeoutApplied,
        command,
        state_after: GameStateSnapshot {
            map: default_map(),
            players: initial_players(11, 11, 10, 4),
        },
        created_at: 0,
    }
}

#[test]
fn timeout_detection_matches_timeout_applied_event_type() {
    let step = timeout_step(StepEventType::TimeoutApplied, Some(CommandType::Move));
    assert!(is_timeout_step(&step));
}

#[test]
fn timeout_detection_matches_timeout_command_type() {
    let step = timeout_step(StepEventType::StepApplied, Some(CommandType::Timeout));
    assert!(is_timeout_step(&step));
}

#[test]
fn timeout_detection_ignores_non_timeout_steps() {
    let step = timeout_step(StepEventType::StepApplied, Some(CommandType::Move));
    assert!(!is_timeout_step(&step));
}

#[test]
fn speak_detection_matches_applied_speak_step() {
    let mut step = timeout_step(StepEventType::StepApplied, Some(CommandType::Speak));
    step.result_status = ResultStatus::Applied;
    if let Some(command) = step.command.as_mut() {
        command.speak_text = Some("hello".to_string());
    }
    assert!(is_speak_step(&step));
}

#[test]
fn speak_detection_ignores_non_applied_speak_step() {
    let step = timeout_step(StepEventType::StepApplied, Some(CommandType::Speak));
    assert!(!is_speak_step(&step));
}

#[test]
fn game_finished_detection_matches_event_type() {
    let step = timeout_step(StepEventType::GameFinished, Some(CommandType::Move));
    assert!(is_game_finished_step(&step));
}

#[test]
fn shoot_detection_matches_applied_shoot_step() {
    let mut step = timeout_step(StepEventType::StepApplied, Some(CommandType::Shoot));
    step.result_status = ResultStatus::Applied;
    assert!(is_shoot_step(&step));
}

#[test]
fn shoot_detection_ignores_non_applied_shoot_step() {
    let step = timeout_step(StepEventType::StepApplied, Some(CommandType::Shoot));
    assert!(!is_shoot_step(&step));
}

#[test]
fn shoot_detection_ignores_non_shoot_commands() {
    let mut step = timeout_step(StepEventType::StepApplied, Some(CommandType::Move));
    step.result_status = ResultStatus::Applied;
    assert!(!is_shoot_step(&step));
}

#[test]
fn to_snapshot_uses_turn_number_as_cursor() {
    let now = 1_700_000_000_000;
    let game = GameInstanceResponse {
        game_id: "game-1".to_string(),
        status: GameStatus::Running,
        map_source: MapSource::Default,
        turn_timeout_seconds: 10,
        turn_no: 7,
        round_no: 2,
        current_player_id: "Right".to_string(),
        created_at: now,
        started_at: Some(now),
        turn_started_at: Some(now),
        input_topic: Some("game.commands.game-1.v1".to_string()),
        output_topic: Some("game.output.game-1.v1".to_string()),
        state: GameStateSnapshot {
            map: default_map(),
            players: initial_players(11, 11, 10, 4),
        },
    };

    let snapshot = to_snapshot(game);
    assert_eq!(snapshot.turn_no, 7);
    assert_eq!(snapshot.last_step_seq, 7);
    assert_eq!(snapshot.status, GameStatus::Running);
}

#[test]
fn stream_cursor_sends_first_snapshot_then_only_changes() {
    let mut cursor = StreamCursor::new(0);
    assert_eq!(cursor.on_snapshot(GameStatus::Created, 1), Some(PollFrame::Snapshot));
    assert_eq!(cursor.on_snapshot(GameStatus::Created, 1), None);
    assert_eq!(cursor.on_snapshot(GameStatus::Running, 1), Some(PollFrame::GameStarted));
    assert_eq!(cursor.on_snapshot(GameStatus::Running, 2), Some(PollFrame::Snapshot));
    assert_eq!(cursor.last_sent_turn_no, 2);
    assert_eq!(cursor.on_snapshot(GameStatus::Finished, 2), Some(PollFrame::GameFinished));
    cursor.on_pushed(GameStatus::Finished, 5);
    assert_eq!(cursor.on_snapshot(GameStatus::Finished, 4), None);
}

#[test]
fn typed_frames_follow_event_then_command() {
    let step = timeout_step(StepEventType::TimeoutApplied, Some(CommandType::Move));
    assert_eq!(frame_kind(&step), FrameKind::Timeout);
    let step = timeout_step(StepEventType::StepApplied, Some(CommandType::Shield));
    assert_eq!(frame_kind(&step).as_str(), "SHIELD");
    let step = timeout_step(StepEventType::StepApplied, None);
    assert_eq!(frame_kind(&step).as_str(), "STEP_APPLIED");
    let step = timeout_step(StepEventType::GameFinished, None);
    assert_eq!(frame_kind(&step), FrameKind::GameFinished);
}
