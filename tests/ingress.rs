use cowboy::ingress::{user_envelope, validate_user_command, CommandRejection};
use cowboy::types::{CommandSource, CommandType, Direction, SubmitCommandRequest};

fn make_request(command_type: CommandType, direction: Option<Direction>) -> SubmitCommandRequest {
    SubmitCommandRequest {
        command_id: "cmd-1".to_string(),
        player_id: "Up".to_string(),
        command_type,
        direction,
        speak_text: None,
        turn_no: 1,
        client_sent_at: 0,
    }
}

#[test]
fn validate_user_command_rejects_reserved_types() {
    let timeout_req = make_request(CommandType::Timeout, None);
    let started_req = make_request(CommandType::GameStarted, None);

    let timeout_err = validate_user_command(&timeout_req).unwrap_err();
    let started_err = validate_user_command(&started_req).unwrap_err();

    assert_eq!(timeout_err, CommandRejection::ReservedCommandType);
    assert_eq!(started_err, CommandRejection::ReservedCommandType);
}

#[test]
fn validate_user_command_requires_direction_for_non_timeout_commands() {
    let move_req = make_request(CommandType::Move, None);
    let shield_req = make_request(CommandType::Shield, None);
    let shoot_req = make_request(CommandType::Shoot, None);

    assert!(validate_user_command(&move_req).is_err());
    assert!(validate_user_command(&shield_req).is_err());
    assert!(validate_user_command(&shoot_req).is_err());
}

#[test]
fn validate_user_command_accepts_valid_move_request() {
    let req = make_request(CommandType::Move, Some(Direction::Left));
    assert!(validate_user_command(&req).is_ok());
}

#[test]
fn validate_user_command_requires_speak_text_for_speak() {
    let req = make_request(CommandType::Speak, None);
    assert!(validate_user_command(&req).is_err());
}

#[test]
fn validate_user_command_accepts_valid_speak_request() {
    let mut req = make_request(CommandType::Speak, None);
    req.speak_text = Some("hello cowboy".to_string());
    assert!(validate_user_command(&req).is_ok());
}

#[test]
fn validate_user_command_rejects_blank_id_and_blank_speak() {
    let mut req = make_request(CommandType::Move, Some(Direction::Up));
    req.command_id = " \t".to_string();
    assert_eq!(validate_user_command(&req), Err(CommandRejection::MissingCommandId));
    let mut req = make_request(CommandType::Speak, None);
    req.speak_text = Some("   ".to_string());
    assert_eq!(validate_user_command(&req), Err(CommandRejection::MissingSpeakText));
    assert_eq!(CommandRejection::MissingSpeakText.message(), "speak_text is required for speak commands");
}

#[test]
fn submitted_command_becomes_user_envelope() {
    let req = make_request(CommandType::Shoot, Some(Direction::Right));
    let command = user_envelope("game-123".to_string(), req.clone()).unwrap();
    assert_eq!(command.game_id, "game-123");
    assert_eq!(command.command_id, req.command_id);
    assert_eq!(command.command_type, CommandType::Shoot);
    assert_eq!(command.direction, Some(Direction::Right));
    assert_eq!(command.source, CommandSource::User);
    assert_eq!(command.player_id, Some("Up".to_string()));
}
