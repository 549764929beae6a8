use cowboy::bot::{
    build_bot_command, build_llm_failure_speak_text, command_from_decision,
    is_supported_bot_command, llm_failure_message_from_decision, AgentDecision, BotSeat,
    BotTurnState, CommandSelectionSource, DecisionValidationError, TurnDecision,
};
use cowboy::text::{normalize_optional_string, trim, truncate_chars_with_ellipsis, truncate_log_field};
use cowboy::types::{CommandSource, CommandType, Direction};

fn seat() -> BotSeat {
    BotSeat { bot_id: "bot7".to_string(), game_id: "g1".to_string(), player_id: "p2".to_string() }
}

fn decision(kind: CommandType, dir: Option<Direction>, text: Option<&str>) -> AgentDecision {
    AgentDecision {
        command_type: kind,
        direction: dir,
        speak_text: text.map(|t| t.to_string()),
        decision_source: None,
        llm_error: None,
    }
}

#[test]
fn supported_bot_commands() {
    assert!(is_supported_bot_command(CommandType::Move));
    assert!(is_supported_bot_command(CommandType::Speak));
    assert!(!is_supported_bot_command(CommandType::Timeout));
    assert!(!is_supported_bot_command(CommandType::GameStarted));
}

#[test]
fn decision_becomes_command() {
    let c = command_from_decision(&seat(), 5, &decision(CommandType::Shoot, Some(Direction::Up), None), 99).unwrap();
    assert_eq!(c.command_id, "bot-bot7-5-99");
    assert_eq!(c.source, CommandSource::Bot);
    assert_eq!(c.player_id, Some("p2".to_string()));
    assert_eq!(c.direction, Some(Direction::Up));
    let c = command_from_decision(&seat(), 5, &decision(CommandType::Speak, Some(Direction::Up), Some("  hey  ")), -3).unwrap();
    assert_eq!(c.speak_text, Some("hey".to_string()));
    assert_eq!(c.direction, None);
    assert_eq!(c.command_id, "bot-bot7-5--3");
}

#[test]
fn unusable_decisions_are_rejected() {
    let e = command_from_decision(&seat(), 1, &decision(CommandType::Timeout, None, None), 0).unwrap_err();
    assert_eq!(e, DecisionValidationError::UnsupportedCommandType);
    let e = command_from_decision(&seat(), 1, &decision(CommandType::Speak, None, Some(" ")), 0).unwrap_err();
    assert_eq!(e.as_str(), "missing_speak_text");
    let e = command_from_decision(&seat(), 1, &decision(CommandType::Move, None, None), 0).unwrap_err();
    assert_eq!(e, DecisionValidationError::MissingDirection);
}

#[test]
fn failure_speak_text_is_squeezed_and_clipped() {
    assert_eq!(build_llm_failure_speak_text("  model\n timed   out "), "bot fail:model timed out");
    assert_eq!(build_llm_failure_speak_text(" \t "), "bot fail:unknown error");
    let long = "x".repeat(200);
    let text = build_llm_failure_speak_text(&long);
    assert_eq!(text.chars().count(), 140);
    assert!(text.ends_with("..."));
}

#[test]
fn bot_command_selection_order() {
    let s = seat();
    let msg = "  agent crashed ".to_string();
    let (c, src) = build_bot_command(&s, 3, None, Some(&msg), 7);
    assert_eq!(src, CommandSelectionSource::LlmFailureSpeak);
    assert_eq!(c.speak_text, Some("bot fail:agent crashed".to_string()));

    let mut d = decision(CommandType::Move, Some(Direction::Down), None);
    d.decision_source = Some(" Python_Fallback ".to_string());
    d.llm_error = Some(" quota ".to_string());
    assert_eq!(llm_failure_message_from_decision(&d), Some("quota".to_string()));
    let (c, src) = build_bot_command(&s, 3, Some(&d), None, 7);
    assert_eq!(src, CommandSelectionSource::LlmFailureSpeak);
    assert_eq!(c.speak_text, Some("bot fail:quota".to_string()));

    let mut bad = decision(CommandType::Shield, None, None);
    bad.decision_source = Some("llm".to_string());
    let (c, src) = build_bot_command(&s, 3, Some(&bad), None, 7);
    assert_eq!(src, CommandSelectionSource::RustFallback);
    assert_eq!(src.as_str(), "rust_fallback");
    assert_eq!(c.speak_text, Some("bot fail:invalid decision: missing_direction; source=llm".to_string()));

    let good = decision(CommandType::Shield, Some(Direction::Left), None);
    let (c, src) = build_bot_command(&s, 3, Some(&good), None, 7);
    assert_eq!(src, CommandSelectionSource::PythonAgent);
    assert_eq!(c.command_type, CommandType::Shield);

    let (c, src) = build_bot_command(&s, 3, None, None, 7);
    assert_eq!(src, CommandSelectionSource::RustFallback);
    assert_eq!(c.speak_text, Some("bot fail:fallback policy used".to_string()));
}

#[test]
fn bot_turn_state_retries_twice_then_waits() {
    let mut st = BotTurnState::new();
    assert_eq!(st.on_step(true, 1, false), TurnDecision::AskAgent { force_speak: true });
    st.on_published(1, CommandType::Speak);
    assert!(st.has_spoken_once);
    assert_eq!(st.on_step(true, 1, true), TurnDecision::Fallback);
    st.on_published(1, CommandType::Speak);
    assert_eq!(st.on_step(true, 1, true), TurnDecision::Fallback);
    st.on_published(1, CommandType::Speak);
    assert_eq!(st.on_step(true, 1, true), TurnDecision::Wait);
    assert_eq!(st.on_step(false, 2, false), TurnDecision::Wait);
    assert_eq!(st.retry_count, 0);
    assert_eq!(st.on_step(true, 3, false), TurnDecision::AskAgent { force_speak: false });
}

#[test]
fn text_helpers() {
    assert_eq!(trim("\u{3000} a b \n"), "a b");
    assert_eq!(truncate_chars_with_ellipsis("abcdef", 3), "...");
    assert_eq!(truncate_chars_with_ellipsis("abcdef", 5), "ab...");
    assert_eq!(truncate_chars_with_ellipsis("abc", 5), "abc");
    assert_eq!(normalize_optional_string(Some("  x ".to_string())), Some("x".to_string()));
    assert_eq!(normalize_optional_string(Some("   ".to_string())), None);
    assert_eq!(truncate_log_field(Some("  hello world "), 5), "hello...[truncated]");
    assert_eq!(truncate_log_field(None, 5), "");
}
