use cowboy::bindings::{
    binding_step, created_bot_id, plan_assignment, plan_bind, rebind, Assignment, BindError,
    BindingStep, BotBinding,
};
use cowboy::manager::AssignmentError;
use cowboy::maps::initial_players;
use cowboy::records::step_record;
use cowboy::rules::RejectReason;
use cowboy::types::{
    CommandEnvelope, CommandSource, CommandType, Direction, GameStateSnapshot, PlayerName,
    ResultStatus, StepEvent, StepEventType,
};
use cowboy::maps::default_map;

fn binding(player_id: &str, name: PlayerName, bot: &str, host: &str) -> BotBinding {
    BotBinding {
        player_name: name,
        player_id: player_id.to_string(),
        bot_id: bot.to_string(),
        bot_service_base_url: host.to_string(),
        status: "READY".to_string(),
        game_guide_version: "v1".to_string(),
    }
}

#[test]
fn assignment_plan_binds_bots_and_deletes_dropped_ones() {
    let players = initial_players(11, 11, 10, 3);
    let a = players[0].player_id.clone();
    let b = players[1].player_id.clone();
    let c = players[2].player_id.clone();
    let previous = vec![binding(&a, PlayerName::A, "bot-a", "h1"), binding(&b, PlayerName::B, "bot-b", "h1")];
    let plan = plan_assignment(&players, &vec![a.clone()], &vec![b.clone(), c.clone()], &previous, true).unwrap();
    assert_eq!(plan.humans, vec![(a.clone(), PlayerName::A)]);
    assert_eq!(plan.to_bind.len(), 2);
    assert_eq!(plan.to_bind[0].player_name, PlayerName::B);
    assert_eq!(plan.to_bind[0].existing_bot_id, Some("bot-b".to_string()));
    assert_eq!(plan.to_bind[1].existing_bot_id, None);
    assert!(plan.kept.is_empty());
    assert_eq!(plan.to_delete.len(), 1);
    assert_eq!(plan.to_delete[0].bot_id, "bot-a");

    let later = plan_assignment(&players, &vec![a.clone()], &vec![b.clone()], &previous, false).unwrap();
    assert!(later.to_bind.is_empty());
    assert_eq!(later.kept.len(), 1);
    assert_eq!(later.kept[0].bot_id, "bot-b");

    let err = plan_assignment(&players, &vec![a.clone()], &vec![a.clone()], &previous, true).unwrap_err();
    assert_eq!(err, AssignmentError::Overlap);
}

#[test]
fn bind_plan_needs_a_player_and_a_bot_id() {
    let players = initial_players(11, 11, 10, 2);
    let b = players[1].player_id.clone();
    assert_eq!(plan_bind(&players, &"nobody".to_string(), None, None, None), Err(BindError::PlayerNotInGame));
    assert_eq!(plan_bind(&players, &b, None, None, Some(false)), Err(BindError::BotIdRequired));
    assert_eq!(plan_bind(&players, &b, None, None, None), Ok((PlayerName::B, None)));
    assert_eq!(
        plan_bind(&players, &b, Some("x".to_string()), Some("y".to_string()), Some(false)),
        Ok((PlayerName::B, Some("x".to_string())))
    );
    assert_eq!(plan_bind(&players, &b, None, Some("y".to_string()), Some(false)), Ok((PlayerName::B, Some("y".to_string()))));
}

#[test]
fn rebind_replaces_binding_and_human() {
    let mut a = Assignment {
        game_id: "g".to_string(),
        humans: vec![("p1".to_string(), PlayerName::A), ("p2".to_string(), PlayerName::B)],
        bindings: vec![binding("p3", PlayerName::C, "bot-3", "h1")],
    };
    let replaced = rebind(&mut a, binding("p2", PlayerName::B, "bot-2", "h1"));
    assert!(replaced.is_none());
    assert_eq!(a.humans, vec![("p1".to_string(), PlayerName::A)]);
    assert_eq!(a.bindings.len(), 2);
    let replaced = rebind(&mut a, binding("p3", PlayerName::C, "bot-9", "h1")).unwrap();
    assert_eq!(replaced.bot_id, "bot-3");
    assert_eq!(a.bindings.len(), 2);
    assert!(a.bindings.iter().any(|x| x.player_id == "p3" && x.bot_id == "bot-9"));
    assert!(rebind(&mut a, binding("p3", PlayerName::C, "bot-9", "h1")).is_none());
}

#[test]
fn binding_steps() {
    assert_eq!(binding_step(true, false), BindingStep::Reuse);
    assert_eq!(binding_step(true, true), BindingStep::Recreate { delete_previous: true });
    assert_eq!(binding_step(false, false), BindingStep::Recreate { delete_previous: false });
    assert_eq!(created_bot_id(Some("new".to_string()), Some("want".to_string())), Some("new".to_string()));
    assert_eq!(created_bot_id(None, Some("want".to_string())), Some("want".to_string()));
}

fn step(command: Option<CommandEnvelope>) -> StepEvent {
    StepEvent {
        game_id: "g7".to_string(),
        step_seq: 42,
        turn_no: 3,
        round_no: 1,
        event_type: StepEventType::StepApplied,
        result_status: ResultStatus::InvalidCommand,
        command,
        state_after: GameStateSnapshot { map: default_map(), players: initial_players(11, 11, 10, 2) },
        created_at: 5,
    }
}

#[test]
fn step_records_name_system_steps_and_drop_blank_speech() {
    let r = step_record(&step(None), None);
    assert_eq!(r.command_id, "system-g7-42");
    assert_eq!(r.source, None);
    assert_eq!(r.command_type, None);
    let cmd = CommandEnvelope {
        command_id: "c1".to_string(),
        source: CommandSource::Bot,
        game_id: "g7".to_string(),
        player_id: Some("p".to_string()),
        command_type: CommandType::Speak,
        direction: Some(Direction::Up),
        speak_text: Some("  ".to_string()),
        turn_no: 3,
        sent_at: 0,
    };
    let r = step_record(&step(Some(cmd)), Some(RejectReason::MissingSpeakText));
    assert_eq!(r.command_id, "c1");
    assert_eq!(r.source, Some(CommandSource::Bot));
    assert_eq!(r.direction, Some(Direction::Up));
    assert_eq!(r.speak_text, None);
    assert_eq!(r.result_reason, Some(RejectReason::MissingSpeakText));
    assert_eq!(r.step_seq, 42);
}
