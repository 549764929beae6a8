use cowboy::manager::{
    check_assignment, control_action, dedupe_players, default_split, forward_action,
    game_status_value, parse_player_name, player_name_value, player_sort_key, select_bot_host,
    select_host, split_by_bot_seats, AssignmentError, ControlAction, ForwardAction,
};
use cowboy::template::expand_vars;
use cowboy::maps::initial_players;
use cowboy::topics::{game_topics, topic_pattern};
use cowboy::types::{GameStatus, PlayerName, StepEventType};

#[test]
fn seat_names_parse_and_print() {
    assert_eq!(parse_player_name(" b "), Some(PlayerName::B));
    assert_eq!(parse_player_name("D"), Some(PlayerName::D));
    assert_eq!(parse_player_name("E"), None);
    assert_eq!(parse_player_name("AB"), None);
    assert_eq!(player_name_value(PlayerName::C), "C");
    assert_eq!(game_status_value(GameStatus::Running), "RUNNING");
    assert_eq!(player_sort_key(PlayerName::D), 3);
}

#[test]
fn dedupe_keeps_first_occurrences() {
    let out = dedupe_players(vec![PlayerName::C, PlayerName::B, PlayerName::C, PlayerName::B, PlayerName::D]);
    assert_eq!(out, vec![PlayerName::C, PlayerName::B, PlayerName::D]);
}

#[test]
fn default_split_makes_seat_a_human() {
    let players = initial_players(11, 11, 10, 4);
    let (humans, bots) = default_split(&players);
    assert_eq!(humans, vec![0]);
    assert_eq!(bots, vec![1, 2, 3]);
}

#[test]
fn explicit_split_must_be_disjoint_and_known() {
    let players = initial_players(11, 11, 10, 2);
    let a = players[0].player_id.clone();
    let b = players[1].player_id.clone();
    assert_eq!(check_assignment(&players, &vec![a.clone()], &vec![b.clone()]), Ok(()));
    assert_eq!(check_assignment(&players, &vec![a.clone()], &vec![a.clone()]), Err(AssignmentError::Overlap));
    assert_eq!(check_assignment(&players, &vec![a], &vec!["zz".to_string()]), Err(AssignmentError::UnknownPlayer));
}

#[test]
fn host_selection_prefers_least_loaded() {
    assert_eq!(select_host(&vec![], 5), None);
    assert_eq!(select_host(&vec![3, 1, 1, 4], 5), Some((1, true)));
    assert_eq!(select_host(&vec![6, 7], 5), Some((0, false)));
}

#[test]
fn topics_are_named_per_game() {
    let t = game_topics("record.commands", "record.output", "abc");
    assert_eq!(t.input_topic, "record.commands.abc.v1");
    assert_eq!(t.output_topic, "record.output.abc.v1");
    assert_eq!(topic_pattern("game.commands"), "^game\\.commands\\..*\\.v1$");
}

#[test]
fn bot_seats_split_players() {
    let players = initial_players(11, 11, 10, 3);
    let (humans, bots) = split_by_bot_seats(&players, vec![PlayerName::C, PlayerName::B, PlayerName::C]).unwrap();
    assert_eq!(humans, vec![players[0].player_id.clone()]);
    assert_eq!(bots, vec![players[2].player_id.clone(), players[1].player_id.clone()]);
    assert_eq!(split_by_bot_seats(&players, vec![PlayerName::D]).unwrap_err(), PlayerName::D);
}

#[test]
fn preferred_host_wins_over_load() {
    let hosts = vec!["h1".to_string(), "h2".to_string()];
    let prev = "h1".to_string();
    assert_eq!(select_bot_host(Some(&prev), &hosts, &vec![9, 0], 5), Some(("h1".to_string(), true)));
    let blank = "  ".to_string();
    assert_eq!(select_bot_host(Some(&blank), &hosts, &vec![9, 0], 5), Some(("h2".to_string(), true)));
    assert_eq!(select_bot_host(None, &vec![], &vec![], 5), None);
}

#[test]
fn control_consumer_actions() {
    assert_eq!(control_action(StepEventType::GameStarted, false), ControlAction::Reconcile { assign_default: true });
    assert_eq!(control_action(StepEventType::GameFinished, true), ControlAction::StopBots);
    assert_eq!(control_action(StepEventType::StepApplied, true), ControlAction::Ignore);
    let g = "g".to_string();
    let h = "h".to_string();
    assert_eq!(forward_action(&h, &g, StepEventType::StepApplied), ForwardAction::Skip);
    assert_eq!(forward_action(&g, &g, StepEventType::GameFinished), ForwardAction::ForwardAndStop);
}

#[test]
fn placeholders_expand_from_table() {
    let vars = vec![("HOME".to_string(), "/root".to_string()), ("_X1".to_string(), "x".to_string())];
    assert_eq!(expand_vars("path=${HOME}/a ${_X1}${MISSING}!", &vars), "path=/root/a x!");
    assert_eq!(expand_vars("${1A} ${ } $HOME ${HOME", &vars), "${1A} ${ } $HOME ${HOME");
}
