//! The turn timer's decisions. Each game has at most one live entry whose
//! generation grows on every reset; a sleeper that wakes up to a different
//! generation or turn does nothing.

use vstd::prelude::*;
use crate::text::{decimal, push_decimal, push_signed_decimal, signed_decimal};
use crate::types::{
    CommandEnvelope, CommandSource, CommandType, GameStatus, ResultStatus, StepEvent,
    StepEventType,
};

verus! {

/// The timer entry of one game.
#[derive(Debug, Clone, Copy, PartialEq, Eq, Structural)]
pub struct TimerEntry {
    pub generation: u64,
    pub turn_no: u64,
    pub scheduled_at: i64,
}

/// A step restarts the countdown when the game starts or a turn passes.
pub open spec fn resets_timer(step: StepEvent) -> bool {
    step.event_type == StepEventType::GameStarted || step.result_status == ResultStatus::Applied
        || step.result_status == ResultStatus::TimeoutApplied
}

pub fn should_reset_timer(step: &StepEvent) -> (r: bool)
    ensures
        r == resets_timer(*step),
{
    if step.event_type == StepEventType::GameStarted {
        return true;
    }
    step.result_status == ResultStatus::Applied || step.result_status == ResultStatus::TimeoutApplied
}

/// What the timer does on a step of a game.
#[derive(Debug, Clone, Copy, PartialEq, Eq, Structural)]
pub enum StepAction {
    /// Drop the game's entry.
    Cancel,
    /// Fetch the game and reschedule.
    Reschedule,
    /// Nothing to do.
    Ignore,
}

pub fn action_for_step(step: &StepEvent) -> (r: StepAction)
    ensures
        r == if step.event_type == StepEventType::GameFinished {
            StepAction::Cancel
        } else if resets_timer(*step) {
            StepAction::Reschedule
        } else {
            StepAction::Ignore
        },
{
    if step.event_type == StepEventType::GameFinished {
        StepAction::Cancel
    } else if should_reset_timer(step) {
        StepAction::Reschedule
    } else {
        StepAction::Ignore
    }
}

/// The countdown for a game: its own timeout, or the timer's default when
/// the game has none, and never under one second.
pub open spec fn countdown_seconds(game_timeout: u64, default_timeout: u64) -> u64 {
    let t = if game_timeout == 0 { default_timeout } else { game_timeout };
    if t < 1 { 1 } else { t }
}

/// The entry after a reset for a game at `turn_no`; `None` when the game no
/// longer runs. The generation is one more than the previous entry's, or 1.
pub open spec fn rescheduled(
    previous: Option<TimerEntry>,
    status: GameStatus,
    turn_no: u64,
    now: i64,
) -> Option<TimerEntry> {
    if status != GameStatus::Running {
        None
    } else {
        Some(
            TimerEntry {
                generation: match previous {
                    Some(e) => (e.generation + 1) as u64,
                    None => 1,
                },
                turn_no: turn_no,
                scheduled_at: now,
            },
        )
    }
}

/// Reschedules after a turn-passing step, from the game as fetched. Returns
/// the new entry and the countdown in seconds.
pub fn reschedule(
    previous: Option<TimerEntry>,
    status: GameStatus,
    turn_no: u64,
    game_timeout: u64,
    default_timeout: u64,
    now: i64,
) -> (r: (Option<TimerEntry>, u64))
    requires
        previous is Some ==> previous->0.generation < u64::MAX,
    ensures
        r.0 == rescheduled(previous, status, turn_no, now),
        r.1 == countdown_seconds(game_timeout, default_timeout),
{
    let t = if game_timeout == 0 { default_timeout } else { game_timeout };
    let seconds = if t < 1 { 1 } else { t };
    if status != GameStatus::Running {
        return (None, seconds);
    }
    let generation = match previous {
        Some(e) => e.generation + 1,
        None => 1,
    };
    (Some(TimerEntry { generation, turn_no, scheduled_at: now }), seconds)
}

/// A sleeper that captured `(generation, turn_no)` is still the live one.
pub open spec fn fire_current(entry: Option<TimerEntry>, generation: u64, turn_no: u64) -> bool {
    entry is Some && entry->0.generation == generation && entry->0.turn_no == turn_no
}

pub fn is_fire_current(entry: Option<TimerEntry>, generation: u64, turn_no: u64) -> (r: bool)
    ensures
        r == fire_current(entry, generation, turn_no),
{
    match entry {
        Some(e) => e.generation == generation && e.turn_no == turn_no,
        None => false,
    }
}

/// The game, as fetched at wake-up, still waits on the same turn.
pub fn game_still_waiting(status: GameStatus, turn_no: u64, expected_turn_no: u64) -> (r: bool)
    ensures
        r == (status == GameStatus::Running && turn_no == expected_turn_no),
{
    status == GameStatus::Running && turn_no == expected_turn_no
}

/// The id of the timeout fired at `now_ms` for turn `turn_no` of a game:
/// `timeout-<game>-<turn>-<ms>`.
pub open spec fn timeout_command_id(game_id: Seq<char>, turn_no: u64, now_ms: i64) -> Seq<char> {
    "timeout-"@ + game_id + "-"@ + decimal(turn_no as nat) + "-"@ + signed_decimal(now_ms as int)
}

/// The Timeout command the timer sends for the current player of a game
/// whose turn `turn_no` ran out.
pub fn build_timeout_command(game_id: &String, turn_no: u64, current_player_id: &String, now_ms: i64) -> (r: CommandEnvelope)
    ensures
        r.command_id@ == timeout_command_id(game_id@, turn_no, now_ms),
        r.source == CommandSource::Timer,
        r.game_id == *game_id,
        r.player_id == Some(*current_player_id),
        r.command_type == CommandType::Timeout,
        r.direction is None,
        r.speak_text is None,
        r.turn_no == turn_no,
        r.sent_at == now_ms,
{
    let mut id = String::from_str("timeout-");
    id.append(game_id.as_str());
    id.append("-");
    push_decimal(&mut id, turn_no);
    id.append("-");
    push_signed_decimal(&mut id, now_ms);
    CommandEnvelope {
        command_id: id,
        source: CommandSource::Timer,
        game_id: game_id.clone(),
        player_id: Some(current_player_id.clone()),
        command_type: CommandType::Timeout,
        direction: None,
        speak_text: None,
        turn_no,
        sent_at: now_ms,
    }
}

} // verus!
