//! The durable record of a step, as the optional telemetry table keeps it
//! under `(game_id, step_seq)`.

use vstd::prelude::*;
use crate::rules::RejectReason;
use crate::text::{decimal, has_visible_text, is_blank, push_decimal};
use crate::types::{
    CommandSource, CommandType, Direction, GameStateSnapshot, ResultStatus, StepEvent,
    StepEventType, same_snapshot,
};

verus! {

/// One row of the step table. A step without a command is recorded under a
/// system id, with no source and no command type (read as `system` and
/// `game_started`).
#[derive(Debug, Clone)]
pub struct StepRecord {
    pub game_id: String,
    pub step_seq: u64,
    pub turn_no: u64,
    pub round_no: u64,
    pub command_id: String,
    pub source: Option<CommandSource>,
    pub command_type: Option<CommandType>,
    pub event_type: StepEventType,
    pub result_status: ResultStatus,
    pub player_id: Option<String>,
    pub direction: Option<Direction>,
    pub speak_text: Option<String>,
    pub result_reason: Option<RejectReason>,
    pub state_after: GameStateSnapshot,
    pub created_at: i64,
}

/// The id a step without a command is recorded under.
pub open spec fn system_command_id(game_id: Seq<char>, step_seq: u64) -> Seq<char> {
    "system-"@ + game_id + "-"@ + decimal(step_seq as nat)
}

/// The record of `step`, with the pipeline's `reason` for its outcome.
pub fn step_record(step: &StepEvent, reason: Option<RejectReason>) -> (r: StepRecord)
    ensures
        r.game_id == step.game_id,
        r.step_seq == step.step_seq,
        r.turn_no == step.turn_no,
        r.round_no == step.round_no,
        r.event_type == step.event_type,
        r.result_status == step.result_status,
        r.created_at == step.created_at,
        same_snapshot(&r.state_after, &step.state_after),
        r.result_reason == reason,
        match step.command {
            Some(c) => {
                &&& r.command_id == c.command_id
                &&& r.source == Some(c.source)
                &&& r.command_type == Some(c.command_type)
                &&& r.player_id == c.player_id
                &&& r.direction == c.direction
                &&& r.speak_text == if c.speak_text is Some && has_visible_text(c.speak_text->0@) {
                    c.speak_text
                } else {
                    None
                }
            },
            None => {
                &&& r.command_id@ == system_command_id(step.game_id@, step.step_seq)
                &&& r.source is None
                &&& r.command_type is None
                &&& r.player_id is None
                &&& r.direction is None
                &&& r.speak_text is None
            },
        },
{
    let (command_id, source, command_type, player_id, direction, speak_text) = match &step.command {
        Some(c) => {
            let player_id = match &c.player_id {
                Some(p) => Some(p.clone()),
                None => None,
            };
            let speak_text = match &c.speak_text {
                Some(t) => if is_blank(t.as_str()) {
                    None
                } else {
                    Some(t.clone())
                },
                None => None,
            };
            (c.command_id.clone(), Some(c.source), Some(c.command_type), player_id, c.direction, speak_text)
        },
        None => {
            let mut id = String::from_str("system-");
            id.append(step.game_id.as_str());
            id.append("-");
            push_decimal(&mut id, step.step_seq);
            (id, None, None, None, None, None)
        },
    };
    StepRecord {
        game_id: step.game_id.clone(),
        step_seq: step.step_seq,
        turn_no: step.turn_no,
        round_no: step.round_no,
        command_id,
        source,
        command_type,
        event_type: step.event_type,
        result_status: step.result_status,
        player_id,
        direction,
        speak_text,
        result_reason: reason,
        state_after: step.state_after.copy(),
        created_at: step.created_at,
    }
}

} // verus!
