//! Web ingress: validation of a player's command request and the envelope
//! it becomes on the bus.

use vstd::prelude::*;
use crate::text::{has_visible_text, is_blank};
use crate::types::{
    CommandEnvelope, CommandSource, CommandType, SubmitCommandRequest, SubmitCommandResponse,
};

verus! {

/// Why a submitted command is refused (a bad request).
#[derive(Debug, Clone, Copy, PartialEq, Eq, Structural)]
pub enum CommandRejection {
    MissingCommandId,
    ReservedCommandType,
    MissingDirection,
    MissingSpeakText,
}

impl CommandRejection {
    pub fn message(&self) -> (r: &'static str)
        ensures
            r@ == rejection_message(*self),
    {
        match self {
            CommandRejection::MissingCommandId => "command_id is required",
            CommandRejection::ReservedCommandType => "command_type timeout/game_started is reserved for system services",
            CommandRejection::MissingDirection => "direction is required for move/shield/shoot commands",
            CommandRejection::MissingSpeakText => "speak_text is required for speak commands",
        }
    }
}

pub open spec fn rejection_message(r: CommandRejection) -> Seq<char> {
    match r {
        CommandRejection::MissingCommandId => "command_id is required"@,
        CommandRejection::ReservedCommandType => "command_type timeout/game_started is reserved for system services"@,
        CommandRejection::MissingDirection => "direction is required for move/shield/shoot commands"@,
        CommandRejection::MissingSpeakText => "speak_text is required for speak commands"@,
    }
}

/// The first problem of a submitted command, checked in this order.
pub open spec fn request_problem(r: SubmitCommandRequest) -> Option<CommandRejection> {
    if !has_visible_text(r.command_id@) {
        Some(CommandRejection::MissingCommandId)
    } else if r.command_type == CommandType::Timeout || r.command_type == CommandType::GameStarted {
        Some(CommandRejection::ReservedCommandType)
    } else if (r.command_type == CommandType::Move || r.command_type == CommandType::Shield
        || r.command_type == CommandType::Shoot) && r.direction is None {
        Some(CommandRejection::MissingDirection)
    } else if r.command_type == CommandType::Speak && !(r.speak_text is Some && has_visible_text(
        r.speak_text->0@,
    )) {
        Some(CommandRejection::MissingSpeakText)
    } else {
        None
    }
}

/// Checks a command submitted by a player: it needs an id, may not be of a
/// type reserved for the system, needs a direction to move, shield or
/// shoot, and text to speak.
pub fn validate_user_command(request: &SubmitCommandRequest) -> (r: Result<(), CommandRejection>)
    ensures
        match request_problem(*request) {
            Some(p) => r == Err::<(), CommandRejection>(p),
            None => r is Ok,
        },
{
    if is_blank(request.command_id.as_str()) {
        return Err(CommandRejection::MissingCommandId);
    }
    if request.command_type == CommandType::Timeout || request.command_type == CommandType::GameStarted {
        return Err(CommandRejection::ReservedCommandType);
    }
    if (request.command_type == CommandType::Move || request.command_type == CommandType::Shield
        || request.command_type == CommandType::Shoot) && request.direction.is_none() {
        return Err(CommandRejection::MissingDirection);
    }
    if request.command_type == CommandType::Speak {
        let has_text = match &request.speak_text {
            Some(t) => !is_blank(t.as_str()),
            None => false,
        };
        if !has_text {
            return Err(CommandRejection::MissingSpeakText);
        }
    }
    Ok(())
}

/// The bus envelope of a valid user command for game `game_id`.
pub fn user_envelope(game_id: String, request: SubmitCommandRequest) -> (r: Result<CommandEnvelope, CommandRejection>)
    ensures
        match request_problem(request) {
            Some(p) => r == Err::<CommandEnvelope, CommandRejection>(p),
            None => r == Ok::<CommandEnvelope, CommandRejection>(
                CommandEnvelope {
                    command_id: request.command_id,
                    source: CommandSource::User,
                    game_id: game_id,
                    player_id: Some(request.player_id),
                    command_type: request.command_type,
                    direction: request.direction,
                    speak_text: request.speak_text,
                    turn_no: request.turn_no,
                    sent_at: request.client_sent_at,
                },
            ),
        },
{
    match validate_user_command(&request) {
        Err(e) => Err(e),
        Ok(()) => Ok(
            CommandEnvelope {
                command_id: request.command_id,
                source: CommandSource::User,
                game_id,
                player_id: Some(request.player_id),
                command_type: request.command_type,
                direction: request.direction,
                speak_text: request.speak_text,
                turn_no: request.turn_no,
                sent_at: request.client_sent_at,
            },
        ),
    }
}


/// The answer to a player once the command is queued at `queued_at`.
pub fn submit_response(command: &CommandEnvelope, queued_at: i64) -> (r: SubmitCommandResponse)
    ensures
        r.accepted,
        r.command_id == command.command_id,
        r.queued_at == queued_at,
{
    SubmitCommandResponse { accepted: true, command_id: command.command_id.clone(), queued_at }
}

} // verus!
