//! The bot worker's decisions: when to act on a turn, how to read the
//! decision agent's answer, and the speak it falls back to when the agent
//! fails or answers something unusable.

use vstd::prelude::*;
use crate::text::{
    clipped, decimal, eq_ignore_ascii_case, equals_ignoring_ascii_case, has_visible_text,
    is_blank, push_decimal, push_signed_decimal, signed_decimal, squeeze_white_space, squeezed,
    trim, trimmed, truncate_chars_with_ellipsis,
};
use crate::types::{
    CommandEnvelope, CommandSource, CommandType, Direction, ResultStatus, StepEvent,
};

verus! {

pub const MAX_RETRIES_PER_TURN: u32 = 2;

/// The longest speak a bot sends, its prefix included.
pub const MAX_SPEAK_CHARS: usize = 140;

pub open spec fn supported_bot_command(t: CommandType) -> bool {
    t == CommandType::Move || t == CommandType::Shoot || t == CommandType::Shield || t
        == CommandType::Speak
}

/// Bots may move, shoot, shield and speak.
pub fn is_supported_bot_command(command_type: CommandType) -> (r: bool)
    ensures
        r == supported_bot_command(command_type),
{
    command_type == CommandType::Move || command_type == CommandType::Shoot || command_type
        == CommandType::Shield || command_type == CommandType::Speak
}

/// Why a decision of the agent cannot be played.
#[derive(Debug, Clone, Copy, PartialEq, Eq, Structural)]
pub enum DecisionValidationError {
    UnsupportedCommandType,
    MissingSpeakText,
    MissingDirection,
}

pub open spec fn validation_code(e: DecisionValidationError) -> Seq<char> {
    match e {
        DecisionValidationError::UnsupportedCommandType => "unsupported_command_type"@,
        DecisionValidationError::MissingSpeakText => "missing_speak_text"@,
        DecisionValidationError::MissingDirection => "missing_direction"@,
    }
}

impl DecisionValidationError {
    pub fn as_str(&self) -> (r: &'static str)
        ensures
            r@ == validation_code(*self),
    {
        match self {
            DecisionValidationError::UnsupportedCommandType => "unsupported_command_type",
            DecisionValidationError::MissingSpeakText => "missing_speak_text",
            DecisionValidationError::MissingDirection => "missing_direction",
        }
    }
}

/// Where the command a bot sent came from.
#[derive(Debug, Clone, Copy, PartialEq, Eq, Structural)]
pub enum CommandSelectionSource {
    PythonAgent,
    LlmFailureSpeak,
    RustFallback,
}

pub open spec fn selection_code(s: CommandSelectionSource) -> Seq<char> {
    match s {
        CommandSelectionSource::PythonAgent => "python_agent"@,
        CommandSelectionSource::LlmFailureSpeak => "llm_failure_speak"@,
        CommandSelectionSource::RustFallback => "rust_fallback"@,
    }
}

impl CommandSelectionSource {
    pub fn as_str(&self) -> (r: &'static str)
        ensures
            r@ == selection_code(*self),
    {
        match self {
            CommandSelectionSource::PythonAgent => "python_agent",
            CommandSelectionSource::LlmFailureSpeak => "llm_failure_speak",
            CommandSelectionSource::RustFallback => "rust_fallback",
        }
    }
}

/// The decision agent's answer.
#[derive(Debug, Clone)]
pub struct AgentDecision {
    pub command_type: CommandType,
    pub direction: Option<Direction>,
    pub speak_text: Option<String>,
    pub decision_source: Option<String>,
    pub llm_error: Option<String>,
}

/// The seat a bot plays.
#[derive(Debug, Clone)]
pub struct BotSeat {
    pub bot_id: String,
    pub game_id: String,
    pub player_id: String,
}

/// The id of a bot's command for turn `turn_no` sent at `now_ms`:
/// `bot-<bot>-<turn>-<ms>`.
pub open spec fn bot_command_id(bot_id: Seq<char>, turn_no: u64, now_ms: i64) -> Seq<char> {
    "bot-"@ + bot_id + "-"@ + decimal(turn_no as nat) + "-"@ + signed_decimal(now_ms as int)
}

fn bot_command_id_string(bot_id: &String, turn_no: u64, now_ms: i64) -> (r: String)
    ensures
        r@ == bot_command_id(bot_id@, turn_no, now_ms),
{
    let mut id = String::from_str("bot-");
    id.append(bot_id.as_str());
    id.append("-");
    push_decimal(&mut id, turn_no);
    id.append("-");
    push_signed_decimal(&mut id, now_ms);
    id
}

/// A bot's command envelope for its seat at turn `turn_no`.
pub open spec fn bot_envelope(
    e: CommandEnvelope,
    seat: BotSeat,
    turn_no: u64,
    now_ms: i64,
    command_type: CommandType,
    direction: Option<Direction>,
) -> bool {
    &&& e.command_id@ == bot_command_id(seat.bot_id@, turn_no, now_ms)
    &&& e.source == CommandSource::Bot
    &&& e.game_id == seat.game_id
    &&& e.player_id == Some(seat.player_id)
    &&& e.command_type == command_type
    &&& e.direction == direction
    &&& e.turn_no == turn_no
    &&& e.sent_at == now_ms
}

/// The command an agent's decision stands for, if it can be played: a
/// supported type, a direction to move, shoot or shield, and text to speak,
/// which is sent trimmed.
pub fn command_from_decision(seat: &BotSeat, turn_no: u64, decision: &AgentDecision, now_ms: i64) -> (r: Result<CommandEnvelope, DecisionValidationError>)
    ensures
        match r {
            Err(e) => e == if !supported_bot_command(decision.command_type) {
                DecisionValidationError::UnsupportedCommandType
            } else if decision.command_type == CommandType::Speak {
                DecisionValidationError::MissingSpeakText
            } else {
                DecisionValidationError::MissingDirection
            } && (!supported_bot_command(decision.command_type) || (decision.command_type
                == CommandType::Speak && !(decision.speak_text is Some && has_visible_text(
                decision.speak_text->0@,
            ))) || (decision.command_type != CommandType::Speak && decision.direction is None)),
            Ok(c) => {
                &&& supported_bot_command(decision.command_type)
                &&& if decision.command_type == CommandType::Speak {
                    &&& decision.speak_text is Some
                    &&& has_visible_text(decision.speak_text->0@)
                    &&& bot_envelope(c, *seat, turn_no, now_ms, CommandType::Speak, None)
                    &&& c.speak_text is Some
                    &&& c.speak_text->0@ == trimmed(decision.speak_text->0@)
                } else {
                    &&& decision.direction is Some
                    &&& bot_envelope(c, *seat, turn_no, now_ms, decision.command_type, decision.direction)
                    &&& c.speak_text is None
                }
            },
        },
{
    if !is_supported_bot_command(decision.command_type) {
        return Err(DecisionValidationError::UnsupportedCommandType);
    }
    let (direction, speak_text) = if decision.command_type == CommandType::Speak {
        match &decision.speak_text {
            Some(t) => {
                if is_blank(t.as_str()) {
                    return Err(DecisionValidationError::MissingSpeakText);
                }
                (None, Some(trim(t.as_str())))
            },
            None => {
                return Err(DecisionValidationError::MissingSpeakText);
            },
        }
    } else {
        match decision.direction {
            Some(d) => (Some(d), None),
            None => {
                return Err(DecisionValidationError::MissingDirection);
            },
        }
    };
    Ok(
        CommandEnvelope {
            command_id: bot_command_id_string(&seat.bot_id, turn_no, now_ms),
            source: CommandSource::Bot,
            game_id: seat.game_id.clone(),
            player_id: Some(seat.player_id.clone()),
            command_type: decision.command_type,
            direction,
            speak_text,
            turn_no,
            sent_at: now_ms,
        },
    )
}

/// The speak a bot sends about a failure: `bot fail:` and the message with
/// its white space squeezed (`unknown error` when nothing is left), clipped
/// so that the whole text has at most 140 characters.
pub open spec fn failure_speak_text(message: Seq<char>) -> Seq<char> {
    let cleaned = if squeezed(message).len() == 0 {
        "unknown error"@
    } else {
        squeezed(message)
    };
    "bot fail:"@ + clipped(cleaned, 131)
}

pub fn build_llm_failure_speak_text(message: &str) -> (r: String)
    ensures
        r@ == failure_speak_text(message@),
{
    let normalized = squeeze_white_space(message);
    let cleaned = if normalized.unicode_len() == 0 {
        String::from_str("unknown error")
    } else {
        normalized
    };
    proof {
        reveal_strlit("bot fail:");
    }
    let prefix = "bot fail:";
    let max_message = MAX_SPEAK_CHARS - prefix.unicode_len();
    let clip = truncate_chars_with_ellipsis(cleaned.as_str(), max_message);
    let mut out = String::from_str(prefix);
    out.append(clip.as_str());
    out
}

/// A speak of the failure `message` from the bot's seat.
pub fn build_llm_failure_speak_command(seat: &BotSeat, turn_no: u64, message: &str, now_ms: i64) -> (r: CommandEnvelope)
    ensures
        bot_envelope(r, *seat, turn_no, now_ms, CommandType::Speak, None),
        r.speak_text is Some,
        r.speak_text->0@ == failure_speak_text(message@),
{
    CommandEnvelope {
        command_id: bot_command_id_string(&seat.bot_id, turn_no, now_ms),
        source: CommandSource::Bot,
        game_id: seat.game_id.clone(),
        player_id: Some(seat.player_id.clone()),
        command_type: CommandType::Speak,
        direction: None,
        speak_text: Some(build_llm_failure_speak_text(message)),
        turn_no,
        sent_at: now_ms,
    }
}

/// The model error an agent reports when it fell back itself: its decision
/// source reads `python_fallback` (in any ASCII case, trimmed) and it names
/// a non-blank error, which is returned trimmed.
pub open spec fn agent_failure(d: AgentDecision) -> Option<Seq<char>> {
    let source = match d.decision_source {
        Some(s) => s@,
        None => Seq::empty(),
    };
    if eq_ignore_ascii_case(trimmed(source), "python_fallback"@) && d.llm_error is Some
        && has_visible_text(d.llm_error->0@) {
        Some(trimmed(d.llm_error->0@))
    } else {
        None
    }
}

pub fn llm_failure_message_from_decision(decision: &AgentDecision) -> (r: Option<String>)
    ensures
        match r {
            Some(m) => agent_failure(*decision) == Some(m@),
            None => agent_failure(*decision) is None,
        },
{
    let source = match &decision.decision_source {
        Some(s) => trim(s.as_str()),
        None => String::new(),
    };
    if !equals_ignoring_ascii_case(source.as_str(), "python_fallback") {
        return None;
    }
    match &decision.llm_error {
        Some(e) => {
            if is_blank(e.as_str()) {
                None
            } else {
                Some(trim(e.as_str()))
            }
        },
        None => None,
    }
}


/// The failure text for an unusable decision: the validation code, then the
/// decision source and the model error when they are not blank.
pub open spec fn invalid_decision_text(e: DecisionValidationError, d: AgentDecision) -> Seq<char> {
    let base = "invalid decision: "@ + validation_code(e);
    let with_source = if d.decision_source is Some && has_visible_text(d.decision_source->0@) {
        base + "; source="@ + trimmed(d.decision_source->0@)
    } else {
        base
    };
    if d.llm_error is Some && has_visible_text(d.llm_error->0@) {
        with_source + "; llm_error="@ + trimmed(d.llm_error->0@)
    } else {
        with_source
    }
}

fn invalid_decision_message(e: DecisionValidationError, d: &AgentDecision) -> (r: String)
    ensures
        r@ == invalid_decision_text(e, *d),
{
    let mut out = String::from_str("invalid decision: ");
    out.append(e.as_str());
    match &d.decision_source {
        Some(s) => {
            if !is_blank(s.as_str()) {
                out.append("; source=");
                let t = trim(s.as_str());
                out.append(t.as_str());
            }
        },
        None => {},
    }
    match &d.llm_error {
        Some(s) => {
            if !is_blank(s.as_str()) {
                out.append("; llm_error=");
                let t = trim(s.as_str());
                out.append(t.as_str());
            }
        },
        None => {},
    }
    out
}

/// The failure message a bot speaks, if it speaks one, and why.
pub open spec fn chosen_failure(
    decision: Option<AgentDecision>,
    llm_failure_message: Option<Seq<char>>,
) -> Option<(Seq<char>, CommandSelectionSource)> {
    if llm_failure_message is Some && has_visible_text(llm_failure_message->0) {
        Some((trimmed(llm_failure_message->0), CommandSelectionSource::LlmFailureSpeak))
    } else {
        match decision {
            None => Some(("fallback policy used"@, CommandSelectionSource::RustFallback)),
            Some(d) => match agent_failure(d) {
                Some(m) => Some((m, CommandSelectionSource::LlmFailureSpeak)),
                None => if !supported_bot_command(d.command_type) {
                    Some((invalid_decision_text(DecisionValidationError::UnsupportedCommandType, d), CommandSelectionSource::RustFallback))
                } else if d.command_type == CommandType::Speak && !(d.speak_text is Some
                    && has_visible_text(d.speak_text->0@)) {
                    Some((invalid_decision_text(DecisionValidationError::MissingSpeakText, d), CommandSelectionSource::RustFallback))
                } else if d.command_type != CommandType::Speak && d.direction is None {
                    Some((invalid_decision_text(DecisionValidationError::MissingDirection, d), CommandSelectionSource::RustFallback))
                } else {
                    None
                },
            },
        }
    }
}

/// The command a bot sends for turn `turn_no`. A reported failure wins;
/// then an agent's own fallback; then the agent's decision if it can be
/// played; else a speak of why not; with no decision at all, a speak that
/// the fallback policy was used.
pub fn build_bot_command(
    seat: &BotSeat,
    turn_no: u64,
    decision: Option<&AgentDecision>,
    llm_failure_message: Option<&String>,
    now_ms: i64,
) -> (r: (CommandEnvelope, CommandSelectionSource))
    ensures
        ({
            let d = match decision {
                Some(d) => Some(*d),
                None => None,
            };
            let m = match llm_failure_message {
                Some(s) => Some(s@),
                None => None,
            };
            match chosen_failure(d, m) {
                Some((text, source)) => {
                    &&& r.1 == source
                    &&& bot_envelope(r.0, *seat, turn_no, now_ms, CommandType::Speak, None)
                    &&& r.0.speak_text is Some
                    &&& r.0.speak_text->0@ == failure_speak_text(text)
                },
                None => {
                    &&& r.1 == CommandSelectionSource::PythonAgent
                    &&& bot_envelope(
                        r.0,
                        *seat,
                        turn_no,
                        now_ms,
                        d->0.command_type,
                        if d->0.command_type == CommandType::Speak {
                            None
                        } else {
                            d->0.direction
                        },
                    )
                    &&& if d->0.command_type == CommandType::Speak {
                        r.0.speak_text is Some && r.0.speak_text->0@ == trimmed(d->0.speak_text->0@)
                    } else {
                        r.0.speak_text is None
                    }
                },
            }
        }),
{
    match llm_failure_message {
        Some(m) => {
            if !is_blank(m.as_str()) {
                let message = trim(m.as_str());
                return (
                    build_llm_failure_speak_command(seat, turn_no, message.as_str(), now_ms),
                    CommandSelectionSource::LlmFailureSpeak,
                );
            }
        },
        None => {},
    }
    match decision {
        Some(d) => {
            match llm_failure_message_from_decision(d) {
                Some(message) => {
                    return (
                        build_llm_failure_speak_command(seat, turn_no, message.as_str(), now_ms),
                        CommandSelectionSource::LlmFailureSpeak,
                    );
                },
                None => {},
            }
            match command_from_decision(seat, turn_no, d, now_ms) {
                Ok(command) => (command, CommandSelectionSource::PythonAgent),
                Err(reason) => {
                    let message = invalid_decision_message(reason, d);
                    (
                        build_llm_failure_speak_command(seat, turn_no, message.as_str(), now_ms),
                        CommandSelectionSource::RustFallback,
                    )
                },
            }
        },
        None => {
            proof {
                reveal_strlit("fallback policy used");
            }
            (
                build_llm_failure_speak_command(seat, turn_no, "fallback policy used", now_ms),
                CommandSelectionSource::RustFallback,
            )
        },
    }
}

/// What a bot worker does about a step of its running game.
#[derive(Debug, Clone, Copy, PartialEq, Eq, Structural)]
pub enum TurnDecision {
    /// Not this bot's turn, or it already acted on it.
    Wait,
    /// Ask the agent; `force_speak` when the bot has not spoken yet.
    AskAgent { force_speak: bool },
    /// Retry a rejected command without the agent.
    Fallback,
}

/// A bot worker's memory across steps.
#[derive(Debug, Clone, Copy, PartialEq, Eq, Structural)]
pub struct BotTurnState {
    pub last_acted_turn_no: u64,
    pub has_spoken_once: bool,
    pub retry_count: u32,
}

/// The step rejects, as an invalid command, a command of this bot's player.
pub open spec fn own_rejection(step: StepEvent, player_id: Seq<char>) -> bool {
    &&& step.result_status == ResultStatus::InvalidCommand
    &&& step.command is Some
    &&& step.command->0.player_id is Some
    &&& step.command->0.player_id->0@ == player_id
}

pub fn is_own_rejection(step: &StepEvent, player_id: &String) -> (r: bool)
    ensures
        r == own_rejection(*step, player_id@),
{
    if step.result_status != ResultStatus::InvalidCommand {
        return false;
    }
    match &step.command {
        Some(c) => match &c.player_id {
            Some(p) => *p == *player_id,
            None => false,
        },
        None => false,
    }
}

/// The step rejects this bot's own command on its current turn and a retry
/// is left: the bot retries without the agent.
pub open spec fn retries(s: BotTurnState, is_bot_turn: bool, turn_no: u64, rejected: bool) -> bool {
    is_bot_turn && turn_no == s.last_acted_turn_no && rejected && s.retry_count < MAX_RETRIES_PER_TURN
}

impl BotTurnState {
    pub fn new() -> (r: BotTurnState)
        ensures
            r == (BotTurnState { last_acted_turn_no: 0, has_spoken_once: false, retry_count: 0 }),
    {
        BotTurnState { last_acted_turn_no: 0, has_spoken_once: false, retry_count: 0 }
    }

    /// Decides about a step of the running game. A rejection of this bot's
    /// own command on its turn is retried without the agent, at most twice
    /// per turn; the retry count resets when the turn moves on.
    pub fn on_step(&mut self, is_bot_turn: bool, turn_no: u64, rejected: bool) -> (r: TurnDecision)
        ensures
            final(self).has_spoken_once == old(self).has_spoken_once,
            retries(*old(self), is_bot_turn, turn_no, rejected) ==> {
                &&& final(self).retry_count == old(self).retry_count + 1
                &&& final(self).last_acted_turn_no == if turn_no == 0 { 0 } else { turn_no - 1 }
            },
            !retries(*old(self), is_bot_turn, turn_no, rejected) ==> {
                &&& final(self).last_acted_turn_no == old(self).last_acted_turn_no
                &&& final(self).retry_count == if turn_no > old(self).last_acted_turn_no {
                    0
                } else {
                    old(self).retry_count
                }
            },
            (r == TurnDecision::Fallback) <==> (retries(*old(self), is_bot_turn, turn_no, rejected)
                && turn_no >= 1),
            (r is AskAgent) <==> (!retries(*old(self), is_bot_turn, turn_no, rejected) && is_bot_turn
                && turn_no > old(self).last_acted_turn_no),
            match r {
                TurnDecision::AskAgent { force_speak } => force_speak == !old(self).has_spoken_once,
                _ => true,
            },
    {
        let retry = is_bot_turn && turn_no == self.last_acted_turn_no && rejected && self.retry_count
            < MAX_RETRIES_PER_TURN;
        if retry {
            self.retry_count = self.retry_count + 1;
            self.last_acted_turn_no = if turn_no == 0 { 0 } else { turn_no - 1 };
        } else if turn_no > self.last_acted_turn_no {
            self.retry_count = 0;
        }
        if !(is_bot_turn && turn_no > self.last_acted_turn_no) {
            TurnDecision::Wait
        } else if retry {
            TurnDecision::Fallback
        } else {
            TurnDecision::AskAgent { force_speak: !self.has_spoken_once }
        }
    }

    /// Records a command published for turn `turn_no`.
    pub fn on_published(&mut self, turn_no: u64, command_type: CommandType)
        ensures
            final(self).last_acted_turn_no == turn_no,
            final(self).has_spoken_once == (old(self).has_spoken_once || command_type
                == CommandType::Speak),
            final(self).retry_count == old(self).retry_count,
    {
        self.last_acted_turn_no = turn_no;
        if command_type == CommandType::Speak {
            self.has_spoken_once = true;
        }
    }
}

} // verus!
