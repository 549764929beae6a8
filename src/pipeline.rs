//! The command pipeline: deduplicates commands by id, drops late ones,
//! hands the rest to the authority, turns illegal commands into a visible
//! speak, emits one step per command and finishes the game when one player
//! is left.

use vstd::prelude::*;
use crate::authority::{
    ApplyCommandResponse, GameInstance, applied_to, build_step_event, counters_open, effect_of,
    finished_from,
    event_of, game_wf, turn_refusal, same_identity, turn_fields,
};
use crate::rules::{RejectReason, alive_count, alive_player_count};
use crate::text::has_visible_text;
use crate::types::{
    CommandEnvelope, CommandType, Direction, GameStatus, ResultStatus, StepEvent, StepEventType,
    SubmitCommandRequest, cells_of,
};

verus! {

pub open spec fn command_word(t: CommandType) -> Seq<char> {
    match t {
        CommandType::Move => "move"@,
        CommandType::Shield => "shield"@,
        CommandType::Shoot => "shoot"@,
        CommandType::Speak => "speak"@,
        CommandType::Timeout => "timeout"@,
        CommandType::GameStarted => "game_started"@,
    }
}

pub open spec fn direction_word(d: Direction) -> Seq<char> {
    match d {
        Direction::Up => "up"@,
        Direction::Down => "down"@,
        Direction::Left => "left"@,
        Direction::Right => "right"@,
    }
}

/// `<type>` or `<type> <direction>`, in lower case.
pub open spec fn command_description(t: CommandType, d: Option<Direction>) -> Seq<char> {
    match d {
        Some(d) => command_word(t) + " "@ + direction_word(d),
        None => command_word(t),
    }
}

/// The speak text that replaces an illegal command.
pub open spec fn invalid_command_text(t: CommandType, d: Option<Direction>) -> Seq<char> {
    "invalid command: \""@ + command_description(t, d) + "\""@
}

fn command_word_str(t: CommandType) -> (r: &'static str)
    ensures
        r@ == command_word(t),
{
    match t {
        CommandType::Move => "move",
        CommandType::Shield => "shield",
        CommandType::Shoot => "shoot",
        CommandType::Speak => "speak",
        CommandType::Timeout => "timeout",
        CommandType::GameStarted => "game_started",
    }
}

fn direction_word_str(d: Direction) -> (r: &'static str)
    ensures
        r@ == direction_word(d),
{
    match d {
        Direction::Up => "up",
        Direction::Down => "down",
        Direction::Left => "left",
        Direction::Right => "right",
    }
}

/// The command as `<type> <direction>`, e.g. `shoot up`.
pub fn format_command_description(command: &CommandEnvelope) -> (r: String)
    ensures
        r@ == command_description(command.command_type, command.direction),
{
    let mut out = String::from_str(command_word_str(command.command_type));
    match command.direction {
        Some(d) => {
            out.append(" ");
            out.append(direction_word_str(d));
        },
        None => {},
    }
    out
}

pub fn invalid_command_speak_text(command: &CommandEnvelope) -> (r: String)
    ensures
        r@ == invalid_command_text(command.command_type, command.direction),
        has_visible_text(r@),
{
    let desc = format_command_description(command);
    let mut out = String::from_str("invalid command: \"");
    out.append(desc.as_str());
    out.append("\"");
    proof {
        reveal_strlit("invalid command: \"");
        assert(out@[0] == 'i');
    }
    out
}

/// A rejection that concerns whose turn it is rather than what was asked:
/// such a command is not turned into a speak.
pub open spec fn turn_rejection(r: Option<RejectReason>) -> bool {
    ||| r == Some(RejectReason::StaleTurnNo)
    ||| r == Some(RejectReason::InvalidTurnPlayer)
    ||| r == Some(RejectReason::PlayerDead)
    ||| r == Some(RejectReason::GameNotRunning)
}

/// Whether the authority applies `req` to `g`, and its reason if not.
pub open spec fn verdict(g: GameInstance, req: SubmitCommandRequest) -> (bool, Option<RejectReason>) {
    match turn_refusal(g, req) {
        Some(r) => (false, Some(r)),
        None => (effect_of(g, req).2.applied, effect_of(g, req).2.reason),
    }
}

/// `after` is what the authority makes of `before` when asked to apply
/// `req`: unchanged on a refusal, else the rule's effect.
pub open spec fn apply_effect(before: GameInstance, after: GameInstance, req: SubmitCommandRequest, now: i64) -> bool {
    match turn_refusal(before, req) {
        Some(_) => after == before,
        None => applied_to(before, after, req, now),
    }
}

/// `g` with one more step numbered.
pub open spec fn numbered(g: GameInstance) -> GameInstance {
    GameInstance { last_step_seq: (g.last_step_seq + 1) as u64, ..g }
}

/// `after` is `before` with `req` handed to the authority and the step that
/// reports it numbered: an applied command numbers its step itself, any
/// other outcome takes the next number besides.
pub open spec fn applied_and_numbered(before: GameInstance, after: GameInstance, req: SubmitCommandRequest, now: i64) -> bool {
    &&& after.last_step_seq == before.last_step_seq + 1
    &&& apply_effect(
        before,
        if verdict(before, req).0 {
            after
        } else {
            GameInstance { last_step_seq: before.last_step_seq, ..after }
        },
        req,
        now,
    )
}

pub open spec fn user_request(c: CommandEnvelope, player_id: String) -> SubmitCommandRequest {
    SubmitCommandRequest {
        command_id: c.command_id,
        player_id: player_id,
        command_type: c.command_type,
        direction: c.direction,
        speak_text: c.speak_text,
        turn_no: c.turn_no,
        client_sent_at: c.sent_at,
    }
}

pub open spec fn timeout_request(c: CommandEnvelope, player_id: String) -> SubmitCommandRequest {
    SubmitCommandRequest {
        command_id: c.command_id,
        player_id: player_id,
        command_type: CommandType::Timeout,
        direction: None,
        speak_text: None,
        turn_no: c.turn_no,
        client_sent_at: c.sent_at,
    }
}

/// The command as a speak of `text`.
pub open spec fn as_speak(c: CommandEnvelope, text: String) -> CommandEnvelope {
    CommandEnvelope {
        command_type: CommandType::Speak,
        speak_text: Some(text),
        direction: None,
        ..c
    }
}

/// The result status of a user or bot command's step.
pub open spec fn user_status(applied: bool, reason: Option<RejectReason>) -> ResultStatus {
    if applied {
        ResultStatus::Applied
    } else if reason == Some(RejectReason::StaleTurnNo) {
        ResultStatus::IgnoredTimeout
    } else if turn_rejection(reason) {
        ResultStatus::InvalidTurn
    } else {
        ResultStatus::InvalidCommand
    }
}

/// The event type and result status of a timeout's step.
pub open spec fn timeout_status(applied: bool, reason: Option<RejectReason>) -> (StepEventType, ResultStatus) {
    if applied {
        (StepEventType::TimeoutApplied, ResultStatus::TimeoutApplied)
    } else if reason == Some(RejectReason::StaleTurnNo) || reason == Some(
        RejectReason::InvalidTurnPlayer,
    ) {
        (StepEventType::StepApplied, ResultStatus::IgnoredTimeout)
    } else {
        (StepEventType::StepApplied, ResultStatus::InvalidTurn)
    }
}

pub open spec fn seen_id(seen: Seq<String>, id: Seq<char>) -> bool {
    exists|i: int| 0 <= i < seen.len() && (#[trigger] seen[i])@ == id
}

/// What the pipeline did with one command.
#[derive(Debug, Clone)]
pub struct ProcessedOutcome {
    pub accepted: bool,
    pub applied: bool,
    pub reason: Option<RejectReason>,
    pub result_status: ResultStatus,
    /// The step emitted for the command.
    pub step: StepEvent,
    /// The GameFinished step, when the command left one player alive.
    pub finished: Option<StepEvent>,
}

#[derive(Debug, Clone, Copy, PartialEq, Eq, Structural)]
pub enum PipelineError {
    /// A user or bot command came without a player id.
    MissingPlayerId,
}

/// The pipeline's memory of one game: the command ids seen so far.
#[derive(Debug)]
pub struct CommandLog {
    pub seen: Vec<String>,
}

fn copy_opt_string(s: &Option<String>) -> (r: Option<String>)
    ensures
        r == *s,
{
    match s {
        Some(t) => Some(t.clone()),
        None => None,
    }
}

fn copy_command(c: &CommandEnvelope) -> (r: CommandEnvelope)
    ensures
        r == *c,
{
    CommandEnvelope {
        command_id: c.command_id.clone(),
        source: c.source,
        game_id: c.game_id.clone(),
        player_id: copy_opt_string(&c.player_id),
        command_type: c.command_type,
        direction: c.direction,
        speak_text: copy_opt_string(&c.speak_text),
        turn_no: c.turn_no,
        sent_at: c.sent_at,
    }
}

/// Every component the authority reads agrees.
pub open spec fn game_equiv(a: GameInstance, b: GameInstance) -> bool {
    &&& same_identity(a, b)
    &&& a.state.map.rows == b.state.map.rows
    &&& a.state.map.cols == b.state.map.cols
    &&& cells_of(&a.state.map) == cells_of(&b.state.map)
    &&& a.state.players@ == b.state.players@
    &&& turn_fields(a) == turn_fields(b)
    &&& a.last_step_seq == b.last_step_seq
}

impl CommandLog {
    /// An empty log.
    pub fn new() -> (r: CommandLog)
        ensures
            r.seen@.len() == 0,
    {
        CommandLog { seen: Vec::new() }
    }

    /// Whether the command id was seen before in this game.
    pub fn is_duplicate(&self, command_id: &String) -> (r: bool)
        ensures
            r == seen_id(self.seen@, command_id@),
    {
        let mut i: usize = 0;
        while i < self.seen.len()
            invariant
                i <= self.seen@.len(),
                forall|j: int| 0 <= j < i ==> (#[trigger] self.seen@[j])@ != command_id@,
            decreases self.seen@.len() - i,
        {
            if self.seen[i] == *command_id {
                return true;
            }
            i = i + 1;
        }
        false
    }
}


pub proof fn lemma_equiv_same_verdict(a: GameInstance, b: GameInstance, req: SubmitCommandRequest)
    requires
        game_equiv(a, b),
    ensures
        turn_refusal(a, req) == turn_refusal(b, req),
        effect_of(a, req) == effect_of(b, req),
        verdict(a, req) == verdict(b, req),
        forall|x: GameInstance, now: i64|
            applied_to(a, x, req, now) == applied_to(b, x, req, now),
{
}

/// Builds the authority request for a user or bot command.
fn request_for(c: &CommandEnvelope, player_id: &String) -> (r: SubmitCommandRequest)
    ensures
        r == user_request(*c, *player_id),
{
    SubmitCommandRequest {
        command_id: c.command_id.clone(),
        player_id: player_id.clone(),
        command_type: c.command_type,
        direction: c.direction,
        speak_text: copy_opt_string(&c.speak_text),
        turn_no: c.turn_no,
        client_sent_at: c.sent_at,
    }
}

/// Applies a user or bot command; when the authority rejects what it asks
/// for (not whose turn it is), applies in its place a speak that names it.
/// Returns the authority's answer and the command as it was played.
fn apply_or_speak(game: &mut GameInstance, command: CommandEnvelope, player_id: &String, now: i64) -> (r: (ApplyCommandResponse, CommandEnvelope))
    requires
        game_wf(*old(game)),
        counters_open(*old(game)),
    ensures
        game_wf(*final(game)),
        ({
            let req = user_request(command, *player_id);
            let v = verdict(*old(game), req);
            let conv = !v.0 && !turn_rejection(v.1);
            let used = r.1;
            let req2 = user_request(used, *player_id);
            &&& (conv ==> {
                &&& used.speak_text is Some
                &&& used == as_speak(command, used.speak_text->0)
                &&& used.speak_text->0@ == invalid_command_text(command.command_type, command.direction)
                &&& r.0.applied
            })
            &&& (!conv ==> used == command)
            &&& apply_effect(*old(game), *final(game), req2, now)
            &&& (r.0.applied ==> final(game).turn_no == old(game).turn_no + 1)
            &&& final(game).last_step_seq == if r.0.applied {
                old(game).last_step_seq + 1
            } else {
                old(game).last_step_seq as int
            }
            &&& r.0.applied == verdict(*old(game), req2).0
            &&& r.0.reason == verdict(*old(game), req2).1
            &&& r.0.accepted == (turn_refusal(*old(game), req2) is None)
            &&& final(game).status == old(game).status
        }),
{
    let ghost g0 = *game;
    let request = request_for(&command, player_id);
    let first = game.apply_command(&request, now);
    let convertible = !first.applied && match first.reason {
        Some(RejectReason::StaleTurnNo) => false,
        Some(RejectReason::InvalidTurnPlayer) => false,
        Some(RejectReason::PlayerDead) => false,
        Some(RejectReason::GameNotRunning) => false,
        _ => true,
    };
    if !convertible {
        return (first, command);
    }
    let ghost g1 = *game;
    assert(game_equiv(g1, g0));
    let text = invalid_command_speak_text(&command);
    let spoken = CommandEnvelope {
        command_type: CommandType::Speak,
        speak_text: Some(text),
        direction: None,
        ..command
    };
    let speak_request = request_for(&spoken, player_id);
    proof {
        lemma_equiv_same_verdict(g1, g0, speak_request);
    }
    let second = game.apply_command(&speak_request, now);
    (second, spoken)
}

impl CommandLog {
    /// Handles one command of the game's input topic and emits its step.
    /// In order: the reserved GameStarted type is refused; a command id
    /// seen before is a duplicate; nothing is applied unless the game runs;
    /// a timeout or command for an earlier turn is ignored; a timeout is
    /// applied for the current player; a user or bot command is applied,
    /// or replaced by a speak when its content is illegal; and when an
    /// applied command leaves one player alive the game finishes.
    pub fn process_command(&mut self, game: &mut GameInstance, command: CommandEnvelope, now: i64) -> (r: Result<ProcessedOutcome, PipelineError>)
        requires
            game_wf(*old(game)),
            counters_open(*old(game)),
            old(game).last_step_seq < u64::MAX - 1,
        ensures
            game_wf(*final(game)),
            match r {
                Ok(o) => (o.result_status == ResultStatus::Applied || o.result_status
                    == ResultStatus::TimeoutApplied) ==> final(game).turn_no == old(game).turn_no + 1
                    && o.step.turn_no == final(game).turn_no,
                Err(_) => true,
            },
            ({
                let g = *old(game);
                let c = command;
                let reserved = c.command_type == CommandType::GameStarted;
                let dup = seen_id(old(self).seen@, c.command_id@);
                let running = g.status == GameStatus::Running;
                let is_timeout = c.command_type == CommandType::Timeout;
                let late = c.turn_no < g.turn_no;
                let seq = (g.last_step_seq + 1) as u64;
                &&& (reserved || dup ==> final(self).seen == old(self).seen)
                &&& (!reserved && !dup ==> final(self).seen@ == old(self).seen@.push(c.command_id))
                &&& (r is Err <==> !reserved && !dup && running && !is_timeout && !late && c.player_id is None)
                &&& match r {
                    Err(e) => {
                        &&& e == PipelineError::MissingPlayerId
                        &&& *final(game) == g
                    },
                    Ok(o) => {
                        &&& o.step.step_seq == seq
                        &&& if reserved {
                            &&& *final(game) == numbered(g)
                            &&& !o.accepted && !o.applied
                            &&& o.reason == Some(RejectReason::ReservedCommandType)
                            &&& o.result_status == ResultStatus::InvalidCommand
                            &&& event_of(o.step, g, seq, StepEventType::StepApplied, ResultStatus::InvalidCommand, Some(c), now)
                            &&& o.finished is None
                        } else if dup {
                            &&& *final(game) == numbered(g)
                            &&& !o.accepted && !o.applied
                            &&& o.reason == Some(RejectReason::DuplicateCommand)
                            &&& o.result_status == ResultStatus::DuplicateCommand
                            &&& event_of(o.step, g, seq, StepEventType::StepApplied, ResultStatus::DuplicateCommand, Some(c), now)
                            &&& o.finished is None
                        } else if !running {
                            &&& *final(game) == numbered(g)
                            &&& !o.accepted && !o.applied
                            &&& o.reason == Some(RejectReason::GameNotRunning)
                            &&& o.result_status == ResultStatus::InvalidTurn
                            &&& event_of(o.step, g, seq, StepEventType::StepApplied, ResultStatus::InvalidTurn, Some(c), now)
                            &&& o.finished is None
                        } else if late {
                            &&& *final(game) == numbered(g)
                            &&& !o.accepted && !o.applied
                            &&& o.reason == Some(if is_timeout {
                                RejectReason::LateTimeoutIgnored
                            } else {
                                RejectReason::LateCommandIgnored
                            })
                            &&& o.result_status == ResultStatus::IgnoredTimeout
                            &&& event_of(o.step, g, seq, StepEventType::StepApplied, ResultStatus::IgnoredTimeout, Some(c), now)
                            &&& o.finished is None
                        } else if is_timeout {
                            let pid = match c.player_id {
                                Some(p) => p,
                                None => g.current_player_id,
                            };
                            let req = timeout_request(c, pid);
                            let v = verdict(g, req);
                            let ts = timeout_status(v.0, v.1);
                            &&& applied_and_numbered(g, *final(game), req, now)
                            &&& o.accepted == (turn_refusal(g, req) is None)
                            &&& o.applied == v.0
                            &&& o.reason == v.1
                            &&& o.result_status == ts.1
                            &&& event_of(o.step, *final(game), seq, ts.0, ts.1, Some(c), now)
                            &&& o.finished is None
                        } else {
                            let pid = c.player_id->0;
                            let req = user_request(c, pid);
                            let v0 = verdict(g, req);
                            let conv = !v0.0 && !turn_rejection(v0.1);
                            let used = o.step.command->0;
                            let req2 = user_request(used, pid);
                            &&& o.step.command is Some
                            &&& (conv ==> {
                                &&& used.speak_text is Some
                                &&& used == as_speak(c, used.speak_text->0)
                                &&& used.speak_text->0@ == invalid_command_text(c.command_type, c.direction)
                                &&& o.applied
                            })
                            &&& (!conv ==> used == c)
                            &&& o.accepted == (turn_refusal(g, req2) is None)
                            &&& o.applied == verdict(g, req2).0
                            &&& o.reason == verdict(g, req2).1
                            &&& o.result_status == user_status(o.applied, o.reason)
                            &&& exists|played: GameInstance|
                                #[trigger] applied_and_numbered(g, played, req2, now)
                                && event_of(o.step, played, seq, StepEventType::StepApplied, o.result_status, Some(used), now)
                                && if o.applied && alive_count(played.state.players@) == 1 {
                                    &&& finished_from(played, *final(game))
                                    &&& o.finished is Some
                                    &&& event_of(
                                        o.finished->0,
                                        *final(game),
                                        (seq + 1) as u64,
                                        StepEventType::GameFinished,
                                        ResultStatus::Applied,
                                        None,
                                        now,
                                    )
                                } else {
                                    &&& *final(game) == played
                                    &&& o.finished is None
                                }
                        }
                    },
                }
            }),
    {
        let ghost g0 = *game;
        if command.command_type == CommandType::GameStarted {
            let seq = game.number_step();
            let step = build_step_event(game, seq, StepEventType::StepApplied, ResultStatus::InvalidCommand, Some(command), now);
            return Ok(ProcessedOutcome {
                accepted: false,
                applied: false,
                reason: Some(RejectReason::ReservedCommandType),
                result_status: ResultStatus::InvalidCommand,
                step,
                finished: None,
            });
        }
        if self.is_duplicate(&command.command_id) {
            let seq = game.number_step();
            let step = build_step_event(game, seq, StepEventType::StepApplied, ResultStatus::DuplicateCommand, Some(command), now);
            return Ok(ProcessedOutcome {
                accepted: false,
                applied: false,
                reason: Some(RejectReason::DuplicateCommand),
                result_status: ResultStatus::DuplicateCommand,
                step,
                finished: None,
            });
        }
        self.seen.push(command.command_id.clone());
        if game.status != GameStatus::Running {
            let seq = game.number_step();
            let step = build_step_event(game, seq, StepEventType::StepApplied, ResultStatus::InvalidTurn, Some(command), now);
            return Ok(ProcessedOutcome {
                accepted: false,
                applied: false,
                reason: Some(RejectReason::GameNotRunning),
                result_status: ResultStatus::InvalidTurn,
                step,
                finished: None,
            });
        }
        let is_timeout = command.command_type == CommandType::Timeout;
        if command.turn_no < game.turn_no {
            let reason = if is_timeout {
                RejectReason::LateTimeoutIgnored
            } else {
                RejectReason::LateCommandIgnored
            };
            let seq = game.number_step();
            let step = build_step_event(game, seq, StepEventType::StepApplied, ResultStatus::IgnoredTimeout, Some(command), now);
            return Ok(ProcessedOutcome {
                accepted: false,
                applied: false,
                reason: Some(reason),
                result_status: ResultStatus::IgnoredTimeout,
                step,
                finished: None,
            });
        }
        if is_timeout {
            let player_id = match &command.player_id {
                Some(p) => p.clone(),
                None => game.current_player_id.clone(),
            };
            let request = SubmitCommandRequest {
                command_id: command.command_id.clone(),
                player_id,
                command_type: CommandType::Timeout,
                direction: None,
                speak_text: None,
                turn_no: command.turn_no,
                client_sent_at: command.sent_at,
            };
            let apply = game.apply_command(&request, now);
            let (event_type, result_status) = if apply.applied {
                (StepEventType::TimeoutApplied, ResultStatus::TimeoutApplied)
            } else {
                match apply.reason {
                    Some(RejectReason::StaleTurnNo) => (StepEventType::StepApplied, ResultStatus::IgnoredTimeout),
                    Some(RejectReason::InvalidTurnPlayer) => (StepEventType::StepApplied, ResultStatus::IgnoredTimeout),
                    _ => (StepEventType::StepApplied, ResultStatus::InvalidTurn),
                }
            };
            let seq = if apply.applied {
                game.last_step_seq
            } else {
                game.number_step()
            };
            let step = build_step_event(game, seq, event_type, result_status, Some(command), now);
            return Ok(ProcessedOutcome {
                accepted: apply.accepted,
                applied: apply.applied,
                reason: apply.reason,
                result_status,
                step,
                finished: None,
            });
        }
        let player_id = match &command.player_id {
            Some(p) => p.clone(),
            None => {
                return Err(PipelineError::MissingPlayerId);
            },
        };
        let (apply, used) = apply_or_speak(game, command, &player_id, now);
        let ghost mid = *game;
        let ghost req2 = user_request(used, player_id);
        let result_status = if apply.applied {
            ResultStatus::Applied
        } else {
            match apply.reason {
                Some(RejectReason::StaleTurnNo) => ResultStatus::IgnoredTimeout,
                Some(RejectReason::InvalidTurnPlayer) => ResultStatus::InvalidTurn,
                Some(RejectReason::PlayerDead) => ResultStatus::InvalidTurn,
                Some(RejectReason::GameNotRunning) => ResultStatus::InvalidTurn,
                _ => ResultStatus::InvalidCommand,
            }
        };
        let seq = if apply.applied {
            game.last_step_seq
        } else {
            game.number_step()
        };
        let ghost played = *game;
        proof {
            if !apply.applied {
                assert((GameInstance { last_step_seq: g0.last_step_seq, ..played }) == mid);
            }
            assert(applied_and_numbered(g0, played, req2, now));
        }
        let step = build_step_event(game, seq, StepEventType::StepApplied, result_status, Some(used), now);
        let mut finished: Option<StepEvent> = None;
        if apply.applied && game.status != GameStatus::Finished && alive_player_count(&game.state.players) == 1 {
            let turn_no = game.turn_no;
            let (_outcome, event) = game.finish(Some(turn_no), now);
            finished = event;
        }
        Ok(ProcessedOutcome {
            accepted: apply.accepted,
            applied: apply.applied,
            reason: apply.reason,
            result_status,
            step,
            finished,
        })
    }
}

} // verus!
