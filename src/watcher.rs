//! The watcher's decisions: which steps are pushed to subscribers as typed
//! frames, and when a polled snapshot is worth a frame.

use vstd::prelude::*;
use crate::types::{CommandType, GameStatus, ResultStatus, StepEvent, StepEventType};

verus! {

pub open spec fn command_is(step: StepEvent, t: CommandType) -> bool {
    step.command is Some && step.command->0.command_type == t
}

/// A timeout took effect: by its event type, or a timeout command applied.
pub fn is_timeout_step(step: &StepEvent) -> (r: bool)
    ensures
        r == (step.event_type == StepEventType::TimeoutApplied || (command_is(
            *step,
            CommandType::Timeout,
        ) && step.result_status == ResultStatus::TimeoutApplied)),
{
    let timeout_command = match &step.command {
        Some(c) => c.command_type == CommandType::Timeout,
        None => false,
    };
    step.event_type == StepEventType::TimeoutApplied || (timeout_command && step.result_status
        == ResultStatus::TimeoutApplied)
}

pub fn is_game_finished_step(step: &StepEvent) -> (r: bool)
    ensures
        r == (step.event_type == StepEventType::GameFinished),
{
    step.event_type == StepEventType::GameFinished
}

/// An applied step whose command is of type `t`.
pub open spec fn applied_command(step: StepEvent, t: CommandType) -> bool {
    &&& step.event_type == StepEventType::StepApplied
    &&& step.result_status == ResultStatus::Applied
    &&& command_is(step, t)
}

fn is_applied_command(step: &StepEvent, t: CommandType) -> (r: bool)
    ensures
        r == applied_command(*step, t),
{
    let matches_type = match &step.command {
        Some(c) => c.command_type == t,
        None => false,
    };
    step.event_type == StepEventType::StepApplied && step.result_status == ResultStatus::Applied
        && matches_type
}

pub fn is_speak_step(step: &StepEvent) -> (r: bool)
    ensures
        r == applied_command(*step, CommandType::Speak),
{
    is_applied_command(step, CommandType::Speak)
}

pub fn is_shoot_step(step: &StepEvent) -> (r: bool)
    ensures
        r == applied_command(*step, CommandType::Shoot),
{
    is_applied_command(step, CommandType::Shoot)
}

/// The kind of a frame pushed to a subscriber after a poll.
#[derive(Debug, Clone, Copy, PartialEq, Eq, Structural)]
pub enum PollFrame {
    Snapshot,
    GameStarted,
    GameFinished,
}

/// What a subscriber has been sent so far.
#[derive(Debug, Clone, Copy)]
pub struct StreamCursor {
    pub last_sent_turn_no: u64,
    pub last_status: Option<GameStatus>,
    pub sent_initial: bool,
}

pub open spec fn max_u64(a: u64, b: u64) -> u64 {
    if a >= b { a } else { b }
}

/// The polled status differs from the last one seen (or none was seen).
pub open spec fn status_changed(c: StreamCursor, status: GameStatus) -> bool {
    c.last_status != Some(status)
}

/// A poll yields a frame on the first poll, when the turn advanced past the
/// last one sent, or when the status changed.
pub open spec fn poll_sends(c: StreamCursor, status: GameStatus, turn_no: u64) -> bool {
    !c.sent_initial || turn_no > c.last_sent_turn_no || status_changed(c, status)
}

impl StreamCursor {
    /// A cursor for a subscriber that starts at `from_turn_no`.
    pub fn new(from_turn_no: u64) -> (r: StreamCursor)
        ensures
            r.last_sent_turn_no == from_turn_no,
            r.last_status is None,
            !r.sent_initial,
    {
        StreamCursor { last_sent_turn_no: from_turn_no, last_status: None, sent_initial: false }
    }

    /// Takes in a polled snapshot and says which frame, if any, to push.
    pub fn on_snapshot(&mut self, status: GameStatus, turn_no: u64) -> (r: Option<PollFrame>)
        ensures
            r is Some <==> poll_sends(*old(self), status, turn_no),
            r == Some(PollFrame::GameStarted) <==> poll_sends(*old(self), status, turn_no)
                && old(self).last_status is Some && status_changed(*old(self), status) && status
                == GameStatus::Running,
            r == Some(PollFrame::GameFinished) <==> poll_sends(*old(self), status, turn_no)
                && old(self).last_status is Some && status_changed(*old(self), status) && status
                == GameStatus::Finished,
            final(self).last_sent_turn_no == max_u64(old(self).last_sent_turn_no, turn_no),
            final(self).last_status == Some(status),
            final(self).sent_initial == (old(self).sent_initial || r is Some),
    {
        let status_changed = match self.last_status {
            Some(prev) => prev != status,
            None => true,
        };
        let should_send = !self.sent_initial || turn_no > self.last_sent_turn_no || status_changed;
        let frame = if should_send {
            if status_changed && self.last_status.is_some() {
                if status == GameStatus::Running {
                    Some(PollFrame::GameStarted)
                } else if status == GameStatus::Finished {
                    Some(PollFrame::GameFinished)
                } else {
                    Some(PollFrame::Snapshot)
                }
            } else {
                Some(PollFrame::Snapshot)
            }
        } else {
            None
        };
        if should_send {
            self.sent_initial = true;
        }
        if turn_no > self.last_sent_turn_no {
            self.last_sent_turn_no = turn_no;
        }
        self.last_status = Some(status);
        frame
    }

    /// Takes in a typed frame pushed with a snapshot of `status` at
    /// `turn_no`.
    pub fn on_pushed(&mut self, status: GameStatus, turn_no: u64)
        ensures
            final(self).last_sent_turn_no == max_u64(old(self).last_sent_turn_no, turn_no),
            final(self).last_status == Some(status),
            final(self).sent_initial,
    {
        if turn_no > self.last_sent_turn_no {
            self.last_sent_turn_no = turn_no;
        }
        self.last_status = Some(status);
        self.sent_initial = true;
    }
}


/// The type of a typed frame pushed for a step.
#[derive(Debug, Clone, Copy, PartialEq, Eq, Structural)]
pub enum FrameKind {
    Move,
    Shoot,
    Shield,
    Speak,
    Timeout,
    GameStarted,
    GameFinished,
    StepApplied,
}

/// A step's frame type, from its event type and then its command's type.
pub open spec fn frame_of(step: StepEvent) -> FrameKind {
    match step.event_type {
        StepEventType::GameStarted => FrameKind::GameStarted,
        StepEventType::GameFinished => FrameKind::GameFinished,
        StepEventType::TimeoutApplied => FrameKind::Timeout,
        StepEventType::StepApplied => match step.command {
            None => FrameKind::StepApplied,
            Some(c) => match c.command_type {
                CommandType::Move => FrameKind::Move,
                CommandType::Shoot => FrameKind::Shoot,
                CommandType::Shield => FrameKind::Shield,
                CommandType::Speak => FrameKind::Speak,
                CommandType::Timeout => FrameKind::Timeout,
                CommandType::GameStarted => FrameKind::GameStarted,
            },
        },
    }
}

pub fn frame_kind(step: &StepEvent) -> (r: FrameKind)
    ensures
        r == frame_of(*step),
{
    match step.event_type {
        StepEventType::GameStarted => FrameKind::GameStarted,
        StepEventType::GameFinished => FrameKind::GameFinished,
        StepEventType::TimeoutApplied => FrameKind::Timeout,
        StepEventType::StepApplied => match &step.command {
            None => FrameKind::StepApplied,
            Some(c) => match c.command_type {
                CommandType::Move => FrameKind::Move,
                CommandType::Shoot => FrameKind::Shoot,
                CommandType::Shield => FrameKind::Shield,
                CommandType::Speak => FrameKind::Speak,
                CommandType::Timeout => FrameKind::Timeout,
                CommandType::GameStarted => FrameKind::GameStarted,
            },
        },
    }
}

pub open spec fn frame_code(k: FrameKind) -> Seq<char> {
    match k {
        FrameKind::Move => "MOVE"@,
        FrameKind::Shoot => "SHOOT"@,
        FrameKind::Shield => "SHIELD"@,
        FrameKind::Speak => "SPEAK"@,
        FrameKind::Timeout => "TIMEOUT"@,
        FrameKind::GameStarted => "GAME_STARTED"@,
        FrameKind::GameFinished => "GAME_FINISHED"@,
        FrameKind::StepApplied => "STEP_APPLIED"@,
    }
}

impl FrameKind {
    /// The frame's `event_type` on the wire.
    pub fn as_str(&self) -> (r: &'static str)
        ensures
            r@ == frame_code(*self),
    {
        match self {
            FrameKind::Move => "MOVE",
            FrameKind::Shoot => "SHOOT",
            FrameKind::Shield => "SHIELD",
            FrameKind::Speak => "SPEAK",
            FrameKind::Timeout => "TIMEOUT",
            FrameKind::GameStarted => "GAME_STARTED",
            FrameKind::GameFinished => "GAME_FINISHED",
            FrameKind::StepApplied => "STEP_APPLIED",
        }
    }
}

} // verus!
