//! The game authority: the single writer of a game's state. It runs the turn
//! machine and applies the board rules to commands of the current player.

use vstd::prelude::*;
use crate::rules::{
    RejectReason, reason_code, RuleOutcome, accepted_outcome, alive_count, alive_player_count, apply_move,
    apply_shoot, lemma_shoot_spares_shooter, move_result, on_map, rejected_outcome, same_seats,
    shoot_result,
};
use crate::text::{has_visible_text, option_has_text};
use crate::maps::{initial_players, seat_count, seat_name, seat_shield, spawn_cell};
use crate::types::{
    CommandEnvelope, CommandType, CreateGameRequest, DEFAULT_NUM_PLAYERS, DEFAULT_PLAYER_HP,
    DEFAULT_TURN_TIMEOUT_SECONDS, GameInstanceResponse, GameStateSnapshot, GameStatus, MapData,
    CreateGameResponse, MapSource, PlayerIdentity, PlayerState, ResultStatus, SnapshotResponse,
    StartGameResponse, StepEvent,
    StepEventType, SubmitCommandRequest, cells_of, map_wf, same_snapshot,
};

verus! {

/// The authoritative record of one game.
#[derive(Debug, Clone)]
pub struct GameInstance {
    pub game_id: String,
    pub status: GameStatus,
    pub map_source: MapSource,
    pub turn_timeout_seconds: u64,
    pub turn_no: u64,
    pub round_no: u64,
    pub current_player_id: String,
    pub created_at: i64,
    pub started_at: Option<i64>,
    pub turn_started_at: Option<i64>,
    pub state: GameStateSnapshot,
    pub last_step_seq: u64,
    pub input_topic: String,
    pub output_topic: String,
}

/// `i` is the first player whose id is `id`.
pub open spec fn is_first_with_id(players: Seq<PlayerState>, id: Seq<char>, i: int) -> bool {
    &&& 0 <= i < players.len()
    &&& players[i].player_id@ == id
    &&& forall|j: int| 0 <= j < i ==> (#[trigger] players[j]).player_id@ != id
}

pub open spec fn has_id(players: Seq<PlayerState>, id: Seq<char>) -> bool {
    exists|i: int| 0 <= i < players.len() && (#[trigger] players[i]).player_id@ == id
}

/// Some alive player carries the id `id`.
pub open spec fn alive_with_id(players: Seq<PlayerState>, id: Seq<char>) -> bool {
    exists|i: int|
        0 <= i < players.len() && (#[trigger] players[i]).player_id@ == id && players[i].alive
}

pub open spec fn index_of_id(players: Seq<PlayerState>, id: Seq<char>) -> int {
    choose|i: int| is_first_with_id(players, id, i)
}

pub proof fn lemma_index_of_id_unique(players: Seq<PlayerState>, id: Seq<char>, i: int)
    requires
        is_first_with_id(players, id, i),
    ensures
        index_of_id(players, id) == i,
{
    let k = index_of_id(players, id);
    assert(is_first_with_id(players, id, k));
    if k < i {
        assert(players[k].player_id@ != id);
    } else if i < k {
        assert(players[i].player_id@ != id);
    }
}

/// The index of the first player whose id is `id`.
pub fn position_of_id(players: &Vec<PlayerState>, id: &String) -> (r: Option<usize>)
    ensures
        match r {
            Some(i) => is_first_with_id(players@, id@, i as int),
            None => !has_id(players@, id@),
        },
{
    let mut i: usize = 0;
    while i < players.len()
        invariant
            i <= players@.len(),
            forall|j: int| 0 <= j < i ==> (#[trigger] players@[j]).player_id@ != id@,
        decreases players@.len() - i,
    {
        if players[i].player_id == *id {
            return Some(i);
        }
        i = i + 1;
    }
    None
}

/// The first alive seat among `cur + k, cur + k + 1, ..., cur + n` (mod `n`).
pub open spec fn next_alive_from(players: Seq<PlayerState>, cur: int, k: int) -> Option<int>
    decreases players.len() + 1 - k,
{
    if players.len() == 0 || k > players.len() || k < 1 {
        None
    } else {
        let j = (cur + k) % (players.len() as int);
        if players[j].alive {
            Some(j)
        } else {
            next_alive_from(players, cur, k + 1)
        }
    }
}

/// The seat that plays after the current one, if any is alive.
pub open spec fn next_seat(players: Seq<PlayerState>, current: Seq<char>) -> Option<int> {
    if has_id(players, current) {
        next_alive_from(players, index_of_id(players, current), 1)
    } else {
        None
    }
}

/// The turn fields `(current player, turn, round, turn start)` after the turn
/// passes on at time `now`, over the seats `players`.
pub open spec fn turn_after(
    players: Seq<PlayerState>,
    t: (String, u64, u64, Option<i64>),
    now: i64,
) -> (String, u64, u64, Option<i64>) {
    match next_seat(players, t.0@) {
        None => t,
        Some(j) => (
            players[j].player_id,
            (t.1 + 1) as u64,
            if j <= index_of_id(players, t.0@) {
                (t.2 + 1) as u64
            } else {
                t.2
            },
            Some(now),
        ),
    }
}

pub open spec fn turn_fields(g: GameInstance) -> (String, u64, u64, Option<i64>) {
    (g.current_player_id, g.turn_no, g.round_no, g.turn_started_at)
}

/// Everything but the turn fields, the board and the step counter agree.
pub open spec fn same_identity(a: GameInstance, b: GameInstance) -> bool {
    &&& a.game_id == b.game_id
    &&& a.status == b.status
    &&& a.map_source == b.map_source
    &&& a.turn_timeout_seconds == b.turn_timeout_seconds
    &&& a.created_at == b.created_at
    &&& a.started_at == b.started_at
    &&& a.input_topic == b.input_topic
    &&& a.output_topic == b.output_topic
}

proof fn lemma_wrap_index(cur: int, k: int, n: int)
    requires
        0 <= cur < n,
        1 <= k <= n,
    ensures
        (cur + k) % n == if cur + k < n { cur + k } else { cur + k - n },
{
    if cur + k < n {
        vstd::arithmetic::div_mod::lemma_small_mod((cur + k) as nat, n as nat);
    } else {
        vstd::arithmetic::div_mod::lemma_mod_add_multiples_vanish(cur + k - n, n);
        vstd::arithmetic::div_mod::lemma_small_mod((cur + k - n) as nat, n as nat);
    }
}

/// Passes the turn to the next alive player in seat order. The round number
/// grows when the order wraps past the current seat.
pub fn advance_turn(game: &mut GameInstance, now: i64)
    requires
        old(game).turn_no < u64::MAX,
        old(game).round_no < u64::MAX,
    ensures
        turn_fields(*final(game)) == turn_after(old(game).state.players@, turn_fields(*old(game)), now),
        same_identity(*final(game), *old(game)),
        final(game).state == old(game).state,
        final(game).last_step_seq == old(game).last_step_seq,
{
    let player_count = game.state.players.len();
    if player_count == 0 {
        return;
    }
    let current_index = match position_of_id(&game.state.players, &game.current_player_id) {
        Some(i) => i,
        None => {
            return;
        },
    };
    proof {
        lemma_index_of_id_unique(game.state.players@, game.current_player_id@, current_index as int);
    }
    let ghost players = game.state.players@;
    let mut k: usize = 0;
    while k < player_count
        invariant
            k <= player_count,
            player_count == players.len(),
            current_index < player_count,
            players == game.state.players@,
            *game == *old(game),
            game.turn_no < u64::MAX,
            game.round_no < u64::MAX,
            has_id(players, game.current_player_id@),
            index_of_id(players, game.current_player_id@) == current_index,
            next_alive_from(players, current_index as int, 1) == next_alive_from(
                players,
                current_index as int,
                k + 1,
            ),
        decreases player_count - k,
    {
        let step = k + 1;
        let rem = player_count - current_index;
        let next_index = if step < rem { current_index + step } else { step - rem };
        proof {
            lemma_wrap_index(current_index as int, step as int, player_count as int);
        }
        if game.state.players[next_index].alive {
            if next_index <= current_index {
                game.round_no = game.round_no + 1;
            }
            game.current_player_id = game.state.players[next_index].player_id.clone();
            game.turn_no = game.turn_no + 1;
            game.turn_started_at = Some(now);
            return;
        }
        k = k + 1;
    }
}


/// From an alive seat `cur`, a search over `k..n` seats ahead finds an alive
/// seat.
pub proof fn lemma_next_alive_found(players: Seq<PlayerState>, cur: int, k: int)
    requires
        0 <= cur < players.len(),
        players[cur].alive,
        1 <= k <= players.len(),
    ensures
        next_alive_from(players, cur, k) is Some,
        0 <= next_alive_from(players, cur, k)->0 < players.len(),
        players[next_alive_from(players, cur, k)->0].alive,
    decreases players.len() + 1 - k,
{
    let n = players.len() as int;
    lemma_wrap_index(cur, k, n);
    if k < n && !players[(cur + k) % n].alive {
        lemma_next_alive_found(players, cur, k + 1);
    }
}

/// The game is well formed: its map is a full grid with every player on
/// it, every player has a non-empty id, and the current player is an alive
/// player of the game exactly while the game has not finished.
pub open spec fn game_wf(g: GameInstance) -> bool {
    &&& map_wf(&g.state.map)
    &&& on_map(g.state.map.rows as int, g.state.map.cols as int, g.state.players@)
    &&& forall|i: int| 0 <= i < g.state.players@.len() ==> (#[trigger] g.state.players@[i]).player_id@.len() > 0
    &&& (g.status != GameStatus::Finished <==> alive_with_id(g.state.players@, g.current_player_id@))
}

/// `f` is `p` finished: its status is Finished, it has no current player
/// any more, and its GameFinished step took the next sequence number.
pub open spec fn finished_from(p: GameInstance, f: GameInstance) -> bool {
    &&& f == (GameInstance {
        status: GameStatus::Finished,
        current_player_id: f.current_player_id,
        last_step_seq: (p.last_step_seq + 1) as u64,
        ..p
    })
    &&& f.current_player_id@.len() == 0
}

/// The authority's answer to a command.
#[derive(Debug, Clone)]
pub struct ApplyCommandResponse {
    pub accepted: bool,
    pub applied: bool,
    pub reason: Option<RejectReason>,
    pub turn_no: u64,
    pub round_no: u64,
    pub current_player_id: String,
    pub status: GameStatus,
}

/// Why the authority refuses a command before looking at its content.
pub open spec fn turn_refusal(g: GameInstance, req: SubmitCommandRequest) -> Option<RejectReason> {
    if g.status != GameStatus::Running {
        Some(RejectReason::GameNotRunning)
    } else if req.player_id@ != g.current_player_id@ {
        Some(RejectReason::InvalidTurnPlayer)
    } else if req.turn_no != g.turn_no {
        Some(RejectReason::StaleTurnNo)
    } else if !g.state.players@[index_of_id(g.state.players@, req.player_id@)].alive {
        Some(RejectReason::PlayerDead)
    } else {
        None
    }
}

/// The board and outcome after player `idx` plays `req`.
pub open spec fn command_effect(
    rows: int,
    cols: int,
    cells: Seq<Seq<i32>>,
    players: Seq<PlayerState>,
    idx: int,
    req: SubmitCommandRequest,
) -> (Seq<Seq<i32>>, Seq<PlayerState>, RuleOutcome) {
    match req.command_type {
        CommandType::Move => match req.direction {
            Some(d) => {
                let m = move_result(rows, cols, cells, players, idx, d);
                (cells, m.0, m.1)
            },
            None => (cells, players, rejected_outcome(RejectReason::MissingDirection)),
        },
        CommandType::Shield => match req.direction {
            Some(d) => (
                cells,
                players.update(idx, PlayerState { shield: d, ..players[idx] }),
                accepted_outcome(),
            ),
            None => (cells, players, rejected_outcome(RejectReason::MissingDirection)),
        },
        CommandType::Shoot => match req.direction {
            Some(d) => shoot_result(rows, cols, cells, players, idx, d),
            None => (cells, players, rejected_outcome(RejectReason::MissingDirection)),
        },
        CommandType::Speak => if match req.speak_text {
            Some(t) => has_visible_text(t@),
            None => false,
        } {
            (cells, players, accepted_outcome())
        } else {
            (cells, players, rejected_outcome(RejectReason::MissingSpeakText))
        },
        CommandType::Timeout => (cells, players, accepted_outcome()),
        CommandType::GameStarted => (
            cells,
            players,
            rejected_outcome(RejectReason::ReservedCommandType),
        ),
    }
}

/// The effect of `req` on the game `g`, from the seat that sent it.
pub open spec fn effect_of(g: GameInstance, req: SubmitCommandRequest) -> (
    Seq<Seq<i32>>,
    Seq<PlayerState>,
    RuleOutcome,
) {
    command_effect(
        g.state.map.rows as int,
        g.state.map.cols as int,
        cells_of(&g.state.map),
        g.state.players@,
        index_of_id(g.state.players@, req.player_id@),
        req,
    )
}

/// `after` is `before` with `req` applied at time `now`: the rule's board,
/// and when the rule uses up the turn, the next turn and one more step.
pub open spec fn applied_to(before: GameInstance, after: GameInstance, req: SubmitCommandRequest, now: i64) -> bool {
    let eff = effect_of(before, req);
    &&& same_identity(after, before)
    &&& after.state.map.rows == before.state.map.rows
    &&& after.state.map.cols == before.state.map.cols
    &&& cells_of(&after.state.map) == eff.0
    &&& after.state.players@ == eff.1
    &&& if eff.2.consume_turn {
        &&& turn_fields(after) == turn_after(eff.1, turn_fields(before), now)
        &&& after.last_step_seq == before.last_step_seq + 1
    } else {
        &&& turn_fields(after) == turn_fields(before)
        &&& after.last_step_seq == before.last_step_seq
    }
}

pub open spec fn reports(r: ApplyCommandResponse, g: GameInstance) -> bool {
    &&& r.turn_no == g.turn_no
    &&& r.round_no == g.round_no
    &&& r.current_player_id == g.current_player_id
    &&& r.status == g.status
}

/// No counter of the game is at its limit.
pub open spec fn counters_open(g: GameInstance) -> bool {
    &&& g.turn_no < u64::MAX
    &&& g.round_no < u64::MAX
    &&& g.last_step_seq < u64::MAX
}

impl GameInstance {
    /// Applies a command of the current player. Commands are refused while
    /// the game is not running, from another player, for another turn, or
    /// from a dead player; otherwise the rule for the command type decides,
    /// and only a rule that uses up the turn passes it on.
    pub fn apply_command(&mut self, request: &SubmitCommandRequest, now: i64) -> (r: ApplyCommandResponse)
        requires
            game_wf(*old(self)),
            counters_open(*old(self)),
        ensures
            game_wf(*final(self)),
            reports(r, *final(self)),
            final(self).last_step_seq == if r.applied {
                old(self).last_step_seq + 1
            } else {
                old(self).last_step_seq as int
            },
            match turn_refusal(*old(self), *request) {
                Some(reason) => {
                    &&& *final(self) == *old(self)
                    &&& !r.accepted
                    &&& !r.applied
                    &&& r.reason == Some(reason)
                },
                None => {
                    let eff = effect_of(*old(self), *request);
                    &&& applied_to(*old(self), *final(self), *request, now)
                    &&& (eff.2.consume_turn ==> final(self).turn_no == old(self).turn_no + 1)
                    &&& r.accepted
                    &&& r.applied == eff.2.applied
                    &&& r.reason == eff.2.reason
                },
            },
    {
        let reason = self.refusal(request);
        match reason {
            Some(reason) => {
                return ApplyCommandResponse {
                    accepted: false,
                    applied: false,
                    reason: Some(reason),
                    turn_no: self.turn_no,
                    round_no: self.round_no,
                    current_player_id: self.current_player_id.clone(),
                    status: self.status,
                };
            },
            None => {},
        }
        let ghost g0 = *self;
        let player_idx = match position_of_id(&self.state.players, &request.player_id) {
            Some(i) => i,
            None => {
                // No refusal: the current player's id is in the game.
                proof {
                    assert(false);
                }
                0
            },
        };
        proof {
            lemma_index_of_id_unique(self.state.players@, request.player_id@, player_idx as int);
        }
        let outcome = match request.command_type {
            CommandType::Move => match request.direction {
                Some(dir) => apply_move(&mut self.state, player_idx, dir),
                None => RuleOutcome { applied: false, consume_turn: false, reason: Some(RejectReason::MissingDirection) },
            },
            CommandType::Shield => match request.direction {
                Some(dir) => {
                    self.state.players[player_idx].shield = dir;
                    RuleOutcome { applied: true, consume_turn: true, reason: None }
                },
                None => RuleOutcome { applied: false, consume_turn: false, reason: Some(RejectReason::MissingDirection) },
            },
            CommandType::Shoot => match request.direction {
                Some(dir) => {
                    proof {
                        lemma_shoot_spares_shooter(
                            g0.state.map.rows as int,
                            g0.state.map.cols as int,
                            cells_of(&g0.state.map),
                            g0.state.players@,
                            player_idx as int,
                            dir,
                        );
                    }
                    apply_shoot(&mut self.state, player_idx, dir)
                },
                None => RuleOutcome { applied: false, consume_turn: false, reason: Some(RejectReason::MissingDirection) },
            },
            CommandType::Speak => {
                if option_has_text(&request.speak_text) {
                    RuleOutcome { applied: true, consume_turn: true, reason: None }
                } else {
                    RuleOutcome { applied: false, consume_turn: false, reason: Some(RejectReason::MissingSpeakText) }
                }
            },
            CommandType::Timeout => RuleOutcome { applied: true, consume_turn: true, reason: None },
            CommandType::GameStarted => RuleOutcome { applied: false, consume_turn: false, reason: Some(RejectReason::ReservedCommandType) },
        };
        assert(cells_of(&self.state.map) == effect_of(g0, *request).0);
        assert(self.state.players@ == effect_of(g0, *request).1);
        assert(same_seats(g0.state.players@, self.state.players@));
        assert(self.state.players@[player_idx as int].alive);
        assert forall|j: int| 0 <= j < player_idx implies (#[trigger] self.state.players@[j]).player_id@
            != request.player_id@ by {
            assert(g0.state.players@[j].player_id == self.state.players@[j].player_id);
        }
        proof {
            lemma_index_of_id_unique(self.state.players@, request.player_id@, player_idx as int);
        }
        if outcome.consume_turn {
            proof {
                lemma_next_alive_found(self.state.players@, player_idx as int, 1);
            }
            advance_turn(self, now);
            self.last_step_seq = self.last_step_seq + 1;
        }
        ApplyCommandResponse {
            accepted: true,
            applied: outcome.applied,
            reason: outcome.reason,
            turn_no: self.turn_no,
            round_no: self.round_no,
            current_player_id: self.current_player_id.clone(),
            status: self.status,
        }
    }

    /// Takes the next step sequence number for a step of this game.
    pub fn number_step(&mut self) -> (r: u64)
        requires
            old(self).last_step_seq < u64::MAX,
        ensures
            r == old(self).last_step_seq + 1,
            *final(self) == (GameInstance { last_step_seq: r, ..*old(self) }),
    {
        self.last_step_seq = self.last_step_seq + 1;
        self.last_step_seq
    }

    /// The refusal that comes before any rule, if any.
    fn refusal(&self, request: &SubmitCommandRequest) -> (r: Option<RejectReason>)
        requires
            game_wf(*self),
        ensures
            r == turn_refusal(*self, *request),
    {
        if self.status != GameStatus::Running {
            return Some(RejectReason::GameNotRunning);
        }
        if request.player_id != self.current_player_id {
            return Some(RejectReason::InvalidTurnPlayer);
        }
        if request.turn_no != self.turn_no {
            return Some(RejectReason::StaleTurnNo);
        }
        match position_of_id(&self.state.players, &request.player_id) {
            Some(i) => {
                proof {
                    lemma_index_of_id_unique(self.state.players@, request.player_id@, i as int);
                }
                if !self.state.players[i].alive {
                    return Some(RejectReason::PlayerDead);
                }
                None
            },
            None => {
                // Unreachable: a running game holds its current player's id.
                proof {
                    let w = choose|w: int|
                        0 <= w < self.state.players@.len() && (#[trigger] self.state.players@[w]).player_id@
                            == self.current_player_id@ && self.state.players@[w].alive;
                    assert(has_id(self.state.players@, request.player_id@));
                }
                None
            },
        }
    }
}


/// A map the rules can run on: a full grid of at least one cell.
pub open spec fn map_usable(m: &MapData) -> bool {
    &&& map_wf(m)
    &&& m.rows >= 1
    &&& m.cols >= 1
}

pub fn check_map(m: &MapData) -> (r: bool)
    ensures
        r == map_usable(m),
{
    if m.rows < 1 || m.cols < 1 || m.cells.len() != m.rows {
        return false;
    }
    let mut i: usize = 0;
    while i < m.cells.len()
        invariant
            i <= m.cells@.len(),
            m.cells@.len() == m.rows,
            forall|k: int| 0 <= k < i ==> (#[trigger] m.cells@[k])@.len() == m.cols,
        decreases m.cells@.len() - i,
    {
        if m.cells[i].len() != m.cols {
            return false;
        }
        i = i + 1;
    }
    true
}

#[derive(Debug, Clone, Copy, PartialEq, Eq, Structural)]
pub enum CreateGameError {
    /// The supplied map is not a full grid of at least one cell.
    InvalidMap,
}

pub open spec fn timeout_of(requested: Option<u64>) -> u64 {
    match requested {
        Some(t) => if t < 1 { 1 } else { t },
        None => DEFAULT_TURN_TIMEOUT_SECONDS,
    }
}

pub open spec fn requested_players(n: Option<u8>) -> u8 {
    match n {
        Some(k) => k,
        None => DEFAULT_NUM_PLAYERS,
    }
}

/// A new game in state Created, on the supplied map (source Custom) or on
/// `default_map` (source Default), with seats A.. on the mid-edges and the
/// turn at seat A. The turn timeout is the requested one, at least 1 s,
/// else 120 s; the player count is the requested one clamped to 1..4, else 2.
pub fn create_game(
    game_id: String,
    input_topic: String,
    output_topic: String,
    request: CreateGameRequest,
    default_map: MapData,
    now: i64,
) -> (r: Result<GameInstance, CreateGameError>)
    ensures
        ({
            let map = match request.map {
                Some(m) => m,
                None => default_map,
            };
            match r {
                Err(e) => e == CreateGameError::InvalidMap && !map_usable(&map),
                Ok(g) => {
                    let players = g.state.players@;
                    &&& map_usable(&map)
                    &&& game_wf(g)
                    &&& g.game_id == game_id
                    &&& g.input_topic == input_topic
                    &&& g.output_topic == output_topic
                    &&& g.status == GameStatus::Created
                    &&& g.map_source == if request.map is Some {
                        MapSource::Custom
                    } else {
                        MapSource::Default
                    }
                    &&& g.state.map == map
                    &&& g.turn_timeout_seconds == timeout_of(request.turn_timeout_seconds)
                    &&& g.turn_no == 1
                    &&& g.round_no == 1
                    &&& g.last_step_seq == 0
                    &&& g.created_at == now
                    &&& g.started_at is None
                    &&& g.turn_started_at is None
                    &&& players.len() == seat_count(requested_players(request.num_players))
                    &&& g.current_player_id == players[0].player_id
                    &&& forall|i: int|
                        0 <= i < players.len() ==> {
                            &&& (#[trigger] players[i]).player_name == seat_name(i)
                            &&& players[i].hp == DEFAULT_PLAYER_HP
                            &&& (players[i].row as int, players[i].col as int) == spawn_cell(
                                map.rows as int,
                                map.cols as int,
                                i,
                            )
                            &&& players[i].shield == seat_shield(i)
                            &&& players[i].alive
                        }
                },
            }
        }),
{
    let timeout = match request.turn_timeout_seconds {
        Some(t) => if t < 1 { 1 } else { t },
        None => DEFAULT_TURN_TIMEOUT_SECONDS,
    };
    let num_players = match request.num_players {
        Some(k) => k,
        None => DEFAULT_NUM_PLAYERS,
    };
    let (map_source, map) = match request.map {
        Some(m) => (MapSource::Custom, m),
        None => (MapSource::Default, default_map),
    };
    if !check_map(&map) {
        return Err(CreateGameError::InvalidMap);
    }
    let players = initial_players(map.rows, map.cols, DEFAULT_PLAYER_HP, num_players);
    let current_player_id = players[0].player_id.clone();
    assert(players@[0].player_id@ == current_player_id@ && players@[0].alive);
    Ok(
        GameInstance {
            game_id,
            status: GameStatus::Created,
            map_source,
            turn_timeout_seconds: timeout,
            turn_no: 1,
            round_no: 1,
            current_player_id,
            created_at: now,
            started_at: None,
            turn_started_at: None,
            state: GameStateSnapshot { map, players },
            last_step_seq: 0,
            input_topic,
            output_topic,
        },
    )
}

/// The authority's answer to a finish request.
#[derive(Debug, Clone)]
pub struct FinishOutcome {
    pub finished: bool,
    pub reason: Option<RejectReason>,
    pub status: GameStatus,
    pub winner_player_id: Option<String>,
    pub turn_no: u64,
    pub round_no: u64,
    pub current_player_id: String,
}

/// Why a start request changes nothing, if it does not.
pub open spec fn start_refusal(status: GameStatus) -> Option<RejectReason> {
    match status {
        GameStatus::Running => Some(RejectReason::AlreadyRunning),
        GameStatus::Finished => Some(RejectReason::GameFinished),
        GameStatus::Created => None,
    }
}

/// Why a finish request changes nothing, if it does not.
pub open spec fn finish_refusal(g: GameInstance, expected_turn_no: Option<u64>) -> Option<RejectReason> {
    if expected_turn_no is Some && expected_turn_no->0 != g.turn_no {
        Some(RejectReason::StaleTurnNo)
    } else if g.status == GameStatus::Finished {
        Some(RejectReason::AlreadyFinished)
    } else if alive_count(g.state.players@) != 1 {
        Some(RejectReason::NotLastPlayerLeft)
    } else {
        None
    }
}

/// `i` is the first alive player.
pub open spec fn is_first_alive(players: Seq<PlayerState>, i: int) -> bool {
    &&& 0 <= i < players.len()
    &&& players[i].alive
    &&& forall|j: int| 0 <= j < i ==> !(#[trigger] players[j]).alive
}

/// The id of the first alive player, the winner once one is left.
pub fn winner_player_id(players: &Vec<PlayerState>) -> (r: Option<String>)
    ensures
        match r {
            Some(id) => exists|i: int| is_first_alive(players@, i) && id == players@[i].player_id,
            None => forall|i: int| 0 <= i < players@.len() ==> !(#[trigger] players@[i]).alive,
        },
{
    let mut i: usize = 0;
    while i < players.len()
        invariant
            i <= players@.len(),
            forall|j: int| 0 <= j < i ==> !(#[trigger] players@[j]).alive,
        decreases players@.len() - i,
    {
        if players[i].alive {
            assert(is_first_alive(players@, i as int));
            return Some(players[i].player_id.clone());
        }
        i = i + 1;
    }
    None
}

/// A step event of this game at sequence number `seq`, carrying a copy of
/// the board.
pub open spec fn event_of(
    e: StepEvent,
    g: GameInstance,
    seq: u64,
    event_type: StepEventType,
    result_status: ResultStatus,
    command: Option<CommandEnvelope>,
    now: i64,
) -> bool {
    &&& e.game_id == g.game_id
    &&& e.step_seq == seq
    &&& e.turn_no == g.turn_no
    &&& e.round_no == g.round_no
    &&& e.event_type == event_type
    &&& e.result_status == result_status
    &&& e.command == command
    &&& same_snapshot(&e.state_after, &g.state)
    &&& e.created_at == now
}

pub fn build_step_event(
    game: &GameInstance,
    seq: u64,
    event_type: StepEventType,
    result_status: ResultStatus,
    command: Option<CommandEnvelope>,
    now: i64,
) -> (r: StepEvent)
    ensures
        event_of(r, *game, seq, event_type, result_status, command, now),
{
    StepEvent {
        game_id: game.game_id.clone(),
        step_seq: seq,
        turn_no: game.turn_no,
        round_no: game.round_no,
        event_type,
        result_status,
        command,
        state_after: game.state.copy(),
        created_at: now,
    }
}

impl GameInstance {
    /// Starts a created game: it runs from `now` on and a GameStarted step
    /// is emitted. A running or finished game is left as it is.
    pub fn start(&mut self, now: i64) -> (r: (StartGameResponse, Option<StepEvent>))
        requires
            game_wf(*old(self)),
            counters_open(*old(self)),
        ensures
            game_wf(*final(self)),
            r.0.game_id == final(self).game_id,
            r.0.status == final(self).status,
            r.0.turn_no == final(self).turn_no,
            r.0.round_no == final(self).round_no,
            r.0.current_player_id == final(self).current_player_id,
            r.0.started_at == final(self).started_at,
            match start_refusal(old(self).status) {
                Some(reason) => {
                    &&& *final(self) == *old(self)
                    &&& !r.0.started
                    &&& r.0.reason is Some
                    &&& r.0.reason->0@ == reason_code(reason)
                    &&& r.1 is None
                },
                None => {
                    &&& r.0.started
                    &&& r.0.reason is None
                    &&& *final(self) == (GameInstance {
                        status: GameStatus::Running,
                        started_at: Some(now),
                        turn_started_at: Some(now),
                        last_step_seq: (old(self).last_step_seq + 1) as u64,
                        ..*old(self)
                    })
                    &&& r.1 is Some
                    &&& event_of(
                        r.1->0,
                        *final(self),
                        final(self).last_step_seq,
                        StepEventType::GameStarted,
                        ResultStatus::Applied,
                        None,
                        now,
                    )
                },
            },
    {
        let refusal = match self.status {
            GameStatus::Running => Some(RejectReason::AlreadyRunning),
            GameStatus::Finished => Some(RejectReason::GameFinished),
            GameStatus::Created => None,
        };
        match refusal {
            Some(reason) => (
                StartGameResponse {
                    game_id: self.game_id.clone(),
                    started: false,
                    reason: Some(String::from_str(reason.as_str())),
                    status: self.status,
                    turn_no: self.turn_no,
                    round_no: self.round_no,
                    current_player_id: self.current_player_id.clone(),
                    started_at: self.started_at,
                },
                None,
            ),
            None => {
                self.status = GameStatus::Running;
                self.started_at = Some(now);
                self.turn_started_at = Some(now);
                self.last_step_seq = self.last_step_seq + 1;
                let event = build_step_event(
                    self,
                    self.last_step_seq,
                    StepEventType::GameStarted,
                    ResultStatus::Applied,
                    None,
                    now,
                );
                (
                    StartGameResponse {
                        game_id: self.game_id.clone(),
                        started: true,
                        reason: None,
                        status: self.status,
                        turn_no: self.turn_no,
                        round_no: self.round_no,
                        current_player_id: self.current_player_id.clone(),
                        started_at: self.started_at,
                    },
                    Some(event),
                )
            },
        }
    }

    /// Finishes the game once exactly one player is alive, unless the turn
    /// is not `expected_turn_no` or the game has already finished. The
    /// finished game has no current player, and its GameFinished step takes
    /// the next sequence number, which the game keeps as its last.
    pub fn finish(&mut self, expected_turn_no: Option<u64>, now: i64) -> (r: (FinishOutcome, Option<StepEvent>))
        requires
            game_wf(*old(self)),
            old(self).last_step_seq < u64::MAX,
        ensures
            game_wf(*final(self)),
            r.0.status == final(self).status,
            r.0.turn_no == final(self).turn_no,
            r.0.round_no == final(self).round_no,
            r.0.current_player_id == final(self).current_player_id,
            match r.0.winner_player_id {
                Some(id) => exists|i: int|
                    is_first_alive(final(self).state.players@, i) && id
                        == final(self).state.players@[i].player_id,
                None => alive_count(final(self).state.players@) == 0,
            },
            match finish_refusal(*old(self), expected_turn_no) {
                Some(reason) => {
                    &&& *final(self) == *old(self)
                    &&& !r.0.finished
                    &&& r.0.reason == Some(reason)
                    &&& r.1 is None
                },
                None => {
                    &&& r.0.finished
                    &&& r.0.reason is None
                    &&& alive_count(old(self).state.players@) == 1
                    &&& finished_from(*old(self), *final(self))
                    &&& r.1 is Some
                    &&& event_of(
                        r.1->0,
                        *final(self),
                        final(self).last_step_seq,
                        StepEventType::GameFinished,
                        ResultStatus::Applied,
                        None,
                        now,
                    )
                },
            },
    {
        let alive = alive_player_count(&self.state.players);
        let refusal = match expected_turn_no {
            Some(t) if t != self.turn_no => Some(RejectReason::StaleTurnNo),
            _ => if self.status == GameStatus::Finished {
                Some(RejectReason::AlreadyFinished)
            } else if alive != 1 {
                Some(RejectReason::NotLastPlayerLeft)
            } else {
                None
            },
        };
        let winner = winner_player_id(&self.state.players);
        proof {
            if winner is None {
                lemma_no_alive_count(self.state.players@);
            }
        }
        match refusal {
            Some(reason) => (
                FinishOutcome {
                    finished: false,
                    reason: Some(reason),
                    status: self.status,
                    winner_player_id: winner,
                    turn_no: self.turn_no,
                    round_no: self.round_no,
                    current_player_id: self.current_player_id.clone(),
                },
                None,
            ),
            None => {
                self.status = GameStatus::Finished;
                self.current_player_id = String::new();
                self.last_step_seq = self.last_step_seq + 1;
                proof {
                    assert forall|i: int| 0 <= i < self.state.players@.len() implies (#[trigger] self.state.players@[i]).player_id@
                        != self.current_player_id@ by {
                        assert(self.state.players@[i].player_id@.len() > 0);
                    }
                }
                let event = build_step_event(
                    self,
                    self.last_step_seq,
                    StepEventType::GameFinished,
                    ResultStatus::Applied,
                    None,
                    now,
                );
                (
                    FinishOutcome {
                        finished: true,
                        reason: None,
                        status: self.status,
                        winner_player_id: winner,
                        turn_no: self.turn_no,
                        round_no: self.round_no,
                        current_player_id: self.current_player_id.clone(),
                    },
                    Some(event),
                )
            },
        }
    }

    /// A read-only view of the game, with its topic names.
    pub fn to_response(&self) -> (r: GameInstanceResponse)
        ensures
            r.game_id == self.game_id,
            r.status == self.status,
            r.map_source == self.map_source,
            r.turn_timeout_seconds == self.turn_timeout_seconds,
            r.turn_no == self.turn_no,
            r.round_no == self.round_no,
            r.current_player_id == self.current_player_id,
            r.created_at == self.created_at,
            r.started_at == self.started_at,
            r.turn_started_at == self.turn_started_at,
            r.input_topic == Some(self.input_topic),
            r.output_topic == Some(self.output_topic),
            same_snapshot(&r.state, &self.state),
    {
        GameInstanceResponse {
            game_id: self.game_id.clone(),
            status: self.status,
            map_source: self.map_source,
            turn_timeout_seconds: self.turn_timeout_seconds,
            turn_no: self.turn_no,
            round_no: self.round_no,
            current_player_id: self.current_player_id.clone(),
            created_at: self.created_at,
            started_at: self.started_at,
            turn_started_at: self.turn_started_at,
            input_topic: Some(self.input_topic.clone()),
            output_topic: Some(self.output_topic.clone()),
            state: self.state.copy(),
        }
    }

    /// The answer to the creator of the game.
    pub fn create_response(&self) -> (r: CreateGameResponse)
        ensures
            r.game_id == self.game_id,
            r.status == self.status,
            r.map_source == self.map_source,
            r.turn_no == self.turn_no,
            r.round_no == self.round_no,
            r.current_player_id == self.current_player_id,
            r.turn_timeout_seconds == self.turn_timeout_seconds,
            r.created_at == self.created_at,
            r.players@.len() == self.state.players@.len(),
            forall|i: int|
                0 <= i < r.players@.len() ==> (#[trigger] r.players@[i]).player_name
                    == self.state.players@[i].player_name && r.players@[i].player_id
                    == self.state.players@[i].player_id,
    {
        CreateGameResponse {
            game_id: self.game_id.clone(),
            status: self.status,
            map_source: self.map_source,
            turn_no: self.turn_no,
            round_no: self.round_no,
            current_player_id: self.current_player_id.clone(),
            players: self.identities(),
            turn_timeout_seconds: self.turn_timeout_seconds,
            created_at: self.created_at,
        }
    }

    /// The seat names and ids of the game's players, in seat order.
    pub fn identities(&self) -> (r: Vec<PlayerIdentity>)
        ensures
            r@.len() == self.state.players@.len(),
            forall|i: int|
                0 <= i < r@.len() ==> (#[trigger] r@[i]).player_name
                    == self.state.players@[i].player_name && r@[i].player_id
                    == self.state.players@[i].player_id,
    {
        let mut out: Vec<PlayerIdentity> = Vec::new();
        let mut i: usize = 0;
        while i < self.state.players.len()
            invariant
                i <= self.state.players@.len(),
                out@.len() == i,
                forall|k: int|
                    0 <= k < i ==> (#[trigger] out@[k]).player_name
                        == self.state.players@[k].player_name && out@[k].player_id
                        == self.state.players@[k].player_id,
            decreases self.state.players@.len() - i,
        {
            out.push(
                PlayerIdentity {
                    player_name: self.state.players[i].player_name,
                    player_id: self.state.players[i].player_id.clone(),
                },
            );
            i = i + 1;
        }
        out
    }
}

pub proof fn lemma_no_alive_count(players: Seq<PlayerState>)
    requires
        forall|i: int| 0 <= i < players.len() ==> !(#[trigger] players[i]).alive,
    ensures
        alive_count(players) == 0,
    decreases players.len(),
{
    if players.len() > 0 {
        let init = players.drop_last();
        assert forall|i: int| 0 <= i < init.len() implies !(#[trigger] init[i]).alive by {
            assert(init[i] == players[i]);
        }
        lemma_no_alive_count(init);
    }
}

/// The watcher's view of a game: the turn number serves as the cursor.
pub fn to_snapshot(game: GameInstanceResponse) -> (r: SnapshotResponse)
    ensures
        r.game_id == game.game_id,
        r.status == game.status,
        r.turn_no == game.turn_no,
        r.round_no == game.round_no,
        r.current_player_id == game.current_player_id,
        r.state == game.state,
        r.last_step_seq == game.turn_no,
        r.turn_started_at == game.turn_started_at,
{
    SnapshotResponse {
        game_id: game.game_id,
        status: game.status,
        turn_no: game.turn_no,
        round_no: game.round_no,
        current_player_id: game.current_player_id,
        state: game.state,
        last_step_seq: game.turn_no,
        turn_started_at: game.turn_started_at,
    }
}

} // verus!
