//! The board rules: movement, shooting with a perpendicular laser sweep,
//! shields, speaking and turn rotation. Every rejection leaves the state as
//! it was.

use vstd::prelude::*;
use crate::types::{Direction, GameStateSnapshot, MapData, PlayerState, cells_of, map_wf};

verus! {

/// Why the authority or the pipeline turned a request down.
#[derive(Debug, Clone, Copy, PartialEq, Eq, Structural)]
pub enum RejectReason {
    GameNotRunning,
    InvalidTurnPlayer,
    StaleTurnNo,
    PlayerDead,
    MoveOutOfBounds,
    MoveBlockedByBlock,
    MoveBlockedByPlayer,
    CannotShootThroughOwnShield,
    ShootBlockedByEdge,
    ShootBlockedByBlock,
    ShootBlockedByPlayer,
    MissingDirection,
    MissingSpeakText,
    ReservedCommandType,
    NotLastPlayerLeft,
    AlreadyFinished,
    AlreadyRunning,
    GameFinished,
    DuplicateCommand,
    LateTimeoutIgnored,
    LateCommandIgnored,
}

pub open spec fn reason_code(r: RejectReason) -> Seq<char> {
    match r {
        RejectReason::GameNotRunning => "GAME_NOT_RUNNING"@,
        RejectReason::InvalidTurnPlayer => "INVALID_TURN_PLAYER"@,
        RejectReason::StaleTurnNo => "STALE_TURN_NO"@,
        RejectReason::PlayerDead => "PLAYER_DEAD"@,
        RejectReason::MoveOutOfBounds => "MOVE_OUT_OF_BOUNDS"@,
        RejectReason::MoveBlockedByBlock => "MOVE_BLOCKED_BY_BLOCK"@,
        RejectReason::MoveBlockedByPlayer => "MOVE_BLOCKED_BY_PLAYER"@,
        RejectReason::CannotShootThroughOwnShield => "CANNOT_SHOOT_THROUGH_OWN_SHIELD"@,
        RejectReason::ShootBlockedByEdge => "SHOOT_BLOCKED_BY_EDGE"@,
        RejectReason::ShootBlockedByBlock => "SHOOT_BLOCKED_BY_BLOCK"@,
        RejectReason::ShootBlockedByPlayer => "SHOOT_BLOCKED_BY_PLAYER"@,
        RejectReason::MissingDirection => "MISSING_DIRECTION"@,
        RejectReason::MissingSpeakText => "MISSING_SPEAK_TEXT"@,
        RejectReason::ReservedCommandType => "RESERVED_COMMAND_TYPE"@,
        RejectReason::NotLastPlayerLeft => "NOT_LAST_PLAYER_LEFT"@,
        RejectReason::AlreadyFinished => "ALREADY_FINISHED"@,
        RejectReason::AlreadyRunning => "ALREADY_RUNNING"@,
        RejectReason::GameFinished => "GAME_FINISHED"@,
        RejectReason::DuplicateCommand => "DUPLICATE_COMMAND"@,
        RejectReason::LateTimeoutIgnored => "LATE_TIMEOUT_IGNORED"@,
        RejectReason::LateCommandIgnored => "LATE_COMMAND_IGNORED"@,
    }
}

impl RejectReason {
    /// The wire code of the reason, e.g. `SHOOT_BLOCKED_BY_EDGE`.
    pub fn as_str(&self) -> (r: &'static str)
        ensures
            r@ == reason_code(*self),
    {
        match self {
            RejectReason::GameNotRunning => "GAME_NOT_RUNNING",
            RejectReason::InvalidTurnPlayer => "INVALID_TURN_PLAYER",
            RejectReason::StaleTurnNo => "STALE_TURN_NO",
            RejectReason::PlayerDead => "PLAYER_DEAD",
            RejectReason::MoveOutOfBounds => "MOVE_OUT_OF_BOUNDS",
            RejectReason::MoveBlockedByBlock => "MOVE_BLOCKED_BY_BLOCK",
            RejectReason::MoveBlockedByPlayer => "MOVE_BLOCKED_BY_PLAYER",
            RejectReason::CannotShootThroughOwnShield => "CANNOT_SHOOT_THROUGH_OWN_SHIELD",
            RejectReason::ShootBlockedByEdge => "SHOOT_BLOCKED_BY_EDGE",
            RejectReason::ShootBlockedByBlock => "SHOOT_BLOCKED_BY_BLOCK",
            RejectReason::ShootBlockedByPlayer => "SHOOT_BLOCKED_BY_PLAYER",
            RejectReason::MissingDirection => "MISSING_DIRECTION",
            RejectReason::MissingSpeakText => "MISSING_SPEAK_TEXT",
            RejectReason::ReservedCommandType => "RESERVED_COMMAND_TYPE",
            RejectReason::NotLastPlayerLeft => "NOT_LAST_PLAYER_LEFT",
            RejectReason::AlreadyFinished => "ALREADY_FINISHED",
            RejectReason::AlreadyRunning => "ALREADY_RUNNING",
            RejectReason::GameFinished => "GAME_FINISHED",
            RejectReason::DuplicateCommand => "DUPLICATE_COMMAND",
            RejectReason::LateTimeoutIgnored => "LATE_TIMEOUT_IGNORED",
            RejectReason::LateCommandIgnored => "LATE_COMMAND_IGNORED",
        }
    }
}

/// What a rule did: whether it changed the game, whether the turn is used
/// up, and why not.
#[derive(Debug, Clone, Copy, PartialEq, Eq, Structural)]
pub struct RuleOutcome {
    pub applied: bool,
    pub consume_turn: bool,
    pub reason: Option<RejectReason>,
}

pub open spec fn accepted_outcome() -> RuleOutcome {
    RuleOutcome { applied: true, consume_turn: true, reason: None }
}

pub open spec fn rejected_outcome(r: RejectReason) -> RuleOutcome {
    RuleOutcome { applied: false, consume_turn: false, reason: Some(r) }
}

fn accept() -> (r: RuleOutcome)
    ensures
        r == accepted_outcome(),
{
    RuleOutcome { applied: true, consume_turn: true, reason: None }
}

fn reject(reason: RejectReason) -> (r: RuleOutcome)
    ensures
        r == rejected_outcome(reason),
{
    RuleOutcome { applied: false, consume_turn: false, reason: Some(reason) }
}

pub open spec fn drow(d: Direction) -> int {
    match d {
        Direction::Up => -1,
        Direction::Down => 1,
        _ => 0,
    }
}

pub open spec fn dcol(d: Direction) -> int {
    match d {
        Direction::Left => -1,
        Direction::Right => 1,
        _ => 0,
    }
}

pub open spec fn opposite_dir(d: Direction) -> Direction {
    match d {
        Direction::Up => Direction::Down,
        Direction::Down => Direction::Up,
        Direction::Left => Direction::Right,
        Direction::Right => Direction::Left,
    }
}

pub open spec fn perpendicular_dirs(d: Direction) -> (Direction, Direction) {
    match d {
        Direction::Up | Direction::Down => (Direction::Left, Direction::Right),
        Direction::Left | Direction::Right => (Direction::Up, Direction::Down),
    }
}

/// The row and column step of one move in `direction`.
pub fn delta(direction: Direction) -> (r: (i32, i32))
    ensures
        r.0 == drow(direction),
        r.1 == dcol(direction),
{
    match direction {
        Direction::Up => (-1, 0),
        Direction::Left => (0, -1),
        Direction::Down => (1, 0),
        Direction::Right => (0, 1),
    }
}

pub fn opposite(direction: Direction) -> (r: Direction)
    ensures
        r == opposite_dir(direction),
{
    match direction {
        Direction::Up => Direction::Down,
        Direction::Down => Direction::Up,
        Direction::Left => Direction::Right,
        Direction::Right => Direction::Left,
    }
}

/// The two directions at right angles to `direction`.
pub fn perpendicular_directions(direction: Direction) -> (r: (Direction, Direction))
    ensures
        r == perpendicular_dirs(direction),
{
    match direction {
        Direction::Up | Direction::Down => (Direction::Left, Direction::Right),
        Direction::Left | Direction::Right => (Direction::Up, Direction::Down),
    }
}

pub open spec fn in_grid(rows: int, cols: int, r: int, c: int) -> bool {
    0 <= r < rows && 0 <= c < cols
}

/// Whether the signed position `(row, col)` lies on the map.
pub fn in_bounds(map: &MapData, row: i64, col: i64) -> (r: bool)
    ensures
        r == in_grid(map.rows as int, map.cols as int, row as int, col as int),
{
    row >= 0 && col >= 0 && (row as u64 as u128) < (map.rows as u128) && (col as u64 as u128) < (map.cols as u128)
}

/// The cell next to `(row, col)` in `direction`, if it is on a
/// `rows × cols` grid.
pub fn neighbor(rows: usize, cols: usize, row: usize, col: usize, direction: Direction) -> (r: Option<(usize, usize)>)
    ensures
        match r {
            Some(p) => in_grid(rows as int, cols as int, row + drow(direction), col + dcol(direction))
                && p.0 == row + drow(direction) && p.1 == col + dcol(direction),
            None => !in_grid(rows as int, cols as int, row + drow(direction), col + dcol(direction)),
        },
{
    match direction {
        Direction::Up => if row >= 1 && row - 1 < rows && col < cols { Some((row - 1, col)) } else { None },
        Direction::Down => if row < usize::MAX && row + 1 < rows && col < cols { Some((row + 1, col)) } else { None },
        Direction::Left => if col >= 1 && col - 1 < cols && row < rows { Some((row, col - 1)) } else { None },
        Direction::Right => if col < usize::MAX && col + 1 < cols && row < rows { Some((row, col + 1)) } else { None },
    }
}

pub open spec fn alive_at(p: PlayerState, r: int, c: int) -> bool {
    p.alive && p.row == r && p.col == c
}

/// Some alive player stands on `(r, c)`.
pub open spec fn occupied(players: Seq<PlayerState>, r: int, c: int) -> bool {
    exists|i: int| 0 <= i < players.len() && alive_at(#[trigger] players[i], r, c)
}

/// `i` is the first alive player on `(r, c)`.
pub open spec fn is_first_at(players: Seq<PlayerState>, r: int, c: int, i: int) -> bool {
    &&& 0 <= i < players.len()
    &&& alive_at(players[i], r, c)
    &&& forall|j: int| 0 <= j < i ==> !alive_at(#[trigger] players[j], r, c)
}

pub open spec fn first_at(players: Seq<PlayerState>, r: int, c: int) -> int {
    choose|i: int| is_first_at(players, r, c, i)
}

pub proof fn lemma_first_at_unique(players: Seq<PlayerState>, r: int, c: int, i: int)
    requires
        is_first_at(players, r, c, i),
    ensures
        first_at(players, r, c) == i,
{
    let k = first_at(players, r, c);
    assert(is_first_at(players, r, c, k));
    if k < i {
        assert(!alive_at(players[k], r, c));
    } else if i < k {
        assert(!alive_at(players[i], r, c));
    }
}

/// The index of the first alive player on `(row, col)`.
pub fn player_at(players: &Vec<PlayerState>, row: usize, col: usize) -> (r: Option<usize>)
    ensures
        match r {
            Some(i) => is_first_at(players@, row as int, col as int, i as int),
            None => !occupied(players@, row as int, col as int),
        },
{
    let mut i: usize = 0;
    while i < players.len()
        invariant
            i <= players@.len(),
            forall|j: int| 0 <= j < i ==> !alive_at(#[trigger] players@[j], row as int, col as int),
        decreases players@.len() - i,
    {
        if players[i].alive && players[i].row == row && players[i].col == col {
            return Some(i);
        }
        i = i + 1;
    }
    None
}

pub open spec fn alive_count(players: Seq<PlayerState>) -> nat
    decreases players.len(),
{
    if players.len() == 0 {
        0
    } else {
        alive_count(players.drop_last()) + if players.last().alive { 1nat } else { 0nat }
    }
}

pub fn alive_player_count(players: &Vec<PlayerState>) -> (r: usize)
    ensures
        r == alive_count(players@),
{
    let mut n: usize = 0;
    let mut i: usize = 0;
    while i < players.len()
        invariant
            i <= players@.len(),
            n == alive_count(players@.subrange(0, i as int)),
            n <= i,
        decreases players@.len() - i,
    {
        assert(players@.subrange(0, i + 1).drop_last() =~= players@.subrange(0, i as int));
        if players[i].alive {
            n = n + 1;
        }
        i = i + 1;
    }
    assert(players@.subrange(0, i as int) =~= players@);
    n
}


pub open spec fn cell(cells: Seq<Seq<i32>>, r: int, c: int) -> i32 {
    cells[r][c]
}

/// What a move of player `idx` one step in `d` leaves behind.
pub open spec fn move_result(
    rows: int,
    cols: int,
    cells: Seq<Seq<i32>>,
    players: Seq<PlayerState>,
    idx: int,
    d: Direction,
) -> (Seq<PlayerState>, RuleOutcome) {
    let p = players[idx];
    let nr = p.row + drow(d);
    let nc = p.col + dcol(d);
    if !in_grid(rows, cols, nr, nc) {
        (players, rejected_outcome(RejectReason::MoveOutOfBounds))
    } else if cell(cells, nr, nc) != 0 {
        (players, rejected_outcome(RejectReason::MoveBlockedByBlock))
    } else if occupied(players, nr, nc) {
        (players, rejected_outcome(RejectReason::MoveBlockedByPlayer))
    } else {
        (players.update(idx, PlayerState { row: nr as usize, col: nc as usize, ..p }), accepted_outcome())
    }
}

/// Moves player `player_idx` one cell in `direction` onto an empty,
/// unoccupied cell of the map.
pub fn apply_move(state: &mut GameStateSnapshot, player_idx: usize, direction: Direction) -> (r: RuleOutcome)
    requires
        map_wf(&old(state).map),
        player_idx < old(state).players@.len(),
    ensures
        final(state).map == old(state).map,
        ({
            let res = move_result(
                old(state).map.rows as int,
                old(state).map.cols as int,
                cells_of(&old(state).map),
                old(state).players@,
                player_idx as int,
                direction,
            );
            final(state).players@ == res.0 && r == res.1
        }),
{
    let row = state.players[player_idx].row;
    let col = state.players[player_idx].col;
    let next = neighbor(state.map.rows, state.map.cols, row, col, direction);
    match next {
        None => reject(RejectReason::MoveOutOfBounds),
        Some((nr, nc)) => {
            if state.map.cells[nr][nc] != 0 {
                return reject(RejectReason::MoveBlockedByBlock);
            }
            if player_at(&state.players, nr, nc).is_some() {
                return reject(RejectReason::MoveBlockedByPlayer);
            }
            state.players[player_idx].row = nr;
            state.players[player_idx].col = nc;
            accept()
        },
    }
}


/// How many cells lie beyond `(r, c)` in direction `d` on the grid.
pub open spec fn cells_ahead(rows: int, cols: int, r: int, c: int, d: Direction) -> int {
    match d {
        Direction::Up => r,
        Direction::Down => rows - 1 - r,
        Direction::Left => c,
        Direction::Right => cols - 1 - c,
    }
}

/// The first cell after `(r, c)` in direction `d` that holds a wall or an
/// alive player; `None` when the beam leaves the map first.
pub open spec fn sweep_target(
    rows: int,
    cols: int,
    cells: Seq<Seq<i32>>,
    players: Seq<PlayerState>,
    r: int,
    c: int,
    d: Direction,
) -> Option<(int, int)>
    decreases cells_ahead(rows, cols, r, c, d),
{
    let nr = r + drow(d);
    let nc = c + dcol(d);
    if !in_grid(rows, cols, nr, nc) || !in_grid(rows, cols, r, c) {
        None
    } else if cell(cells, nr, nc) != 0 || occupied(players, nr, nc) {
        Some((nr, nc))
    } else {
        sweep_target(rows, cols, cells, players, nr, nc, d)
    }
}

/// A player after one unit of laser damage.
pub open spec fn damaged(p: PlayerState) -> PlayerState {
    let hp: i32 = if p.hp <= 0 { 0 } else { (p.hp - 1) as i32 };
    PlayerState { hp: hp, alive: if hp == 0 { false } else { p.alive }, ..p }
}

/// The board after a beam travelling in `d` strikes `target`: a wall with
/// hit points loses one, an indestructible wall absorbs it, and a player
/// loses one hit point unless shielded against the beam.
pub open spec fn strike(
    cells: Seq<Seq<i32>>,
    players: Seq<PlayerState>,
    target: Option<(int, int)>,
    d: Direction,
) -> (Seq<Seq<i32>>, Seq<PlayerState>) {
    match target {
        None => (cells, players),
        Some((r, c)) => {
            let v = cell(cells, r, c);
            if v > 0 {
                (cells.update(r, cells[r].update(c, (v - 1) as i32)), players)
            } else if v < 0 {
                (cells, players)
            } else if occupied(players, r, c) {
                let i = first_at(players, r, c);
                if players[i].shield == opposite_dir(d) {
                    (cells, players)
                } else {
                    (cells, players.update(i, damaged(players[i])))
                }
            } else {
                (cells, players)
            }
        },
    }
}

pub open spec fn sweep(
    rows: int,
    cols: int,
    cells: Seq<Seq<i32>>,
    players: Seq<PlayerState>,
    r: int,
    c: int,
    d: Direction,
) -> (Seq<Seq<i32>>, Seq<PlayerState>) {
    strike(cells, players, sweep_target(rows, cols, cells, players, r, c, d), d)
}

/// What a shot of player `idx` in direction `d` leaves behind.
pub open spec fn shoot_result(
    rows: int,
    cols: int,
    cells: Seq<Seq<i32>>,
    players: Seq<PlayerState>,
    idx: int,
    d: Direction,
) -> (Seq<Seq<i32>>, Seq<PlayerState>, RuleOutcome) {
    let p = players[idx];
    let er = p.row + drow(d);
    let ec = p.col + dcol(d);
    if d == p.shield {
        (cells, players, rejected_outcome(RejectReason::CannotShootThroughOwnShield))
    } else if !in_grid(rows, cols, er, ec) {
        (cells, players, rejected_outcome(RejectReason::ShootBlockedByEdge))
    } else if cell(cells, er, ec) != 0 {
        (cells, players, rejected_outcome(RejectReason::ShootBlockedByBlock))
    } else if occupied(players, er, ec) {
        (cells, players, rejected_outcome(RejectReason::ShootBlockedByPlayer))
    } else {
        let (p1, p2) = perpendicular_dirs(d);
        let first = sweep(rows, cols, cells, players, er, ec, p1);
        let second = sweep(rows, cols, first.0, first.1, er, ec, p2);
        (second.0, second.1, accepted_outcome())
    }
}

/// Sends a beam from `(start_row, start_col)` in `direction`; it damages the
/// first wall or player it meets and stops there.
pub fn sweep_laser(state: &mut GameStateSnapshot, start_row: usize, start_col: usize, direction: Direction)
    requires
        map_wf(&old(state).map),
        in_grid(old(state).map.rows as int, old(state).map.cols as int, start_row as int, start_col as int),
    ensures
        final(state).map.rows == old(state).map.rows,
        final(state).map.cols == old(state).map.cols,
        map_wf(&final(state).map),
        ({
            let res = sweep(
                old(state).map.rows as int,
                old(state).map.cols as int,
                cells_of(&old(state).map),
                old(state).players@,
                start_row as int,
                start_col as int,
                direction,
            );
            cells_of(&final(state).map) == res.0 && final(state).players@ == res.1
        }),
{
    let ghost rows = state.map.rows as int;
    let ghost cols = state.map.cols as int;
    let ghost cells0 = cells_of(&state.map);
    let ghost players0 = state.players@;
    let ghost target = sweep_target(rows, cols, cells0, players0, start_row as int, start_col as int, direction);
    let mut row = start_row;
    let mut col = start_col;
    loop
        invariant
            state.map.rows == rows,
            state.map.cols == cols,
            state.map.rows == old(state).map.rows,
            state.map.cols == old(state).map.cols,
            cells0 == cells_of(&old(state).map),
            target == sweep_target(rows, cols, cells0, players0, start_row as int, start_col as int, direction),
            players0 == old(state).players@,
            map_wf(&state.map),
            cells_of(&state.map) == cells0,
            state.players@ == players0,
            in_grid(rows, cols, row as int, col as int),
            sweep_target(rows, cols, cells0, players0, row as int, col as int, direction) == target,
        decreases cells_ahead(rows, cols, row as int, col as int, direction),
    {
        let next = neighbor(state.map.rows, state.map.cols, row, col, direction);
        match next {
            None => {
                assert(target is None);
                return;
            },
            Some((r, c)) => {
                let block = state.map.cells[r][c];
                assert(cell(cells0, r as int, c as int) == block);
                if block != 0 {
                    assert(target == Some((r as int, c as int)));
                    if block > 0 {
                        state.map.cells[r][c] = block - 1;
                        assert(cells_of(&state.map) =~= cells0.update(r as int, cells0[r as int].update(c as int, (block - 1) as i32)));
                    }
                    return;
                }
                match player_at(&state.players, r, c) {
                    Some(t) => {
                        assert(target == Some((r as int, c as int)));
                        proof {
                            lemma_first_at_unique(players0, r as int, c as int, t as int);
                        }
                        let incoming = opposite(direction);
                        if state.players[t].shield != incoming {
                            let hp = state.players[t].hp;
                            let next_hp: i32 = if hp <= 0 { 0 } else { hp - 1 };
                            state.players[t].hp = next_hp;
                            if next_hp == 0 {
                                state.players[t].alive = false;
                            }
                            assert(state.players@ =~= players0.update(t as int, damaged(players0[t as int])));
                        }
                        return;
                    },
                    None => {},
                }
                row = r;
                col = c;
            },
        }
    }
}

/// Fires a beam from player `player_idx` in `direction`. The shot is refused
/// through the player's own shield and when the adjacent cell is off the map,
/// a wall or a player; otherwise the beam enters that cell and sweeps both
/// ways at right angles to `direction`.
pub fn apply_shoot(state: &mut GameStateSnapshot, player_idx: usize, direction: Direction) -> (r: RuleOutcome)
    requires
        map_wf(&old(state).map),
        player_idx < old(state).players@.len(),
    ensures
        final(state).map.rows == old(state).map.rows,
        final(state).map.cols == old(state).map.cols,
        map_wf(&final(state).map),
        ({
            let res = shoot_result(
                old(state).map.rows as int,
                old(state).map.cols as int,
                cells_of(&old(state).map),
                old(state).players@,
                player_idx as int,
                direction,
            );
            cells_of(&final(state).map) == res.0 && final(state).players@ == res.1 && r == res.2
        }),
{
    let shooter_row = state.players[player_idx].row;
    let shooter_col = state.players[player_idx].col;
    let shooter_shield = state.players[player_idx].shield;
    if direction == shooter_shield {
        return reject(RejectReason::CannotShootThroughOwnShield);
    }
    let entry = neighbor(state.map.rows, state.map.cols, shooter_row, shooter_col, direction);
    match entry {
        None => reject(RejectReason::ShootBlockedByEdge),
        Some((er, ec)) => {
            if state.map.cells[er][ec] != 0 {
                return reject(RejectReason::ShootBlockedByBlock);
            }
            if player_at(&state.players, er, ec).is_some() {
                return reject(RejectReason::ShootBlockedByPlayer);
            }
            let (perp1, perp2) = perpendicular_directions(direction);
            sweep_laser(state, er, ec, perp1);
            sweep_laser(state, er, ec, perp2);
            accept()
        },
    }
}


/// The same seats, in the same order, with the same ids and names.
pub open spec fn same_seats(a: Seq<PlayerState>, b: Seq<PlayerState>) -> bool {
    &&& a.len() == b.len()
    &&& forall|i: int|
        0 <= i < a.len() ==> (#[trigger] a[i]).player_id == b[i].player_id && a[i].player_name
            == b[i].player_name
}

/// A beam's target lies on the line it travels along.
pub proof fn lemma_sweep_target_on_line(
    rows: int,
    cols: int,
    cells: Seq<Seq<i32>>,
    players: Seq<PlayerState>,
    r: int,
    c: int,
    d: Direction,
)
    ensures
        match sweep_target(rows, cols, cells, players, r, c, d) {
            Some(t) => (drow(d) == 0 ==> t.0 == r) && (dcol(d) == 0 ==> t.1 == c) && in_grid(
                rows,
                cols,
                t.0,
                t.1,
            ) && (drow(d) < 0 ==> t.0 < r) && (drow(d) > 0 ==> t.0 > r) && (dcol(d) < 0 ==> t.1
                < c) && (dcol(d) > 0 ==> t.1 > c),
            None => true,
        },
    decreases cells_ahead(rows, cols, r, c, d),
{
    let nr = r + drow(d);
    let nc = c + dcol(d);
    if in_grid(rows, cols, nr, nc) && in_grid(rows, cols, r, c) && !(cell(cells, nr, nc) != 0
        || occupied(players, nr, nc)) {
        lemma_sweep_target_on_line(rows, cols, cells, players, nr, nc, d);
    }
}

/// A strike keeps every seat where it was, and leaves alone each player
/// that does not stand on the target.
pub proof fn lemma_strike_keeps_seats(
    cells: Seq<Seq<i32>>,
    players: Seq<PlayerState>,
    target: Option<(int, int)>,
    d: Direction,
)
    requires
        match target {
            Some(t) => 0 <= t.0 < cells.len() && 0 <= t.1 < cells[t.0].len(),
            None => true,
        },
    ensures
        same_seats(players, strike(cells, players, target, d).1),
        forall|k: int|
            0 <= k < players.len() ==> (#[trigger] strike(cells, players, target, d).1[k]).row
                == players[k].row && strike(cells, players, target, d).1[k].col == players[k].col,
        forall|k: int|
            0 <= k < players.len() && (match target {
                Some(t) => !(players[k].row == t.0 && players[k].col == t.1),
                None => true,
            }) ==> (#[trigger] strike(cells, players, target, d).1[k]) == players[k],
        strike(cells, players, target, d).0.len() == cells.len(),
        forall|r: int|
            0 <= r < cells.len() ==> (#[trigger] strike(cells, players, target, d).0[r]).len()
                == cells[r].len(),
{
    match target {
        None => {},
        Some((r, c)) => {
            let v = cell(cells, r, c);
            if v == 0 && occupied(players, r, c) {
                let i = first_at(players, r, c);
                let w = choose|w: int| 0 <= w < players.len() && alive_at(#[trigger] players[w], r, c);
                lemma_first_exists(players, r, c, w);
                assert(is_first_at(players, r, c, i));
                assert(players[i].row == r && players[i].col == c);
                let after = strike(cells, players, target, d).1;
                assert forall|k: int|
                    0 <= k < players.len() && !(players[k].row == r && players[k].col == c) implies #[trigger] after[k] == players[k] by {
                    assert(k != i);
                }
            }
        },
    }
}

/// Some alive player on `(r, c)` is the first one there.
pub proof fn lemma_first_exists(players: Seq<PlayerState>, r: int, c: int, w: int)
    requires
        0 <= w < players.len(),
        alive_at(players[w], r, c),
    ensures
        is_first_at(players, r, c, first_at(players, r, c)),
    decreases w,
{
    if forall|j: int| 0 <= j < w ==> !alive_at(#[trigger] players[j], r, c) {
        assert(is_first_at(players, r, c, w));
    } else {
        let j = choose|j: int| 0 <= j < w && alive_at(#[trigger] players[j], r, c);
        lemma_first_exists(players, r, c, j);
    }
}


/// Every player stands on a cell of a `rows × cols` grid.
pub open spec fn on_map(rows: int, cols: int, players: Seq<PlayerState>) -> bool {
    forall|i: int| 0 <= i < players.len() ==> in_grid(rows, cols, (#[trigger] players[i]).row as int, players[i].col as int)
}

pub open spec fn grid_shape(rows: int, cols: int, cells: Seq<Seq<i32>>) -> bool {
    &&& cells.len() == rows
    &&& forall|i: int| 0 <= i < rows ==> (#[trigger] cells[i]).len() == cols
}

/// A shot keeps every seat in place and never touches the shooter.
pub proof fn lemma_shoot_spares_shooter(
    rows: int,
    cols: int,
    cells: Seq<Seq<i32>>,
    players: Seq<PlayerState>,
    idx: int,
    d: Direction,
)
    requires
        grid_shape(rows, cols, cells),
        0 <= idx < players.len(),
    ensures
        same_seats(players, shoot_result(rows, cols, cells, players, idx, d).1),
        shoot_result(rows, cols, cells, players, idx, d).1[idx] == players[idx],
        forall|k: int|
            0 <= k < players.len() ==> (#[trigger] shoot_result(rows, cols, cells, players, idx, d).1[k]).row
                == players[k].row && shoot_result(rows, cols, cells, players, idx, d).1[k].col
                == players[k].col,
{
    let p = players[idx];
    let er = p.row + drow(d);
    let ec = p.col + dcol(d);
    if d != p.shield && in_grid(rows, cols, er, ec) && cell(cells, er, ec) == 0 && !occupied(
        players,
        er,
        ec,
    ) {
        let (p1, p2) = perpendicular_dirs(d);
        let t1 = sweep_target(rows, cols, cells, players, er, ec, p1);
        lemma_sweep_target_on_line(rows, cols, cells, players, er, ec, p1);
        lemma_strike_keeps_seats(cells, players, t1, p1);
        let first = sweep(rows, cols, cells, players, er, ec, p1);
        assert(grid_shape(rows, cols, first.0));
        let t2 = sweep_target(rows, cols, first.0, first.1, er, ec, p2);
        lemma_sweep_target_on_line(rows, cols, first.0, first.1, er, ec, p2);
        lemma_strike_keeps_seats(first.0, first.1, t2, p2);
        assert(first.1[idx] == players[idx]);
    }
}

} // verus!
