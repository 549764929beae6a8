//! Properties that hold across the rules, the authority and the pipeline.

use vstd::prelude::*;
use crate::authority::{
    GameInstance, alive_with_id, command_effect, finish_refusal, game_wf, start_refusal,
};
use crate::pipeline::seen_id;
use crate::rules::{
    RejectReason, alive_count, cell, damaged, drow, dcol, first_at, grid_shape, in_grid, is_first_at,
    lemma_first_exists, lemma_first_at_unique, lemma_sweep_target_on_line, occupied,
    perpendicular_dirs, rejected_outcome, shoot_result, strike, sweep, sweep_target,
};
use crate::text::has_visible_text;
use crate::types::{CommandType, Direction, GameStatus, PlayerState, SubmitCommandRequest};

verus! {

/// A shot into the shooter's own shield direction is refused and changes
/// nothing.
pub proof fn law_own_shield_blocks_shot(
    rows: int,
    cols: int,
    cells: Seq<Seq<i32>>,
    players: Seq<PlayerState>,
    idx: int,
    d: Direction,
)
    requires
        0 <= idx < players.len(),
        d == players[idx].shield,
    ensures
        shoot_result(rows, cols, cells, players, idx, d) == (
            cells,
            players,
            rejected_outcome(RejectReason::CannotShootThroughOwnShield),
        ),
{
}

/// A shot whose entry cell is off the map is refused at the edge and changes
/// nothing, when it is not aimed into the shooter's own shield.
pub proof fn law_shot_off_map_blocked_by_edge(
    rows: int,
    cols: int,
    cells: Seq<Seq<i32>>,
    players: Seq<PlayerState>,
    idx: int,
    d: Direction,
)
    requires
        0 <= idx < players.len(),
        d != players[idx].shield,
        !in_grid(rows, cols, players[idx].row + drow(d), players[idx].col + dcol(d)),
    ensures
        shoot_result(rows, cols, cells, players, idx, d) == (
            cells,
            players,
            rejected_outcome(RejectReason::ShootBlockedByEdge),
        ),
{
}

/// A speak whose text is white space only is refused as missing text.
pub proof fn law_blank_speak_refused(
    rows: int,
    cols: int,
    cells: Seq<Seq<i32>>,
    players: Seq<PlayerState>,
    idx: int,
    req: SubmitCommandRequest,
)
    requires
        req.command_type == CommandType::Speak,
        req.speak_text is Some ==> !has_visible_text(req.speak_text->0@),
    ensures
        command_effect(rows, cols, cells, players, idx, req) == (
            cells,
            players,
            rejected_outcome(RejectReason::MissingSpeakText),
        ),
{
}

/// Once a command id has been processed it counts as seen, so a second
/// submission of it is a duplicate and the game is left as it is.
pub proof fn law_processed_id_is_duplicate(seen: Seq<String>, id: String)
    ensures
        seen_id(seen.push(id), id@),
        forall|other: String| seen_id(seen, other@) ==> seen_id(seen.push(id), other@),
{
    assert(seen.push(id)[seen.len() as int] == id);
    assert forall|other: String| seen_id(seen, other@) implies seen_id(seen.push(id), other@) by {
        let i = choose|i: int| 0 <= i < seen.len() && (#[trigger] seen[i])@ == other@;
        assert(seen.push(id)[i] == seen[i]);
    }
}

/// Starting a game that runs is refused as already running: a second start
/// changes nothing.
pub proof fn law_start_twice(g: GameInstance)
    requires
        g.status == GameStatus::Running,
    ensures
        start_refusal(g.status) == Some(RejectReason::AlreadyRunning),
{
}

/// Finishing a finished game is refused: a second finish changes nothing.
pub proof fn law_finish_twice(g: GameInstance, expected_turn_no: Option<u64>)
    requires
        g.status == GameStatus::Finished,
    ensures
        finish_refusal(g, expected_turn_no) is Some,
        expected_turn_no is None || expected_turn_no->0 == g.turn_no ==> finish_refusal(
            g,
            expected_turn_no,
        ) == Some(RejectReason::AlreadyFinished),
{
}

pub open spec fn at(p: PlayerState, t: (int, int)) -> bool {
    p.row == t.0 && p.col == t.1
}

/// What one strike on `t` may change: the cell `t` loses one hit point, and
/// a player on `t` takes one unit of damage.
pub open spec fn struck_only(
    before: (Seq<Seq<i32>>, Seq<PlayerState>),
    after: (Seq<Seq<i32>>, Seq<PlayerState>),
    t: (int, int),
) -> bool {
    &&& after.1.len() == before.1.len()
    &&& forall|k: int|
        0 <= k < before.1.len() ==> (#[trigger] after.1[k] == before.1[k] || (after.1[k]
            == damaged(before.1[k]) && at(before.1[k], t)))
    &&& after.0.len() == before.0.len()
    &&& forall|r: int|
        0 <= r < before.0.len() ==> (#[trigger] after.0[r]).len() == before.0[r].len()
    &&& forall|r: int, c: int|
        0 <= r < before.0.len() && 0 <= c < before.0[r].len() ==> (#[trigger] cell(after.0, r, c)
            == cell(before.0, r, c) || ((r, c) == t && cell(after.0, r, c) == cell(before.0, r, c)
            - 1))
}

proof fn lemma_strike_only(
    cells: Seq<Seq<i32>>,
    players: Seq<PlayerState>,
    t: (int, int),
    d: Direction,
)
    requires
        0 <= t.0 < cells.len(),
        0 <= t.1 < cells[t.0].len(),
    ensures
        struck_only((cells, players), strike(cells, players, Some(t), d), t),
{
    let v = cell(cells, t.0, t.1);
    if v == 0 && occupied(players, t.0, t.1) {
        let w = choose|w: int| 0 <= w < players.len() && crate::rules::alive_at(#[trigger] players[w], t.0, t.1);
        lemma_first_exists(players, t.0, t.1, w);
        let i = first_at(players, t.0, t.1);
        assert(at(players[i], t));
    }
}

/// One sweep changes at most its target, and nothing when there is none.
proof fn lemma_sweep_only(
    rows: int,
    cols: int,
    cells: Seq<Seq<i32>>,
    players: Seq<PlayerState>,
    r: int,
    c: int,
    d: Direction,
)
    requires
        grid_shape(rows, cols, cells),
    ensures
        ({
            let t = sweep_target(rows, cols, cells, players, r, c, d);
            let after = sweep(rows, cols, cells, players, r, c, d);
            match t {
                Some(tt) => struck_only((cells, players), after, tt),
                None => after == (cells, players),
            }
        }),
{
    lemma_sweep_target_on_line(rows, cols, cells, players, r, c, d);
    match sweep_target(rows, cols, cells, players, r, c, d) {
        Some(tt) => lemma_strike_only(cells, players, tt, d),
        None => {},
    }
}

/// `t` is off the map, or lies on the sweep in direction `s` that starts
/// from the cell next to `p` in direction `d`, beyond that cell.
pub open spec fn on_sweep(rows: int, cols: int, p: PlayerState, d: Direction, s: Direction, t: (int, int)) -> bool {
    let er = p.row + drow(d);
    let ec = p.col + dcol(d);
    ||| !in_grid(rows, cols, t.0, t.1)
    ||| {
        &&& (drow(s) == 0 ==> t.0 == er)
        &&& (dcol(s) == 0 ==> t.1 == ec)
        &&& (drow(s) < 0 ==> t.0 < er)
        &&& (drow(s) > 0 ==> t.0 > er)
        &&& (dcol(s) < 0 ==> t.1 < ec)
        &&& (dcol(s) > 0 ==> t.1 > ec)
    }
}

/// The shot changes players and cells only on `t1` and `t2`, by one unit,
/// each on its own sweep at right angles to the shot.
pub open spec fn shot_within(
    rows: int,
    cols: int,
    cells: Seq<Seq<i32>>,
    players: Seq<PlayerState>,
    idx: int,
    d: Direction,
    t1: (int, int),
    t2: (int, int),
) -> bool {
    let res = shoot_result(rows, cols, cells, players, idx, d);
    &&& on_sweep(rows, cols, players[idx], d, perpendicular_dirs(d).0, t1)
    &&& on_sweep(rows, cols, players[idx], d, perpendicular_dirs(d).1, t2)
    &&& res.1.len() == players.len()
    &&& forall|k: int|
        0 <= k < players.len() ==> (#[trigger] res.1[k] == players[k] || (res.1[k] == damaged(
            players[k],
        ) && (at(players[k], t1) || at(players[k], t2))))
    &&& forall|r: int, c: int|
        0 <= r < rows && 0 <= c < cols ==> (#[trigger] cell(res.0, r, c) == cell(cells, r, c) || (((
        r,
        c,
        ) == t1 || (r, c) == t2) && cell(res.0, r, c) == cell(cells, r, c) - 1))
}

/// A shot deals damage on at most two cells, one per sweep: every player
/// either keeps its state or, standing on one of them, loses one hit point;
/// every cell either keeps its value or, being one of them, loses one.
pub proof fn law_shot_hits_at_most_two_targets(
    rows: int,
    cols: int,
    cells: Seq<Seq<i32>>,
    players: Seq<PlayerState>,
    idx: int,
    d: Direction,
)
    requires
        grid_shape(rows, cols, cells),
        0 <= idx < players.len(),
    ensures
        exists|t1: (int, int), t2: (int, int)| #[trigger] shot_within(rows, cols, cells, players, idx, d, t1, t2),
{
    let p = players[idx];
    let er = p.row + drow(d);
    let ec = p.col + dcol(d);
    let res = shoot_result(rows, cols, cells, players, idx, d);
    if d != p.shield && in_grid(rows, cols, er, ec) && cell(cells, er, ec) == 0 && !occupied(
        players,
        er,
        ec,
    ) {
        let (p1, p2) = perpendicular_dirs(d);
        let first = sweep(rows, cols, cells, players, er, ec, p1);
        let o1 = sweep_target(rows, cols, cells, players, er, ec, p1);
        lemma_sweep_only(rows, cols, cells, players, er, ec, p1);
        lemma_sweep_target_on_line(rows, cols, cells, players, er, ec, p1);
        assert(grid_shape(rows, cols, first.0));
        let o2 = sweep_target(rows, cols, first.0, first.1, er, ec, p2);
        lemma_sweep_only(rows, cols, first.0, first.1, er, ec, p2);
        lemma_sweep_target_on_line(rows, cols, first.0, first.1, er, ec, p2);
        let t1 = match o1 {
            Some(t) => t,
            None => (-1, -1),
        };
        let t2 = match o2 {
            Some(t) => t,
            None => (-2, -2),
        };
        assert(t1 != t2);
        assert forall|k: int| 0 <= k < players.len() implies (#[trigger] res.1[k] == players[k] || (
        res.1[k] == damaged(players[k]) && (at(players[k], t1) || at(players[k], t2)))) by {
            assert(first.1[k].row == players[k].row && first.1[k].col == players[k].col);
        }
        assert forall|r: int, c: int| 0 <= r < rows && 0 <= c < cols implies (#[trigger] cell(
            res.0,
            r,
            c,
        ) == cell(cells, r, c) || (((r, c) == t1 || (r, c) == t2) && cell(res.0, r, c) == cell(
            cells,
            r,
            c,
        ) - 1)) by {
            assert(cell(first.0, r, c) == cell(cells, r, c) || ((r, c) == t1 && cell(first.0, r, c)
                == cell(cells, r, c) - 1));
        }
        assert(shot_within(rows, cols, cells, players, idx, d, t1, t2));
    } else {
        assert(res.0 == cells && res.1 == players);
        assert(shot_within(rows, cols, cells, players, idx, d, (-1, -1), (-1, -1)));
    }
}


/// The current player is an alive player of the game exactly while the
/// game has not finished. Creating, starting, applying, finishing and
/// processing all keep `game_wf`, so this holds of the state after every
/// step.
pub proof fn law_current_player_alive(g: GameInstance)
    requires
        game_wf(g),
    ensures
        alive_with_id(g.state.players@, g.current_player_id@) <==> g.status != GameStatus::Finished,
{
}

/// A game finishes only when exactly one player is alive: a finish request
/// that is not refused finds one alive player.
pub proof fn law_finish_needs_last_player(g: GameInstance, expected_turn_no: Option<u64>)
    requires
        finish_refusal(g, expected_turn_no) is None,
    ensures
        alive_count(g.state.players@) == 1,
        g.status != GameStatus::Finished,
{
}

} // verus!
