//! Board set-up: the built-in map, the random default map and the seats on
//! the four mid-edges of the grid.

use vstd::prelude::*;
use crate::rules::in_grid;
use crate::types::{
    Direction, MAX_NUM_PLAYERS, MIN_NUM_PLAYERS, MapData, PlayerName, PlayerState, cells_of, map_wf,
};

verus! {

/// How many seats a game for `n` requested players has: `n` clamped to 1..4.
pub open spec fn seat_count(n: u8) -> int {
    if n < 1 {
        1
    } else if n > 4 {
        4
    } else {
        n as int
    }
}

pub fn clamp_num_players(n: u8) -> (r: u8)
    ensures
        r as int == seat_count(n),
{
    if n < MIN_NUM_PLAYERS {
        MIN_NUM_PLAYERS
    } else if n > MAX_NUM_PLAYERS {
        MAX_NUM_PLAYERS
    } else {
        n
    }
}

pub open spec fn seat_name(i: int) -> PlayerName {
    if i == 0 {
        PlayerName::A
    } else if i == 1 {
        PlayerName::B
    } else if i == 2 {
        PlayerName::C
    } else {
        PlayerName::D
    }
}

pub open spec fn seat_shield(i: int) -> Direction {
    if i == 0 {
        Direction::Up
    } else if i == 1 {
        Direction::Left
    } else if i == 2 {
        Direction::Down
    } else {
        Direction::Right
    }
}

/// Where seat `i` starts: A on the top edge, B on the left, C on the bottom
/// and D on the right, each at the middle of its edge.
pub open spec fn spawn_cell(rows: int, cols: int, i: int) -> (int, int) {
    let last_row = if rows >= 1 { rows - 1 } else { 0 };
    let last_col = if cols >= 1 { cols - 1 } else { 0 };
    if i == 0 {
        (0, cols / 2)
    } else if i == 1 {
        (rows / 2, 0)
    } else if i == 2 {
        (last_row, cols / 2)
    } else {
        (rows / 2, last_col)
    }
}

/// `(r, c)` is the start cell of one of the first `n` seats.
pub open spec fn is_spawn(rows: int, cols: int, n: u8, r: int, c: int) -> bool {
    exists|i: int| 0 <= i < seat_count(n) && #[trigger] spawn_cell(rows, cols, i) == (r, c)
}

/// Relies on uuid::Uuid::new_v4 and its `Display`: a fresh random id.
#[verifier::external_body]
fn new_player_id() -> (r: String) {
    uuid::Uuid::new_v4().to_string()
}

/// Relies on rand::rng and rand::Rng::random_range: a number drawn from
/// `0..100`, which the range bounds.
#[verifier::external_body]
fn roll_percent() -> (r: u8)
    ensures
        r < 100,
{
    rand::Rng::random_range(&mut rand::rng(), 0u8..100u8)
}

fn spawn_of(rows: usize, cols: usize, i: usize) -> (r: (usize, usize))
    requires
        i < 4,
    ensures
        r.0 == spawn_cell(rows as int, cols as int, i as int).0,
        r.1 == spawn_cell(rows as int, cols as int, i as int).1,
{
    let last_row = if rows >= 1 { rows - 1 } else { 0 };
    let last_col = if cols >= 1 { cols - 1 } else { 0 };
    if i == 0 {
        (0, cols / 2)
    } else if i == 1 {
        (rows / 2, 0)
    } else if i == 2 {
        (last_row, cols / 2)
    } else {
        (rows / 2, last_col)
    }
}

/// `id` is non-empty and no player in `players` has it.
pub open spec fn id_free(players: Seq<PlayerState>, id: Seq<char>) -> bool {
    &&& id.len() > 0
    &&& forall|k: int| 0 <= k < players.len() ==> (#[trigger] players[k]).player_id@ != id
}

fn is_id_free(players: &Vec<PlayerState>, id: &String) -> (r: bool)
    ensures
        r == id_free(players@, id@),
{
    if id.as_str().unicode_len() == 0 {
        return false;
    }
    let mut k: usize = 0;
    while k < players.len()
        invariant
            k <= players@.len(),
            forall|j: int| 0 <= j < k ==> (#[trigger] players@[j]).player_id@ != id@,
        decreases players@.len() - k,
    {
        if players[k].player_id == *id {
            return false;
        }
        k = k + 1;
    }
    true
}

/// How many times a colliding id is drawn again.
pub const ID_DRAWS: usize = 8;

/// A fresh random id that no player in `players` has. A draw that collides
/// (or comes back empty) is drawn again; should every draw collide, the id
/// is built longer than every id in use.
fn fresh_player_id(players: &Vec<PlayerState>) -> (r: String)
    ensures
        id_free(players@, r@),
{
    let mut tries: usize = 0;
    while tries < ID_DRAWS
        decreases ID_DRAWS - tries,
    {
        let id = new_player_id();
        if is_id_free(players, &id) {
            return id;
        }
        tries = tries + 1;
    }
    let mut id = String::from_str("p");
    proof {
        reveal_strlit("p");
    }
    let mut k: usize = 0;
    while k < players.len()
        invariant
            k <= players@.len(),
            id@.len() > 0,
            forall|j: int| 0 <= j < k ==> id@.len() > (#[trigger] players@[j]).player_id@.len(),
        decreases players@.len() - k,
    {
        id.append(players[k].player_id.as_str());
        k = k + 1;
    }
    id
}

/// The players of a new game: seats A, B, C, D in order, as many as
/// `num_players` clamped to 1..4, each alive with `hp` hit points on its
/// start cell, shielded towards its own edge, under a fresh random id of
/// its own.
pub fn initial_players(rows: usize, cols: usize, hp: i32, num_players: u8) -> (r: Vec<PlayerState>)
    ensures
        r@.len() == seat_count(num_players),
        forall|i: int| 0 <= i < r@.len() ==> (#[trigger] r@[i]).player_id@.len() > 0,
        forall|i: int, j: int| 0 <= i < j < r@.len() ==> r@[i].player_id@ != r@[j].player_id@,
        forall|i: int|
            0 <= i < r@.len() ==> {
                &&& (#[trigger] r@[i]).player_name == seat_name(i)
                &&& r@[i].hp == hp
                &&& (r@[i].row as int, r@[i].col as int) == spawn_cell(rows as int, cols as int, i)
                &&& r@[i].shield == seat_shield(i)
                &&& r@[i].alive
            },
{
    let n = clamp_num_players(num_players) as usize;
    let names = [PlayerName::A, PlayerName::B, PlayerName::C, PlayerName::D];
    let shields = [Direction::Up, Direction::Left, Direction::Down, Direction::Right];
    let mut players: Vec<PlayerState> = Vec::new();
    let mut i: usize = 0;
    while i < n
        invariant
            n == seat_count(num_players),
            i <= n,
            n <= 4,
            names@ == seq![PlayerName::A, PlayerName::B, PlayerName::C, PlayerName::D],
            shields@ == seq![Direction::Up, Direction::Left, Direction::Down, Direction::Right],
            players@.len() == i,
            forall|k: int| 0 <= k < i ==> (#[trigger] players@[k]).player_id@.len() > 0,
            forall|a: int, b: int| 0 <= a < b < i ==> players@[a].player_id@ != players@[b].player_id@,
            forall|k: int|
                0 <= k < i ==> {
                    &&& (#[trigger] players@[k]).player_name == seat_name(k)
                    &&& players@[k].hp == hp
                    &&& (players@[k].row as int, players@[k].col as int) == spawn_cell(
                        rows as int,
                        cols as int,
                        k,
                    )
                    &&& players@[k].shield == seat_shield(k)
                    &&& players@[k].alive
                },
        decreases n - i,
    {
        let (row, col) = spawn_of(rows, cols, i);
        let player_id = fresh_player_id(&players);
        players.push(
            PlayerState {
                player_name: names[i],
                player_id,
                hp,
                row,
                col,
                shield: shields[i],
                alive: true,
            },
        );
        i = i + 1;
    }
    players
}

/// The wall a percentile roll puts on a cell: 70% empty, 16% a wall of one
/// hit point, 10% of two, 4% indestructible.
pub open spec fn cell_for_roll(roll: u8) -> i32 {
    if roll < 70 {
        0i32
    } else if roll < 86 {
        1i32
    } else if roll < 96 {
        2i32
    } else {
        -1i32
    }
}

pub open spec fn supported_cell(v: i32) -> bool {
    v == 0 || v == 1 || v == 2 || v == -1
}

/// Builds a `rows × cols` map from one percentile roll per cell, then clears
/// the start cells of the first `num_players` seats.
pub fn build_default_map(rows: usize, cols: usize, num_players: u8, rolls: &Vec<Vec<u8>>) -> (r: MapData)
    requires
        rolls@.len() == rows,
        forall|i: int| 0 <= i < rows ==> (#[trigger] rolls@[i])@.len() == cols,
    ensures
        r.rows == rows,
        r.cols == cols,
        map_wf(&r),
        forall|i: int, j: int|
            0 <= i < rows && 0 <= j < cols ==> #[trigger] cells_of(&r)[i][j] == if is_spawn(
                rows as int,
                cols as int,
                num_players,
                i,
                j,
            ) {
                0
            } else {
                cell_for_roll(rolls@[i]@[j])
            },
{
    let mut cells: Vec<Vec<i32>> = Vec::new();
    let mut i: usize = 0;
    while i < rows
        invariant
            i <= rows,
            rolls@.len() == rows,
            forall|k: int| 0 <= k < rows ==> (#[trigger] rolls@[k])@.len() == cols,
            cells@.len() == i,
            forall|k: int| 0 <= k < i ==> (#[trigger] cells@[k])@.len() == cols,
            forall|k: int, j: int|
                0 <= k < i && 0 <= j < cols ==> #[trigger] cells@[k]@[j] == cell_for_roll(rolls@[k]@[j]),
        decreases rows - i,
    {
        let mut row: Vec<i32> = Vec::new();
        let mut j: usize = 0;
        while j < cols
            invariant
                j <= cols,
                i < rows,
                rolls@.len() == rows,
                rolls@[i as int]@.len() == cols,
                row@.len() == j,
                forall|m: int| 0 <= m < j ==> #[trigger] row@[m] == cell_for_roll(rolls@[i as int]@[m]),
            decreases cols - j,
        {
            let roll = rolls[i][j];
            let v: i32 = if roll < 70 {
                0
            } else if roll < 86 {
                1
            } else if roll < 96 {
                2
            } else {
                -1
            };
            row.push(v);
            j = j + 1;
        }
        cells.push(row);
        i = i + 1;
    }
    let n = clamp_num_players(num_players) as usize;
    let mut s: usize = 0;
    while s < n
        invariant
            n == seat_count(num_players),
            s <= n,
            n <= 4,
            cells@.len() == rows,
            forall|k: int| 0 <= k < rows ==> (#[trigger] cells@[k])@.len() == cols,
            forall|k: int, j: int|
                0 <= k < rows && 0 <= j < cols ==> #[trigger] cells@[k]@[j] == if exists|t: int|
                    0 <= t < s && #[trigger] spawn_cell(rows as int, cols as int, t) == (k, j) {
                    0
                } else {
                    cell_for_roll(rolls@[k]@[j])
                },
        decreases n - s,
    {
        let (r, c) = spawn_of(rows, cols, s);
        if r < rows && c < cols {
            cells[r][c] = 0;
        }
        assert forall|k: int, j: int| 0 <= k < rows && 0 <= j < cols implies #[trigger] cells@[k]@[j]
            == if exists|t: int| 0 <= t < s + 1 && #[trigger] spawn_cell(rows as int, cols as int, t) == (k, j) {
            0
        } else {
            cell_for_roll(rolls@[k]@[j])
        } by {
            if spawn_cell(rows as int, cols as int, s as int) == (k, j) {
                assert(in_grid(rows as int, cols as int, k, j));
            } else {
                if exists|t: int| 0 <= t < s + 1 && #[trigger] spawn_cell(rows as int, cols as int, t) == (k, j) {
                    let t = choose|t: int| 0 <= t < s + 1 && #[trigger] spawn_cell(rows as int, cols as int, t) == (k, j);
                    assert(t != s);
                }
            }
        }
        s = s + 1;
    }
    let r = MapData { rows, cols, cells };
    assert forall|i: int, j: int| 0 <= i < rows && 0 <= j < cols implies #[trigger] cells_of(&r)[i][j] == if is_spawn(
        rows as int,
        cols as int,
        num_players,
        i,
        j,
    ) {
        0
    } else {
        cell_for_roll(rolls@[i]@[j])
    } by {
        assert(cells_of(&r)[i] == r.cells@[i]@);
    }
    r
}

/// A random `rows × cols` map whose cells are empty, walls of one or two hit
/// points or indestructible walls, and whose start cells for the first
/// `num_players` seats are empty.
pub fn generate_default_map(rows: usize, cols: usize, num_players: u8) -> (r: MapData)
    ensures
        r.rows == rows,
        r.cols == cols,
        map_wf(&r),
        forall|i: int, j: int| 0 <= i < rows && 0 <= j < cols ==> supported_cell(#[trigger] cells_of(&r)[i][j]),
        forall|s: int|
            0 <= s < seat_count(num_players) && in_grid(
                rows as int,
                cols as int,
                spawn_cell(rows as int, cols as int, s).0,
                spawn_cell(rows as int, cols as int, s).1,
            ) ==> cells_of(&r)[#[trigger] spawn_cell(rows as int, cols as int, s).0][spawn_cell(
                rows as int,
                cols as int,
                s,
            ).1] == 0,
{
    let mut rolls: Vec<Vec<u8>> = Vec::new();
    let mut i: usize = 0;
    while i < rows
        invariant
            i <= rows,
            rolls@.len() == i,
            forall|k: int| 0 <= k < i ==> (#[trigger] rolls@[k])@.len() == cols,
        decreases rows - i,
    {
        let mut row: Vec<u8> = Vec::new();
        let mut j: usize = 0;
        while j < cols
            invariant
                j <= cols,
                row@.len() == j,
            decreases cols - j,
        {
            row.push(roll_percent());
            j = j + 1;
        }
        rolls.push(row);
        i = i + 1;
    }
    let r = build_default_map(rows, cols, num_players, &rolls);
    assert forall|s: int|
        0 <= s < seat_count(num_players) && in_grid(
            rows as int,
            cols as int,
            spawn_cell(rows as int, cols as int, s).0,
            spawn_cell(rows as int, cols as int, s).1,
        ) implies cells_of(&r)[#[trigger] spawn_cell(rows as int, cols as int, s).0][spawn_cell(
        rows as int,
        cols as int,
        s,
    ).1] == 0 by {
        let p = spawn_cell(rows as int, cols as int, s);
        assert(is_spawn(rows as int, cols as int, num_players, p.0, p.1));
    }
    r
}


/// The cells of the built-in 11 × 11 map.
pub open spec fn built_in_cells() -> Seq<Seq<i32>> {
    seq![
        seq![0i32, 0, 0, 0, 0, 0, 0, 0, 0, 0, 0],
        seq![0i32, 0, 0, 2, 0, 0, 0, 2, 0, 0, 0],
        seq![0i32, -1i32, 0, 0, 0, 1, 0, 0, 0, -1i32, 0],
        seq![2i32, 0, 1, 0, -1i32, 0, -1i32, 0, 1, 0, 2],
        seq![0i32, 0, 0, 0, 2, 0, 2, 0, 0, 0, 0],
        seq![0i32, 1, -1i32, 2, 0, 0, 0, 2, -1i32, 1, 0],
        seq![0i32, 0, 0, 0, 2, 0, 2, 0, 0, 0, 0],
        seq![2i32, 0, 1, 0, -1i32, 0, -1i32, 0, 1, 0, 2],
        seq![0i32, -1i32, 0, 0, 0, 1, 0, 0, 0, -1i32, 0],
        seq![0i32, 0, 0, 2, 0, 0, 0, 2, 0, 0, 0],
        seq![0i32, 0, 0, 0, 0, 0, 0, 0, 0, 0, 0],
    ]
}

/// The built-in symmetric 11 × 11 map, whose four start cells are empty.
pub fn default_map() -> (r: MapData)
    ensures
        r.rows == 11,
        r.cols == 11,
        map_wf(&r),
        cells_of(&r) == built_in_cells(),
{
    let r = MapData {
        rows: 11,
        cols: 11,
        cells: vec![
            vec![0, 0, 0, 0, 0, 0, 0, 0, 0, 0, 0],
            vec![0, 0, 0, 2, 0, 0, 0, 2, 0, 0, 0],
            vec![0, -1, 0, 0, 0, 1, 0, 0, 0, -1, 0],
            vec![2, 0, 1, 0, -1, 0, -1, 0, 1, 0, 2],
            vec![0, 0, 0, 0, 2, 0, 2, 0, 0, 0, 0],
            vec![0, 1, -1, 2, 0, 0, 0, 2, -1, 1, 0],
            vec![0, 0, 0, 0, 2, 0, 2, 0, 0, 0, 0],
            vec![2, 0, 1, 0, -1, 0, -1, 0, 1, 0, 2],
            vec![0, -1, 0, 0, 0, 1, 0, 0, 0, -1, 0],
            vec![0, 0, 0, 2, 0, 0, 0, 2, 0, 0, 0],
            vec![0, 0, 0, 0, 0, 0, 0, 0, 0, 0, 0],
        ],
    };
    assert(cells_of(&r) =~= built_in_cells());
    r
}

} // verus!
