//! Data shared by every component: enums, the board, players and the
//! messages exchanged on the bus. Timestamps are milliseconds since the Unix
//! epoch.

use vstd::prelude::*;

verus! {

pub const DEFAULT_TURN_TIMEOUT_SECONDS: u64 = 120;

pub const DEFAULT_PLAYER_HP: i32 = 10;

pub const DEFAULT_NUM_PLAYERS: u8 = 2;

pub const MAX_NUM_PLAYERS: u8 = 4;

pub const MIN_NUM_PLAYERS: u8 = 1;

#[derive(Debug, Clone, Copy, PartialEq, Eq, Structural, Hash)]
pub enum PlayerName {
    A,
    B,
    C,
    D,
}

#[derive(Debug, Clone, Copy, PartialEq, Eq, Structural)]
pub enum Direction {
    Up,
    Left,
    Down,
    Right,
}

#[derive(Debug, Clone, Copy, PartialEq, Eq, Structural)]
pub enum CommandType {
    Move,
    Shield,
    Shoot,
    Speak,
    Timeout,
    GameStarted,
}

#[derive(Debug, Clone, Copy, PartialEq, Eq, Structural)]
pub enum CommandSource {
    User,
    Bot,
    Timer,
    System,
}

#[derive(Debug, Clone, Copy, PartialEq, Eq, Structural)]
pub enum GameStatus {
    Created,
    Running,
    Finished,
}

#[derive(Debug, Clone, Copy, PartialEq, Eq, Structural)]
pub enum MapSource {
    Custom,
    Default,
}

#[derive(Debug, Clone, Copy, PartialEq, Eq, Structural)]
pub enum ResultStatus {
    Applied,
    TimeoutApplied,
    IgnoredTimeout,
    InvalidCommand,
    InvalidTurn,
    DuplicateCommand,
}

#[derive(Debug, Clone, Copy, PartialEq, Eq, Structural)]
pub enum StepEventType {
    GameStarted,
    StepApplied,
    TimeoutApplied,
    GameFinished,
}

/// A `rows × cols` grid. A cell is 0 when empty, negative for an
/// indestructible wall, and positive for a wall with that many hit points.
#[derive(Debug, Clone)]
pub struct MapData {
    pub rows: usize,
    pub cols: usize,
    pub cells: Vec<Vec<i32>>,
}

#[derive(Debug, Clone)]
pub struct PlayerState {
    pub player_name: PlayerName,
    pub player_id: String,
    pub hp: i32,
    pub row: usize,
    pub col: usize,
    pub shield: Direction,
    pub alive: bool,
}

#[derive(Debug, Clone)]
pub struct GameStateSnapshot {
    pub map: MapData,
    pub players: Vec<PlayerState>,
}

#[derive(Debug, Clone)]
pub struct PlayerIdentity {
    pub player_name: PlayerName,
    pub player_id: String,
}

#[derive(Debug, Clone)]
pub struct CreateGameRequest {
    pub turn_timeout_seconds: Option<u64>,
    pub map: Option<MapData>,
    pub bot_players: Option<Vec<PlayerName>>,
    pub num_players: Option<u8>,
}

#[derive(Debug, Clone)]
pub struct CreateGameResponse {
    pub game_id: String,
    pub status: GameStatus,
    pub map_source: MapSource,
    pub turn_no: u64,
    pub round_no: u64,
    pub current_player_id: String,
    pub players: Vec<PlayerIdentity>,
    pub turn_timeout_seconds: u64,
    pub created_at: i64,
}

#[derive(Debug, Clone)]
pub struct StartGameResponse {
    pub game_id: String,
    pub status: GameStatus,
    pub started: bool,
    pub reason: Option<String>,
    pub turn_no: u64,
    pub round_no: u64,
    pub current_player_id: String,
    pub started_at: Option<i64>,
}

#[derive(Debug, Clone)]
pub struct GameInstanceResponse {
    pub game_id: String,
    pub status: GameStatus,
    pub map_source: MapSource,
    pub turn_timeout_seconds: u64,
    pub turn_no: u64,
    pub round_no: u64,
    pub current_player_id: String,
    pub created_at: i64,
    pub started_at: Option<i64>,
    pub turn_started_at: Option<i64>,
    pub input_topic: Option<String>,
    pub output_topic: Option<String>,
    pub state: GameStateSnapshot,
}

#[derive(Debug, Clone)]
pub struct SnapshotResponse {
    pub game_id: String,
    pub status: GameStatus,
    pub turn_no: u64,
    pub round_no: u64,
    pub current_player_id: String,
    pub state: GameStateSnapshot,
    pub last_step_seq: u64,
    pub turn_started_at: Option<i64>,
}

#[derive(Debug, Clone)]
pub struct SubmitCommandRequest {
    pub command_id: String,
    pub player_id: String,
    pub command_type: CommandType,
    pub direction: Option<Direction>,
    pub speak_text: Option<String>,
    pub turn_no: u64,
    pub client_sent_at: i64,
}

#[derive(Debug, Clone)]
pub struct SubmitCommandResponse {
    pub accepted: bool,
    pub command_id: String,
    pub queued_at: i64,
}

#[derive(Debug, Clone)]
pub struct CommandEnvelope {
    pub command_id: String,
    pub source: CommandSource,
    pub game_id: String,
    pub player_id: Option<String>,
    pub command_type: CommandType,
    pub direction: Option<Direction>,
    pub speak_text: Option<String>,
    pub turn_no: u64,
    pub sent_at: i64,
}

#[derive(Debug, Clone)]
pub struct StepEvent {
    pub game_id: String,
    pub step_seq: u64,
    pub turn_no: u64,
    pub round_no: u64,
    pub event_type: StepEventType,
    pub result_status: ResultStatus,
    pub command: Option<CommandEnvelope>,
    pub state_after: GameStateSnapshot,
    pub created_at: i64,
}

/// The cells of a map as a sequence of rows.
pub open spec fn cells_of(m: &MapData) -> Seq<Seq<i32>> {
    Seq::new(m.cells@.len(), |i: int| m.cells@[i]@)
}

/// Every row is present and has `cols` cells.
pub open spec fn map_wf(m: &MapData) -> bool {
    &&& m.cells@.len() == m.rows
    &&& forall|i: int| 0 <= i < m.rows ==> (#[trigger] m.cells@[i])@.len() == m.cols
}


impl MapData {
    /// A copy of the map, cell for cell.
    pub fn copy(&self) -> (r: MapData)
        ensures
            r.rows == self.rows,
            r.cols == self.cols,
            cells_of(&r) == cells_of(self),
            map_wf(self) ==> map_wf(&r),
    {
        let mut cells: Vec<Vec<i32>> = Vec::new();
        let mut i: usize = 0;
        while i < self.cells.len()
            invariant
                i <= self.cells@.len(),
                cells@.len() == i,
                forall|k: int| 0 <= k < i ==> (#[trigger] cells@[k])@ == self.cells@[k]@,
            decreases self.cells@.len() - i,
        {
            let src = &self.cells[i];
            let mut row: Vec<i32> = Vec::new();
            let mut j: usize = 0;
            while j < src.len()
                invariant
                    j <= src@.len(),
                    row@ == src@.subrange(0, j as int),
                decreases src@.len() - j,
            {
                row.push(src[j]);
                j = j + 1;
            }
            assert(row@ =~= src@);
            cells.push(row);
            i = i + 1;
        }
        let r = MapData { rows: self.rows, cols: self.cols, cells };
        assert(cells_of(&r) =~= cells_of(self));
        r
    }
}

impl PlayerState {
    /// A copy of the player, field for field.
    pub fn copy(&self) -> (r: PlayerState)
        ensures
            r == *self,
    {
        PlayerState {
            player_name: self.player_name,
            player_id: self.player_id.clone(),
            hp: self.hp,
            row: self.row,
            col: self.col,
            shield: self.shield,
            alive: self.alive,
        }
    }
}

pub fn copy_players(players: &Vec<PlayerState>) -> (r: Vec<PlayerState>)
    ensures
        r@ == players@,
{
    let mut out: Vec<PlayerState> = Vec::new();
    let mut i: usize = 0;
    while i < players.len()
        invariant
            i <= players@.len(),
            out@ == players@.subrange(0, i as int),
        decreases players@.len() - i,
    {
        out.push(players[i].copy());
        i = i + 1;
    }
    assert(out@ =~= players@);
    out
}

impl GameStateSnapshot {
    /// A copy of the board and of every player.
    pub fn copy(&self) -> (r: GameStateSnapshot)
        ensures
            r.map.rows == self.map.rows,
            r.map.cols == self.map.cols,
            cells_of(&r.map) == cells_of(&self.map),
            r.players@ == self.players@,
            map_wf(&self.map) ==> map_wf(&r.map),
    {
        GameStateSnapshot { map: self.map.copy(), players: copy_players(&self.players) }
    }
}

/// Two snapshots hold the same board and the same players.
pub open spec fn same_snapshot(a: &GameStateSnapshot, b: &GameStateSnapshot) -> bool {
    &&& a.map.rows == b.map.rows
    &&& a.map.cols == b.map.cols
    &&& cells_of(&a.map) == cells_of(&b.map)
    &&& a.players@ == b.players@
}

} // verus!
