//! The bot manager's bookkeeping: seat names, the split of a game's players
//! into humans and bots, and the choice of a bot-worker host.

use vstd::prelude::*;
use crate::text::{ascii_lower, has_visible_text, is_blank, trim, trimmed};
use crate::types::{GameStatus, PlayerName, PlayerState, StepEventType};

verus! {

pub open spec fn name_code(n: PlayerName) -> Seq<char> {
    match n {
        PlayerName::A => "A"@,
        PlayerName::B => "B"@,
        PlayerName::C => "C"@,
        PlayerName::D => "D"@,
    }
}

pub fn player_name_value(player_name: PlayerName) -> (r: &'static str)
    ensures
        r@ == name_code(player_name),
{
    match player_name {
        PlayerName::A => "A",
        PlayerName::B => "B",
        PlayerName::C => "C",
        PlayerName::D => "D",
    }
}

pub open spec fn status_code(s: GameStatus) -> Seq<char> {
    match s {
        GameStatus::Created => "CREATED"@,
        GameStatus::Running => "RUNNING"@,
        GameStatus::Finished => "FINISHED"@,
    }
}

pub fn game_status_value(status: GameStatus) -> (r: &'static str)
    ensures
        r@ == status_code(status),
{
    match status {
        GameStatus::Created => "CREATED",
        GameStatus::Running => "RUNNING",
        GameStatus::Finished => "FINISHED",
    }
}

pub open spec fn seat_rank(n: PlayerName) -> u8 {
    match n {
        PlayerName::A => 0,
        PlayerName::B => 1,
        PlayerName::C => 2,
        PlayerName::D => 3,
    }
}

/// The position of a seat in turn order.
pub fn player_sort_key(player_name: PlayerName) -> (r: u8)
    ensures
        r == seat_rank(player_name),
{
    match player_name {
        PlayerName::A => 0,
        PlayerName::B => 1,
        PlayerName::C => 2,
        PlayerName::D => 3,
    }
}

/// The seat a one-letter text names, in either case and with white space
/// around it.
pub open spec fn named_seat(s: Seq<char>) -> Option<PlayerName> {
    let t = trimmed(s);
    if t.len() != 1 {
        None
    } else if ascii_lower(t[0]) == 97 {
        Some(PlayerName::A)
    } else if ascii_lower(t[0]) == 98 {
        Some(PlayerName::B)
    } else if ascii_lower(t[0]) == 99 {
        Some(PlayerName::C)
    } else if ascii_lower(t[0]) == 100 {
        Some(PlayerName::D)
    } else {
        None
    }
}

pub fn parse_player_name(value: &str) -> (r: Option<PlayerName>)
    ensures
        r == named_seat(value@),
{
    let t = trim(value);
    if t.unicode_len() != 1 {
        return None;
    }
    let u = t.as_str().get_char(0) as u32;
    let l = if 65 <= u && u <= 90 { u + 32 } else { u };
    if l == 97 {
        Some(PlayerName::A)
    } else if l == 98 {
        Some(PlayerName::B)
    } else if l == 99 {
        Some(PlayerName::C)
    } else if l == 100 {
        Some(PlayerName::D)
    } else {
        None
    }
}

/// The seats in `players`, each once, in order of first appearance.
pub fn dedupe_players(players: Vec<PlayerName>) -> (r: Vec<PlayerName>)
    ensures
        forall|i: int, j: int| 0 <= i < j < r@.len() ==> r@[i] != r@[j],
        forall|n: PlayerName| r@.contains(n) <==> players@.contains(n),
{
    let mut out: Vec<PlayerName> = Vec::new();
    let mut i: usize = 0;
    while i < players.len()
        invariant
            i <= players@.len(),
            forall|a: int, b: int| 0 <= a < b < out@.len() ==> out@[a] != out@[b],
            forall|n: PlayerName|
                out@.contains(n) <==> (exists|m: int| 0 <= m < i && #[trigger] players@[m] == n),
        decreases players@.len() - i,
    {
        let p = players[i];
        let mut seen = false;
        let mut k: usize = 0;
        while k < out.len()
            invariant
                k <= out@.len(),
                seen <==> exists|m: int| 0 <= m < k && out@[m] == p,
            decreases out@.len() - k,
        {
            if out[k] == p {
                seen = true;
            }
            k = k + 1;
        }
        let ghost before = out@;
        if !seen {
            out.push(p);
        }
        proof {
            assert forall|n: PlayerName|
                out@.contains(n) <==> (exists|m: int| 0 <= m < i + 1 && #[trigger] players@[m] == n) by {
                if n == p {
                    assert(players@[i as int] == n);
                    if seen {
                        let m = choose|m: int| 0 <= m < k && before[m] == p;
                        assert(out@[m] == n);
                    } else {
                        assert(out@[out@.len() - 1] == n);
                    }
                } else {
                    if out@.contains(n) {
                        let m = choose|m: int| 0 <= m < out@.len() && out@[m] == n;
                        assert(before[m] == n);
                        assert(before.contains(n));
                    }
                    if exists|m: int| 0 <= m < i + 1 && #[trigger] players@[m] == n {
                        let m = choose|m: int| 0 <= m < i + 1 && #[trigger] players@[m] == n;
                        assert(m < i);
                        assert(before.contains(n));
                        let w = choose|w: int| 0 <= w < before.len() && before[w] == n;
                        assert(out@[w] == n);
                    }
                }
            }
        }
        i = i + 1;
    }
    proof {
        assert forall|n: PlayerName| out@.contains(n) <==> players@.contains(n) by {
            if players@.contains(n) {
                let m = choose|m: int| 0 <= m < players@.len() && players@[m] == n;
                assert(players@[m] == n);
            }
        }
    }
    out
}

/// The default split: seat A is played by a human, every other seat by a
/// bot. Returns the indices of the human and of the bot players.
pub fn default_split(players: &Vec<PlayerState>) -> (r: (Vec<usize>, Vec<usize>))
    ensures
        forall|k: int| 0 <= k < r.0@.len() ==> (#[trigger] r.0@[k]) < players@.len() && players@[r.0@[k] as int].player_name == PlayerName::A,
        forall|k: int| 0 <= k < r.1@.len() ==> (#[trigger] r.1@[k]) < players@.len() && players@[r.1@[k] as int].player_name != PlayerName::A,
        r.0@.len() + r.1@.len() == players@.len(),
        forall|i: int, j: int| 0 <= i < j < r.0@.len() ==> r.0@[i] < r.0@[j],
        forall|i: int, j: int| 0 <= i < j < r.1@.len() ==> r.1@[i] < r.1@[j],
{
    let mut humans: Vec<usize> = Vec::new();
    let mut bots: Vec<usize> = Vec::new();
    let mut i: usize = 0;
    while i < players.len()
        invariant
            i <= players@.len(),
            humans@.len() + bots@.len() == i,
            forall|k: int| 0 <= k < humans@.len() ==> (#[trigger] humans@[k]) < i && players@[humans@[k] as int].player_name == PlayerName::A,
            forall|k: int| 0 <= k < bots@.len() ==> (#[trigger] bots@[k]) < i && players@[bots@[k] as int].player_name != PlayerName::A,
            forall|a: int, b: int| 0 <= a < b < humans@.len() ==> humans@[a] < humans@[b],
            forall|a: int, b: int| 0 <= a < b < bots@.len() ==> bots@[a] < bots@[b],
        decreases players@.len() - i,
    {
        if players[i].player_name == PlayerName::A {
            humans.push(i);
        } else {
            bots.push(i);
        }
        i = i + 1;
    }
    (humans, bots)
}

/// Why an explicit split of a game's players is refused.
#[derive(Debug, Clone, Copy, PartialEq, Eq, Structural)]
pub enum AssignmentError {
    /// A player id is both human and bot.
    Overlap,
    /// A player id is not in the game.
    UnknownPlayer,
}

pub open spec fn in_ids(ids: Seq<String>, id: Seq<char>) -> bool {
    exists|i: int| 0 <= i < ids.len() && (#[trigger] ids[i])@ == id
}

pub open spec fn in_game(players: Seq<PlayerState>, id: Seq<char>) -> bool {
    exists|i: int| 0 <= i < players.len() && (#[trigger] players[i]).player_id@ == id
}

pub(crate) fn contains_id(ids: &Vec<String>, id: &String) -> (r: bool)
    ensures
        r == in_ids(ids@, id@),
{
    let mut i: usize = 0;
    while i < ids.len()
        invariant
            i <= ids@.len(),
            forall|j: int| 0 <= j < i ==> (#[trigger] ids@[j])@ != id@,
        decreases ids@.len() - i,
    {
        if ids[i] == *id {
            return true;
        }
        i = i + 1;
    }
    false
}

fn player_in_game(players: &Vec<PlayerState>, id: &String) -> (r: bool)
    ensures
        r == in_game(players@, id@),
{
    let mut i: usize = 0;
    while i < players.len()
        invariant
            i <= players@.len(),
            forall|j: int| 0 <= j < i ==> (#[trigger] players@[j]).player_id@ != id@,
        decreases players@.len() - i,
    {
        if players[i].player_id == *id {
            return true;
        }
        i = i + 1;
    }
    false
}

/// An explicit split is accepted when no id is both human and bot and every
/// id belongs to the game.
pub fn check_assignment(players: &Vec<PlayerState>, humans: &Vec<String>, bots: &Vec<String>) -> (r: Result<(), AssignmentError>)
    ensures
        match r {
            Err(AssignmentError::Overlap) => exists|i: int| 0 <= i < humans@.len() && in_ids(bots@, (#[trigger] humans@[i])@),
            Err(AssignmentError::UnknownPlayer) => {
                &&& forall|i: int| 0 <= i < humans@.len() ==> !in_ids(bots@, (#[trigger] humans@[i])@)
                &&& (exists|i: int| 0 <= i < humans@.len() && !in_game(players@, (#[trigger] humans@[i])@))
                    || (exists|i: int| 0 <= i < bots@.len() && !in_game(players@, (#[trigger] bots@[i])@))
            },
            Ok(()) => {
                &&& forall|i: int| 0 <= i < humans@.len() ==> !in_ids(bots@, (#[trigger] humans@[i])@)
                &&& forall|i: int| 0 <= i < humans@.len() ==> in_game(players@, (#[trigger] humans@[i])@)
                &&& forall|i: int| 0 <= i < bots@.len() ==> in_game(players@, (#[trigger] bots@[i])@)
            },
        },
{
    let mut i: usize = 0;
    while i < humans.len()
        invariant
            i <= humans@.len(),
            forall|j: int| 0 <= j < i ==> !in_ids(bots@, (#[trigger] humans@[j])@),
        decreases humans@.len() - i,
    {
        if contains_id(bots, &humans[i]) {
            return Err(AssignmentError::Overlap);
        }
        i = i + 1;
    }
    let mut h: usize = 0;
    while h < humans.len()
        invariant
            h <= humans@.len(),
            forall|j: int| 0 <= j < humans@.len() ==> !in_ids(bots@, (#[trigger] humans@[j])@),
            forall|j: int| 0 <= j < h ==> in_game(players@, (#[trigger] humans@[j])@),
        decreases humans@.len() - h,
    {
        if !player_in_game(players, &humans[h]) {
            return Err(AssignmentError::UnknownPlayer);
        }
        h = h + 1;
    }
    let mut b: usize = 0;
    while b < bots.len()
        invariant
            b <= bots@.len(),
            forall|j: int| 0 <= j < humans@.len() ==> !in_ids(bots@, (#[trigger] humans@[j])@),
            forall|j: int| 0 <= j < humans@.len() ==> in_game(players@, (#[trigger] humans@[j])@),
            forall|j: int| 0 <= j < b ==> in_game(players@, (#[trigger] bots@[j])@),
        decreases bots@.len() - b,
    {
        if !player_in_game(players, &bots[b]) {
            return Err(AssignmentError::UnknownPlayer);
        }
        b = b + 1;
    }
    Ok(())
}

/// `i` holds the least load, and is the first such host.
pub open spec fn least_loaded(loads: Seq<usize>, i: int) -> bool {
    &&& 0 <= i < loads.len()
    &&& forall|j: int| 0 <= j < loads.len() ==> loads[i] <= #[trigger] loads[j]
    &&& forall|j: int| 0 <= j < i ==> loads[i] < #[trigger] loads[j]
}

/// Picks the bot-worker host for a new bot, given each configured host's
/// number of bindings: the first least-loaded host. Whether it is under
/// capacity is returned beside it (the caller warns when it is not). `None`
/// when no host is configured.
pub fn select_host(loads: &Vec<usize>, capacity: usize) -> (r: Option<(usize, bool)>)
    ensures
        match r {
            None => loads@.len() == 0,
            Some((i, under)) => least_loaded(loads@, i as int) && under == (loads@[i as int] < capacity),
        },
{
    if loads.len() == 0 {
        return None;
    }
    let mut best: usize = 0;
    let mut i: usize = 1;
    while i < loads.len()
        invariant
            1 <= i <= loads@.len(),
            best < i,
            forall|j: int| 0 <= j < i ==> loads@[best as int] <= #[trigger] loads@[j],
            forall|j: int| 0 <= j < best ==> loads@[best as int] < #[trigger] loads@[j],
        decreases loads@.len() - i,
    {
        if loads[i] < loads[best] {
            best = i;
        }
        i = i + 1;
    }
    Some((best, loads[best] < capacity))
}


/// What the manager's control consumer does with a step.
#[derive(Debug, Clone, Copy, PartialEq, Eq, Structural)]
pub enum ControlAction {
    Ignore,
    /// The game started: mark its bindings running, or assign the default
    /// bots when it has no assignment, and start its forwarder.
    Reconcile { assign_default: bool },
    /// The game finished: stop and delete its bots.
    StopBots,
}

pub fn control_action(event_type: StepEventType, has_assignment: bool) -> (r: ControlAction)
    ensures
        r == match event_type {
            StepEventType::GameStarted => ControlAction::Reconcile { assign_default: !has_assignment },
            StepEventType::GameFinished => ControlAction::StopBots,
            _ => ControlAction::Ignore,
        },
{
    match event_type {
        StepEventType::GameStarted => ControlAction::Reconcile { assign_default: !has_assignment },
        StepEventType::GameFinished => ControlAction::StopBots,
        _ => ControlAction::Ignore,
    }
}

/// What a game's forwarder does with a step read from its topic.
#[derive(Debug, Clone, Copy, PartialEq, Eq, Structural)]
pub enum ForwardAction {
    /// The step belongs to another game.
    Skip,
    /// Hand the step to every bound bot worker.
    Forward,
    /// Hand it on, then stop the bots and the forwarder.
    ForwardAndStop,
}

pub fn forward_action(step_game_id: &String, game_id: &String, event_type: StepEventType) -> (r: ForwardAction)
    ensures
        r == if step_game_id@ != game_id@ {
            ForwardAction::Skip
        } else if event_type == StepEventType::GameFinished {
            ForwardAction::ForwardAndStop
        } else {
            ForwardAction::Forward
        },
{
    if *step_game_id != *game_id {
        ForwardAction::Skip
    } else if event_type == StepEventType::GameFinished {
        ForwardAction::ForwardAndStop
    } else {
        ForwardAction::Forward
    }
}


/// `id` is the id of a player whose seat is in `seats`.
pub open spec fn id_of_seat_in(players: Seq<PlayerState>, seats: Seq<PlayerName>, id: String) -> bool {
    exists|i: int| 0 <= i < players.len() && players[i].player_id == id && seats.contains(#[trigger] players[i].player_name)
}

/// `id` is the id of a player whose seat is not in `seats`.
pub open spec fn id_of_seat_not_in(players: Seq<PlayerState>, seats: Seq<PlayerName>, id: String) -> bool {
    exists|i: int| 0 <= i < players.len() && (#[trigger] players[i]).player_id == id && !seats.contains(players[i].player_name)
}

/// Some player of seat `n` has its id in `ids`.
pub open spec fn seat_listed(players: Seq<PlayerState>, ids: Seq<String>, n: PlayerName) -> bool {
    exists|i: int, k: int| 0 <= i < players.len() && 0 <= k < ids.len() && (#[trigger] players[i]).player_name == n && #[trigger] ids[k] == players[i].player_id
}

/// Splits a new game's players into humans and bots from the seat names
/// asked for as bots (each taken once). Every named seat must be in the
/// game; its first player is the bot. The error names a missing seat.
pub fn split_by_bot_seats(players: &Vec<PlayerState>, bot_seats: Vec<PlayerName>) -> (r: Result<(Vec<String>, Vec<String>), PlayerName>)
    ensures
        match r {
            Err(n) => bot_seats@.contains(n) && forall|i: int| 0 <= i < players@.len() ==> (#[trigger] players@[i]).player_name != n,
            Ok((humans, bots)) => {
                &&& forall|k: int| 0 <= k < bots@.len() ==> #[trigger] id_of_seat_in(players@, bot_seats@, bots@[k])
                &&& forall|n: PlayerName| bot_seats@.contains(n) ==> #[trigger] seat_listed(players@, bots@, n)
                &&& forall|k: int| 0 <= k < humans@.len() ==> #[trigger] id_of_seat_not_in(players@, bot_seats@, humans@[k])
                &&& forall|i: int| 0 <= i < players@.len() && !bot_seats@.contains(#[trigger] players@[i].player_name) ==> humans@.contains(players@[i].player_id)
            },
        },
{
    let seats = dedupe_players(bot_seats);
    let ghost names = bot_seats@;
    let mut bots: Vec<String> = Vec::new();
    let mut s: usize = 0;
    while s < seats.len()
        invariant
            s <= seats@.len(),
            names == bot_seats@,
            forall|n: PlayerName| seats@.contains(n) <==> names.contains(n),
            forall|k: int| 0 <= k < bots@.len() ==> #[trigger] id_of_seat_in(players@, names, bots@[k]),
            forall|t: int| 0 <= t < s ==> #[trigger] seat_listed(players@, bots@, seats@[t]),
        decreases seats@.len() - s,
    {
        let name = seats[s];
        let mut found: Option<usize> = None;
        let mut i: usize = 0;
        while i < players.len()
            invariant
                i <= players@.len(),
                match found {
                    Some(j) => j < players@.len() && players@[j as int].player_name == name,
                    None => forall|m: int| 0 <= m < i ==> (#[trigger] players@[m]).player_name != name,
                },
            decreases players@.len() - i,
        {
            if found.is_none() && players[i].player_name == name {
                found = Some(i);
            }
            i = i + 1;
        }
        assert(seats@[s as int] == name);
        assert(names.contains(name));
        match found {
            Some(j) => {
                let ghost before = bots@;
                bots.push(players[j].player_id.clone());
                proof {
                    assert(bots@[bots@.len() - 1] == players@[j as int].player_id);
                    assert forall|k: int| 0 <= k < bots@.len() implies #[trigger] id_of_seat_in(players@, names, bots@[k]) by {
                        if k < before.len() {
                            assert(bots@[k] == before[k]);
                            assert(id_of_seat_in(players@, names, before[k]));
                        } else {
                            assert(players@[j as int].player_id == bots@[k]);
                        }
                    }
                    assert forall|t: int| 0 <= t < s + 1 implies #[trigger] seat_listed(players@, bots@, seats@[t]) by {
                        if t < s {
                            assert(seat_listed(players@, before, seats@[t]));
                            let (i, k) = choose|i: int, k: int| 0 <= i < players@.len() && 0 <= k < before.len() && (#[trigger] players@[i]).player_name == seats@[t] && #[trigger] before[k] == players@[i].player_id;
                            assert(bots@[k] == before[k]);
                        } else {
                            assert(bots@[bots@.len() - 1] == players@[j as int].player_id);
                        }
                    }
                }
            },
            None => {
                return Err(name);
            },
        }
        s = s + 1;
    }
    let mut humans: Vec<String> = Vec::new();
    let mut i: usize = 0;
    while i < players.len()
        invariant
            i <= players@.len(),
            names == bot_seats@,
            forall|n: PlayerName| seats@.contains(n) <==> names.contains(n),
            forall|k: int| 0 <= k < humans@.len() ==> #[trigger] id_of_seat_not_in(players@, names, humans@[k]),
            forall|m: int| 0 <= m < i && !names.contains(#[trigger] players@[m].player_name) ==> humans@.contains(players@[m].player_id),
        decreases players@.len() - i,
    {
        let name = players[i].player_name;
        let mut is_bot = false;
        let mut t: usize = 0;
        while t < seats.len()
            invariant
                t <= seats@.len(),
                is_bot <==> exists|m: int| 0 <= m < t && seats@[m] == name,
            decreases seats@.len() - t,
        {
            if seats[t] == name {
                is_bot = true;
            }
            t = t + 1;
        }
        let ghost before = humans@;
        if !is_bot {
            humans.push(players[i].player_id.clone());
        }
        proof {
            if is_bot {
                let m = choose|m: int| 0 <= m < t && seats@[m] == name;
                assert(seats@.contains(name));
            } else {
                assert(!seats@.contains(name));
            }
            assert forall|k: int| 0 <= k < humans@.len() implies #[trigger] id_of_seat_not_in(players@, names, humans@[k]) by {
                if k < before.len() {
                    assert(humans@[k] == before[k]);
                    assert(id_of_seat_not_in(players@, names, before[k]));
                } else {
                    assert(players@[i as int].player_id == humans@[k]);
                }
            }
            assert forall|m: int| 0 <= m < i + 1 && !names.contains(#[trigger] players@[m].player_name) implies humans@.contains(players@[m].player_id) by {
                if m < i {
                    assert(before.contains(players@[m].player_id));
                    let w = choose|w: int| 0 <= w < before.len() && before[w] == players@[m].player_id;
                    assert(humans@[w] == before[w]);
                } else {
                    assert(humans@[humans@.len() - 1] == players@[m].player_id);
                }
            }
        }
        i = i + 1;
    }
    assert forall|n: PlayerName| bot_seats@.contains(n) implies #[trigger] seat_listed(players@, bots@, n) by {
        assert(seats@.contains(n));
        let t = choose|t: int| 0 <= t < seats@.len() && seats@[t] == n;
        assert(seat_listed(players@, bots@, seats@[t]));
    }
    Ok((humans, bots))
}

/// The host for a new bot: the host of the previous binding when one is
/// named, else the first least-loaded configured host. The flag tells
/// whether the chosen host is under capacity (always so for the previous
/// host, which is kept whatever its load).
pub fn select_bot_host(
    preferred: Option<&String>,
    hosts: &Vec<String>,
    loads: &Vec<usize>,
    capacity: usize,
) -> (r: Option<(String, bool)>)
    requires
        hosts@.len() == loads@.len(),
    ensures
        hosts@.len() == 0 ==> r is None,
        hosts@.len() > 0 ==> match r {
            None => false,
            Some((h, under)) => if preferred is Some && has_visible_text(preferred->0@) {
                h == *preferred->0 && under
            } else {
                exists|i: int| least_loaded(loads@, i) && h == hosts@[i] && under == (loads@[i] < capacity)
            },
        },
{
    if hosts.len() == 0 {
        return None;
    }
    match preferred {
        Some(p) => {
            if !is_blank(p.as_str()) {
                return Some((p.clone(), true));
            }
        },
        None => {},
    }
    match select_host(loads, capacity) {
        Some((i, under)) => Some((hosts[i].clone(), under)),
        None => None,
    }
}

} // verus!
