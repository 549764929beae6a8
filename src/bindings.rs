//! The bot manager's assignments: which players of a game are humans and
//! which are played by bots, and the plans that change them. Player ids are
//! unique within each list of an assignment.

use vstd::prelude::*;
use crate::authority::{has_id, index_of_id, is_first_with_id, lemma_index_of_id_unique, position_of_id};
use crate::manager::{AssignmentError, check_assignment, contains_id, in_game, in_ids};
use crate::types::{PlayerName, PlayerState};

verus! {

/// A bot bound to a player's seat on a bot-worker host.
#[derive(Debug, Clone)]
pub struct BotBinding {
    pub player_name: PlayerName,
    pub player_id: String,
    pub bot_id: String,
    pub bot_service_base_url: String,
    pub status: String,
    pub game_guide_version: String,
}

impl BotBinding {
    /// A copy of the binding, field for field.
    pub fn copy(&self) -> (r: BotBinding)
        ensures
            r == *self,
    {
        BotBinding {
            player_name: self.player_name,
            player_id: self.player_id.clone(),
            bot_id: self.bot_id.clone(),
            bot_service_base_url: self.bot_service_base_url.clone(),
            status: self.status.clone(),
            game_guide_version: self.game_guide_version.clone(),
        }
    }
}

/// The humans and the bot bindings of one game.
#[derive(Debug, Clone)]
pub struct Assignment {
    pub game_id: String,
    pub humans: Vec<(String, PlayerName)>,
    pub bindings: Vec<BotBinding>,
}

pub open spec fn bindings_unique(s: Seq<BotBinding>) -> bool {
    forall|i: int, j: int| 0 <= i < j < s.len() ==> s[i].player_id@ != s[j].player_id@
}

pub open spec fn humans_unique(s: Seq<(String, PlayerName)>) -> bool {
    forall|i: int, j: int| 0 <= i < j < s.len() ==> s[i].0@ != s[j].0@
}

pub open spec fn assignment_wf(a: Assignment) -> bool {
    bindings_unique(a.bindings@) && humans_unique(a.humans@)
}

/// The seat of the first player with id `id`.
pub open spec fn seat_of(players: Seq<PlayerState>, id: Seq<char>) -> PlayerName {
    players[index_of_id(players, id)].player_name
}

/// The bot id bound to player `id`, if any.
pub open spec fn bound_bot(previous: Seq<BotBinding>, id: Seq<char>) -> Option<String> {
    if exists|j: int| 0 <= j < previous.len() && (#[trigger] previous[j]).player_id@ == id {
        Some(previous[choose|j: int| 0 <= j < previous.len() && (#[trigger] previous[j]).player_id@ == id].bot_id)
    } else {
        None
    }
}

/// A bot to create or refresh: the player, its seat and the bot it had.
#[derive(Debug, Clone)]
pub struct BindTarget {
    pub player_id: String,
    pub player_name: PlayerName,
    pub existing_bot_id: Option<String>,
}

/// What an explicit assignment does: the humans with their seats, the bots
/// to bind now, the previous bindings kept as they are, and the previous
/// bindings to stop and delete.
#[derive(Debug, Clone)]
pub struct AssignmentPlan {
    pub humans: Vec<(String, PlayerName)>,
    pub to_bind: Vec<BindTarget>,
    pub kept: Vec<BotBinding>,
    pub to_delete: Vec<BotBinding>,
}

fn seat_in_game(players: &Vec<PlayerState>, id: &String) -> (r: PlayerName)
    requires
        has_id(players@, id@),
    ensures
        r == seat_of(players@, id@),
{
    match position_of_id(players, id) {
        Some(i) => {
            proof {
                lemma_index_of_id_unique(players@, id@, i as int);
            }
            players[i].player_name
        },
        None => {
            // `id` is in the game.
            proof {
                assert(false);
            }
            PlayerName::A
        },
    }
}

fn find_bound_bot(previous: &Vec<BotBinding>, id: &String) -> (r: Option<String>)
    requires
        bindings_unique(previous@),
    ensures
        r == bound_bot(previous@, id@),
{
    let mut j: usize = 0;
    while j < previous.len()
        invariant
            j <= previous@.len(),
            bindings_unique(previous@),
            forall|m: int| 0 <= m < j ==> (#[trigger] previous@[m]).player_id@ != id@,
        decreases previous@.len() - j,
    {
        if previous[j].player_id == *id {
            proof {
                let k = choose|k: int| 0 <= k < previous@.len() && (#[trigger] previous@[k]).player_id@ == id@;
                assert(previous@[j as int].player_id@ == id@);
                if k < j {
                    assert(previous@[k].player_id@ != id@);
                } else if k > j {
                    assert(previous@[j as int].player_id@ != previous@[k].player_id@);
                }
            }
            return Some(previous[j].bot_id.clone());
        }
        j = j + 1;
    }
    None
}

/// Plans an explicit split of a game's players into `humans` and `bots`.
/// It is refused as `check_assignment` refuses it. Each human gets its seat.
/// When the bots apply at once, each bot id is to be bound (with the bot it
/// had); otherwise the previous bindings of bot ids are kept. Every previous
/// binding of an id that is no longer a bot is to be deleted.
pub fn plan_assignment(
    players: &Vec<PlayerState>,
    humans: &Vec<String>,
    bots: &Vec<String>,
    previous: &Vec<BotBinding>,
    apply_immediately: bool,
) -> (r: Result<AssignmentPlan, AssignmentError>)
    requires
        bindings_unique(previous@),
    ensures
        match r {
            Err(e) => check_assignment_error(players@, humans@, bots@, e),
            Ok(plan) => {
                &&& forall|i: int| 0 <= i < humans@.len() ==> !in_ids(bots@, (#[trigger] humans@[i])@)
                &&& forall|i: int| 0 <= i < humans@.len() ==> in_game(players@, (#[trigger] humans@[i])@)
                &&& forall|i: int| 0 <= i < bots@.len() ==> in_game(players@, (#[trigger] bots@[i])@)
                &&& plan.humans@.len() == humans@.len()
                &&& forall|k: int| 0 <= k < humans@.len() ==> (#[trigger] plan.humans@[k]).0 == humans@[k]
                    && plan.humans@[k].1 == seat_of(players@, humans@[k]@)
                &&& if apply_immediately {
                    &&& plan.kept@.len() == 0
                    &&& plan.to_bind@.len() == bots@.len()
                    &&& forall|k: int| 0 <= k < bots@.len() ==> {
                        &&& (#[trigger] plan.to_bind@[k]).player_id == bots@[k]
                        &&& plan.to_bind@[k].player_name == seat_of(players@, bots@[k]@)
                        &&& plan.to_bind@[k].existing_bot_id == bound_bot(previous@, bots@[k]@)
                    }
                } else {
                    &&& plan.to_bind@.len() == 0
                    &&& forall|k: int| 0 <= k < plan.kept@.len() ==> previous@.contains(#[trigger] plan.kept@[k])
                        && in_ids(bots@, plan.kept@[k].player_id@)
                    &&& forall|j: int| 0 <= j < previous@.len() && in_ids(bots@, (#[trigger] previous@[j]).player_id@)
                        ==> plan.kept@.contains(previous@[j])
                    &&& plan.kept@.len() + plan.to_delete@.len() == previous@.len()
                }
                &&& forall|k: int| 0 <= k < plan.to_delete@.len() ==> previous@.contains(#[trigger] plan.to_delete@[k])
                    && !in_ids(bots@, plan.to_delete@[k].player_id@)
                &&& forall|j: int| 0 <= j < previous@.len() && !in_ids(bots@, (#[trigger] previous@[j]).player_id@)
                    ==> plan.to_delete@.contains(previous@[j])
            },
        },
{
    match check_assignment(players, humans, bots) {
        Err(e) => {
            return Err(e);
        },
        Ok(()) => {},
    }
    let mut plan_humans: Vec<(String, PlayerName)> = Vec::new();
    let mut h: usize = 0;
    while h < humans.len()
        invariant
            h <= humans@.len(),
            forall|i: int| 0 <= i < humans@.len() ==> in_game(players@, (#[trigger] humans@[i])@),
            plan_humans@.len() == h,
            forall|k: int| 0 <= k < h ==> (#[trigger] plan_humans@[k]).0 == humans@[k]
                && plan_humans@[k].1 == seat_of(players@, humans@[k]@),
        decreases humans@.len() - h,
    {
        assert(in_game(players@, humans@[h as int]@));
        let seat = seat_in_game(players, &humans[h]);
        plan_humans.push((humans[h].clone(), seat));
        h = h + 1;
    }
    let mut to_bind: Vec<BindTarget> = Vec::new();
    if apply_immediately {
        let mut b: usize = 0;
        while b < bots.len()
            invariant
                b <= bots@.len(),
                bindings_unique(previous@),
                forall|i: int| 0 <= i < bots@.len() ==> in_game(players@, (#[trigger] bots@[i])@),
                to_bind@.len() == b,
                forall|k: int| 0 <= k < b ==> {
                    &&& (#[trigger] to_bind@[k]).player_id == bots@[k]
                    &&& to_bind@[k].player_name == seat_of(players@, bots@[k]@)
                    &&& to_bind@[k].existing_bot_id == bound_bot(previous@, bots@[k]@)
                },
            decreases bots@.len() - b,
        {
            assert(in_game(players@, bots@[b as int]@));
            let seat = seat_in_game(players, &bots[b]);
            let existing = find_bound_bot(previous, &bots[b]);
            to_bind.push(BindTarget { player_id: bots[b].clone(), player_name: seat, existing_bot_id: existing });
            b = b + 1;
        }
    }
    let mut kept: Vec<BotBinding> = Vec::new();
    let mut to_delete: Vec<BotBinding> = Vec::new();
    let mut j: usize = 0;
    while j < previous.len()
        invariant
            j <= previous@.len(),
            apply_immediately ==> kept@.len() == 0,
            !apply_immediately ==> kept@.len() + to_delete@.len() == j,
            forall|k: int| 0 <= k < kept@.len() ==> previous@.contains(#[trigger] kept@[k])
                && in_ids(bots@, kept@[k].player_id@),
            forall|m: int| 0 <= m < j && in_ids(bots@, (#[trigger] previous@[m]).player_id@) && !apply_immediately
                ==> kept@.contains(previous@[m]),
            forall|k: int| 0 <= k < to_delete@.len() ==> previous@.contains(#[trigger] to_delete@[k])
                && !in_ids(bots@, to_delete@[k].player_id@),
            forall|m: int| 0 <= m < j && !in_ids(bots@, (#[trigger] previous@[m]).player_id@)
                ==> to_delete@.contains(previous@[m]),
        decreases previous@.len() - j,
    {
        let binding = previous[j].copy();
        let ghost before_kept = kept@;
        let ghost before_delete = to_delete@;
        assert(previous@.contains(previous@[j as int]));
        if contains_id(bots, &binding.player_id) {
            if !apply_immediately {
                kept.push(binding);
            }
        } else {
            to_delete.push(binding);
        }
        proof {
            assert forall|m: int| 0 <= m < j + 1 && in_ids(bots@, (#[trigger] previous@[m]).player_id@) && !apply_immediately
                implies kept@.contains(previous@[m]) by {
                if m < j {
                    let w = choose|w: int| 0 <= w < before_kept.len() && before_kept[w] == previous@[m];
                    assert(kept@[w] == before_kept[w]);
                } else {
                    assert(kept@[kept@.len() - 1] == previous@[m]);
                }
            }
            assert forall|m: int| 0 <= m < j + 1 && !in_ids(bots@, (#[trigger] previous@[m]).player_id@)
                implies to_delete@.contains(previous@[m]) by {
                if m < j {
                    let w = choose|w: int| 0 <= w < before_delete.len() && before_delete[w] == previous@[m];
                    assert(to_delete@[w] == before_delete[w]);
                } else {
                    assert(to_delete@[to_delete@.len() - 1] == previous@[m]);
                }
            }
        }
        j = j + 1;
    }
    Ok(AssignmentPlan { humans: plan_humans, to_bind, kept, to_delete })
}

/// The error `check_assignment` gives for these lists.
pub open spec fn check_assignment_error(
    players: Seq<PlayerState>,
    humans: Seq<String>,
    bots: Seq<String>,
    e: AssignmentError,
) -> bool {
    match e {
        AssignmentError::Overlap => exists|i: int| 0 <= i < humans.len() && in_ids(bots, (#[trigger] humans[i])@),
        AssignmentError::UnknownPlayer => {
            &&& forall|i: int| 0 <= i < humans.len() ==> !in_ids(bots, (#[trigger] humans[i])@)
            &&& (exists|i: int| 0 <= i < humans.len() && !in_game(players, (#[trigger] humans[i])@))
                || (exists|i: int| 0 <= i < bots.len() && !in_game(players, (#[trigger] bots[i])@))
        },
    }
}

/// Why a bind request is refused.
#[derive(Debug, Clone, Copy, PartialEq, Eq, Structural)]
pub enum BindError {
    PlayerNotInGame,
    BotIdRequired,
}

/// Plans binding a bot to one player: the player's seat and the bot id to
/// use, the requested one, else the one bound now. A bot id is required
/// when neither exists and creating one was declined.
pub fn plan_bind(
    players: &Vec<PlayerState>,
    player_id: &String,
    bot_id: Option<String>,
    existing_bot_id: Option<String>,
    create_if_missing: Option<bool>,
) -> (r: Result<(PlayerName, Option<String>), BindError>)
    ensures
        (r == Err::<(PlayerName, Option<String>), BindError>(BindError::PlayerNotInGame)) <==> !has_id(players@, player_id@),
        (r == Err::<(PlayerName, Option<String>), BindError>(BindError::BotIdRequired)) <==> (has_id(players@, player_id@)
            && bot_id is None && existing_bot_id is None && create_if_missing == Some(false)),
        match r {
            Ok((seat, desired)) => seat == seat_of(players@, player_id@) && desired == if bot_id is Some {
                bot_id
            } else {
                existing_bot_id
            },
            Err(_) => true,
        },
{
    let seat = match position_of_id(players, player_id) {
        Some(i) => {
            proof {
                lemma_index_of_id_unique(players@, player_id@, i as int);
            }
            players[i].player_name
        },
        None => {
            return Err(BindError::PlayerNotInGame);
        },
    };
    let desired = match bot_id {
        Some(b) => Some(b),
        None => existing_bot_id,
    };
    let create = match create_if_missing {
        Some(c) => c,
        None => true,
    };
    if desired.is_none() && !create {
        return Err(BindError::BotIdRequired);
    }
    Ok((seat, desired))
}

/// The binding of player `id` in `s`, found by position.
pub open spec fn binds(s: Seq<BotBinding>, id: Seq<char>, b: BotBinding) -> bool {
    exists|j: int| 0 <= j < s.len() && s[j] == b && (#[trigger] s[j]).player_id@ == id
}

/// Puts `b` in place of the binding of its player, who stops being a human.
/// The previous binding is returned when it named another bot or host (it
/// is then to be stopped and deleted).
pub fn rebind(a: &mut Assignment, b: BotBinding) -> (replaced: Option<BotBinding>)
    requires
        assignment_wf(*old(a)),
    ensures
        assignment_wf(*final(a)),
        final(a).game_id == old(a).game_id,
        final(a).bindings@.contains(b),
        forall|k: int| 0 <= k < final(a).bindings@.len() && (#[trigger] final(a).bindings@[k]).player_id@ != b.player_id@
            ==> old(a).bindings@.contains(final(a).bindings@[k]),
        forall|j: int| 0 <= j < old(a).bindings@.len() && (#[trigger] old(a).bindings@[j]).player_id@ != b.player_id@
            ==> final(a).bindings@.contains(old(a).bindings@[j]),
        forall|k: int| 0 <= k < final(a).humans@.len() ==> (#[trigger] final(a).humans@[k]).0@ != b.player_id@
            && old(a).humans@.contains(final(a).humans@[k]),
        forall|j: int| 0 <= j < old(a).humans@.len() && (#[trigger] old(a).humans@[j]).0@ != b.player_id@
            ==> final(a).humans@.contains(old(a).humans@[j]),
        match replaced {
            Some(p) => binds(old(a).bindings@, b.player_id@, p) && (p.bot_id@ != b.bot_id@
                || p.bot_service_base_url@ != b.bot_service_base_url@),
            None => forall|j: int| 0 <= j < old(a).bindings@.len() && (#[trigger] old(a).bindings@[j]).player_id@ == b.player_id@
                ==> old(a).bindings@[j].bot_id@ == b.bot_id@ && old(a).bindings@[j].bot_service_base_url@
                    == b.bot_service_base_url@,
        },
{
    let ghost old_b = a.bindings@;
    let ghost old_h = a.humans@;
    let mut bindings: Vec<BotBinding> = Vec::new();
    let mut replaced: Option<BotBinding> = None;
    let mut j: usize = 0;
    while j < a.bindings.len()
        invariant
            old_b == a.bindings@,
            bindings_unique(old_b),
            j <= old_b.len(),
            forall|k: int| 0 <= k < bindings@.len() ==> (#[trigger] bindings@[k]).player_id@ != b.player_id@
                && old_b.contains(bindings@[k]),
            forall|m: int| 0 <= m < j && (#[trigger] old_b[m]).player_id@ != b.player_id@ ==> bindings@.contains(old_b[m]),
            forall|x: int, y: int| 0 <= x < y < bindings@.len() ==> bindings@[x].player_id@ != bindings@[y].player_id@,
            forall|k: int| 0 <= k < bindings@.len() ==> exists|m: int| 0 <= m < j && (#[trigger] bindings@[k]) == old_b[m],
            match replaced {
                Some(p) => binds(old_b, b.player_id@, p) && (p.bot_id@ != b.bot_id@
                    || p.bot_service_base_url@ != b.bot_service_base_url@),
                None => forall|m: int| 0 <= m < j && (#[trigger] old_b[m]).player_id@ == b.player_id@
                    ==> old_b[m].bot_id@ == b.bot_id@ && old_b[m].bot_service_base_url@ == b.bot_service_base_url@,
            },
        decreases old_b.len() - j,
    {
        let current = a.bindings[j].copy();
        let ghost before = bindings@;
        if current.player_id == b.player_id {
            if current.bot_id != b.bot_id || current.bot_service_base_url != b.bot_service_base_url {
                replaced = Some(current);
            }
        } else {
            bindings.push(current);
            proof {
                assert forall|x: int, y: int| 0 <= x < y < bindings@.len() implies bindings@[x].player_id@ != bindings@[y].player_id@ by {
                    if y == bindings@.len() - 1 {
                        let m = choose|m: int| 0 <= m < j && (#[trigger] before[x]) == old_b[m];
                        assert(bindings@[x] == old_b[m]);
                    }
                }
                assert forall|k: int| 0 <= k < bindings@.len() implies exists|m: int| 0 <= m < j + 1 && (#[trigger] bindings@[k]) == old_b[m] by {
                    if k < before.len() {
                        let m = choose|m: int| 0 <= m < j && (#[trigger] before[k]) == old_b[m];
                        assert(bindings@[k] == old_b[m]);
                    } else {
                        assert(bindings@[k] == old_b[j as int]);
                    }
                }
                assert forall|k: int| 0 <= k < bindings@.len() implies (#[trigger] bindings@[k]).player_id@ != b.player_id@
                    && old_b.contains(bindings@[k]) by {
                    if k < before.len() {
                        assert(bindings@[k] == before[k]);
                    } else {
                        assert(old_b[j as int] == bindings@[k]);
                    }
                }
                assert forall|m: int| 0 <= m < j + 1 && (#[trigger] old_b[m]).player_id@ != b.player_id@ implies bindings@.contains(old_b[m]) by {
                    if m < j {
                        let w = choose|w: int| 0 <= w < before.len() && before[w] == old_b[m];
                        assert(bindings@[w] == before[w]);
                    } else {
                        assert(bindings@[bindings@.len() - 1] == old_b[m]);
                    }
                }
            }
        }
        j = j + 1;
    }
    let ghost before = bindings@;
    bindings.push(b.copy());
    proof {
        assert(bindings@[bindings@.len() - 1] == b);
        assert forall|x: int, y: int| 0 <= x < y < bindings@.len() implies bindings@[x].player_id@ != bindings@[y].player_id@ by {
            if y == bindings@.len() - 1 {
                assert(before[x].player_id@ != b.player_id@);
            }
        }
        assert forall|k: int| 0 <= k < bindings@.len() && (#[trigger] bindings@[k]).player_id@ != b.player_id@
            implies old_b.contains(bindings@[k]) by {
            assert(k < before.len());
            assert(bindings@[k] == before[k]);
        }
        assert forall|m: int| 0 <= m < old_b.len() && (#[trigger] old_b[m]).player_id@ != b.player_id@
            implies bindings@.contains(old_b[m]) by {
            let w = choose|w: int| 0 <= w < before.len() && before[w] == old_b[m];
            assert(bindings@[w] == before[w]);
        }
    }
    let mut humans: Vec<(String, PlayerName)> = Vec::new();
    let mut h: usize = 0;
    while h < a.humans.len()
        invariant
            old_h == a.humans@,
            humans_unique(old_h),
            h <= old_h.len(),
            forall|k: int| 0 <= k < humans@.len() ==> (#[trigger] humans@[k]).0@ != b.player_id@
                && old_h.contains(humans@[k]),
            forall|m: int| 0 <= m < h && (#[trigger] old_h[m]).0@ != b.player_id@ ==> humans@.contains(old_h[m]),
            forall|x: int, y: int| 0 <= x < y < humans@.len() ==> humans@[x].0@ != humans@[y].0@,
            forall|k: int| 0 <= k < humans@.len() ==> exists|m: int| 0 <= m < h && (#[trigger] humans@[k]) == old_h[m],
        decreases old_h.len() - h,
    {
        let entry = (a.humans[h].0.clone(), a.humans[h].1);
        assert(entry == old_h[h as int]);
        let ghost before_h = humans@;
        if entry.0 != b.player_id {
            humans.push(entry);
            proof {
                assert forall|x: int, y: int| 0 <= x < y < humans@.len() implies humans@[x].0@ != humans@[y].0@ by {
                    if y == humans@.len() - 1 {
                        let m = choose|m: int| 0 <= m < h && (#[trigger] before_h[x]) == old_h[m];
                        assert(humans@[x] == old_h[m]);
                    }
                }
                assert forall|k: int| 0 <= k < humans@.len() implies exists|m: int| 0 <= m < h + 1 && (#[trigger] humans@[k]) == old_h[m] by {
                    if k < before_h.len() {
                        let m = choose|m: int| 0 <= m < h && (#[trigger] before_h[k]) == old_h[m];
                        assert(humans@[k] == old_h[m]);
                    } else {
                        assert(humans@[k] == old_h[h as int]);
                    }
                }
                assert forall|k: int| 0 <= k < humans@.len() implies (#[trigger] humans@[k]).0@ != b.player_id@
                    && old_h.contains(humans@[k]) by {
                    if k < before_h.len() {
                        assert(humans@[k] == before_h[k]);
                    } else {
                        assert(old_h[h as int] == humans@[k]);
                    }
                }
                assert forall|m: int| 0 <= m < h + 1 && (#[trigger] old_h[m]).0@ != b.player_id@ implies humans@.contains(old_h[m]) by {
                    if m < h {
                        let w = choose|w: int| 0 <= w < before_h.len() && before_h[w] == old_h[m];
                        assert(humans@[w] == before_h[w]);
                    } else {
                        assert(humans@[humans@.len() - 1] == old_h[m]);
                    }
                }
            }
        }
        h = h + 1;
    }
    a.bindings = bindings;
    a.humans = humans;
    replaced
}

/// How a binding is brought about.
#[derive(Debug, Clone, Copy, PartialEq, Eq, Structural)]
pub enum BindingStep {
    /// Keep the bot bound now.
    Reuse,
    /// Create a bot (deleting the bound one first when there is one).
    Recreate { delete_previous: bool },
}

pub fn binding_step(existing: bool, force_recreate: bool) -> (r: BindingStep)
    ensures
        r == if existing && !force_recreate {
            BindingStep::Reuse
        } else {
            BindingStep::Recreate { delete_previous: existing }
        },
{
    if existing && !force_recreate {
        BindingStep::Reuse
    } else {
        BindingStep::Recreate { delete_previous: existing }
    }
}

/// The id of a newly created bot: the host's when it reports one, else the
/// id asked for.
pub fn created_bot_id(created: Option<String>, desired: Option<String>) -> (r: Option<String>)
    ensures
        r == if created is Some {
            created
        } else {
            desired
        },
{
    match created {
        Some(c) => Some(c),
        None => desired,
    }
}

} // verus!
