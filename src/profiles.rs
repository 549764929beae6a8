//! Model-client profiles of bots: a default profile and per-seat profiles,
//! merged field by field, with blank fields dropped.

use vstd::prelude::*;
use crate::text::{has_visible_text, normalize_optional_string, trimmed};
use crate::types::PlayerName;

verus! {

#[derive(Debug, Clone)]
pub struct LlmProfile {
    pub base_url: Option<String>,
    pub model: Option<String>,
    pub api_key: Option<String>,
    pub output_mode: Option<String>,
}

/// The default profile and the profiles of given seats (the first entry of
/// a seat counts).
#[derive(Debug, Clone)]
pub struct LlmProfilesConfig {
    pub default: Option<LlmProfile>,
    pub players: Vec<(PlayerName, LlmProfile)>,
}

/// A field trimmed, or absent when blank.
pub open spec fn norm(v: Option<String>) -> Option<Seq<char>> {
    match v {
        Some(s) => if has_visible_text(s@) {
            Some(trimmed(s@))
        } else {
            None
        },
        None => None,
    }
}

pub open spec fn field_view(v: Option<String>) -> Option<Seq<char>> {
    match v {
        Some(s) => Some(s@),
        None => None,
    }
}

/// Every field of `r` is the normalized field of `p`; `r` is absent when
/// all of them are.
pub open spec fn normalized_of(p: LlmProfile, r: Option<LlmProfile>) -> bool {
    let all_blank = norm(p.base_url) is None && norm(p.model) is None && norm(p.api_key) is None
        && norm(p.output_mode) is None;
    if all_blank {
        r is None
    } else {
        &&& r is Some
        &&& field_view(r->0.base_url) == norm(p.base_url)
        &&& field_view(r->0.model) == norm(p.model)
        &&& field_view(r->0.api_key) == norm(p.api_key)
        &&& field_view(r->0.output_mode) == norm(p.output_mode)
    }
}

fn normalize_field(v: Option<String>) -> (r: Option<String>)
    ensures
        field_view(r) == norm(v),
{
    normalize_optional_string(v)
}

fn copy_field(v: &Option<String>) -> (r: Option<String>)
    ensures
        r == *v,
{
    match v {
        Some(s) => Some(s.clone()),
        None => None,
    }
}

impl LlmProfile {
    /// The profile with blank fields dropped and the rest trimmed; `None`
    /// when nothing is left.
    pub fn normalized(self) -> (r: Option<LlmProfile>)
        ensures
            normalized_of(self, r),
    {
        let base_url = normalize_field(self.base_url);
        let model = normalize_field(self.model);
        let api_key = normalize_field(self.api_key);
        let output_mode = normalize_field(self.output_mode);
        if base_url.is_none() && model.is_none() && api_key.is_none() && output_mode.is_none() {
            None
        } else {
            Some(LlmProfile { base_url, model, api_key, output_mode })
        }
    }

    fn copy(&self) -> (r: LlmProfile)
        ensures
            r == *self,
    {
        LlmProfile {
            base_url: copy_field(&self.base_url),
            model: copy_field(&self.model),
            api_key: copy_field(&self.api_key),
            output_mode: copy_field(&self.output_mode),
        }
    }
}

/// The seat's field where the seat's profile has one, else the default's.
pub open spec fn merged_field(seat: Option<Option<String>>, default: Option<Option<String>>) -> Option<String> {
    match seat {
        Some(Some(v)) => Some(v),
        _ => match default {
            Some(d) => d,
            None => None,
        },
    }
}

/// The first profile given for `name`.
pub open spec fn seat_profile(players: Seq<(PlayerName, LlmProfile)>, name: PlayerName) -> Option<LlmProfile>
    decreases players.len(),
{
    if players.len() == 0 {
        None
    } else if players[0].0 == name {
        Some(players[0].1)
    } else {
        seat_profile(players.drop_first(), name)
    }
}

pub open spec fn merged_profile(config: LlmProfilesConfig, name: PlayerName) -> LlmProfile {
    let seat = seat_profile(config.players@, name);
    let d = config.default;
    LlmProfile {
        base_url: merged_field(
            match seat { Some(p) => Some(p.base_url), None => None },
            match d { Some(p) => Some(p.base_url), None => None },
        ),
        model: merged_field(
            match seat { Some(p) => Some(p.model), None => None },
            match d { Some(p) => Some(p.model), None => None },
        ),
        api_key: merged_field(
            match seat { Some(p) => Some(p.api_key), None => None },
            match d { Some(p) => Some(p.api_key), None => None },
        ),
        output_mode: merged_field(
            match seat { Some(p) => Some(p.output_mode), None => None },
            match d { Some(p) => Some(p.output_mode), None => None },
        ),
    }
}

fn find_seat_profile(players: &Vec<(PlayerName, LlmProfile)>, name: PlayerName) -> (r: Option<LlmProfile>)
    ensures
        r == seat_profile(players@, name),
{
    let mut i: usize = 0;
    assert(players@.subrange(0, players@.len() as int) =~= players@);
    while i < players.len()
        invariant
            i <= players@.len(),
            seat_profile(players@, name) == seat_profile(players@.subrange(i as int, players@.len() as int), name),
        decreases players@.len() - i,
    {
        let ghost rest = players@.subrange(i as int, players@.len() as int);
        assert(rest.drop_first() =~= players@.subrange(i + 1, players@.len() as int));
        if players[i].0 == name {
            return Some(players[i].1.copy());
        }
        i = i + 1;
    }
    None
}

fn merge_field(seat: Option<&Option<String>>, default: Option<&Option<String>>) -> (r: Option<String>)
    ensures
        r == merged_field(
            match seat { Some(v) => Some(*v), None => None },
            match default { Some(v) => Some(*v), None => None },
        ),
{
    match seat {
        Some(Some(v)) => Some(v.clone()),
        _ => match default {
            Some(d) => copy_field(d),
            None => None,
        },
    }
}

/// The profile of a seat: each field from the seat's profile where it has
/// one, else from the default profile, then normalized.
pub fn resolve_llm_profile(config: &LlmProfilesConfig, player_name: PlayerName) -> (r: Option<LlmProfile>)
    ensures
        normalized_of(merged_profile(*config, player_name), r),
{
    let seat = find_seat_profile(&config.players, player_name);
    let merged = LlmProfile {
        base_url: merge_field(
            match &seat { Some(p) => Some(&p.base_url), None => None },
            match &config.default { Some(p) => Some(&p.base_url), None => None },
        ),
        model: merge_field(
            match &seat { Some(p) => Some(&p.model), None => None },
            match &config.default { Some(p) => Some(&p.model), None => None },
        ),
        api_key: merge_field(
            match &seat { Some(p) => Some(&p.api_key), None => None },
            match &config.default { Some(p) => Some(&p.api_key), None => None },
        ),
        output_mode: merge_field(
            match &seat { Some(p) => Some(&p.output_mode), None => None },
            match &config.default { Some(p) => Some(&p.output_mode), None => None },
        ),
    };
    merged.normalized()
}

} // verus!
