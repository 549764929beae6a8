//! Per-game bus topic names: `<prefix>.<game_id>.v1`.

use vstd::prelude::*;

verus! {

pub open spec fn topic_name(prefix: Seq<char>, game_id: Seq<char>) -> Seq<char> {
    prefix + "."@ + game_id + ".v1"@
}

/// The per-game topic under `prefix`.
pub fn topic_for_game(prefix: &str, game_id: &str) -> (r: String)
    ensures
        r@ == topic_name(prefix@, game_id@),
{
    let mut out = String::from_str(prefix);
    out.append(".");
    out.append(game_id);
    out.append(".v1");
    out
}

/// The input and output topics of one game.
#[derive(Debug, Clone)]
pub struct GameTopics {
    pub input_topic: String,
    pub output_topic: String,
}

/// The topic names for a game under the input and output prefixes.
pub fn game_topics(input_prefix: &str, output_prefix: &str, game_id: &str) -> (r: GameTopics)
    ensures
        r.input_topic@ == topic_name(input_prefix@, game_id@),
        r.output_topic@ == topic_name(output_prefix@, game_id@),
{
    GameTopics {
        input_topic: topic_for_game(input_prefix, game_id),
        output_topic: topic_for_game(output_prefix, game_id),
    }
}

/// `s` with every `.` preceded by a backslash.
pub open spec fn escape_dots(s: Seq<char>) -> Seq<char>
    decreases s.len(),
{
    if s.len() == 0 {
        Seq::empty()
    } else {
        escape_dots(s.drop_last()) + if s.last() == '.' {
            seq!['\\', '.']
        } else {
            seq![s.last()]
        }
    }
}

/// The pattern that matches every per-game topic under `prefix`:
/// `^<prefix>\..*\.v1$` with the dots of the prefix escaped.
pub open spec fn topic_pattern_of(prefix: Seq<char>) -> Seq<char> {
    "^"@ + escape_dots(prefix) + "\\..*\\.v1$"@
}

pub fn topic_pattern(prefix: &str) -> (r: String)
    ensures
        r@ == topic_pattern_of(prefix@),
{
    let mut out = String::from_str("^");
    let n = prefix.unicode_len();
    let mut i: usize = 0;
    proof {
        reveal_strlit("^");
        assert(prefix@.subrange(0, 0) =~= Seq::<char>::empty());
    }
    while i < n
        invariant
            n == prefix@.len(),
            i <= n,
            out@ == "^"@ + escape_dots(prefix@.subrange(0, i as int)),
        decreases n - i,
    {
        let c = prefix.get_char(i);
        let ghost before = out@;
        proof {
            reveal_strlit("\\.");
            assert(prefix@.subrange(0, i + 1).drop_last() =~= prefix@.subrange(0, i as int));
        }
        if c == '.' {
            out.append("\\.");
        } else {
            let one = prefix.substring_char(i, i + 1);
            assert(one@ =~= seq![c]);
            out.append(one);
        }
        assert(out@ =~= "^"@ + escape_dots(prefix@.subrange(0, i + 1)));
        i = i + 1;
    }
    assert(prefix@.subrange(0, n as int) =~= prefix@);
    out.append("\\..*\\.v1$");
    out
}

} // verus!
