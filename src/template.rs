//! `${NAME}` placeholders in configuration text, replaced from a table of
//! variable values. A name starts with a letter or `_` and goes on with
//! letters, digits and `_`; an unknown name becomes empty text.

use vstd::prelude::*;

verus! {

pub open spec fn is_name_start(c: char) -> bool {
    let u = c as u32;
    (65 <= u && u <= 90) || (97 <= u && u <= 122) || u == 95
}

pub open spec fn is_name_char(c: char) -> bool {
    is_name_start(c) || (48 <= (c as u32) && (c as u32) <= 57)
}

fn name_start_char(c: char) -> (r: bool)
    ensures
        r == is_name_start(c),
{
    let u = c as u32;
    (65 <= u && u <= 90) || (97 <= u && u <= 122) || u == 95
}

fn name_char(c: char) -> (r: bool)
    ensures
        r == is_name_char(c),
{
    let u = c as u32;
    name_start_char(c) || (48 <= u && u <= 57)
}

/// The first index from `k` on that does not hold a name character.
pub open spec fn name_end(s: Seq<char>, k: int) -> int
    decreases s.len() - k,
{
    if k < 0 || k >= s.len() || !is_name_char(s[k]) {
        k
    } else {
        name_end(s, k + 1)
    }
}

/// A placeholder starts at `i`: `${`, a name, then `}`.
pub open spec fn placeholder_at(s: Seq<char>, i: int) -> bool {
    &&& 0 <= i
    &&& i + 2 < s.len()
    &&& s[i] == '$'
    &&& s[i + 1] == '{'
    &&& is_name_start(s[i + 2])
    &&& name_end(s, i + 2) < s.len()
    &&& s[name_end(s, i + 2)] == '}'
}

/// The value of the first variable called `name`; empty when there is none.
pub open spec fn lookup(vars: Seq<(Seq<char>, Seq<char>)>, name: Seq<char>) -> Seq<char>
    decreases vars.len(),
{
    if vars.len() == 0 {
        Seq::empty()
    } else if vars[0].0 == name {
        vars[0].1
    } else {
        lookup(vars.drop_first(), name)
    }
}

/// The text of `s` from `i` on with each placeholder replaced, scanning left
/// to right.
pub open spec fn expand_from(s: Seq<char>, i: int, vars: Seq<(Seq<char>, Seq<char>)>) -> Seq<char>
    decreases s.len() - i,
{
    if i < 0 || i >= s.len() {
        Seq::empty()
    } else if placeholder_at(s, i) && name_end(s, i + 2) >= i + 2 {
        let e = name_end(s, i + 2);
        lookup(vars, s.subrange(i + 2, e)) + expand_from(s, e + 1, vars)
    } else {
        seq![s[i]] + expand_from(s, i + 1, vars)
    }
}

pub open spec fn vars_view(vars: Seq<(String, String)>) -> Seq<(Seq<char>, Seq<char>)> {
    vars.map_values(|p: (String, String)| (p.0@, p.1@))
}

proof fn lemma_name_end_bounds(s: Seq<char>, k: int)
    requires
        0 <= k <= s.len(),
    ensures
        k <= name_end(s, k) <= s.len(),
        forall|j: int| k <= j < name_end(s, k) ==> is_name_char(#[trigger] s[j]),
    decreases s.len() - k,
{
    if k < s.len() && is_name_char(s[k]) {
        lemma_name_end_bounds(s, k + 1);
    }
}

fn find_name_end(s: &str, n: usize, k: usize) -> (r: usize)
    requires
        n == s@.len(),
        k <= n,
    ensures
        r as int == name_end(s@, k as int),
{
    let mut j = k;
    while j < n && name_char(s.get_char(j))
        invariant
            n == s@.len(),
            k <= j <= n,
            name_end(s@, j as int) == name_end(s@, k as int),
        decreases n - j,
    {
        j = j + 1;
    }
    j
}

fn find_var(vars: &Vec<(String, String)>, name: &str) -> (r: String)
    ensures
        r@ == lookup(vars_view(vars@), name@),
{
    let mut i: usize = 0;
    assert(vars_view(vars@).subrange(0, vars@.len() as int) =~= vars_view(vars@));
    while i < vars.len()
        invariant
            i <= vars@.len(),
            lookup(vars_view(vars@), name@) == lookup(vars_view(vars@).subrange(i as int, vars@.len() as int), name@),
        decreases vars@.len() - i,
    {
        let ghost rest = vars_view(vars@).subrange(i as int, vars@.len() as int);
        assert(rest.drop_first() =~= vars_view(vars@).subrange(i + 1, vars@.len() as int));
        let key = String::from_str(name);
        if vars[i].0 == key {
            return vars[i].1.clone();
        }
        i = i + 1;
    }
    String::new()
}

/// Replaces every `${NAME}` placeholder of `input` by the value of `NAME`
/// in `vars` (the first entry of that name), or by nothing when `vars` has
/// none.
pub fn expand_vars(input: &str, vars: &Vec<(String, String)>) -> (r: String)
    ensures
        r@ == expand_from(input@, 0, vars_view(vars@)),
{
    let n = input.unicode_len();
    let ghost s = input@;
    let ghost vv = vars_view(vars@);
    let mut out = String::new();
    let mut i: usize = 0;
    while i < n
        invariant
            n == s.len(),
            s == input@,
            vv == vars_view(vars@),
            i <= n,
            out@ + expand_from(s, i as int, vv) == expand_from(s, 0, vv),
        decreases n - i,
    {
        let ghost before = out@;
        let mut matched = false;
        if n >= 2 && i < n - 2 && input.get_char(i) == '$' && input.get_char(i + 1) == '{' && name_start_char(input.get_char(i + 2)) {
            let e = find_name_end(input, n, i + 2);
            proof {
                lemma_name_end_bounds(s, i + 2);
            }
            if e < n && input.get_char(e) == '}' {
                let name = input.substring_char(i + 2, e);
                let value = find_var(vars, name);
                out.append(value.as_str());
                assert(placeholder_at(s, i as int));
                assert(out@ + expand_from(s, e + 1, vv) =~= before + expand_from(s, i as int, vv));
                i = e + 1;
                matched = true;
            }
        }
        if !matched {
            assert(!placeholder_at(s, i as int));
            let one = input.substring_char(i, i + 1);
            out.append(one);
            assert(one@ =~= seq![s[i as int]]);
            assert(out@ + expand_from(s, i + 1, vv) =~= before + expand_from(s, i as int, vv));
            i = i + 1;
        }
    }
    assert(out@ =~= out@ + expand_from(s, n as int, vv));
    out
}

} // verus!
