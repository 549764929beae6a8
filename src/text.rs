//! Character-level helpers on strings: white space, trimming and clipping.

use vstd::prelude::*;

verus! {

/// The Unicode `White_Space` property, as `char::is_whitespace` reads it.
pub open spec fn is_white_space(c: char) -> bool {
    let u = c as u32;
    ||| 0x9 <= u <= 0xd
    ||| u == 0x20
    ||| u == 0x85
    ||| u == 0xa0
    ||| u == 0x1680
    ||| 0x2000 <= u <= 0x200a
    ||| u == 0x2028
    ||| u == 0x2029
    ||| u == 0x202f
    ||| u == 0x205f
    ||| u == 0x3000
}

pub fn is_white_space_char(c: char) -> (r: bool)
    ensures
        r == is_white_space(c),
{
    let u = c as u32;
    (0x9 <= u && u <= 0xd) || u == 0x20 || u == 0x85 || u == 0xa0 || u == 0x1680 || (0x2000 <= u
        && u <= 0x200a) || u == 0x2028 || u == 0x2029 || u == 0x202f || u == 0x205f || u == 0x3000
}

/// Some character of `s` is not white space: `s` is non-empty once trimmed.
pub open spec fn has_visible_text(s: Seq<char>) -> bool {
    exists|i: int| 0 <= i < s.len() && !is_white_space(#[trigger] s[i])
}

pub fn is_blank(s: &str) -> (r: bool)
    ensures
        r == !has_visible_text(s@),
{
    let n = s.unicode_len();
    let mut i: usize = 0;
    while i < n
        invariant
            n == s@.len(),
            i <= n,
            forall|j: int| 0 <= j < i ==> is_white_space(#[trigger] s@[j]),
        decreases n - i,
    {
        let c = s.get_char(i);
        if !is_white_space_char(c) {
            return false;
        }
        i = i + 1;
    }
    true
}

/// The present text is non-empty once trimmed.
pub fn option_has_text(text: &Option<String>) -> (r: bool)
    ensures
        r == match text {
            Some(t) => has_visible_text(t@),
            None => false,
        },
{
    match text {
        Some(t) => !is_blank(t.as_str()),
        None => false,
    }
}

/// The decimal digits of `n`.
pub open spec fn decimal(n: nat) -> Seq<char>
    decreases n,
{
    if n < 10 {
        seq![digit_char(n)]
    } else {
        decimal(n / 10) + seq![digit_char(n % 10)]
    }
}

pub open spec fn digit_char(d: nat) -> char {
    if d == 0 {
        '0'
    } else if d == 1 {
        '1'
    } else if d == 2 {
        '2'
    } else if d == 3 {
        '3'
    } else if d == 4 {
        '4'
    } else if d == 5 {
        '5'
    } else if d == 6 {
        '6'
    } else if d == 7 {
        '7'
    } else if d == 8 {
        '8'
    } else {
        '9'
    }
}

/// A signed number in decimal, with a leading `-` when negative.
pub open spec fn signed_decimal(n: int) -> Seq<char> {
    if n < 0 {
        seq!['-'] + decimal((-n) as nat)
    } else {
        decimal(n as nat)
    }
}

fn digit_str(d: u64) -> (r: &'static str)
    requires
        d < 10,
    ensures
        r@ == seq![digit_char(d as nat)],
{
    let r = if d == 0 {
        "0"
    } else if d == 1 {
        "1"
    } else if d == 2 {
        "2"
    } else if d == 3 {
        "3"
    } else if d == 4 {
        "4"
    } else if d == 5 {
        "5"
    } else if d == 6 {
        "6"
    } else if d == 7 {
        "7"
    } else if d == 8 {
        "8"
    } else {
        "9"
    };
    proof {
        reveal_strlit("0");
        reveal_strlit("1");
        reveal_strlit("2");
        reveal_strlit("3");
        reveal_strlit("4");
        reveal_strlit("5");
        reveal_strlit("6");
        reveal_strlit("7");
        reveal_strlit("8");
        reveal_strlit("9");
    }
    r
}

/// Appends the decimal digits of `n` to `out`.
pub fn push_decimal(out: &mut String, n: u64)
    ensures
        final(out)@ == old(out)@ + decimal(n as nat),
    decreases n,
{
    if n >= 10 {
        push_decimal(out, n / 10);
        out.append(digit_str(n % 10));
    } else {
        out.append(digit_str(n));
    }
}

/// Appends `n` in decimal, with a `-` when negative.
pub fn push_signed_decimal(out: &mut String, n: i64)
    ensures
        final(out)@ == old(out)@ + signed_decimal(n as int),
{
    if n < 0 {
        out.append("-");
        proof {
            reveal_strlit("-");
        }
        let magnitude: u64 = if n == i64::MIN {
            9223372036854775808u64
        } else {
            (-n) as u64
        };
        push_decimal(out, magnitude);
        assert(final(out)@ =~= old(out)@ + signed_decimal(n as int));
    } else {
        push_decimal(out, n as u64);
    }
}


/// `s` without leading white space.
pub open spec fn trim_start(s: Seq<char>) -> Seq<char>
    decreases s.len(),
{
    if s.len() > 0 && is_white_space(s[0]) {
        trim_start(s.drop_first())
    } else {
        s
    }
}

/// `s` without trailing white space.
pub open spec fn trim_end(s: Seq<char>) -> Seq<char>
    decreases s.len(),
{
    if s.len() > 0 && is_white_space(s.last()) {
        trim_end(s.drop_last())
    } else {
        s
    }
}

/// `s` without white space at either end, as `str::trim` gives it.
pub open spec fn trimmed(s: Seq<char>) -> Seq<char> {
    trim_end(trim_start(s))
}

proof fn lemma_trim_start_at(s: Seq<char>, i: int)
    requires
        0 <= i <= s.len(),
        forall|j: int| 0 <= j < i ==> is_white_space(#[trigger] s[j]),
        i == s.len() || !is_white_space(s[i]),
    ensures
        trim_start(s) == s.subrange(i, s.len() as int),
    decreases i,
{
    if i > 0 {
        let t = s.drop_first();
        assert forall|j: int| 0 <= j < i - 1 implies is_white_space(#[trigger] t[j]) by {
            assert(t[j] == s[j + 1]);
        }
        lemma_trim_start_at(t, i - 1);
        assert(t.subrange(i - 1, t.len() as int) =~= s.subrange(i, s.len() as int));
    } else {
        assert(s.subrange(0, s.len() as int) =~= s);
    }
}

proof fn lemma_trim_end_at(s: Seq<char>, k: int)
    requires
        0 <= k <= s.len(),
        forall|j: int| k <= j < s.len() ==> is_white_space(#[trigger] s[j]),
        k == 0 || !is_white_space(s[k - 1]),
    ensures
        trim_end(s) == s.subrange(0, k),
    decreases s.len() - k,
{
    if k < s.len() {
        let t = s.drop_last();
        assert forall|j: int| k <= j < t.len() implies is_white_space(#[trigger] t[j]) by {
            assert(t[j] == s[j]);
        }
        lemma_trim_end_at(t, k);
        assert(t.subrange(0, k) =~= s.subrange(0, k));
    } else {
        assert(s.subrange(0, k) =~= s);
    }
}

/// `s` without white space at either end.
pub fn trim(s: &str) -> (r: String)
    ensures
        r@ == trimmed(s@),
{
    let n = s.unicode_len();
    let mut i: usize = 0;
    while i < n && is_white_space_char(s.get_char(i))
        invariant
            n == s@.len(),
            i <= n,
            forall|j: int| 0 <= j < i ==> is_white_space(#[trigger] s@[j]),
        decreases n - i,
    {
        i = i + 1;
    }
    proof {
        lemma_trim_start_at(s@, i as int);
    }
    let ghost rest = s@.subrange(i as int, n as int);
    let mut k: usize = n;
    while k > i && is_white_space_char(s.get_char(k - 1))
        invariant
            n == s@.len(),
            i <= k <= n,
            rest == s@.subrange(i as int, n as int),
            forall|j: int| k <= j < n ==> is_white_space(#[trigger] s@[j]),
        decreases k,
    {
        k = k - 1;
    }
    proof {
        assert forall|j: int| k - i <= j < rest.len() implies is_white_space(#[trigger] rest[j]) by {
            assert(rest[j] == s@[j + i]);
        }
        if k > i {
            assert(rest[k - i - 1] == s@[k - 1]);
        }
        lemma_trim_end_at(rest, k - i);
        assert(rest.subrange(0, k - i) =~= s@.subrange(i as int, k as int));
    }
    String::from_str(s.substring_char(i, k))
}

/// The text after `str::split_whitespace` and joining with single spaces:
/// runs of white space become one space and both ends are trimmed. Scans
/// `s` from `i` on, with `acc` built so far and `gap` set when white space
/// follows a word.
pub open spec fn squeeze_from(s: Seq<char>, i: int, acc: Seq<char>, gap: bool) -> Seq<char>
    decreases s.len() - i,
{
    if i >= s.len() || i < 0 {
        acc
    } else if is_white_space(s[i]) {
        squeeze_from(s, i + 1, acc, acc.len() > 0)
    } else if gap {
        squeeze_from(s, i + 1, acc + seq![' ', s[i]], false)
    } else {
        squeeze_from(s, i + 1, acc.push(s[i]), false)
    }
}

pub open spec fn squeezed(s: Seq<char>) -> Seq<char> {
    squeeze_from(s, 0, Seq::empty(), false)
}

/// The words of `s` joined by single spaces.
pub fn squeeze_white_space(s: &str) -> (r: String)
    ensures
        r@ == squeezed(s@),
{
    let n = s.unicode_len();
    let mut out = String::new();
    let mut gap = false;
    let mut i: usize = 0;
    while i < n
        invariant
            n == s@.len(),
            i <= n,
            squeeze_from(s@, i as int, out@, gap) == squeezed(s@),
        decreases n - i,
    {
        let c = s.get_char(i);
        let ghost before = out@;
        if is_white_space_char(c) {
            gap = out.unicode_len() > 0;
        } else {
            proof {
                reveal_strlit(" ");
            }
            let one = s.substring_char(i, i + 1);
            assert(one@ =~= seq![c]);
            if gap {
                out.append(" ");
                out.append(one);
                assert(out@ =~= before + seq![' ', c]);
            } else {
                out.append(one);
                assert(out@ =~= before.push(c));
            }
            gap = false;
        }
        i = i + 1;
    }
    out
}

/// `s` cut to `max` characters, the last three of them dots when it is cut.
pub open spec fn clipped(s: Seq<char>, max: nat) -> Seq<char> {
    if s.len() <= max {
        s
    } else if max <= 3 {
        Seq::new(max, |_i: int| '.')
    } else {
        s.subrange(0, max - 3) + "..."@
    }
}

pub fn truncate_chars_with_ellipsis(value: &str, max_chars: usize) -> (r: String)
    ensures
        r@ == clipped(value@, max_chars as nat),
{
    let n = value.unicode_len();
    if n <= max_chars {
        return String::from_str(value);
    }
    if max_chars <= 3 {
        let mut out = String::new();
        let mut i: usize = 0;
        proof {
            reveal_strlit(".");
        }
        while i < max_chars
            invariant
                i <= max_chars,
                out@ == Seq::new(i as nat, |_i: int| '.'),
            decreases max_chars - i,
        {
            proof {
                reveal_strlit(".");
            }
            out.append(".");
            i = i + 1;
            assert(out@ =~= Seq::new(i as nat, |_i: int| '.'));
        }
        return out;
    }
    let mut out = String::from_str(value.substring_char(0, max_chars - 3));
    out.append("...");
    out
}

/// The code of `c` with an ASCII capital lowered.
pub open spec fn ascii_lower(c: char) -> u32 {
    let u = c as u32;
    if 65 <= u && u <= 90 {
        (u + 32) as u32
    } else {
        u
    }
}

/// `a` and `b` are equal once ASCII letters are lowered.
pub open spec fn eq_ignore_ascii_case(a: Seq<char>, b: Seq<char>) -> bool {
    a.len() == b.len() && forall|i: int| 0 <= i < a.len() ==> ascii_lower(#[trigger] a[i]) == ascii_lower(b[i])
}

pub fn equals_ignoring_ascii_case(a: &str, b: &str) -> (r: bool)
    ensures
        r == eq_ignore_ascii_case(a@, b@),
{
    let n = a.unicode_len();
    if n != b.unicode_len() {
        return false;
    }
    let mut i: usize = 0;
    while i < n
        invariant
            n == a@.len(),
            n == b@.len(),
            i <= n,
            forall|j: int| 0 <= j < i ==> ascii_lower(#[trigger] a@[j]) == ascii_lower(b@[j]),
        decreases n - i,
    {
        let x = a.get_char(i);
        let y = b.get_char(i);
        let ux = x as u32;
        let uy = y as u32;
        let lx = if 65 <= ux && ux <= 90 { ux + 32 } else { ux };
        let ly = if 65 <= uy && uy <= 90 { uy + 32 } else { uy };
        if lx != ly {
            return false;
        }
        i = i + 1;
    }
    true
}


/// A present value, trimmed, unless nothing is left of it.
pub fn normalize_optional_string(value: Option<String>) -> (r: Option<String>)
    ensures
        match value {
            Some(v) => if has_visible_text(v@) {
                r is Some && r->0@ == trimmed(v@)
            } else {
                r is None
            },
            None => r is None,
        },
{
    match value {
        Some(v) => {
            if is_blank(v.as_str()) {
                None
            } else {
                Some(trim(v.as_str()))
            }
        },
        None => None,
    }
}

/// A log field: the value trimmed, cut after `max_chars` characters with a
/// `...[truncated]` mark; empty when absent or blank.
pub open spec fn log_field(value: Option<Seq<char>>, max_chars: nat) -> Seq<char> {
    match value {
        None => Seq::empty(),
        Some(v) => if !has_visible_text(v) {
            Seq::empty()
        } else if trimmed(v).len() <= max_chars {
            trimmed(v)
        } else {
            trimmed(v).subrange(0, max_chars as int) + "...[truncated]"@
        },
    }
}

pub fn truncate_log_field(value: Option<&str>, max_chars: usize) -> (r: String)
    ensures
        r@ == log_field(
            match value {
                Some(v) => Some(v@),
                None => None,
            },
            max_chars as nat,
        ),
{
    match value {
        None => String::new(),
        Some(v) => {
            if is_blank(v) {
                return String::new();
            }
            let t = trim(v);
            let n = t.unicode_len();
            if n <= max_chars {
                t
            } else {
                let mut out = String::from_str(t.as_str().substring_char(0, max_chars));
                out.append("...[truncated]");
                out
            }
        },
    }
}

} // verus!
