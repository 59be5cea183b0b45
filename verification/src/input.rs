//! Normalization and parsing of one raw input line.
//!
//! A line is interpreted in two steps: leading and trailing whitespace
//! (including line terminators) is trimmed away, and the remainder is read
//! as a base-10 non-negative integer with an optional leading `'+'`, as the
//! standard `u32` parser accepts. Empty text, other characters, and values
//! past `u32::MAX` are rejected; rejection is recoverable for the session.

use vstd::prelude::*;
use vstd::string::StrSliceExecFns;

verus! {

/// Whitespace stripped by normalization: the characters with the Unicode
/// `White_Space` property, the set `char::is_whitespace` accepts.
pub open spec fn spec_is_space(c: char) -> bool {
    c == '\t' || c == '\n' || c == '\u{b}' || c == '\u{c}' || c == '\r' || c == ' '
        || c == '\u{85}' || c == '\u{a0}' || c == '\u{1680}' || c == '\u{2000}'
        || c == '\u{2001}' || c == '\u{2002}' || c == '\u{2003}' || c == '\u{2004}'
        || c == '\u{2005}' || c == '\u{2006}' || c == '\u{2007}' || c == '\u{2008}'
        || c == '\u{2009}' || c == '\u{200a}' || c == '\u{2028}' || c == '\u{2029}'
        || c == '\u{202f}' || c == '\u{205f}' || c == '\u{3000}'
}

/// `s` with its leading whitespace removed.
pub open spec fn spec_trim_start(s: Seq<char>) -> Seq<char>
    decreases s.len(),
{
    if s.len() > 0 && spec_is_space(s[0]) {
        spec_trim_start(s.drop_first())
    } else {
        s
    }
}

/// `s` with its trailing whitespace removed.
pub open spec fn spec_trim_end(s: Seq<char>) -> Seq<char>
    decreases s.len(),
{
    if s.len() > 0 && spec_is_space(s.last()) {
        spec_trim_end(s.drop_last())
    } else {
        s
    }
}

/// The normalized form of a raw line: whitespace trimmed from both ends.
pub open spec fn spec_trim(s: Seq<char>) -> Seq<char> {
    spec_trim_end(spec_trim_start(s))
}

/// Whether `c` is a decimal digit.
pub open spec fn spec_is_digit(c: char) -> bool {
    '0' as int <= c as int && c as int <= '9' as int
}

/// The numeric value of the decimal digit `c`.
pub open spec fn spec_digit_val(c: char) -> int {
    c as int - '0' as int
}

/// Whether every character of `s` is a decimal digit.
pub open spec fn spec_all_digits(s: Seq<char>) -> bool {
    forall|i: int| 0 <= i < s.len() ==> spec_is_digit(s[i])
}

/// The value of the digit string `s`, most significant digit first.
pub open spec fn spec_digits_value(s: Seq<char>) -> int
    decreases s.len(),
{
    if s.len() == 0 {
        0
    } else {
        spec_digits_value(s.drop_last()) * 10 + spec_digit_val(s.last())
    }
}

/// The digit part of already-trimmed text `t`: `t` without its optional
/// leading `'+'`.
pub open spec fn spec_body(t: Seq<char>) -> Seq<char> {
    if t.len() > 0 && t[0] == '+' {
        t.drop_first()
    } else {
        t
    }
}

/// The reading of already-trimmed text `t` as a `u32`: an optional leading
/// `'+'`, then at least one digit, with a value that fits in `u32`.
pub open spec fn spec_parse_u32(t: Seq<char>) -> Option<u32> {
    let body = spec_body(t);
    if body.len() > 0 && spec_all_digits(body) && spec_digits_value(body) <= u32::MAX {
        Some(spec_digits_value(body) as u32)
    } else {
        None
    }
}

/// The guess produced by one raw line: trim, then parse.
pub open spec fn spec_parse_guess(s: Seq<char>) -> Option<u32> {
    spec_parse_u32(spec_trim(s))
}

fn is_space_char(c: char) -> (r: bool)
    ensures
        r == spec_is_space(c),
{
    c == '\t' || c == '\n' || c == '\u{b}' || c == '\u{c}' || c == '\r' || c == ' '
        || c == '\u{85}' || c == '\u{a0}' || c == '\u{1680}' || c == '\u{2000}'
        || c == '\u{2001}' || c == '\u{2002}' || c == '\u{2003}' || c == '\u{2004}'
        || c == '\u{2005}' || c == '\u{2006}' || c == '\u{2007}' || c == '\u{2008}'
        || c == '\u{2009}' || c == '\u{200a}' || c == '\u{2028}' || c == '\u{2029}'
        || c == '\u{202f}' || c == '\u{205f}' || c == '\u{3000}'
}

proof fn lemma_trim_start_no_leading(s: Seq<char>)
    ensures
        spec_trim_start(s).len() > 0 ==> !spec_is_space(spec_trim_start(s)[0]),
    decreases s.len(),
{
    if s.len() > 0 && spec_is_space(s[0]) {
        lemma_trim_start_no_leading(s.drop_first());
    }
}

proof fn lemma_trim_end_no_trailing(s: Seq<char>)
    ensures
        spec_trim_end(s).len() > 0 ==> !spec_is_space(spec_trim_end(s).last()),
    decreases s.len(),
{
    if s.len() > 0 && spec_is_space(s.last()) {
        lemma_trim_end_no_trailing(s.drop_last());
    }
}

proof fn lemma_trim_end_keeps_first(s: Seq<char>)
    ensures
        spec_trim_end(s).len() > 0 ==> s.len() > 0 && spec_trim_end(s)[0] == s[0],
    decreases s.len(),
{
    if s.len() > 0 && spec_is_space(s.last()) {
        lemma_trim_end_keeps_first(s.drop_last());
    }
}

/// Normalization is idempotent: trimming an already-trimmed line changes
/// nothing, so every line has a single normalized form, and a line yields
/// the same guess as its normalized form.
pub proof fn lemma_trim_idempotent(s: Seq<char>)
    ensures
        spec_trim(spec_trim(s)) == spec_trim(s),
        spec_parse_guess(spec_trim(s)) == spec_parse_guess(s),
{
    let t = spec_trim(s);
    lemma_trim_end_keeps_first(spec_trim_start(s));
    lemma_trim_start_no_leading(s);
    lemma_trim_end_no_trailing(spec_trim_start(s));
    if t.len() > 0 {
        assert(spec_trim_start(t) == t);
        assert(spec_trim_end(t) == t);
    } else {
        assert(spec_trim_start(t) == t);
        assert(spec_trim_end(t) == t);
    }
}

proof fn lemma_digits_value_nonneg(s: Seq<char>)
    requires
        spec_all_digits(s),
    ensures
        spec_digits_value(s) >= 0,
    decreases s.len(),
{
    if s.len() > 0 {
        assert(spec_all_digits(s.drop_last()));
        lemma_digits_value_nonneg(s.drop_last());
    }
}

proof fn lemma_digits_value_prefix_le(s: Seq<char>, m: int)
    requires
        spec_all_digits(s),
        0 <= m <= s.len(),
    ensures
        spec_digits_value(s.subrange(0, m)) <= spec_digits_value(s),
    decreases s.len() - m,
{
    if m < s.len() {
        lemma_digits_value_prefix_le(s, m + 1);
        let u = s.subrange(0, m + 1);
        assert(u.drop_last() =~= s.subrange(0, m));
        assert(spec_all_digits(s.subrange(0, m)));
        lemma_digits_value_nonneg(s.subrange(0, m));
        assert(spec_digits_value(u) == spec_digits_value(s.subrange(0, m)) * 10 + spec_digit_val(u.last()));
    } else {
        assert(s.subrange(0, m) =~= s);
    }
}

/// Turns one raw input line into a guess, exactly as `spec_parse_guess`
/// reads it: whitespace is trimmed from both ends, and the rest must be an
/// optional `'+'` followed by one or more decimal digits whose value fits
/// in a `u32`. Anything else yields `None`.
pub fn parse_guess(line: &str) -> (r: Option<u32>)
    ensures
        r == spec_parse_guess(line@),
{
    let n: usize = line.unicode_len();
    proof {
        assert(line@.subrange(0, n as int) =~= line@);
    }
    let mut i: usize = 0;
    while i < n && is_space_char(line.get_char(i))
        invariant
            0 <= i <= n,
            n == line@.len(),
            spec_trim_start(line@) == spec_trim_start(line@.subrange(i as int, n as int)),
        decreases n - i,
    {
        proof {
            let u = line@.subrange(i as int, n as int);
            assert(u[0] == line@[i as int]);
            assert(u.drop_first() =~= line@.subrange(i as int + 1, n as int));
        }
        i = i + 1;
    }
    proof {
        let u = line@.subrange(i as int, n as int);
        assert(u.len() > 0 ==> u[0] == line@[i as int]);
        assert(spec_trim_start(line@) == u);
    }
    let mut j: usize = n;
    while j > i && is_space_char(line.get_char(j - 1))
        invariant
            i <= j <= n,
            n == line@.len(),
            spec_trim_start(line@) == line@.subrange(i as int, n as int),
            spec_trim(line@) == spec_trim_end(line@.subrange(i as int, j as int)),
        decreases j,
    {
        proof {
            let u = line@.subrange(i as int, j as int);
            assert(u.last() == line@[j as int - 1]);
            assert(u.drop_last() =~= line@.subrange(i as int, j as int - 1));
        }
        j = j - 1;
    }
    proof {
        let u = line@.subrange(i as int, j as int);
        assert(u.len() > 0 ==> u.last() == line@[j as int - 1]);
        assert(spec_trim(line@) == u);
    }
    let mut p: usize = i;
    if i < j && line.get_char(i) == '+' {
        p = i + 1;
        proof {
            let t = line@.subrange(i as int, j as int);
            assert(t[0] == line@[i as int]);
            assert(t.drop_first() =~= line@.subrange(i as int + 1, j as int));
            assert(spec_body(t) == line@.subrange(p as int, j as int));
        }
    } else {
        proof {
            let t = line@.subrange(i as int, j as int);
            assert(t.len() > 0 ==> t[0] == line@[i as int]);
            assert(spec_body(t) == t);
        }
    }
    if p == j {
        proof {
            assert(line@.subrange(p as int, j as int).len() == 0);
        }
        return None;
    }
    let mut acc: u32 = 0;
    let mut k: usize = p;
    while k < j
        invariant
            p <= k <= j <= n,
            n == line@.len(),
            p < j,
            spec_trim(line@) == line@.subrange(i as int, j as int),
            spec_body(spec_trim(line@)) == line@.subrange(p as int, j as int),
            i <= p,
            spec_all_digits(line@.subrange(p as int, k as int)),
            acc as int == spec_digits_value(line@.subrange(p as int, k as int)),
        decreases j - k,
    {
        let ghost body = line@.subrange(p as int, j as int);
        let c = line.get_char(k);
        let v: u32 = c as u32;
        proof {
            assert(c as int == v as int);
        }
        if v < 48 || v > 57 {
            proof {
                assert(body[k - p] == line@[k as int]);
                assert(!spec_is_digit(body[k - p]));
            }
            return None;
        }
        let d: u32 = v - 48;
        let wide: u64 = (acc as u64) * 10 + (d as u64);
        proof {
            let w = line@.subrange(p as int, k as int + 1);
            assert(w.drop_last() =~= line@.subrange(p as int, k as int));
            assert(w.last() == line@[k as int]);
            assert(spec_digit_val(w.last()) == d as int);
            assert(spec_digits_value(w) == acc as int * 10 + d as int);
        }
        if wide > 0xffff_ffff {
            proof {
                if spec_all_digits(body) {
                    assert(body.subrange(0, k as int + 1 - p) =~= line@.subrange(
                        p as int,
                        k as int + 1,
                    ));
                    lemma_digits_value_prefix_le(body, k as int + 1 - p);
                    assert(spec_digits_value(body) > u32::MAX);
                }
            }
            return None;
        }
        acc = wide as u32;
        k = k + 1;
    }
    proof {
        assert(line@.subrange(p as int, k as int) =~= line@.subrange(p as int, j as int));
    }
    Some(acc)
}

} // verus!
