//! Rendering a signed second count as `MM:SS` (with a leading `-` for
//! negative counts and no upper bound on the minutes), and parsing a
//! free-text `[MM:]SS` string back into a second count. Parsing first drops
//! every character that is not a decimal digit or `:`, then splits on `:`;
//! segments after the second are ignored.

use vstd::arithmetic::div_mod::{
    lemma_fundamental_div_mod, lemma_fundamental_div_mod_converse,
    lemma_mod_division_less_than_divisor,
};
use vstd::prelude::*;

verus! {

/// A decimal digit character.
pub open spec fn is_digit(c: char) -> bool {
    48 <= c as int && c as int <= 57
}

/// The numeric value of a digit character.
pub open spec fn digit_val(c: char) -> int {
    c as int - 48
}

/// Characters that survive sanitizing: decimal digits and `:`.
pub open spec fn is_kept_char(c: char) -> bool {
    is_digit(c) || c == ':'
}

/// The input with every character that is neither a digit nor `:` dropped.
pub open spec fn spec_sanitize(s: Seq<char>) -> Seq<char>
    decreases s.len(),
{
    if s.len() == 0 {
        Seq::empty()
    } else {
        let rest = spec_sanitize(s.drop_last());
        if is_kept_char(s.last()) {
            rest.push(s.last())
        } else {
            rest
        }
    }
}

/// The value of a string of digit characters read in base ten.
pub open spec fn seg_val(t: Seq<char>) -> int
    decreases t.len(),
{
    if t.len() == 0 {
        0
    } else {
        10 * seg_val(t.drop_last()) + digit_val(t.last())
    }
}

pub open spec fn all_digits(t: Seq<char>) -> bool {
    forall|i: int| 0 <= i < t.len() ==> is_digit(#[trigger] t[i])
}

/// A segment parses as a `u16` exactly when it is a non-empty run of digits
/// whose value fits.
pub open spec fn seg_ok(t: Seq<char>) -> bool {
    t.len() > 0 && all_digits(t) && seg_val(t) <= u16::MAX
}

pub open spec fn spec_parse_u16(t: Seq<char>) -> Option<u16> {
    if seg_ok(t) {
        Some(seg_val(t) as u16)
    } else {
        None
    }
}

/// Index of the first `:` at or after `from`, or `t.len()` if there is none.
pub open spec fn first_colon_from(t: Seq<char>, from: int) -> int
    recommends
        0 <= from <= t.len(),
    decreases t.len() - from,
{
    if from >= t.len() {
        t.len() as int
    } else if t[from] == ':' {
        from
    } else {
        first_colon_from(t, from + 1)
    }
}

/// The minutes segment's value of a sanitized input: what precedes the first
/// `:`, or zero when the input has no `:`.
pub open spec fn spec_minutes_val(t: Seq<char>) -> int {
    let c1 = first_colon_from(t, 0);
    if c1 == t.len() {
        0
    } else {
        seg_val(t.subrange(0, c1))
    }
}

/// The seconds segment's value of a sanitized input: what stands between the
/// first `:` and the second (or the end), or the whole input when it has no
/// `:`.
pub open spec fn spec_seconds_val(t: Seq<char>) -> int {
    let c1 = first_colon_from(t, 0);
    if c1 == t.len() {
        seg_val(t)
    } else {
        seg_val(t.subrange(c1 + 1, first_colon_from(t, c1 + 1)))
    }
}

/// Parsing an already-sanitized character sequence: with no `:` the whole
/// input is seconds; otherwise the first segment is minutes and the second is
/// seconds, both of which must be non-empty digit runs that fit in a `u16`,
/// and so must the combined second count.
pub open spec fn spec_parse_sanitized(t: Seq<char>) -> Option<u16> {
    let c1 = first_colon_from(t, 0);
    if c1 == t.len() {
        spec_parse_u16(t)
    } else {
        let m = spec_parse_u16(t.subrange(0, c1));
        let s = spec_parse_u16(t.subrange(c1 + 1, first_colon_from(t, c1 + 1)));
        match (m, s) {
            (Some(mv), Some(sv)) => {
                let total = 60 * (mv as int) + (sv as int);
                if total <= u16::MAX {
                    Some(total as u16)
                } else {
                    None
                }
            },
            _ => None,
        }
    }
}

/// The whole parse: sanitize, then read `[MM:]SS`.
pub open spec fn spec_seconds_from_str(raw: Seq<char>) -> Option<u16> {
    spec_parse_sanitized(spec_sanitize(raw))
}

pub open spec fn spec_digit_char(d: int) -> char {
    if d == 0 {
        '0'
    } else if d == 1 {
        '1'
    } else if d == 2 {
        '2'
    } else if d == 3 {
        '3'
    } else if d == 4 {
        '4'
    } else if d == 5 {
        '5'
    } else if d == 6 {
        '6'
    } else if d == 7 {
        '7'
    } else if d == 8 {
        '8'
    } else {
        '9'
    }
}

/// The base-ten rendering of a non-negative number, without padding.
pub open spec fn spec_decimal(n: int) -> Seq<char>
    recommends
        n >= 0,
    decreases n,
{
    if n < 10 {
        seq![spec_digit_char(n)]
    } else {
        spec_decimal(n / 10).push(spec_digit_char(n % 10))
    }
}

/// The base-ten rendering of a non-negative number, zero-padded to at least
/// two characters.
pub open spec fn spec_pad2(n: int) -> Seq<char> {
    if n < 10 {
        seq!['0'] + spec_decimal(n)
    } else {
        spec_decimal(n)
    }
}

/// The `MM:SS` rendering of a non-negative second count.
pub open spec fn spec_mmss(t: int) -> Seq<char>
    recommends
        t >= 0,
{
    spec_pad2(t / 60) + seq![':'] + spec_pad2(t % 60)
}

/// The full rendering of a signed second count: `MM:SS`, with a leading `-`
/// exactly when the count is negative.
pub open spec fn spec_format_time(t: int) -> Seq<char> {
    if t < 0 {
        seq!['-'] + spec_mmss(-t)
    } else {
        spec_mmss(t)
    }
}

/// The zero-padding normalization of a parseable input: each segment's value
/// re-rendered with at least two digits.
pub open spec fn spec_normalize(raw: Seq<char>) -> Seq<char> {
    let t = spec_sanitize(raw);
    spec_pad2(spec_minutes_val(t)) + seq![':'] + spec_pad2(spec_seconds_val(t))
}

proof fn lemma_seg_val_nonneg(t: Seq<char>)
    requires
        all_digits(t),
    ensures
        seg_val(t) >= 0,
    decreases t.len(),
{
    if t.len() > 0 {
        assert(all_digits(t.drop_last()));
        lemma_seg_val_nonneg(t.drop_last());
    }
}

/// A digit run's value only grows as digits are appended.
proof fn lemma_seg_val_prefix_le(t: Seq<char>, i: int)
    requires
        all_digits(t),
        0 <= i <= t.len(),
    ensures
        seg_val(t.subrange(0, i)) <= seg_val(t),
    decreases t.len() - i,
{
    if i < t.len() {
        assert(t.subrange(0, i + 1).drop_last() =~= t.subrange(0, i));
        assert(t.subrange(0, i + 1).last() == t[i]);
        assert(all_digits(t.subrange(0, i)));
        lemma_seg_val_nonneg(t.subrange(0, i));
        lemma_seg_val_prefix_le(t, i + 1);
    } else {
        assert(t.subrange(0, i) =~= t);
    }
}

/// Bounds of `first_colon_from`: the result lies between `from` and the end,
/// points at a `:` unless it is the end, and nothing before it (from `from`
/// on) is a `:`.
proof fn lemma_first_colon(t: Seq<char>, from: int)
    requires
        0 <= from <= t.len(),
    ensures
        from <= first_colon_from(t, from) <= t.len(),
        first_colon_from(t, from) < t.len() ==> t[first_colon_from(t, from)] == ':',
        forall|k: int| from <= k < first_colon_from(t, from) ==> t[k] != ':',
    decreases t.len() - from,
{
    if from < t.len() && t[from] != ':' {
        lemma_first_colon(t, from + 1);
    }
}

/// Round trip: a well-formed time string, once parsed, formats back to its
/// zero-padding normalization. Well-formed means the parse succeeds and the
/// seconds segment stays below sixty (a larger seconds segment would carry
/// into the minutes when re-rendered).
pub proof fn lemma_format_parse_round_trip(raw: Seq<char>, v: u16)
    requires
        spec_seconds_from_str(raw) == Some(v),
        spec_seconds_val(spec_sanitize(raw)) <= 59,
    ensures
        spec_format_time(v as int) == spec_normalize(raw),
{
    let t = spec_sanitize(raw);
    let c1 = first_colon_from(t, 0);
    lemma_first_colon(t, 0);
    let mv = spec_minutes_val(t);
    let sv = spec_seconds_val(t);
    if c1 == t.len() {
        assert(seg_ok(t));
        lemma_seg_val_nonneg(t);
        assert(v as int == sv);
        assert(mv == 0);
        assert(0 <= sv <= 59);
        lemma_fundamental_div_mod_converse(v as int, 60, 0, sv);
    } else {
        let mseg = t.subrange(0, c1);
        let sseg = t.subrange(c1 + 1, first_colon_from(t, c1 + 1));
        assert(seg_ok(mseg) && seg_ok(sseg));
        lemma_seg_val_nonneg(mseg);
        lemma_seg_val_nonneg(sseg);
        assert(v as int == 60 * mv + sv);
        lemma_fundamental_div_mod_converse(v as int, 60, mv, sv);
    }
    assert(spec_format_time(v as int) == spec_pad2(mv) + seq![':'] + spec_pad2(sv));
}

/// The numeric value of a digit character, or `None` for any other
/// character.
fn digit_of(c: char) -> (r: Option<u32>)
    ensures
        match r {
            Some(d) => is_digit(c) && d == digit_val(c),
            None => !is_digit(c),
        },
{
    match c {
        '0' => Some(0),
        '1' => Some(1),
        '2' => Some(2),
        '3' => Some(3),
        '4' => Some(4),
        '5' => Some(5),
        '6' => Some(6),
        '7' => Some(7),
        '8' => Some(8),
        '9' => Some(9),
        _ => None,
    }
}

/// Drops every character that is not a decimal digit or `:`.
pub(crate) fn sanitize(s: &str) -> (r: Vec<char>)
    ensures
        r@ == spec_sanitize(s@),
{
    let n: usize = s.unicode_len();
    let mut out: Vec<char> = Vec::new();
    let mut i: usize = 0;
    while i < n
        invariant
            i <= n,
            n == s@.len(),
            out@ == spec_sanitize(s@.subrange(0, i as int)),
        decreases n - i,
    {
        let c = s.get_char(i);
        proof {
            assert(s@.subrange(0, i + 1).drop_last() =~= s@.subrange(0, i as int));
            assert(s@.subrange(0, i + 1).last() == s@[i as int]);
        }
        if digit_of(c).is_some() || c == ':' {
            out.push(c);
        }
        i += 1;
    }
    proof {
        assert(s@.subrange(0, n as int) =~= s@);
    }
    out
}

/// Index of the first `:` in `t` at or after `from`, or `t.len()` if none.
pub(crate) fn find_colon(t: &Vec<char>, from: usize) -> (r: usize)
    requires
        from <= t@.len(),
    ensures
        r == first_colon_from(t@, from as int),
        from <= r <= t@.len(),
{
    proof {
        lemma_first_colon(t@, from as int);
    }
    let n: usize = t.len();
    let mut i: usize = from;
    while i < n
        invariant
            from <= i <= n,
            n == t@.len(),
            first_colon_from(t@, from as int) == first_colon_from(t@, i as int),
        decreases n - i,
    {
        if t[i] == ':' {
            return i;
        }
        i += 1;
    }
    n
}

/// Reads `t[start..end]` as a base-ten `u16`: every character must be a
/// digit, the range non-empty, and the value at most `u16::MAX`.
pub(crate) fn parse_u16_digits(t: &Vec<char>, start: usize, end: usize) -> (r: Option<u16>)
    requires
        start <= end <= t@.len(),
    ensures
        r == spec_parse_u16(t@.subrange(start as int, end as int)),
{
    let ghost seg = t@.subrange(start as int, end as int);
    if start == end {
        return None;
    }
    let mut val: u32 = 0;
    let mut i: usize = start;
    while i < end
        invariant
            start <= i <= end <= t@.len(),
            seg == t@.subrange(start as int, end as int),
            all_digits(t@.subrange(start as int, i as int)),
            val == seg_val(t@.subrange(start as int, i as int)),
            val <= 65535,
        decreases end - i,
    {
        let ghost prefix = t@.subrange(start as int, i as int);
        proof {
            assert(t@.subrange(start as int, i + 1).drop_last() =~= prefix);
            assert(t@.subrange(start as int, i + 1).last() == t@[i as int]);
        }
        let c = t[i];
        let d: u32 = match digit_of(c) {
            Some(d) => d,
            None => {
                proof {
                    assert(seg[i - start] == t@[i as int]);
                    assert(!is_digit(seg[i - start]));
                }
                return None;
            },
        };
        let nv: u32 = val * 10 + d;
        if nv > 65535 {
            proof {
                let longer = t@.subrange(start as int, i + 1);
                assert(seg_val(longer) == nv);
                if all_digits(seg) {
                    assert(longer =~= seg.subrange(0, i + 1 - start));
                    lemma_seg_val_prefix_le(seg, i + 1 - start);
                    assert(seg_val(seg) >= nv > 65535);
                }
            }
            return None;
        }
        val = nv;
        i += 1;
    }
    proof {
        assert(t@.subrange(start as int, end as int) =~= seg);
    }
    Some(val as u16)
}

/// Parses an already-sanitized run of characters as `[MM:]SS`.
pub(crate) fn parse_time_chars(t: &Vec<char>) -> (r: Option<u16>)
    ensures
        r == spec_parse_sanitized(t@),
{
    let len: usize = t.len();
    let c1 = find_colon(t, 0);
    if c1 == len {
        let r = parse_u16_digits(t, 0, len);
        proof {
            assert(t@.subrange(0, len as int) =~= t@);
        }
        r
    } else {
        proof {
            lemma_first_colon(t@, 0);
        }
        let m = parse_u16_digits(t, 0, c1);
        let c2 = find_colon(t, c1 + 1);
        let s = parse_u16_digits(t, c1 + 1, c2);
        match (m, s) {
            (Some(mv), Some(sv)) => {
                let total: u32 = (mv as u32) * 60 + (sv as u32);
                if total <= 65535 {
                    Some(total as u16)
                } else {
                    None
                }
            },
            _ => None,
        }
    }
}

/// One digit as a string slice.
fn digit_str(d: u32) -> (r: &'static str)
    requires
        d < 10,
    ensures
        r@ == seq![spec_digit_char(d as int)],
{
    proof {
        reveal_strlit("0");
        reveal_strlit("1");
        reveal_strlit("2");
        reveal_strlit("3");
        reveal_strlit("4");
        reveal_strlit("5");
        reveal_strlit("6");
        reveal_strlit("7");
        reveal_strlit("8");
        reveal_strlit("9");
        assert("0"@ =~= seq!['0']);
        assert("1"@ =~= seq!['1']);
        assert("2"@ =~= seq!['2']);
        assert("3"@ =~= seq!['3']);
        assert("4"@ =~= seq!['4']);
        assert("5"@ =~= seq!['5']);
        assert("6"@ =~= seq!['6']);
        assert("7"@ =~= seq!['7']);
        assert("8"@ =~= seq!['8']);
        assert("9"@ =~= seq!['9']);
    }
    if d == 0 {
        "0"
    } else if d == 1 {
        "1"
    } else if d == 2 {
        "2"
    } else if d == 3 {
        "3"
    } else if d == 4 {
        "4"
    } else if d == 5 {
        "5"
    } else if d == 6 {
        "6"
    } else if d == 7 {
        "7"
    } else if d == 8 {
        "8"
    } else {
        "9"
    }
}

/// Appends the base-ten rendering of `n` to `out`.
fn push_decimal(out: &mut String, n: u32)
    ensures
        final(out)@ == old(out)@ + spec_decimal(n as int),
    decreases n,
{
    if n >= 10 {
        push_decimal(out, n / 10);
        out.append(digit_str(n % 10));
        proof {
            assert(old(out)@ + spec_decimal(n as int) =~= (old(out)@ + spec_decimal(n as int / 10))
                + seq![spec_digit_char(n as int % 10)]);
        }
    } else {
        out.append(digit_str(n));
    }
}

/// Appends the rendering of `n` zero-padded to at least two digits.
fn push_pad2(out: &mut String, n: u32)
    ensures
        final(out)@ == old(out)@ + spec_pad2(n as int),
{
    if n < 10 {
        proof {
            reveal_strlit("0");
            assert("0"@ =~= seq!['0']);
        }
        out.append("0");
        push_decimal(out, n);
        proof {
            assert(old(out)@ + spec_pad2(n as int) =~= (old(out)@ + seq!['0']) + spec_decimal(
                n as int,
            ));
        }
    } else {
        push_decimal(out, n);
    }
}

/// Renders a signed second count as `MM:SS`, zero-padding both parts to two
/// digits, with a leading `-` exactly when the count is negative and no
/// upper bound on the minutes.
pub(crate) fn format_time(time_left: i32) -> (r: String)
    requires
        time_left > i32::MIN,
    ensures
        r@ == spec_format_time(time_left as int),
{
    let mut out = String::new();
    let mut t = time_left;
    if t < 0 {
        proof {
            reveal_strlit("-");
            assert("-"@ =~= seq!['-']);
        }
        out.append("-");
        t = -t;
    }
    proof {
        lemma_fundamental_div_mod(t as int, 60);
        lemma_mod_division_less_than_divisor(t as int, 60);
    }
    let minutes: i32 = t / 60;
    let seconds: i32 = t - minutes * 60;
    let ghost before = out@;
    push_pad2(&mut out, minutes as u32);
    proof {
        reveal_strlit(":");
        assert(":"@ =~= seq![':']);
    }
    out.append(":");
    push_pad2(&mut out, seconds as u32);
    proof {
        assert(t >= 0);
        assert(seconds as int == t as int % 60);
        assert(out@ =~= before + spec_mmss(t as int));
        if time_left < 0 {
            assert(out@ =~= spec_format_time(time_left as int));
        }
    }
    out
}

} // verus!
