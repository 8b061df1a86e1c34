//! The utility-class grammar: tokenizing a class string and matching a
//! single token against the literal and parametric rules.
//!
//! Matching is anchored: a rule matches a whole token or not at all, so
//! prefixes that share characters (`border`, `border-x`, `border-[#...]`)
//! never produce false positives. Every numeric payload is bounded by the
//! target field's machine range; a token whose numeral falls outside that
//! range matches no rule and is reported as unsupported.

use vstd::prelude::*;
use vstd::string::StrSliceExecFns;

use crate::tailwind::AlignContent;
use crate::tailwind::AlignItems;
use crate::tailwind::AlignSelf;
use crate::tailwind::DisplayMode;
use crate::tailwind::EdgeRect;
use crate::tailwind::FlexDirection;
use crate::tailwind::GridTrack;
use crate::tailwind::JustifyContent;
use crate::tailwind::JustifyItems;
use crate::tailwind::JustifySelf;
use crate::tailwind::PositionMode;
use crate::tailwind::Rgba;
use crate::tailwind::Style;
use crate::tailwind::StyleV;
use crate::tailwind::default_style;
use crate::tailwind::Val;
use crate::tailwind::Visibility;

verus! {

/// The ASCII whitespace characters that separate class tokens.
pub open spec fn is_space(c: char) -> bool {
    c == ' ' || c == '\t' || c == '\n' || c == '\r' || c == '\x0c'
}

/// Splitting a character sequence on ASCII whitespace, scanning left to
/// right with `cur` holding the token collected so far.
pub open spec fn split_ws_acc(s: Seq<char>, cur: Seq<char>) -> Seq<Seq<char>>
    decreases s.len(),
{
    if s.len() == 0 {
        if cur.len() == 0 {
            Seq::empty()
        } else {
            seq![cur]
        }
    } else if is_space(s[0]) {
        if cur.len() == 0 {
            split_ws_acc(s.skip(1), Seq::empty())
        } else {
            seq![cur] + split_ws_acc(s.skip(1), Seq::empty())
        }
    } else {
        split_ws_acc(s.skip(1), cur.push(s[0]))
    }
}

/// The whitespace-separated tokens of a class string, in order.
pub open spec fn split_ws(s: Seq<char>) -> Seq<Seq<char>> {
    split_ws_acc(s, Seq::empty())
}

/// ASCII decimal digit.
pub open spec fn is_digit(c: char) -> bool {
    48 <= c as u32 && c as u32 <= 57
}

/// Numeric value of an ASCII decimal digit.
pub open spec fn digit_val(c: char) -> nat {
    ((c as u32) - 48) as nat
}

/// Every character of `s` is an ASCII decimal digit.
pub open spec fn all_digits(s: Seq<char>) -> bool {
    forall|i: int| 0 <= i < s.len() ==> is_digit(#[trigger] s[i])
}

/// The base-ten value of a digit sequence.
pub open spec fn digits_val(s: Seq<char>) -> nat
    decreases s.len(),
{
    if s.len() == 0 {
        0
    } else {
        digits_val(s.drop_last()) * 10 + digit_val(s.last())
    }
}

/// A non-empty all-digit sequence whose value fits in a `u64`; anything
/// else parses to nothing.
pub open spec fn parse_u64(s: Seq<char>) -> Option<u64> {
    if s.len() > 0 && all_digits(s) && digits_val(s) <= u64::MAX {
        Some(digits_val(s) as u64)
    } else {
        None
    }
}

/// `p` is a prefix of `t`.
pub open spec fn has_prefix(t: Seq<char>, p: Seq<char>) -> bool {
    p.len() <= t.len() && t.take(p.len() as int) == p
}

/// `p` is a suffix of `t`.
pub open spec fn has_suffix(t: Seq<char>, p: Seq<char>) -> bool {
    p.len() <= t.len() && t.skip(t.len() - p.len()) == p
}

/// The value of a prefix of the digit sequence never exceeds the value of
/// the whole sequence.
proof fn lemma_digits_val_take_le(s: Seq<char>, i: int)
    requires
        0 <= i <= s.len(),
    ensures
        digits_val(s.take(i)) <= digits_val(s),
    decreases s.len() - i,
{
    if i < s.len() {
        assert(s.take(i + 1).drop_last() =~= s.take(i));
        assert(s.take(i + 1).last() == s[i]);
        assert(digits_val(s.take(i + 1)) == digits_val(s.take(i)) * 10 + digit_val(s[i]));
        lemma_digits_val_take_le(s, i + 1);
    } else {
        assert(s.take(i) =~= s);
    }
}

/// Whether `t` and `lit` are the same character sequence.
pub(crate) fn token_eq(t: &str, lit: &str) -> (r: bool)
    ensures
        r == (t@ == lit@),
{
    let n = lit.unicode_len();
    if t.unicode_len() != n {
        return false;
    }
    let mut i: usize = 0;
    while i < n
        invariant
            0 <= i <= n,
            n == lit@.len(),
            n == t@.len(),
            forall|k: int| 0 <= k < i ==> t@[k] == lit@[k],
        decreases n - i,
    {
        if t.get_char(i) != lit.get_char(i) {
            return false;
        }
        i += 1;
    }
    proof {
        assert(t@ =~= lit@);
    }
    true
}

/// Whether `p` is a prefix of `t`.
fn prefix_eq(t: &str, p: &str) -> (r: bool)
    ensures
        r == has_prefix(t@, p@),
{
    let n = p.unicode_len();
    if t.unicode_len() < n {
        return false;
    }
    let mut i: usize = 0;
    while i < n
        invariant
            0 <= i <= n,
            n == p@.len(),
            n <= t@.len(),
            forall|k: int| 0 <= k < i ==> t@[k] == p@[k],
        decreases n - i,
    {
        if t.get_char(i) != p.get_char(i) {
            proof {
                assert(t@.take(n as int)[i as int] != p@[i as int]);
            }
            return false;
        }
        i += 1;
    }
    proof {
        assert(t@.take(n as int) =~= p@);
    }
    true
}

/// Parses `t[from..to]` as a base-ten `u64`, mirroring [`parse_u64`].
fn parse_uint_range(t: &str, from: usize, to: usize) -> (r: Option<u64>)
    requires
        from <= to <= t@.len(),
    ensures
        r == parse_u64(t@.subrange(from as int, to as int)),
{
    let ghost sub = t@.subrange(from as int, to as int);
    if from == to {
        return None;
    }
    let mut acc: u64 = 0;
    let mut i = from;
    while i < to
        invariant
            from <= i <= to,
            to <= t@.len(),
            sub == t@.subrange(from as int, to as int),
            sub.len() == to - from,
            all_digits(sub.take(i - from)),
            acc == digits_val(sub.take(i - from)),
        decreases to - i,
    {
        let c = t.get_char(i);
        proof {
            assert(sub[i - from] == t@[i as int]);
        }
        let u = c as u32;
        if u < 48 || u > 57 {
            proof {
                assert(!is_digit(sub[i - from]));
            }
            return None;
        }
        let d = (u - 48) as u64;
        proof {
            assert(sub.take(i - from + 1).drop_last() =~= sub.take(i - from));
            assert(sub.take(i - from + 1).last() == sub[i - from]);
        }
        let m = match acc.checked_mul(10) {
            Some(m) => m,
            None => {
                proof {
                    assert(digits_val(sub.take(i - from + 1)) > u64::MAX);
                    lemma_digits_val_take_le(sub, i - from + 1);
                }
                return None;
            },
        };
        let a = match m.checked_add(d) {
            Some(a) => a,
            None => {
                proof {
                    assert(digits_val(sub.take(i - from + 1)) > u64::MAX);
                    lemma_digits_val_take_le(sub, i - from + 1);
                }
                return None;
            },
        };
        acc = a;
        i += 1;
    }
    proof {
        assert(sub.take(to - from) =~= sub);
    }
    Some(acc)
}

/// A token of the form `pre` followed by a non-empty numeral: the numeral's
/// value, if it fits in a `u64`.
pub open spec fn uint_after(t: Seq<char>, pre: Seq<char>) -> Option<u64> {
    if t.len() > pre.len() && has_prefix(t, pre) {
        parse_u64(t.skip(pre.len() as int))
    } else {
        None
    }
}

/// Matches `t` against `pre` followed by a numeral.
fn match_uint_after(t: &str, pre: &str) -> (r: Option<u64>)
    ensures
        r == uint_after(t@, pre@),
{
    let n = pre.unicode_len();
    if t.unicode_len() <= n {
        return None;
    }
    if !prefix_eq(t, pre) {
        return None;
    }
    let r = parse_uint_range(t, n, t.unicode_len());
    proof {
        assert(t@.subrange(n as int, t@.len() as int) =~= t@.skip(n as int));
    }
    r
}

/// A token of the form `pre`, a non-empty numeral, then `px]`: the
/// numeral's value, if it fits in a `u64`.
pub open spec fn uint_px(t: Seq<char>, pre: Seq<char>) -> Option<u64> {
    if t.len() > pre.len() + 3 && has_prefix(t, pre) && has_suffix(t, seq!['p', 'x', ']']) {
        parse_u64(t.subrange(pre.len() as int, t.len() - 3))
    } else {
        None
    }
}

/// Matches `t` against `pre`, a numeral, then `px]`.
fn match_uint_px(t: &str, pre: &str) -> (r: Option<u64>)
    ensures
        r == uint_px(t@, pre@),
{
    let n = pre.unicode_len();
    let len = t.unicode_len();
    if len < 4 || n > len - 4 {
        return None;
    }
    if !prefix_eq(t, pre) {
        return None;
    }
    if t.get_char(len - 3) != 'p' || t.get_char(len - 2) != 'x' || t.get_char(len - 1) != ']' {
        proof {
            let sfx = t@.skip(t@.len() - 3);
            assert(sfx[0] == t@[t@.len() - 3]);
            assert(sfx[1] == t@[t@.len() - 2]);
            assert(sfx[2] == t@[t@.len() - 1]);
            assert(sfx != seq!['p', 'x', ']']);
        }
        return None;
    }
    proof {
        assert(t@.skip(t@.len() - 3) =~= seq!['p', 'x', ']']);
    }
    parse_uint_range(t, n, len - 3)
}

/// ASCII hexadecimal digit.
pub open spec fn is_hex(c: char) -> bool {
    is_digit(c) || (97 <= c as u32 && c as u32 <= 102) || (65 <= c as u32 && c as u32 <= 70)
}

/// Numeric value of an ASCII hexadecimal digit.
pub open spec fn hex_val(c: char) -> nat {
    if is_digit(c) {
        digit_val(c)
    } else if 97 <= c as u32 {
        ((c as u32) - 87) as nat
    } else {
        ((c as u32) - 55) as nat
    }
}

/// The byte encoded by the two hexadecimal digits at `i` and `i + 1`.
pub open spec fn hex_byte(s: Seq<char>, i: int) -> nat {
    hex_val(s[i]) * 16 + hex_val(s[i + 1])
}

/// Every character of `s` is a hexadecimal digit.
pub open spec fn all_hex(s: Seq<char>) -> bool {
    forall|i: int| 0 <= i < s.len() ==> is_hex(#[trigger] s[i])
}

/// A token of the form `pre`, then six or eight hexadecimal digits, then
/// `]`: the encoded color, with alpha defaulting to fully opaque when the
/// two alpha digits are absent.
pub open spec fn color_after(t: Seq<char>, pre: Seq<char>) -> Option<Rgba> {
    if t.len() > pre.len() && has_prefix(t, pre) && has_suffix(t, seq![']']) {
        let mid = t.subrange(pre.len() as int, t.len() - 1);
        if (mid.len() == 6 || mid.len() == 8) && all_hex(mid) {
            Some(
                Rgba {
                    r: hex_byte(mid, 0) as u8,
                    g: hex_byte(mid, 2) as u8,
                    b: hex_byte(mid, 4) as u8,
                    a: if mid.len() == 8 {
                        hex_byte(mid, 6) as u8
                    } else {
                        255
                    },
                },
            )
        } else {
            None
        }
    } else {
        None
    }
}

/// Decodes one hexadecimal digit, mirroring [`is_hex`] and [`hex_val`].
fn hex_digit(c: char) -> (r: Option<u8>)
    ensures
        match r {
            Some(v) => is_hex(c) && v == hex_val(c),
            None => !is_hex(c),
        },
{
    let u = c as u32;
    if 48 <= u && u <= 57 {
        Some((u - 48) as u8)
    } else if 97 <= u && u <= 102 {
        Some((u - 87) as u8)
    } else if 65 <= u && u <= 70 {
        Some((u - 55) as u8)
    } else {
        None
    }
}

/// Decodes the byte at positions `i`, `i + 1` of `t`.
fn hex_pair(t: &str, i: usize) -> (r: Option<u8>)
    requires
        i + 2 <= t@.len(),
        t@.len() <= usize::MAX,
    ensures
        match r {
            Some(v) => is_hex(t@[i as int]) && is_hex(t@[i + 1]) && v == hex_byte(t@, i as int),
            None => !(is_hex(t@[i as int]) && is_hex(t@[i + 1])),
        },
{
    let hi = match hex_digit(t.get_char(i)) {
        Some(v) => v,
        None => {
            return None;
        },
    };
    let lo = match hex_digit(t.get_char(i + 1)) {
        Some(v) => v,
        None => {
            return None;
        },
    };
    Some(hi * 16 + lo)
}

/// Matches `t` against `pre`, a six- or eight-digit hex color, then `]`.
fn match_color(t: &str, pre: &str) -> (r: Option<Rgba>)
    ensures
        r == color_after(t@, pre@),
{
    let n = pre.unicode_len();
    let len = t.unicode_len();
    if len <= n {
        return None;
    }
    if !prefix_eq(t, pre) {
        return None;
    }
    if t.get_char(len - 1) != ']' {
        proof {
            assert(t@.skip(t@.len() - 1)[0] == t@[t@.len() - 1]);
            assert(t@.skip(t@.len() - 1) != seq![']']);
        }
        return None;
    }
    proof {
        assert(t@.skip(t@.len() - 1) =~= seq![']']);
    }
    let ghost mid = t@.subrange(n as int, t@.len() - 1);
    let midlen = len - 1 - n;
    if midlen != 6 && midlen != 8 {
        return None;
    }
    proof {
        assert(forall|k: int| 0 <= k < mid.len() ==> mid[k] == t@[n + k]);
    }
    let red = match hex_pair(t, n) {
        Some(v) => v,
        None => {
            proof {
                assert(!(is_hex(mid[0]) && is_hex(mid[1])));
            }
            return None;
        },
    };
    let green = match hex_pair(t, n + 2) {
        Some(v) => v,
        None => {
            proof {
                assert(!(is_hex(mid[2]) && is_hex(mid[3])));
            }
            return None;
        },
    };
    let blue = match hex_pair(t, n + 4) {
        Some(v) => v,
        None => {
            proof {
                assert(!(is_hex(mid[4]) && is_hex(mid[5])));
            }
            return None;
        },
    };
    let alpha: u8 = if midlen == 8 {
        match hex_pair(t, n + 6) {
            Some(v) => v,
            None => {
                proof {
                    assert(!(is_hex(mid[6]) && is_hex(mid[7])));
                }
                return None;
            },
        }
    } else {
        255
    };
    proof {
        assert(all_hex(mid));
        assert(hex_byte(mid, 0) == hex_byte(t@, n as int));
        assert(hex_byte(mid, 2) == hex_byte(t@, n + 2));
        assert(hex_byte(mid, 4) == hex_byte(t@, n + 4));
        if mid.len() == 8 {
            assert(hex_byte(mid, 6) == hex_byte(t@, n + 6));
        }
    }
    Some(Rgba { r: red, g: green, b: blue, a: alpha })
}

/// One track of a grid template list: `auto`, `<uint>fr`, or `<uint>px`,
/// with the numeral bounded by the track's machine range.
pub open spec fn track_of(s: Seq<char>) -> Option<GridTrack> {
    if s == seq!['a', 'u', 't', 'o'] {
        Some(GridTrack::Auto)
    } else if s.len() > 2 && s.skip(s.len() - 2) == seq!['f', 'r'] {
        match parse_u64(s.take(s.len() - 2)) {
            Some(v) => if v <= u16::MAX as u64 {
                Some(GridTrack::Fr(v as u16))
            } else {
                None
            },
            None => None,
        }
    } else if s.len() > 2 && s.skip(s.len() - 2) == seq!['p', 'x'] {
        match parse_u64(s.take(s.len() - 2)) {
            Some(v) => if v <= u16::MAX as u64 {
                Some(GridTrack::Px(v as u16))
            } else {
                None
            },
            None => None,
        }
    } else {
        None
    }
}

/// Matches the segment `t[from..to]` as one grid track.
fn track_of_range(t: &str, from: usize, to: usize) -> (r: Option<GridTrack>)
    requires
        from <= to <= t@.len(),
    ensures
        r == track_of(t@.subrange(from as int, to as int)),
{
    let ghost seg = t@.subrange(from as int, to as int);
    let seglen = to - from;
    proof {
        assert(forall|k: int| 0 <= k < seg.len() ==> seg[k] == t@[from + k]);
    }
    if seglen == 4 && t.get_char(from) == 'a' && t.get_char(from + 1) == 'u' && t.get_char(from + 2)
        == 't' && t.get_char(from + 3) == 'o' {
        proof {
            assert(seg =~= seq!['a', 'u', 't', 'o']);
        }
        return Some(GridTrack::Auto);
    }
    proof {
        assert(seg != seq!['a', 'u', 't', 'o']);
    }
    if seglen <= 2 {
        return None;
    }
    let c0 = t.get_char(to - 2);
    let c1 = t.get_char(to - 1);
    proof {
        assert(seg.skip(seg.len() - 2)[0] == seg[seg.len() - 2]);
        assert(seg.skip(seg.len() - 2)[1] == seg[seg.len() - 1]);
    }
    if c0 == 'f' && c1 == 'r' {
        proof {
            assert(seg.skip(seg.len() - 2) =~= seq!['f', 'r']);
            assert(t@.subrange(from as int, to - 2) =~= seg.take(seg.len() - 2));
        }
        match parse_uint_range(t, from, to - 2) {
            Some(v) => {
                if v <= 65535 {
                    return Some(GridTrack::Fr(v as u16));
                } else {
                    return None;
                }
            },
            None => {
                return None;
            },
        }
    }
    if c0 == 'p' && c1 == 'x' {
        proof {
            assert(seg.skip(seg.len() - 2) =~= seq!['p', 'x']);
            assert(seg.skip(seg.len() - 2) != seq!['f', 'r']);
            assert(t@.subrange(from as int, to - 2) =~= seg.take(seg.len() - 2));
        }
        match parse_uint_range(t, from, to - 2) {
            Some(v) => {
                if v <= 65535 {
                    return Some(GridTrack::Px(v as u16));
                } else {
                    return None;
                }
            },
            None => {
                return None;
            },
        }
    }
    proof {
        assert(seg.skip(seg.len() - 2) != seq!['f', 'r']);
        assert(seg.skip(seg.len() - 2) != seq!['p', 'x']);
    }
    None
}

/// Splitting a bracketed track list on `_`, scanning left to right with
/// `cur` holding the segment collected so far; the whole list parses only
/// if every segment is a valid track.
pub open spec fn track_list_acc(s: Seq<char>, cur: Seq<char>) -> Option<Seq<GridTrack>>
    decreases s.len(),
{
    if s.len() == 0 {
        match track_of(cur) {
            Some(tr) => Some(seq![tr]),
            None => None,
        }
    } else if s[0] == '_' {
        match track_of(cur) {
            Some(tr) => match track_list_acc(s.skip(1), Seq::empty()) {
                Some(rest) => Some(seq![tr] + rest),
                None => None,
            },
            None => None,
        }
    } else {
        track_list_acc(s.skip(1), cur.push(s[0]))
    }
}

/// A `grid-cols-[...]` token: the ordered track list between the brackets.
pub open spec fn grid_list_of(t: Seq<char>) -> Option<Seq<GridTrack>> {
    if t.len() > "grid-cols-["@.len() + 1 && has_prefix(t, "grid-cols-["@) && has_suffix(
        t,
        seq![']'],
    ) {
        track_list_acc(t.subrange("grid-cols-["@.len() as int, t.len() - 1), Seq::empty())
    } else {
        None
    }
}

/// Matches `t` against the bracketed `grid-cols-[...]` form.
#[verifier::loop_isolation(false)]
fn match_grid_list(t: &str) -> (r: Option<Vec<GridTrack>>)
    ensures
        match r {
            Some(v) => grid_list_of(t@) == Some(v@),
            None => grid_list_of(t@) is None,
        },
{
    proof {
        reveal_strlit("grid-cols-[");
    }
    let len = t.unicode_len();
    if len < 13 {
        return None;
    }
    if !prefix_eq(t, "grid-cols-[") {
        return None;
    }
    if t.get_char(len - 1) != ']' {
        proof {
            assert(t@.skip(t@.len() - 1)[0] == t@[t@.len() - 1]);
            assert(t@.skip(t@.len() - 1) != seq![']']);
        }
        return None;
    }
    proof {
        assert(t@.skip(t@.len() - 1) =~= seq![']']);
    }
    let ghost mid = t@.subrange(11, t@.len() - 1);
    let mut out: Vec<GridTrack> = Vec::new();
    let mut seg_start: usize = 11;
    let mut i: usize = 11;
    let end = len - 1;
    proof {
        assert(mid.skip(0) =~= mid);
        assert(t@.subrange(11, 11) =~= Seq::<char>::empty());
        match track_list_acc(mid, Seq::<char>::empty()) {
            Some(rest) => {
                assert(Seq::<GridTrack>::empty() + rest =~= rest);
            },
            None => {},
        }
    }
    while i < end
        invariant
            11 <= seg_start <= i <= end,
            end == t@.len() - 1,
            end < t@.len(),
            mid == t@.subrange(11, t@.len() - 1),
            ({
                let cur = t@.subrange(seg_start as int, i as int);
                match track_list_acc(mid.skip(i - 11), cur) {
                    Some(rest) => track_list_acc(mid, Seq::empty()) == Some(out@ + rest),
                    None => track_list_acc(mid, Seq::empty()) is None,
                }
            }),
        decreases end - i,
    {
        proof {
            assert(mid.skip(i - 11)[0] == mid[i - 11]);
            assert(mid[i - 11] == t@[i as int]);
            assert(mid.skip(i - 11).skip(1) =~= mid.skip(i + 1 - 11));
        }
        let c = t.get_char(i);
        if c == '_' {
            match track_of_range(t, seg_start, i) {
                Some(tr) => {
                    let ghost prev = out@;
                    out.push(tr);
                    proof {
                        assert(t@.subrange(i + 1, i + 1) =~= Seq::<char>::empty());
                        match track_list_acc(mid.skip(i + 1 - 11), Seq::<char>::empty()) {
                            Some(rest2) => {
                                assert(prev + (seq![tr] + rest2) =~= out@ + rest2);
                            },
                            None => {},
                        }
                    }
                    seg_start = i + 1;
                },
                None => {
                    proof {
                        assert(t@.len() > "grid-cols-["@.len() + 1);
                        assert(grid_list_of(t@) == track_list_acc(mid, Seq::<char>::empty()));
                    }
                    return None;
                },
            }
        } else {
            proof {
                assert(t@.subrange(seg_start as int, i + 1) =~= t@.subrange(
                    seg_start as int,
                    i as int,
                ).push(t@[i as int]));
            }
        }
        i += 1;
    }
    proof {
        assert(mid.skip(end - 11) =~= Seq::<char>::empty());
    }
    match track_of_range(t, seg_start, end) {
        Some(tr) => {
            let ghost prev = out@;
            out.push(tr);
            proof {
                assert(prev + seq![tr] =~= out@);
                assert(t@.len() > "grid-cols-["@.len() + 1);
                assert(grid_list_of(t@) == track_list_acc(mid, Seq::<char>::empty()));
            }
            Some(out)
        },
        None => {
            proof {
                assert(t@.len() > "grid-cols-["@.len() + 1);
                assert(grid_list_of(t@) == track_list_acc(mid, Seq::<char>::empty()));
            }
            None
        },
    }
}

/// A partial per-edge update: only the named edges are overwritten.
#[derive(Clone, Copy, Debug)]
pub struct EdgeUpdate {
    pub left: Option<Val>,
    pub right: Option<Val>,
    pub top: Option<Val>,
    pub bottom: Option<Val>,
}

/// All four edges set to `v`.
pub open spec fn edges_all(v: Val) -> EdgeUpdate {
    EdgeUpdate { left: Some(v), right: Some(v), top: Some(v), bottom: Some(v) }
}

/// Left and right edges set to `v`.
pub open spec fn edges_x(v: Val) -> EdgeUpdate {
    EdgeUpdate { left: Some(v), right: Some(v), top: None, bottom: None }
}

/// Top and bottom edges set to `v`.
pub open spec fn edges_y(v: Val) -> EdgeUpdate {
    EdgeUpdate { left: None, right: None, top: Some(v), bottom: Some(v) }
}

/// Only the left edge set to `v`.
pub open spec fn edges_left(v: Val) -> EdgeUpdate {
    EdgeUpdate { left: Some(v), right: None, top: None, bottom: None }
}

/// Only the right edge set to `v`.
pub open spec fn edges_right(v: Val) -> EdgeUpdate {
    EdgeUpdate { left: None, right: Some(v), top: None, bottom: None }
}

/// Only the top edge set to `v`.
pub open spec fn edges_top(v: Val) -> EdgeUpdate {
    EdgeUpdate { left: None, right: None, top: Some(v), bottom: None }
}

/// Only the bottom edge set to `v`.
pub open spec fn edges_bottom(v: Val) -> EdgeUpdate {
    EdgeUpdate { left: None, right: None, top: None, bottom: Some(v) }
}

/// The single field assignment (or atomic pair of assignments) a matching
/// class token performs on a style record.
#[derive(Clone, Copy, Debug)]
pub enum TokenEffect {
    SetVisibility(Visibility),
    SetPosition(PositionMode),
    SetDisplay(DisplayMode),
    SetFlexDirection(FlexDirection),
    SetJustifyContent(JustifyContent),
    SetJustifyItems(JustifyItems),
    SetJustifySelf(JustifySelf),
    SetAlignContent(AlignContent),
    SetAlignItems(AlignItems),
    SetAlignSelf(AlignSelf),
    PlaceContent(AlignContent, JustifyContent),
    PlaceItems(AlignItems, JustifyItems),
    PlaceSelf(AlignSelf, JustifySelf),
    SetWidth(Val),
    SetMinWidth(Val),
    SetMaxWidth(Val),
    SetHeight(Val),
    SetMinHeight(Val),
    SetMaxHeight(Val),
    SetSize(Val, Val),
    SetBorderColor(Rgba),
    SetBackgroundColor(Rgba),
    SetTextColor(Rgba),
    SetBorder(EdgeUpdate),
    SetPadding(EdgeUpdate),
    SetMargin(EdgeUpdate),
    SetZIndex(i32),
    GridAutoColumns(u16),
}

/// The literal visibility, position, display and flex-direction tokens.
pub open spec fn layout_effect(t: Seq<char>) -> Option<TokenEffect> {
    if t == "visible"@ {
        Some(TokenEffect::SetVisibility(Visibility::Visible))
    } else if t == "invisible"@ {
        Some(TokenEffect::SetVisibility(Visibility::Hidden))
    } else if t == "relative"@ {
        Some(TokenEffect::SetPosition(PositionMode::Relative))
    } else if t == "absolute"@ {
        Some(TokenEffect::SetPosition(PositionMode::Absolute))
    } else if t == "block"@ {
        Some(TokenEffect::SetDisplay(DisplayMode::Block))
    } else if t == "grid"@ {
        Some(TokenEffect::SetDisplay(DisplayMode::Grid))
    } else if t == "flex"@ {
        Some(TokenEffect::SetDisplay(DisplayMode::Flex))
    } else if t == "hidden"@ {
        Some(TokenEffect::SetDisplay(DisplayMode::NoDisplay))
    } else if t == "flex-col"@ {
        Some(TokenEffect::SetFlexDirection(FlexDirection::Column))
    } else if t == "flex-row"@ {
        Some(TokenEffect::SetFlexDirection(FlexDirection::Row))
    } else if t == "flex-row-reverse"@ {
        Some(TokenEffect::SetFlexDirection(FlexDirection::RowReverse))
    } else if t == "flex-col-reverse"@ {
        Some(TokenEffect::SetFlexDirection(FlexDirection::ColumnReverse))
    } else {
        None
    }
}

fn classify_layout(t: &str) -> (r: Option<TokenEffect>)
    ensures
        r == layout_effect(t@),
{
    if token_eq(t, "visible") {
        Some(TokenEffect::SetVisibility(Visibility::Visible))
    } else if token_eq(t, "invisible") {
        Some(TokenEffect::SetVisibility(Visibility::Hidden))
    } else if token_eq(t, "relative") {
        Some(TokenEffect::SetPosition(PositionMode::Relative))
    } else if token_eq(t, "absolute") {
        Some(TokenEffect::SetPosition(PositionMode::Absolute))
    } else if token_eq(t, "block") {
        Some(TokenEffect::SetDisplay(DisplayMode::Block))
    } else if token_eq(t, "grid") {
        Some(TokenEffect::SetDisplay(DisplayMode::Grid))
    } else if token_eq(t, "flex") {
        Some(TokenEffect::SetDisplay(DisplayMode::Flex))
    } else if token_eq(t, "hidden") {
        Some(TokenEffect::SetDisplay(DisplayMode::NoDisplay))
    } else if token_eq(t, "flex-col") {
        Some(TokenEffect::SetFlexDirection(FlexDirection::Column))
    } else if token_eq(t, "flex-row") {
        Some(TokenEffect::SetFlexDirection(FlexDirection::Row))
    } else if token_eq(t, "flex-row-reverse") {
        Some(TokenEffect::SetFlexDirection(FlexDirection::RowReverse))
    } else if token_eq(t, "flex-col-reverse") {
        Some(TokenEffect::SetFlexDirection(FlexDirection::ColumnReverse))
    } else {
        None
    }
}

/// The literal `justify-*` tokens: content, items and self variants.
pub open spec fn justify_effect(t: Seq<char>) -> Option<TokenEffect> {
    if t == "justify-start"@ {
        Some(TokenEffect::SetJustifyContent(JustifyContent::FlexStart))
    } else if t == "justify-center"@ {
        Some(TokenEffect::SetJustifyContent(JustifyContent::Center))
    } else if t == "justify-end"@ {
        Some(TokenEffect::SetJustifyContent(JustifyContent::FlexEnd))
    } else if t == "justify-between"@ {
        Some(TokenEffect::SetJustifyContent(JustifyContent::SpaceBetween))
    } else if t == "justify-around"@ {
        Some(TokenEffect::SetJustifyContent(JustifyContent::SpaceAround))
    } else if t == "justify-evenly"@ {
        Some(TokenEffect::SetJustifyContent(JustifyContent::SpaceEvenly))
    } else if t == "justify-stretch"@ {
        Some(TokenEffect::SetJustifyContent(JustifyContent::Stretch))
    } else if t == "justify-normal"@ {
        Some(TokenEffect::SetJustifyContent(JustifyContent::Default))
    } else if t == "justify-items-start"@ {
        Some(TokenEffect::SetJustifyItems(JustifyItems::Start))
    } else if t == "justify-items-end"@ {
        Some(TokenEffect::SetJustifyItems(JustifyItems::End))
    } else if t == "justify-items-center"@ {
        Some(TokenEffect::SetJustifyItems(JustifyItems::Center))
    } else if t == "justify-items-stretch"@ {
        Some(TokenEffect::SetJustifyItems(JustifyItems::Stretch))
    } else if t == "justify-items-normal"@ {
        Some(TokenEffect::SetJustifyItems(JustifyItems::Default))
    } else if t == "justify-self-auto"@ {
        Some(TokenEffect::SetJustifySelf(JustifySelf::Auto))
    } else if t == "justify-self-start"@ {
        Some(TokenEffect::SetJustifySelf(JustifySelf::Start))
    } else if t == "justify-self-end"@ {
        Some(TokenEffect::SetJustifySelf(JustifySelf::End))
    } else if t == "justify-self-center"@ {
        Some(TokenEffect::SetJustifySelf(JustifySelf::Center))
    } else if t == "justify-self-stretch"@ {
        Some(TokenEffect::SetJustifySelf(JustifySelf::Stretch))
    } else {
        None
    }
}

fn classify_justify(t: &str) -> (r: Option<TokenEffect>)
    ensures
        r == justify_effect(t@),
{
    if token_eq(t, "justify-start") {
        Some(TokenEffect::SetJustifyContent(JustifyContent::FlexStart))
    } else if token_eq(t, "justify-center") {
        Some(TokenEffect::SetJustifyContent(JustifyContent::Center))
    } else if token_eq(t, "justify-end") {
        Some(TokenEffect::SetJustifyContent(JustifyContent::FlexEnd))
    } else if token_eq(t, "justify-between") {
        Some(TokenEffect::SetJustifyContent(JustifyContent::SpaceBetween))
    } else if token_eq(t, "justify-around") {
        Some(TokenEffect::SetJustifyContent(JustifyContent::SpaceAround))
    } else if token_eq(t, "justify-evenly") {
        Some(TokenEffect::SetJustifyContent(JustifyContent::SpaceEvenly))
    } else if token_eq(t, "justify-stretch") {
        Some(TokenEffect::SetJustifyContent(JustifyContent::Stretch))
    } else if token_eq(t, "justify-normal") {
        Some(TokenEffect::SetJustifyContent(JustifyContent::Default))
    } else if token_eq(t, "justify-items-start") {
        Some(TokenEffect::SetJustifyItems(JustifyItems::Start))
    } else if token_eq(t, "justify-items-end") {
        Some(TokenEffect::SetJustifyItems(JustifyItems::End))
    } else if token_eq(t, "justify-items-center") {
        Some(TokenEffect::SetJustifyItems(JustifyItems::Center))
    } else if token_eq(t, "justify-items-stretch") {
        Some(TokenEffect::SetJustifyItems(JustifyItems::Stretch))
    } else if token_eq(t, "justify-items-normal") {
        Some(TokenEffect::SetJustifyItems(JustifyItems::Default))
    } else if token_eq(t, "justify-self-auto") {
        Some(TokenEffect::SetJustifySelf(JustifySelf::Auto))
    } else if token_eq(t, "justify-self-start") {
        Some(TokenEffect::SetJustifySelf(JustifySelf::Start))
    } else if token_eq(t, "justify-self-end") {
        Some(TokenEffect::SetJustifySelf(JustifySelf::End))
    } else if token_eq(t, "justify-self-center") {
        Some(TokenEffect::SetJustifySelf(JustifySelf::Center))
    } else if token_eq(t, "justify-self-stretch") {
        Some(TokenEffect::SetJustifySelf(JustifySelf::Stretch))
    } else {
        None
    }
}

/// The literal `content-*`, `items-*` and `self-*` alignment tokens.
pub open spec fn align_effect(t: Seq<char>) -> Option<TokenEffect> {
    if t == "content-normal"@ {
        Some(TokenEffect::SetAlignContent(AlignContent::Default))
    } else if t == "content-center"@ {
        Some(TokenEffect::SetAlignContent(AlignContent::Center))
    } else if t == "content-start"@ {
        Some(TokenEffect::SetAlignContent(AlignContent::FlexStart))
    } else if t == "content-end"@ {
        Some(TokenEffect::SetAlignContent(AlignContent::FlexEnd))
    } else if t == "content-between"@ {
        Some(TokenEffect::SetAlignContent(AlignContent::SpaceBetween))
    } else if t == "content-around"@ {
        Some(TokenEffect::SetAlignContent(AlignContent::SpaceAround))
    } else if t == "content-evenly"@ {
        Some(TokenEffect::SetAlignContent(AlignContent::SpaceEvenly))
    } else if t == "content-stretch"@ {
        Some(TokenEffect::SetAlignContent(AlignContent::Stretch))
    } else if t == "items-start"@ {
        Some(TokenEffect::SetAlignItems(AlignItems::FlexStart))
    } else if t == "items-end"@ {
        Some(TokenEffect::SetAlignItems(AlignItems::FlexEnd))
    } else if t == "items-center"@ {
        Some(TokenEffect::SetAlignItems(AlignItems::Center))
    } else if t == "items-stretch"@ {
        Some(TokenEffect::SetAlignItems(AlignItems::Stretch))
    } else if t == "items-baseline"@ {
        Some(TokenEffect::SetAlignItems(AlignItems::Baseline))
    } else if t == "self-auto"@ {
        Some(TokenEffect::SetAlignSelf(AlignSelf::Auto))
    } else if t == "self-start"@ {
        Some(TokenEffect::SetAlignSelf(AlignSelf::FlexStart))
    } else if t == "self-end"@ {
        Some(TokenEffect::SetAlignSelf(AlignSelf::FlexEnd))
    } else if t == "self-center"@ {
        Some(TokenEffect::SetAlignSelf(AlignSelf::Center))
    } else if t == "self-stretch"@ {
        Some(TokenEffect::SetAlignSelf(AlignSelf::Stretch))
    } else if t == "self-baseline"@ {
        Some(TokenEffect::SetAlignSelf(AlignSelf::Baseline))
    } else {
        None
    }
}

fn classify_align(t: &str) -> (r: Option<TokenEffect>)
    ensures
        r == align_effect(t@),
{
    if token_eq(t, "content-normal") {
        Some(TokenEffect::SetAlignContent(AlignContent::Default))
    } else if token_eq(t, "content-center") {
        Some(TokenEffect::SetAlignContent(AlignContent::Center))
    } else if token_eq(t, "content-start") {
        Some(TokenEffect::SetAlignContent(AlignContent::FlexStart))
    } else if token_eq(t, "content-end") {
        Some(TokenEffect::SetAlignContent(AlignContent::FlexEnd))
    } else if token_eq(t, "content-between") {
        Some(TokenEffect::SetAlignContent(AlignContent::SpaceBetween))
    } else if token_eq(t, "content-around") {
        Some(TokenEffect::SetAlignContent(AlignContent::SpaceAround))
    } else if token_eq(t, "content-evenly") {
        Some(TokenEffect::SetAlignContent(AlignContent::SpaceEvenly))
    } else if token_eq(t, "content-stretch") {
        Some(TokenEffect::SetAlignContent(AlignContent::Stretch))
    } else if token_eq(t, "items-start") {
        Some(TokenEffect::SetAlignItems(AlignItems::FlexStart))
    } else if token_eq(t, "items-end") {
        Some(TokenEffect::SetAlignItems(AlignItems::FlexEnd))
    } else if token_eq(t, "items-center") {
        Some(TokenEffect::SetAlignItems(AlignItems::Center))
    } else if token_eq(t, "items-stretch") {
        Some(TokenEffect::SetAlignItems(AlignItems::Stretch))
    } else if token_eq(t, "items-baseline") {
        Some(TokenEffect::SetAlignItems(AlignItems::Baseline))
    } else if token_eq(t, "self-auto") {
        Some(TokenEffect::SetAlignSelf(AlignSelf::Auto))
    } else if token_eq(t, "self-start") {
        Some(TokenEffect::SetAlignSelf(AlignSelf::FlexStart))
    } else if token_eq(t, "self-end") {
        Some(TokenEffect::SetAlignSelf(AlignSelf::FlexEnd))
    } else if token_eq(t, "self-center") {
        Some(TokenEffect::SetAlignSelf(AlignSelf::Center))
    } else if token_eq(t, "self-stretch") {
        Some(TokenEffect::SetAlignSelf(AlignSelf::Stretch))
    } else if token_eq(t, "self-baseline") {
        Some(TokenEffect::SetAlignSelf(AlignSelf::Baseline))
    } else {
        None
    }
}

/// The combined `place-*` tokens, each expanding into an align/justify
/// pair applied atomically.
pub open spec fn place_effect(t: Seq<char>) -> Option<TokenEffect> {
    if t == "place-content-center"@ {
        Some(TokenEffect::PlaceContent(AlignContent::Center, JustifyContent::Center))
    } else if t == "place-content-start"@ {
        Some(TokenEffect::PlaceContent(AlignContent::FlexStart, JustifyContent::FlexStart))
    } else if t == "place-content-end"@ {
        Some(TokenEffect::PlaceContent(AlignContent::FlexEnd, JustifyContent::FlexEnd))
    } else if t == "place-content-between"@ {
        Some(TokenEffect::PlaceContent(AlignContent::SpaceBetween, JustifyContent::SpaceBetween))
    } else if t == "place-content-around"@ {
        Some(TokenEffect::PlaceContent(AlignContent::SpaceAround, JustifyContent::SpaceAround))
    } else if t == "place-content-evenly"@ {
        Some(TokenEffect::PlaceContent(AlignContent::SpaceEvenly, JustifyContent::SpaceEvenly))
    } else if t == "place-content-stretch"@ {
        Some(TokenEffect::PlaceContent(AlignContent::Stretch, JustifyContent::Stretch))
    } else if t == "place-items-start"@ {
        Some(TokenEffect::PlaceItems(AlignItems::FlexStart, JustifyItems::Start))
    } else if t == "place-items-end"@ {
        Some(TokenEffect::PlaceItems(AlignItems::FlexEnd, JustifyItems::End))
    } else if t == "place-items-center"@ {
        Some(TokenEffect::PlaceItems(AlignItems::Center, JustifyItems::Center))
    } else if t == "place-items-stretch"@ {
        Some(TokenEffect::PlaceItems(AlignItems::Stretch, JustifyItems::Stretch))
    } else if t == "place-items-baseline"@ {
        Some(TokenEffect::PlaceItems(AlignItems::Baseline, JustifyItems::Baseline))
    } else if t == "place-self-auto"@ {
        Some(TokenEffect::PlaceSelf(AlignSelf::Auto, JustifySelf::Auto))
    } else if t == "place-self-start"@ {
        Some(TokenEffect::PlaceSelf(AlignSelf::FlexStart, JustifySelf::Start))
    } else if t == "place-self-end"@ {
        Some(TokenEffect::PlaceSelf(AlignSelf::FlexEnd, JustifySelf::End))
    } else if t == "place-self-center"@ {
        Some(TokenEffect::PlaceSelf(AlignSelf::Center, JustifySelf::Center))
    } else if t == "place-self-stretch"@ {
        Some(TokenEffect::PlaceSelf(AlignSelf::Stretch, JustifySelf::Stretch))
    } else {
        None
    }
}

fn classify_place(t: &str) -> (r: Option<TokenEffect>)
    ensures
        r == place_effect(t@),
{
    if token_eq(t, "place-content-center") {
        Some(TokenEffect::PlaceContent(AlignContent::Center, JustifyContent::Center))
    } else if token_eq(t, "place-content-start") {
        Some(TokenEffect::PlaceContent(AlignContent::FlexStart, JustifyContent::FlexStart))
    } else if token_eq(t, "place-content-end") {
        Some(TokenEffect::PlaceContent(AlignContent::FlexEnd, JustifyContent::FlexEnd))
    } else if token_eq(t, "place-content-between") {
        Some(TokenEffect::PlaceContent(AlignContent::SpaceBetween, JustifyContent::SpaceBetween))
    } else if token_eq(t, "place-content-around") {
        Some(TokenEffect::PlaceContent(AlignContent::SpaceAround, JustifyContent::SpaceAround))
    } else if token_eq(t, "place-content-evenly") {
        Some(TokenEffect::PlaceContent(AlignContent::SpaceEvenly, JustifyContent::SpaceEvenly))
    } else if token_eq(t, "place-content-stretch") {
        Some(TokenEffect::PlaceContent(AlignContent::Stretch, JustifyContent::Stretch))
    } else if token_eq(t, "place-items-start") {
        Some(TokenEffect::PlaceItems(AlignItems::FlexStart, JustifyItems::Start))
    } else if token_eq(t, "place-items-end") {
        Some(TokenEffect::PlaceItems(AlignItems::FlexEnd, JustifyItems::End))
    } else if token_eq(t, "place-items-center") {
        Some(TokenEffect::PlaceItems(AlignItems::Center, JustifyItems::Center))
    } else if token_eq(t, "place-items-stretch") {
        Some(TokenEffect::PlaceItems(AlignItems::Stretch, JustifyItems::Stretch))
    } else if token_eq(t, "place-items-baseline") {
        Some(TokenEffect::PlaceItems(AlignItems::Baseline, JustifyItems::Baseline))
    } else if token_eq(t, "place-self-auto") {
        Some(TokenEffect::PlaceSelf(AlignSelf::Auto, JustifySelf::Auto))
    } else if token_eq(t, "place-self-start") {
        Some(TokenEffect::PlaceSelf(AlignSelf::FlexStart, JustifySelf::Start))
    } else if token_eq(t, "place-self-end") {
        Some(TokenEffect::PlaceSelf(AlignSelf::FlexEnd, JustifySelf::End))
    } else if token_eq(t, "place-self-center") {
        Some(TokenEffect::PlaceSelf(AlignSelf::Center, JustifySelf::Center))
    } else if token_eq(t, "place-self-stretch") {
        Some(TokenEffect::PlaceSelf(AlignSelf::Stretch, JustifySelf::Stretch))
    } else {
        None
    }
}

/// The remaining literal tokens: full sizes, border edges and colors,
/// pixel/auto padding and margin shorthands, and text colors.
pub open spec fn misc_literal_effect(t: Seq<char>) -> Option<TokenEffect> {
    if t == "w-full"@ {
        Some(TokenEffect::SetWidth(Val::Percent(100)))
    } else if t == "h-full"@ {
        Some(TokenEffect::SetHeight(Val::Percent(100)))
    } else if t == "size-full"@ {
        Some(TokenEffect::SetSize(Val::Percent(100), Val::Percent(100)))
    } else if t == "border-black"@ {
        Some(TokenEffect::SetBorderColor(Rgba { r: 0, g: 0, b: 0, a: 255 }))
    } else if t == "border-white"@ {
        Some(TokenEffect::SetBorderColor(Rgba { r: 255, g: 255, b: 255, a: 255 }))
    } else if t == "border"@ {
        Some(TokenEffect::SetBorder(edges_all(Val::Px(1))))
    } else if t == "border-x"@ {
        Some(TokenEffect::SetBorder(edges_x(Val::Px(1))))
    } else if t == "border-y"@ {
        Some(TokenEffect::SetBorder(edges_y(Val::Px(1))))
    } else if t == "border-l"@ {
        Some(TokenEffect::SetBorder(edges_left(Val::Px(1))))
    } else if t == "border-r"@ {
        Some(TokenEffect::SetBorder(edges_right(Val::Px(1))))
    } else if t == "border-b"@ {
        Some(TokenEffect::SetBorder(edges_bottom(Val::Px(1))))
    } else if t == "border-t"@ {
        Some(TokenEffect::SetBorder(edges_top(Val::Px(1))))
    } else if t == "p-px"@ {
        Some(TokenEffect::SetPadding(edges_all(Val::Px(1))))
    } else if t == "p-auto"@ {
        Some(TokenEffect::SetPadding(edges_all(Val::Auto)))
    } else if t == "px-auto"@ {
        Some(TokenEffect::SetPadding(edges_x(Val::Auto)))
    } else if t == "py-auto"@ {
        Some(TokenEffect::SetPadding(edges_y(Val::Auto)))
    } else if t == "m-px"@ {
        Some(TokenEffect::SetMargin(edges_all(Val::Px(1))))
    } else if t == "m-auto"@ {
        Some(TokenEffect::SetMargin(edges_all(Val::Auto)))
    } else if t == "mx-auto"@ {
        Some(TokenEffect::SetMargin(edges_x(Val::Auto)))
    } else if t == "my-auto"@ {
        Some(TokenEffect::SetMargin(edges_y(Val::Auto)))
    } else if t == "text-white"@ {
        Some(TokenEffect::SetTextColor(Rgba { r: 255, g: 255, b: 255, a: 255 }))
    } else if t == "text-black"@ {
        Some(TokenEffect::SetTextColor(Rgba { r: 0, g: 0, b: 0, a: 255 }))
    } else {
        None
    }
}

fn classify_misc_literal(t: &str) -> (r: Option<TokenEffect>)
    ensures
        r == misc_literal_effect(t@),
{
    if token_eq(t, "w-full") {
        Some(TokenEffect::SetWidth(Val::Percent(100)))
    } else if token_eq(t, "h-full") {
        Some(TokenEffect::SetHeight(Val::Percent(100)))
    } else if token_eq(t, "size-full") {
        Some(TokenEffect::SetSize(Val::Percent(100), Val::Percent(100)))
    } else if token_eq(t, "border-black") {
        Some(TokenEffect::SetBorderColor(Rgba::black()))
    } else if token_eq(t, "border-white") {
        Some(TokenEffect::SetBorderColor(Rgba::white()))
    } else if token_eq(t, "border") {
        Some(TokenEffect::SetBorder(EdgeUpdate::all(Val::Px(1))))
    } else if token_eq(t, "border-x") {
        Some(TokenEffect::SetBorder(EdgeUpdate::x(Val::Px(1))))
    } else if token_eq(t, "border-y") {
        Some(TokenEffect::SetBorder(EdgeUpdate::y(Val::Px(1))))
    } else if token_eq(t, "border-l") {
        Some(TokenEffect::SetBorder(EdgeUpdate::only_left(Val::Px(1))))
    } else if token_eq(t, "border-r") {
        Some(TokenEffect::SetBorder(EdgeUpdate::only_right(Val::Px(1))))
    } else if token_eq(t, "border-b") {
        Some(TokenEffect::SetBorder(EdgeUpdate::only_bottom(Val::Px(1))))
    } else if token_eq(t, "border-t") {
        Some(TokenEffect::SetBorder(EdgeUpdate::only_top(Val::Px(1))))
    } else if token_eq(t, "p-px") {
        Some(TokenEffect::SetPadding(EdgeUpdate::all(Val::Px(1))))
    } else if token_eq(t, "p-auto") {
        Some(TokenEffect::SetPadding(EdgeUpdate::all(Val::Auto)))
    } else if token_eq(t, "px-auto") {
        Some(TokenEffect::SetPadding(EdgeUpdate::x(Val::Auto)))
    } else if token_eq(t, "py-auto") {
        Some(TokenEffect::SetPadding(EdgeUpdate::y(Val::Auto)))
    } else if token_eq(t, "m-px") {
        Some(TokenEffect::SetMargin(EdgeUpdate::all(Val::Px(1))))
    } else if token_eq(t, "m-auto") {
        Some(TokenEffect::SetMargin(EdgeUpdate::all(Val::Auto)))
    } else if token_eq(t, "mx-auto") {
        Some(TokenEffect::SetMargin(EdgeUpdate::x(Val::Auto)))
    } else if token_eq(t, "my-auto") {
        Some(TokenEffect::SetMargin(EdgeUpdate::y(Val::Auto)))
    } else if token_eq(t, "text-white") {
        Some(TokenEffect::SetTextColor(Rgba::white()))
    } else if token_eq(t, "text-black") {
        Some(TokenEffect::SetTextColor(Rgba::black()))
    } else {
        None
    }
}

impl EdgeUpdate {
    /// All four edges set to `v`.
    fn all(v: Val) -> (r: EdgeUpdate)
        ensures
            r == edges_all(v),
    {
        EdgeUpdate { left: Some(v), right: Some(v), top: Some(v), bottom: Some(v) }
    }

    /// Left and right edges set to `v`.
    fn x(v: Val) -> (r: EdgeUpdate)
        ensures
            r == edges_x(v),
    {
        EdgeUpdate { left: Some(v), right: Some(v), top: None, bottom: None }
    }

    /// Top and bottom edges set to `v`.
    fn y(v: Val) -> (r: EdgeUpdate)
        ensures
            r == edges_y(v),
    {
        EdgeUpdate { left: None, right: None, top: Some(v), bottom: Some(v) }
    }

    /// Only the left edge set to `v`.
    fn only_left(v: Val) -> (r: EdgeUpdate)
        ensures
            r == edges_left(v),
    {
        EdgeUpdate { left: Some(v), right: None, top: None, bottom: None }
    }

    /// Only the right edge set to `v`.
    fn only_right(v: Val) -> (r: EdgeUpdate)
        ensures
            r == edges_right(v),
    {
        EdgeUpdate { left: None, right: Some(v), top: None, bottom: None }
    }

    /// Only the top edge set to `v`.
    fn only_top(v: Val) -> (r: EdgeUpdate)
        ensures
            r == edges_top(v),
    {
        EdgeUpdate { left: None, right: None, top: Some(v), bottom: None }
    }

    /// Only the bottom edge set to `v`.
    fn only_bottom(v: Val) -> (r: EdgeUpdate)
        ensures
            r == edges_bottom(v),
    {
        EdgeUpdate { left: None, right: None, top: None, bottom: Some(v) }
    }
}

/// The parametric pixel-length tokens for width, height and their
/// min/max variants.
pub open spec fn length_effect(t: Seq<char>) -> Option<TokenEffect> {
    match uint_px(t, "w-["@) {
        Some(v) => Some(TokenEffect::SetWidth(Val::Px(v))),
        None => match uint_px(t, "min-w-["@) {
            Some(v) => Some(TokenEffect::SetMinWidth(Val::Px(v))),
            None => match uint_px(t, "max-w-["@) {
                Some(v) => Some(TokenEffect::SetMaxWidth(Val::Px(v))),
                None => match uint_px(t, "h-["@) {
                    Some(v) => Some(TokenEffect::SetHeight(Val::Px(v))),
                    None => match uint_px(t, "min-h-["@) {
                        Some(v) => Some(TokenEffect::SetMinHeight(Val::Px(v))),
                        None => match uint_px(t, "max-h-["@) {
                            Some(v) => Some(TokenEffect::SetMaxHeight(Val::Px(v))),
                            None => None,
                        },
                    },
                },
            },
        },
    }
}

fn classify_length(t: &str) -> (r: Option<TokenEffect>)
    ensures
        r == length_effect(t@),
{
    match match_uint_px(t, "w-[") {
        Some(v) => {
            return Some(TokenEffect::SetWidth(Val::Px(v)));
        },
        None => {},
    }
    match match_uint_px(t, "min-w-[") {
        Some(v) => {
            return Some(TokenEffect::SetMinWidth(Val::Px(v)));
        },
        None => {},
    }
    match match_uint_px(t, "max-w-[") {
        Some(v) => {
            return Some(TokenEffect::SetMaxWidth(Val::Px(v)));
        },
        None => {},
    }
    match match_uint_px(t, "h-[") {
        Some(v) => {
            return Some(TokenEffect::SetHeight(Val::Px(v)));
        },
        None => {},
    }
    match match_uint_px(t, "min-h-[") {
        Some(v) => {
            return Some(TokenEffect::SetMinHeight(Val::Px(v)));
        },
        None => {},
    }
    match match_uint_px(t, "max-h-[") {
        Some(v) => {
            return Some(TokenEffect::SetMaxHeight(Val::Px(v)));
        },
        None => {},
    }
    None
}

/// The parametric border-width tokens: whole border and per-edge forms.
pub open spec fn border_width_effect(t: Seq<char>) -> Option<TokenEffect> {
    match uint_after(t, "border-"@) {
        Some(v) => Some(TokenEffect::SetBorder(edges_all(Val::Px(v)))),
        None => match uint_after(t, "border-x-"@) {
            Some(v) => Some(TokenEffect::SetBorder(edges_x(Val::Px(v)))),
            None => match uint_after(t, "border-y-"@) {
                Some(v) => Some(TokenEffect::SetBorder(edges_y(Val::Px(v)))),
                None => match uint_after(t, "border-t-"@) {
                    Some(v) => Some(TokenEffect::SetBorder(edges_top(Val::Px(v)))),
                    None => match uint_after(t, "border-b-"@) {
                        Some(v) => Some(TokenEffect::SetBorder(edges_bottom(Val::Px(v)))),
                        None => match uint_after(t, "border-l-"@) {
                            Some(v) => Some(TokenEffect::SetBorder(edges_left(Val::Px(v)))),
                            None => match uint_after(t, "border-r-"@) {
                                Some(v) => Some(TokenEffect::SetBorder(edges_right(Val::Px(v)))),
                                None => None,
                            },
                        },
                    },
                },
            },
        },
    }
}

fn classify_border_width(t: &str) -> (r: Option<TokenEffect>)
    ensures
        r == border_width_effect(t@),
{
    match match_uint_after(t, "border-") {
        Some(v) => {
            return Some(TokenEffect::SetBorder(EdgeUpdate::all(Val::Px(v))));
        },
        None => {},
    }
    match match_uint_after(t, "border-x-") {
        Some(v) => {
            return Some(TokenEffect::SetBorder(EdgeUpdate::x(Val::Px(v))));
        },
        None => {},
    }
    match match_uint_after(t, "border-y-") {
        Some(v) => {
            return Some(TokenEffect::SetBorder(EdgeUpdate::y(Val::Px(v))));
        },
        None => {},
    }
    match match_uint_after(t, "border-t-") {
        Some(v) => {
            return Some(TokenEffect::SetBorder(EdgeUpdate::only_top(Val::Px(v))));
        },
        None => {},
    }
    match match_uint_after(t, "border-b-") {
        Some(v) => {
            return Some(TokenEffect::SetBorder(EdgeUpdate::only_bottom(Val::Px(v))));
        },
        None => {},
    }
    match match_uint_after(t, "border-l-") {
        Some(v) => {
            return Some(TokenEffect::SetBorder(EdgeUpdate::only_left(Val::Px(v))));
        },
        None => {},
    }
    match match_uint_after(t, "border-r-") {
        Some(v) => {
            return Some(TokenEffect::SetBorder(EdgeUpdate::only_right(Val::Px(v))));
        },
        None => {},
    }
    None
}

/// The parametric hex color tokens for border, background and text color.
pub open spec fn color_effect(t: Seq<char>) -> Option<TokenEffect> {
    match color_after(t, "border-[#"@) {
        Some(c) => Some(TokenEffect::SetBorderColor(c)),
        None => match color_after(t, "bg-[#"@) {
            Some(c) => Some(TokenEffect::SetBackgroundColor(c)),
            None => match color_after(t, "text-[#"@) {
                Some(c) => Some(TokenEffect::SetTextColor(c)),
                None => None,
            },
        },
    }
}

fn classify_color(t: &str) -> (r: Option<TokenEffect>)
    ensures
        r == color_effect(t@),
{
    match match_color(t, "border-[#") {
        Some(c) => {
            return Some(TokenEffect::SetBorderColor(c));
        },
        None => {},
    }
    match match_color(t, "bg-[#") {
        Some(c) => {
            return Some(TokenEffect::SetBackgroundColor(c));
        },
        None => {},
    }
    match match_color(t, "text-[#") {
        Some(c) => {
            return Some(TokenEffect::SetTextColor(c));
        },
        None => {},
    }
    None
}

/// The parametric pixel-length padding and margin tokens: whole-rectangle
/// and per-edge forms.
pub open spec fn pad_margin_effect(t: Seq<char>) -> Option<TokenEffect> {
    match uint_px(t, "p-["@) {
        Some(v) => Some(TokenEffect::SetPadding(edges_all(Val::Px(v)))),
        None => match uint_px(t, "px-["@) {
            Some(v) => Some(TokenEffect::SetPadding(edges_x(Val::Px(v)))),
            None => match uint_px(t, "py-["@) {
                Some(v) => Some(TokenEffect::SetPadding(edges_y(Val::Px(v)))),
                None => match uint_px(t, "pl-["@) {
                    Some(v) => Some(TokenEffect::SetPadding(edges_left(Val::Px(v)))),
                    None => match uint_px(t, "pr-["@) {
                        Some(v) => Some(TokenEffect::SetPadding(edges_right(Val::Px(v)))),
                        None => match uint_px(t, "pt-["@) {
                            Some(v) => Some(TokenEffect::SetPadding(edges_top(Val::Px(v)))),
                            None => match uint_px(t, "pb-["@) {
                                Some(v) => Some(TokenEffect::SetPadding(edges_bottom(Val::Px(v)))),
                                None => match uint_px(t, "m-["@) {
                                    Some(v) => Some(TokenEffect::SetMargin(edges_all(Val::Px(v)))),
                                    None => match uint_px(t, "mx-["@) {
                                        Some(v) => Some(
                                            TokenEffect::SetMargin(edges_x(Val::Px(v))),
                                        ),
                                        None => match uint_px(t, "my-["@) {
                                            Some(v) => Some(
                                                TokenEffect::SetMargin(edges_y(Val::Px(v))),
                                            ),
                                            None => match uint_px(t, "ml-["@) {
                                                Some(v) => Some(
                                                    TokenEffect::SetMargin(edges_left(Val::Px(v))),
                                                ),
                                                None => match uint_px(t, "mr-["@) {
                                                    Some(v) => Some(
                                                        TokenEffect::SetMargin(
                                                            edges_right(Val::Px(v)),
                                                        ),
                                                    ),
                                                    None => match uint_px(t, "mt-["@) {
                                                        Some(v) => Some(
                                                            TokenEffect::SetMargin(
                                                                edges_top(Val::Px(v)),
                                                            ),
                                                        ),
                                                        None => match uint_px(t, "mb-["@) {
                                                            Some(v) => Some(
                                                                TokenEffect::SetMargin(
                                                                    edges_bottom(Val::Px(v)),
                                                                ),
                                                            ),
                                                            None => None,
                                                        },
                                                    },
                                                },
                                            },
                                        },
                                    },
                                },
                            },
                        },
                    },
                },
            },
        },
    }
}

fn classify_pad_margin(t: &str) -> (r: Option<TokenEffect>)
    ensures
        r == pad_margin_effect(t@),
{
    match match_uint_px(t, "p-[") {
        Some(v) => {
            return Some(TokenEffect::SetPadding(EdgeUpdate::all(Val::Px(v))));
        },
        None => {},
    }
    match match_uint_px(t, "px-[") {
        Some(v) => {
            return Some(TokenEffect::SetPadding(EdgeUpdate::x(Val::Px(v))));
        },
        None => {},
    }
    match match_uint_px(t, "py-[") {
        Some(v) => {
            return Some(TokenEffect::SetPadding(EdgeUpdate::y(Val::Px(v))));
        },
        None => {},
    }
    match match_uint_px(t, "pl-[") {
        Some(v) => {
            return Some(TokenEffect::SetPadding(EdgeUpdate::only_left(Val::Px(v))));
        },
        None => {},
    }
    match match_uint_px(t, "pr-[") {
        Some(v) => {
            return Some(TokenEffect::SetPadding(EdgeUpdate::only_right(Val::Px(v))));
        },
        None => {},
    }
    match match_uint_px(t, "pt-[") {
        Some(v) => {
            return Some(TokenEffect::SetPadding(EdgeUpdate::only_top(Val::Px(v))));
        },
        None => {},
    }
    match match_uint_px(t, "pb-[") {
        Some(v) => {
            return Some(TokenEffect::SetPadding(EdgeUpdate::only_bottom(Val::Px(v))));
        },
        None => {},
    }
    match match_uint_px(t, "m-[") {
        Some(v) => {
            return Some(TokenEffect::SetMargin(EdgeUpdate::all(Val::Px(v))));
        },
        None => {},
    }
    match match_uint_px(t, "mx-[") {
        Some(v) => {
            return Some(TokenEffect::SetMargin(EdgeUpdate::x(Val::Px(v))));
        },
        None => {},
    }
    match match_uint_px(t, "my-[") {
        Some(v) => {
            return Some(TokenEffect::SetMargin(EdgeUpdate::y(Val::Px(v))));
        },
        None => {},
    }
    match match_uint_px(t, "ml-[") {
        Some(v) => {
            return Some(TokenEffect::SetMargin(EdgeUpdate::only_left(Val::Px(v))));
        },
        None => {},
    }
    match match_uint_px(t, "mr-[") {
        Some(v) => {
            return Some(TokenEffect::SetMargin(EdgeUpdate::only_right(Val::Px(v))));
        },
        None => {},
    }
    match match_uint_px(t, "mt-[") {
        Some(v) => {
            return Some(TokenEffect::SetMargin(EdgeUpdate::only_top(Val::Px(v))));
        },
        None => {},
    }
    match match_uint_px(t, "mb-[") {
        Some(v) => {
            return Some(TokenEffect::SetMargin(EdgeUpdate::only_bottom(Val::Px(v))));
        },
        None => {},
    }
    None
}

/// The signed z-index tokens `z-<uint>` and `-z-<uint>`; the magnitude
/// must fit the signed 32-bit field.
pub open spec fn z_effect(t: Seq<char>) -> Option<TokenEffect> {
    match uint_after(t, "z-"@) {
        Some(v) => if v <= i32::MAX as u64 {
            Some(TokenEffect::SetZIndex(v as i32))
        } else {
            None
        },
        None => match uint_after(t, "-z-"@) {
            Some(v) => if v <= i32::MAX as u64 {
                Some(TokenEffect::SetZIndex((0 - v as int) as i32))
            } else {
                None
            },
            None => None,
        },
    }
}

fn classify_z(t: &str) -> (r: Option<TokenEffect>)
    ensures
        r == z_effect(t@),
{
    match match_uint_after(t, "z-") {
        Some(v) => {
            if v <= 2147483647 {
                return Some(TokenEffect::SetZIndex(v as i32));
            } else {
                return None;
            }
        },
        None => {},
    }
    match match_uint_after(t, "-z-") {
        Some(v) => {
            if v <= 2147483647 {
                return Some(TokenEffect::SetZIndex(-(v as i32)));
            } else {
                return None;
            }
        },
        None => {},
    }
    None
}

/// The bare-count grid template token `grid-cols-<uint>`, meaning that
/// many equal automatic tracks; the count must fit the track repeat range.
pub open spec fn grid_count_effect(t: Seq<char>) -> Option<TokenEffect> {
    match uint_after(t, "grid-cols-"@) {
        Some(v) => if v <= u16::MAX as u64 {
            Some(TokenEffect::GridAutoColumns(v as u16))
        } else {
            None
        },
        None => None,
    }
}

fn classify_grid_count(t: &str) -> (r: Option<TokenEffect>)
    ensures
        r == grid_count_effect(t@),
{
    match match_uint_after(t, "grid-cols-") {
        Some(v) => {
            if v <= 65535 {
                Some(TokenEffect::GridAutoColumns(v as u16))
            } else {
                None
            }
        },
        None => None,
    }
}

/// A single token's effect, if any rule matches it. Rules are anchored
/// and pairwise disjoint, so at most one can match.
pub open spec fn classify_spec(t: Seq<char>) -> Option<TokenEffect> {
    match layout_effect(t) {
        Some(e) => Some(e),
        None => match justify_effect(t) {
            Some(e) => Some(e),
            None => match align_effect(t) {
                Some(e) => Some(e),
                None => match place_effect(t) {
                    Some(e) => Some(e),
                    None => match misc_literal_effect(t) {
                        Some(e) => Some(e),
                        None => match length_effect(t) {
                            Some(e) => Some(e),
                            None => match border_width_effect(t) {
                                Some(e) => Some(e),
                                None => match color_effect(t) {
                                    Some(e) => Some(e),
                                    None => match pad_margin_effect(t) {
                                        Some(e) => Some(e),
                                        None => match z_effect(t) {
                                            Some(e) => Some(e),
                                            None => grid_count_effect(t),
                                        },
                                    },
                                },
                            },
                        },
                    },
                },
            },
        },
    }
}

/// Matches one token against every rule but the bracketed grid list.
fn classify(t: &str) -> (r: Option<TokenEffect>)
    ensures
        r == classify_spec(t@),
{
    let r = classify_layout(t);
    if r.is_some() {
        return r;
    }
    let r = classify_justify(t);
    if r.is_some() {
        return r;
    }
    let r = classify_align(t);
    if r.is_some() {
        return r;
    }
    let r = classify_place(t);
    if r.is_some() {
        return r;
    }
    let r = classify_misc_literal(t);
    if r.is_some() {
        return r;
    }
    let r = classify_length(t);
    if r.is_some() {
        return r;
    }
    let r = classify_border_width(t);
    if r.is_some() {
        return r;
    }
    let r = classify_color(t);
    if r.is_some() {
        return r;
    }
    let r = classify_pad_margin(t);
    if r.is_some() {
        return r;
    }
    let r = classify_z(t);
    if r.is_some() {
        return r;
    }
    classify_grid_count(t)
}

/// Overwrites exactly the edges the update names, leaving the others.
pub open spec fn apply_edges(r: EdgeRect, u: EdgeUpdate) -> EdgeRect {
    EdgeRect {
        left: match u.left {
            Some(v) => v,
            None => r.left,
        },
        right: match u.right {
            Some(v) => v,
            None => r.right,
        },
        top: match u.top {
            Some(v) => v,
            None => r.top,
        },
        bottom: match u.bottom {
            Some(v) => v,
            None => r.bottom,
        },
    }
}

fn apply_edges_exec(r: EdgeRect, u: EdgeUpdate) -> (res: EdgeRect)
    ensures
        res == apply_edges(r, u),
{
    EdgeRect {
        left: match u.left {
            Some(v) => v,
            None => r.left,
        },
        right: match u.right {
            Some(v) => v,
            None => r.right,
        },
        top: match u.top {
            Some(v) => v,
            None => r.top,
        },
        bottom: match u.bottom {
            Some(v) => v,
            None => r.bottom,
        },
    }
}

/// The style record after one effect: exactly the named field (or pair of
/// fields, or named edges) changes.
pub open spec fn apply_effect_spec(s: StyleV, e: TokenEffect) -> StyleV {
    match e {
        TokenEffect::SetVisibility(v) => StyleV { visibility: v, ..s },
        TokenEffect::SetPosition(v) => StyleV { position: v, ..s },
        TokenEffect::SetDisplay(v) => StyleV { display: v, ..s },
        TokenEffect::SetFlexDirection(v) => StyleV { flex_direction: v, ..s },
        TokenEffect::SetJustifyContent(v) => StyleV { justify_content: v, ..s },
        TokenEffect::SetJustifyItems(v) => StyleV { justify_items: v, ..s },
        TokenEffect::SetJustifySelf(v) => StyleV { justify_self: v, ..s },
        TokenEffect::SetAlignContent(v) => StyleV { align_content: v, ..s },
        TokenEffect::SetAlignItems(v) => StyleV { align_items: v, ..s },
        TokenEffect::SetAlignSelf(v) => StyleV { align_self: v, ..s },
        TokenEffect::PlaceContent(a, j) => StyleV { align_content: a, justify_content: j, ..s },
        TokenEffect::PlaceItems(a, j) => StyleV { align_items: a, justify_items: j, ..s },
        TokenEffect::PlaceSelf(a, j) => StyleV { align_self: a, justify_self: j, ..s },
        TokenEffect::SetWidth(v) => StyleV { width: v, ..s },
        TokenEffect::SetMinWidth(v) => StyleV { min_width: v, ..s },
        TokenEffect::SetMaxWidth(v) => StyleV { max_width: v, ..s },
        TokenEffect::SetHeight(v) => StyleV { height: v, ..s },
        TokenEffect::SetMinHeight(v) => StyleV { min_height: v, ..s },
        TokenEffect::SetMaxHeight(v) => StyleV { max_height: v, ..s },
        TokenEffect::SetSize(w, h) => StyleV { width: w, height: h, ..s },
        TokenEffect::SetBorderColor(c) => StyleV { border_color: c, ..s },
        TokenEffect::SetBackgroundColor(c) => StyleV { background_color: c, ..s },
        TokenEffect::SetTextColor(c) => StyleV { text_color: c, ..s },
        TokenEffect::SetBorder(u) => StyleV { border: apply_edges(s.border, u), ..s },
        TokenEffect::SetPadding(u) => StyleV { padding: apply_edges(s.padding, u), ..s },
        TokenEffect::SetMargin(u) => StyleV { margin: apply_edges(s.margin, u), ..s },
        TokenEffect::SetZIndex(z) => StyleV { z_index: z, ..s },
        TokenEffect::GridAutoColumns(n) => StyleV {
            grid_template_columns: Seq::new(n as nat, |k: int| GridTrack::Auto),
            ..s
        },
    }
}

/// Applies one effect to the style record in place.
#[verifier::rlimit(100)]
fn apply_effect(style: &mut Style, e: TokenEffect)
    ensures
        final (style)@ == apply_effect_spec(old(style)@, e),
{
    match e {
        TokenEffect::SetVisibility(v) => {
            style.visibility = v;
        },
        TokenEffect::SetPosition(v) => {
            style.position = v;
        },
        TokenEffect::SetDisplay(v) => {
            style.display = v;
        },
        TokenEffect::SetFlexDirection(v) => {
            style.flex_direction = v;
        },
        TokenEffect::SetJustifyContent(v) => {
            style.justify_content = v;
        },
        TokenEffect::SetJustifyItems(v) => {
            style.justify_items = v;
        },
        TokenEffect::SetJustifySelf(v) => {
            style.justify_self = v;
        },
        TokenEffect::SetAlignContent(v) => {
            style.align_content = v;
        },
        TokenEffect::SetAlignItems(v) => {
            style.align_items = v;
        },
        TokenEffect::SetAlignSelf(v) => {
            style.align_self = v;
        },
        TokenEffect::PlaceContent(a, j) => {
            style.align_content = a;
            style.justify_content = j;
        },
        TokenEffect::PlaceItems(a, j) => {
            style.align_items = a;
            style.justify_items = j;
        },
        TokenEffect::PlaceSelf(a, j) => {
            style.align_self = a;
            style.justify_self = j;
        },
        TokenEffect::SetWidth(v) => {
            style.width = v;
        },
        TokenEffect::SetMinWidth(v) => {
            style.min_width = v;
        },
        TokenEffect::SetMaxWidth(v) => {
            style.max_width = v;
        },
        TokenEffect::SetHeight(v) => {
            style.height = v;
        },
        TokenEffect::SetMinHeight(v) => {
            style.min_height = v;
        },
        TokenEffect::SetMaxHeight(v) => {
            style.max_height = v;
        },
        TokenEffect::SetSize(w, h) => {
            style.width = w;
            style.height = h;
        },
        TokenEffect::SetBorderColor(c) => {
            style.border_color = c;
        },
        TokenEffect::SetBackgroundColor(c) => {
            style.background_color = c;
        },
        TokenEffect::SetTextColor(c) => {
            style.text_color = c;
        },
        TokenEffect::SetBorder(u) => {
            style.border = apply_edges_exec(style.border, u);
        },
        TokenEffect::SetPadding(u) => {
            style.padding = apply_edges_exec(style.padding, u);
        },
        TokenEffect::SetMargin(u) => {
            style.margin = apply_edges_exec(style.margin, u);
        },
        TokenEffect::SetZIndex(z) => {
            style.z_index = z;
        },
        TokenEffect::GridAutoColumns(n) => {
            let count = n as usize;
            let mut v: Vec<GridTrack> = Vec::new();
            let mut k: usize = 0;
            while k < count
                invariant
                    k <= count,
                    v@.len() == k,
                    forall|j: int| 0 <= j < k ==> v@[j] == GridTrack::Auto,
                decreases count - k,
            {
                v.push(GridTrack::Auto);
                k += 1;
            }
            style.grid_template_columns = v;
            proof {
                assert(style@.grid_template_columns =~= apply_effect_spec(
                    old(style)@,
                    e,
                ).grid_template_columns);
            }
        },
    }
}

/// The style record after one token: the effect of a matching rule, the
/// bracketed grid list, or no change for an unsupported token.
pub open spec fn apply_token_spec(s: StyleV, t: Seq<char>) -> StyleV {
    match classify_spec(t) {
        Some(e) => apply_effect_spec(s, e),
        None => match grid_list_of(t) {
            Some(l) => StyleV { grid_template_columns: l, ..s },
            None => s,
        },
    }
}

/// Whether any grammar rule matches the token.
pub open spec fn token_recognized(t: Seq<char>) -> bool {
    classify_spec(t) is Some || grid_list_of(t) is Some
}

/// Applies one token to the style record; reports whether it matched.
fn apply_token(style: &mut Style, tok: &str) -> (matched: bool)
    ensures
        final (style)@ == apply_token_spec(old(style)@, tok@),
        matched == token_recognized(tok@),
{
    match classify(tok) {
        Some(e) => {
            apply_effect(style, e);
            true
        },
        None => {
            match match_grid_list(tok) {
                Some(v) => {
                    style.grid_template_columns = v;
                    true
                },
                None => false,
            }
        },
    }
}

/// The style record a token sequence resolves to: the defaults, then each
/// token applied in order, so a later token wins any conflict.
pub open spec fn resolve_tokens(toks: Seq<Seq<char>>) -> StyleV
    decreases toks.len(),
{
    if toks.len() == 0 {
        default_style()
    } else {
        apply_token_spec(resolve_tokens(toks.drop_last()), toks.last())
    }
}

/// The style record a whole class string resolves to.
pub open spec fn resolve_spec(s: Seq<char>) -> StyleV {
    resolve_tokens(split_ws(s))
}

/// The tokens of a class string that match no grammar rule, in order.
/// They never abort resolution; they are reported and dropped.
pub open spec fn unknown_tokens(s: Seq<char>) -> Seq<Seq<char>> {
    split_ws(s).filter(|t: Seq<char>| !token_recognized(t))
}

/// Splits a class string into its whitespace-separated tokens.
#[verifier::loop_isolation(false)]
pub fn split_tokens(s: &str) -> (toks: Vec<String>)
    ensures
        toks.deep_view() == split_ws(s@),
{
    let n = s.unicode_len();
    let mut toks: Vec<String> = Vec::new();
    let mut start: usize = 0;
    let mut in_tok: bool = false;
    let mut i: usize = 0;
    proof {
        assert(s@.skip(0) =~= s@);
        assert(toks.deep_view() =~= Seq::<Seq<char>>::empty());
        assert(Seq::<Seq<char>>::empty() + split_ws_acc(s@, Seq::<char>::empty()) =~= split_ws_acc(
            s@,
            Seq::<char>::empty(),
        ));
    }
    while i < n
        invariant
            i <= n,
            in_tok ==> start < i,
            split_ws(s@) == toks.deep_view() + split_ws_acc(
                s@.skip(i as int),
                if in_tok {
                    s@.subrange(start as int, i as int)
                } else {
                    Seq::<char>::empty()
                },
            ),
        decreases n - i,
    {
        let ghost cur = if in_tok {
            s@.subrange(start as int, i as int)
        } else {
            Seq::<char>::empty()
        };
        proof {
            assert(s@.skip(i as int)[0] == s@[i as int]);
            assert(s@.skip(i as int).skip(1) =~= s@.skip(i + 1));
        }
        let c = s.get_char(i);
        if c == ' ' || c == '\t' || c == '\n' || c == '\r' || c == '\x0c' {
            if in_tok {
                let tokstr = s.substring_char(start, i).to_owned();
                let ghost prev = toks.deep_view();
                toks.push(tokstr);
                proof {
                    assert(toks.deep_view() =~= prev.push(cur));
                    assert(prev + (seq![cur] + split_ws_acc(s@.skip(i + 1), Seq::<char>::empty()))
                        =~= toks.deep_view() + split_ws_acc(s@.skip(i + 1), Seq::<char>::empty()));
                }
                in_tok = false;
            }
        } else {
            if !in_tok {
                start = i;
                in_tok = true;
                proof {
                    assert(s@.subrange(start as int, i + 1) =~= Seq::<char>::empty().push(
                        s@[i as int],
                    ));
                }
            } else {
                proof {
                    assert(s@.subrange(start as int, i + 1) =~= cur.push(s@[i as int]));
                }
            }
        }
        i += 1;
    }
    proof {
        assert(s@.skip(n as int) =~= Seq::<char>::empty());
    }
    if in_tok {
        let tokstr = s.substring_char(start, n).to_owned();
        let ghost prev = toks.deep_view();
        let ghost cur = s@.subrange(start as int, n as int);
        toks.push(tokstr);
        proof {
            assert(toks.deep_view() =~= prev.push(cur));
            assert(prev + seq![cur] =~= toks.deep_view());
        }
    } else {
        proof {
            assert(toks.deep_view() + Seq::<Seq<char>>::empty() =~= toks.deep_view());
        }
    }
    toks
}

impl Style {
    /// Resolves a class string to a style record together with the list
    /// of unsupported tokens, which are reported and otherwise ignored.
    pub fn parse_with_warnings(classes: &str) -> (r: (Style, Vec<String>))
        ensures
            r.0@ == resolve_spec(classes@),
            r.1.deep_view() == unknown_tokens(classes@),
    {
        let toks = split_tokens(classes);
        let ghost tv = toks.deep_view();
        let mut style = Style::default();
        let mut warnings: Vec<String> = Vec::new();
        let mut i: usize = 0;
        proof {
            assert(tv.take(0) =~= Seq::<Seq<char>>::empty());
            reveal(Seq::filter);
            assert(tv.take(0).filter(|t: Seq<char>| !token_recognized(t)) =~= Seq::<
                Seq<char>,
            >::empty());
            assert(warnings.deep_view() =~= Seq::<Seq<char>>::empty());
        }
        while i < toks.len()
            invariant
                i <= toks.len(),
                tv == toks.deep_view(),
                style@ == resolve_tokens(tv.take(i as int)),
                warnings.deep_view() == tv.take(i as int).filter(
                    |t: Seq<char>| !token_recognized(t),
                ),
            decreases toks.len() - i,
        {
            let ghost prev_w = warnings.deep_view();
            proof {
                assert(tv.take(i + 1).drop_last() =~= tv.take(i as int));
                assert(tv.take(i + 1).last() == tv[i as int]);
                reveal(Seq::filter);
            }
            let tok = &toks[i];
            proof {
                assert(tok@ == tv[i as int]);
            }
            let matched = apply_token(&mut style, tok.as_str());
            if !matched {
                warnings.push(tok.clone());
                proof {
                    assert(warnings.deep_view() =~= prev_w.push(tv[i as int]));
                    assert(tv.take(i + 1).filter(|t: Seq<char>| !token_recognized(t)) =~= prev_w.push(
                        tv[i as int],
                    ));
                }
            } else {
                proof {
                    assert(tv.take(i + 1).filter(|t: Seq<char>| !token_recognized(t)) =~= prev_w);
                }
            }
            i += 1;
        }
        proof {
            assert(tv.take(toks.len() as int) =~= tv);
        }
        (style, warnings)
    }

    /// Resolves a class string to a style record, dropping the warning
    /// list. Resolution is a pure function of the token sequence: it is
    /// deterministic and never fails, whatever the input.
    pub fn parse(classes: &str) -> (style: Style)
        ensures
            style@ == resolve_spec(classes@),
    {
        let (style, _warnings) = Style::parse_with_warnings(classes);
        style
    }
}

/// Resolution is deterministic: two resolutions of the same class string
/// yield the same style record, field for field.
pub proof fn lemma_resolve_deterministic(s1: StyleV, s2: StyleV, classes: Seq<char>)
    requires
        s1 == resolve_spec(classes),
        s2 == resolve_spec(classes),
    ensures
        s1 == s2,
{
}

/// An empty class string resolves to the default style record: every
/// field of the result is render-safe without any token at all.
pub proof fn lemma_empty_resolves_to_default()
    ensures
        resolve_spec(Seq::empty()) == default_style(),
{
    assert(split_ws(Seq::<char>::empty()) =~= Seq::<Seq<char>>::empty());
}

/// Resolution is a pure function of the token sequence: two class
/// strings that split into the same tokens resolve to the same style.
pub proof fn lemma_resolve_depends_on_tokens(c1: Seq<char>, c2: Seq<char>)
    requires
        split_ws(c1) == split_ws(c2),
    ensures
        resolve_spec(c1) == resolve_spec(c2),
{
}

} // verus!

