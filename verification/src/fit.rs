//! Fitting a title and an artist into a bounded number of characters.
//!
//! Lengths are counted in characters, never in bytes, so a cut always falls
//! between two characters. Where both sides are present they are joined by
//! `" | "`; where the joined text is too long, each side gives up a share of
//! the excess that is proportional to its length.

use vstd::arithmetic::div_mod::{lemma_fundamental_div_mod, lemma_fundamental_div_mod_converse};
use vstd::prelude::*;

verus! {

/// The text that stands between title and artist: a space, a bar, a space.
pub open spec fn separator() -> Seq<char> {
    seq![' ', '|', ' ']
}

/// Title and artist with the separator between them.
pub open spec fn joined(title: Seq<char>, artist: Seq<char>) -> Seq<char> {
    title + separator() + artist
}

/// The first `n` characters of `s`, or all of `s` where it has no more.
pub open spec fn prefix(s: Seq<char>, n: int) -> Seq<char> {
    if n <= 0 {
        Seq::empty()
    } else if n >= s.len() {
        s
    } else {
        s.subrange(0, n)
    }
}

/// `n / d` rounded up, for a positive `d`.
pub open spec fn ceil_div(n: int, d: int) -> int {
    (n + d - 1) / d
}

/// By how many characters the joined text of a title of `t` and an artist of
/// `a` characters exceeds `max`.
pub open spec fn overshoot(t: int, a: int, max: int) -> int {
    t + a + 3 - max
}

/// The share of the overshoot that falls on a side of `len` characters: the
/// overshoot times `len` over the characters of both sides, rounded up.
pub open spec fn trim_share(len: int, t: int, a: int, max: int) -> int {
    ceil_div(overshoot(t, a, max) * len, t + a)
}

/// How many characters title and artist lose, in that order.
///
/// Each side starts with its proportional share. Where one share is smaller
/// than the other, is at most 3, and both shares together are less than the
/// other side's length, the other side takes both and the first loses
/// nothing. Both sides are judged by their proportional shares, so at most
/// one of them is spared.
pub open spec fn trims(t: int, a: int, max: int) -> (int, int) {
    let tt = trim_share(t, t, a, max);
    let ta = trim_share(a, t, a, max);
    if ta < tt && ta <= 3 && tt + ta < t {
        (tt + ta, 0)
    } else if tt < ta && tt <= 3 && ta + tt < a {
        (0, ta + tt)
    } else {
        (tt, ta)
    }
}

/// What is left of `len` characters after `trim` are taken, but never less
/// than one character and never more than there were.
pub open spec fn kept(len: int, trim: int) -> int {
    if len - trim < 1 {
        1
    } else if len - trim > len {
        len
    } else {
        len - trim
    }
}

/// The text shown for a title and an artist within `max` characters.
pub open spec fn fitted(title: Seq<char>, artist: Seq<char>, max: int) -> Seq<char> {
    let t = title.len() as int;
    let a = artist.len() as int;
    if t == 0 && a == 0 {
        Seq::empty()
    } else if t == 0 {
        prefix(artist, max)
    } else if a == 0 {
        prefix(title, max)
    } else if t + 3 + a <= max {
        joined(title, artist)
    } else {
        joined(
            prefix(title, kept(t, trims(t, a, max).0)),
            prefix(artist, kept(a, trims(t, a, max).1)),
        )
    }
}

/// Adding `j` whole multiples of `d` to a numerator adds `j` to the quotient.
proof fn lemma_div_add_multiple(x: int, j: int, d: int)
    requires
        d > 0,
    ensures
        (x + j * d) / d == x / d + j,
{
    lemma_fundamental_div_mod(x, d);
    assert(x + j * d == (x / d + j) * d + x % d) by (nonlinear_arith)
        requires
            x == d * (x / d) + x % d,
    ;
    lemma_fundamental_div_mod_converse(x + j * d, d, x / d + j, x % d);
}

/// Rounding `-y / d` up is rounding `y / d` down, negated.
proof fn lemma_ceil_div_neg(y: int, d: int)
    requires
        d > 0,
    ensures
        ceil_div(-y, d) == -(y / d),
{
    lemma_fundamental_div_mod(y, d);
    let q = y / d;
    let r = y % d;
    assert(-y + d - 1 == (-q) * d + (d - 1 - r)) by (nonlinear_arith)
        requires
            y == d * q + r,
    ;
    lemma_fundamental_div_mod_converse(-y + d - 1, d, -q, d - 1 - r);
}

/// A share computed from the distance of `max` to 3 is the share itself.
proof fn lemma_trim_share_split(len: int, t: int, a: int, max: int)
    requires
        t + a > 0,
    ensures
        trim_share(len, t, a, max) == len + ceil_div((3 - max) * len, t + a),
{
    let s = t + a;
    assert(overshoot(t, a, max) * len + s - 1 == ((3 - max) * len + s - 1) + len * s)
        by (nonlinear_arith)
        requires
            s == t + a,
            overshoot(t, a, max) == t + a + 3 - max,
    ;
    lemma_div_add_multiple((3 - max) * len + s - 1, len, s);
}

/// A proportional share is never negative while the text is over budget, and
/// never more than the side's length once `max` leaves room for the separator.
proof fn lemma_trim_share_bounds(len: int, t: int, a: int, max: int)
    requires
        0 <= len <= t + a,
        t + a > 0,
        0 <= max,
        overshoot(t, a, max) > 0,
    ensures
        0 <= trim_share(len, t, a, max),
        max >= 3 ==> trim_share(len, t, a, max) <= len,
        max < 3 ==> len <= trim_share(len, t, a, max) <= len + 3,
{
    let s = t + a;
    lemma_trim_share_split(len, t, a, max);
    let x = (3 - max) * len;
    if max >= 3 {
        let y = (max - 3) * len;
        assert(x == -y) by (nonlinear_arith)
            requires
                x == (3 - max) * len,
                y == (max - 3) * len,
        ;
        lemma_ceil_div_neg(y, s);
        lemma_fundamental_div_mod(y, s);
        assert(0 <= y < s * len || len == 0) by (nonlinear_arith)
            requires
                y == (max - 3) * len,
                0 <= max - 3 < s,
                0 <= len,
        ;
        assert(0 <= y / s <= len) by (nonlinear_arith)
            requires
                y == s * (y / s) + y % s,
                0 <= y % s < s,
                0 <= y,
                y < s * len || len == 0,
                y == 0 || len > 0,
                s > 0,
                len >= 0,
        ;
    } else {
        assert(0 <= x <= 3 * len) by (nonlinear_arith)
            requires
                x == (3 - max) * len,
                0 < 3 - max <= 3,
                0 <= len,
        ;
        lemma_fundamental_div_mod(x + s - 1, s);
        let q = (x + s - 1) / s;
        assert(0 <= q <= 3) by (nonlinear_arith)
            requires
                x + s - 1 == s * q + (x + s - 1) % s,
                0 <= (x + s - 1) % s < s,
                0 <= x <= 3 * len,
                len <= s,
                s > 0,
        ;
    }
}

/// Computes a side's proportional share without forming the product of the
/// overshoot and the length, which need not fit in 128 bits.
fn share(len: usize, t: usize, a: usize, max: usize) -> (trim: u128)
    requires
        len == t || len == a,
        t >= 1,
        a >= 1,
        t + 3 + a > max,
    ensures
        trim == trim_share(len as int, t as int, a as int, max as int),
        trim <= len + 3,
{
    let sum: u128 = t as u128 + a as u128;
    let wide: u128 = len as u128;
    proof {
        lemma_trim_share_split(len as int, t as int, a as int, max as int);
        lemma_trim_share_bounds(len as int, t as int, a as int, max as int);
    }
    if max < 3 {
        let k: u128 = (3 - max) as u128;
        assert(k * wide <= 3 * wide) by (nonlinear_arith)
            requires
                0 <= k <= 3,
                0 <= wide,
        ;
        let extra: u128 = (k * wide + sum - 1) / sum;
        wide + extra
    } else {
        let d: u128 = (max - 3) as u128;
        assert(d * wide <= 0xffff_ffff_ffff_ffff * 0xffff_ffff_ffff_ffff) by (nonlinear_arith)
            requires
                0 <= d <= 0xffff_ffff_ffff_ffff,
                0 <= wide <= 0xffff_ffff_ffff_ffff,
        ;
        let back: u128 = d * wide / sum;
        proof {
            let y = (max - 3) * len;
            assert((3 - max) * len == -y) by (nonlinear_arith)
                requires
                    y == (max - 3) * len,
            ;
            lemma_ceil_div_neg(y, sum as int);
        }
        wide - back
    }
}

/// How many characters of a title of `t` and an artist of `a` characters stay
/// when their joined text is longer than `max`.
fn keep_lengths(t: usize, a: usize, max: usize) -> (keep: (usize, usize))
    requires
        t >= 1,
        a >= 1,
        t + 3 + a > max,
    ensures
        keep.0 == kept(t as int, trims(t as int, a as int, max as int).0),
        keep.1 == kept(a as int, trims(t as int, a as int, max as int).1),
        1 <= keep.0 <= t,
        1 <= keep.1 <= a,
{
    let tt: u128 = share(t, t, a, max);
    let ta: u128 = share(a, t, a, max);
    proof {
        lemma_trim_share_bounds(t as int, t as int, a as int, max as int);
        lemma_trim_share_bounds(a as int, t as int, a as int, max as int);
    }
    let mut trim_t: u128 = tt;
    let mut trim_a: u128 = ta;
    if ta < tt && ta <= 3 && tt + ta < t as u128 {
        trim_t = tt + ta;
        trim_a = 0;
    } else if tt < ta && tt <= 3 && ta + tt < a as u128 {
        trim_t = 0;
        trim_a = ta + tt;
    }
    let keep_t: usize = if trim_t >= t as u128 {
        1
    } else {
        t - trim_t as usize
    };
    let keep_a: usize = if trim_a >= a as u128 {
        1
    } else {
        a - trim_a as usize
    };
    (keep_t, keep_a)
}

/// Truncates `s` to at most `max` characters.
pub fn truncate_chars(s: &str, max: usize) -> (out: String)
    ensures
        out@ == prefix(s@, max as int),
{
    let len = s.unicode_len();
    if max >= len {
        String::from_str(s)
    } else {
        let head = s.substring_char(0, max);
        assert(head@ =~= prefix(s@, max as int));
        String::from_str(head)
    }
}

/// Joins two texts with the separator between them.
fn join(head: &str, tail: &str) -> (out: String)
    ensures
        out@ == joined(head@, tail@),
{
    proof {
        reveal_strlit(" | ");
    }
    assert(" | "@ =~= separator());
    String::from_str(head).concat(" | ").concat(tail)
}

/// Produces the text to show for `title` and `artist` in at most `max`
/// characters, as far as that can be done with both sides still visible.
///
/// With nothing to show the text is empty; with one side only it is that side
/// cut to `max` characters; with both it is the joined text where that fits,
/// and else both sides shortened by their `trims` and joined.
pub fn fit(title: &str, artist: &str, max: usize) -> (out: String)
    ensures
        out@ == fitted(title@, artist@, max as int),
{
    let t = title.unicode_len();
    let a = artist.unicode_len();
    if t == 0 && a == 0 {
        String::new()
    } else if t == 0 {
        truncate_chars(artist, max)
    } else if a == 0 {
        truncate_chars(title, max)
    } else if t as u128 + 3 + a as u128 <= max as u128 {
        join(title, artist)
    } else {
        let (keep_t, keep_a) = keep_lengths(t, a, max);
        let head = title.substring_char(0, keep_t);
        let tail = artist.substring_char(0, keep_a);
        assert(head@ =~= prefix(title@, keep_t as int));
        assert(tail@ =~= prefix(artist@, keep_a as int));
        join(head, tail)
    }
}

/// Rounding up never falls short: `ceil_div(n, d)` times `d` is at least `n`.
proof fn lemma_ceil_div_covers(n: int, d: int)
    requires
        d > 0,
    ensures
        ceil_div(n, d) * d >= n,
{
    lemma_fundamental_div_mod(n + d - 1, d);
    let q = (n + d - 1) / d;
    assert(q * d >= n) by (nonlinear_arith)
        requires
            n + d - 1 == d * q + (n + d - 1) % d,
            0 <= (n + d - 1) % d < d,
    ;
}

/// The two sides together give up at least the whole overshoot.
proof fn lemma_trims_cover_overshoot(t: int, a: int, max: int)
    requires
        t >= 1,
        a >= 1,
    ensures
        trims(t, a, max).0 + trims(t, a, max).1 >= overshoot(t, a, max),
{
    let s = t + a;
    let o = overshoot(t, a, max);
    let tt = trim_share(t, t, a, max);
    let ta = trim_share(a, t, a, max);
    lemma_ceil_div_covers(o * t, s);
    lemma_ceil_div_covers(o * a, s);
    assert(tt + ta >= o) by (nonlinear_arith)
        requires
            tt * s >= o * t,
            ta * s >= o * a,
            s == t + a,
            s > 0,
    ;
}

/// With at most one side present, the text is that side cut to `max`
/// characters: it is no longer than `max`, and it is made of the side's own
/// leading characters, each of them whole.
pub proof fn lemma_fit_single_side(title: Seq<char>, artist: Seq<char>, max: int)
    requires
        title.len() == 0 || artist.len() == 0,
        0 <= max,
    ensures
        ({
            let side = if title.len() == 0 { artist } else { title };
            let out = fitted(title, artist, max);
            &&& out == prefix(side, max)
            &&& out.len() <= max
            &&& out.len() <= side.len()
            &&& out.len() == max || out == side
            &&& forall|i: int| 0 <= i < out.len() ==> out[i] == side[i]
        }),
{
}

/// With both sides present and room for the joined text, the text is the
/// joined text, unchanged.
pub proof fn lemma_fit_within_budget(title: Seq<char>, artist: Seq<char>, max: int)
    requires
        title.len() > 0,
        artist.len() > 0,
        joined(title, artist).len() <= max,
    ensures
        fitted(title, artist, max) == joined(title, artist),
{
}

/// With both sides present and the joined text too long, both sides stay
/// visible: the text is a non-empty beginning of the title, the separator,
/// and a non-empty beginning of the artist, and it is no longer than the
/// joined text was.
pub proof fn lemma_fit_over_budget(title: Seq<char>, artist: Seq<char>, max: int)
    requires
        title.len() > 0,
        artist.len() > 0,
        0 <= max < joined(title, artist).len(),
    ensures
        ({
            let t = title.len() as int;
            let a = artist.len() as int;
            let keep_t = kept(t, trims(t, a, max).0);
            let keep_a = kept(a, trims(t, a, max).1);
            let out = fitted(title, artist, max);
            &&& 1 <= keep_t <= t
            &&& 1 <= keep_a <= a
            &&& out == joined(title.subrange(0, keep_t), artist.subrange(0, keep_a))
            &&& out.len() == keep_t + 3 + keep_a
            &&& out.len() <= joined(title, artist).len()
        }),
{
    let t = title.len() as int;
    let a = artist.len() as int;
    lemma_trim_share_bounds(t, t, a, max);
    lemma_trim_share_bounds(a, t, a, max);
    let keep_t = kept(t, trims(t, a, max).0);
    let keep_a = kept(a, trims(t, a, max).1);
    assert(prefix(title, keep_t) =~= title.subrange(0, keep_t));
    assert(prefix(artist, keep_a) =~= artist.subrange(0, keep_a));
}

/// The text never exceeds the budget by much. Once `max` has room for the
/// separator, the text is at most two characters longer than `max`, and not
/// longer at all where each side keeps exactly what its trim leaves it.
pub proof fn lemma_fit_near_budget(title: Seq<char>, artist: Seq<char>, max: int)
    requires
        title.len() > 0,
        artist.len() > 0,
        3 <= max < joined(title, artist).len(),
    ensures
        fitted(title, artist, max).len() <= max + 2,
        trims(title.len() as int, artist.len() as int, max).0 < title.len() && trims(
            title.len() as int,
            artist.len() as int,
            max,
        ).1 < artist.len() ==> fitted(title, artist, max).len() <= max,
{
    let t = title.len() as int;
    let a = artist.len() as int;
    lemma_fit_over_budget(title, artist, max);
    lemma_trim_share_bounds(t, t, a, max);
    lemma_trim_share_bounds(a, t, a, max);
    lemma_trims_cover_overshoot(t, a, max);
}

/// The text depends on nothing but the title, the artist and `max`: the same
/// three always give the same text.
pub proof fn lemma_fit_is_a_function(
    title1: Seq<char>,
    artist1: Seq<char>,
    max1: int,
    title2: Seq<char>,
    artist2: Seq<char>,
    max2: int,
)
    requires
        title1 =~= title2,
        artist1 =~= artist2,
        max1 == max2,
    ensures
        fitted(title1, artist1, max1) == fitted(title2, artist2, max2),
{
}

} // verus!
