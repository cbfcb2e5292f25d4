//! Lines of a text, as a rope counts them.
//!
//! A line ends after one of `\n`, `\u{0B}`, `\u{0C}`, `\r`, `\u{85}`,
//! `\u{2028}` and `\u{2029}`; `\r\n` is a single line break. A text with `n`
//! line breaks has `n + 1` lines, the last one possibly empty.

use vstd::prelude::*;
use crate::text::{byte_len, byte_offset, lemma_byte_offset_monotone};

verus! {

/// Whether a line break ends at char index `i` (inclusive) of `t`. The `\r` of
/// a `\r\n` pair ends no line: the pair's `\n` does.
pub open spec fn is_line_break_at(t: Seq<char>, i: int) -> bool {
    let c = t[i];
    ||| c == '\n'
    ||| c == '\u{0B}'
    ||| c == '\u{0C}'
    ||| c == '\u{85}'
    ||| c == '\u{2028}'
    ||| c == '\u{2029}'
    ||| (c == '\r' && !(i + 1 < t.len() && t[i + 1] == '\n'))
}

/// Number of line breaks among the first `k` chars of `t`.
pub open spec fn breaks_before(t: Seq<char>, k: int) -> nat
    decreases k,
{
    if k <= 0 {
        0
    } else {
        breaks_before(t, k - 1) + if is_line_break_at(t, k - 1) {
            1nat
        } else {
            0nat
        }
    }
}

/// Number of lines of `t`.
pub open spec fn line_count(t: Seq<char>) -> nat {
    breaks_before(t, t.len() as int) + 1
}

/// Index of the char whose encoding holds byte `b`, searching from char `k`;
/// the number of chars if `b` is past the last char.
pub open spec fn char_index_from(t: Seq<char>, b: int, k: int) -> int
    decreases t.len() - k,
{
    if k < 0 || k >= t.len() || b < byte_offset(t, k + 1) {
        k
    } else {
        char_index_from(t, b, k + 1)
    }
}

/// Index of the char whose encoding holds byte `b` of `t` (a byte in the middle
/// of a char belongs to that char); the number of chars for `b` at or past the
/// end.
pub open spec fn char_index_of_byte(t: Seq<char>, b: int) -> int {
    char_index_from(t, b, 0)
}

/// Line index of byte `b`: the line breaks before the char that holds it.
pub open spec fn line_of_byte(t: Seq<char>, b: int) -> nat {
    breaks_before(t, char_index_of_byte(t, b))
}

/// Whether char index `j` starts line `l`: `l` line breaks come before it and
/// it is the text's start or follows a line break.
pub open spec fn starts_line(t: Seq<char>, l: int, j: int) -> bool {
    &&& 0 <= j <= t.len()
    &&& breaks_before(t, j) == l
    &&& (j == 0 || is_line_break_at(t, j - 1))
}

/// First char index, from `j` on, that starts line `l`.
pub open spec fn line_start_from(t: Seq<char>, l: int, j: int) -> int
    decreases t.len() + 1 - j,
{
    if j < 0 || j > t.len() {
        t.len() as int
    } else if starts_line(t, l, j) {
        j
    } else {
        line_start_from(t, l, j + 1)
    }
}

/// Char index where line `l` starts.
pub open spec fn line_start_char(t: Seq<char>, l: int) -> int {
    line_start_from(t, l, 0)
}

/// Byte offset where line `l` starts; the byte length of `t` for the line
/// one past the last.
pub open spec fn line_start_byte(t: Seq<char>, l: int) -> nat {
    if l >= line_count(t) {
        byte_len(t)
    } else {
        byte_offset(t, line_start_char(t, l))
    }
}

/// Longer prefixes hold at least as many line breaks.
pub proof fn lemma_breaks_before_monotone(t: Seq<char>, i: int, j: int)
    requires
        i <= j,
    ensures
        breaks_before(t, i) <= breaks_before(t, j),
    decreases j - i,
{
    if i < j {
        lemma_breaks_before_monotone(t, i, j - 1);
    }
}

/// A text has no more line breaks than chars.
pub proof fn lemma_breaks_before_le(t: Seq<char>, k: int)
    requires
        0 <= k,
    ensures
        breaks_before(t, k) <= k,
    decreases k,
{
    if k > 0 {
        lemma_breaks_before_le(t, k - 1);
    }
}

/// The search for the char holding byte `b` ends within the text, at a
/// char that starts at or before `b`.
pub proof fn lemma_char_index_from(t: Seq<char>, b: int, k: int)
    requires
        0 <= k <= t.len(),
        byte_offset(t, k) <= b,
    ensures
        k <= char_index_from(t, b, k) <= t.len(),
        byte_offset(t, char_index_from(t, b, k)) <= b,
    decreases t.len() - k,
{
    if k < t.len() && b >= byte_offset(t, k + 1) {
        lemma_char_index_from(t, b, k + 1);
    }
}

/// The char holding byte `b` starts at or before `b`.
pub proof fn lemma_char_index_of_byte(t: Seq<char>, b: int)
    requires
        0 <= b,
    ensures
        0 <= char_index_of_byte(t, b) <= t.len(),
        byte_offset(t, char_index_of_byte(t, b)) <= b,
        line_of_byte(t, b) < line_count(t),
{
    assert(t.take(0) =~= Seq::<char>::empty());
    lemma_char_index_from(t, b, 0);
    lemma_breaks_before_monotone(t, char_index_of_byte(t, b), t.len() as int);
}

/// The last start of a line at or before char index `k`.
pub open spec fn last_line_start(t: Seq<char>, k: int) -> int
    decreases k,
{
    if k <= 0 || is_line_break_at(t, k - 1) {
        k
    } else {
        last_line_start(t, k - 1)
    }
}

proof fn lemma_last_line_start(t: Seq<char>, k: int)
    requires
        0 <= k <= t.len(),
    ensures
        0 <= last_line_start(t, k) <= k,
        starts_line(t, breaks_before(t, k) as int, last_line_start(t, k)),
    decreases k,
{
    if k > 0 && !is_line_break_at(t, k - 1) {
        lemma_last_line_start(t, k - 1);
    }
}

proof fn lemma_line_start_from(t: Seq<char>, l: int, j: int, w: int)
    requires
        0 <= j <= w,
        starts_line(t, l, w),
    ensures
        j <= line_start_from(t, l, j) <= w,
        starts_line(t, l, line_start_from(t, l, j)),
    decreases w - j,
{
    if !starts_line(t, l, j) {
        lemma_line_start_from(t, l, j + 1, w);
    }
}

/// The line that holds char `k` starts at or before `k`.
pub proof fn lemma_line_start_le(t: Seq<char>, k: int)
    requires
        0 <= k <= t.len(),
    ensures
        line_start_char(t, breaks_before(t, k) as int) <= k,
        starts_line(t, breaks_before(t, k) as int, line_start_char(t, breaks_before(t, k) as int)),
{
    lemma_last_line_start(t, k);
    lemma_line_start_from(t, breaks_before(t, k) as int, 0, last_line_start(t, k));
}

/// The line holding byte `b` starts at or before `b`.
pub proof fn lemma_line_start_byte_le(t: Seq<char>, b: int)
    requires
        0 <= b,
    ensures
        line_start_byte(t, line_of_byte(t, b) as int) <= b,
{
    lemma_char_index_of_byte(t, b);
    let k = char_index_of_byte(t, b);
    lemma_line_start_le(t, k);
    lemma_byte_offset_monotone(t, line_start_char(t, line_of_byte(t, b) as int), k);
}

/// Every line of a text starts within it.
pub proof fn lemma_line_start_byte_bound(t: Seq<char>, l: int)
    requires
        0 <= l,
    ensures
        line_start_byte(t, l) <= byte_len(t),
{
    lemma_byte_offset_monotone(t, 0, t.len() as int);
    if l < line_count(t) {
        lemma_line_start_from_bound(t, l, 0);
        lemma_byte_offset_monotone(t, line_start_char(t, l), t.len() as int);
    }
}

proof fn lemma_line_start_from_bound(t: Seq<char>, l: int, j: int)
    requires
        0 <= j,
    ensures
        0 <= line_start_from(t, l, j) <= t.len(),
    decreases t.len() + 1 - j,
{
    if j <= t.len() && !starts_line(t, l, j) {
        lemma_line_start_from_bound(t, l, j + 1);
    }
}

/// A byte before the end of the text lies within the char that holds it.
pub proof fn lemma_char_index_holds(t: Seq<char>, b: int, k: int)
    requires
        0 <= k <= t.len(),
        byte_offset(t, k) <= b < byte_len(t),
    ensures
        char_index_from(t, b, k) < t.len(),
        b < byte_offset(t, char_index_from(t, b, k) + 1),
    decreases t.len() - k,
{
    assert(t.take(t.len() as int) =~= t);
    if k < t.len() && b >= byte_offset(t, k + 1) {
        lemma_char_index_holds(t, b, k + 1);
    }
}

/// Every number of breaks up to the total is reached at some char index.
pub proof fn lemma_breaks_reached(t: Seq<char>, n: int, l: int)
    requires
        0 <= n,
        0 <= l <= breaks_before(t, n),
    ensures
        exists|k: int| 0 <= k <= n && #[trigger] breaks_before(t, k) == l,
    decreases n,
{
    if n > 0 && breaks_before(t, n - 1) >= l {
        lemma_breaks_reached(t, n - 1, l);
        let k = choose|k: int| 0 <= k <= n - 1 && #[trigger] breaks_before(t, k) == l;
        assert(breaks_before(t, k) == l);
    } else {
        assert(breaks_before(t, n) == l);
    }
}

/// Each line of a text starts where `line_start_char` says, with as many
/// line breaks before it as its index.
pub proof fn lemma_line_starts(t: Seq<char>, l: int)
    requires
        0 <= l < line_count(t),
    ensures
        starts_line(t, l, line_start_char(t, l)),
{
    lemma_breaks_reached(t, t.len() as int, l);
    let k = choose|k: int| 0 <= k <= t.len() && #[trigger] breaks_before(t, k) == l;
    lemma_line_start_le(t, k);
}

/// Every byte at or past the end belongs to no char.
pub proof fn lemma_char_index_at_end(t: Seq<char>, b: int, k: int)
    requires
        0 <= k <= t.len(),
        byte_len(t) <= b,
    ensures
        char_index_from(t, b, k) == t.len(),
    decreases t.len() - k,
{
    if k < t.len() {
        lemma_byte_offset_monotone(t, k + 1, t.len() as int);
        lemma_char_index_at_end(t, b, k + 1);
    }
}

} // verus!
