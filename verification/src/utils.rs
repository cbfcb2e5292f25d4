//! Conversions between byte offsets and line/column positions of a document
//! held in a rope.

use vstd::prelude::*;
use ropey::Rope;
use crate::lines::{
    breaks_before, char_index_of_byte, is_line_break_at, lemma_breaks_before_le, lemma_breaks_before_monotone,
    lemma_char_index_at_end, lemma_char_index_holds, lemma_char_index_of_byte, lemma_line_start_byte_bound,
    lemma_line_start_byte_le, lemma_line_starts, line_count, line_of_byte, line_start_byte, line_start_char,
};
use crate::protocol::Position;
use crate::text::{byte_len, byte_offset, lemma_byte_offset_monotone};

verus! {

/// The rope of the `ropey` crate, opaque here; `rope_text` names its chars.
#[verifier::external_type_specification]
#[verifier::external_body]
pub struct ExRope(ropey::Rope);

/// The chars a rope holds.
pub uninterp spec fn rope_text(r: Rope) -> Seq<char>;

/// `Rope::from_str`: a rope that holds the chars of `text`.
#[verifier::external_body]
pub(crate) fn rope_from_str(text: &str) -> (r: Rope)
    ensures
        rope_text(r) == text@,
{
    Rope::from_str(text)
}

/// `Rope::len_bytes`: the number of bytes of the rope's UTF-8 text.
#[verifier::external_body]
fn rope_len_bytes(rope: &Rope) -> (n: usize)
    ensures
        n == byte_len(rope_text(*rope)),
{
    rope.len_bytes()
}

/// `Rope::len_lines`: the number of line breaks plus one.
#[verifier::external_body]
fn rope_len_lines(rope: &Rope) -> (n: usize)
    ensures
        n == line_count(rope_text(*rope)),
{
    rope.len_lines()
}

/// `Rope::try_byte_to_line`: fails exactly for a byte index past the end;
/// otherwise the number of line breaks before the char that holds the byte.
#[verifier::external_body]
fn rope_try_byte_to_line(rope: &Rope, byte: usize) -> (r: Option<usize>)
    ensures
        r.is_some() == (byte <= byte_len(rope_text(*rope))),
        r matches Some(l) ==> l == line_of_byte(rope_text(*rope), byte as int),
{
    rope.try_byte_to_line(byte).ok()
}

/// `Rope::try_line_to_byte`: fails exactly for a line index past one after the
/// last line; otherwise the byte offset where the line starts (the byte length
/// for the line one past the last).
#[verifier::external_body]
fn rope_try_line_to_byte(rope: &Rope, line: usize) -> (r: Option<usize>)
    ensures
        r.is_some() == (line <= line_count(rope_text(*rope))),
        r matches Some(b) ==> b == line_start_byte(rope_text(*rope), line as int),
{
    rope.try_line_to_byte(line).ok()
}

/// The position of byte `b` of `t`: its line, and its distance in bytes from
/// the start of that line (each cut to 32 bits); `None` past the end.
pub open spec fn byte_position(t: Seq<char>, b: int) -> Option<Position> {
    if b < 0 || b > byte_len(t) {
        None
    } else {
        let line = line_of_byte(t, b);
        Some(Position { line: line as u32, character: (b - line_start_byte(t, line as int)) as u32 })
    }
}

/// The byte offset of a position of `t`: the start of its line plus its
/// column (the sum saturating at `usize::MAX`, the result cut to 32 bits);
/// `None` for a line past the last or an offset past the end.
pub open spec fn position_offset(t: Seq<char>, pos: Position) -> Option<u32> {
    if pos.line >= line_count(t) {
        None
    } else {
        let sum = line_start_byte(t, pos.line as int) + pos.character;
        let offset = if sum > usize::MAX {
            usize::MAX as int
        } else {
            sum
        };
        if offset > byte_len(t) {
            None
        } else {
            Some(offset as u32)
        }
    }
}

/// Converts a byte index of the text to a position (line and column).
pub fn byte_to_pos(rope: &Rope, byte: usize) -> (r: Option<Position>)
    ensures
        r == byte_position(rope_text(*rope), byte as int),
{
    let ghost t = rope_text(*rope);
    if byte > rope_len_bytes(rope) {
        return None;
    }
    let line = match rope_try_byte_to_line(rope, byte) {
        Some(l) => l,
        None => return None,
    };
    proof {
        lemma_char_index_of_byte(t, byte as int);
        lemma_line_start_byte_le(t, byte as int);
    }
    let line_start = match rope_try_line_to_byte(rope, line) {
        Some(b) => b,
        None => return None,
    };
    let col = byte - line_start;
    Some(Position::new(line as u32, col as u32))
}

/// Converts a position (line and column) to a byte index of the text.
pub fn pos_to_offset(pos: Position, rope: &Rope) -> (r: Option<u32>)
    ensures
        r == position_offset(rope_text(*rope), pos),
{
    let ghost t = rope_text(*rope);
    if pos.line as usize >= rope_len_lines(rope) {
        return None;
    }
    let line_byte_offset = match rope_try_line_to_byte(rope, pos.line as usize) {
        Some(b) => b,
        None => return None,
    };
    let total = rope_len_bytes(rope);
    proof {
        lemma_line_start_byte_bound(t, pos.line as int);
    }
    let offset = line_byte_offset.saturating_add(pos.character as usize);
    if offset > total {
        return None;
    }
    Some(offset as u32)
}

/// A byte of a text, at an offset that fits in 32 bits, converted to a
/// position and back, is the same byte.
pub proof fn law_byte_position_round_trip(t: Seq<char>, b: int)
    requires
        0 <= b <= byte_len(t),
        b <= u32::MAX,
    ensures
        byte_position(t, b) matches Some(pos) && position_offset(t, pos) == Some(b as u32),
{
    lemma_char_index_of_byte(t, b);
    lemma_line_start_byte_le(t, b);
    let k = char_index_of_byte(t, b);
    lemma_breaks_before_le(t, k);
    lemma_char_count_le_byte_len(t.take(k));
    assert(t.take(k).len() == k);
}

/// A text has no more chars than bytes.
pub proof fn lemma_char_count_le_byte_len(t: Seq<char>)
    ensures
        t.len() <= byte_len(t),
    decreases t.len(),
{
    if t.len() > 0 {
        crate::text::lemma_byte_offset_step(t, t.len() - 1);
        crate::text::lemma_char_width_bounds(t[t.len() - 1]);
        assert(t.take(t.len() as int) =~= t);
        assert(t.take(t.len() - 1) =~= t.drop_last());
        lemma_char_count_le_byte_len(t.drop_last());
    }
}

/// A position on a line of a text whose length fits in 32 bits (its column
/// within the line's bytes, the line's break included for all lines but the
/// last), converted to a byte offset and back, is the same position.
pub proof fn law_position_round_trip(t: Seq<char>, pos: Position)
    requires
        byte_len(t) <= u32::MAX,
        pos.line < line_count(t),
        pos.line + 1 < line_count(t) ==> line_start_byte(t, pos.line as int) + pos.character
            < line_start_byte(t, pos.line + 1),
        pos.line + 1 == line_count(t) ==> line_start_byte(t, pos.line as int) + pos.character
            <= byte_len(t),
    ensures
        position_offset(t, pos) matches Some(o) && byte_position(t, o as int) == Some(pos),
{
    let l = pos.line as int;
    let o = line_start_byte(t, l) + pos.character;
    lemma_line_starts(t, l);
    let sl = line_start_char(t, l);
    lemma_byte_offset_monotone(t, 0, t.len() as int);
    lemma_byte_offset_monotone(t, sl, t.len() as int);
    assert(t.take(0) =~= Seq::<char>::empty());
    if l + 1 < line_count(t) {
        lemma_line_starts(t, l + 1);
        lemma_byte_offset_monotone(t, line_start_char(t, l + 1), t.len() as int);
    }
    assert(o <= byte_len(t));
    lemma_char_index_of_byte(t, o);
    let k = char_index_of_byte(t, o);
    if o < byte_len(t) {
        lemma_char_index_holds(t, o, 0);
        if k < sl {
            lemma_byte_offset_monotone(t, k + 1, sl);
        }
    } else {
        lemma_char_index_at_end(t, o, 0);
    }
    assert(sl <= k);
    lemma_breaks_before_monotone(t, sl, k);
    if l + 1 < line_count(t) {
        let sn = line_start_char(t, l + 1);
        if k >= sn {
            lemma_byte_offset_monotone(t, sn, k);
        }
        assert(k < sn);
        assert(is_line_break_at(t, sn - 1));
        assert(breaks_before(t, sn) == breaks_before(t, sn - 1) + 1);
        lemma_breaks_before_monotone(t, k, sn - 1);
    } else {
        lemma_breaks_before_monotone(t, k, t.len() as int);
    }
    assert(line_of_byte(t, o) == l);
}

/// A position has no byte offset exactly when its line is past the last
/// or its column runs past the end of the text (for a text shorter than the
/// largest `usize`, where the saturating sum cannot land on the end).
pub proof fn law_position_offset_fails(t: Seq<char>, pos: Position)
    requires
        byte_len(t) < usize::MAX,
    ensures
        position_offset(t, pos).is_none() <==> (pos.line >= line_count(t) || line_start_byte(
            t,
            pos.line as int,
        ) + pos.character > byte_len(t)),
{
}

} // verus!
