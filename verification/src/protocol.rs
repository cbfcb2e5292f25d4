//! Plain values that the language server exchanges with its editor:
//! positions, ranges, diagnostics, completion items and hovers.

use vstd::prelude::*;

verus! {

/// A position in a document: zero-based line and zero-based column, the
/// column counted in bytes from the start of the line.
#[derive(Debug, Clone, Copy, PartialEq, Eq, Structural)]
pub struct Position {
    pub line: u32,
    pub character: u32,
}

impl Position {
    /// The position at `line`, `character`.
    pub fn new(line: u32, character: u32) -> (r: Position)
        ensures
            r.line == line,
            r.character == character,
    {
        Position { line, character }
    }

    /// The start of a document.
    pub open spec fn zero() -> Position {
        Position { line: 0, character: 0 }
    }
}

/// A range of a document, from `start` to `end`.
#[derive(Debug, Clone, Copy, PartialEq, Eq, Structural)]
pub struct Range {
    pub start: Position,
    pub end: Position,
}

impl Range {
    /// The range from `start` to `end`.
    pub fn new(start: Position, end: Position) -> (r: Range)
        ensures
            r.start == start,
            r.end == end,
    {
        Range { start, end }
    }

    /// The empty range at the start of a document.
    pub open spec fn zero() -> Range {
        Range { start: Position::zero(), end: Position::zero() }
    }
}

} // verus!
