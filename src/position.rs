use vstd::prelude::*;

verus! {

/// A position in a document: zero-based row and column.
#[derive(Debug, Clone, Copy, PartialEq, Eq, Structural, Default)]
pub struct Position {
    pub row: usize,
    pub column: usize,
}

/// A span of a document, from `start` to `end`.
#[derive(Debug, Clone, Copy, PartialEq, Eq, Structural, Default)]
pub struct Range {
    pub start: Position,
    pub end: Position,
}

impl Position {
    /// The position at `row`, `column`.
    pub fn new(row: usize, column: usize) -> (r: Position)
        ensures
            r.row == row,
            r.column == column,
    {
        Position { row, column }
    }
}

impl Range {
    /// The range from `start` to `end`.
    pub fn new(start: Position, end: Position) -> (r: Range)
        ensures
            r.start == start,
            r.end == end,
    {
        Range { start, end }
    }
}

} // verus!
