//! Screen-space and document-space coordinates.

use vstd::prelude::*;

verus! {

/// A screen position: column and row, both zero-based.
#[derive(Clone, Copy, Debug, PartialEq, Eq, Structural)]
pub struct Position {
    pub column: usize,
    pub row: usize,
}

impl Position {
    /// Componentwise difference, saturating at zero.
    pub fn saturating_sub(self, other: Self) -> (r: Self)
        ensures
            r.column == if self.column >= other.column {
                self.column - other.column
            } else {
                0
            },
            r.row == if self.row >= other.row {
                self.row - other.row
            } else {
                0
            },
    {
        Position {
            column: if self.column >= other.column {
                self.column - other.column
            } else {
                0
            },
            row: if self.row >= other.row {
                self.row - other.row
            } else {
                0
            },
        }
    }
}

impl Default for Position {
    /// The origin.
    fn default() -> (r: Position)
        ensures
            r.column == 0 && r.row == 0,
    {
        Position { column: 0, row: 0 }
    }
}

/// A rectangle: the terminal's or a widget's extent.
#[derive(Clone, Copy, Debug, PartialEq, Eq, Structural)]
pub struct Size {
    pub width: usize,
    pub height: usize,
}

impl Default for Size {
    fn default() -> (r: Size)
        ensures
            r.width == 0 && r.height == 0,
    {
        Size { width: 0, height: 0 }
    }
}

/// A document position: a line index and a grapheme index within that
/// line.
#[derive(Clone, Copy, Debug, PartialEq, Eq, Structural)]
pub struct Location {
    pub line_index: usize,
    pub grapheme_index: usize,
}

impl Default for Location {
    fn default() -> (r: Location)
        ensures
            r.line_index == 0 && r.grapheme_index == 0,
    {
        Location { line_index: 0, grapheme_index: 0 }
    }
}

} // verus!
