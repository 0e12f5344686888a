//! Positions and sizes, counted in grapheme cells.
use vstd::prelude::*;

verus! {

/// A cell of a grid: column and row, both counted from zero.
#[derive(Clone, Copy, Debug, PartialEq, Eq, Hash, Structural)]
pub struct Position {
    pub col_index: u32,
    pub row_index: u32,
}

/// The extent of a grid: how many columns and how many rows it has.
#[derive(Clone, Copy, Debug, PartialEq, Eq, Hash, Structural)]
pub struct Size {
    pub col_count: u32,
    pub row_count: u32,
}

/// `a - b`, or zero where `b` is the larger.
pub open spec fn spec_sub_or_zero(a: int, b: int) -> int {
    if a >= b {
        a - b
    } else {
        0
    }
}

/// The smaller of two integers.
pub open spec fn spec_min(a: int, b: int) -> int {
    if a <= b {
        a
    } else {
        b
    }
}

impl Position {
    pub fn new(col_index: u32, row_index: u32) -> (r: Position)
        ensures
            r == (Position { col_index, row_index }),
    {
        Position { col_index, row_index }
    }

    /// The top left cell.
    pub fn origin() -> (r: Position)
        ensures
            r == (Position { col_index: 0, row_index: 0 }),
    {
        Position { col_index: 0, row_index: 0 }
    }

    /// Where `add_row_with_bounds` leaves the row: `value` rows further down,
    /// but never past `max_row`.
    pub open spec fn spec_add_row_with_bounds(self, value: u32, max_row: u32) -> Position {
        Position {
            col_index: self.col_index,
            row_index: spec_min(self.row_index + value, max_row as int) as u32,
        }
    }

    /// Moves `value` rows down, stopping at `max_row`, and returns the new
    /// position.
    pub fn add_row_with_bounds(&mut self, value: u32, max_row: u32) -> (r: Position)
        ensures
            *final(self) == old(self).spec_add_row_with_bounds(value, max_row),
            r == *final(self),
    {
        let room: u32 = if max_row >= self.row_index {
            max_row - self.row_index
        } else {
            0
        };
        if value >= room {
            self.row_index = max_row;
        } else {
            self.row_index = self.row_index + value;
        }
        *self
    }

    /// This position seen from `origin`: the difference of the two, cell by
    /// cell, with zero where `origin` lies further out.
    pub open spec fn spec_relative_to(self, origin: Position) -> Position {
        Position {
            col_index: spec_sub_or_zero(self.col_index as int, origin.col_index as int) as u32,
            row_index: spec_sub_or_zero(self.row_index as int, origin.row_index as int) as u32,
        }
    }

    pub fn relative_to(&self, origin: Position) -> (r: Position)
        ensures
            r == self.spec_relative_to(origin),
    {
        Position {
            col_index: self.col_index.saturating_sub(origin.col_index),
            row_index: self.row_index.saturating_sub(origin.row_index),
        }
    }
}

impl Default for Position {
    fn default() -> (r: Position)
        ensures
            r == (Position { col_index: 0, row_index: 0 }),
    {
        Position { col_index: 0, row_index: 0 }
    }
}

impl Size {
    pub fn new(col_count: u32, row_count: u32) -> (r: Size)
        ensures
            r == (Size { col_count, row_count }),
    {
        Size { col_count, row_count }
    }
}

impl Default for Size {
    fn default() -> (r: Size)
        ensures
            r == (Size { col_count: 0, row_count: 0 }),
    {
        Size { col_count: 0, row_count: 0 }
    }
}

} // verus!
