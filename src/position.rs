use vstd::prelude::*;

verus! {

/// The cell and the span of one child of a grid.
///
/// `column` and `row` are the zero-based top-left cell; `width` and `height`
/// are how many columns and rows the child spans. A well-formed position spans
/// at least one cell on each axis (see [`Position::is_valid`]).
#[derive(Debug, Clone, Copy, PartialEq, Eq, Structural)]
pub struct Position {
    pub column: u16,
    pub row: u16,
    pub width: u16,
    pub height: u16,
}

impl Position {
    /// Creates a new [`Position`] from a cell and a span.
    pub fn new(column: u16, row: u16, width: u16, height: u16) -> (r: Self)
        ensures
            r.column == column,
            r.row == row,
            r.width == width,
            r.height == height,
    {
        Position { column, row, width, height }
    }

    /// The position spans at least one column and one row.
    pub open spec fn spans_cells(self) -> bool {
        self.width >= 1 && self.height >= 1
    }

    /// Whether the position spans at least one column and one row.
    pub fn is_valid(&self) -> (r: bool)
        ensures
            r == self.spans_cells(),
    {
        self.width >= 1 && self.height >= 1
    }

    /// The column just past the span (exclusive end line).
    pub open spec fn column_end(self) -> int {
        self.column + self.width
    }

    /// The row just past the span (exclusive end line).
    pub open spec fn row_end(self) -> int {
        self.row + self.height
    }
}

impl From<(u16, u16)> for Position {
    /// A single cell at `(column, row)`.
    fn from(value: (u16, u16)) -> (r: Self) {
        Position { column: value.0, row: value.1, width: 1, height: 1 }
    }
}

impl vstd::std_specs::convert::FromSpecImpl<(u16, u16)> for Position {
    open spec fn obeys_from_spec() -> bool {
        true
    }

    open spec fn from_spec(v: (u16, u16)) -> Self {
        Position { column: v.0, row: v.1, width: 1, height: 1 }
    }
}

impl From<(u16, u16, u16, u16)> for Position {
    /// `(column, row, width, height)`.
    fn from(value: (u16, u16, u16, u16)) -> (r: Self) {
        Position { column: value.0, row: value.1, width: value.2, height: value.3 }
    }
}

impl vstd::std_specs::convert::FromSpecImpl<(u16, u16, u16, u16)> for Position {
    open spec fn obeys_from_spec() -> bool {
        true
    }

    open spec fn from_spec(v: (u16, u16, u16, u16)) -> Self {
        Position { column: v.0, row: v.1, width: v.2, height: v.3 }
    }
}

} // verus!
