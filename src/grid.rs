use vstd::prelude::*;

use crate::geometry::{Horizontal, Length, Padding, Vertical};
use crate::position::Position;

verus! {

/// The spacing between tracks that a new grid starts with, in pixels.
pub const DEFAULT_SPACING: u32 = 1;

/// The grid-wide settings of a [`Grid`].
#[derive(Debug, Clone)]
pub struct GridConfig {
    pub horizontal_alignment: Horizontal,
    pub vertical_alignment: Vertical,
    pub column_spacing: u32,
    pub row_spacing: u32,
    pub padding: Padding,
    pub width: Length,
    pub height: Length,
    /// Per-column policies, reused cyclically when there are more columns.
    pub column_widths: Vec<Length>,
    /// Per-row policies, reused cyclically when there are more rows.
    pub row_heights: Vec<Length>,
}

/// The configuration of a new grid: left and centred alignment, the default
/// spacing on both axes, no padding, shrinking on both axes, and one filling
/// track policy on each axis.
pub open spec fn default_config(c: GridConfig) -> bool {
    &&& c.horizontal_alignment == Horizontal::Left
    &&& c.vertical_alignment == Vertical::Center
    &&& c.column_spacing == DEFAULT_SPACING
    &&& c.row_spacing == DEFAULT_SPACING
    &&& c.padding == Padding { top: 0, right: 0, bottom: 0, left: 0 }
    &&& c.width == Length::Shrink
    &&& c.height == Length::Shrink
    &&& c.column_widths@ == seq![Length::Fill]
    &&& c.row_heights@ == seq![Length::Fill]
}

/// `a + b`, or `u16::MAX` where the sum does not fit.
pub open spec fn saturating(a: int, b: int) -> u16 {
    if a + b > u16::MAX {
        u16::MAX
    } else {
        (a + b) as u16
    }
}

fn copy_lengths(ls: &[Length]) -> (r: Vec<Length>)
    ensures
        r@ == ls@,
{
    let mut r: Vec<Length> = Vec::new();
    let mut i: usize = 0;
    while i < ls.len()
        invariant
            i <= ls@.len(),
            r@ == ls@.subrange(0, i as int),
        decreases ls@.len() - i,
    {
        r.push(ls[i]);
        assert(r@ =~= ls@.subrange(0, i + 1));
        i = i + 1;
    }
    assert(ls@.subrange(0, ls@.len() as int) =~= ls@);
    r
}

/// A container that places its children in cells of rows and columns.
///
/// Each child has a [`Position`]; `push` places the next child at a cursor
/// that moves one column to the right, `end_row` moves the cursor to the start
/// of the next row.
pub struct Grid<W> {
    children: Vec<W>,
    positions: Vec<Position>,
    config: GridConfig,
    column: u16,
    row: u16,
}

impl<W> Grid<W> {
    /// The children, in the order they were added.
    pub closed spec fn items(&self) -> Seq<W> {
        self.children@
    }

    /// The position of each child, in the order they were added.
    pub closed spec fn placements(&self) -> Seq<Position> {
        self.positions@
    }

    /// The grid-wide settings.
    pub closed spec fn settings(&self) -> GridConfig {
        self.config
    }

    /// The cell, `(column, row)`, where the next pushed child lands.
    pub closed spec fn next_cell(&self) -> (u16, u16) {
        (self.column, self.row)
    }

    /// One position for each child.
    pub closed spec fn wf(&self) -> bool {
        self.children@.len() == self.positions@.len()
    }

    /// An empty grid with the default settings.
    pub fn new() -> (r: Self)
        ensures
            r.wf(),
            r.items().len() == 0,
            r.placements().len() == 0,
            default_config(r.settings()),
            r.next_cell() == (0u16, 0u16),
    {
        let mut column_widths: Vec<Length> = Vec::new();
        column_widths.push(Length::Fill);
        let mut row_heights: Vec<Length> = Vec::new();
        row_heights.push(Length::Fill);
        let config = GridConfig {
            horizontal_alignment: Horizontal::Left,
            vertical_alignment: Vertical::Center,
            column_spacing: DEFAULT_SPACING,
            row_spacing: DEFAULT_SPACING,
            padding: Padding::zero(),
            width: Length::Shrink,
            height: Length::Shrink,
            column_widths,
            row_heights,
        };
        assert(config.column_widths@ =~= seq![Length::Fill]);
        assert(config.row_heights@ =~= seq![Length::Fill]);
        Grid { children: Vec::new(), positions: Vec::new(), config, column: 0, row: 0 }
    }

    /// Adds a child at the cursor, spanning one cell, and moves the cursor
    /// one column to the right (it stays at `u16::MAX` once there).
    pub fn push(self, widget: W) -> (r: Self)
        requires
            self.wf(),
        ensures
            r.wf(),
            r.items() == self.items().push(widget),
            r.placements() == self.placements().push(
                Position { column: self.next_cell().0, row: self.next_cell().1, width: 1, height: 1 },
            ),
            r.settings() == self.settings(),
            r.next_cell() == (saturating(self.next_cell().0 as int, 1), self.next_cell().1),
    {
        let mut s = self;
        s.children.push(widget);
        s.positions.push(Position { column: s.column, row: s.row, width: 1, height: 1 });
        s.column = s.column.saturating_add(1);
        s
    }

    /// Adds a child at an explicit position, and moves the cursor to the cell
    /// past the position's span: `(column + width, row + height)`, each
    /// stopping at `u16::MAX`.
    pub fn push_at_position(self, widget: W, position: Position) -> (r: Self)
        requires
            self.wf(),
        ensures
            r.wf(),
            r.items() == self.items().push(widget),
            r.placements() == self.placements().push(position),
            r.settings() == self.settings(),
            r.next_cell() == (
                saturating(position.column as int, position.width as int),
                saturating(position.row as int, position.height as int),
            ),
    {
        let mut s = self;
        s.children.push(widget);
        s.positions.push(position);
        s.column = position.column.saturating_add(position.width);
        s.row = position.row.saturating_add(position.height);
        s
    }

    /// Ends the current row: the cursor goes to column 0 of the next row.
    pub fn end_row(self) -> (r: Self)
        requires
            self.wf(),
        ensures
            r.wf(),
            r.items() == self.items(),
            r.placements() == self.placements(),
            r.settings() == self.settings(),
            r.next_cell() == (0u16, saturating(self.next_cell().1 as int, 1)),
    {
        let mut s = self;
        s.column = 0;
        s.row = s.row.saturating_add(1);
        s
    }

    /// Sets where content sits across its cells. A new grid aligns left.
    pub fn horizontal_alignment(self, align: Horizontal) -> (r: Self)
        requires
            self.wf(),
        ensures
            r.wf(),
            r.items() == self.items(),
            r.placements() == self.placements(),
            r.next_cell() == self.next_cell(),
            r.settings() == (GridConfig { horizontal_alignment: align, ..self.settings() }),
    {
        let mut s = self;
        s.config.horizontal_alignment = align;
        s
    }

    /// Sets where content sits down its cells. A new grid centres.
    pub fn vertical_alignment(self, align: Vertical) -> (r: Self)
        requires
            self.wf(),
        ensures
            r.wf(),
            r.items() == self.items(),
            r.placements() == self.placements(),
            r.next_cell() == self.next_cell(),
            r.settings() == (GridConfig { vertical_alignment: align, ..self.settings() }),
    {
        let mut s = self;
        s.config.vertical_alignment = align;
        s
    }

    /// Sets the gap between adjacent columns.
    pub fn column_spacing(self, spacing: u32) -> (r: Self)
        requires
            self.wf(),
        ensures
            r.wf(),
            r.items() == self.items(),
            r.placements() == self.placements(),
            r.next_cell() == self.next_cell(),
            r.settings() == (GridConfig { column_spacing: spacing, ..self.settings() }),
    {
        let mut s = self;
        s.config.column_spacing = spacing;
        s
    }

    /// Sets the gap between adjacent rows.
    pub fn row_spacing(self, spacing: u32) -> (r: Self)
        requires
            self.wf(),
        ensures
            r.wf(),
            r.items() == self.items(),
            r.placements() == self.placements(),
            r.next_cell() == self.next_cell(),
            r.settings() == (GridConfig { row_spacing: spacing, ..self.settings() }),
    {
        let mut s = self;
        s.config.row_spacing = spacing;
        s
    }

    /// Sets the inset around the whole grid.
    pub fn padding(self, padding: Padding) -> (r: Self)
        requires
            self.wf(),
        ensures
            r.wf(),
            r.items() == self.items(),
            r.placements() == self.placements(),
            r.next_cell() == self.next_cell(),
            r.settings() == (GridConfig { padding: padding, ..self.settings() }),
    {
        let mut s = self;
        s.config.padding = padding;
        s
    }

    /// Sets the sizing policy of the grid's width.
    pub fn width(self, width: Length) -> (r: Self)
        requires
            self.wf(),
        ensures
            r.wf(),
            r.items() == self.items(),
            r.placements() == self.placements(),
            r.next_cell() == self.next_cell(),
            r.settings() == (GridConfig { width: width, ..self.settings() }),
    {
        let mut s = self;
        s.config.width = width;
        s
    }

    /// Sets the sizing policy of the grid's height.
    pub fn height(self, height: Length) -> (r: Self)
        requires
            self.wf(),
        ensures
            r.wf(),
            r.items() == self.items(),
            r.placements() == self.placements(),
            r.next_cell() == self.next_cell(),
            r.settings() == (GridConfig { height: height, ..self.settings() }),
    {
        let mut s = self;
        s.config.height = height;
        s
    }

    /// Sets the gap between adjacent rows and between adjacent columns alike.
    pub fn spacing(self, spacing: u32) -> (r: Self)
        requires
            self.wf(),
        ensures
            r.wf(),
            r.items() == self.items(),
            r.placements() == self.placements(),
            r.next_cell() == self.next_cell(),
            r.settings() == (GridConfig {
                column_spacing: spacing,
                row_spacing: spacing,
                ..self.settings()
            }),
    {
        let mut s = self;
        s.config.row_spacing = spacing;
        s.config.column_spacing = spacing;
        s
    }

    /// Sets one width policy for every column.
    pub fn column_width(self, width: Length) -> (r: Self)
        requires
            self.wf(),
        ensures
            r.wf(),
            r.items() == self.items(),
            r.placements() == self.placements(),
            r.next_cell() == self.next_cell(),
            r.settings().column_widths@ == seq![width],
            r.settings() == (GridConfig { column_widths: r.settings().column_widths, ..self.settings() }),
    {
        let mut s = self;
        let mut widths: Vec<Length> = Vec::new();
        widths.push(width);
        assert(widths@ =~= seq![width]);
        s.config.column_widths = widths;
        s
    }

    /// Sets one height policy for every row.
    pub fn row_height(self, height: Length) -> (r: Self)
        requires
            self.wf(),
        ensures
            r.wf(),
            r.items() == self.items(),
            r.placements() == self.placements(),
            r.next_cell() == self.next_cell(),
            r.settings().row_heights@ == seq![height],
            r.settings() == (GridConfig { row_heights: r.settings().row_heights, ..self.settings() }),
    {
        let mut s = self;
        let mut heights: Vec<Length> = Vec::new();
        heights.push(height);
        assert(heights@ =~= seq![height]);
        s.config.row_heights = heights;
        s
    }

    /// Sets a width policy per column; with fewer policies than columns they
    /// are reused in turn.
    pub fn column_widths(self, widths: &[Length]) -> (r: Self)
        requires
            self.wf(),
        ensures
            r.wf(),
            r.items() == self.items(),
            r.placements() == self.placements(),
            r.next_cell() == self.next_cell(),
            r.settings().column_widths@ == widths@,
            r.settings() == (GridConfig { column_widths: r.settings().column_widths, ..self.settings() }),
    {
        let mut s = self;
        s.config.column_widths = copy_lengths(widths);
        s
    }

    /// Sets a height policy per row; with fewer policies than rows they are
    /// reused in turn.
    pub fn row_heights(self, heights: &[Length]) -> (r: Self)
        requires
            self.wf(),
        ensures
            r.wf(),
            r.items() == self.items(),
            r.placements() == self.placements(),
            r.next_cell() == self.next_cell(),
            r.settings().row_heights@ == heights@,
            r.settings() == (GridConfig { row_heights: r.settings().row_heights, ..self.settings() }),
    {
        let mut s = self;
        s.config.row_heights = copy_lengths(heights);
        s
    }

    /// The children, in the order they were added.
    pub fn children(&self) -> (r: &Vec<W>)
        ensures
            r@ == self.items(),
    {
        &self.children
    }

    /// The position of each child, in the order they were added.
    pub fn positions(&self) -> (r: &Vec<Position>)
        ensures
            r@ == self.placements(),
    {
        &self.positions
    }

    /// The grid-wide settings.
    pub fn config(&self) -> (r: &GridConfig)
        ensures
            *r == self.settings(),
    {
        &self.config
    }

    /// The cell, `(column, row)`, where the next pushed child lands.
    pub fn cursor(&self) -> (r: (u16, u16))
        ensures
            r == self.next_cell(),
    {
        (self.column, self.row)
    }
}

impl<W> Default for Grid<W> {
    /// An empty grid with the default settings, as [`Grid::new`].
    fn default() -> (r: Self)
        ensures
            r.wf(),
            r.items().len() == 0,
            r.placements().len() == 0,
            default_config(r.settings()),
            r.next_cell() == (0u16, 0u16),
    {
        Grid::new()
    }
}

} // verus!
