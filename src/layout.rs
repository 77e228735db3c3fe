use vstd::prelude::*;

use crate::geometry::{Horizontal, Length, Padding, Size, Vertical};
use crate::grid::GridConfig;
use crate::position::Position;

verus! {

/// The last zero-based grid line the constraint solver can address: it
/// numbers lines from one, with signed 16-bit numbers.
pub const LAST_GRID_LINE: u32 = 32766;

/// The size a solver node is given on one axis.
#[derive(Debug, Clone, Copy, PartialEq, Eq, Structural)]
pub enum Dimension {
    /// Left for the grid's track sizing to resolve.
    Auto,
    /// Pinned to a number of pixels.
    Points(u32),
}

/// What the layout pass learnt of one child before solving: its sizing
/// policy on each axis and the size it measured against the parent's limits.
#[derive(Debug, Clone, Copy, PartialEq, Eq, Structural)]
pub struct ChildMeasure {
    pub width: Length,
    pub height: Length,
    pub size: Size,
}

/// The solver node of one child: its size on each axis and the grid lines it
/// runs between (start inclusive, end exclusive).
#[derive(Debug, Clone, Copy, PartialEq, Eq, Structural)]
pub struct LeafStyle {
    pub width: Dimension,
    pub height: Dimension,
    pub column_start: u16,
    pub column_end: u16,
    pub row_start: u16,
    pub row_end: u16,
}

/// The solver node of the grid container.
#[derive(Debug, Clone)]
pub struct ContainerStyle {
    pub padding: Padding,
    pub column_gap: u32,
    pub row_gap: u32,
    pub width: Length,
    pub height: Length,
    pub horizontal_alignment: Horizontal,
    pub vertical_alignment: Vertical,
    /// One sizing policy for each column that a child reaches.
    pub column_tracks: Vec<Length>,
    /// One sizing policy for each row that a child reaches.
    pub row_tracks: Vec<Length>,
}

/// The tree handed to the constraint solver: the container and one leaf per
/// child, in the children's order.
#[derive(Debug, Clone)]
pub struct SolverTree {
    pub container: ContainerStyle,
    pub leaves: Vec<LeafStyle>,
}

/// A rectangle the solver resolved for one child, relative to the grid.
#[derive(Debug, Clone, Copy, PartialEq, Eq, Structural)]
pub struct Rect {
    pub x: u32,
    pub y: u32,
    pub width: u32,
    pub height: u32,
}

/// What the constraint solver resolved: the container's size and one
/// rectangle per leaf, in the leaves' order.
#[derive(Debug, Clone)]
pub struct SolvedLayout {
    pub container: Size,
    pub leaves: Vec<Rect>,
}

/// The constraint solver reported an error.
#[derive(Debug, Clone, Copy, PartialEq, Eq, Structural)]
pub struct SolveFailed;

/// One child as laid out: where it sits in the grid and its size.
#[derive(Debug, Clone, Copy, PartialEq, Eq, Structural)]
pub struct Placed {
    pub x: u32,
    pub y: u32,
    pub size: Size,
}

/// The result of a layout pass: the grid's outer size, padding included, and
/// one placed child per child, in the children's order.
#[derive(Debug, Clone)]
pub struct GridLayout {
    pub width: u64,
    pub height: u64,
    pub children: Vec<Placed>,
}

/// The layout pass could not be completed; no partial result exists.
#[derive(Debug, Clone, Copy, PartialEq, Eq, Structural)]
pub struct LayoutFailed;

/// The position is one the solver can place: it spans at least one cell on
/// each axis and ends within the solver's lines.
pub open spec fn placeable(p: Position) -> bool {
    &&& p.spans_cells()
    &&& p.column_end() <= LAST_GRID_LINE
    &&& p.row_end() <= LAST_GRID_LINE
}

/// A fill-like axis is left to the solver; any other is pinned to the
/// measured size.
pub open spec fn dimension_for(policy: Length, measured: u32) -> Dimension {
    if policy.fill_like() {
        Dimension::Auto
    } else {
        Dimension::Points(measured)
    }
}

/// The leaf of a child measured as `m` and placed at `p`.
pub open spec fn leaf_for(m: ChildMeasure, p: Position) -> LeafStyle {
    LeafStyle {
        width: dimension_for(m.width, m.size.width),
        height: dimension_for(m.height, m.size.height),
        column_start: p.column,
        column_end: p.column_end() as u16,
        row_start: p.row,
        row_end: p.row_end() as u16,
    }
}

/// The number of columns the positions reach: the largest end column.
pub open spec fn column_extent(ps: Seq<Position>) -> int
    decreases ps.len(),
{
    if ps.len() == 0 {
        0
    } else {
        let rest = column_extent(ps.drop_last());
        if ps.last().column_end() > rest {
            ps.last().column_end()
        } else {
            rest
        }
    }
}

/// The number of rows the positions reach: the largest end row.
pub open spec fn row_extent(ps: Seq<Position>) -> int
    decreases ps.len(),
{
    if ps.len() == 0 {
        0
    } else {
        let rest = row_extent(ps.drop_last());
        if ps.last().row_end() > rest {
            ps.last().row_end()
        } else {
            rest
        }
    }
}

/// `n` track policies taken from `policies` in turn, starting over at the
/// first when they run out; none where `policies` is empty.
pub open spec fn cycled(policies: Seq<Length>, n: nat) -> Seq<Length> {
    if policies.len() == 0 {
        Seq::empty()
    } else {
        Seq::new(n, |i: int| policies[i % (policies.len() as int)])
    }
}

/// `c` is the container node of a grid configured as `config` whose children
/// sit at `ps`.
pub open spec fn container_for(c: ContainerStyle, config: GridConfig, ps: Seq<Position>) -> bool {
    &&& c.padding == config.padding
    &&& c.column_gap == config.column_spacing
    &&& c.row_gap == config.row_spacing
    &&& c.width == config.width
    &&& c.height == config.height
    &&& c.horizontal_alignment == config.horizontal_alignment
    &&& c.vertical_alignment == config.vertical_alignment
    &&& c.column_tracks@ == cycled(config.column_widths@, column_extent(ps) as nat)
    &&& c.row_tracks@ == cycled(config.row_heights@, row_extent(ps) as nat)
}

fn dimension(policy: Length, measured: u32) -> (r: Dimension)
    ensures
        r == dimension_for(policy, measured),
{
    if policy.is_fill() {
        Dimension::Auto
    } else {
        Dimension::Points(measured)
    }
}

/// The solver leaf of one child: fill-like axes are left open, the others
/// pinned to the measured size, and the child runs from its cell across its
/// span.
pub fn leaf_style(m: &ChildMeasure, p: &Position) -> (r: LeafStyle)
    requires
        placeable(*p),
    ensures
        r == leaf_for(*m, *p),
{
    LeafStyle {
        width: dimension(m.width, m.size.width),
        height: dimension(m.height, m.size.height),
        column_start: p.column,
        column_end: p.column + p.width,
        row_start: p.row,
        row_end: p.row + p.height,
    }
}

/// `n` track policies, taken from `policies` in turn (see [`cycled`]).
pub fn cycle_tracks(policies: &Vec<Length>, n: u32) -> (r: Vec<Length>)
    ensures
        r@ == cycled(policies@, n as nat),
{
    let mut r: Vec<Length> = Vec::new();
    if policies.len() == 0 {
        assert(r@ =~= cycled(policies@, n as nat));
        return r;
    }
    let mut i: u32 = 0;
    while i < n
        invariant
            policies@.len() > 0,
            i <= n,
            r@ =~= cycled(policies@, i as nat),
        decreases n - i,
    {
        r.push(policies[(i as usize) % policies.len()]);
        i = i + 1;
    }
    r
}

/// The width a child is measured against a second time: the width of its
/// solved cell where its width policy is fill-like, none otherwise.
pub open spec fn remeasure_for(m: ChildMeasure, cell: Rect) -> Option<u32> {
    if m.width.fill_like() {
        Some(cell.width)
    } else {
        None
    }
}

/// The size a child ends with: that of its second measurement if it had one,
/// else that of its first.
pub open spec fn final_size(m: ChildMeasure, again: Option<Size>) -> Size {
    match again {
        Some(s) => s,
        None => m.size,
    }
}

/// A child moved to the corner of its solved cell, with its final size.
pub open spec fn placed_for(m: ChildMeasure, again: Option<Size>, cell: Rect) -> Placed {
    Placed { x: cell.x, y: cell.y, size: final_size(m, again) }
}

/// Builds the tree for the constraint solver from the grid's settings, the
/// children's positions and their first measurements.
///
/// Fails exactly when some position cannot be placed (an empty span, or one
/// that ends past [`LAST_GRID_LINE`]). Otherwise there is one leaf per child,
/// in order, and a container that carries the settings and one track policy
/// per column and row that a child reaches.
pub fn plan(config: &GridConfig, positions: &Vec<Position>, measures: &Vec<ChildMeasure>) -> (r:
    Result<SolverTree, LayoutFailed>)
    requires
        positions@.len() == measures@.len(),
    ensures
        r is Err <==> exists|i: int| 0 <= i < positions@.len() && !placeable(#[trigger] positions@[i]),
        r matches Ok(t) ==> {
            &&& t.leaves@.len() == positions@.len()
            &&& forall|i: int|
                0 <= i < positions@.len() ==> #[trigger] t.leaves@[i] == leaf_for(
                    measures@[i],
                    positions@[i],
                )
            &&& container_for(t.container, *config, positions@)
        },
{
    let n = positions.len();
    let mut leaves: Vec<LeafStyle> = Vec::new();
    let mut columns: u32 = 0;
    let mut rows: u32 = 0;
    let mut i: usize = 0;
    while i < n
        invariant
            n == positions@.len(),
            n == measures@.len(),
            i <= n,
            leaves@.len() == i,
            forall|j: int| 0 <= j < i ==> #[trigger] leaves@[j] == leaf_for(measures@[j], positions@[j]),
            forall|j: int| 0 <= j < i ==> placeable(#[trigger] positions@[j]),
            columns == column_extent(positions@.subrange(0, i as int)),
            rows == row_extent(positions@.subrange(0, i as int)),
            columns <= LAST_GRID_LINE,
            rows <= LAST_GRID_LINE,
        decreases n - i,
    {
        let p = positions[i];
        let column_end: u32 = p.column as u32 + p.width as u32;
        let row_end: u32 = p.row as u32 + p.height as u32;
        if !(p.is_valid() && column_end <= LAST_GRID_LINE && row_end <= LAST_GRID_LINE) {
            assert(!placeable(positions@[i as int]));
            return Err(LayoutFailed);
        }
        leaves.push(leaf_style(&measures[i], &p));
        if column_end > columns {
            columns = column_end;
        }
        if row_end > rows {
            rows = row_end;
        }
        assert(positions@.subrange(0, i + 1).drop_last() =~= positions@.subrange(0, i as int));
        i = i + 1;
    }
    assert(positions@.subrange(0, n as int) =~= positions@);
    let container = ContainerStyle {
        padding: config.padding,
        column_gap: config.column_spacing,
        row_gap: config.row_spacing,
        width: config.width,
        height: config.height,
        horizontal_alignment: config.horizontal_alignment,
        vertical_alignment: config.vertical_alignment,
        column_tracks: cycle_tracks(&config.column_widths, columns),
        row_tracks: cycle_tracks(&config.row_heights, rows),
    };
    Ok(SolverTree { container, leaves })
}

/// For each child, the width to measure it against a second time, now that
/// its cell is solved: the cell's width for a child whose width policy is
/// fill-like, none for the others.
pub fn remeasure_widths(measures: &Vec<ChildMeasure>, solved: &SolvedLayout) -> (r: Vec<
    Option<u32>,
>)
    requires
        solved.leaves@.len() == measures@.len(),
    ensures
        r@.len() == measures@.len(),
        forall|i: int|
            0 <= i < measures@.len() ==> #[trigger] r@[i] == remeasure_for(
                measures@[i],
                solved.leaves@[i],
            ),
{
    let mut r: Vec<Option<u32>> = Vec::new();
    let mut i: usize = 0;
    while i < measures.len()
        invariant
            solved.leaves@.len() == measures@.len(),
            i <= measures@.len(),
            r@.len() == i,
            forall|j: int|
                0 <= j < i ==> #[trigger] r@[j] == remeasure_for(measures@[j], solved.leaves@[j]),
        decreases measures@.len() - i,
    {
        if measures[i].width.is_fill() {
            r.push(Some(solved.leaves[i].width));
        } else {
            r.push(None);
        }
        i = i + 1;
    }
    r
}

/// Completes a layout pass from what the solver returned.
///
/// Succeeds exactly when the solver succeeded with one rectangle per child
/// and every child has its (possibly absent) second measurement. Then each
/// child, in the children's order, sits at the corner of its solved cell with
/// its final size, and the grid's outer size is the solved size grown by the
/// padding on each side.
pub fn finish(
    measures: &Vec<ChildMeasure>,
    remeasured: &Vec<Option<Size>>,
    solved: Result<SolvedLayout, SolveFailed>,
    padding: Padding,
) -> (r: Result<GridLayout, LayoutFailed>)
    ensures
        r is Ok <==> {
            &&& solved is Ok
            &&& solved->Ok_0.leaves@.len() == measures@.len()
            &&& remeasured@.len() == measures@.len()
        },
        r matches Ok(g) ==> {
            &&& g.width == solved->Ok_0.container.width + padding.left + padding.right
            &&& g.height == solved->Ok_0.container.height + padding.top + padding.bottom
            &&& g.children@.len() == measures@.len()
            &&& forall|i: int|
                0 <= i < measures@.len() ==> #[trigger] g.children@[i] == placed_for(
                    measures@[i],
                    remeasured@[i],
                    solved->Ok_0.leaves@[i],
                )
        },
{
    let solved = match solved {
        Ok(s) => s,
        Err(_) => return Err(LayoutFailed),
    };
    if solved.leaves.len() != measures.len() || remeasured.len() != measures.len() {
        return Err(LayoutFailed);
    }
    let mut children: Vec<Placed> = Vec::new();
    let mut i: usize = 0;
    while i < measures.len()
        invariant
            solved.leaves@.len() == measures@.len(),
            remeasured@.len() == measures@.len(),
            i <= measures@.len(),
            children@.len() == i,
            forall|j: int|
                0 <= j < i ==> #[trigger] children@[j] == placed_for(
                    measures@[j],
                    remeasured@[j],
                    solved.leaves@[j],
                ),
        decreases measures@.len() - i,
    {
        let cell = solved.leaves[i];
        let size = match remeasured[i] {
            Some(s) => s,
            None => measures[i].size,
        };
        children.push(Placed { x: cell.x, y: cell.y, size });
        i = i + 1;
    }
    let width: u64 = solved.container.width as u64 + padding.left as u64 + padding.right as u64;
    let height: u64 = solved.container.height as u64 + padding.top as u64 + padding.bottom as u64;
    Ok(GridLayout { width, height, children })
}

/// A child whose width policy is fill-like is measured a second time against
/// exactly the width of its solved cell, not its first measurement: two
/// passes that solve its cell to different widths ask for different widths,
/// and the size it ends with is that of the second measurement.
pub proof fn lemma_fill_child_follows_cell(m: ChildMeasure, first: Rect, second: Rect, again: Size)
    requires
        m.width.fill_like(),
    ensures
        remeasure_for(m, first) == Some(first.width),
        remeasure_for(m, second) == Some(second.width),
        first.width != second.width ==> remeasure_for(m, first) != remeasure_for(m, second),
        placed_for(m, Some(again), first).size == again,
{
}

/// A child whose width policy is not fill-like keeps its first measurement.
pub proof fn lemma_fixed_child_keeps_measure(m: ChildMeasure, cell: Rect)
    requires
        !m.width.fill_like(),
    ensures
        remeasure_for(m, cell) is None,
        placed_for(m, None, cell).size == m.size,
{
}

/// Track policies are reused in turn, and a single policy applies to every
/// track.
pub proof fn lemma_tracks_cycle(policies: Seq<Length>, n: nat)
    requires
        policies.len() > 0,
    ensures
        cycled(policies, n).len() == n,
        forall|i: int|
            0 <= i < n ==> #[trigger] cycled(policies, n)[i] == policies[i % (policies.len() as int)],
        policies.len() == 1 ==> forall|i: int| 0 <= i < n ==> #[trigger] cycled(policies, n)[i] == policies[0],
{
    assert forall|i: int| 0 <= i < n && policies.len() == 1 implies #[trigger] cycled(policies, n)[i] == policies[0] by {
        assert(i % 1 == 0);
    }
}

/// A position with an empty span on either axis cannot be placed, so a pass
/// over a grid that holds one fails as a whole.
pub proof fn lemma_empty_span_fails(ps: Seq<Position>, i: int)
    requires
        0 <= i < ps.len(),
        ps[i].width == 0 || ps[i].height == 0,
    ensures
        exists|j: int| 0 <= j < ps.len() && !placeable(#[trigger] ps[j]),
{
    assert(!placeable(ps[i]));
}

} // verus!
