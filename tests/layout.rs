use iced_grid::geometry::{Length, Padding, Size};
use iced_grid::grid::{Grid, GridConfig};
use iced_grid::layout::{
    cycle_tracks, finish, leaf_style, plan, remeasure_widths, ChildMeasure, Dimension,
    GridLayout, LayoutFailed, LeafStyle, Placed, Rect, SolveFailed, SolvedLayout,
    LAST_GRID_LINE,
};
use iced_grid::position::Position;

fn measure(width: Length, height: Length, w: u32, h: u32) -> ChildMeasure {
    ChildMeasure { width, height, size: Size::new(w, h) }
}

fn rect(x: u32, y: u32, width: u32, height: u32) -> Rect {
    Rect { x, y, width, height }
}

fn config_of(g: &Grid<u8>) -> GridConfig {
    g.config().clone()
}

#[test]
fn leaf_pins_fixed_axes_and_frees_fill_axes() {
    let m = measure(Length::Fill, Length::Fixed(9), 40, 9);
    let leaf = leaf_style(&m, &Position::new(1, 2, 3, 4));
    assert_eq!(
        leaf,
        LeafStyle {
            width: Dimension::Auto,
            height: Dimension::Points(9),
            column_start: 1,
            column_end: 4,
            row_start: 2,
            row_end: 6,
        }
    );
    let m = measure(Length::Shrink, Length::FillPortion(2), 40, 9);
    let leaf = leaf_style(&m, &Position::new(0, 0, 1, 1));
    assert_eq!(leaf.width, Dimension::Points(40));
    assert_eq!(leaf.height, Dimension::Auto);
}

#[test]
fn tracks_are_reused_in_turn() {
    let t = cycle_tracks(&vec![Length::Shrink, Length::Fill], 5);
    assert_eq!(
        t,
        vec![Length::Shrink, Length::Fill, Length::Shrink, Length::Fill, Length::Shrink]
    );
    assert_eq!(cycle_tracks(&vec![Length::Fixed(3)], 3), vec![Length::Fixed(3); 3]);
    assert!(cycle_tracks(&vec![], 4).is_empty());
    assert!(cycle_tracks(&vec![Length::Fill], 0).is_empty());
}

#[test]
fn plan_builds_one_leaf_per_child_in_order() {
    let g = Grid::new()
        .spacing(4)
        .padding(Padding { top: 1, right: 2, bottom: 3, left: 5 })
        .column_widths(&[Length::Shrink, Length::Fill])
        .push(0u8)
        .push(1)
        .end_row()
        .push_at_position(2, Position::new(1, 1, 2, 1));
    let ms = vec![
        measure(Length::Shrink, Length::Shrink, 10, 20),
        measure(Length::Fill, Length::Shrink, 30, 5),
        measure(Length::Fixed(7), Length::Fill, 7, 8),
    ];
    let t = plan(&config_of(&g), g.positions(), &ms).unwrap();
    assert_eq!(t.leaves.len(), 3);
    assert_eq!(t.leaves[0].width, Dimension::Points(10));
    assert_eq!(t.leaves[1].width, Dimension::Auto);
    assert_eq!((t.leaves[1].column_start, t.leaves[1].column_end), (1, 2));
    assert_eq!((t.leaves[2].column_start, t.leaves[2].column_end), (1, 3));
    assert_eq!((t.leaves[2].row_start, t.leaves[2].row_end), (1, 2));
    assert_eq!(t.leaves[2].height, Dimension::Auto);
    assert_eq!((t.container.column_gap, t.container.row_gap), (4, 4));
    assert_eq!(t.container.padding, Padding { top: 1, right: 2, bottom: 3, left: 5 });
    assert_eq!(t.container.column_tracks, vec![Length::Shrink, Length::Fill, Length::Shrink]);
    assert_eq!(t.container.row_tracks, vec![Length::Fill, Length::Fill]);
}

#[test]
fn plan_of_empty_grid() {
    let g: Grid<u8> = Grid::new();
    let t = plan(&config_of(&g), g.positions(), &vec![]).unwrap();
    assert!(t.leaves.is_empty());
    assert!(t.container.column_tracks.is_empty());
    assert!(t.container.row_tracks.is_empty());
}

#[test]
fn plan_fails_on_empty_span() {
    let g = Grid::new().push(0u8).push_at_position(1, Position::new(2, 3, 0, 1));
    let ms = vec![measure(Length::Shrink, Length::Shrink, 1, 1); 2];
    assert_eq!(plan(&config_of(&g), g.positions(), &ms).unwrap_err(), LayoutFailed);
    let g = Grid::new().push_at_position(0u8, Position::new(0, 0, 1, 0));
    let ms = vec![measure(Length::Shrink, Length::Shrink, 1, 1)];
    assert!(plan(&config_of(&g), g.positions(), &ms).is_err());
}

#[test]
fn plan_fails_past_last_grid_line() {
    let last = LAST_GRID_LINE as u16;
    let ms = vec![measure(Length::Shrink, Length::Shrink, 1, 1)];
    let g = Grid::new().push_at_position(0u8, Position::new(last - 1, 0, 1, 1));
    assert!(plan(&config_of(&g), g.positions(), &ms).is_ok());
    let g = Grid::new().push_at_position(0u8, Position::new(last, 0, 1, 1));
    assert!(plan(&config_of(&g), g.positions(), &ms).is_err());
    let g = Grid::new().push_at_position(0u8, Position::new(0, last, 1, 1));
    assert!(plan(&config_of(&g), g.positions(), &ms).is_err());
}

#[test]
fn fill_child_is_remeasured_at_each_cell_width() {
    let ms = vec![
        measure(Length::Fill, Length::Shrink, 500, 10),
        measure(Length::Shrink, Length::Shrink, 20, 10),
        measure(Length::FillPortion(2), Length::Shrink, 30, 10),
    ];
    let first = SolvedLayout {
        container: Size::new(200, 10),
        leaves: vec![rect(0, 0, 120, 10), rect(121, 0, 20, 10), rect(142, 0, 58, 10)],
    };
    let second = SolvedLayout {
        container: Size::new(300, 10),
        leaves: vec![rect(0, 0, 180, 10), rect(181, 0, 20, 10), rect(202, 0, 98, 10)],
    };
    let a = remeasure_widths(&ms, &first);
    let b = remeasure_widths(&ms, &second);
    assert_eq!(a, vec![Some(120), None, Some(58)]);
    assert_eq!(b, vec![Some(180), None, Some(98)]);
    assert_ne!(a[0], b[0]);
}

#[test]
fn finish_adds_padding_and_keeps_order() {
    let ms = vec![
        measure(Length::Shrink, Length::Shrink, 10, 20),
        measure(Length::Fill, Length::Shrink, 500, 5),
    ];
    let solved = SolvedLayout {
        container: Size::new(100, 40),
        leaves: vec![rect(60, 0, 10, 20), rect(0, 25, 90, 5)],
    };
    let again = vec![None, Some(Size::new(90, 7))];
    let pad = Padding { top: 1, right: 2, bottom: 3, left: 4 };
    let g: GridLayout = finish(&ms, &again, Ok(solved), pad).unwrap();
    assert_eq!((g.width, g.height), (106, 44));
    assert_eq!(
        g.children,
        vec![
            Placed { x: 60, y: 0, size: Size::new(10, 20) },
            Placed { x: 0, y: 25, size: Size::new(90, 7) },
        ]
    );
}

#[test]
fn finish_padded_size_does_not_overflow() {
    let solved = SolvedLayout { container: Size::new(u32::MAX, u32::MAX), leaves: vec![] };
    let g = finish(&vec![], &vec![], Ok(solved), Padding::all(u32::MAX)).unwrap();
    assert_eq!(g.width, 3 * u32::MAX as u64);
    assert_eq!(g.height, 3 * u32::MAX as u64);
    assert!(g.children.is_empty());
}

#[test]
fn single_child_takes_its_own_size() {
    let g = Grid::new().spacing(0).push_at_position(0u8, Position::new(0, 0, 1, 1));
    let ms = vec![measure(Length::Shrink, Length::Shrink, 33, 12)];
    let t = plan(&config_of(&g), g.positions(), &ms).unwrap();
    assert_eq!(t.leaves[0].width, Dimension::Points(33));
    assert_eq!(t.leaves[0].height, Dimension::Points(12));
    let solved = SolvedLayout { container: Size::new(33, 12), leaves: vec![rect(0, 0, 33, 12)] };
    let again = remeasure_widths(&ms, &solved);
    assert_eq!(again, vec![None]);
    let out = finish(&ms, &vec![None], Ok(solved), g.config().padding).unwrap();
    assert_eq!((out.width, out.height), (33, 12));
    assert_eq!(out.children, vec![Placed { x: 0, y: 0, size: Size::new(33, 12) }]);
}

#[test]
fn finish_fails_when_solver_fails() {
    let ms = vec![measure(Length::Shrink, Length::Shrink, 1, 1)];
    let r = finish(&ms, &vec![None], Err(SolveFailed), Padding::zero());
    assert_eq!(r.unwrap_err(), LayoutFailed);
}

#[test]
fn finish_fails_on_mismatched_counts() {
    let ms = vec![measure(Length::Shrink, Length::Shrink, 1, 1); 2];
    let solved = SolvedLayout { container: Size::new(5, 5), leaves: vec![rect(0, 0, 1, 1)] };
    assert!(finish(&ms, &vec![None, None], Ok(solved.clone()), Padding::zero()).is_err());
    let solved2 = SolvedLayout {
        container: Size::new(5, 5),
        leaves: vec![rect(0, 0, 1, 1), rect(2, 0, 1, 1)],
    };
    assert!(finish(&ms, &vec![None], Ok(solved2.clone()), Padding::zero()).is_err());
    assert!(finish(&ms, &vec![None, None], Ok(solved2), Padding::zero()).is_ok());
}
