use weztermocil::layout::{
    double_main_horizontal, double_main_vertical, even_horizontal, even_vertical, main_splits,
    main_vertical, main_vertical_flipped, split_even, three_columns, tiled, Layout, TotalPanes,
};
use weztermocil::wezterm::pane::{Pane, SplitDirection};
use weztermocil::wezterm::script::{Operation, Script};

const ALL_LAYOUTS: [Layout; 8] = [
    Layout::EvenHorizontal,
    Layout::EvenVertical,
    Layout::MainVertical,
    Layout::MainVerticalFlipped,
    Layout::Tiled,
    Layout::ThreeColumns,
    Layout::DoubleMainHorizontal,
    Layout::DoubleMainVertical,
];

fn split(pane: usize, direction: SplitDirection, percentage: u8) -> Operation {
    Operation::Split { pane, direction, percentage: Some(percentage), top_level: false }
}

fn bottom_of_tab(pane: usize) -> Operation {
    Operation::Split { pane, direction: SplitDirection::Bottom, percentage: None, top_level: true }
}

fn window() -> (Script, Pane) {
    let mut script = Script::new();
    let root = Pane::new(None, &mut script);
    (script, root)
}

fn pane(id: usize, parent: usize) -> Pane {
    Pane { id, parent_id: Some(parent) }
}

fn ids(panes: &[Pane]) -> Vec<usize> {
    panes.iter().map(|p| p.id).collect()
}

fn splits(script: &Script) -> &[Operation] {
    &script.operations()[1..]
}

#[test]
fn one_pane_is_the_root_without_a_split() {
    for layout in ALL_LAYOUTS {
        let (mut script, root) = window();
        let panes = layout.create(TotalPanes(1), root, &mut script);
        assert_eq!(panes, Some(vec![root]));
        assert_eq!(script.operations().len(), 1);
        assert_eq!(script.pane_count(), 1);
    }
}

#[test]
fn every_strategy_leaves_one_pane_undivided() {
    let strategies: [fn(TotalPanes, Pane, &mut Script) -> Vec<Pane>; 8] = [
        even_horizontal,
        even_vertical,
        main_vertical,
        main_vertical_flipped,
        tiled,
        three_columns,
        double_main_vertical,
        double_main_horizontal,
    ];
    for strategy in strategies {
        for total in 0..2usize {
            let (mut script, root) = window();
            assert_eq!(strategy(TotalPanes(total), root, &mut script), vec![root]);
            assert!(splits(&script).is_empty());
            assert_eq!(script.pane_count(), 1);
        }
    }
}

#[test]
fn no_pane_is_refused() {
    for layout in ALL_LAYOUTS {
        let (mut script, root) = window();
        assert_eq!(layout.create(TotalPanes(0), root, &mut script), None);
        assert_eq!(script.operations().len(), 1);
    }
}

#[test]
fn even_layouts_keep_the_root_first() {
    for total in 2..40usize {
        for layout in [Layout::EvenHorizontal, Layout::EvenVertical] {
            let (mut script, root) = window();
            let panes = layout.create(TotalPanes(total), root, &mut script).unwrap();
            assert_eq!(panes.len(), total);
            assert_eq!(panes[0], root);
            assert_eq!(splits(&script).len(), total - 1);
            assert_eq!(script.pane_count(), total);
        }
    }
}

#[test]
fn even_horizontal_of_four() {
    let (mut script, root) = window();
    let panes = even_horizontal(TotalPanes(4), root, &mut script);
    assert_eq!(panes, vec![root, pane(1, 0), pane(2, 0), pane(3, 0)]);
    assert_eq!(
        splits(&script),
        [
            split(0, SplitDirection::Right, 25),
            split(0, SplitDirection::Right, 33),
            split(0, SplitDirection::Right, 50),
        ]
    );
}

#[test]
fn even_vertical_of_three() {
    let (mut script, root) = window();
    let panes = even_vertical(TotalPanes(3), root, &mut script);
    assert_eq!(panes, vec![root, pane(1, 0), pane(2, 0)]);
    assert_eq!(
        splits(&script),
        [split(0, SplitDirection::Bottom, 33), split(0, SplitDirection::Bottom, 50)]
    );
}

#[test]
fn two_panes_take_one_split_in_halves() {
    let (mut script, root) = window();
    let panes = split_even(TotalPanes(2), root, SplitDirection::Top, &mut script);
    assert_eq!(panes, vec![root, pane(1, 0)]);
    assert_eq!(splits(&script), [split(0, SplitDirection::Top, 50)]);
}

#[test]
fn split_even_of_one_or_none_splits_nothing() {
    for total in 0..2usize {
        let (mut script, root) = window();
        let panes = split_even(TotalPanes(total), root, SplitDirection::Right, &mut script);
        assert_eq!(panes, vec![root]);
        assert!(splits(&script).is_empty());
    }
}

#[test]
fn even_shares_of_nine() {
    let (mut script, root) = window();
    even_horizontal(TotalPanes(9), root, &mut script);
    let shares: Vec<Option<u8>> = splits(&script)
        .iter()
        .map(|op| match op {
            Operation::Split { percentage, .. } => *percentage,
            _ => None,
        })
        .collect();
    let expected: Vec<Option<u8>> =
        [11u8, 13, 14, 17, 20, 25, 33, 50].iter().map(|p| Some(*p)).collect();
    assert_eq!(shares, expected);
}

#[test]
fn every_split_of_an_even_layout_divides_the_first_pane() {
    let (mut script, root) = window();
    even_vertical(TotalPanes(12), root, &mut script);
    for op in splits(&script) {
        match op {
            Operation::Split { pane, direction, top_level, .. } => {
                assert_eq!(*pane, root.id);
                assert_eq!(*direction, SplitDirection::Bottom);
                assert!(!*top_level);
            }
            other => panic!("not a split: {:?}", other),
        }
    }
}

#[test]
fn main_vertical_of_three() {
    let (mut script, root) = window();
    let panes = main_vertical(TotalPanes(3), root, &mut script);
    assert_eq!(panes, vec![pane(1, 0), root, pane(2, 0)]);
    assert_eq!(
        splits(&script),
        [split(0, SplitDirection::Left, 50), split(0, SplitDirection::Bottom, 50)]
    );
}

#[test]
fn main_vertical_flipped_of_two() {
    let (mut script, root) = window();
    let panes = main_vertical_flipped(TotalPanes(2), root, &mut script);
    assert_eq!(panes, vec![pane(1, 0), root]);
    assert_eq!(splits(&script), [split(0, SplitDirection::Right, 50)]);
}

#[test]
fn main_splits_of_five() {
    let (mut script, root) = window();
    let panes = main_splits(TotalPanes(5), root, SplitDirection::Top, &mut script);
    assert_eq!(panes, vec![pane(1, 0), root, pane(2, 0), pane(3, 0), pane(4, 0)]);
    assert_eq!(
        splits(&script),
        [
            split(0, SplitDirection::Top, 50),
            split(0, SplitDirection::Bottom, 25),
            split(0, SplitDirection::Bottom, 33),
            split(0, SplitDirection::Bottom, 50),
        ]
    );
}

#[test]
fn tiled_two_is_left_and_right() {
    let (mut script, root) = window();
    let panes = Layout::Tiled.create(TotalPanes(2), root, &mut script).unwrap();
    assert_eq!(panes, vec![root, pane(1, 0)]);
    assert_eq!(splits(&script), [split(0, SplitDirection::Right, 50)]);
}

#[test]
fn tiled_three_puts_the_odd_pane_first() {
    let (mut script, root) = window();
    let panes = tiled(TotalPanes(3), root, &mut script);
    assert_eq!(panes, vec![pane(2, 0), root, pane(1, 0)]);
    assert_eq!(splits(&script), [split(0, SplitDirection::Right, 50), bottom_of_tab(0)]);
}

#[test]
fn tiled_four() {
    let (mut script, root) = window();
    let panes = tiled(TotalPanes(4), root, &mut script);
    assert_eq!(panes, vec![root, pane(1, 0), pane(2, 0), pane(3, 1)]);
    assert_eq!(
        splits(&script),
        [
            split(0, SplitDirection::Right, 50),
            split(0, SplitDirection::Bottom, 50),
            split(1, SplitDirection::Bottom, 50),
        ]
    );
}

#[test]
fn tiled_five_counts_the_odd_pane_in() {
    let (mut script, root) = window();
    let panes = Layout::Tiled.create(TotalPanes(5), root, &mut script).unwrap();
    assert_eq!(panes.len(), 5);
    assert_eq!(panes, vec![pane(2, 0), root, pane(1, 0), pane(3, 0), pane(4, 1)]);
    assert_eq!(
        splits(&script),
        [
            split(0, SplitDirection::Right, 50),
            bottom_of_tab(0),
            split(0, SplitDirection::Bottom, 50),
            split(1, SplitDirection::Bottom, 50),
        ]
    );
    assert_eq!(script.pane_count(), 5);
}

#[test]
fn tiled_six() {
    let (mut script, root) = window();
    let panes = tiled(TotalPanes(6), root, &mut script);
    assert_eq!(
        panes,
        vec![root, pane(1, 0), pane(2, 0), pane(3, 0), pane(4, 1), pane(5, 1)]
    );
    assert_eq!(
        splits(&script),
        [
            split(0, SplitDirection::Right, 50),
            split(0, SplitDirection::Bottom, 33),
            split(0, SplitDirection::Bottom, 50),
            split(1, SplitDirection::Bottom, 33),
            split(1, SplitDirection::Bottom, 50),
        ]
    );
}

#[test]
fn three_columns_of_three_are_in_the_order_shown() {
    let (mut script, root) = window();
    let panes = Layout::ThreeColumns.create(TotalPanes(3), root, &mut script).unwrap();
    assert_eq!(panes, vec![root, pane(2, 0), pane(1, 0)]);
    assert_eq!(
        splits(&script),
        [split(0, SplitDirection::Right, 33), split(0, SplitDirection::Right, 50)]
    );
}

#[test]
fn three_columns_of_nine_have_three_rows_each() {
    let (mut script, root) = window();
    let panes = Layout::ThreeColumns.create(TotalPanes(9), root, &mut script).unwrap();
    assert_eq!(panes.len(), 9);
    assert_eq!(
        panes,
        vec![
            root,
            pane(3, 0),
            pane(4, 0),
            pane(2, 0),
            pane(5, 2),
            pane(6, 2),
            pane(1, 0),
            pane(7, 1),
            pane(8, 1),
        ]
    );
    assert_eq!(
        splits(&script),
        [
            split(0, SplitDirection::Right, 33),
            split(0, SplitDirection::Right, 50),
            split(0, SplitDirection::Bottom, 33),
            split(0, SplitDirection::Bottom, 50),
            split(2, SplitDirection::Bottom, 33),
            split(2, SplitDirection::Bottom, 50),
            split(1, SplitDirection::Bottom, 33),
            split(1, SplitDirection::Bottom, 50),
        ]
    );
}

#[test]
fn three_columns_with_fewer_rows_than_columns() {
    let (mut script, root) = window();
    let panes = three_columns(TotalPanes(4), root, &mut script);
    assert_eq!(panes, vec![root, pane(3, 0), pane(2, 0), pane(1, 0)]);

    let (mut script, root) = window();
    let panes = three_columns(TotalPanes(5), root, &mut script);
    assert_eq!(panes, vec![root, pane(3, 0), pane(2, 0), pane(4, 2), pane(1, 0)]);
    assert_eq!(
        splits(&script)[2..],
        [split(0, SplitDirection::Bottom, 50), split(2, SplitDirection::Bottom, 50)]
    );
}

#[test]
fn three_columns_with_rows_that_do_not_divide_by_three() {
    let (mut script, root) = window();
    let panes = three_columns(TotalPanes(8), root, &mut script);
    assert_eq!(ids(&panes), vec![0, 3, 4, 2, 5, 6, 1, 7]);
    assert_eq!(
        splits(&script)[2..],
        [
            split(0, SplitDirection::Bottom, 33),
            split(0, SplitDirection::Bottom, 50),
            split(2, SplitDirection::Bottom, 33),
            split(2, SplitDirection::Bottom, 50),
            split(1, SplitDirection::Bottom, 50),
        ]
    );
}

#[test]
fn two_panes_of_three_columns_stand_side_by_side() {
    for layout in [Layout::ThreeColumns, Layout::DoubleMainVertical] {
        let (mut script, root) = window();
        let panes = layout.create(TotalPanes(2), root, &mut script).unwrap();
        assert_eq!(panes, vec![root, pane(1, 0)]);
        assert_eq!(splits(&script), [split(0, SplitDirection::Right, 50)]);
        assert_eq!(script.pane_count(), 2);
    }
    let (mut script, root) = window();
    assert_eq!(three_columns(TotalPanes(2), root, &mut script), vec![root, pane(1, 0)]);
    let (mut script, root) = window();
    assert_eq!(double_main_vertical(TotalPanes(2), root, &mut script), vec![root, pane(1, 0)]);
}

#[test]
fn double_main_vertical_of_three_and_five() {
    let (mut script, root) = window();
    let panes = double_main_vertical(TotalPanes(3), root, &mut script);
    assert_eq!(panes, vec![root, pane(2, 0), pane(1, 0)]);
    assert_eq!(splits(&script).len(), 2);

    let (mut script, root) = window();
    let panes = double_main_vertical(TotalPanes(5), root, &mut script);
    assert_eq!(panes, vec![root, pane(2, 0), pane(1, 0), pane(3, 2), pane(4, 2)]);
    assert_eq!(
        splits(&script),
        [
            split(0, SplitDirection::Right, 33),
            split(0, SplitDirection::Right, 50),
            split(2, SplitDirection::Bottom, 33),
            split(2, SplitDirection::Bottom, 50),
        ]
    );
}

#[test]
fn double_main_horizontal_of_four() {
    let (mut script, root) = window();
    let panes = Layout::DoubleMainHorizontal.create(TotalPanes(4), root, &mut script).unwrap();
    assert_eq!(panes.len(), 4);
    assert_eq!(panes, vec![pane(1, 0), pane(2, 1), root, pane(3, 0)]);
    assert_eq!(
        splits(&script),
        [
            split(0, SplitDirection::Bottom, 50),
            split(1, SplitDirection::Right, 50),
            split(0, SplitDirection::Right, 50),
        ]
    );
}

#[test]
fn double_main_horizontal_of_two_three_and_five() {
    let (mut script, root) = window();
    let panes = double_main_horizontal(TotalPanes(2), root, &mut script);
    assert_eq!(panes, vec![pane(1, 0), pane(2, 1)]);
    assert_eq!(splits(&script).len(), 2);

    let (mut script, root) = window();
    let panes = double_main_horizontal(TotalPanes(3), root, &mut script);
    assert_eq!(panes, vec![pane(1, 0), pane(2, 1), root]);
    assert_eq!(splits(&script).len(), 2);

    let (mut script, root) = window();
    let panes = double_main_horizontal(TotalPanes(5), root, &mut script);
    assert_eq!(panes, vec![pane(1, 0), pane(2, 1), root, pane(3, 0), pane(4, 0)]);
    assert_eq!(
        splits(&script)[2..],
        [split(0, SplitDirection::Right, 33), split(0, SplitDirection::Right, 50)]
    );
}

#[test]
fn every_layout_places_every_pane_once() {
    for layout in ALL_LAYOUTS {
        for total in 1..30usize {
            let (mut script, root) = window();
            let panes = layout.create(TotalPanes(total), root, &mut script).unwrap();
            assert_eq!(panes.len(), total, "{:?} of {}", layout, total);
            // Two main panes below a row that is left out keep the pane that
            // was split on the screen.
            let on_screen = if layout == Layout::DoubleMainHorizontal && total == 2 {
                3
            } else {
                total
            };
            assert_eq!(script.pane_count(), on_screen, "{:?} of {}", layout, total);
            let mut seen = ids(&panes);
            seen.sort();
            seen.dedup();
            assert_eq!(seen.len(), total, "{:?} of {}", layout, total);
            assert!(seen.iter().all(|id| *id < script.pane_count()));
        }
    }
}

#[test]
fn a_layout_in_a_later_window_numbers_its_panes_on() {
    let mut script = Script::new();
    let _first = Pane::new(None, &mut script);
    let second = Pane::new(Some("/tmp"), &mut script);
    let panes = Layout::MainVertical.create(TotalPanes(3), second, &mut script).unwrap();
    assert_eq!(panes, vec![pane(2, 1), second, pane(3, 1)]);
    assert_eq!(
        script.operations()[2..],
        [split(1, SplitDirection::Left, 50), split(1, SplitDirection::Bottom, 50)]
    );
}
