//! What holds of every layout: how many panes it hands back, that no pane
//! comes twice, and what shares its splits take.

use vstd::prelude::*;

use crate::layout::{
    arrangement, at_most, columns, double_main_horizontal_arrangement,
    double_main_vertical_arrangement, even_arrangement, even_children, even_ops, even_share,
    even_splits, main_arrangement, splits_of, three_columns_arrangement, tiled_arrangement,
    Layout,
};
use crate::percentage::{lemma_next_percentage_bounds, spec_next_percentage};
use crate::wezterm::pane::{Pane, SplitDirection};
use crate::wezterm::script::OperationView;

verus! {

/// An even division asks for as many splits as it creates panes: one less
/// than the panes it is to end with.
pub proof fn lemma_even_lengths(total: int, pane: Pane, direction: SplitDirection, first: int)
    ensures
        even_ops(total, pane, direction).len() == even_splits(total),
        even_children(total, pane, first).len() == even_splits(total),
{
}

/// Every split of an even division takes the rounded share of the panes that
/// still divide the space, the last split one half; up to 200 panes no share
/// is zero, and none is ever above one half.
pub proof fn lemma_even_share(total: int, k: int)
    requires
        0 <= k < total - 1,
    ensures
        even_share(total, k) == spec_next_percentage((total - k) as nat),
        even_share(total, total - 2) == 50,
        even_share(total, k) <= 50,
        total <= 200 ==> even_share(total, k) >= 1,
{
    lemma_next_percentage_bounds((total - k) as nat);
}

/// An even division of a pane into `total` panes, for any `total` of at
/// least one: as many panes as asked for, the pane that was divided first,
/// and one split for each of the others.
pub proof fn lemma_even_arrangement_shape(
    total: int,
    pane: Pane,
    direction: SplitDirection,
    first: int,
)
    requires
        total >= 1,
    ensures
        even_arrangement(total, pane, direction, first).panes.len() == total,
        even_arrangement(total, pane, direction, first).panes[0] == pane,
        even_arrangement(total, pane, direction, first).ops.len() == total - 1,
{
}

/// A window of one pane is its first pane and asks for no split, whatever
/// the layout.
pub proof fn lemma_single_pane(layout: Layout, pane: Pane, first: int)
    ensures
        arrangement(layout, 1, pane, first).ops == Seq::<OperationView>::empty(),
        arrangement(layout, 1, pane, first).panes == seq![pane],
{
    assert(arrangement(layout, 1, pane, first).ops =~= Seq::<OperationView>::empty());
    assert(arrangement(layout, 1, pane, first).panes =~= seq![pane]);
}

/// The panes that a layout hands back are all different, and each of them
/// exists once the layout's operations have been performed.
pub open spec fn distinct_and_created(panes: Seq<Pane>, created: int) -> bool {
    &&& forall|i: int| 0 <= i < panes.len() ==> (#[trigger] panes[i]).id < created
    &&& forall|i: int, j: int|
        0 <= i < j < panes.len() ==> (#[trigger] panes[i]).id != (#[trigger] panes[j]).id
}

/// For every layout and every count of at least one: the layout hands back
/// exactly as many panes as were asked for, never more and never fewer; it
/// makes one split for every pane but the first, and one more where two main
/// panes lie below a row that is left out; no pane comes twice, and all of
/// them exist once the operations have been performed.
pub proof fn lemma_arrangement_panes(layout: Layout, total: int, pane: Pane, first: int)
    requires
        total >= 1,
        0 <= pane.id < first,
        first + arrangement(layout, total, pane, first).ops.len() <= usize::MAX,
    ensures
        arrangement(layout, total, pane, first).panes.len() == total,
        arrangement(layout, total, pane, first).ops.len() == splits_of(layout, total),
        distinct_and_created(
            arrangement(layout, total, pane, first).panes,
            first + arrangement(layout, total, pane, first).ops.len(),
        ),
{
    if total == 1 {
    } else {
        match layout {
            Layout::EvenHorizontal => {
                lemma_even_panes(total, pane, SplitDirection::Right, first);
            },
            Layout::EvenVertical => {
                lemma_even_panes(total, pane, SplitDirection::Bottom, first);
            },
            Layout::MainVertical => {
                lemma_main_panes(total, pane, SplitDirection::Left, first);
            },
            Layout::MainVerticalFlipped => {
                lemma_main_panes(total, pane, SplitDirection::Right, first);
            },
            Layout::Tiled => {
                lemma_tiled_panes(total, pane, first);
            },
            Layout::ThreeColumns => {
                lemma_three_columns_panes(total, pane, first);
            },
            Layout::DoubleMainVertical => {
                lemma_double_main_vertical_panes(total, pane, first);
            },
            Layout::DoubleMainHorizontal => {
                lemma_double_main_horizontal_panes(total, pane, first);
            },
        }
    }
}

/// An even division hands back `total` different panes that all exist.
pub proof fn lemma_even_panes(total: int, pane: Pane, direction: SplitDirection, first: int)
    requires
        total >= 1,
        0 <= pane.id < first,
    ensures
        even_arrangement(total, pane, direction, first).ops.len() == total - 1,
        even_arrangement(total, pane, direction, first).panes.len() == total,
        first + total - 1 <= usize::MAX ==> distinct_and_created(
            even_arrangement(total, pane, direction, first).panes,
            first + total - 1,
        ),
{
}

/// A main pane beside an even column: `total` different panes that all exist,
/// for any `total` of at least two.
pub proof fn lemma_main_panes(total: int, pane: Pane, direction: SplitDirection, first: int)
    requires
        total >= 2,
        0 <= pane.id < first,
    ensures
        main_arrangement(total, pane, direction, first).ops.len() == total - 1,
        main_arrangement(total, pane, direction, first).panes.len() == total,
        first + total - 1 <= usize::MAX ==> distinct_and_created(
            main_arrangement(total, pane, direction, first).panes,
            first + total - 1,
        ),
{
}

/// A tiled layout: `total` different panes that all exist, for any `total` of
/// at least two.
pub proof fn lemma_tiled_panes(total: int, pane: Pane, first: int)
    requires
        total >= 2,
        0 <= pane.id < first,
    ensures
        tiled_arrangement(total, pane, first).ops.len() == total - 1,
        tiled_arrangement(total, pane, first).panes.len() == total,
        first + total - 1 <= usize::MAX ==> distinct_and_created(
            tiled_arrangement(total, pane, first).panes,
            first + total - 1,
        ),
{
}

/// The panes beyond the three columns are all handed out: the rows of the
/// columns add up to them, no column gets more than a third of them, rounded
/// up, and none gets more than the column to its left.
pub proof fn lemma_rows_add_up(to_place: int)
    requires
        to_place >= 0,
    ensures
        ({
            let per_column = (to_place + 2) / 3;
            let rows_left = at_most(per_column, to_place);
            let rows_middle = at_most(per_column, to_place - rows_left);
            let rows_right = at_most(per_column, to_place - rows_left - rows_middle);
            &&& rows_left + rows_middle + rows_right == to_place
            &&& 3 * per_column >= to_place > 3 * (per_column - 1)
            &&& rows_left >= rows_middle >= rows_right >= 0
        }),
{
}

/// The number of the pane at place `k` of an even division: the pane that
/// was divided comes first, its children follow in the order of creation.
proof fn lemma_even_numbers(total: int, pane: Pane, direction: SplitDirection, first: int, k: int)
    requires
        total >= 1,
        0 <= k < total,
        0 <= first,
        first + total - 1 <= usize::MAX,
    ensures
        even_arrangement(total, pane, direction, first).panes.len() == total,
        even_arrangement(total, pane, direction, first).panes[k].id == if k == 0 {
            pane.id as int
        } else {
            first + k - 1
        },
{
}

/// The number of the pane at place `i` of three columns with rows, of which
/// the left column has `rows_left` rows beside itself and the middle column
/// `rows_middle`: each column stands before its rows, and the rows are
/// numbered on from column to column.
pub open spec fn three_columns_number(
    own: int,
    first: int,
    rows_left: int,
    rows_middle: int,
    i: int,
) -> int {
    if i == 0 {
        own
    } else if i < rows_left + 1 {
        first + 2 + i - 1
    } else if i == rows_left + 1 {
        first + 1
    } else if i < rows_left + rows_middle + 2 {
        first + 2 + i - 2
    } else if i == rows_left + rows_middle + 2 {
        first
    } else {
        first + 2 + i - 3
    }
}

/// The panes of three columns with rows have the numbers that
/// `three_columns_number` gives.
proof fn lemma_three_columns_numbers(total: int, pane: Pane, first: int, i: int)
    requires
        total >= 3,
        0 <= pane.id < first,
        first + total - 1 <= usize::MAX,
        0 <= i < total,
    ensures
        three_columns_arrangement(total, pane, first).panes.len() == total,
        three_columns_arrangement(total, pane, first).ops.len() == total - 1,
        three_columns_arrangement(total, pane, first).panes[i].id == three_columns_number(
            pane.id as int,
            first,
            at_most((total - 1) / 3, total - 3),
            at_most(
                (total - 1) / 3,
                total - 3 - at_most((total - 1) / 3, total - 3),
            ),
            i,
        ),
{
    let to_place = total - 3;
    let per_column = (to_place + 2) / 3;
    let rows_left = at_most(per_column, to_place);
    let rows_middle = at_most(per_column, to_place - rows_left);
    let rows_right = at_most(per_column, to_place - rows_left - rows_middle);
    lemma_rows_add_up(to_place);
    let cols = columns(pane, first);
    if i < rows_left + 1 {
        lemma_even_numbers(rows_left + 1, cols[0], SplitDirection::Bottom, first + 2, i);
    } else if i < rows_left + rows_middle + 2 {
        lemma_even_numbers(
            rows_middle + 1,
            cols[1],
            SplitDirection::Bottom,
            first + 2 + rows_left,
            i - rows_left - 1,
        );
    } else {
        lemma_even_numbers(
            rows_right + 1,
            cols[2],
            SplitDirection::Bottom,
            first + 2 + rows_left + rows_middle,
            i - rows_left - rows_middle - 2,
        );
    }
}

/// No two places of three columns with rows have the same number.
proof fn lemma_three_columns_numbers_differ(
    own: int,
    first: int,
    rows_left: int,
    rows_middle: int,
    i: int,
    j: int,
)
    requires
        0 <= own < first,
        0 <= rows_left,
        0 <= rows_middle,
        0 <= i < j,
    ensures
        three_columns_number(own, first, rows_left, rows_middle, i) != three_columns_number(
            own,
            first,
            rows_left,
            rows_middle,
            j,
        ),
{
}

/// Every place of three columns with rows has the number of a pane that
/// exists once all `count` panes do.
proof fn lemma_three_columns_numbers_exist(
    own: int,
    first: int,
    rows_left: int,
    rows_middle: int,
    count: int,
    i: int,
)
    requires
        0 <= own < first,
        0 <= rows_left,
        0 <= rows_middle,
        rows_left + rows_middle + 3 <= count,
        0 <= i < count,
    ensures
        0 <= three_columns_number(own, first, rows_left, rows_middle, i) < first + count - 1,
{
}

/// Three columns with rows: `total` different panes that all exist, for any
/// `total` of at least two, and one split for every pane but the first.
pub proof fn lemma_three_columns_panes(total: int, pane: Pane, first: int)
    requires
        total >= 2,
        0 <= pane.id < first,
    ensures
        three_columns_arrangement(total, pane, first).ops.len() == total - 1,
        three_columns_arrangement(total, pane, first).panes.len() == total,
        first + total - 1 <= usize::MAX ==> distinct_and_created(
            three_columns_arrangement(total, pane, first).panes,
            first + total - 1,
        ),
{
    if total == 2 {
        lemma_even_panes(2, pane, SplitDirection::Right, first);
    } else {
        let to_place = total - 3;
        let per_column = (to_place + 2) / 3;
        let rows_left = at_most(per_column, to_place);
        let rows_middle = at_most(per_column, to_place - rows_left);
        lemma_rows_add_up(to_place);
        let panes = three_columns_arrangement(total, pane, first).panes;
        assert(panes.len() == total);
        if first + total - 1 <= usize::MAX {
            assert forall|i: int| 0 <= i < panes.len() implies (#[trigger] panes[i]).id < first
                + total - 1 by {
                lemma_three_columns_numbers(total, pane, first, i);
                lemma_three_columns_numbers_exist(
                    pane.id as int,
                    first,
                    rows_left,
                    rows_middle,
                    total,
                    i,
                );
            }
            assert forall|i: int, j: int| 0 <= i < j < panes.len() implies (#[trigger] panes[i]).id != (
            #[trigger] panes[j]).id by {
                lemma_three_columns_numbers(total, pane, first, i);
                lemma_three_columns_numbers(total, pane, first, j);
                lemma_three_columns_numbers_differ(
                    pane.id as int,
                    first,
                    rows_left,
                    rows_middle,
                    i,
                    j,
                );
            }
        }
    }
}

/// Two main columns and a column of rows: `total` different panes that all
/// exist, for any `total` of at least two, and one split for every pane but
/// the first.
pub proof fn lemma_double_main_vertical_panes(total: int, pane: Pane, first: int)
    requires
        total >= 2,
        0 <= pane.id < first,
    ensures
        double_main_vertical_arrangement(total, pane, first).ops.len() == total - 1,
        double_main_vertical_arrangement(total, pane, first).panes.len() == total,
        first + total - 1 <= usize::MAX ==> distinct_and_created(
            double_main_vertical_arrangement(total, pane, first).panes,
            first + total - 1,
        ),
{
}

/// Two main panes below a row: `total` different panes that all exist, for
/// any `total` of at least two. The pane that is split into the rows is among
/// them only from three panes on, so two panes take two splits.
pub proof fn lemma_double_main_horizontal_panes(total: int, pane: Pane, first: int)
    requires
        total >= 2,
        0 <= pane.id < first,
    ensures
        double_main_horizontal_arrangement(total, pane, first).ops.len() == if total == 2 {
            2
        } else {
            total - 1
        },
        double_main_horizontal_arrangement(total, pane, first).panes.len() == total,
        first + double_main_horizontal_arrangement(total, pane, first).ops.len() <= usize::MAX
            ==> distinct_and_created(
            double_main_horizontal_arrangement(total, pane, first).panes,
            first + double_main_horizontal_arrangement(total, pane, first).ops.len(),
        ),
{
}

} // verus!
