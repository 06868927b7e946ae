//! The layout strategies: each turns a pane count and a starting pane into
//! split operations and the ordered list of panes that commands are bound to.

use vstd::prelude::*;

use crate::layout::laws::lemma_arrangement_panes;
use crate::percentage::{next_percentage, spec_next_percentage};
use crate::wezterm::pane::{Pane, SplitDirection};
use crate::wezterm::script::{OperationView, Script};

pub mod laws;

verus! {

/// The number of panes that a window is to hold. A count of zero is no valid
/// request.
#[derive(Clone, Copy, Debug, PartialEq, Eq, Structural)]
pub struct TotalPanes(pub usize);

/// The layout strategies.
#[derive(Clone, Copy, Debug, PartialEq, Eq, Structural)]
pub enum Layout {
    EvenHorizontal,
    EvenVertical,
    MainVertical,
    MainVerticalFlipped,
    Tiled,
    ThreeColumns,
    DoubleMainHorizontal,
    DoubleMainVertical,
}

/// What a strategy asks of the multiplexer and what it hands back: the split
/// operations in order, and the panes in the order in which commands are
/// bound to them.
pub struct Arrangement {
    pub ops: Seq<OperationView>,
    pub panes: Seq<Pane>,
}

/// The pane that splitting `parent` creates when `id` panes exist already.
pub open spec fn child(parent: Pane, id: int) -> Pane {
    Pane { id: id as usize, parent_id: Some(parent.id) }
}

/// A split of `pane` at one half.
pub open spec fn half_split(pane: Pane, direction: SplitDirection) -> OperationView {
    OperationView::Split { pane: pane.id, direction, percentage: Some(50u8), top_level: false }
}

/// The share of split number `k`, counted from zero, when a pane is divided
/// evenly into `total`: the split before which one pane is left to create
/// takes one half, every other split the rounded share of the `total - k`
/// panes that divide the remaining space.
pub open spec fn even_share(total: int, k: int) -> u8 {
    if total - k == 2 {
        50u8
    } else {
        spec_next_percentage((total - k) as nat) as u8
    }
}

/// The number of splits that divide a pane into `total` panes.
pub open spec fn even_splits(total: int) -> nat {
    if total >= 1 {
        (total - 1) as nat
    } else {
        0
    }
}

/// The splits that divide `pane` evenly into `total` panes: `total - 1`
/// splits, each of `pane` itself.
pub open spec fn even_ops(total: int, pane: Pane, direction: SplitDirection) -> Seq<
    OperationView,
> {
    Seq::new(
        even_splits(total),
        |k: int|
            OperationView::Split {
                pane: pane.id,
                direction,
                percentage: Some(even_share(total, k)),
                top_level: false,
            },
    )
}

/// The panes that the splits of `even_ops` create, in the order of creation,
/// when `first` panes exist before the first split.
pub open spec fn even_children(total: int, pane: Pane, first: int) -> Seq<Pane> {
    Seq::new(even_splits(total), |k: int| child(pane, first + k))
}

/// An even division of `pane` into `total` panes: the pane itself comes
/// first, then its children in the order of creation.
pub open spec fn even_arrangement(
    total: int,
    pane: Pane,
    direction: SplitDirection,
    first: int,
) -> Arrangement {
    Arrangement {
        ops: even_ops(total, pane, direction),
        panes: seq![pane] + even_children(total, pane, first),
    }
}

/// `after` is `before` with the operations of `arrangement` appended, each of
/// which has created a pane, and `panes` are the panes of `arrangement`.
pub open spec fn arranged(
    before: Script,
    after: Script,
    panes: Seq<Pane>,
    arrangement: Arrangement,
) -> bool {
    &&& after.wf()
    &&& after@ == before@ + arrangement.ops
    &&& after.spec_pane_count() == before.spec_pane_count() + arrangement.ops.len()
    &&& panes == arrangement.panes
}

/// Divides `starting_pane` evenly into `total_panes` panes by splitting it
/// again and again in `direction`. A count of zero or one asks for no split.
pub fn split_even(
    total_panes: TotalPanes,
    starting_pane: Pane,
    direction: SplitDirection,
    script: &mut Script,
) -> (panes: Vec<Pane>)
    requires
        old(script).wf(),
        starting_pane.exists_in(old(script)),
    ensures
        arranged(
            *old(script),
            *final(script),
            panes@,
            even_arrangement(
                total_panes.0 as int,
                starting_pane,
                direction,
                old(script).spec_pane_count() as int,
            ),
        ),
        panes@[0] == starting_pane,
        total_panes.0 >= 1 ==> panes@.len() == total_panes.0,
{
    let total = total_panes.0;
    let ghost first = script.spec_pane_count() as int;
    let ghost before = script@;
    let mut panes: Vec<Pane> = Vec::new();
    panes.push(starting_pane);
    if total <= 1 {
        return panes;
    }
    let remaining: usize = total - 1;
    let mut created: usize = 0;
    while created < remaining
        invariant
            remaining == total - 1,
            total >= 2,
            created <= remaining,
            script.wf(),
            starting_pane.exists_in(script),
            script.spec_pane_count() == first + created,
            script@ == before + even_ops(total as int, starting_pane, direction).take(
                created as int,
            ),
            panes@ == seq![starting_pane] + even_children(total as int, starting_pane, first).take(
                created as int,
            ),
        decreases remaining - created,
    {
        let percentage: u8 = if remaining - created == 1 {
            50
        } else {
            next_percentage(total - created)
        };
        let pane = starting_pane.split(direction, Some(percentage), None, false, script);
        panes.push(pane);
        created = created + 1;
    }
    proof {
        let ops = even_ops(total as int, starting_pane, direction);
        let children = even_children(total as int, starting_pane, first);
        assert(ops.take(created as int) =~= ops);
        assert(children.take(created as int) =~= children);
    }
    panes
}

/// A window of one pane: the pane itself, and no split.
pub open spec fn single(pane: Pane) -> Arrangement {
    Arrangement { ops: Seq::empty(), panes: seq![pane] }
}

/// A main pane beside an even column: one split of `pane` at one half in
/// `direction` creates the main pane, which comes first; the pane that was
/// split is then divided evenly from top to bottom into `total - 1` panes.
/// One pane is the pane itself.
pub open spec fn main_arrangement(
    total: int,
    pane: Pane,
    direction: SplitDirection,
    first: int,
) -> Arrangement {
    if total <= 1 {
        single(pane)
    } else {
        let rest = even_arrangement(total - 1, pane, SplitDirection::Bottom, first + 1);
        Arrangement {
            ops: seq![half_split(pane, direction)] + rest.ops,
            panes: seq![child(pane, first)] + rest.panes,
        }
    }
}

/// The one pane of a window that is not divided.
fn undivided(pane: Pane) -> (panes: Vec<Pane>)
    ensures
        panes@ == single(pane).panes,
{
    let mut panes: Vec<Pane> = Vec::new();
    panes.push(pane);
    panes
}

/// Splits a main pane off `starting_pane` in `direction` and divides what is
/// left of `starting_pane` evenly from top to bottom.
pub fn main_splits(
    total_panes: TotalPanes,
    starting_pane: Pane,
    direction: SplitDirection,
    script: &mut Script,
) -> (panes: Vec<Pane>)
    requires
        old(script).wf(),
        starting_pane.exists_in(old(script)),
    ensures
        arranged(
            *old(script),
            *final(script),
            panes@,
            main_arrangement(
                total_panes.0 as int,
                starting_pane,
                direction,
                old(script).spec_pane_count() as int,
            ),
        ),
{
    let ghost first = script.spec_pane_count() as int;
    let ghost before = script@;
    if total_panes.0 <= 1 {
        return undivided(starting_pane);
    }
    let main_pane = starting_pane.split(direction, Some(50), None, false, script);
    let mut rest = split_even(
        TotalPanes(total_panes.0 - 1),
        starting_pane,
        SplitDirection::Bottom,
        script,
    );
    let mut all_panes: Vec<Pane> = Vec::new();
    all_panes.push(main_pane);
    all_panes.append(&mut rest);
    proof {
        let target = main_arrangement(total_panes.0 as int, starting_pane, direction, first);
        assert(script@ =~= before + target.ops);
    }
    all_panes
}

/// Panes side by side, each as wide as the others.
pub fn even_horizontal(total_panes: TotalPanes, starting_pane: Pane, script: &mut Script) -> (panes:
    Vec<Pane>)
    requires
        old(script).wf(),
        starting_pane.exists_in(old(script)),
    ensures
        arranged(
            *old(script),
            *final(script),
            panes@,
            even_arrangement(
                total_panes.0 as int,
                starting_pane,
                SplitDirection::Right,
                old(script).spec_pane_count() as int,
            ),
        ),
        panes@[0] == starting_pane,
        total_panes.0 >= 1 ==> panes@.len() == total_panes.0,
{
    split_even(total_panes, starting_pane, SplitDirection::Right, script)
}

/// Panes one above the other, each as high as the others.
pub fn even_vertical(total_panes: TotalPanes, starting_pane: Pane, script: &mut Script) -> (panes:
    Vec<Pane>)
    requires
        old(script).wf(),
        starting_pane.exists_in(old(script)),
    ensures
        arranged(
            *old(script),
            *final(script),
            panes@,
            even_arrangement(
                total_panes.0 as int,
                starting_pane,
                SplitDirection::Bottom,
                old(script).spec_pane_count() as int,
            ),
        ),
        panes@[0] == starting_pane,
        total_panes.0 >= 1 ==> panes@.len() == total_panes.0,
{
    split_even(total_panes, starting_pane, SplitDirection::Bottom, script)
}

/// A main pane on the left, the other panes in a column on the right.
pub fn main_vertical(total_panes: TotalPanes, starting_pane: Pane, script: &mut Script) -> (panes:
    Vec<Pane>)
    requires
        old(script).wf(),
        starting_pane.exists_in(old(script)),
    ensures
        arranged(
            *old(script),
            *final(script),
            panes@,
            main_arrangement(
                total_panes.0 as int,
                starting_pane,
                SplitDirection::Left,
                old(script).spec_pane_count() as int,
            ),
        ),
{
    main_splits(total_panes, starting_pane, SplitDirection::Left, script)
}

/// A main pane on the right, the other panes in a column on the left.
pub fn main_vertical_flipped(
    total_panes: TotalPanes,
    starting_pane: Pane,
    script: &mut Script,
) -> (panes: Vec<Pane>)
    requires
        old(script).wf(),
        starting_pane.exists_in(old(script)),
    ensures
        arranged(
            *old(script),
            *final(script),
            panes@,
            main_arrangement(
                total_panes.0 as int,
                starting_pane,
                SplitDirection::Right,
                old(script).spec_pane_count() as int,
            ),
        ),
{
    main_splits(total_panes, starting_pane, SplitDirection::Right, script)
}

/// The split that puts one more pane below the two halves of a tiled layout:
/// it divides the whole tab, at no stated share.
pub open spec fn bottom_split(pane: Pane) -> OperationView {
    OperationView::Split {
        pane: pane.id,
        direction: SplitDirection::Bottom,
        percentage: None,
        top_level: true,
    }
}

/// The two halves of a tiled layout with their rows, when `first` panes exist
/// already: each half is divided evenly from top to bottom into `per_side`
/// panes, the left half first. The halves come first, then the other panes of
/// the left half, then those of the right half.
pub open spec fn halves_arrangement(per_side: int, left: Pane, right: Pane, first: int) -> Arrangement {
    Arrangement {
        ops: even_ops(per_side, left, SplitDirection::Bottom) + even_ops(
            per_side,
            right,
            SplitDirection::Bottom,
        ),
        panes: seq![left, right] + even_children(per_side, left, first) + even_children(
            per_side,
            right,
            first + even_splits(per_side),
        ),
    }
}

/// What comes before the halves of a tiled layout are divided: `pane` is
/// split into a left and a right half; an odd count puts one more pane at the
/// bottom of the tab, which comes first among the panes.
pub open spec fn tiled_lead(total: int, pane: Pane, first: int) -> Arrangement {
    if total % 2 != 0 {
        Arrangement {
            ops: seq![half_split(pane, SplitDirection::Right), bottom_split(pane)],
            panes: seq![child(pane, first + 1)],
        }
    } else {
        Arrangement { ops: seq![half_split(pane, SplitDirection::Right)], panes: Seq::empty() }
    }
}

/// A tiled layout: `pane` is split into a left and a right half, and each
/// half is divided evenly from top to bottom into `total / 2` panes. An odd
/// count puts one more pane at the bottom of the tab, which is created before
/// the halves are divided and comes first. The halves follow, then the other
/// panes of the left half, then those of the right half. One pane is the pane
/// itself.
pub open spec fn tiled_arrangement(total: int, pane: Pane, first: int) -> Arrangement {
    if total <= 1 {
        single(pane)
    } else {
        let lead = tiled_lead(total, pane, first);
        let per_side = if total % 2 != 0 {
            (total - 1) / 2
        } else {
            total / 2
        };
        let halves = halves_arrangement(
            per_side,
            pane,
            child(pane, first),
            first + lead.ops.len(),
        );
        Arrangement { ops: lead.ops + halves.ops, panes: lead.panes + halves.panes }
    }
}

/// Divides the two halves of a tiled layout evenly from top to bottom.
fn split_halves(per_side: TotalPanes, left_pane: Pane, right_pane: Pane, script: &mut Script) -> (panes:
    Vec<Pane>)
    requires
        old(script).wf(),
        left_pane.exists_in(old(script)),
        right_pane.exists_in(old(script)),
    ensures
        arranged(
            *old(script),
            *final(script),
            panes@,
            halves_arrangement(
                per_side.0 as int,
                left_pane,
                right_pane,
                old(script).spec_pane_count() as int,
            ),
        ),
{
    let ghost first = script.spec_pane_count() as int;
    let ghost before = script@;
    let ghost target = halves_arrangement(per_side.0 as int, left_pane, right_pane, first);
    let mut left_panes = even_vertical(per_side, left_pane, script);
    let mut right_panes = even_vertical(per_side, right_pane, script);
    let mut left_children = left_panes.split_off(1);
    let mut right_children = right_panes.split_off(1);
    let mut panes: Vec<Pane> = Vec::new();
    panes.push(left_pane);
    panes.push(right_pane);
    panes.append(&mut left_children);
    panes.append(&mut right_children);
    proof {
        assert(script@ =~= before + target.ops);
        assert(panes@ =~= target.panes);
    }
    panes
}

/// Two halves side by side, each divided evenly from top to bottom; an odd
/// count puts one more pane at the bottom of the tab.
pub fn tiled(total_panes: TotalPanes, starting_pane: Pane, script: &mut Script) -> (panes: Vec<
    Pane,
>)
    requires
        old(script).wf(),
        starting_pane.exists_in(old(script)),
    ensures
        arranged(
            *old(script),
            *final(script),
            panes@,
            tiled_arrangement(
                total_panes.0 as int,
                starting_pane,
                old(script).spec_pane_count() as int,
            ),
        ),
{
    let total = total_panes.0;
    let ghost first = script.spec_pane_count() as int;
    let ghost before = script@;
    let ghost target = tiled_arrangement(total as int, starting_pane, first);
    if total <= 1 {
        return undivided(starting_pane);
    }
    let mut all_panes: Vec<Pane> = Vec::new();
    let left_pane = starting_pane;
    let right_pane = left_pane.split(SplitDirection::Right, Some(50), None, false, script);

    if total == 2 {
        all_panes.push(left_pane);
        all_panes.push(right_pane);
        proof {
            assert(script@ =~= before + target.ops);
            assert(all_panes@ =~= target.panes);
        }
        return all_panes;
    }
    let per_side;
    if total % 2 == 0 {
        per_side = TotalPanes(total / 2);
    } else {
        per_side = TotalPanes((total - 1) / 2);
        // An odd pane goes to the bottom of the tab.
        let bottom_pane = left_pane.split(SplitDirection::Bottom, None, None, true, script);
        all_panes.push(bottom_pane);
    }
    let mut halves = split_halves(per_side, left_pane, right_pane, script);
    all_panes.append(&mut halves);
    proof {
        assert(script@ =~= before + target.ops);
        assert(all_panes@ =~= target.panes);
    }
    all_panes
}

/// The number of panes that a layout still has to create once its first
/// `placed` panes exist.
pub open spec fn beyond(total: int, placed: int) -> int {
    if total > placed {
        total - placed
    } else {
        0
    }
}

/// The smaller of two numbers.
pub open spec fn at_most(limit: int, count: int) -> int {
    if count < limit {
        count
    } else {
        limit
    }
}

/// The three columns that two even splits of `pane` to the right create, from
/// left to right as the multiplexer shows them: it puts the column that was
/// created last in the middle, so the two new panes change places.
pub open spec fn columns(pane: Pane, first: int) -> Seq<Pane> {
    seq![pane, child(pane, first + 1), child(pane, first)]
}

/// Three columns with rows: `pane` is divided evenly into three columns; the
/// panes beyond three are handed out from left to right, to each column at
/// most a third of them, rounded up, until none is left; each column is
/// divided evenly from top to bottom into one pane more than it was handed.
/// The panes come column by column, the column itself before its rows. One
/// pane is the pane itself; two panes cannot fill three columns and stand
/// side by side as two halves.
pub open spec fn three_columns_arrangement(total: int, pane: Pane, first: int) -> Arrangement {
    if total <= 1 {
        single(pane)
    } else if total == 2 {
        even_arrangement(2, pane, SplitDirection::Right, first)
    } else {
        let cols = columns(pane, first);
        let to_place = total - 3;
        let per_column = (to_place + 2) / 3;
        let rows_left = at_most(per_column, to_place);
        let rows_middle = at_most(per_column, to_place - rows_left);
        let rows_right = at_most(per_column, to_place - rows_left - rows_middle);
        let left = even_arrangement(rows_left + 1, cols[0], SplitDirection::Bottom, first + 2);
        let middle = even_arrangement(
            rows_middle + 1,
            cols[1],
            SplitDirection::Bottom,
            first + 2 + rows_left,
        );
        let right = even_arrangement(
            rows_right + 1,
            cols[2],
            SplitDirection::Bottom,
            first + 2 + rows_left + rows_middle,
        );
        Arrangement {
            ops: even_ops(3, pane, SplitDirection::Right) + left.ops + middle.ops + right.ops,
            panes: left.panes + middle.panes + right.panes,
        }
    }
}

/// Divides `starting_pane` into three columns and returns them from left to
/// right as the multiplexer shows them.
fn split_columns(starting_pane: Pane, script: &mut Script) -> (cols: Vec<Pane>)
    requires
        old(script).wf(),
        starting_pane.exists_in(old(script)),
    ensures
        arranged(
            *old(script),
            *final(script),
            cols@,
            Arrangement {
                ops: even_ops(3, starting_pane, SplitDirection::Right),
                panes: columns(starting_pane, old(script).spec_pane_count() as int),
            },
        ),
        final(script).spec_pane_count() == old(script).spec_pane_count() + 2,
        forall|i: int| 0 <= i < 3 ==> (#[trigger] cols@[i]).exists_in(final(script)),
{
    let ghost first = script.spec_pane_count() as int;
    let mut cols = split_even(TotalPanes(3), starting_pane, SplitDirection::Right, script);
    // The multiplexer shows the column that was created last in the middle.
    let last_col = cols.pop().unwrap();
    let middle_col = cols.pop().unwrap();
    cols.push(last_col);
    cols.push(middle_col);
    assert(cols@ =~= columns(starting_pane, first));
    cols
}

/// Three columns, the panes beyond three as rows of the columns.
pub fn three_columns(total_panes: TotalPanes, starting_pane: Pane, script: &mut Script) -> (panes:
    Vec<Pane>)
    requires
        old(script).wf(),
        starting_pane.exists_in(old(script)),
    ensures
        arranged(
            *old(script),
            *final(script),
            panes@,
            three_columns_arrangement(
                total_panes.0 as int,
                starting_pane,
                old(script).spec_pane_count() as int,
            ),
        ),
{
    let ghost first = script.spec_pane_count() as int;
    let ghost before = script@;
    let ghost target = three_columns_arrangement(total_panes.0 as int, starting_pane, first);
    if total_panes.0 <= 1 {
        return undivided(starting_pane);
    }
    if total_panes.0 == 2 {
        // Two panes cannot fill three columns: they stand side by side.
        return split_even(total_panes, starting_pane, SplitDirection::Right, script);
    }
    let cols = split_columns(starting_pane, script);
    // The columns exist already: they do not count among the panes to create.
    let total_panes_to_gen: usize = total_panes.0 - 3;
    let panes_per_col: usize = (total_panes_to_gen + 2) / 3;
    let mut panes_left: usize = total_panes_to_gen;
    let mut panes: Vec<Pane> = Vec::new();

    // Each column takes its rows while panes are left to hand out.
    let rows_left: usize = if panes_left < panes_per_col {
        panes_left
    } else {
        panes_per_col
    };
    let mut left = split_even(TotalPanes(rows_left + 1), cols[0], SplitDirection::Bottom, script);
    panes_left = panes_left - rows_left;
    panes.append(&mut left);

    let rows_middle: usize = if panes_left < panes_per_col {
        panes_left
    } else {
        panes_per_col
    };
    let mut middle = split_even(
        TotalPanes(rows_middle + 1),
        cols[1],
        SplitDirection::Bottom,
        script,
    );
    panes_left = panes_left - rows_middle;
    panes.append(&mut middle);

    let rows_right: usize = if panes_left < panes_per_col {
        panes_left
    } else {
        panes_per_col
    };
    let mut right = split_even(
        TotalPanes(rows_right + 1),
        cols[2],
        SplitDirection::Bottom,
        script,
    );
    panes.append(&mut right);
    proof {
        assert(script@ =~= before + target.ops);
    }
    panes
}

/// Two main columns and a column of rows: `pane` is divided evenly into
/// three columns, and the middle column is divided evenly from top to bottom
/// so that it takes the panes beyond three. The columns come first, from left
/// to right, then the rows below the middle column. One pane is the pane
/// itself; two panes cannot fill three columns and stand side by side as two
/// halves.
pub open spec fn double_main_vertical_arrangement(total: int, pane: Pane, first: int) -> Arrangement {
    if total <= 1 {
        single(pane)
    } else if total == 2 {
        even_arrangement(2, pane, SplitDirection::Right, first)
    } else {
        let cols = columns(pane, first);
        let to_place = total - 3;
        Arrangement {
            ops: even_ops(3, pane, SplitDirection::Right) + even_ops(
                to_place + 1,
                cols[1],
                SplitDirection::Bottom,
            ),
            panes: cols + even_children(to_place + 1, cols[1], first + 2),
        }
    }
}

/// Three columns, the panes beyond three as rows of the middle column.
pub fn double_main_vertical(
    total_panes: TotalPanes,
    starting_pane: Pane,
    script: &mut Script,
) -> (panes: Vec<Pane>)
    requires
        old(script).wf(),
        starting_pane.exists_in(old(script)),
    ensures
        arranged(
            *old(script),
            *final(script),
            panes@,
            double_main_vertical_arrangement(
                total_panes.0 as int,
                starting_pane,
                old(script).spec_pane_count() as int,
            ),
        ),
{
    let ghost first = script.spec_pane_count() as int;
    let ghost before = script@;
    let ghost target = double_main_vertical_arrangement(total_panes.0 as int, starting_pane, first);
    if total_panes.0 <= 1 {
        return undivided(starting_pane);
    }
    if total_panes.0 == 2 {
        // Two panes cannot fill three columns: they stand side by side.
        return split_even(total_panes, starting_pane, SplitDirection::Right, script);
    }
    let mut panes = split_columns(starting_pane, script);
    let main_col = panes[1];
    // The columns exist already: they do not count among the panes to create.
    let total_panes_to_gen: usize = total_panes.0 - 3;
    if total_panes_to_gen == 0 {
        return panes;
    }
    let mut rows = split_even(
        TotalPanes(total_panes_to_gen + 1),
        main_col,
        SplitDirection::Bottom,
        script,
    );
    let mut created_panes = rows.split_off(1);
    panes.append(&mut created_panes);
    proof {
        assert(script@ =~= before + target.ops);
        assert(panes@ =~= target.panes);
    }
    panes
}

/// Two main panes below a row: `pane` is split into a top and a bottom half,
/// the bottom half into a left and a right half, and the top half is divided
/// evenly from left to right so that it takes the panes beyond the two main
/// panes. The two main panes come first, then the panes of the top row; a
/// count of two leaves the top row out. One pane is the pane itself.
pub open spec fn double_main_horizontal_arrangement(
    total: int,
    pane: Pane,
    first: int,
) -> Arrangement {
    if total <= 1 {
        single(pane)
    } else {
        let bottom = child(pane, first);
        let bottom_right = child(bottom, first + 1);
        let to_place = beyond(total, 2);
        let top = even_arrangement(to_place, pane, SplitDirection::Right, first + 2);
        Arrangement {
            ops: seq![
                half_split(pane, SplitDirection::Bottom),
                half_split(bottom, SplitDirection::Right),
            ] + top.ops,
            panes: seq![bottom, bottom_right] + if to_place == 0 {
                Seq::<Pane>::empty()
            } else {
                top.panes
            },
        }
    }
}

/// Two main panes side by side, the other panes in a row above them.
pub fn double_main_horizontal(
    total_panes: TotalPanes,
    starting_pane: Pane,
    script: &mut Script,
) -> (panes: Vec<Pane>)
    requires
        old(script).wf(),
        starting_pane.exists_in(old(script)),
    ensures
        arranged(
            *old(script),
            *final(script),
            panes@,
            double_main_horizontal_arrangement(
                total_panes.0 as int,
                starting_pane,
                old(script).spec_pane_count() as int,
            ),
        ),
{
    let ghost first = script.spec_pane_count() as int;
    let ghost before = script@;
    let ghost target = double_main_horizontal_arrangement(
        total_panes.0 as int,
        starting_pane,
        first,
    );
    if total_panes.0 <= 1 {
        return undivided(starting_pane);
    }
    let row_count: usize = 2;
    let rows = split_even(TotalPanes(row_count), starting_pane, SplitDirection::Bottom, script);
    let visually_first_row = rows[0];
    let visually_last_row = rows[1];

    let mut panes: Vec<Pane> = Vec::new();
    let mut bottom_panes = split_even(
        TotalPanes(2),
        visually_last_row,
        SplitDirection::Right,
        script,
    );
    panes.append(&mut bottom_panes);
    assert(panes@ =~= seq![child(starting_pane, first), child(visually_last_row, first + 1)]);

    // The rows exist already: they do not count among the panes to create.
    let total_panes_to_gen: usize = if total_panes.0 > row_count {
        total_panes.0 - row_count
    } else {
        0
    };
    if total_panes_to_gen == 0 {
        proof {
            assert(script@ =~= before + target.ops);
        }
        return panes;
    }
    let mut top_panes = split_even(
        TotalPanes(total_panes_to_gen),
        visually_first_row,
        SplitDirection::Right,
        script,
    );
    panes.append(&mut top_panes);
    proof {
        assert(script@ =~= before + target.ops);
    }
    panes
}

/// What `layout` asks for when a window is to hold `total` panes, `pane` is
/// its first pane and `first` panes exist already. One pane is the first pane
/// itself, whatever the layout.
pub open spec fn arrangement(layout: Layout, total: int, pane: Pane, first: int) -> Arrangement {
    match layout {
        Layout::EvenHorizontal => even_arrangement(total, pane, SplitDirection::Right, first),
        Layout::EvenVertical => even_arrangement(total, pane, SplitDirection::Bottom, first),
        Layout::MainVertical => main_arrangement(total, pane, SplitDirection::Left, first),
        Layout::MainVerticalFlipped => main_arrangement(total, pane, SplitDirection::Right, first),
        Layout::Tiled => tiled_arrangement(total, pane, first),
        Layout::ThreeColumns => three_columns_arrangement(total, pane, first),
        Layout::DoubleMainVertical => double_main_vertical_arrangement(total, pane, first),
        Layout::DoubleMainHorizontal => double_main_horizontal_arrangement(total, pane, first),
    }
}

/// The number of splits that a layout makes for `total` panes: one for
/// every pane but the first. Two main panes below a row take two splits also
/// where no pane is left for the row: the pane that was split stays on the
/// screen and is not handed back.
pub open spec fn splits_of(layout: Layout, total: int) -> int {
    if layout is DoubleMainHorizontal && total == 2 {
        2
    } else {
        total - 1
    }
}

impl Layout {
    /// Lays out a window of `total_panes` panes that starts as the single
    /// pane `starting_pane`, and returns as many panes as were asked for, in
    /// the order in which commands are bound to them. A count of zero is
    /// refused and leaves the script as it is; a count of one asks for no
    /// split.
    pub fn create(&self, total_panes: TotalPanes, starting_pane: Pane, script: &mut Script) -> (panes:
        Option<Vec<Pane>>)
        requires
            old(script).wf(),
            starting_pane.exists_in(old(script)),
        ensures
            total_panes.0 == 0 <==> panes.is_none(),
            panes.is_none() ==> *final(script) == *old(script),
            panes matches Some(list) ==> arranged(
                *old(script),
                *final(script),
                list@,
                arrangement(
                    *self,
                    total_panes.0 as int,
                    starting_pane,
                    old(script).spec_pane_count() as int,
                ),
            ),
            total_panes.0 == 1 ==> (panes matches Some(list) && list@ == seq![starting_pane])
                && final(script)@ == old(script)@,
            panes matches Some(list) ==> list@.len() == total_panes.0,
            panes matches Some(list) ==> forall|i: int|
                0 <= i < list@.len() ==> (#[trigger] list@[i]).exists_in(final(script)),
            panes matches Some(list) ==> final(script).spec_pane_count() - old(
                script,
            ).spec_pane_count() == splits_of(*self, total_panes.0 as int),
    {
        if total_panes.0 == 0 {
            return None;
        }
        let ghost first = script.spec_pane_count() as int;
        if total_panes.0 == 1 {
            // One pane asks for no split: the command runs in the first pane.
            let mut only: Vec<Pane> = Vec::new();
            only.push(starting_pane);
            return Some(only);
        }
        let panes = match self {
            Layout::EvenHorizontal => even_horizontal(total_panes, starting_pane, script),
            Layout::EvenVertical => even_vertical(total_panes, starting_pane, script),
            Layout::MainVertical => main_vertical(total_panes, starting_pane, script),
            Layout::MainVerticalFlipped => main_vertical_flipped(
                total_panes,
                starting_pane,
                script,
            ),
            Layout::Tiled => tiled(total_panes, starting_pane, script),
            Layout::ThreeColumns => three_columns(total_panes, starting_pane, script),
            Layout::DoubleMainVertical => double_main_vertical(total_panes, starting_pane, script),
            Layout::DoubleMainHorizontal => double_main_horizontal(
                total_panes,
                starting_pane,
                script,
            ),
        };
        proof {
            lemma_arrangement_panes(*self, total_panes.0 as int, starting_pane, first);
        }
        Some(panes)
    }
}

} // verus!
