//! The script of multiplexer operations that a layout asks for, in the order
//! in which they are to be performed.

use vstd::prelude::*;

use crate::wezterm::pane::SplitDirection;

verus! {

/// One request to the multiplexer. Panes are named by their position in the
/// order of creation: the first pane that a script creates is pane 0.
#[derive(Debug, PartialEq, Eq)]
pub enum Operation {
    /// Open a new window, optionally in a working directory. Creates a pane.
    Spawn { cwd: Option<String> },
    /// Split `pane` in `direction`; the new pane takes `percentage` of the
    /// space of the pane that is split. Creates a pane.
    Split { pane: usize, direction: SplitDirection, percentage: Option<u8>, top_level: bool },
    /// Set the title of the tab that holds `pane`.
    SetTabTitle { pane: usize, title: String },
    /// Send `text` to `pane` as if it had been typed there.
    SendText { pane: usize, text: String },
    /// Give `pane` the input focus.
    Activate { pane: usize },
}

/// The mathematical value of an [`Operation`]: strings are sequences of
/// characters.
pub enum OperationView {
    Spawn { cwd: Option<Seq<char>> },
    Split { pane: usize, direction: SplitDirection, percentage: Option<u8>, top_level: bool },
    SetTabTitle { pane: usize, title: Seq<char> },
    SendText { pane: usize, text: Seq<char> },
    Activate { pane: usize },
}

impl DeepView for Operation {
    type V = OperationView;

    open spec fn deep_view(&self) -> OperationView {
        match self {
            Operation::Spawn { cwd } => OperationView::Spawn { cwd: cwd.deep_view() },
            Operation::Split { pane, direction, percentage, top_level } => OperationView::Split {
                pane: *pane,
                direction: *direction,
                percentage: *percentage,
                top_level: *top_level,
            },
            Operation::SetTabTitle { pane, title } => OperationView::SetTabTitle {
                pane: *pane,
                title: title@,
            },
            Operation::SendText { pane, text } => OperationView::SendText {
                pane: *pane,
                text: text@,
            },
            Operation::Activate { pane } => OperationView::Activate { pane: *pane },
        }
    }
}

impl OperationView {
    /// Whether the multiplexer answers the operation with a new pane.
    pub open spec fn creates_pane(self) -> bool {
        self is Spawn || self is Split
    }

    /// The pane that the operation acts on, if it acts on one.
    pub open spec fn target(self) -> Option<usize> {
        match self {
            OperationView::Spawn { .. } => None,
            OperationView::Split { pane, .. } => Some(pane),
            OperationView::SetTabTitle { pane, .. } => Some(pane),
            OperationView::SendText { pane, .. } => Some(pane),
            OperationView::Activate { pane } => Some(pane),
        }
    }
}

/// The number of panes that a sequence of operations creates.
#[verifier::opaque]
pub open spec fn panes_created(ops: Seq<OperationView>) -> nat
    decreases ops.len(),
{
    if ops.len() == 0 {
        0
    } else {
        panes_created(ops.drop_last()) + if ops.last().creates_pane() {
            1nat
        } else {
            0nat
        }
    }
}

/// Every operation acts on a pane that an earlier operation has created: the
/// pane tree is built from the top down.
#[verifier::opaque]
pub open spec fn sequential(ops: Seq<OperationView>) -> bool {
    forall|i: int|
        0 <= i < ops.len() ==> match (#[trigger] ops[i]).target() {
            Some(pane) => pane < panes_created(ops.take(i)),
            None => true,
        }
}

/// Appending one operation adds one pane if the operation creates one.
pub proof fn lemma_panes_created_push(ops: Seq<OperationView>, op: OperationView)
    ensures
        panes_created(ops.push(op)) == panes_created(ops) + if op.creates_pane() {
            1nat
        } else {
            0nat
        },
{
    reveal(panes_created);
    assert(ops.push(op).drop_last() =~= ops);
}

/// The panes that two sequences of operations create add up.
pub proof fn lemma_panes_created_concat(a: Seq<OperationView>, b: Seq<OperationView>)
    ensures
        panes_created(a + b) == panes_created(a) + panes_created(b),
    decreases b.len(),
{
    reveal(panes_created);
    if b.len() == 0 {
        assert(a + b =~= a);
    } else {
        lemma_panes_created_concat(a, b.drop_last());
        assert((a + b).drop_last() =~= a + b.drop_last());
    }
}

/// A sequential script stays sequential when an operation is appended that
/// acts on one of the panes created so far.
pub proof fn lemma_sequential_push(ops: Seq<OperationView>, op: OperationView)
    requires
        sequential(ops),
        op.target() matches Some(pane) ==> pane < panes_created(ops),
    ensures
        sequential(ops.push(op)),
{
    reveal(sequential);
    let next = ops.push(op);
    assert forall|i: int| 0 <= i < next.len() implies match (#[trigger] next[i]).target() {
        Some(pane) => pane < panes_created(next.take(i)),
        None => true,
    } by {
        if i < ops.len() {
            assert(next.take(i) =~= ops.take(i));
        } else {
            assert(next.take(i) =~= ops);
        }
    }
}

/// An ordered script of multiplexer operations, together with the number of
/// panes that it creates.
pub struct Script {
    ops: Vec<Operation>,
    panes: usize,
}

impl View for Script {
    type V = Seq<OperationView>;

    closed spec fn view(&self) -> Seq<OperationView> {
        self.ops.deep_view()
    }
}

impl Script {
    /// The number of panes that exist once the script has been performed.
    pub closed spec fn spec_pane_count(&self) -> usize {
        self.panes
    }

    /// The script counts its panes correctly and splits no pane before it
    /// exists.
    pub open spec fn wf(&self) -> bool {
        &&& self.spec_pane_count() == panes_created(self@)
        &&& sequential(self@)
    }

    /// The empty script.
    pub fn new() -> (script: Script)
        ensures
            script.wf(),
            script@ == Seq::<OperationView>::empty(),
            script.spec_pane_count() == 0,
    {
        let script = Script { ops: Vec::new(), panes: 0 };
        proof {
            reveal(sequential);
            reveal(panes_created);
        }
        script
    }

    /// The number of panes that exist once the script has been performed.
    #[verifier::when_used_as_spec(spec_pane_count)]
    pub fn pane_count(&self) -> (count: usize)
        ensures
            count == self.spec_pane_count(),
    {
        self.panes
    }

    /// The operations in the order in which they are to be performed.
    pub fn operations(&self) -> (ops: &Vec<Operation>)
        ensures
            ops.deep_view() == self@,
    {
        &self.ops
    }

    /// Appends an operation that acts on an existing pane, or on none, and
    /// returns the number of the pane that it creates, if it creates one.
    pub fn record(&mut self, op: Operation) -> (created: Option<usize>)
        requires
            old(self).wf(),
            op.deep_view().target() matches Some(pane) ==> pane < old(self).spec_pane_count(),
        ensures
            final(self).wf(),
            final(self)@ == old(self)@.push(op.deep_view()),
            op.deep_view().creates_pane() ==> created == Some(old(self).pane_count())
                && final(self).spec_pane_count() == old(self).spec_pane_count() + 1,
            !op.deep_view().creates_pane() ==> created.is_none() && final(self).spec_pane_count()
                == old(self).spec_pane_count(),
    {
        let creates = match &op {
            Operation::Spawn { .. } => true,
            Operation::Split { .. } => true,
            _ => false,
        };
        proof {
            lemma_panes_created_push(self@, op.deep_view());
            lemma_sequential_push(self@, op.deep_view());
            lemma_panes_created_bound(self@);
        }
        let ghost before = self.ops.deep_view();
        self.ops.push(op);
        assert(self.ops.deep_view() =~= before.push(op.deep_view()));
        if creates {
            let id = self.panes;
            // No more panes than operations: the count cannot overflow.
            let operations = self.ops.len();
            assert(id < operations);
            self.panes = id + 1;
            Some(id)
        } else {
            None
        }
    }
}

/// In a sequential script the operation at place `i` acts on a pane that the
/// operations before it have created.
pub proof fn lemma_sequential_at(ops: Seq<OperationView>, i: int)
    requires
        sequential(ops),
        0 <= i < ops.len(),
    ensures
        ops[i].target() matches Some(pane) ==> pane < panes_created(ops.take(i)),
{
    reveal(sequential);
}

/// A script creates at most as many panes as it has operations.
pub proof fn lemma_panes_created_bound(ops: Seq<OperationView>)
    ensures
        panes_created(ops) <= ops.len(),
    decreases ops.len(),
{
    reveal(panes_created);
    if ops.len() > 0 {
        lemma_panes_created_bound(ops.drop_last());
    }
}

} // verus!
