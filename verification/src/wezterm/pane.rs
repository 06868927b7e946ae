//! Panes and the operations that create and address them.

use vstd::prelude::*;
use vstd::string::*;

use crate::wezterm::script::{Operation, OperationView, Script};

verus! {

/// The side of a pane on which a split puts the new pane.
#[derive(Clone, Copy, Debug, PartialEq, Eq, Structural)]
pub enum SplitDirection {
    Right,
    Left,
    Bottom,
    Top,
}

/// A pane of a script: its number in the order of creation, and the number of
/// the pane that it was split from. The pane that opens a window has no
/// parent.
#[derive(Clone, Copy, Debug, PartialEq, Eq, Structural)]
pub struct Pane {
    pub id: usize,
    pub parent_id: Option<usize>,
}

impl Pane {
    /// Whether the pane is one of the panes that `script` has created.
    pub open spec fn exists_in(&self, script: &Script) -> bool {
        self.id < script.spec_pane_count()
    }

    /// Opens a new window, in the working directory `cwd` if one is given,
    /// and returns its first pane.
    pub fn new(cwd: Option<&str>, script: &mut Script) -> (pane: Pane)
        requires
            old(script).wf(),
        ensures
            final(script).wf(),
            final(script)@ == old(script)@.push(OperationView::Spawn { cwd: cwd.deep_view() }),
            final(script).spec_pane_count() == old(script).spec_pane_count() + 1,
            pane == (Pane { id: old(script).pane_count(), parent_id: None }),
    {
        let cwd = match cwd {
            Some(dir) => Some(String::from_str(dir)),
            None => None,
        };
        let created = script.record(Operation::Spawn { cwd });
        Pane { id: created.unwrap(), parent_id: None }
    }

    /// Splits this pane, or `parent` if one is given, and returns the pane
    /// that the split creates. The new pane lies in `direction` of the pane
    /// that is split and takes `percentage` of its space; with `top_level`
    /// the split divides the whole tab rather than the one pane.
    pub fn split(
        &self,
        direction: SplitDirection,
        percentage: Option<u8>,
        parent: Option<&Pane>,
        top_level: bool,
        script: &mut Script,
    ) -> (pane: Pane)
        requires
            old(script).wf(),
            match parent {
                Some(p) => p.exists_in(old(script)),
                None => self.exists_in(old(script)),
            },
        ensures
            final(script).wf(),
            final(script)@ == old(script)@.push(
                OperationView::Split {
                    pane: split_target(*self, parent),
                    direction,
                    percentage,
                    top_level,
                },
            ),
            final(script).spec_pane_count() == old(script).spec_pane_count() + 1,
            pane == (Pane {
                id: old(script).pane_count(),
                parent_id: Some(split_target(*self, parent)),
            }),
    {
        let pane_to_split = match parent {
            Some(pane) => pane.id,
            None => self.id,
        };
        let created = script.record(
            Operation::Split { pane: pane_to_split, direction, percentage, top_level },
        );
        Pane { id: created.unwrap(), parent_id: Some(pane_to_split) }
    }

    /// Sets the title of the tab that holds this pane.
    pub fn set_tab_title(&self, title: &str, script: &mut Script)
        requires
            old(script).wf(),
            self.exists_in(old(script)),
        ensures
            final(script).wf(),
            final(script)@ == old(script)@.push(
                OperationView::SetTabTitle { pane: self.id, title: title@ },
            ),
            final(script).spec_pane_count() == old(script).spec_pane_count(),
    {
        script.record(Operation::SetTabTitle { pane: self.id, title: String::from_str(title) });
    }

    /// Gives this pane the input focus.
    pub fn focus(&self, script: &mut Script)
        requires
            old(script).wf(),
            self.exists_in(old(script)),
        ensures
            final(script).wf(),
            final(script)@ == old(script)@.push(OperationView::Activate { pane: self.id }),
            final(script).spec_pane_count() == old(script).spec_pane_count(),
    {
        script.record(Operation::Activate { pane: self.id });
    }

    /// Sends `command` to this pane as if it had been typed there.
    pub fn run_command(&self, command: &str, script: &mut Script)
        requires
            old(script).wf(),
            self.exists_in(old(script)),
        ensures
            final(script).wf(),
            final(script)@ == old(script)@.push(
                OperationView::SendText { pane: self.id, text: command@ },
            ),
            final(script).spec_pane_count() == old(script).spec_pane_count(),
    {
        script.record(Operation::SendText { pane: self.id, text: String::from_str(command) });
    }
}

/// The number of the pane that a split divides: the parent's if one is named,
/// else the pane's own.
pub open spec fn split_target(pane: Pane, parent: Option<&Pane>) -> usize {
    match parent {
        Some(p) => p.id,
        None => pane.id,
    }
}

} // verus!
