//! Tabs: the windows that a script opens.

use vstd::prelude::*;
use vstd::string::*;

use crate::wezterm::script::{Operation, OperationView, Script};

verus! {

/// A tab of a script, named by the number of its first pane.
#[derive(Clone, Copy, Debug, PartialEq, Eq, Structural)]
pub struct Tab {
    pub id: usize,
}

impl Tab {
    /// Opens a new tab, in the working directory `cwd` if one is given.
    pub fn new(cwd: Option<&str>, script: &mut Script) -> (tab: Tab)
        requires
            old(script).wf(),
        ensures
            final(script).wf(),
            final(script)@ == old(script)@.push(OperationView::Spawn { cwd: cwd.deep_view() }),
            final(script).spec_pane_count() == old(script).spec_pane_count() + 1,
            tab == (Tab { id: old(script).pane_count() }),
    {
        let cwd = match cwd {
            Some(dir) => Some(String::from_str(dir)),
            None => None,
        };
        let id = script.record(Operation::Spawn { cwd });
        Tab { id: id.unwrap() }
    }
}

} // verus!
