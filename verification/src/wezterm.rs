//! The multiplexer as the planner sees it: panes, the operations on them and
//! the command lines that perform the operations.

pub mod cli;
pub mod pane;
pub mod script;
pub mod tab;
