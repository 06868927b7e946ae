//! The command lines that perform the multiplexer's operations.

use vstd::prelude::*;
use vstd::string::*;

use crate::text::{decimal, decimal_text};
use crate::{strip_trailing_newline, without_trailing_newline};
use crate::wezterm::pane::SplitDirection;
use crate::wezterm::script::{Operation, OperationView};

verus! {

/// A program and the arguments to start it with.
#[derive(Debug, PartialEq, Eq)]
pub struct Invocation {
    pub program: String,
    pub args: Vec<String>,
}

/// The mathematical value of an [`Invocation`].
pub struct InvocationView {
    pub program: Seq<char>,
    pub args: Seq<Seq<char>>,
}

impl DeepView for Invocation {
    type V = InvocationView;

    open spec fn deep_view(&self) -> InvocationView {
        InvocationView { program: self.program@, args: self.args.deep_view() }
    }
}

/// A call of the multiplexer's command line program with `args`.
pub open spec fn wezterm(args: Seq<Seq<char>>) -> InvocationView {
    InvocationView { program: "wezterm"@, args }
}

/// The flag that names a split's direction.
pub open spec fn direction_flag(direction: SplitDirection) -> Seq<char> {
    match direction {
        SplitDirection::Right => "--right"@,
        SplitDirection::Left => "--left"@,
        SplitDirection::Top => "--top"@,
        SplitDirection::Bottom => "--bottom"@,
    }
}

/// The arguments that split a pane: the pane, the direction, the share in
/// decimal notation if one is given, and the flag for a split of the whole
/// tab if it is asked for.
pub open spec fn split_pane_args(
    pane_id: Seq<char>,
    direction: SplitDirection,
    percentage: Option<u8>,
    top_level: bool,
) -> Seq<Seq<char>> {
    seq!["cli"@, "split-pane"@, "--pane-id"@, pane_id, direction_flag(direction)] + match percentage {
        Some(p) => seq!["--percent"@, decimal(p as nat)],
        None => Seq::<Seq<char>>::empty(),
    } + if top_level {
        seq!["--top-level"@]
    } else {
        Seq::<Seq<char>>::empty()
    }
}

/// The arguments that open a new window, in `cwd` if it is given.
pub open spec fn spawn_args(cwd: Option<Seq<char>>) -> Seq<Seq<char>> {
    seq!["cli"@, "spawn"@] + match cwd {
        Some(dir) => seq!["--cwd"@, dir],
        None => Seq::<Seq<char>>::empty(),
    }
}

/// The arguments that set the title of the tab that holds a pane.
pub open spec fn set_tab_title_args(pane_id: Seq<char>, title: Seq<char>) -> Seq<Seq<char>> {
    seq!["cli"@, "set-tab-title"@, title, "--pane-id"@, pane_id]
}

/// The arguments that give a pane the input focus.
pub open spec fn focus_args(pane_id: Seq<char>) -> Seq<Seq<char>> {
    seq!["cli"@, "activate-pane"@, "--pane-id"@, pane_id]
}

/// The two command lines that send `text` to a pane: the first prints the
/// text, and what it prints is the input of the second, which types it into
/// the pane.
pub open spec fn send_text_calls(pane_id: Seq<char>, text: Seq<char>) -> (
    InvocationView,
    InvocationView,
) {
    (
        InvocationView { program: "echo"@, args: seq![text] },
        wezterm(seq!["cli"@, "send-text"@, "--pane-id"@, pane_id, "--no-paste"@]),
    )
}

/// Why a call of the multiplexer has given no pane.
#[derive(Clone, Copy, Debug, PartialEq, Eq, Structural)]
pub enum TransportFailure {
    /// The multiplexer has reported that the call failed.
    CallFailed,
    /// The multiplexer has printed no identifier.
    NoIdentifier,
}

impl TransportFailure {
    /// The text that tells the failure to a reader.
    pub open spec fn spec_message(self) -> Seq<char> {
        match self {
            TransportFailure::CallFailed => "the multiplexer reported a failure"@,
            TransportFailure::NoIdentifier => "the multiplexer printed no pane identifier"@,
        }
    }

    /// The text that tells the failure to a reader.
    pub fn message(&self) -> (text: String)
        ensures
            text@ == self.spec_message(),
    {
        match self {
            TransportFailure::CallFailed => String::from_str("the multiplexer reported a failure"),
            TransportFailure::NoIdentifier => String::from_str(
                "the multiplexer printed no pane identifier",
            ),
        }
    }
}

/// The identifier of the pane that a call of the multiplexer has created:
/// what the multiplexer has printed, without the line ending that closes it.
/// A call that failed has created no pane, and neither has a call that
/// printed nothing.
pub open spec fn spec_pane_identifier(succeeded: bool, printed: Seq<char>) -> Result<
    Seq<char>,
    TransportFailure,
> {
    if !succeeded {
        Err(TransportFailure::CallFailed)
    } else if without_trailing_newline(printed).len() == 0 {
        Err(TransportFailure::NoIdentifier)
    } else {
        Ok(without_trailing_newline(printed))
    }
}

/// Reads the identifier of a new pane from the answer of the multiplexer:
/// whether the call succeeded, and what it printed.
pub fn pane_identifier(succeeded: bool, printed: &str) -> (identifier: Result<
    String,
    TransportFailure,
>)
    ensures
        match spec_pane_identifier(succeeded, printed@) {
            Ok(id) => identifier is Ok && identifier->Ok_0@ == id,
            Err(failure) => identifier == Err::<String, TransportFailure>(failure),
        },
{
    if !succeeded {
        return Err(TransportFailure::CallFailed);
    }
    let id = strip_trailing_newline(printed);
    if id.unicode_len() == 0 {
        return Err(TransportFailure::NoIdentifier);
    }
    Ok(String::from_str(id))
}

/// The command lines of the multiplexer.
pub struct CLI {}

impl CLI {
    /// A call of the multiplexer's program with `args`.
    fn new(args: Vec<String>) -> (call: Invocation)
        ensures
            call.deep_view() == wezterm(args.deep_view()),
    {
        Invocation { program: String::from_str("wezterm"), args }
    }

    /// The command line that splits the pane `pane_id`. The multiplexer
    /// prints the new pane's identifier.
    pub fn split_pane(
        pane_id: &str,
        direction: &SplitDirection,
        percentage: Option<u8>,
        top_level: bool,
    ) -> (call: Invocation)
        ensures
            call.deep_view() == wezterm(
                split_pane_args(pane_id@, *direction, percentage, top_level),
            ),
    {
        let mut commands: Vec<String> = Vec::new();
        commands.push(String::from_str("cli"));
        commands.push(String::from_str("split-pane"));
        commands.push(String::from_str("--pane-id"));
        commands.push(String::from_str(pane_id));
        let dir = match direction {
            SplitDirection::Right => "--right",
            SplitDirection::Left => "--left",
            SplitDirection::Top => "--top",
            SplitDirection::Bottom => "--bottom",
        };
        commands.push(String::from_str(dir));
        if let Some(p) = percentage {
            commands.push(String::from_str("--percent"));
            commands.push(decimal_text(p));
        }
        if top_level {
            commands.push(String::from_str("--top-level"));
        }
        assert(commands.deep_view() =~= split_pane_args(
            pane_id@,
            *direction,
            percentage,
            top_level,
        ));
        CLI::new(commands)
    }

    /// The command line that opens a new window. The multiplexer prints the
    /// identifier of the window's first pane.
    pub fn spawn(cwd: Option<&str>) -> (call: Invocation)
        ensures
            call.deep_view() == wezterm(spawn_args(cwd.deep_view())),
    {
        let mut commands: Vec<String> = Vec::new();
        commands.push(String::from_str("cli"));
        commands.push(String::from_str("spawn"));
        match cwd {
            Some(dir) => {
                commands.push(String::from_str("--cwd"));
                commands.push(String::from_str(dir));
            },
            None => (),
        };
        assert(commands.deep_view() =~= spawn_args(cwd.deep_view()));
        CLI::new(commands)
    }

    /// The command line that sets the title of the tab that holds the pane
    /// `pane_id`.
    pub fn set_tab_title(pane_id: &str, title: &str) -> (call: Invocation)
        ensures
            call.deep_view() == wezterm(set_tab_title_args(pane_id@, title@)),
    {
        let mut commands: Vec<String> = Vec::new();
        commands.push(String::from_str("cli"));
        commands.push(String::from_str("set-tab-title"));
        commands.push(String::from_str(title));
        commands.push(String::from_str("--pane-id"));
        commands.push(String::from_str(pane_id));
        assert(commands.deep_view() =~= set_tab_title_args(pane_id@, title@));
        CLI::new(commands)
    }

    /// The command line that gives the pane `pane_id` the input focus.
    pub fn focus(pane_id: &str) -> (call: Invocation)
        ensures
            call.deep_view() == wezterm(focus_args(pane_id@)),
    {
        let mut commands: Vec<String> = Vec::new();
        commands.push(String::from_str("cli"));
        commands.push(String::from_str("activate-pane"));
        commands.push(String::from_str("--pane-id"));
        commands.push(String::from_str(pane_id));
        assert(commands.deep_view() =~= focus_args(pane_id@));
        CLI::new(commands)
    }

    /// The two command lines that send `command` to the pane `pane_id`: the
    /// first prints the command, and what it prints is the input of the
    /// second, which types it into the pane.
    pub fn run_command(pane_id: &str, command: &str) -> (calls: (Invocation, Invocation))
        ensures
            calls.deep_view() == send_text_calls(pane_id@, command@),
    {
        let mut printed: Vec<String> = Vec::new();
        printed.push(String::from_str(command));
        assert(printed.deep_view() =~= seq![command@]);
        let print = Invocation { program: String::from_str("echo"), args: printed };
        let mut commands: Vec<String> = Vec::new();
        commands.push(String::from_str("cli"));
        commands.push(String::from_str("send-text"));
        commands.push(String::from_str("--pane-id"));
        commands.push(String::from_str(pane_id));
        commands.push(String::from_str("--no-paste"));
        assert(commands.deep_view() =~= seq![
            "cli"@,
            "send-text"@,
            "--pane-id"@,
            pane_id@,
            "--no-paste"@,
        ]);
        (print, CLI::new(commands))
    }
}

/// The command lines that perform an operation when the panes created so far
/// have the identifiers `pane_ids`, in the order of creation: one command
/// line, or two of which the first prints the input of the second. There are
/// none for an operation on a pane that has no identifier yet.
pub open spec fn spec_command_lines(op: OperationView, pane_ids: Seq<Seq<char>>) -> Option<
    Seq<InvocationView>,
> {
    match op.target() {
        Some(pane) if pane >= pane_ids.len() => None,
        _ => Some(
            match op {
                OperationView::Spawn { cwd } => seq![wezterm(spawn_args(cwd))],
                OperationView::Split { pane, direction, percentage, top_level } => seq![
                    wezterm(split_pane_args(pane_ids[pane as int], direction, percentage, top_level)),
                ],
                OperationView::SetTabTitle { pane, title } => seq![
                    wezterm(set_tab_title_args(pane_ids[pane as int], title)),
                ],
                OperationView::SendText { pane, text } => seq![
                    send_text_calls(pane_ids[pane as int], text).0,
                    send_text_calls(pane_ids[pane as int], text).1,
                ],
                OperationView::Activate { pane } => seq![wezterm(focus_args(pane_ids[pane as int]))],
            },
        ),
    }
}

/// The command lines that perform `op` when the panes created so far have the
/// identifiers `pane_ids`, in the order of creation.
pub fn command_lines(op: &Operation, pane_ids: &Vec<String>) -> (calls: Option<Vec<Invocation>>)
    ensures
        calls.deep_view() == spec_command_lines(op.deep_view(), pane_ids.deep_view()),
{
    let mut calls: Vec<Invocation> = Vec::new();
    match op {
        Operation::Spawn { cwd } => {
            let call = match cwd {
                Some(dir) => CLI::spawn(Some(dir.as_str())),
                None => CLI::spawn(None),
            };
            calls.push(call);
        },
        Operation::Split { pane, direction, percentage, top_level } => {
            if *pane >= pane_ids.len() {
                return None;
            }
            calls.push(
                CLI::split_pane(pane_ids[*pane].as_str(), direction, *percentage, *top_level),
            );
        },
        Operation::SetTabTitle { pane, title } => {
            if *pane >= pane_ids.len() {
                return None;
            }
            calls.push(CLI::set_tab_title(pane_ids[*pane].as_str(), title.as_str()));
        },
        Operation::SendText { pane, text } => {
            if *pane >= pane_ids.len() {
                return None;
            }
            let (print, send) = CLI::run_command(pane_ids[*pane].as_str(), text.as_str());
            calls.push(print);
            calls.push(send);
        },
        Operation::Activate { pane } => {
            if *pane >= pane_ids.len() {
                return None;
            }
            calls.push(CLI::focus(pane_ids[*pane].as_str()));
        },
    }
    Some(calls)
}

} // verus!
