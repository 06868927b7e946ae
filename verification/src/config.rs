//! The configuration of a session as it has been read: windows, their
//! layouts and the commands of their panes.

use vstd::prelude::*;
use vstd::string::*;

use crate::layout::Layout;
use crate::text::{contains_text, occurs_in, same_text};

verus! {

/// One pane of a window: its commands and whether it asks for the focus.
#[derive(Debug, PartialEq, Eq)]
pub struct PaneConfigOptions {
    pub commands: Option<Vec<String>>,
    pub focus: bool,
}

/// The panes of a window: one command each, or one entry each.
#[derive(Debug, PartialEq, Eq)]
pub enum PaneConfig {
    Commands(Vec<String>),
    Hash(Vec<PaneConfigOptions>),
}

/// One window of a session.
#[derive(Debug, PartialEq, Eq)]
pub struct WindowConfig {
    pub name: Option<String>,
    pub root: Option<String>,
    pub layout: Option<String>,
    pub panes: Option<PaneConfig>,
    pub command: Option<String>,
    pub commands: Option<Vec<String>>,
    pub focus: bool,
}

/// A session: its windows in order.
#[derive(Debug, PartialEq, Eq)]
pub struct YAMLConfig {
    pub name: Option<String>,
    pub windows: Option<Vec<WindowConfig>>,
    pub pre: Option<String>,
}

/// The mathematical value of a [`PaneConfigOptions`].
pub struct PaneConfigOptionsView {
    pub commands: Option<Seq<Seq<char>>>,
    pub focus: bool,
}

/// The mathematical value of a [`PaneConfig`].
pub enum PaneConfigView {
    Commands(Seq<Seq<char>>),
    Hash(Seq<PaneConfigOptionsView>),
}

/// The mathematical value of a [`WindowConfig`].
pub struct WindowConfigView {
    pub name: Option<Seq<char>>,
    pub root: Option<Seq<char>>,
    pub layout: Option<Seq<char>>,
    pub panes: Option<PaneConfigView>,
    pub command: Option<Seq<char>>,
    pub commands: Option<Seq<Seq<char>>>,
    pub focus: bool,
}

/// The mathematical value of a [`YAMLConfig`].
pub struct YAMLConfigView {
    pub name: Option<Seq<char>>,
    pub windows: Option<Seq<WindowConfigView>>,
    pub pre: Option<Seq<char>>,
}

impl DeepView for PaneConfigOptions {
    type V = PaneConfigOptionsView;

    open spec fn deep_view(&self) -> PaneConfigOptionsView {
        PaneConfigOptionsView { commands: self.commands.deep_view(), focus: self.focus }
    }
}

impl DeepView for PaneConfig {
    type V = PaneConfigView;

    open spec fn deep_view(&self) -> PaneConfigView {
        match self {
            PaneConfig::Commands(commands) => PaneConfigView::Commands(commands.deep_view()),
            PaneConfig::Hash(entries) => PaneConfigView::Hash(entries.deep_view()),
        }
    }
}

impl DeepView for WindowConfig {
    type V = WindowConfigView;

    open spec fn deep_view(&self) -> WindowConfigView {
        WindowConfigView {
            name: self.name.deep_view(),
            root: self.root.deep_view(),
            layout: self.layout.deep_view(),
            panes: self.panes.deep_view(),
            command: self.command.deep_view(),
            commands: self.commands.deep_view(),
            focus: self.focus,
        }
    }
}

impl DeepView for YAMLConfig {
    type V = YAMLConfigView;

    open spec fn deep_view(&self) -> YAMLConfigView {
        YAMLConfigView {
            name: self.name.deep_view(),
            windows: self.windows.deep_view(),
            pre: self.pre.deep_view(),
        }
    }
}

/// The layout that a name stands for. A name that stands for none stands for
/// the tiled layout.
pub open spec fn spec_layout(name: Seq<char>) -> Layout {
    if name == "tiled"@ {
        Layout::Tiled
    } else if name == "even-horizontal"@ {
        Layout::EvenHorizontal
    } else if name == "main-vertical"@ {
        Layout::MainVertical
    } else if name == "main-vertical-flipped"@ {
        Layout::MainVerticalFlipped
    } else if name == "even-vertical"@ {
        Layout::EvenVertical
    } else if name == "3_columns"@ {
        Layout::ThreeColumns
    } else if name == "double-main-horizontal"@ {
        Layout::DoubleMainHorizontal
    } else if name == "double-main-vertical"@ {
        Layout::DoubleMainVertical
    } else {
        Layout::Tiled
    }
}

/// Resolves the name of a layout.
pub fn layout_string_to_enum(name: &str) -> (layout: Layout)
    ensures
        layout == spec_layout(name@),
{
    if same_text(name, "tiled") {
        Layout::Tiled
    } else if same_text(name, "even-horizontal") {
        Layout::EvenHorizontal
    } else if same_text(name, "main-vertical") {
        Layout::MainVertical
    } else if same_text(name, "main-vertical-flipped") {
        Layout::MainVerticalFlipped
    } else if same_text(name, "even-vertical") {
        Layout::EvenVertical
    } else if same_text(name, "3_columns") {
        Layout::ThreeColumns
    } else if same_text(name, "double-main-horizontal") {
        Layout::DoubleMainHorizontal
    } else if same_text(name, "double-main-vertical") {
        Layout::DoubleMainVertical
    } else {
        Layout::Tiled
    }
}

/// The name of a layout file: the name as given if `.yml` stands in it, else
/// the name with `.yml` behind it.
pub open spec fn spec_qualified(path: Seq<char>) -> Seq<char> {
    if occurs_in(path, ".yml"@) {
        path
    } else {
        path + ".yml"@
    }
}

/// Completes the name of a layout file.
pub fn qualify_layout_file(path: &str) -> (file: String)
    ensures
        file@ == spec_qualified(path@),
{
    if contains_text(path, ".yml") == false {
        String::from_str(path).concat(".yml")
    } else {
        String::from_str(path)
    }
}

/// The commands of the entries that have commands, in the order of the
/// entries.
pub open spec fn given_commands(entries: Seq<PaneConfigOptionsView>) -> Seq<Seq<Seq<char>>>
    decreases entries.len(),
{
    if entries.len() == 0 {
        Seq::empty()
    } else {
        let before = given_commands(entries.drop_last());
        match entries.last().commands {
            Some(commands) => before.push(commands),
            None => before,
        }
    }
}

/// The command groups of a window, one for each pane that it asks for: a
/// plain command is a group of its own; an entry without commands asks for
/// no pane.
pub open spec fn spec_command_groups(panes: Option<PaneConfigView>) -> Seq<Seq<Seq<char>>> {
    match panes {
        None => Seq::empty(),
        Some(PaneConfigView::Commands(commands)) => Seq::new(
            commands.len(),
            |i: int| seq![commands[i]],
        ),
        Some(PaneConfigView::Hash(entries)) => given_commands(entries),
    }
}

/// The focus flags of a window in the order of its entries: a plain command
/// cannot ask for the focus; an entry keeps its flag whether or not it has
/// commands.
pub open spec fn spec_focus_flags(panes: Option<PaneConfigView>) -> Seq<bool> {
    match panes {
        None => Seq::empty(),
        Some(PaneConfigView::Commands(commands)) => Seq::new(commands.len(), |i: int| false),
        Some(PaneConfigView::Hash(entries)) => Seq::new(entries.len(), |i: int| entries[i].focus),
    }
}

/// A copy of a list of texts.
fn copy_texts(texts: &Vec<String>) -> (copy: Vec<String>)
    ensures
        copy.deep_view() == texts.deep_view(),
{
    let mut copy: Vec<String> = Vec::new();
    let mut i: usize = 0;
    while i < texts.len()
        invariant
            i <= texts.len(),
            copy@.len() == i,
            forall|k: int| 0 <= k < i ==> copy@[k]@ == texts@[k]@,
        decreases texts.len() - i,
    {
        copy.push(texts[i].clone());
        i = i + 1;
    }
    copy
}

/// The layout of a window: the tiled layout if none is named.
pub open spec fn layout_named(name: Option<Seq<char>>) -> Layout {
    match name {
        Some(name) => spec_layout(name),
        None => Layout::Tiled,
    }
}

impl WindowConfig {
    /// The layout of the window.
    pub fn layout(&self) -> (layout: Layout)
        ensures
            layout == layout_named(self.layout.deep_view()),
    {
        match &self.layout {
            Some(name) => layout_string_to_enum(name.as_str()),
            None => Layout::Tiled,
        }
    }

    /// The command groups of the window, one for each pane that it asks for.
    pub fn command_groups(&self) -> (groups: Vec<Vec<String>>)
        ensures
            groups.deep_view() == spec_command_groups(self.panes.deep_view()),
    {
        let mut groups: Vec<Vec<String>> = Vec::new();
        match &self.panes {
            None => {},
            Some(PaneConfig::Commands(commands)) => {
                let mut i: usize = 0;
                while i < commands.len()
                    invariant
                        i <= commands.len(),
                        groups@.len() == i,
                        forall|k: int|
                            0 <= k < i ==> (#[trigger] groups@[k]).deep_view() == seq![
                                commands@[k]@,
                            ],
                    decreases commands.len() - i,
                {
                    let mut group: Vec<String> = Vec::new();
                    group.push(commands[i].clone());
                    groups.push(group);
                    i = i + 1;
                }
            },
            Some(PaneConfig::Hash(entries)) => {
                let mut i: usize = 0;
                while i < entries.len()
                    invariant
                        i <= entries.len(),
                        groups.deep_view() == given_commands(entries.deep_view().take(i as int)),
                    decreases entries.len() - i,
                {
                    proof {
                        let all = entries.deep_view();
                        assert(all.take(i + 1).drop_last() =~= all.take(i as int));
                    }
                    // An entry without commands asks for no pane.
                    if let Some(cmds) = &entries[i].commands {
                        let group = copy_texts(cmds);
                        groups.push(group);
                    }
                    i = i + 1;
                }
                assert(entries.deep_view().take(i as int) =~= entries.deep_view());
            },
        }
        groups
    }

    /// The focus flags of the window in the order of its entries.
    pub fn focus_flags(&self) -> (flags: Vec<bool>)
        ensures
            flags@ == spec_focus_flags(self.panes.deep_view()),
    {
        let mut flags: Vec<bool> = Vec::new();
        match &self.panes {
            None => {},
            Some(PaneConfig::Commands(commands)) => {
                let mut i: usize = 0;
                while i < commands.len()
                    invariant
                        i <= commands.len(),
                        flags@.len() == i,
                        forall|k: int| 0 <= k < i ==> flags@[k] == false,
                    decreases commands.len() - i,
                {
                    // A plain command cannot ask for the focus.
                    flags.push(false);
                    i = i + 1;
                }
            },
            Some(PaneConfig::Hash(entries)) => {
                let mut i: usize = 0;
                while i < entries.len()
                    invariant
                        i <= entries.len(),
                        flags@.len() == i,
                        forall|k: int| 0 <= k < i ==> flags@[k] == entries@[k].focus,
                    decreases entries.len() - i,
                {
                    flags.push(entries[i].focus);
                    i = i + 1;
                }
            },
        }
        flags
    }
}

} // verus!
