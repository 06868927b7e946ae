//! Windows: opening them, binding their panes to commands, and choosing the
//! pane that gets the focus.

use vstd::prelude::*;
use vstd::string::*;

use crate::config::{
    layout_named, spec_command_groups, spec_focus_flags, WindowConfig, WindowConfigView,
    YAMLConfig, YAMLConfigView,
};
use crate::layout::{arrangement, Arrangement, Layout, TotalPanes};
use crate::wezterm::pane::Pane;
use crate::wezterm::script::{lemma_panes_created_concat, panes_created, OperationView, Script};

verus! {

/// The pane that gets the focus: the number of its window and its place among
/// the window's panes.
#[derive(Clone, Copy, Debug, PartialEq, Eq, Structural)]
pub struct FocusTuple(pub usize, pub usize);

/// The panes of each window, in the order in which commands are bound to
/// them.
#[derive(Debug, PartialEq, Eq)]
pub struct WindowPanes(pub Vec<Vec<Pane>>);

impl View for WindowPanes {
    type V = Seq<Seq<Pane>>;

    open spec fn view(&self) -> Seq<Seq<Pane>> {
        Seq::new(self.0@.len(), |w: int| self.0@[w]@)
    }
}

/// What a configuration asks for and the panes cannot give.
#[derive(Clone, Copy, Debug, PartialEq, Eq, Structural)]
pub enum ConfigurationMismatch {
    /// There are more command groups than panes to run them in.
    UnusedCommands,
    /// The window that is to get the focus does not exist.
    NoSuchWindow,
    /// The pane that is to get the focus does not exist in its window.
    NoSuchPane,
}

impl ConfigurationMismatch {
    /// The text that tells the mismatch to a reader.
    pub open spec fn spec_message(self) -> Seq<char> {
        match self {
            ConfigurationMismatch::UnusedCommands =>
                "Pane to run commands in should exist!\nDoes the layout hold every pane?"@,
            ConfigurationMismatch::NoSuchWindow =>
                "Window to focus should exist!\nIs the layout file empty?"@,
            ConfigurationMismatch::NoSuchPane =>
                "Pane to focus should exist!\nIs the layout file malformed?"@,
        }
    }

    /// The text that tells the mismatch to a reader.
    pub fn message(&self) -> (text: String)
        ensures
            text@ == self.spec_message(),
    {
        match self {
            ConfigurationMismatch::UnusedCommands => String::from_str(
                "Pane to run commands in should exist!\nDoes the layout hold every pane?",
            ),
            ConfigurationMismatch::NoSuchWindow => String::from_str(
                "Window to focus should exist!\nIs the layout file empty?",
            ),
            ConfigurationMismatch::NoSuchPane => String::from_str(
                "Pane to focus should exist!\nIs the layout file malformed?",
            ),
        }
    }
}

/// The operations that send the commands of one group to `pane`, in order.
pub open spec fn group_ops(pane: Pane, group: Seq<Seq<char>>) -> Seq<OperationView> {
    Seq::new(group.len(), |j: int| OperationView::SendText { pane: pane.id, text: group[j] })
}

/// The operations that send the first `count` command groups to the first
/// `count` panes: group `i` goes to pane `i`.
pub open spec fn bound_ops(panes: Seq<Pane>, groups: Seq<Seq<Seq<char>>>, count: int) -> Seq<
    OperationView,
>
    decreases count,
{
    if count <= 0 {
        Seq::empty()
    } else {
        bound_ops(panes, groups, count - 1) + group_ops(panes[count - 1], groups[count - 1])
    }
}

/// Whether pane `i` of a window of `panes` panes asks for the focus by its
/// flag.
pub open spec fn declares(flags: Seq<bool>, panes: int, i: int) -> bool {
    0 <= i < panes && i < flags.len() && flags[i]
}

/// How the panes of window `window` move the focus: to the last of them that
/// asks for it; if none does, the focus stays where it was.
pub open spec fn focus_moved(
    before: FocusTuple,
    after: FocusTuple,
    window: usize,
    flags: Seq<bool>,
    panes: int,
) -> bool {
    ||| (after == before && forall|i: int| !declares(flags, panes, i))
    ||| (after.0 == window && declares(flags, panes, after.1 as int) && forall|i: int|
        after.1 < i ==> !declares(flags, panes, i))
}

/// Binds the command groups of window `window_index` to its panes, group `i`
/// to pane `i`, and sends each command to its pane in order. More groups than
/// panes are refused before anything is sent. The focus moves to the last
/// pane whose flag is set.
pub fn run_commands(
    panes: &Vec<Pane>,
    commands: &Vec<Vec<String>>,
    focus_list: &Vec<bool>,
    window_index: usize,
    focus: FocusTuple,
    script: &mut Script,
) -> (bound: Result<FocusTuple, ConfigurationMismatch>)
    requires
        old(script).wf(),
        forall|i: int| 0 <= i < panes@.len() ==> (#[trigger] panes@[i]).exists_in(old(script)),
    ensures
        final(script).wf(),
        final(script).spec_pane_count() == old(script).spec_pane_count(),
        commands@.len() > panes@.len() <==> bound is Err,
        bound is Err ==> bound == Err::<FocusTuple, ConfigurationMismatch>(
            ConfigurationMismatch::UnusedCommands,
        ) && final(script)@ == old(script)@,
        bound matches Ok(after) ==> final(script)@ == old(script)@ + bound_ops(
            panes@,
            commands.deep_view(),
            commands@.len() as int,
        ) && focus_moved(focus, after, window_index, focus_list@, panes@.len() as int),
{
    if commands.len() > panes.len() {
        return Err(ConfigurationMismatch::UnusedCommands);
    }
    Ok(send_commands(panes, commands, focus_list, window_index, focus, script))
}

/// Sends the commands of each group to the pane at the place of the group,
/// where every group has a pane, and moves the focus to the last pane whose
/// flag is set.
pub fn send_commands(
    panes: &Vec<Pane>,
    commands: &Vec<Vec<String>>,
    focus_list: &Vec<bool>,
    window_index: usize,
    focus: FocusTuple,
    script: &mut Script,
) -> (after: FocusTuple)
    requires
        old(script).wf(),
        forall|i: int| 0 <= i < panes@.len() ==> (#[trigger] panes@[i]).exists_in(old(script)),
        commands@.len() <= panes@.len(),
    ensures
        final(script).wf(),
        final(script).spec_pane_count() == old(script).spec_pane_count(),
        final(script)@ == old(script)@ + bound_ops(
            panes@,
            commands.deep_view(),
            commands@.len() as int,
        ),
        focus_moved(focus, after, window_index, focus_list@, panes@.len() as int),
{
    let ghost before = script@;
    let ghost groups = commands.deep_view();
    let ghost flags = focus_list@;
    let ghost total = panes@.len() as int;
    let mut focus_tuple = focus;
    let mut i: usize = 0;
    while i < panes.len()
        invariant
            i <= panes.len(),
            commands@.len() <= panes@.len(),
            groups == commands.deep_view(),
            flags == focus_list@,
            total == panes@.len(),
            script.wf(),
            script.spec_pane_count() == old(script).spec_pane_count(),
            forall|k: int| 0 <= k < panes@.len() ==> (#[trigger] panes@[k]).exists_in(script),
            script@ == before + bound_ops(
                panes@,
                groups,
                if i < commands@.len() {
                    i as int
                } else {
                    commands@.len() as int
                },
            ),
            (focus_tuple == focus && forall|k: int| k < i ==> !declares(flags, total, k)) || (
            focus_tuple.0 == window_index && focus_tuple.1 < i && declares(
                flags,
                total,
                focus_tuple.1 as int,
            ) && forall|k: int| focus_tuple.1 < k < i ==> !declares(flags, total, k)),
        decreases panes.len() - i,
    {
        let pane = panes[i];
        if i < commands.len() {
            let command_group = &commands[i];
            let ghost sent = script@;
            let ghost group = command_group.deep_view();
            let mut j: usize = 0;
            assert(script@ =~= sent + group_ops(pane, group).take(0));
            while j < command_group.len()
                invariant
                    j <= command_group.len(),
                    group == command_group.deep_view(),
                    script.wf(),
                    script.spec_pane_count() == old(script).spec_pane_count(),
                    pane.exists_in(script),
                    script@ == sent + group_ops(pane, group).take(j as int),
                decreases command_group.len() - j,
            {
                pane.run_command(command_group[j].as_str(), script);
                proof {
                    let ops = group_ops(pane, group);
                    assert(ops.take(j + 1) =~= ops.take(j as int).push(ops[j as int]));
                    assert(script@ =~= sent + ops.take(j + 1));
                }
                j = j + 1;
            }
            proof {
                assert(group == groups[i as int]);
                assert(script@ =~= before + bound_ops(panes@, groups, i + 1));
            }
        }
        if i < focus_list.len() && focus_list[i] {
            focus_tuple = FocusTuple(window_index, i);
        }
        i = i + 1;
    }
    focus_tuple
}

/// The operations that open a window when `first` panes exist already: the
/// window is opened, which creates pane `first`, and gets its title if it
/// has one.
pub open spec fn opening_ops(window: WindowConfigView, first: int) -> Seq<OperationView> {
    seq![OperationView::Spawn { cwd: window.root }] + match window.name {
        Some(title) => seq![OperationView::SetTabTitle { pane: first as usize, title }],
        None => Seq::empty(),
    }
}

/// What laying out a window asks for: nothing where the window is to hold no
/// pane, else what its layout asks for.
pub open spec fn planned(layout: Layout, total: int, pane: Pane, first: int) -> Arrangement {
    if total == 0 {
        Arrangement { ops: Seq::empty(), panes: Seq::empty() }
    } else {
        arrangement(layout, total, pane, first)
    }
}

/// What a window asks of the multiplexer when `first` panes exist already,
/// and the panes that it ends with: the window is opened and gets its title;
/// its layout is carried out for as many panes as it has command groups;
/// then each group is sent to its pane. A window without command groups has
/// no panes to bind and is not laid out.
pub open spec fn window_plan(window: WindowConfigView, first: int) -> Arrangement {
    let root = Pane { id: first as usize, parent_id: None };
    let groups = spec_command_groups(window.panes);
    let laid = planned(layout_named(window.layout), groups.len() as int, root, first + 1);
    Arrangement {
        ops: opening_ops(window, first) + laid.ops + bound_ops(
            laid.panes,
            groups,
            groups.len() as int,
        ),
        panes: laid.panes,
    }
}

/// Whether pane `i` of a window with `panes` panes asks for the focus: by its
/// own flag, or, for the first pane, by the flag of the window.
pub open spec fn asks_focus(window: WindowConfigView, panes: int, i: int) -> bool {
    (i == 0 && window.focus) || declares(spec_focus_flags(window.panes), panes, i)
}

/// How window `index` moves the focus: to the last of its panes that asks for
/// it; if none does, the focus stays where it was.
pub open spec fn window_focus_moved(
    before: FocusTuple,
    after: FocusTuple,
    index: usize,
    window: WindowConfigView,
    panes: int,
) -> bool {
    ||| (after == before && forall|i: int| !asks_focus(window, panes, i))
    ||| (after.0 == index && asks_focus(window, panes, after.1 as int) && forall|i: int|
        after.1 < i ==> !asks_focus(window, panes, i))
}

/// Opens a window, in its working directory if it names one, and gives it its
/// title if it has one. Returns the first pane of the window.
fn open_window(window: &WindowConfig, script: &mut Script) -> (pane: Pane)
    requires
        old(script).wf(),
    ensures
        final(script).wf(),
        final(script)@ == old(script)@ + opening_ops(
            window.deep_view(),
            old(script).spec_pane_count() as int,
        ),
        final(script).spec_pane_count() == old(script).spec_pane_count() + 1,
        pane == (Pane { id: old(script).pane_count(), parent_id: None }),
{
    let main_pane = match &window.root {
        Some(cwd) => Pane::new(Some(cwd.as_str()), script),
        None => Pane::new(None, script),
    };
    if let Some(tab_name) = &window.name {
        main_pane.set_tab_title(tab_name.as_str(), script);
    }
    main_pane
}

/// Lays out a window of `total_panes` panes and returns as many. A window
/// that is to hold no pane is left as it is and has no panes to bind.
fn lay_out(layout: Layout, total_panes: TotalPanes, main_pane: Pane, script: &mut Script) -> (panes:
    Vec<Pane>)
    requires
        old(script).wf(),
        main_pane.exists_in(old(script)),
    ensures
        final(script).wf(),
        final(script)@ == old(script)@ + planned(
            layout,
            total_panes.0 as int,
            main_pane,
            old(script).spec_pane_count() as int,
        ).ops,
        panes@ == planned(
            layout,
            total_panes.0 as int,
            main_pane,
            old(script).spec_pane_count() as int,
        ).panes,
        final(script).spec_pane_count() >= old(script).spec_pane_count(),
        panes@.len() == total_panes.0,
        forall|i: int| 0 <= i < panes@.len() ==> (#[trigger] panes@[i]).exists_in(final(script)),
{
    match layout.create(total_panes, main_pane, script) {
        Some(panes) => panes,
        None => Vec::new(),
    }
}

/// Joining three runs of operations to a script one after the other is
/// joining all three at once.
proof fn lemma_joined(
    before: Seq<OperationView>,
    first: Seq<OperationView>,
    second: Seq<OperationView>,
    third: Seq<OperationView>,
)
    ensures
        before + first + second + third == before + (first + second + third),
{
    assert(before + first + second + third =~= before + (first + second + third));
}

/// Opens window `window_index`, lays it out and sends its commands. Returns
/// the focus as the window leaves it, and the window's panes.
pub fn build_window(
    window: &WindowConfig,
    window_index: usize,
    focus: FocusTuple,
    script: &mut Script,
) -> (built: (FocusTuple, Vec<Pane>))
    requires
        old(script).wf(),
    ensures
        final(script).wf(),
        final(script).spec_pane_count() > old(script).spec_pane_count(),
        final(script)@ == old(script)@ + window_plan(
            window.deep_view(),
            old(script).spec_pane_count() as int,
        ).ops,
        built.1@ == window_plan(window.deep_view(), old(script).spec_pane_count() as int).panes,
        built.1@.len() == spec_command_groups(window.deep_view().panes).len(),
        forall|i: int| 0 <= i < built.1@.len() ==> (#[trigger] built.1@[i]).exists_in(final(script)),
        window_focus_moved(focus, built.0, window_index, window.deep_view(), built.1@.len() as int),
{
    let ghost first = script.spec_pane_count() as int;
    let ghost before = script@;
    let ghost view = window.deep_view();
    let mut focus_tuple = focus;
    if window.focus {
        focus_tuple = FocusTuple(window_index, 0);
    }
    let layout = window.layout();
    let main_pane = open_window(window, script);
    let commands = window.command_groups();
    let focus_list = window.focus_flags();
    let total_panes = TotalPanes(commands.len());
    let panes = lay_out(layout, total_panes, main_pane, script);
    let ghost laid = planned(layout, commands@.len() as int, main_pane, first + 1);
    // The layout has a pane for every group: none is left without one.
    let after = send_commands(&panes, &commands, &focus_list, window_index, focus_tuple, script);
    proof {
        lemma_joined(
            before,
            opening_ops(view, first),
            laid.ops,
            bound_ops(panes@, commands.deep_view(), commands@.len() as int),
        );
        lemma_window_focus(focus, focus_tuple, after, window_index, view, panes@.len() as int);
    }
    (after, panes)
}

/// A window moves the focus as its flag and then its panes move it.
proof fn lemma_window_focus(
    before: FocusTuple,
    flagged: FocusTuple,
    after: FocusTuple,
    index: usize,
    window: WindowConfigView,
    panes: int,
)
    requires
        flagged == if window.focus {
            FocusTuple(index, 0)
        } else {
            before
        },
        focus_moved(flagged, after, index, spec_focus_flags(window.panes), panes),
    ensures
        window_focus_moved(before, after, index, window, panes),
{
}

/// The windows of a configuration, in order.
pub open spec fn windows_of(config: YAMLConfigView) -> Seq<WindowConfigView> {
    match config.windows {
        Some(windows) => windows,
        None => Seq::empty(),
    }
}

/// What the first `count` windows ask of the multiplexer when `first` panes
/// exist already: each window's operations in turn, each window numbering its
/// panes from where the windows before it have stopped.
pub open spec fn session_ops(windows: Seq<WindowConfigView>, first: int, count: int) -> Seq<
    OperationView,
>
    decreases count,
{
    if count <= 0 {
        Seq::empty()
    } else {
        let before = session_ops(windows, first, count - 1);
        before + window_plan(windows[count - 1], first + panes_created(before)).ops
    }
}

/// The panes that window `index` ends with when `first` panes exist before
/// the first window is opened.
pub open spec fn session_panes(windows: Seq<WindowConfigView>, first: int, index: int) -> Seq<
    Pane,
> {
    window_plan(windows[index], first + panes_created(session_ops(windows, first, index))).panes
}

/// Whether pane `i` of window `w` asks for the focus, among the windows that
/// have panes in `panes`.
pub open spec fn declared(
    windows: Seq<WindowConfigView>,
    panes: Seq<Seq<Pane>>,
    w: int,
    i: int,
) -> bool {
    0 <= w < windows.len() && w < panes.len() && asks_focus(windows[w], panes[w].len() as int, i)
}

/// The focus that a session ends with: the last pane, in the order of windows
/// and of panes within a window, that asks for it; the first pane of the
/// first window if none does.
pub open spec fn focus_chosen(
    focus: FocusTuple,
    windows: Seq<WindowConfigView>,
    panes: Seq<Seq<Pane>>,
) -> bool {
    ||| (focus == FocusTuple(0, 0) && forall|w: int, i: int| !declared(windows, panes, w, i))
    ||| (declared(windows, panes, focus.0 as int, focus.1 as int) && forall|w: int, i: int|
        declared(windows, panes, w, i) ==> w < focus.0 || (w == focus.0 && i <= focus.1))
}

/// Opens the windows of a configuration one after the other, lays each out
/// and sends its commands. Returns the pane that is to get the focus and the
/// panes of every window: as many as the window has command groups.
pub fn build_panes(yaml_config: YAMLConfig, script: &mut Script) -> (built: (
    FocusTuple,
    WindowPanes,
))
    requires
        old(script).wf(),
    ensures
        final(script).wf(),
        final(script)@ == old(script)@ + session_ops(
            windows_of(yaml_config.deep_view()),
            old(script).spec_pane_count() as int,
            windows_of(yaml_config.deep_view()).len() as int,
        ),
        built.1@.len() == windows_of(yaml_config.deep_view()).len(),
        forall|w: int|
            0 <= w < built.1@.len() ==> #[trigger] built.1@[w] == session_panes(
                windows_of(yaml_config.deep_view()),
                old(script).spec_pane_count() as int,
                w,
            ),
        forall|w: int|
            0 <= w < built.1@.len() ==> (#[trigger] built.1@[w]).len() == spec_command_groups(
                windows_of(yaml_config.deep_view())[w].panes,
            ).len(),
        forall|w: int, i: int|
            0 <= w < built.1@.len() && 0 <= i < built.1@[w].len() ==> (#[trigger] built.1@[w][i]).exists_in(
                final(script),
            ),
        focus_chosen(built.0, windows_of(yaml_config.deep_view()), built.1@),
{
    let ghost first = script.spec_pane_count() as int;
    let ghost before = script@;
    let ghost all = windows_of(yaml_config.deep_view());
    let mut focus_tuple = FocusTuple(0, 0);
    let mut all_panes: Vec<Vec<Pane>> = Vec::new();

    if let Some(windows) = &yaml_config.windows {
        let mut window_index: usize = 0;
        proof {
            lemma_panes_created_concat(before, session_ops(all, first, 0));
        }
        while window_index < windows.len()
            invariant
                window_index <= windows.len(),
                all == windows.deep_view(),
                all.len() == windows@.len(),
                first == old(script).spec_pane_count(),
                before == old(script)@,
                first == panes_created(before),
                script.wf(),
                script@ == before + session_ops(all, first, window_index as int),
                all_panes@.len() == window_index,
                forall|w: int|
                    0 <= w < window_index ==> (#[trigger] all_panes@[w])@ == session_panes(
                        all,
                        first,
                        w,
                    ),
                forall|w: int|
                    0 <= w < window_index ==> (#[trigger] all_panes@[w])@.len()
                        == spec_command_groups(all[w].panes).len(),
                forall|w: int, i: int|
                    0 <= w < window_index && 0 <= i < all_panes@[w]@.len() ==> (
                    #[trigger] all_panes@[w]@[i]).exists_in(script),
                focus_chosen(focus_tuple, all, WindowPanes(all_panes)@),
            decreases windows.len() - window_index,
        {
            let ghost panes_before = WindowPanes(all_panes)@;
            proof {
                lemma_panes_created_concat(
                    before,
                    session_ops(all, first, window_index as int),
                );
            }
            let (after, panes) = build_window(
                &windows[window_index],
                window_index,
                focus_tuple,
                script,
            );
            focus_tuple = after;
            all_panes.push(panes);
            proof {
                let window = all[window_index as int];
                let panes_after = WindowPanes(all_panes)@;
                assert forall|w: int, i: int| #[trigger]
                    declared(all, panes_after, w, i) <==> declared(all, panes_before, w, i) || (w
                        == window_index && asks_focus(window, panes@.len() as int, i)) by {}
            }
            window_index = window_index + 1;
        }
    }
    let window_panes = WindowPanes(all_panes);
    (focus_tuple, window_panes)
}

/// The pane that a focus names, if its window and its place in the window
/// exist.
pub open spec fn focused_pane(focus: FocusTuple, panes: Seq<Seq<Pane>>) -> Result<
    Pane,
    ConfigurationMismatch,
> {
    if focus.0 >= panes.len() {
        Err(ConfigurationMismatch::NoSuchWindow)
    } else if focus.1 >= panes[focus.0 as int].len() {
        Err(ConfigurationMismatch::NoSuchPane)
    } else {
        Ok(panes[focus.0 as int][focus.1 as int])
    }
}

/// Finds the pane that is to get the focus among the panes of the windows.
pub fn resolve_focus(focus: &FocusTuple, window_panes: &WindowPanes) -> (pane: Result<
    Pane,
    ConfigurationMismatch,
>)
    ensures
        pane == focused_pane(*focus, window_panes@),
{
    if focus.0 >= window_panes.0.len() {
        return Err(ConfigurationMismatch::NoSuchWindow);
    }
    let panes = &window_panes.0[focus.0];
    if focus.1 >= panes.len() {
        return Err(ConfigurationMismatch::NoSuchPane);
    }
    Ok(panes[focus.1])
}

/// The number of commands in the first `count` groups.
pub open spec fn commands_before(groups: Seq<Seq<Seq<char>>>, count: int) -> int
    decreases count,
{
    if count <= 0 {
        0
    } else {
        commands_before(groups, count - 1) + groups[count - 1].len()
    }
}

/// Commands go to the pane at the place of their group: command `j` of group
/// `i` is sent to pane `i`, after all commands of the groups before it and
/// after the commands before it in its own group.
pub proof fn lemma_bound_ops_pairing(
    panes: Seq<Pane>,
    groups: Seq<Seq<Seq<char>>>,
    count: int,
    i: int,
    j: int,
)
    requires
        0 <= i < count <= groups.len(),
        0 <= j < groups[i].len(),
    ensures
        bound_ops(panes, groups, count).len() == commands_before(groups, count),
        0 <= commands_before(groups, i) + j < commands_before(groups, count),
        bound_ops(panes, groups, count)[commands_before(groups, i) + j] == (
        OperationView::SendText { pane: panes[i].id, text: groups[i][j] }),
    decreases count,
{
    lemma_bound_ops_len(panes, groups, count - 1);
    lemma_bound_ops_len(panes, groups, i);
    if i < count - 1 {
        lemma_bound_ops_pairing(panes, groups, count - 1, i, j);
    }
}

/// Binding sends one operation for each command of the groups that are bound.
pub proof fn lemma_bound_ops_len(panes: Seq<Pane>, groups: Seq<Seq<Seq<char>>>, count: int)
    ensures
        bound_ops(panes, groups, count).len() == commands_before(groups, count),
        commands_before(groups, count) >= 0,
    decreases count,
{
    if count > 0 {
        lemma_bound_ops_len(panes, groups, count - 1);
    }
}

/// Where no window and no pane asks for the focus, the first pane of the
/// first window gets it.
pub proof fn lemma_focus_default(
    focus: FocusTuple,
    windows: Seq<WindowConfigView>,
    panes: Seq<Seq<Pane>>,
)
    requires
        focus_chosen(focus, windows, panes),
        forall|w: int, i: int| !declared(windows, panes, w, i),
    ensures
        focus == FocusTuple(0, 0),
{
    if focus != FocusTuple(0, 0) {
    }
}

/// Where several panes ask for the focus, the last of them gets it: the pane
/// that is chosen asks for it, and none that asks for it comes after it, in a
/// later window or later in the same window.
pub proof fn lemma_focus_last_wins(
    focus: FocusTuple,
    windows: Seq<WindowConfigView>,
    panes: Seq<Seq<Pane>>,
    w: int,
    i: int,
)
    requires
        focus_chosen(focus, windows, panes),
        declared(windows, panes, w, i),
    ensures
        declared(windows, panes, focus.0 as int, focus.1 as int),
        w < focus.0 || (w == focus.0 && i <= focus.1),
{
}

/// The windows, their flags and their panes decide the focus: no two
/// different panes can both be the one that is chosen.
pub proof fn lemma_focus_unique(
    first: FocusTuple,
    second: FocusTuple,
    windows: Seq<WindowConfigView>,
    panes: Seq<Seq<Pane>>,
)
    requires
        focus_chosen(first, windows, panes),
        focus_chosen(second, windows, panes),
    ensures
        first == second,
{
    if forall|w: int, i: int| !declared(windows, panes, w, i) {
        lemma_focus_default(first, windows, panes);
        lemma_focus_default(second, windows, panes);
    } else {
        let (w, i) = choose|w: int, i: int| declared(windows, panes, w, i);
        lemma_focus_last_wins(first, windows, panes, w, i);
        lemma_focus_last_wins(second, windows, panes, w, i);
        lemma_focus_last_wins(first, windows, panes, second.0 as int, second.1 as int);
        lemma_focus_last_wins(second, windows, panes, first.0 as int, first.1 as int);
    }
}

} // verus!
