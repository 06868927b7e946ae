use weztermocil::config::{
    layout_string_to_enum, qualify_layout_file, PaneConfig, PaneConfigOptions, WindowConfig,
};
use weztermocil::layout::Layout;

fn texts(items: &[&str]) -> Vec<String> {
    items.iter().map(|s| String::from(*s)).collect()
}

fn window_with(layout: Option<&str>, panes: Option<PaneConfig>) -> WindowConfig {
    WindowConfig {
        name: None,
        root: None,
        layout: layout.map(String::from),
        panes,
        command: None,
        commands: None,
        focus: false,
    }
}

fn entry(commands: Option<&[&str]>, focus: bool) -> PaneConfigOptions {
    PaneConfigOptions { commands: commands.map(texts), focus }
}

#[test]
fn layouts_by_name() {
    assert_eq!(layout_string_to_enum("tiled"), Layout::Tiled);
    assert_eq!(layout_string_to_enum("even-horizontal"), Layout::EvenHorizontal);
    assert_eq!(layout_string_to_enum("main-vertical"), Layout::MainVertical);
    assert_eq!(layout_string_to_enum("main-vertical-flipped"), Layout::MainVerticalFlipped);
    assert_eq!(layout_string_to_enum("even-vertical"), Layout::EvenVertical);
    assert_eq!(layout_string_to_enum("3_columns"), Layout::ThreeColumns);
    assert_eq!(layout_string_to_enum("double-main-horizontal"), Layout::DoubleMainHorizontal);
    assert_eq!(layout_string_to_enum("double-main-vertical"), Layout::DoubleMainVertical);
}

#[test]
fn an_unknown_layout_is_tiled() {
    assert_eq!(layout_string_to_enum(""), Layout::Tiled);
    assert_eq!(layout_string_to_enum("Tiled"), Layout::Tiled);
    assert_eq!(layout_string_to_enum("main-horizontal"), Layout::Tiled);
    assert_eq!(layout_string_to_enum("even-vertical "), Layout::Tiled);
    assert_eq!(layout_string_to_enum("3-columns"), Layout::Tiled);
}

#[test]
fn a_window_without_a_layout_is_tiled() {
    assert_eq!(window_with(None, None).layout(), Layout::Tiled);
    assert_eq!(window_with(Some("even-vertical"), None).layout(), Layout::EvenVertical);
    assert_eq!(window_with(Some("nonsense"), None).layout(), Layout::Tiled);
}

#[test]
fn layout_files_end_in_yml() {
    assert_eq!(qualify_layout_file("dev"), "dev.yml");
    assert_eq!(qualify_layout_file("dev.yml"), "dev.yml");
    assert_eq!(qualify_layout_file("dev.yml.bak"), "dev.yml.bak");
    assert_eq!(qualify_layout_file("dev.yaml"), "dev.yaml.yml");
    assert_eq!(qualify_layout_file(""), ".yml");
    assert_eq!(qualify_layout_file(".ym"), ".ym.yml");
    assert_eq!(qualify_layout_file("dir.yml/dev"), "dir.yml/dev");
}

#[test]
fn plain_commands_are_groups_of_one() {
    let window = window_with(None, Some(PaneConfig::Commands(texts(&["vim", "ls -l", "top"]))));
    assert_eq!(
        window.command_groups(),
        vec![texts(&["vim"]), texts(&["ls -l"]), texts(&["top"])]
    );
    assert_eq!(window.focus_flags(), vec![false, false, false]);
}

#[test]
fn entries_keep_their_commands_and_flags() {
    let window = window_with(
        None,
        Some(PaneConfig::Hash(vec![
            entry(Some(&["cd src", "vim"]), false),
            entry(Some(&[]), true),
            entry(Some(&["make"]), false),
        ])),
    );
    assert_eq!(
        window.command_groups(),
        vec![texts(&["cd src", "vim"]), texts(&[]), texts(&["make"])]
    );
    assert_eq!(window.focus_flags(), vec![false, true, false]);
}

#[test]
fn an_entry_without_commands_asks_for_no_pane_but_keeps_its_flag() {
    let window = window_with(
        None,
        Some(PaneConfig::Hash(vec![
            entry(None, true),
            entry(Some(&["a"]), false),
            entry(None, false),
            entry(Some(&["b"]), true),
        ])),
    );
    assert_eq!(window.command_groups(), vec![texts(&["a"]), texts(&["b"])]);
    assert_eq!(window.focus_flags(), vec![true, false, false, true]);
}

#[test]
fn a_window_without_panes_has_no_groups() {
    let window = window_with(Some("tiled"), None);
    assert!(window.command_groups().is_empty());
    assert!(window.focus_flags().is_empty());
    let window = window_with(None, Some(PaneConfig::Commands(Vec::new())));
    assert!(window.command_groups().is_empty());
    assert!(window.focus_flags().is_empty());
    let window = window_with(None, Some(PaneConfig::Hash(Vec::new())));
    assert!(window.command_groups().is_empty());
    assert!(window.focus_flags().is_empty());
}
