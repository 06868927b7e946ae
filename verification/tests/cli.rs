use weztermocil::strip_trailing_newline;
use weztermocil::text::{contains_text, decimal_text, same_text};
use weztermocil::wezterm::cli::{
    command_lines, pane_identifier, Invocation, TransportFailure, CLI,
};
use weztermocil::wezterm::pane::SplitDirection;
use weztermocil::wezterm::script::Operation;

fn call(program: &str, args: &[&str]) -> Invocation {
    Invocation {
        program: String::from(program),
        args: args.iter().map(|a| String::from(*a)).collect(),
    }
}

fn pane_ids(ids: &[&str]) -> Vec<String> {
    ids.iter().map(|id| String::from(*id)).collect()
}

#[test]
fn split_pane_with_a_share() {
    assert_eq!(
        CLI::split_pane("3", &SplitDirection::Right, Some(33), false),
        call("wezterm", &["cli", "split-pane", "--pane-id", "3", "--right", "--percent", "33"])
    );
}

#[test]
fn split_pane_of_the_whole_tab() {
    assert_eq!(
        CLI::split_pane("12", &SplitDirection::Bottom, None, true),
        call("wezterm", &["cli", "split-pane", "--pane-id", "12", "--bottom", "--top-level"])
    );
}

#[test]
fn split_pane_names_each_direction() {
    let flag = |direction: SplitDirection| {
        CLI::split_pane("0", &direction, None, false).args[4].clone()
    };
    assert_eq!(flag(SplitDirection::Right), "--right");
    assert_eq!(flag(SplitDirection::Left), "--left");
    assert_eq!(flag(SplitDirection::Top), "--top");
    assert_eq!(flag(SplitDirection::Bottom), "--bottom");
}

#[test]
fn split_pane_with_share_and_whole_tab() {
    assert_eq!(
        CLI::split_pane("7", &SplitDirection::Left, Some(5), true),
        call(
            "wezterm",
            &["cli", "split-pane", "--pane-id", "7", "--left", "--percent", "5", "--top-level"]
        )
    );
}

#[test]
fn spawn_with_and_without_a_directory() {
    assert_eq!(CLI::spawn(None), call("wezterm", &["cli", "spawn"]));
    assert_eq!(
        CLI::spawn(Some("/home/me/code")),
        call("wezterm", &["cli", "spawn", "--cwd", "/home/me/code"])
    );
}

#[test]
fn set_tab_title_puts_the_title_before_the_pane() {
    assert_eq!(
        CLI::set_tab_title("4", "my tab"),
        call("wezterm", &["cli", "set-tab-title", "my tab", "--pane-id", "4"])
    );
}

#[test]
fn focus_activates_the_pane() {
    assert_eq!(
        CLI::focus("9"),
        call("wezterm", &["cli", "activate-pane", "--pane-id", "9"])
    );
}

#[test]
fn run_command_prints_the_command_into_send_text() {
    let (print, send) = CLI::run_command("2", "cargo test");
    assert_eq!(print, call("echo", &["cargo test"]));
    assert_eq!(send, call("wezterm", &["cli", "send-text", "--pane-id", "2", "--no-paste"]));
}

#[test]
fn command_lines_name_panes_by_their_identifiers() {
    let ids = pane_ids(&["40", "41", "57"]);
    let op = Operation::Split {
        pane: 2,
        direction: SplitDirection::Bottom,
        percentage: Some(50),
        top_level: false,
    };
    assert_eq!(
        command_lines(&op, &ids),
        Some(vec![call(
            "wezterm",
            &["cli", "split-pane", "--pane-id", "57", "--bottom", "--percent", "50"]
        )])
    );
    assert_eq!(
        command_lines(&Operation::SetTabTitle { pane: 0, title: String::from("t") }, &ids),
        Some(vec![call("wezterm", &["cli", "set-tab-title", "t", "--pane-id", "40"])])
    );
    assert_eq!(
        command_lines(&Operation::Activate { pane: 1 }, &ids),
        Some(vec![call("wezterm", &["cli", "activate-pane", "--pane-id", "41"])])
    );
    assert_eq!(
        command_lines(&Operation::SendText { pane: 1, text: String::from("ls") }, &ids),
        Some(vec![
            call("echo", &["ls"]),
            call("wezterm", &["cli", "send-text", "--pane-id", "41", "--no-paste"]),
        ])
    );
    assert_eq!(
        command_lines(&Operation::Spawn { cwd: Some(String::from("/x")) }, &ids),
        Some(vec![call("wezterm", &["cli", "spawn", "--cwd", "/x"])])
    );
}

#[test]
fn command_lines_need_the_pane_to_have_an_identifier() {
    let ids = pane_ids(&["40"]);
    assert_eq!(command_lines(&Operation::Activate { pane: 1 }, &ids), None);
    assert_eq!(
        command_lines(&Operation::SendText { pane: 5, text: String::from("ls") }, &ids),
        None
    );
    assert_eq!(
        command_lines(&Operation::SetTabTitle { pane: 1, title: String::from("t") }, &ids),
        None
    );
    let op = Operation::Split {
        pane: 1,
        direction: SplitDirection::Right,
        percentage: None,
        top_level: false,
    };
    assert_eq!(command_lines(&op, &ids), None);
    assert_eq!(
        command_lines(&Operation::Spawn { cwd: None }, &Vec::new()),
        Some(vec![call("wezterm", &["cli", "spawn"])])
    );
}

#[test]
fn one_line_ending_is_taken_off() {
    assert_eq!(strip_trailing_newline("12\n"), "12");
    assert_eq!(strip_trailing_newline("12\r\n"), "12");
    assert_eq!(strip_trailing_newline("12"), "12");
    assert_eq!(strip_trailing_newline("12\n\n"), "12\n");
    assert_eq!(strip_trailing_newline("12\r\n\r\n"), "12\r\n");
    assert_eq!(strip_trailing_newline("12\n\r\n"), "12\n");
}

#[test]
fn line_endings_at_the_edges() {
    assert_eq!(strip_trailing_newline(""), "");
    assert_eq!(strip_trailing_newline("\n"), "");
    assert_eq!(strip_trailing_newline("\r\n"), "");
    assert_eq!(strip_trailing_newline("\r"), "\r");
    assert_eq!(strip_trailing_newline("a\r"), "a\r");
    assert_eq!(strip_trailing_newline("\na"), "\na");
    assert_eq!(strip_trailing_newline("a\n\r"), "a\n\r");
    assert_eq!(strip_trailing_newline("é\n"), "é");
    assert_eq!(strip_trailing_newline("日本\r\n"), "日本");
}

#[test]
fn numbers_in_decimal() {
    assert_eq!(decimal_text(0), "0");
    assert_eq!(decimal_text(7), "7");
    assert_eq!(decimal_text(10), "10");
    assert_eq!(decimal_text(33), "33");
    assert_eq!(decimal_text(50), "50");
    assert_eq!(decimal_text(99), "99");
    assert_eq!(decimal_text(100), "100");
    assert_eq!(decimal_text(109), "109");
    assert_eq!(decimal_text(255), "255");
    for n in 0..=255u8 {
        assert_eq!(decimal_text(n), n.to_string());
    }
}

#[test]
fn texts_are_compared_and_searched() {
    assert!(same_text("tiled", "tiled"));
    assert!(!same_text("tiled", "tile"));
    assert!(same_text("", ""));
    assert!(contains_text("layout.yml", ".yml"));
    assert!(contains_text(".yml", ".yml"));
    assert!(contains_text("a.yml.bak", ".yml"));
    assert!(!contains_text("layout.yaml", ".yml"));
    assert!(!contains_text("yml", ".yml"));
    assert!(!contains_text("", ".yml"));
    assert!(contains_text("", ""));
    assert!(contains_text("abc", ""));
    assert!(contains_text("aab", "ab"));
    assert!(contains_text("héllo.yml", ".yml"));
}

#[test]
fn a_pane_identifier_is_what_the_multiplexer_printed() {
    assert_eq!(pane_identifier(true, "12\n"), Ok(String::from("12")));
    assert_eq!(pane_identifier(true, "7\r\n"), Ok(String::from("7")));
    assert_eq!(pane_identifier(true, "40"), Ok(String::from("40")));
    assert_eq!(pane_identifier(true, "1\n\n"), Ok(String::from("1\n")));
}

#[test]
fn a_call_that_prints_no_identifier_has_failed() {
    assert_eq!(pane_identifier(true, ""), Err(TransportFailure::NoIdentifier));
    assert_eq!(pane_identifier(true, "\n"), Err(TransportFailure::NoIdentifier));
    assert_eq!(pane_identifier(true, "\r\n"), Err(TransportFailure::NoIdentifier));
}

#[test]
fn a_call_that_reports_a_failure_has_created_no_pane() {
    assert_eq!(pane_identifier(false, "12\n"), Err(TransportFailure::CallFailed));
    assert_eq!(pane_identifier(false, ""), Err(TransportFailure::CallFailed));
}

#[test]
fn transport_failures_tell_what_went_wrong() {
    assert_eq!(TransportFailure::CallFailed.message(), "the multiplexer reported a failure");
    assert_eq!(
        TransportFailure::NoIdentifier.message(),
        "the multiplexer printed no pane identifier"
    );
}
