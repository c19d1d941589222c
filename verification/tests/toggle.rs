use ckb_mode_toggle::modes::get_next_mode;
use ckb_mode_toggle::modes::read_last_mode;
use ckb_mode_toggle::paths::get_mode_file_path;
use ckb_mode_toggle::paths::mode_file_path_in;
use ckb_mode_toggle::switch::background_start_command;
use ckb_mode_toggle::switch::execute_mode_switch;
use ckb_mode_toggle::switch::handle_ckb_not_running;
use ckb_mode_toggle::switch::mode_switch_command;
use ckb_mode_toggle::switch::not_running_message;
use ckb_mode_toggle::switch::SwitchOutcome;
use ckb_mode_toggle::text::contains_str;
use ckb_mode_toggle::text::split_whitespace_tokens;
use ckb_mode_toggle::text::str_eq;
use ckb_mode_toggle::text::trim_str;

#[test]
fn next_mode_cycles_through_rotation() {
    assert_eq!(get_next_mode("On"), "Keyboard");
    assert_eq!(get_next_mode("Keyboard"), "Off");
    assert_eq!(get_next_mode("Off"), "On");
}

#[test]
fn next_mode_of_unrecognized_is_first() {
    assert_eq!(get_next_mode(""), "On");
    assert_eq!(get_next_mode("Disco"), "On");
    assert_eq!(get_next_mode("on"), "On");
    assert_eq!(get_next_mode("Keyboard "), "On");
}

#[test]
fn save_then_load_round_trips_each_mode() {
    // The saver writes the exact mode name; the loader trims what it reads.
    for mode in ["On", "Keyboard", "Off"] {
        let saved = mode.to_string();
        let loaded = read_last_mode(Some(&saved));
        assert_eq!(loaded, mode);
    }
}

#[test]
fn scenario_no_state_file() {
    let current = read_last_mode(None);
    assert_eq!(current, "");
    let next = get_next_mode(&current);
    assert_eq!(next, "On");
    match execute_mode_switch(next, "") {
        SwitchOutcome::Apply { mode } => assert_eq!(mode, "On"),
        SwitchOutcome::Recover { .. } => panic!("no recovery was reported"),
    }
}

#[test]
fn scenario_state_file_holds_on() {
    let current = read_last_mode(Some("On"));
    assert_eq!(current, "On");
    let next = get_next_mode(&current);
    assert_eq!(next, "Keyboard");
    assert_eq!(mode_switch_command(next), "ckb-next --mode Keyboard");
    match execute_mode_switch(next, "mode switched\n") {
        SwitchOutcome::Apply { mode } => assert_eq!(mode, "Keyboard"),
        SwitchOutcome::Recover { .. } => panic!("no recovery was reported"),
    }
}

#[test]
fn scenario_state_file_holds_off_wraps() {
    let current = read_last_mode(Some("Off\n"));
    assert_eq!(current, "Off");
    assert_eq!(get_next_mode(&current), "On");
}

#[test]
fn scenario_controller_not_running_forces_first_mode() {
    let output = "Error: ckb-next is not running.\n";
    match execute_mode_switch("Off", output) {
        SwitchOutcome::Recover { mode } => assert_eq!(mode, "On"),
        SwitchOutcome::Apply { .. } => panic!("recovery was expected"),
    }
    assert_eq!(handle_ckb_not_running(), "On");
    assert_eq!(background_start_command(), "ckb-next -b");
}

#[test]
fn scenario_garbage_state_is_unrecognized() {
    let current = read_last_mode(Some("Disco"));
    assert_eq!(current, "Disco");
    assert_eq!(get_next_mode(&current), "On");
}

#[test]
fn trim_removes_surrounding_whitespace() {
    assert_eq!(trim_str("  Keyboard \n"), "Keyboard");
    assert_eq!(trim_str("\t On"), "On");
    assert_eq!(trim_str("Off\r\n"), "Off");
    assert_eq!(trim_str("   "), "");
    assert_eq!(trim_str(""), "");
    assert_eq!(trim_str("a b"), "a b");
}

#[test]
fn trim_matches_std_on_unicode_whitespace() {
    // The library trims the full Unicode White_Space set, as str::trim does.
    for raw in [
        "On\u{000B}",
        "\u{000C}Off\u{0085}",
        "\u{00A0}Keyboard\u{00A0}",
        "\u{2003}On\u{2028}",
        "\u{205F}Off \u{3000}",
    ] {
        assert_eq!(trim_str(raw), raw.trim());
    }
    let current = read_last_mode(Some("On\u{000B}"));
    assert_eq!(current, "On");
    assert_eq!(get_next_mode(&current), "Keyboard");
}

#[test]
fn contains_finds_the_marker() {
    assert!(contains_str("Error: ckb-next is not running. Try -b.", not_running_message()));
    assert!(contains_str("ckb-next is not running.", not_running_message()));
    assert!(!contains_str("ckb-next is running.", not_running_message()));
    assert!(!contains_str("", not_running_message()));
    assert!(contains_str("anything", ""));
}

#[test]
fn split_whitespace_tokenizes_commands() {
    let tokens = split_whitespace_tokens("ckb-next --mode On");
    assert_eq!(tokens, vec!["ckb-next", "--mode", "On"]);
    let tokens = split_whitespace_tokens("  ckb-next \t -b \n");
    assert_eq!(tokens, vec!["ckb-next", "-b"]);
    let tokens = split_whitespace_tokens(&mode_switch_command("Keyboard"));
    assert_eq!(tokens, vec!["ckb-next", "--mode", "Keyboard"]);
    let tokens = split_whitespace_tokens(&background_start_command());
    assert_eq!(tokens, vec!["ckb-next", "-b"]);
    let none: Vec<String> = split_whitespace_tokens("   ");
    assert!(none.is_empty());
}

#[test]
fn str_eq_compares_by_characters() {
    assert!(str_eq("On", "On"));
    assert!(!str_eq("On", "on"));
    assert!(!str_eq("On", "On "));
    assert!(str_eq("", ""));
}

#[test]
fn mode_file_path_is_fixed_under_home() {
    assert_eq!(
        mode_file_path_in("/home/user"),
        "/home/user/.my_desktop/rgb/current_mode"
    );
    if let Some(path) = get_mode_file_path() {
        assert!(path.ends_with("/.my_desktop/rgb/current_mode"));
    }
}
