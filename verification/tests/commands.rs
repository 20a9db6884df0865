//! Ex commands: which end Vim, and what is said of the others.

use vim_mcp::commands::is_exit_command;
use vim_mcp::commands::judge_command;
use vim_mcp::commands::show_name;
use vim_mcp::commands::verify_command_execution;
use vim_mcp::json::Json;

fn json(text: &str) -> Json {
    Json::from_value(serde_json::from_str(text).unwrap())
}

fn verdict(command: &str, before: &str, after: &str) -> (bool, String) {
    verify_command_execution(command, &json(before), &json(after))
}

fn said(ok: bool, message: &str) -> (bool, String) {
    (ok, message.to_string())
}

#[test]
fn split_detected_by_window_increase() {
    let before = json(r#"{ "windows": [{}] }"#);
    let after = json(r#"{ "windows": [{}, {}] }"#);
    let (ok, msg) = verify_command_execution("split", &before, &after);
    assert!(ok);
    assert!(msg.contains("1 to 2"));
}

#[test]
fn split_without_change_reports_failure() {
    let before = json(r#"{ "windows": [{}] }"#);
    let after = json(r#"{ "windows": [{}] }"#);
    let (ok, _) = verify_command_execution("vsplit", &before, &after);
    assert!(!ok);
}

#[test]
fn write_reports_saved_when_unmodified() {
    let before = json(r#"{ "current_buffer": { "modified": true, "name": "f" } }"#);
    let after = json(r#"{ "current_buffer": { "modified": false, "name": "f" } }"#);
    let (ok, msg) = verify_command_execution("w", &before, &after);
    assert!(ok);
    assert!(msg.contains("saved"));
}

#[test]
fn tabnext_detects_active_tab_change() {
    let before = json(r#"{ "tabs": [{ "active": true }, { "active": false }] }"#);
    let after = json(r#"{ "tabs": [{ "active": false }, { "active": true }] }"#);
    let (ok, _) = verify_command_execution("tabnext", &before, &after);
    assert!(ok);
}

#[test]
fn exit_commands_recognized() {
    for c in ["q", "qa", "qall", "wq", "wqa", "wqall", "q!", "qa!", "qall!"] {
        assert!(is_exit_command(c), "{c} should be an exit command");
    }
    assert!(!is_exit_command("split"));
    assert!(!is_exit_command("set number"));
    assert!(!is_exit_command("write"));
}

#[test]
fn unknown_command_falls_back_to_success() {
    let s = json("{}");
    let (ok, _) = verify_command_execution("normal! gg", &s, &s);
    assert!(ok);
}

#[test]
fn first_word_decides_on_exit() {
    assert!(is_exit_command("  \t wq  file.txt "));
    assert!(is_exit_command("\u{a0}\u{3000}qall!\u{2028}now"));
    assert!(!is_exit_command("write q"));
    assert!(!is_exit_command("Q"));
    assert!(!is_exit_command("wq!"));
    assert!(!is_exit_command("x"));
    assert!(!is_exit_command(""));
    assert!(!is_exit_command("   "));
    assert!(!is_exit_command("\u{200b}q"));
}

#[test]
fn windows_and_tabs_are_counted() {
    let one = r#"{"windows":[{}],"tabs":[{}]}"#;
    let two = r#"{"windows":[{},{}],"tabs":[{},{}]}"#;
    assert_eq!(
        verdict("split", one, two),
        said(true, "Window split successful. Windows increased from 1 to 2.")
    );
    assert_eq!(
        verdict("split file.txt", two, one),
        said(false, "Window split may have failed. Window count unchanged: 2.")
    );
    assert_eq!(
        verdict("vsplit", one, two),
        said(true, "Vertical split successful. Windows increased from 1 to 2.")
    );
    assert_eq!(
        verdict("vsplit x", one, one),
        said(false, "Vertical split may have failed. Window count unchanged: 1.")
    );
    assert_eq!(
        verdict("tabnew", "{}", two),
        said(true, "New tab created successfully. Tabs increased from 0 to 2.")
    );
    assert_eq!(
        verdict("tabnew", two, "[]"),
        said(false, "Tab creation may have failed. Tab count unchanged: 2.")
    );
    assert_eq!(
        verdict("split", r#"{"windows":{"a":1}}"#, one),
        said(true, "Window split successful. Windows increased from 0 to 1.")
    );
}

#[test]
fn tab_moves_compare_the_active_tab() {
    let first = r#"{"tabs":[{"active":true},{"active":true}]}"#;
    let second = r#"{"tabs":[{"active":"yes"},{"active":true}]}"#;
    assert_eq!(
        verdict("tabnext", first, second),
        said(true, "Tab navigation successful. Active tab changed from 1 to 2.")
    );
    assert_eq!(
        verdict("tabprevious", second, "{}"),
        said(true, "Tab navigation successful. Active tab changed from 2 to 0.")
    );
    assert_eq!(
        verdict("tabnext", second, second),
        said(false, "Tab navigation may have failed or already at last tab.")
    );
    assert_eq!(
        verdict("TabPrevious", first, first),
        said(false, "Tab navigation may have failed or already at first tab.")
    );
}

#[test]
fn opened_file_is_found_in_the_buffer_name() {
    let after = r#"{"current_buffer":{"name":"/home/me/notes.txt"}}"#;
    assert_eq!(
        verdict("edit notes.txt", "{}", after),
        said(true, "File opened successfully: /home/me/notes.txt")
    );
    assert_eq!(
        verdict("e   notes.txt", "{}", after),
        said(true, "File opened successfully: /home/me/notes.txt")
    );
    assert_eq!(
        verdict("e other.txt", "{}", after),
        said(false, "File opening may have failed. Current buffer: /home/me/notes.txt")
    );
    assert_eq!(
        verdict("edit x", "{}", "{}"),
        said(false, "File opening may have failed. Current buffer: ")
    );
    assert_eq!(
        verdict("e Notes", "{}", r#"{"current_buffer":{"name":"Notes"}}"#),
        said(false, "File opening may have failed. Current buffer: Notes")
    );
    assert_eq!(verdict("edit", "{}", after), said(true, "Command executed successfully: edit"));
}

#[test]
fn settings_are_executed() {
    assert_eq!(verdict(" SET Number", "{}", "{}"), said(true, "Setting command executed:  SET Number"));
    assert_eq!(verdict("set", "{}", "{}"), said(true, "Command executed successfully: set"));
}

#[test]
fn window_moves_compare_the_buffer_id() {
    let with_id = |id: &str| format!("{{\"current_buffer\":{{\"id\":{id}}}}}");
    let moved = |id: &str| said(true, &format!("Window navigation successful. Moved to buffer {id}."));
    let stayed = said(true, "Window navigation command executed: wincmd w");
    assert_eq!(verdict("wincmd w", &with_id("1"), &with_id("2")), moved("2"));
    assert_eq!(verdict("wincmd w", &with_id("1"), &with_id("1")), stayed);
    assert_eq!(verdict("wincmd w", &with_id("1"), &with_id("1.0")), moved("1.0"));
    assert_eq!(verdict("wincmd w", &with_id("0.0"), &with_id("-0.0")), stayed);
    assert_eq!(verdict("wincmd w", &with_id("1e2"), &with_id("100.0")), stayed);
    assert_eq!(
        verdict("wincmd w", &with_id("18446744073709551615"), &with_id("-1")),
        moved("-1")
    );
    assert_eq!(verdict("wincmd w", &with_id("1"), "{}"), moved(""));
    assert_eq!(verdict("wincmd w", "{}", &with_id("\"a\\n\"")), moved("\"a\\n\""));
    assert_eq!(
        verdict("wincmd w", &with_id("{\"a\":1,\"b\":[2]}"), &with_id("{\"b\":[2],\"a\":1}")),
        stayed
    );
    assert_eq!(
        verdict("wincmd w", &with_id("[1]"), &with_id("{\"b\":[2],\"a\":null}")),
        moved("{\"a\":null,\"b\":[2]}")
    );
    assert_eq!(verdict("wincmd w", "{}", "{}"), stayed);
}

#[test]
fn written_buffer_is_named() {
    assert_eq!(
        verdict("write", "{}", r#"{"current_buffer":{"modified":false,"name":""}}"#),
        said(true, "File saved successfully: [No Name]")
    );
    assert_eq!(
        verdict("w", "{}", r#"{"current_buffer":{"modified":false}}"#),
        said(true, "File saved successfully: [No Name]")
    );
    assert_eq!(
        verdict("W ", "{}", r#"{"current_buffer":{"modified":true,"name":"f"}}"#),
        said(true, "Write command executed: W ")
    );
    assert_eq!(verdict("w", "{}", "{}"), said(true, "Write command executed: w"));
    assert_eq!(show_name("f"), "f");
}

#[test]
fn case_and_surroundings_do_not_count() {
    let one = r#"{"windows":[{}]}"#;
    let two = r#"{"windows":[{},{}]}"#;
    for c in ["split", "SPLIT", "  Split\n", "\u{2003}sPlIt\u{85}"] {
        assert!(verdict(c, one, two).0);
        assert!(!verdict(c, one, one).0);
    }
}

#[test]
fn other_alphabets_are_lowered_by_unicode() {
    let after = "{\"current_buffer\":{\"name\":\"stra\u{df}e \u{e4}.txt\"}}";
    assert_eq!(
        verdict("e \u{c4}.TXT", "{}", after),
        said(true, "File opened successfully: stra\u{df}e \u{e4}.txt")
    );
}

#[test]
fn judge_takes_the_lowered_command() {
    let s = json("{}");
    assert_eq!(judge_command("set x", "SET x", &s, &s), said(true, "Setting command executed: SET x"));
    assert_eq!(judge_command("SET x", "SET x", &s, &s), said(true, "Command executed successfully: SET x"));
}
