//! The tools and resources that clients see.

use vim_mcp::bridge::Session;
use vim_mcp::catalog::list_tools;
use vim_mcp::catalog::schema;
use vim_mcp::catalog::SERVER_NAME;
use vim_mcp::json::Json;
use vim_mcp::protocol::IncomingMessage;
use vim_mcp::protocol::InstanceInfo;
use vim_mcp::protocol::ResponseError;
use vim_mcp::registry::Outcome;
use vim_mcp::registry::Registry;
use vim_mcp::registry::PREFERENCE_PATH;
use vim_mcp::server::dispatch_tool;
use vim_mcp::server::list_resources;
use vim_mcp::server::read_resource_text;
use vim_mcp::tools::selected;
use vim_mcp::tools::ErrorKind;
use vim_mcp::tools::ToolReply;
use vim_mcp::tools::ToolStep;

fn json(text: &str) -> Json {
    Json::from_value(serde_json::from_str(text).unwrap())
}

fn join(registry: &mut Registry, link: u64, id: &str, main_file: &str) -> Session {
    let mut session = Session::new(link);
    let message = IncomingMessage {
        msg_type: Some("register".to_string()),
        instance_id: Some(id.to_string()),
        info: Some(InstanceInfo {
            pid: -5,
            cwd: "/w".to_string(),
            main_file: main_file.to_string(),
            buffers: Vec::new(),
            version: Json::Null,
        }),
        state: None,
        id: None,
        result: None,
        error: None,
    };
    session.handle_message(registry, message, "now".to_string());
    session
}

fn one() -> Registry {
    let mut registry = Registry::new();
    join(&mut registry, 3, "a", "f");
    registry
}

fn call(registry: &mut Registry, name: &str, args: &str) -> ToolStep {
    dispatch_tool(registry, name, &json(args))
}

fn text(step: ToolStep) -> String {
    match step {
        ToolStep::Done { write: None, result: Ok(text) } => text,
        other => panic!("{other:?}"),
    }
}

fn error(step: ToolStep) -> (ErrorKind, String) {
    match step {
        ToolStep::Done { write: None, result: Err(e) } => (e.kind, e.message),
        other => panic!("{other:?}"),
    }
}

fn is(kind: ErrorKind, message: &str) -> (ErrorKind, String) {
    (kind, message.to_string())
}

fn asked(step: ToolStep, line: &str, timeout_ms: u64) -> ToolReply {
    match step {
        ToolStep::Ask(wait, ask) => {
            assert_eq!(ask.link, 3);
            assert_eq!(ask.line, line);
            assert_eq!(ask.timeout_ms, timeout_ms);
            wait
        }
        other => panic!("{other:?}"),
    }
}

fn replied(text: &str) -> Outcome {
    Outcome::Replied(Ok(json(text)))
}

fn refused(message: &str) -> Outcome {
    Outcome::Replied(Err(ResponseError { message: message.to_string() }))
}

const STATE_LINE: &str = "{\"id\":0,\"method\":\"get_state\",\"params\":{}}\n";

#[test]
fn instances_are_listed() {
    let mut registry = Registry::new();
    assert_eq!(
        text(call(&mut registry, "list_vim_instances", "{}")),
        "No Vim instances connected. Open Vim with the vim-mcp plugin loaded, or run :VimMCPReconnect."
    );
    let a = join(&mut registry, 3, "a", "");
    assert_eq!(
        text(call(&mut registry, "list_vim_instances", "{}")),
        "Found 1 Vim instance(s):\n- a (PID: -5)\n  File: unnamed\n  CWD: /w"
    );
    join(&mut registry, 4, "b", "f.txt");
    let both = "Found 2 Vim instance(s):\n- a (PID: -5)\n  File: unnamed\n  CWD: /w\n\
                - b (PID: -5)\n  File: f.txt\n  CWD: /w";
    assert_eq!(text(call(&mut registry, "list_vim_instances", "{}")), both);
    a.handle_disconnect(&mut registry);
    join(&mut registry, 5, "c", "g");
    assert_eq!(
        text(call(&mut registry, "list_vim_instances", "{}")),
        "Found 2 Vim instance(s):\n- b (PID: -5)\n  File: f.txt\n  CWD: /w\n- c (PID: -5)\n  \
         File: g\n  CWD: /w\n\nPlease select an instance using select_vim_instance with instance_id."
    );
}

#[test]
fn instance_is_selected() {
    let mut registry = one();
    join(&mut registry, 4, "b", "");
    match call(&mut registry, "select_vim_instance", "{\"instance_id\":\"b\"}") {
        ToolStep::Done { write: Some(file), result: Ok(text) } => {
            assert_eq!(file.path, PREFERENCE_PATH);
            assert_eq!(file.text, "b");
            assert_eq!(text, "Connected to Vim instance: b\nFile: unnamed\nCWD: /w");
        }
        other => panic!("{other:?}"),
    }
    assert_eq!(selected(&registry).unwrap(), "b");
}

#[test]
fn absent_instance_is_not_selected() {
    let mut registry = Registry::new();
    let required = is(ErrorKind::InvalidParams, "instance_id is required");
    assert_eq!(error(call(&mut registry, "select_vim_instance", "{}")), required);
    assert_eq!(error(call(&mut registry, "select_vim_instance", "{\"instance_id\":1}")), required);
    let args = "{\"instance_id\":\"x\"}";
    assert_eq!(
        error(call(&mut registry, "select_vim_instance", args)),
        is(ErrorKind::InvalidParams, "Instance 'x' not found. Available instances: none")
    );
    join(&mut registry, 3, "a", "f");
    join(&mut registry, 4, "b", "f");
    assert_eq!(
        error(call(&mut registry, "select_vim_instance", args)),
        is(ErrorKind::InvalidParams, "Instance 'x' not found. Available instances: a, b")
    );
    assert_eq!(registry.get_selected(), Some("a"));
}

#[test]
fn tools_need_a_selection() {
    let mut registry = Registry::new();
    let none = is(
        ErrorKind::InvalidRequest,
        "No Vim instance selected. Use select_vim_instance tool first.",
    );
    for tool in ["get_vim_state", "vim_execute", "exit_vim", "vim_search_help", "vim_record_macro"] {
        assert_eq!(error(call(&mut registry, tool, "{}")), none);
    }
    for uri in ["vim://state", "vim://buffers", "vim://tabs", "vim://other"] {
        assert_eq!(error(read_resource_text(&mut registry, uri)), none);
    }
    assert_eq!(registry.request_state("a").unwrap_err(), "Instance a not connected");
}

#[test]
fn unknown_tool_is_refused() {
    assert_eq!(
        error(call(&mut one(), "vim_fly", "{}")),
        is(ErrorKind::InvalidRequest, "Unknown tool: vim_fly")
    );
}

#[test]
fn state_is_given_as_answered() {
    let mut registry = one();
    let wait = asked(call(&mut registry, "get_vim_state", "{}"), STATE_LINE, 2000);
    assert_eq!(
        text(wait.resume(&mut registry, replied("{\"mode\":\"n\",\"a\":[]}"))),
        "{\n  \"a\": [],\n  \"mode\": \"n\"\n}"
    );
    assert!(registry.get_connection("a").unwrap().state.is_some());
    let wait = match call(&mut registry, "get_vim_state", "{}") {
        ToolStep::Ask(wait, _) => wait,
        other => panic!("{other:?}"),
    };
    assert_eq!(
        error(wait.resume(&mut registry, Outcome::TimedOut)),
        is(ErrorKind::Internal, "Timeout waiting for Vim response")
    );
}

#[test]
fn executed_command_is_reported() {
    let mut registry = one();
    let required = is(ErrorKind::InvalidParams, "Command parameter is required");
    assert_eq!(error(call(&mut registry, "vim_execute", "{\"command\":null}")), required);
    let step = call(&mut registry, "vim_execute", "{\"command\":\"set number\"}");
    let wait = asked(step, STATE_LINE, 2000);
    let send = match wait.resume(&mut registry, replied("{}")) {
        ToolStep::Send(send, out) => {
            assert_eq!(out.link, 3);
            assert_eq!(
                out.line,
                "{\"id\":0,\"method\":\"execute_command\",\"params\":{\"command\":\"set number\"}}\n"
            );
            send
        }
        other => panic!("{other:?}"),
    };
    let sleep = match send.resume(true) {
        ToolStep::Sleep(sleep, 500) => sleep,
        other => panic!("{other:?}"),
    };
    let wait = match sleep.resume(&mut registry) {
        ToolStep::Ask(wait, ask) => {
            assert_eq!(ask.id, 1);
            wait
        }
        other => panic!("{other:?}"),
    };
    assert_eq!(
        text(wait.resume(&mut registry, replied("{}"))),
        "Setting command executed: set number"
    );
}

#[test]
fn failed_command_is_reported() {
    let mut registry = one();
    let wait = match call(&mut registry, "vim_execute", "{\"command\":\"split\"}") {
        ToolStep::Ask(wait, _) => wait,
        other => panic!("{other:?}"),
    };
    assert_eq!(
        error(wait.resume(&mut registry, refused("E5"))),
        is(
            ErrorKind::Internal,
            "Failed to execute command: Failed to get state before command: E5"
        )
    );
    match call(&mut registry, "vim_execute", "{\"command\":\"q\"}") {
        ToolStep::Send(send, _) => assert_eq!(
            error(send.resume(false)),
            is(ErrorKind::Internal, "Failed to execute command: Instance disconnected")
        ),
        other => panic!("{other:?}"),
    }
}

#[test]
fn unsaved_buffers_block_exit() {
    let mut registry = one();
    let wait = asked(call(&mut registry, "exit_vim", "{}"), STATE_LINE, 2000);
    let state = "{\"buffers\":[{\"modified\":true,\"name\":\"x\"},{\"modified\":false,\"name\":\"y\"},\
                 {\"modified\":true,\"name\":\"\"},{\"name\":\"z\"},{\"modified\":true}]}";
    assert_eq!(
        text(wait.resume(&mut registry, replied(state))),
        "Cannot exit Vim: 3 buffer(s) have unsaved changes: x, [No Name], [No Name]\n\nOptions:\n\
         - Save manually and run exit_vim again\n- exit_vim action='save_and_exit'\n\
         - exit_vim action='force_exit'"
    );
}

#[test]
fn exits_are_reported_by_their_kind() {
    for (args, command, said) in [
        ("{\"action\":\"check\"}", "qall", "Vim exited successfully (no unsaved changes)"),
        ("{\"action\":7}", "qall", "Vim exited successfully (no unsaved changes)"),
        (
            "{\"action\":\"save_and_exit\"}",
            "wqall",
            "All changes saved and Vim exited successfully",
        ),
        (
            "{\"action\":\"force_exit\"}",
            "qall!",
            "Vim force exited (unsaved changes discarded)",
        ),
    ] {
        let mut registry = Registry::new();
        let session = join(&mut registry, 3, "a", "f");
        let step = match call(&mut registry, "exit_vim", args) {
            ToolStep::Ask(wait, _) => wait.resume(&mut registry, replied("{\"buffers\":[{}]}")),
            step => step,
        };
        let sleep = match step {
            ToolStep::Send(send, out) => {
                assert_eq!(
                    out.line,
                    format!(
                        "{{\"id\":0,\"method\":\"execute_command\",\"params\":{{\"command\":\"{command}\"}}}}\n"
                    )
                );
                match send.resume(true) {
                    ToolStep::Sleep(sleep, 50) => sleep,
                    other => panic!("{other:?}"),
                }
            }
            other => panic!("{other:?}"),
        };
        assert!(session.handle_disconnect(&mut registry).unwrap().expected);
        assert_eq!(text(sleep.resume(&mut registry)), said);
    }
}

#[test]
fn failed_exits_are_errors() {
    let mut registry = one();
    assert_eq!(
        error(call(&mut registry, "exit_vim", "{\"action\":\"leave\"}")),
        is(
            ErrorKind::InvalidParams,
            "Invalid action 'leave'. Use: check, save_and_exit, or force_exit"
        )
    );
    let wait = asked(call(&mut registry, "exit_vim", "{}"), STATE_LINE, 2000);
    assert_eq!(error(wait.resume(&mut registry, refused("E"))), is(ErrorKind::Internal, "E"));
    match call(&mut registry, "exit_vim", "{\"action\":\"force_exit\"}") {
        ToolStep::Send(send, _) => assert_eq!(
            error(send.resume(false)),
            is(ErrorKind::Internal, "Instance disconnected")
        ),
        other => panic!("{other:?}"),
    }
}

#[test]
fn help_is_searched() {
    let line = "{\"id\":0,\"method\":\"search_help\",\"params\":{\"query\":\"buf\"}}\n";
    for (reply, said) in [
        (
            "{\"success\":true,\"tag\":\"buffers\",\"file\":\"windows.txt\",\"line\":12}",
            "Found help for 'buf':\n\nTag: buffers\nFile: windows.txt\nLine: 12\n\nHelp window opened in Vim.",
        ),
        (
            "{\"success\":true,\"line\":1.5}",
            "Found help for 'buf':\n\nTag: \nFile: \nLine: 0\n\nHelp window opened in Vim.",
        ),
        (
            "{\"success\":\"yes\"}",
            "No help found for 'buf'. Try a more specific term, :helpgrep, or :help.",
        ),
    ] {
        let mut registry = one();
        let step = call(&mut registry, "vim_search_help", "{\"query\":\"buf\"}");
        let wait = asked(step, line, 3000);
        assert_eq!(text(wait.resume(&mut registry, replied(reply))), said);
        assert!(registry.get_connection("a").unwrap().state.is_none());
    }
    let mut registry = one();
    assert_eq!(
        error(call(&mut registry, "vim_search_help", "{}")),
        is(ErrorKind::InvalidParams, "Query parameter is required")
    );
    let wait = asked(call(&mut registry, "vim_search_help", "{\"query\":\"buf\"}"), line, 3000);
    assert_eq!(error(wait.resume(&mut registry, refused("E"))), is(ErrorKind::Internal, "E"));
}

#[test]
fn macro_is_recorded() {
    for (args, params, reply, said) in [
        (
            "{\"macro_sequence\":\"0dw\"}",
            "{\"execute\":true,\"macro_sequence\":\"0dw\",\"register\":\"q\"}",
            "{\"success\":true}",
            "Macro recorded in register \"q\" and executed\nSequence: 0dw",
        ),
        (
            "{\"macro_sequence\":\"x\",\"register\":\"7\",\"execute\":false}",
            "{\"execute\":false,\"macro_sequence\":\"x\",\"register\":\"7\"}",
            "{\"success\":true,\"output\":\"done\"}",
            "Macro recorded in register \"7\"\nSequence: x\ndone",
        ),
        (
            "{\"macro_sequence\":\"x\",\"register\":\"z\"}",
            "{\"execute\":true,\"macro_sequence\":\"x\",\"register\":\"z\"}",
            "{\"success\":false,\"error\":\"E354\"}",
            "Failed to record macro: E354",
        ),
        (
            "{\"macro_sequence\":\"x\"}",
            "{\"execute\":true,\"macro_sequence\":\"x\",\"register\":\"q\"}",
            "null",
            "Failed to record macro: Unknown error",
        ),
    ] {
        let mut registry = one();
        let step = call(&mut registry, "vim_record_macro", args);
        let line = format!("{{\"id\":0,\"method\":\"record_macro\",\"params\":{params}}}\n");
        let wait = asked(step, &line, 2000);
        assert_eq!(text(wait.resume(&mut registry, replied(reply))), said);
    }
}

#[test]
fn macro_needs_a_sequence_and_a_register() {
    let mut registry = one();
    assert_eq!(
        error(call(&mut registry, "vim_record_macro", "{}")),
        is(ErrorKind::InvalidParams, "macro_sequence parameter is required")
    );
    for register in ["", "ab", "*", "Q", "Z", "A", "`", "{", "/", ":", "\u{e9}", "\u{661}"] {
        let args = format!("{{\"macro_sequence\":\"x\",\"register\":\"{register}\"}}");
        assert_eq!(
            error(call(&mut registry, "vim_record_macro", &args)),
            is(ErrorKind::InvalidParams, "Register must be a single letter (a-z) or digit (0-9)")
        );
    }
    let step = call(&mut registry, "vim_record_macro", "{\"macro_sequence\":\"x\"}");
    match step {
        ToolStep::Ask(wait, _) => assert_eq!(
            error(wait.resume(&mut registry, Outcome::Closed)),
            is(ErrorKind::Internal, "Vim connection closed before responding")
        ),
        other => panic!("{other:?}"),
    }
}

#[test]
fn resources_follow_the_selection() {
    let uris = |registry: &Registry| -> Vec<(&'static str, &'static str)> {
        list_resources(registry).iter().map(|r| (r.uri, r.name)).collect()
    };
    assert_eq!(uris(&Registry::new()), [("vim://instances", "Vim Instances")]);
    assert_eq!(
        uris(&one()),
        [
            ("vim://instances", "Vim Instances"),
            ("vim://state", "Vim State"),
            ("vim://buffers", "Vim Buffers"),
            ("vim://tabs", "Vim Tabs"),
        ]
    );
}

#[test]
fn instances_are_a_resource() {
    let mut registry = Registry::new();
    assert_eq!(text(read_resource_text(&mut registry, "vim://instances")), "{}");
    let mut registry = one();
    assert_eq!(
        text(read_resource_text(&mut registry, "vim://instances")),
        "{\n  \"a\": {\n    \"buffers\": [],\n    \"connected\": true,\n    \"cwd\": \"/w\",\n    \
         \"main_file\": \"f\",\n    \"pid\": -5\n  }\n}"
    );
}

#[test]
fn resources_are_parts_of_the_state() {
    let state = "{\"buffers\":[1],\"tabs\":{\"t\":2}}";
    for (uri, reply, said) in [
        ("vim://buffers", state, "[\n  1\n]"),
        ("vim://tabs", state, "{\n  \"t\": 2\n}"),
        ("vim://state", "[]", "[]"),
        ("vim://buffers", "{}", "[]"),
        ("vim://tabs", "null", "[]"),
    ] {
        let mut registry = one();
        let wait = asked(read_resource_text(&mut registry, uri), STATE_LINE, 2000);
        assert_eq!(text(wait.resume(&mut registry, replied(reply))), said);
    }
    let mut registry = one();
    let wait = asked(read_resource_text(&mut registry, "vim://x"), STATE_LINE, 2000);
    assert_eq!(
        error(wait.resume(&mut registry, replied(state))),
        is(ErrorKind::InvalidRequest, "Unknown resource: vim://x")
    );
}

#[test]
fn every_listed_tool_is_known() {
    let names: Vec<&str> = list_tools().iter().map(|t| t.name).collect();
    assert_eq!(
        names,
        [
            "list_vim_instances",
            "select_vim_instance",
            "get_vim_state",
            "vim_execute",
            "exit_vim",
            "vim_search_help",
            "vim_record_macro",
        ]
    );
    for name in names {
        if let ToolStep::Done { result: Err(e), .. } = call(&mut one(), name, "{}") {
            assert!(!e.message.starts_with("Unknown tool"));
        }
    }
}

#[test]
fn tools_are_described() {
    let tools = list_tools();
    assert_eq!(tools[0].description, "List all available Vim instances");
    assert_eq!(tools[0].schema.to_compact(), "{\"properties\":{},\"type\":\"object\"}");
    assert_eq!(
        tools[1].schema.to_compact(),
        "{\"properties\":{\"instance_id\":{\"description\":\"The ID of the Vim instance to select\",\
         \"type\":\"string\"}},\"required\":[\"instance_id\"],\"type\":\"object\"}"
    );
    assert_eq!(
        tools[4].schema.to_compact(),
        "{\"properties\":{\"action\":{\"description\":\"Action to take: \\\"check\\\" (default), \
         \\\"save_and_exit\\\", or \\\"force_exit\\\"\",\"enum\":[\"check\",\"save_and_exit\",\
         \"force_exit\"],\"type\":\"string\"}},\"type\":\"object\"}"
    );
    assert_eq!(
        tools[6].schema.to_compact(),
        "{\"properties\":{\"execute\":{\"description\":\"Whether to execute the macro immediately \
         after recording (default: true)\",\"type\":\"boolean\"},\"macro_sequence\":{\"description\":\
         \"The Vim keystroke sequence to record (e.g., \\\"0gUwj2j\\\")\",\"type\":\"string\"},\
         \"register\":{\"description\":\"Register to save the macro in (default: \\\"q\\\"). Single \
         letter a-z or digit 0-9\",\"type\":\"string\"}},\"required\":[\"macro_sequence\"],\
         \"type\":\"object\"}"
    );
}

#[test]
fn schema_is_an_object() {
    assert_eq!(schema(json("{\"a\":1}")).to_compact(), "{\"a\":1}");
    assert_eq!(schema(json("[1]")).to_compact(), "{}");
    assert_eq!(SERVER_NAME, "vim-mcp");
}
