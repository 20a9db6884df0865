//! Registrations, messages, requests and commands.

use vim_mcp::bridge::execute_command_verified;
use vim_mcp::bridge::execute_exit_command;
use vim_mcp::bridge::execute_vim_command;
use vim_mcp::bridge::is_blank;
use vim_mcp::bridge::CommandStep;
use vim_mcp::bridge::Reaction;
use vim_mcp::bridge::Session;
use vim_mcp::json::Json;
use vim_mcp::protocol::IncomingMessage;
use vim_mcp::protocol::InstanceInfo;
use vim_mcp::protocol::Registered;
use vim_mcp::protocol::Request;
use vim_mcp::protocol::ResponseError;
use vim_mcp::registry::Outcome;
use vim_mcp::registry::Registry;
use vim_mcp::registry::PREFERENCE_PATH;
use vim_mcp::registry::REGISTRY_PATH;
use vim_mcp::registry::SOCKET_PATH;

fn json(text: &str) -> Json {
    Json::from_value(serde_json::from_str(text).unwrap())
}

fn blank() -> IncomingMessage {
    IncomingMessage {
        msg_type: None,
        instance_id: None,
        info: None,
        state: None,
        id: None,
        result: None,
        error: None,
    }
}

fn info(pid: i64) -> InstanceInfo {
    InstanceInfo {
        pid,
        cwd: "/work".to_string(),
        main_file: "main.rs".to_string(),
        buffers: vec!["main.rs".to_string(), "b".to_string()],
        version: Json::Null,
    }
}

fn registration(id: &str) -> IncomingMessage {
    IncomingMessage {
        msg_type: Some("register".to_string()),
        instance_id: Some(id.to_string()),
        info: Some(info(7)),
        ..blank()
    }
}

fn answer(id: i64, result: &str) -> IncomingMessage {
    IncomingMessage { id: Some(id), result: Some(json(result)), ..blank() }
}

fn join(registry: &mut Registry, link: u64, id: &str) -> Session {
    let mut session = Session::new(link);
    let reaction = session.handle_message(registry, registration(id), "now".to_string());
    assert!(matches!(reaction, Reaction::Registered { .. }));
    session
}

fn replied(text: &str) -> Outcome {
    Outcome::Replied(Ok(json(text)))
}

fn done(step: CommandStep) -> Result<String, String> {
    match step {
        CommandStep::Done(result) => result,
        other => panic!("not done: {other:?}"),
    }
}

#[test]
fn lines_of_the_protocol() {
    let request = Request { id: -3, method: "get_state", params: json("{\"z\":1,\"a\":\"x\\ny\"}") };
    assert_eq!(
        request.line(),
        "{\"id\":-3,\"method\":\"get_state\",\"params\":{\"a\":\"x\\ny\",\"z\":1}}\n"
    );
    let ack = Registered::new("a \"b\"\n".to_string());
    assert_eq!(ack.msg_type, "registered");
    assert_eq!(ack.instance_id, "a \"b\"\n");
    assert_eq!(ack.line(), "{\"type\":\"registered\",\"instance_id\":\"a \\\"b\\\"\\n\"}\n");
    assert!(is_blank(" \t\u{a0}"));
    assert!(is_blank(""));
    assert!(!is_blank(" {} "));
}

#[test]
fn copies_are_equal() {
    let copy = info(3).clone();
    assert_eq!((copy.pid, copy.cwd.as_str(), copy.main_file.as_str()), (3, "/work", "main.rs"));
    assert_eq!(copy.buffers, ["main.rs", "b"]);
    assert!(matches!(copy.version, Json::Null));
    assert_eq!(ResponseError { message: "m".to_string() }.clone().message, "m");
}

#[test]
fn paths_of_the_server() {
    assert_eq!(SOCKET_PATH, "/tmp/vim-mcp-server.sock");
    assert_eq!(REGISTRY_PATH, "/tmp/vim-mcp-registry.json");
    assert_eq!(PREFERENCE_PATH, "/tmp/vim-mcp-preference.txt");
}

#[test]
fn first_registration_is_selected() {
    let mut registry = Registry::new();
    let mut session = Session::new(4);
    match session.handle_message(&mut registry, registration("vim1"), "now".to_string()) {
        Reaction::Registered { instance_id, registry_file, ack, preference_file } => {
            assert_eq!(instance_id, "vim1");
            assert_eq!(registry_file.path, REGISTRY_PATH);
            assert_eq!(
                registry_file.text,
                "{\n  \"vim1\": {\n    \"buffers\": [\n      \"main.rs\",\n      \"b\"\n    ],\n    \
                 \"cwd\": \"/work\",\n    \"main_file\": \"main.rs\",\n    \"pid\": 7,\n    \
                 \"started\": \"now\"\n  }\n}"
            );
            assert_eq!(ack, "{\"type\":\"registered\",\"instance_id\":\"vim1\"}\n");
            let preference = preference_file.unwrap();
            assert_eq!(preference.path, PREFERENCE_PATH);
            assert_eq!(preference.text, "vim1");
        }
        other => panic!("{other:?}"),
    }
    assert_eq!(session.instance_id.as_deref(), Some("vim1"));
    assert_eq!(registry.get_selected(), Some("vim1"));
    let c = registry.get_connection("vim1").unwrap();
    assert_eq!((c.link, c.info.pid, c.started.as_str()), (4, 7, "now"));
    assert!(c.state.is_none());
    assert!(registry.get_connection("vim2").is_none());
}

#[test]
fn second_registration_leaves_the_selection() {
    let mut registry = Registry::new();
    join(&mut registry, 1, "a");
    let mut session = Session::new(2);
    match session.handle_message(&mut registry, registration("b"), "later".to_string()) {
        Reaction::Registered { preference_file, .. } => assert!(preference_file.is_none()),
        other => panic!("{other:?}"),
    }
    assert_eq!(registry.get_selected(), Some("a"));
    assert_eq!(registry.count(), 2);
    assert_eq!(registry.ids(), ["a", "b"]);
    assert_eq!(registry.at(1).0, "b");
}

#[test]
fn registering_again_replaces_the_connection() {
    let mut registry = Registry::default();
    join(&mut registry, 1, "a");
    registry.cache("a", json("1"));
    join(&mut registry, 9, "a");
    assert_eq!(registry.count(), 1);
    let c = registry.get_connection("a").unwrap();
    assert_eq!(c.link, 9);
    assert!(c.state.is_none());
}

#[test]
fn incomplete_registration_is_ignored() {
    let mut registry = Registry::new();
    let mut session = Session::new(1);
    let no_id = IncomingMessage { instance_id: None, ..registration("a") };
    let no_info = IncomingMessage { info: None, ..registration("a") };
    assert!(matches!(session.handle_message(&mut registry, no_id, String::new()), Reaction::Nothing));
    assert!(matches!(session.handle_message(&mut registry, no_info, String::new()), Reaction::Nothing));
    assert_eq!(registry.count(), 0);
    assert!(session.instance_id.is_none());
}

#[test]
fn departure_undoes_registration() {
    let mut registry = Registry::new();
    let a = join(&mut registry, 1, "a");
    let b = join(&mut registry, 2, "b");
    let departure = b.handle_disconnect(&mut registry).unwrap();
    assert_eq!(departure.instance_id, "b");
    assert!(!departure.expected);
    assert!(departure.registry_file.text.contains("\"a\""));
    assert!(!departure.registry_file.text.contains("\"b\": {"));
    assert_eq!(registry.ids(), ["a"]);
    assert_eq!(registry.get_selected(), Some("a"));
    let departure = a.handle_disconnect(&mut registry).unwrap();
    assert_eq!(departure.registry_file.text, "{}");
    assert_eq!(registry.get_selected(), None);
    assert_eq!(registry.count(), 0);
    assert!(Session::new(3).handle_disconnect(&mut registry).is_none());
}

#[test]
fn pushed_state_is_cached() {
    let mut registry = Registry::new();
    let mut session = join(&mut registry, 1, "a");
    let push = || IncomingMessage {
        msg_type: Some("state_update".to_string()),
        state: Some(json("{\"mode\":\"n\"}")),
        id: Some(0),
        ..blank()
    };
    assert!(matches!(session.handle_message(&mut registry, push(), String::new()), Reaction::Nothing));
    let cached = registry.get_connection("a").unwrap().state.as_ref().unwrap().to_compact();
    assert_eq!(cached, "{\"mode\":\"n\"}");
    let mut stranger = Session::new(2);
    assert!(matches!(stranger.handle_message(&mut registry, push(), String::new()), Reaction::Nothing));
    let empty = IncomingMessage { state: None, ..push() };
    assert!(matches!(session.handle_message(&mut registry, empty, String::new()), Reaction::Nothing));
    let cached = registry.get_connection("a").unwrap().state.as_ref().unwrap().to_compact();
    assert_eq!(cached, "{\"mode\":\"n\"}");
}

#[test]
fn answer_is_delivered_once_and_on_its_link() {
    let mut registry = Registry::new();
    let mut a = join(&mut registry, 1, "a");
    let mut b = join(&mut registry, 2, "b");
    let ask = registry.request("a", "search_help", json("{\"query\":\"x\"}"), 3000).unwrap();
    assert_eq!((ask.link, ask.id, ask.timeout_ms), (1, 0, 3000));
    assert_eq!(ask.line, "{\"id\":0,\"method\":\"search_help\",\"params\":{\"query\":\"x\"}}\n");
    let second = registry.request_state("b").unwrap();
    assert_eq!((second.link, second.id, second.timeout_ms), (2, 1, 2000));
    assert_eq!(second.line, "{\"id\":1,\"method\":\"get_state\",\"params\":{}}\n");
    assert!(matches!(b.handle_message(&mut registry, answer(0, "1"), String::new()), Reaction::Nothing));
    assert!(matches!(a.handle_message(&mut registry, blank(), String::new()), Reaction::Nothing));
    match a.handle_message(&mut registry, answer(0, "{\"ok\":true}"), String::new()) {
        Reaction::Deliver { id, reply } => {
            assert_eq!(id, 0);
            assert_eq!(reply.unwrap().to_compact(), "{\"ok\":true}");
        }
        other => panic!("{other:?}"),
    }
    assert!(matches!(a.handle_message(&mut registry, answer(0, "1"), String::new()), Reaction::Nothing));
}

#[test]
fn answers_come_in_any_order() {
    let mut registry = Registry::new();
    let mut a = join(&mut registry, 1, "a");
    for expected in 0..3 {
        assert_eq!(registry.request_state("a").unwrap().id, expected);
    }
    for number in [2, 0, 1] {
        match a.handle_message(&mut registry, answer(number, "null"), String::new()) {
            Reaction::Deliver { id, reply } => {
                assert_eq!(id, number);
                assert!(matches!(reply, Ok(Json::Null)));
            }
            other => panic!("{other:?}"),
        }
    }
}

#[test]
fn error_counts_before_result_and_nothing_is_null() {
    let mut registry = Registry::new();
    let mut a = join(&mut registry, 1, "a");
    registry.request_state("a").unwrap();
    registry.request_state("a").unwrap();
    let both = IncomingMessage {
        msg_type: Some("other".to_string()),
        error: Some(ResponseError { message: "E1".to_string() }),
        ..answer(0, "1")
    };
    match a.handle_message(&mut registry, both, String::new()) {
        Reaction::Deliver { reply, .. } => assert_eq!(reply.unwrap_err().message, "E1"),
        other => panic!("{other:?}"),
    }
    let neither = IncomingMessage { id: Some(1), ..blank() };
    match a.handle_message(&mut registry, neither, String::new()) {
        Reaction::Deliver { reply, .. } => assert!(matches!(reply, Ok(Json::Null))),
        other => panic!("{other:?}"),
    }
}

#[test]
fn outcomes_of_requests() {
    let mut registry = Registry::new();
    let mut a = join(&mut registry, 1, "a");
    assert_eq!(registry.request_state("x").unwrap_err(), "Instance x not connected");
    let ask = registry.request_state("a").unwrap();
    assert_eq!(ask.id, 0);
    let finish = |registry: &mut Registry, outcome| registry.finish_request("a", 1, 0, outcome);
    assert_eq!(finish(&mut registry, Outcome::SendFailed).unwrap_err(), "Instance a disconnected");
    assert_eq!(
        finish(&mut registry, Outcome::Closed).unwrap_err(),
        "Vim connection closed before responding"
    );
    let refused = Outcome::Replied(Err(ResponseError { message: "no".to_string() }));
    assert_eq!(finish(&mut registry, refused).unwrap_err(), "no");
    assert_eq!(finish(&mut registry, replied("[1]")).unwrap().to_compact(), "[1]");
    assert!(registry.get_connection("a").unwrap().state.is_none());
    assert_eq!(
        finish(&mut registry, Outcome::TimedOut).unwrap_err(),
        "Timeout waiting for Vim response"
    );
    assert!(matches!(a.handle_message(&mut registry, answer(0, "1"), String::new()), Reaction::Nothing));
    assert_eq!(registry.finish_state("a", 1, 0, replied("[2]")).unwrap().to_compact(), "[2]");
    assert_eq!(registry.get_connection("a").unwrap().state.as_ref().unwrap().to_compact(), "[2]");
}

#[test]
fn ended_requests_are_not_awaited() {
    for outcome in [Outcome::SendFailed, Outcome::Closed, Outcome::TimedOut] {
        let mut registry = Registry::new();
        let mut a = join(&mut registry, 1, "a");
        let ask = registry.request_state("a").unwrap();
        assert!(registry.finish_request("a", ask.link, ask.id, outcome).is_err());
        assert!(!registry.settle(ask.link, ask.id));
        let late = a.handle_message(&mut registry, answer(ask.id, "1"), String::new());
        assert!(matches!(late, Reaction::Nothing));
    }
}

#[test]
fn requests_are_numbered_from_zero() {
    let mut registry = Registry::new();
    assert!(registry.request_state("a").is_err());
    let a = join(&mut registry, 1, "a");
    assert_eq!(registry.request_state("a").unwrap().id, 0);
    join(&mut registry, 2, "b");
    assert_eq!(registry.request_state("b").unwrap().id, 1);
    a.handle_disconnect(&mut registry);
    assert!(registry.request_state("a").is_err());
    assert_eq!(registry.request("b", "m", Json::Null, 1).unwrap().id, 2);
}

#[test]
fn passed_over_lines_change_no_run() {
    let incomplete = || IncomingMessage { info: None, ..registration("x") };
    let nameless = || IncomingMessage { instance_id: None, ..registration("x") };
    let run = |with_noise: bool| {
        let mut registry = Registry::new();
        let mut session = Session::new(1);
        let mut acks: Vec<String> = Vec::new();
        let noise: Vec<(&str, Option<IncomingMessage>)> = vec![
            ("  \t", None),
            ("", Some(registration("ghost"))),
            ("not json", None),
            ("{..}", Some(incomplete())),
            ("{..}", Some(nameless())),
        ];
        let real = vec![("{..}", Some(registration("a"))), ("{..}", Some(registration("b")))];
        let lines = if with_noise { noise.into_iter().chain(real).collect() } else { real };
        for (line, message) in lines {
            match session.handle_line(&mut registry, line, message, "now".to_string()) {
                Reaction::Registered { ack, .. } => acks.push(ack),
                Reaction::Nothing => {}
                other => panic!("{other:?}"),
            }
        }
        (format!("{registry:?}"), format!("{session:?}"), acks)
    };
    assert_eq!(run(true), run(false));
    assert_eq!(run(true).2.len(), 2);
}

#[test]
fn exit_succeeds_when_the_link_ends() {
    let mut registry = Registry::new();
    let a = join(&mut registry, 5, "a");
    let sleep = match execute_exit_command(&mut registry, "a", "wq") {
        CommandStep::Send(wait, out) => {
            assert_eq!(out.link, 5);
            assert_eq!(
                out.line,
                "{\"id\":0,\"method\":\"execute_command\",\"params\":{\"command\":\"wq\"}}\n"
            );
            match wait.resume(true) {
                CommandStep::Sleep(sleep, 50) => sleep,
                other => panic!("{other:?}"),
            }
        }
        other => panic!("{other:?}"),
    };
    let sleep = match sleep.resume(&mut registry) {
        CommandStep::Sleep(sleep, 50) => sleep,
        other => panic!("{other:?}"),
    };
    assert!(a.handle_disconnect(&mut registry).unwrap().expected);
    assert_eq!(done(sleep.resume(&mut registry)), Ok("Vim exited successfully".to_string()));
}

#[test]
fn exit_gives_up_after_forty_looks() {
    let mut registry = Registry::new();
    let a = join(&mut registry, 5, "a");
    let mut step = match execute_vim_command(&mut registry, "a", " q! ") {
        CommandStep::Send(wait, _) => wait.resume(true),
        other => panic!("{other:?}"),
    };
    let mut looks = 0;
    let result = loop {
        match step {
            CommandStep::Sleep(sleep, ms) => {
                assert_eq!(ms, 50);
                looks += 1;
                step = sleep.resume(&mut registry);
            }
            other => break done(other),
        }
    };
    assert_eq!(looks, 40);
    assert_eq!(result, Err("Timeout waiting for Vim to exit".to_string()));
    assert!(!a.handle_disconnect(&mut registry).unwrap().expected);
}

#[test]
fn exit_of_an_absent_instance_fails() {
    let mut registry = Registry::new();
    assert_eq!(
        done(execute_exit_command(&mut registry, "a", "q")),
        Err("Instance a not connected".to_string())
    );
    join(&mut registry, 5, "a");
    match execute_exit_command(&mut registry, "a", "q") {
        CommandStep::Send(wait, _) => {
            assert_eq!(done(wait.resume(false)), Err("Instance disconnected".to_string()));
        }
        other => panic!("{other:?}"),
    }
}

#[test]
fn judged_command_runs_to_its_verdict() {
    for (after, expected) in [
        (
            "{\"windows\":[{},{}]}",
            Ok("Window split successful. Windows increased from 1 to 2.".to_string()),
        ),
        (
            "{\"windows\":[{}]}",
            Err("Command verification failed: Window split may have failed. \
                 Window count unchanged: 1."
                .to_string()),
        ),
    ] {
        let mut registry = Registry::new();
        join(&mut registry, 5, "a");
        let wait = match execute_vim_command(&mut registry, "a", "split") {
            CommandStep::Ask(wait, ask) => {
                assert_eq!((ask.link, ask.id, ask.timeout_ms), (5, 0, 2000));
                wait
            }
            other => panic!("{other:?}"),
        };
        let sleep = match wait.resume(&mut registry, replied("{\"windows\":[{}]}")) {
            CommandStep::Send(wait, out) => {
                assert_eq!(
                    out.line,
                    "{\"id\":0,\"method\":\"execute_command\",\"params\":{\"command\":\"split\"}}\n"
                );
                match wait.resume(true) {
                    CommandStep::Sleep(sleep, 500) => sleep,
                    other => panic!("{other:?}"),
                }
            }
            other => panic!("{other:?}"),
        };
        let wait = match sleep.resume(&mut registry) {
            CommandStep::Ask(wait, ask) => {
                assert_eq!((ask.link, ask.id), (5, 1));
                wait
            }
            other => panic!("{other:?}"),
        };
        assert_eq!(done(wait.resume(&mut registry, replied(after))), expected);
        let cached = registry.get_connection("a").unwrap().state.as_ref().unwrap().to_compact();
        assert_eq!(cached, after);
    }
}

#[test]
fn judged_command_fails_at_each_step() {
    let mut registry = Registry::new();
    assert_eq!(
        done(execute_command_verified(&mut registry, "a", "split")),
        Err("Failed to get state before command: Instance a not connected".to_string())
    );
    let first = |registry: &mut Registry| match execute_command_verified(registry, "a", "split") {
        CommandStep::Ask(wait, _) => wait,
        other => panic!("{other:?}"),
    };
    let a = join(&mut registry, 1, "a");
    let wait = first(&mut registry);
    assert_eq!(
        done(wait.resume(&mut registry, Outcome::TimedOut)),
        Err("Failed to get state before command: Timeout waiting for Vim response".to_string())
    );
    let wait = first(&mut registry);
    match wait.resume(&mut registry, replied("{}")) {
        CommandStep::Send(wait, _) => {
            assert_eq!(done(wait.resume(false)), Err("Instance disconnected".to_string()));
        }
        other => panic!("{other:?}"),
    }
    let sleep = |registry: &mut Registry| {
        let wait = match execute_command_verified(registry, "a", "split") {
            CommandStep::Ask(wait, _) => wait,
            other => panic!("{other:?}"),
        };
        match wait.resume(registry, replied("{}")) {
            CommandStep::Send(wait, _) => match wait.resume(true) {
                CommandStep::Sleep(sleep, _) => sleep,
                other => panic!("{other:?}"),
            },
            other => panic!("{other:?}"),
        }
    };
    let asleep = sleep(&mut registry);
    match asleep.resume(&mut registry) {
        CommandStep::Ask(wait, _) => assert_eq!(
            done(wait.resume(&mut registry, Outcome::SendFailed)),
            Err("Failed to verify command execution: Instance a disconnected".to_string())
        ),
        other => panic!("{other:?}"),
    }
    let asleep = sleep(&mut registry);
    let wait = first(&mut registry);
    a.handle_disconnect(&mut registry);
    assert_eq!(
        done(asleep.resume(&mut registry)),
        Err("Failed to verify command execution: Instance a not connected".to_string())
    );
    assert_eq!(
        done(wait.resume(&mut registry, replied("{}"))),
        Err("Instance a not connected".to_string())
    );
}
