//! The tools that MCP clients call.
//!
//! A call runs in steps, as a command does: each step says what to do next,
//! and what is to be remembered until that is done.

use crate::bridge::execute_vim_command;
use crate::bridge::start_command;
use crate::bridge::text_result;
use crate::bridge::CommandReply;
use crate::bridge::CommandReplyView;
use crate::bridge::CommandSend;
use crate::bridge::CommandSendView;
use crate::bridge::CommandSleep;
use crate::bridge::CommandSleepView;
use crate::bridge::CommandStep;
use crate::bridge::CommandStepView;
use crate::bridge::Outgoing;
use crate::bridge::OutgoingView;
use crate::commands::show_name;
use crate::commands::shown_name;
use crate::json::array_view;
use crate::json::with_entry;
use crate::json::Json;
use crate::json::JsonView;
use crate::protocol::framed;
use crate::registry::preference_file;
use crate::registry::Ask;
use crate::registry::AskView;
use crate::registry::ConnectionView;
use crate::registry::FileWrite;
use crate::registry::FileWriteView;
use crate::registry::Registry;
use crate::registry::RegistryView;
use crate::text::decimal;
use crate::text::decimal_int;
use crate::text::eq;
use crate::text::join;
use crate::text::joined;
use crate::text::number_text;
use crate::text::signed_text;
use crate::text::texts;
use crate::text::to_chars;
use vstd::prelude::*;

verus! {

// ---------------------------------------------------------------------------
// Steps
// ---------------------------------------------------------------------------
/// What is wrong with a call that fails.
#[derive(Debug, Clone, Copy, PartialEq, Eq, Structural)]
pub enum ErrorKind {
    InvalidRequest,
    InvalidParams,
    Internal,
}

/// Why a call fails.
#[derive(Debug)]
pub struct ToolError {
    pub kind: ErrorKind,
    pub message: String,
}

/// What a [`ToolError`] says.
pub struct ToolErrorView {
    pub kind: ErrorKind,
    pub message: Seq<char>,
}

impl View for ToolError {
    type V = ToolErrorView;

    open spec fn view(&self) -> ToolErrorView {
        ToolErrorView { kind: self.kind, message: self.message@ }
    }
}

/// What a call's result holds.
pub open spec fn result_view(r: Result<String, ToolError>) -> Result<Seq<char>, ToolErrorView> {
    match r {
        Ok(s) => Ok(s@),
        Err(e) => Err(e@),
    }
}

/// What a command was run for.
#[derive(Debug, Clone, Copy, PartialEq, Eq, Structural)]
pub enum Purpose {
    /// Its own effect.
    Execute,
    /// To exit Vim, which has no unsaved changes.
    CheckedExit,
    /// To save all changes and exit Vim.
    SavingExit,
    /// To exit Vim in spite of unsaved changes.
    ForcedExit,
}

/// A call that awaits an answer.
#[derive(Debug)]
pub enum ToolReply {
    Command { purpose: Purpose, wait: CommandReply },
    State { instance_id: String, link: u64, id: i64 },
    ExitCheck { instance_id: String, link: u64, id: i64 },
    SearchHelp { instance_id: String, query: String, link: u64, id: i64 },
    RecordMacro {
        instance_id: String,
        sequence: String,
        register: String,
        execute: bool,
        link: u64,
        id: i64,
    },
    Resource { instance_id: String, uri: String, link: u64, id: i64 },
}

/// What a [`ToolReply`] is.
pub enum ToolReplyView {
    Command { purpose: Purpose, wait: CommandReplyView },
    State { instance_id: Seq<char>, link: u64, id: i64 },
    ExitCheck { instance_id: Seq<char>, link: u64, id: i64 },
    SearchHelp { instance_id: Seq<char>, query: Seq<char>, link: u64, id: i64 },
    RecordMacro {
        instance_id: Seq<char>,
        sequence: Seq<char>,
        register: Seq<char>,
        execute: bool,
        link: u64,
        id: i64,
    },
    Resource { instance_id: Seq<char>, uri: Seq<char>, link: u64, id: i64 },
}

impl View for ToolReply {
    type V = ToolReplyView;

    open spec fn view(&self) -> ToolReplyView {
        match *self {
            ToolReply::Command { purpose, wait } => ToolReplyView::Command { purpose, wait: wait@ },
            ToolReply::State { instance_id, link, id } => ToolReplyView::State {
                instance_id: instance_id@,
                link,
                id,
            },
            ToolReply::ExitCheck { instance_id, link, id } => ToolReplyView::ExitCheck {
                instance_id: instance_id@,
                link,
                id,
            },
            ToolReply::SearchHelp { instance_id, query, link, id } => ToolReplyView::SearchHelp {
                instance_id: instance_id@,
                query: query@,
                link,
                id,
            },
            ToolReply::RecordMacro { instance_id, sequence, register, execute, link, id } => {
                ToolReplyView::RecordMacro {
                    instance_id: instance_id@,
                    sequence: sequence@,
                    register: register@,
                    execute,
                    link,
                    id,
                }
            },
            ToolReply::Resource { instance_id, uri, link, id } => ToolReplyView::Resource {
                instance_id: instance_id@,
                uri: uri@,
                link,
                id,
            },
        }
    }
}

/// A call whose command is being sent.
#[derive(Debug)]
pub struct ToolSend {
    pub purpose: Purpose,
    pub wait: CommandSend,
}

/// A call whose command sleeps.
#[derive(Debug)]
pub struct ToolSleep {
    pub purpose: Purpose,
    pub wait: CommandSleep,
}

/// The next step of a call.
#[derive(Debug)]
pub enum ToolStep {
    /// Write the file, where there is one, and give the result.
    Done { write: Option<FileWrite>, result: Result<String, ToolError> },
    /// Send the request, and await its outcome.
    Ask(ToolReply, Ask),
    /// Send the line.
    Send(ToolSend, Outgoing),
    /// Sleep for so many milliseconds.
    Sleep(ToolSleep, u64),
}

/// What a [`ToolStep`] is.
pub enum ToolStepView {
    Done { write: Option<FileWriteView>, result: Result<Seq<char>, ToolErrorView> },
    Ask(ToolReplyView, AskView),
    Send(Purpose, CommandSendView, OutgoingView),
    Sleep(Purpose, CommandSleepView, u64),
}

impl View for ToolStep {
    type V = ToolStepView;

    open spec fn view(&self) -> ToolStepView {
        match *self {
            ToolStep::Done { write, result } => ToolStepView::Done {
                write: match write {
                    Some(f) => Some(f@),
                    None => None,
                },
                result: result_view(result),
            },
            ToolStep::Ask(wait, ask) => ToolStepView::Ask(wait@, ask@),
            ToolStep::Send(send, out) => ToolStepView::Send(send.purpose, send.wait@, out@),
            ToolStep::Sleep(sleep, ms) => ToolStepView::Sleep(sleep.purpose, sleep.wait@, ms),
        }
    }
}

impl ToolStep {
    /// Whether what the step sends is one line of the protocol.
    pub open spec fn sends_framed(self) -> bool {
        match self {
            ToolStep::Ask(_, ask) => framed(ask.line@),
            ToolStep::Send(_, out) => framed(out.line@),
            _ => true,
        }
    }
}

/// The step that ends a call with a text.
pub open spec fn answer(text: Seq<char>) -> ToolStepView {
    ToolStepView::Done { write: None, result: Ok(text) }
}

/// The step that ends a call with an error.
pub open spec fn failure(kind: ErrorKind, message: Seq<char>) -> ToolStepView {
    ToolStepView::Done { write: None, result: Err(ToolErrorView { kind, message }) }
}

pub(crate) fn answered(text: String) -> (step: ToolStep)
    ensures
        step@ == answer(text@),
        step.sends_framed(),
{
    ToolStep::Done { write: None, result: Ok(text) }
}

pub(crate) fn failed(kind: ErrorKind, message: String) -> (step: ToolStep)
    ensures
        step@ == failure(kind, message@),
        step.sends_framed(),
{
    ToolStep::Done { write: None, result: Err(ToolError { kind, message }) }
}

/// What a call says when the command that it ran is done.
pub open spec fn conclusion(purpose: Purpose, result: Result<Seq<char>, Seq<char>>) -> ToolStepView {
    match result {
        Ok(message) => answer(
            match purpose {
                Purpose::Execute => message,
                Purpose::CheckedExit => "Vim exited successfully (no unsaved changes)"@,
                Purpose::SavingExit => "All changes saved and Vim exited successfully"@,
                Purpose::ForcedExit => "Vim force exited (unsaved changes discarded)"@,
            },
        ),
        Err(e) => failure(
            ErrorKind::Internal,
            if purpose == Purpose::Execute {
                "Failed to execute command: "@ + e
            } else {
                e
            },
        ),
    }
}

/// The step of a call whose command takes `step`.
pub open spec fn carried_on(purpose: Purpose, step: CommandStepView) -> ToolStepView {
    match step {
        CommandStepView::Done(result) => conclusion(purpose, result),
        CommandStepView::Ask(wait, ask) => ToolStepView::Ask(
            ToolReplyView::Command { purpose, wait },
            ask,
        ),
        CommandStepView::Send(wait, out) => ToolStepView::Send(purpose, wait, out),
        CommandStepView::Sleep(wait, ms) => ToolStepView::Sleep(purpose, wait, ms),
    }
}

fn conclude(purpose: Purpose, result: Result<String, String>) -> (step: ToolStep)
    ensures
        step@ == conclusion(purpose, text_result(result)),
        step.sends_framed(),
{
    match result {
        Ok(message) => match purpose {
            Purpose::Execute => answered(message),
            Purpose::CheckedExit => answered(
                "Vim exited successfully (no unsaved changes)".to_owned(),
            ),
            Purpose::SavingExit => answered(
                "All changes saved and Vim exited successfully".to_owned(),
            ),
            Purpose::ForcedExit => answered(
                "Vim force exited (unsaved changes discarded)".to_owned(),
            ),
        },
        Err(e) => match purpose {
            Purpose::Execute => failed(
                ErrorKind::Internal,
                "Failed to execute command: ".to_owned().concat(e.as_str()),
            ),
            _ => failed(ErrorKind::Internal, e),
        },
    }
}

pub(crate) fn carry_on(purpose: Purpose, step: CommandStep) -> (r: ToolStep)
    requires
        step.sends_framed(),
    ensures
        r@ == carried_on(purpose, step@),
        r.sends_framed(),
{
    match step {
        CommandStep::Done(result) => conclude(purpose, result),
        CommandStep::Ask(wait, ask) => ToolStep::Ask(ToolReply::Command { purpose, wait }, ask),
        CommandStep::Send(wait, out) => ToolStep::Send(ToolSend { purpose, wait }, out),
        CommandStep::Sleep(wait, ms) => ToolStep::Sleep(ToolSleep { purpose, wait }, ms),
    }
}

/// A call that runs a command.
pub open spec fn run_command(
    r: RegistryView,
    purpose: Purpose,
    instance_id: Seq<char>,
    command: Seq<char>,
) -> (RegistryView, ToolStepView) {
    let (next, step) = start_command(r, instance_id, command);
    (next, carried_on(purpose, step))
}

fn start(registry: &mut Registry, purpose: Purpose, instance_id: &str, command: &str) -> (step:
    ToolStep)
    requires
        old(registry).wf(),
    ensures
        final(registry).wf(),
        (final(registry)@, step@) == run_command(old(registry)@, purpose, instance_id@, command@),
        step.sends_framed(),
{
    carry_on(purpose, execute_vim_command(registry, instance_id, command))
}

// ---------------------------------------------------------------------------
// The single tools
// ---------------------------------------------------------------------------
/// The file of an instance as it is shown.
pub open spec fn file_name(main_file: Seq<char>) -> Seq<char> {
    if main_file.len() == 0 {
        "unnamed"@
    } else {
        main_file
    }
}

fn show_file(main_file: &str) -> (r: &str)
    ensures
        r@ == file_name(main_file@),
{
    if main_file.is_empty() {
        "unnamed"
    } else {
        main_file
    }
}

/// An instance in the list of all.
pub open spec fn instance_line(id: Seq<char>, c: ConnectionView) -> Seq<char> {
    "- "@ + id + " (PID: "@ + decimal_int(c.info.pid as int) + ")\n  File: "@ + file_name(
        c.info.main_file,
    ) + "\n  CWD: "@ + c.info.cwd
}

/// All instances, in the order in which they came.
pub open spec fn instance_lines(r: RegistryView) -> Seq<Seq<char>> {
    Seq::new(r.order.len(), |i: int| instance_line(r.order[i], r.connections[r.order[i]]))
}

/// The text of `list_vim_instances`.
pub open spec fn instances_text(r: RegistryView) -> Seq<char> {
    if r.order.len() == 0 {
        "No Vim instances connected. Open Vim with the vim-mcp plugin loaded, or run :VimMCPReconnect."@
    } else {
        let list = "Found "@ + decimal(r.order.len()) + " Vim instance(s):\n"@ + joined(
            instance_lines(r),
            "\n"@,
        );
        if r.order.len() > 1 && r.selected is None {
            list
                + "\n\nPlease select an instance using select_vim_instance with instance_id."@
        } else {
            list
        }
    }
}

/// Lists the connected instances.
pub fn list_vim_instances(registry: &Registry) -> (r: String)
    requires
        registry.wf(),
    ensures
        r@ == instances_text(registry@),
{
    let n: usize = registry.count();
    if n == 0 {
        return "No Vim instances connected. Open Vim with the vim-mcp plugin loaded, or run :VimMCPReconnect.".to_owned();
    }
    let mut lines: Vec<String> = Vec::new();
    for i in 0..n
        invariant
            registry.wf(),
            n == registry@.order.len(),
            lines@.len() == i,
            forall|j: int|
                0 <= j < i ==> (#[trigger] lines@[j])@ == instance_lines(registry@)[j],
    {
        let (id, c) = registry.at(i);
        lines.push(
            "- ".to_owned().concat(id).concat(" (PID: ").concat(
                signed_text(c.info.pid).as_str(),
            ).concat(")\n  File: ").concat(show_file(c.info.main_file.as_str())).concat(
                "\n  CWD: ",
            ).concat(c.info.cwd.as_str()),
        );
    }
    assert(texts(lines@) =~= instance_lines(registry@));
    let list = "Found ".to_owned().concat(number_text(n as u64).as_str()).concat(
        " Vim instance(s):\n",
    ).concat(join(&lines, "\n").as_str());
    if n > 1 && registry.get_selected().is_none() {
        list.concat("\n\nPlease select an instance using select_vim_instance with instance_id.")
    } else {
        list
    }
}

/// What is said of an instance that cannot be selected.
pub open spec fn not_found(r: RegistryView, id: Seq<char>) -> Seq<char> {
    "Instance '"@ + id + "' not found. Available instances: "@ + if r.order.len() == 0 {
        "none"@
    } else {
        joined(r.order, ", "@)
    }
}

/// `select_vim_instance`.
pub open spec fn selecting(r: RegistryView, args: JsonView) -> (RegistryView, ToolStepView) {
    match args.get("instance_id"@) {
        Some(JsonView::Str(id)) => match r.lookup(id) {
            Some(c) => (
                r.select(id),
                ToolStepView::Done {
                    write: Some(preference_file(id)),
                    result: Ok(
                        "Connected to Vim instance: "@ + id + "\nFile: "@ + file_name(
                            c.info.main_file,
                        ) + "\nCWD: "@ + c.info.cwd,
                    ),
                },
            ),
            None => (r, failure(ErrorKind::InvalidParams, not_found(r, id))),
        },
        _ => (r, failure(ErrorKind::InvalidParams, "instance_id is required"@)),
    }
}

/// The string argument under `key`.
fn string_argument<'a>(args: &'a Json, key: &str) -> (r: Option<&'a str>)
    ensures
        match r {
            Some(s) => args@.get(key@) == Some(JsonView::Str(s@)),
            None => !(args@.get(key@) matches Some(JsonView::Str(_))),
        },
{
    match args.get(key) {
        Some(v) => v.as_str(),
        None => None,
    }
}

/// Selects an instance.
pub fn select_vim_instance(registry: &mut Registry, args: &Json) -> (step: ToolStep)
    requires
        old(registry).wf(),
    ensures
        final(registry).wf(),
        (final(registry)@, step@) == selecting(old(registry)@, args@),
        step.sends_framed(),
{
    let id = match string_argument(args, "instance_id") {
        Some(id) => id,
        None => {
            return failed(ErrorKind::InvalidParams, "instance_id is required".to_owned());
        },
    };
    let text = match registry.get_connection(id) {
        Some(c) => {
            "Connected to Vim instance: ".to_owned().concat(id).concat("\nFile: ").concat(
                show_file(c.info.main_file.as_str()),
            ).concat("\nCWD: ").concat(c.info.cwd.as_str())
        },
        None => {
            let available = if registry.count() == 0 {
                "none".to_owned()
            } else {
                join(&registry.ids(), ", ")
            };
            return failed(
                ErrorKind::InvalidParams,
                "Instance '".to_owned().concat(id).concat(
                    "' not found. Available instances: ",
                ).concat(available.as_str()),
            );
        },
    };
    registry.select(id);
    ToolStep::Done { write: Some(registry.save_preference(id)), result: Ok(text) }
}

/// The error of a call that needs a selected instance, where none is.
pub open spec fn none_selected() -> ToolStepView {
    failure(
        ErrorKind::InvalidRequest,
        "No Vim instance selected. Use select_vim_instance tool first."@,
    )
}

/// The selected instance, or the error where there is none.
pub fn selected(registry: &Registry) -> (r: Result<String, ToolError>)
    requires
        registry.wf(),
    ensures
        match r {
            Ok(id) => registry@.selected == Some(id@),
            Err(e) => registry@.selected is None && (ToolStepView::Done {
                write: None,
                result: Err(e@),
            }) == none_selected(),
        },
{
    match registry.get_selected() {
        Some(id) => Ok(id.to_owned()),
        None => Err(
            ToolError {
                kind: ErrorKind::InvalidRequest,
                message: "No Vim instance selected. Use select_vim_instance tool first.".to_owned(),
            },
        ),
    }
}

/// `get_vim_state`.
pub open spec fn asking_state(r: RegistryView) -> (RegistryView, ToolStepView) {
    match r.selected {
        Some(instance_id) => {
            let (next, asked) = r.request_state(instance_id);
            match asked {
                Ok(ask) => (
                    next,
                    ToolStepView::Ask(
                        ToolReplyView::State { instance_id, link: ask.link, id: ask.id },
                        ask,
                    ),
                ),
                Err(e) => (next, failure(ErrorKind::Internal, e)),
            }
        },
        None => (r, none_selected()),
    }
}

/// Gets the current state of the selected instance.
pub fn get_vim_state(registry: &mut Registry) -> (step: ToolStep)
    requires
        old(registry).wf(),
    ensures
        final(registry).wf(),
        (final(registry)@, step@) == asking_state(old(registry)@),
        step.sends_framed(),
{
    match selected(registry) {
        Ok(instance_id) => match registry.request_state(instance_id.as_str()) {
            Ok(ask) => ToolStep::Ask(
                ToolReply::State { instance_id, link: ask.link, id: ask.id },
                ask,
            ),
            Err(e) => failed(ErrorKind::Internal, e),
        },
        Err(e) => ToolStep::Done { write: None, result: Err(e) },
    }
}

/// `vim_execute`.
pub open spec fn executing(r: RegistryView, args: JsonView) -> (RegistryView, ToolStepView) {
    match r.selected {
        Some(instance_id) => match args.get("command"@) {
            Some(JsonView::Str(command)) => run_command(r, Purpose::Execute, instance_id, command),
            _ => (r, failure(ErrorKind::InvalidParams, "Command parameter is required"@)),
        },
        None => (r, none_selected()),
    }
}

/// Executes an Ex command in the selected instance.
pub fn vim_execute(registry: &mut Registry, args: &Json) -> (step: ToolStep)
    requires
        old(registry).wf(),
    ensures
        final(registry).wf(),
        (final(registry)@, step@) == executing(old(registry)@, args@),
        step.sends_framed(),
{
    match selected(registry) {
        Ok(instance_id) => match string_argument(args, "command") {
            Some(command) => start(registry, Purpose::Execute, instance_id.as_str(), command),
            None => failed(ErrorKind::InvalidParams, "Command parameter is required".to_owned()),
        },
        Err(e) => ToolStep::Done { write: None, result: Err(e) },
    }
}

/// `exit_vim`.
pub open spec fn exiting(r: RegistryView, args: JsonView) -> (RegistryView, ToolStepView) {
    match r.selected {
        Some(instance_id) => {
            let action = args.str_or("action"@, "check"@);
            if action == "check"@ {
                let (next, asked) = r.request_state(instance_id);
                match asked {
                    Ok(ask) => (
                        next,
                        ToolStepView::Ask(
                            ToolReplyView::ExitCheck { instance_id, link: ask.link, id: ask.id },
                            ask,
                        ),
                    ),
                    Err(e) => (next, failure(ErrorKind::Internal, e)),
                }
            } else if action == "save_and_exit"@ {
                run_command(r, Purpose::SavingExit, instance_id, "wqall"@)
            } else if action == "force_exit"@ {
                run_command(r, Purpose::ForcedExit, instance_id, "qall!"@)
            } else {
                (
                    r,
                    failure(
                        ErrorKind::InvalidParams,
                        "Invalid action '"@ + action
                            + "'. Use: check, save_and_exit, or force_exit"@,
                    ),
                )
            }
        },
        None => (r, none_selected()),
    }
}

/// Exits the selected instance.
pub fn exit_vim(registry: &mut Registry, args: &Json) -> (step: ToolStep)
    requires
        old(registry).wf(),
    ensures
        final(registry).wf(),
        (final(registry)@, step@) == exiting(old(registry)@, args@),
        step.sends_framed(),
{
    let instance_id = match selected(registry) {
        Ok(instance_id) => instance_id,
        Err(e) => {
            return ToolStep::Done { write: None, result: Err(e) };
        },
    };
    let action = args.str_or("action", "check");
    if eq(action, "check") {
        match registry.request_state(instance_id.as_str()) {
            Ok(ask) => ToolStep::Ask(
                ToolReply::ExitCheck { instance_id, link: ask.link, id: ask.id },
                ask,
            ),
            Err(e) => failed(ErrorKind::Internal, e),
        }
    } else if eq(action, "save_and_exit") {
        start(registry, Purpose::SavingExit, instance_id.as_str(), "wqall")
    } else if eq(action, "force_exit") {
        start(registry, Purpose::ForcedExit, instance_id.as_str(), "qall!")
    } else {
        failed(
            ErrorKind::InvalidParams,
            "Invalid action '".to_owned().concat(action).concat(
                "'. Use: check, save_and_exit, or force_exit",
            ),
        )
    }
}

/// The names of the buffers that a state reports as unsaved.
pub open spec fn unsaved(state: JsonView) -> Seq<Seq<char>> {
    state.items("buffers"@).filter(|b: JsonView| b.bool_or("modified"@, false)).map_values(
        |b: JsonView| shown_name(b.str_or("name"@, ""@)),
    )
}

/// What is said where buffers are unsaved.
pub open spec fn unsaved_text(names: Seq<Seq<char>>) -> Seq<char> {
    "Cannot exit Vim: "@ + decimal(names.len()) + " buffer(s) have unsaved changes: "@ + joined(
        names,
        ", "@,
    )
        + "\n\nOptions:\n- Save manually and run exit_vim again\n- exit_vim action='save_and_exit'\n- exit_vim action='force_exit'"@
}

/// What follows from the state that decides whether Vim may exit.
pub open spec fn exit_checked(r: RegistryView, instance_id: Seq<char>, state: JsonView) -> (
    RegistryView,
    ToolStepView,
) {
    if unsaved(state).len() == 0 {
        run_command(r, Purpose::CheckedExit, instance_id, "qall"@)
    } else {
        (r, answer(unsaved_text(unsaved(state))))
    }
}

fn find_unsaved(state: &Json) -> (r: Vec<String>)
    ensures
        texts(r@) == unsaved(state@),
{
    let mut out: Vec<String> = Vec::new();
    match state.get("buffers") {
        Some(v) => match v.as_array() {
            Some(items) => {
                let ghost all = array_view(items@);
                let ghost is_unsaved = |b: JsonView| b.bool_or("modified"@, false);
                let ghost name = |b: JsonView| shown_name(b.str_or("name"@, ""@));
                assert(all.take(0).filter(is_unsaved).map_values(name) =~= texts(out@)) by {
                    reveal(Seq::filter);
                }
                for i in 0..items.len()
                    invariant
                        all == array_view(items@),
                        is_unsaved == (|b: JsonView| b.bool_or("modified"@, false)),
                        name == (|b: JsonView| shown_name(b.str_or("name"@, ""@))),
                        texts(out@) == all.take(i as int).filter(is_unsaved).map_values(name),
                {
                    let ghost before = texts(out@);
                    proof {
                        reveal(Seq::filter);
                        assert(all.take(i + 1).drop_last() =~= all.take(i as int));
                    }
                    if items[i].bool_or("modified", false) {
                        out.push(show_name(items[i].str_or("name", "")).to_owned());
                        assert(texts(out@) =~= before.push(name(all[i as int])));
                    }
                    assert(texts(out@) =~= all.take(i + 1).filter(is_unsaved).map_values(name));
                }
                assert(all.take(all.len() as int) =~= all);
            },
            None => {
                assert(texts(out@) =~= unsaved(state@)) by {
                    reveal(Seq::filter);
                }
            },
        },
        None => {
            assert(texts(out@) =~= unsaved(state@)) by {
                reveal(Seq::filter);
            }
        },
    }
    out
}

pub(crate) fn check_exit(registry: &mut Registry, instance_id: &str, state: &Json) -> (step: ToolStep)
    requires
        old(registry).wf(),
    ensures
        final(registry).wf(),
        (final(registry)@, step@) == exit_checked(old(registry)@, instance_id@, state@),
        step.sends_framed(),
{
    let names = find_unsaved(state);
    assert(texts(names@).len() == names@.len());
    if names.len() == 0 {
        start(registry, Purpose::CheckedExit, instance_id, "qall")
    } else {
        answered(
            "Cannot exit Vim: ".to_owned().concat(number_text(names.len() as u64).as_str()).concat(
                " buffer(s) have unsaved changes: ",
            ).concat(join(&names, ", ").as_str()).concat(
                "\n\nOptions:\n- Save manually and run exit_vim again\n- exit_vim action='save_and_exit'\n- exit_vim action='force_exit'",
            ),
        )
    }
}

/// `vim_search_help`.
pub open spec fn searching(r: RegistryView, args: JsonView) -> (RegistryView, ToolStepView) {
    match r.selected {
        Some(instance_id) => match args.get("query"@) {
            Some(JsonView::Str(query)) => {
                let (next, asked) = r.request(
                    instance_id,
                    "search_help"@,
                    JsonView::Object(map!["query"@ => JsonView::Str(query)]),
                    3000,
                );
                match asked {
                    Ok(ask) => (
                        next,
                        ToolStepView::Ask(
                            ToolReplyView::SearchHelp {
                                instance_id,
                                query,
                                link: ask.link,
                                id: ask.id,
                            },
                            ask,
                        ),
                    ),
                    Err(e) => (next, failure(ErrorKind::Internal, e)),
                }
            },
            _ => (r, failure(ErrorKind::InvalidParams, "Query parameter is required"@)),
        },
        None => (r, none_selected()),
    }
}

/// Searches Vim's help for a topic.
pub fn vim_search_help(registry: &mut Registry, args: &Json) -> (step: ToolStep)
    requires
        old(registry).wf(),
    ensures
        final(registry).wf(),
        (final(registry)@, step@) == searching(old(registry)@, args@),
        step.sends_framed(),
{
    let instance_id = match selected(registry) {
        Ok(instance_id) => instance_id,
        Err(e) => {
            return ToolStep::Done { write: None, result: Err(e) };
        },
    };
    let query = match string_argument(args, "query") {
        Some(query) => query,
        None => {
            return failed(ErrorKind::InvalidParams, "Query parameter is required".to_owned());
        },
    };
    let params = Json::Object(with_entry(Vec::new(), "query", Json::string(query)));
    match registry.request(instance_id.as_str(), "search_help", params, 3000) {
        Ok(ask) => ToolStep::Ask(
            ToolReply::SearchHelp {
                instance_id,
                query: query.to_owned(),
                link: ask.link,
                id: ask.id,
            },
            ask,
        ),
        Err(e) => failed(ErrorKind::Internal, e),
    }
}

/// The line at which a help topic was found.
pub open spec fn help_line(result: JsonView) -> i64 {
    match result.get("line"@) {
        Some(v) => match v.as_i64() {
            Some(n) => n,
            None => 0,
        },
        None => 0,
    }
}

/// What is said of a help topic, by what Vim answered.
pub open spec fn help_text(query: Seq<char>, result: JsonView) -> Seq<char> {
    if result.bool_or("success"@, false) {
        "Found help for '"@ + query + "':\n\nTag: "@ + result.str_or("tag"@, ""@) + "\nFile: "@
            + result.str_or("file"@, ""@) + "\nLine: "@ + decimal_int(help_line(result) as int)
            + "\n\nHelp window opened in Vim."@
    } else {
        "No help found for '"@ + query + "'. Try a more specific term, :helpgrep, or :help."@
    }
}

/// Says what Vim answered to a search.
pub fn describe_help(query: &str, result: &Json) -> (r: String)
    ensures
        r@ == help_text(query@, result@),
{
    if result.bool_or("success", false) {
        let line: i64 = match result.get("line") {
            Some(v) => match v.as_i64() {
                Some(n) => n,
                None => 0,
            },
            None => 0,
        };
        "Found help for '".to_owned().concat(query).concat("':\n\nTag: ").concat(
            result.str_or("tag", ""),
        ).concat("\nFile: ").concat(result.str_or("file", "")).concat("\nLine: ").concat(
            signed_text(line).as_str(),
        ).concat("\n\nHelp window opened in Vim.")
    } else {
        "No help found for '".to_owned().concat(query).concat(
            "'. Try a more specific term, :helpgrep, or :help.",
        )
    }
}

/// Whether a register can hold a macro: a single letter from `a` to `z`, or a
/// digit.
pub open spec fn is_register(register: Seq<char>) -> bool {
    register.len() == 1 && ('a' <= register[0] <= 'z' || '0' <= register[0] <= '9')
}

fn names_register(register: &str) -> (r: bool)
    ensures
        r == is_register(register@),
{
    let chars = to_chars(register);
    if chars.len() != 1 {
        return false;
    }
    let c = chars[0];
    ('a' <= c && c <= 'z') || ('0' <= c && c <= '9')
}

/// `vim_record_macro`.
pub open spec fn recording(r: RegistryView, args: JsonView) -> (RegistryView, ToolStepView) {
    match r.selected {
        Some(instance_id) => match args.get("macro_sequence"@) {
            Some(JsonView::Str(sequence)) => {
                let register = args.str_or("register"@, "q"@);
                let execute = args.bool_or("execute"@, true);
                if !is_register(register) {
                    (
                        r,
                        failure(
                            ErrorKind::InvalidParams,
                            "Register must be a single letter (a-z) or digit (0-9)"@,
                        ),
                    )
                } else {
                    let (next, asked) = r.request(
                        instance_id,
                        "record_macro"@,
                        JsonView::Object(
                            map![
                                "macro_sequence"@ => JsonView::Str(sequence),
                                "register"@ => JsonView::Str(register),
                                "execute"@ => JsonView::Bool(execute),
                            ],
                        ),
                        2000,
                    );
                    match asked {
                        Ok(ask) => (
                            next,
                            ToolStepView::Ask(
                                ToolReplyView::RecordMacro {
                                    instance_id,
                                    sequence,
                                    register,
                                    execute,
                                    link: ask.link,
                                    id: ask.id,
                                },
                                ask,
                            ),
                        ),
                        Err(e) => (next, failure(ErrorKind::Internal, e)),
                    }
                }
            },
            _ => (r, failure(ErrorKind::InvalidParams, "macro_sequence parameter is required"@)),
        },
        None => (r, none_selected()),
    }
}

/// Records a macro from a sequence of keystrokes.
pub fn vim_record_macro(registry: &mut Registry, args: &Json) -> (step: ToolStep)
    requires
        old(registry).wf(),
    ensures
        final(registry).wf(),
        (final(registry)@, step@) == recording(old(registry)@, args@),
        step.sends_framed(),
{
    let instance_id = match selected(registry) {
        Ok(instance_id) => instance_id,
        Err(e) => {
            return ToolStep::Done { write: None, result: Err(e) };
        },
    };
    let sequence = match string_argument(args, "macro_sequence") {
        Some(sequence) => sequence,
        None => {
            return failed(
                ErrorKind::InvalidParams,
                "macro_sequence parameter is required".to_owned(),
            );
        },
    };
    let register = args.str_or("register", "q");
    let execute = args.bool_or("execute", true);
    if !names_register(register) {
        return failed(
            ErrorKind::InvalidParams,
            "Register must be a single letter (a-z) or digit (0-9)".to_owned(),
        );
    }
    let entries = with_entry(Vec::new(), "macro_sequence", Json::string(sequence));
    let entries = with_entry(entries, "register", Json::string(register));
    let entries = with_entry(entries, "execute", Json::Bool(execute));
    match registry.request(instance_id.as_str(), "record_macro", Json::Object(entries), 2000) {
        Ok(ask) => ToolStep::Ask(
            ToolReply::RecordMacro {
                instance_id,
                sequence: sequence.to_owned(),
                register: register.to_owned(),
                execute,
                link: ask.link,
                id: ask.id,
            },
            ask,
        ),
        Err(e) => failed(ErrorKind::Internal, e),
    }
}

/// What is said of a macro, by what Vim answered.
pub open spec fn macro_text(
    sequence: Seq<char>,
    register: Seq<char>,
    execute: bool,
    result: JsonView,
) -> Seq<char> {
    if result.bool_or("success"@, false) {
        let recorded = "Macro recorded in register \""@ + register + "\""@;
        let run = if execute {
            recorded + " and executed"@
        } else {
            recorded
        };
        let told = run + "\nSequence: "@ + sequence;
        match result.get("output"@) {
            Some(JsonView::Str(output)) => told + "\n"@ + output,
            _ => told,
        }
    } else {
        "Failed to record macro: "@ + result.str_or("error"@, "Unknown error"@)
    }
}

/// Says what Vim answered to a macro.
pub fn describe_macro(sequence: &str, register: &str, execute: bool, result: &Json) -> (r: String)
    ensures
        r@ == macro_text(sequence@, register@, execute, result@),
{
    if result.bool_or("success", false) {
        let mut msg = "Macro recorded in register \"".to_owned().concat(register).concat("\"");
        if execute {
            msg.append(" and executed");
        }
        msg.append("\nSequence: ");
        msg.append(sequence);
        match string_argument(result, "output") {
            Some(output) => {
                msg.append("\n");
                msg.append(output);
            },
            None => {},
        }
        msg
    } else {
        "Failed to record macro: ".to_owned().concat(result.str_or("error", "Unknown error"))
    }
}

} // verus!
