//! What holds of every call of a client: which tools and resources there are, what
//! a call needs, what the calls that exit Vim do, and how requests are numbered.

use crate::bridge::on_disconnect;
use crate::bridge::on_message;
use crate::bridge::on_reply;
use crate::bridge::on_woke;
use crate::bridge::CommandReplyView;
use crate::bridge::CommandSendView;
use crate::bridge::CommandSleepView;
use crate::bridge::CommandStepView;
use crate::bridge::OutgoingView;
use crate::bridge::SessionView;
use crate::catalog::tools;
use crate::command_laws::law_own_exit_commands;
use crate::json::JsonView;
use crate::protocol::command_line;
use crate::protocol::request_line;
use crate::protocol::IncomingMessageView;
use crate::registry::following;
use crate::registry::nobody;
use crate::registry::preference_file;
use crate::registry::AskView;
use crate::registry::ConnectionView;
use crate::registry::OutcomeView;
use crate::registry::RegistryView;
use crate::serde_values::pretty_text;
use crate::server::dispatch;
use crate::server::on_tool_reply;
use crate::server::on_tool_woke;
use crate::server::read;
use crate::server::resources;
use crate::session_laws::id_after;
use crate::session_laws::law_ids_count_from_zero;
use crate::text::contains_text;
use crate::text::decimal;
use crate::text::found_at;
use crate::text::joined;
use crate::tools::answer;
use crate::tools::carried_on;
use crate::tools::asking_state;
use crate::tools::conclusion;
use crate::tools::executing;
use crate::tools::exit_checked;
use crate::tools::exiting;
use crate::tools::failure;
use crate::tools::instance_line;
use crate::tools::instance_lines;
use crate::tools::instances_text;
use crate::tools::none_selected;
use crate::tools::recording;
use crate::tools::run_command;
use crate::tools::searching;
use crate::tools::selecting;
use crate::tools::unsaved;
use crate::tools::unsaved_text;
use crate::tools::ErrorKind;
use crate::tools::Purpose;
use crate::tools::ToolErrorView;
use crate::tools::ToolReplyView;
use crate::tools::ToolStepView;
use vstd::prelude::*;

verus! {

// ---------------------------------------------------------------------------
// Which tools and resources there are
// ---------------------------------------------------------------------------
/// Whether a tool of this name is announced.
pub open spec fn is_announced(name: Seq<char>) -> bool {
    exists|i: int| 0 <= i < tools().len() && (#[trigger] tools()[i]).name == name
}

/// The answer to a call of a tool that does not exist.
pub open spec fn unknown_tool(name: Seq<char>) -> ToolStepView {
    failure(ErrorKind::InvalidRequest, "Unknown tool: "@ + name)
}

proof fn lemma_announced(name: Seq<char>)
    ensures
        is_announced(name) <==> {
            ||| name == "list_vim_instances"@
            ||| name == "select_vim_instance"@
            ||| name == "get_vim_state"@
            ||| name == "vim_execute"@
            ||| name == "exit_vim"@
            ||| name == "vim_search_help"@
            ||| name == "vim_record_macro"@
        },
{
    assert(tools()[0].name == "list_vim_instances"@);
    assert(tools()[1].name == "select_vim_instance"@);
    assert(tools()[2].name == "get_vim_state"@);
    assert(tools()[3].name == "vim_execute"@);
    assert(tools()[4].name == "exit_vim"@);
    assert(tools()[5].name == "vim_search_help"@);
    assert(tools()[6].name == "vim_record_macro"@);
}

/// A call is refused as unknown exactly where no tool of that name is announced,
/// and then nothing changes.
pub proof fn law_announced_tools_are_known(r: RegistryView, name: Seq<char>, args: JsonView)
    ensures
        is_announced(name) <==> dispatch(r, name, args).1 != unknown_tool(name),
        !is_announced(name) ==> dispatch(r, name, args).0 == r,
{
    lemma_announced(name);
    reveal_strlit("Unknown tool: ");
    reveal_strlit("No Vim instance selected. Use select_vim_instance tool first.");
    assert(("Unknown tool: "@ + name)[0] == 'U');
    assert("No Vim instance selected. Use select_vim_instance tool first."@[0] == 'N');
}

/// Every announced tool has an object as the schema of its arguments.
pub proof fn law_schemas_are_objects(i: int)
    requires
        0 <= i < tools().len(),
    ensures
        tools()[i].schema is Object,
        tools()[i].schema.get("type"@) == Some(JsonView::Str("object"@)),
{
    reveal_strlit("type");
    reveal_strlit("properties");
    reveal_strlit("required");
    assert("type"@.len() != "properties"@.len() && "type"@.len() != "required"@.len());
}

// ---------------------------------------------------------------------------
// The selected instance
// ---------------------------------------------------------------------------
/// Where no instance is selected, every tool that needs one is refused in the same
/// words, and nothing changes.
pub proof fn law_tools_need_a_selection(r: RegistryView, name: Seq<char>, args: JsonView)
    requires
        r.selected is None,
        is_announced(name),
        name != "list_vim_instances"@,
        name != "select_vim_instance"@,
    ensures
        dispatch(r, name, args) == (r, none_selected()),
{
    lemma_announced(name);
}

/// Where no instance is selected, the list of instances is the only resource that
/// can be read.
pub proof fn law_resources_need_a_selection(r: RegistryView, uri: Seq<char>)
    requires
        r.selected is None,
        uri != "vim://instances"@,
    ensures
        read(r, uri) == (r, none_selected()),
{
}

/// Selecting a connected instance selects it, remembers it in the preference file,
/// and changes nothing else.
pub proof fn law_select_selects(r: RegistryView, args: JsonView, id: Seq<char>)
    requires
        args.get("instance_id"@) == Some(JsonView::Str(id)),
        r.connections.contains_key(id),
    ensures
        ({
            let (next, step) = dispatch(r, "select_vim_instance"@, args);
            &&& next == r.select(id)
            &&& step is Done
            &&& step->Done_write == Some(preference_file(id))
            &&& step->Done_result is Ok
        }),
{
    reveal_strlit("select_vim_instance");
    reveal_strlit("list_vim_instances");
    assert("select_vim_instance"@.len() != "list_vim_instances"@.len());
}

/// An instance that is not connected cannot be selected: the selection stays.
pub proof fn law_absent_instance_is_not_selected(r: RegistryView, args: JsonView)
    requires
        match args.get("instance_id"@) {
            Some(JsonView::Str(id)) => !r.connections.contains_key(id),
            _ => true,
        },
    ensures
        ({
            let (next, step) = dispatch(r, "select_vim_instance"@, args);
            &&& next == r
            &&& step is Done
            &&& step->Done_write is None
            &&& step->Done_result is Err
            &&& step->Done_result->Err_0.kind == ErrorKind::InvalidParams
        }),
{
    reveal_strlit("select_vim_instance");
    reveal_strlit("list_vim_instances");
    assert("select_vim_instance"@.len() != "list_vim_instances"@.len());
}

// ---------------------------------------------------------------------------
// Reading
// ---------------------------------------------------------------------------
/// Every listed resource can be read: its text comes at once, or the selected
/// instance is asked for its state, and the text follows from the state.
pub proof fn law_listed_resources_are_readable(r: RegistryView, i: int, state: JsonView)
    requires
        r.valid(),
        0 <= i < resources(r).len(),
    ensures
        ({
            let (next, step) = read(r, resources(r)[i].uri);
            ||| step is Done && step->Done_result is Ok && next == r
            ||| {
                let end = on_tool_reply(next, step->Ask_0, OutcomeView::Replied(Ok(state))).1;
                &&& step is Ask
                &&& r.selected is Some
                &&& step->Ask_1.link == r.connections[r.selected->Some_0].link
                &&& end is Done
                &&& end->Done_result is Ok
            }
        }),
{
}

/// A resource that does not exist is refused, whatever the state of Vim.
pub proof fn law_unknown_resource_is_refused(
    r: RegistryView,
    instance_id: Seq<char>,
    uri: Seq<char>,
    link: u64,
    id: i64,
    state: JsonView,
)
    requires
        uri != "vim://buffers"@,
        uri != "vim://tabs"@,
        uri != "vim://state"@,
    ensures
        on_tool_reply(
            r,
            ToolReplyView::Resource { instance_id, uri, link, id },
            OutcomeView::Replied(Ok(state)),
        ).1 == failure(ErrorKind::InvalidRequest, "Unknown resource: "@ + uri),
{
}

/// A call for the state of Vim asks the selected instance for it, and gives what it
/// answers, which is then cached.
pub proof fn law_state_is_given_as_answered(r: RegistryView, args: JsonView, state: JsonView)
    requires
        r.valid(),
        r.selected is Some,
    ensures
        ({
            let id = r.selected->Some_0;
            let (asked, step) = dispatch(r, "get_vim_state"@, args);
            let (end, result) = on_tool_reply(
                asked,
                step->Ask_0,
                OutcomeView::Replied(Ok(state)),
            );
            &&& step is Ask
            &&& step->Ask_1 == AskView {
                link: r.connections[id].link,
                id: r.next_id,
                line: request_line(r.next_id, "get_state"@, JsonView::Object(Map::empty())),
                timeout_ms: 2000,
            }
            &&& result == answer(pretty_text(state))
            &&& end.lookup(id) == Some(
                ConnectionView { state: Some(state), ..r.connections[id] },
            )
        }),
{
    reveal_strlit("get_vim_state");
    reveal_strlit("list_vim_instances");
    reveal_strlit("select_vim_instance");
    assert("get_vim_state"@.len() == 13 && "list_vim_instances"@.len() == 18
        && "select_vim_instance"@.len() == 19);
}

/// The request that a call of its own awaits: the instance, the link and the number.
pub open spec fn awaited(wait: ToolReplyView) -> (Seq<char>, u64, i64) {
    match wait {
        ToolReplyView::Command { .. } => (Seq::empty(), 0, 0),
        ToolReplyView::State { instance_id, link, id } => (instance_id, link, id),
        ToolReplyView::ExitCheck { instance_id, link, id } => (instance_id, link, id),
        ToolReplyView::SearchHelp { instance_id, query, link, id } => (instance_id, link, id),
        ToolReplyView::RecordMacro { instance_id, sequence, register, execute, link, id } => (
            instance_id,
            link,
            id,
        ),
        ToolReplyView::Resource { instance_id, uri, link, id } => (instance_id, link, id),
    }
}

/// A call whose own request gets no value ends with the reason, as an error on the
/// side of the server; of the state nothing changes but what the end of the request
/// does.
pub proof fn law_failed_request_fails_the_call(
    r: RegistryView,
    wait: ToolReplyView,
    outcome: OutcomeView,
)
    requires
        !(wait is Command),
        !(outcome matches OutcomeView::Replied(Ok(_))),
    ensures
        ({
            let (instance_id, link, id) = awaited(wait);
            let (ended, reason) = r.finish_request(instance_id, link, id, outcome);
            let (next, step) = on_tool_reply(r, wait, outcome);
            &&& next == ended
            &&& reason is Err
            &&& step == ToolStepView::Done {
                write: None,
                result: Err(
                    ToolErrorView { kind: ErrorKind::Internal, message: reason->Err_0 },
                ),
            }
        }),
{
}

/// What is said when the command of a call is done: what the command said, or for an
/// exit what was asked for; a failure is an error on the side of the server, and
/// that of `vim_execute` is marked as the failure of a command.
pub proof fn law_calls_end_as_their_commands(
    purpose: Purpose,
    result: Result<Seq<char>, Seq<char>>,
)
    ensures
        ({
            let step = conclusion(purpose, result);
            &&& step is Done
            &&& step->Done_write is None
            &&& result is Ok ==> step->Done_result is Ok
            &&& result is Ok && purpose == Purpose::Execute ==> step->Done_result->Ok_0
                == result->Ok_0
            &&& result is Err ==> {
                &&& step->Done_result is Err
                &&& step->Done_result->Err_0.kind == ErrorKind::Internal
                &&& step->Done_result->Err_0.message == if purpose == Purpose::Execute {
                    "Failed to execute command: "@ + result->Err_0
                } else {
                    result->Err_0
                }
            }
        }),
{
}

/// A step of a command is the same step of the call that runs it.
pub proof fn law_calls_step_as_their_commands(purpose: Purpose, step: CommandStepView)
    ensures
        match step {
            CommandStepView::Done(result) => carried_on(purpose, step) == conclusion(
                purpose,
                result,
            ),
            CommandStepView::Ask(wait, ask) => carried_on(purpose, step) == ToolStepView::Ask(
                ToolReplyView::Command { purpose, wait },
                ask,
            ),
            CommandStepView::Send(wait, out) => carried_on(purpose, step) == ToolStepView::Send(
                purpose,
                wait,
                out,
            ),
            CommandStepView::Sleep(wait, ms) => carried_on(purpose, step) == ToolStepView::Sleep(
                purpose,
                wait,
                ms,
            ),
        },
{
}

/// What `vim_execute` says of a command is what the command's run says; a failure
/// is marked as one.
pub proof fn law_execute_reports_the_command(result: Result<Seq<char>, Seq<char>>)
    ensures
        conclusion(Purpose::Execute, result) == match result {
            Ok(message) => answer(message),
            Err(e) => failure(ErrorKind::Internal, "Failed to execute command: "@ + e),
        },
{
}

/// A call that wakes steps as its command does, and changes what the command
/// changes.
pub proof fn law_waking_calls_step_as_their_commands(
    r: RegistryView,
    purpose: Purpose,
    sleep: CommandSleepView,
)
    ensures
        on_tool_woke(r, purpose, sleep).0 == on_woke(r, sleep).0,
        on_tool_woke(r, purpose, sleep).1 == carried_on(purpose, on_woke(r, sleep).1),
{
}

/// A call whose command has an answer steps as its command does, and changes what
/// the command changes.
pub proof fn law_answered_calls_step_as_their_commands(
    r: RegistryView,
    purpose: Purpose,
    wait: CommandReplyView,
    outcome: OutcomeView,
)
    ensures
        ({
            let (next, step) = on_tool_reply(r, ToolReplyView::Command { purpose, wait }, outcome);
            next == on_reply(r, wait, outcome).0 && step == carried_on(
                purpose,
                on_reply(r, wait, outcome).1,
            )
        }),
{
}

proof fn lemma_contains_within(a: Seq<char>, b: Seq<char>, c: Seq<char>, part: Seq<char>)
    requires
        contains_text(b, part),
    ensures
        contains_text(a + b + c, part),
{
    let at = choose|at: int| found_at(b, part, at);
    let s = a + b + c;
    assert(s.subrange(a.len() + at, a.len() + at + part.len()) =~= b.subrange(
        at,
        at + part.len(),
    ));
    assert(found_at(s, part, a.len() + at));
}

proof fn lemma_contains_self(s: Seq<char>)
    ensures
        contains_text(s, s),
{
    assert(s.subrange(0, s.len() as int) =~= s);
    assert(found_at(s, s, 0));
}

/// What is joined holds each of its pieces.
proof fn lemma_joined_contains(pieces: Seq<Seq<char>>, sep: Seq<char>, i: int, part: Seq<char>)
    requires
        0 <= i < pieces.len(),
        contains_text(pieces[i], part),
    ensures
        contains_text(joined(pieces, sep), part),
    decreases pieces.len(),
{
    let none: Seq<char> = Seq::empty();
    if pieces.len() > 1 {
        let front = joined(pieces.drop_last(), sep);
        if i < pieces.len() - 1 {
            assert(pieces.drop_last()[i] == pieces[i]);
            lemma_joined_contains(pieces.drop_last(), sep, i, part);
            lemma_contains_within(none, front, sep + pieces.last(), part);
            assert(none + front + (sep + pieces.last()) =~= joined(pieces, sep));
        } else {
            lemma_contains_within(front + sep, pieces.last(), none, part);
            assert(front + sep + pieces.last() + none =~= joined(pieces, sep));
        }
    }
}

/// The list of instances shows each connected instance with what is known of it.
pub proof fn law_list_shows_every_instance(r: RegistryView, id: Seq<char>)
    requires
        r.valid(),
        r.connections.contains_key(id),
    ensures
        contains_text(instances_text(r), instance_line(id, r.connections[id])),
{
    assert(r.order.contains(id));
    let i = choose|i: int| 0 <= i < r.order.len() && r.order[i] == id;
    let lines = instance_lines(r);
    let line = instance_line(id, r.connections[id]);
    assert(lines[i] == line);
    lemma_contains_self(line);
    lemma_joined_contains(lines, "\n"@, i, line);
    let head = "Found "@ + decimal(r.order.len()) + " Vim instance(s):\n"@;
    let none: Seq<char> = Seq::empty();
    let hint = "\n\nPlease select an instance using select_vim_instance with instance_id."@;
    lemma_contains_within(head, joined(lines, "\n"@), none, line);
    lemma_contains_within(head, joined(lines, "\n"@), hint, line);
    assert(head + joined(lines, "\n"@) + none =~= head + joined(lines, "\n"@));
}

// ---------------------------------------------------------------------------
// Exiting
// ---------------------------------------------------------------------------
/// A checked exit with an unsaved buffer sends nothing and changes nothing: it
/// names what is unsaved.
pub proof fn law_unsaved_buffer_blocks_exit(
    r: RegistryView,
    instance_id: Seq<char>,
    state: JsonView,
    i: int,
)
    requires
        0 <= i < state.items("buffers"@).len(),
        state.items("buffers"@)[i].bool_or("modified"@, false),
    ensures
        exit_checked(r, instance_id, state) == (r, answer(unsaved_text(unsaved(state)))),
{
    let all = state.items("buffers"@);
    let is_unsaved = |b: JsonView| b.bool_or("modified"@, false);
    all.lemma_filter_contains(is_unsaved, i);
}

/// A checked exit without an unsaved buffer tells the instance to exit.
pub proof fn law_saved_buffers_allow_exit(
    r: RegistryView,
    instance_id: Seq<char>,
    state: JsonView,
)
    requires
        r.connections.contains_key(instance_id),
        forall|i: int|
            0 <= i < state.items("buffers"@).len() ==> !(
            #[trigger] state.items("buffers"@)[i]).bool_or("modified"@, false),
    ensures
        exit_checked(r, instance_id, state) == (
            r.mark_exit(instance_id),
            ToolStepView::Send(
                Purpose::CheckedExit,
                CommandSendView::Exit { instance_id },
                OutgoingView {
                    link: r.connections[instance_id].link,
                    line: command_line("qall"@),
                },
            ),
        ),
{
    law_own_exit_commands();
    let all = state.items("buffers"@);
    let is_unsaved = |b: JsonView| b.bool_or("modified"@, false);
    if all.filter(is_unsaved).len() > 0 {
        let b = all.filter(is_unsaved)[0];
        all.lemma_filter_pred(is_unsaved, 0);
        all.lemma_filter_contains_rev(is_unsaved, b);
        let i = choose|i: int| 0 <= i < all.len() && all[i] == b;
        assert(!all[i].bool_or("modified"@, false));
    }
}

/// The two unchecked ways to exit tell the selected instance to exit at once, and
/// mark it so.
pub proof fn law_unchecked_exits_are_sent(r: RegistryView, args: JsonView)
    requires
        r.valid(),
        r.selected is Some,
        args.get("action"@) == Some(JsonView::Str("save_and_exit"@)) || args.get("action"@) == Some(
            JsonView::Str("force_exit"@),
        ),
    ensures
        ({
            let instance_id = r.selected->Some_0;
            let saving = args.get("action"@) == Some(JsonView::Str("save_and_exit"@));
            exiting(r, args) == (
                r.mark_exit(instance_id),
                ToolStepView::Send(
                    if saving {
                        Purpose::SavingExit
                    } else {
                        Purpose::ForcedExit
                    },
                    CommandSendView::Exit { instance_id },
                    OutgoingView {
                        link: r.connections[instance_id].link,
                        line: command_line(
                            if saving {
                                "wqall"@
                            } else {
                                "qall!"@
                            },
                        ),
                    },
                ),
            )
        }),
{
    law_own_exit_commands();
    reveal_strlit("check");
    reveal_strlit("save_and_exit");
    reveal_strlit("force_exit");
    assert("check"@.len() == 5 && "save_and_exit"@.len() == 13 && "force_exit"@.len() == 10);
}

// ---------------------------------------------------------------------------
// The numbers of requests
// ---------------------------------------------------------------------------
/// Something that happens to the server.
pub enum Event {
    Message { session: SessionView, message: IncomingMessageView, started: Seq<char> },
    Departure { session: SessionView },
    Call { name: Seq<char>, args: JsonView },
    Read { uri: Seq<char> },
    Reply { wait: ToolReplyView, outcome: OutcomeView },
    Woke { purpose: Purpose, sleep: CommandSleepView },
    /// A request that no call makes.
    Request { instance_id: Seq<char>, method: Seq<char>, params: JsonView, timeout_ms: u64 },
    /// The end of such a request.
    Finish { instance_id: Seq<char>, link: u64, id: i64, outcome: OutcomeView },
}

/// The number of the request that a step makes, where it makes one.
pub open spec fn id_of(step: ToolStepView) -> Option<i64> {
    match step {
        ToolStepView::Ask(_, ask) => Some(ask.id),
        _ => None,
    }
}

/// What an event makes of the state, and the number of the request that it makes,
/// where it makes one.
pub open spec fn happen(r: RegistryView, event: Event) -> (RegistryView, Option<i64>) {
    match event {
        Event::Message { session, message, started } => (
            on_message(r, session, message, started).0,
            None,
        ),
        Event::Departure { session } => (on_disconnect(r, session).0, None),
        Event::Call { name, args } => {
            let (next, step) = dispatch(r, name, args);
            (next, id_of(step))
        },
        Event::Read { uri } => {
            let (next, step) = read(r, uri);
            (next, id_of(step))
        },
        Event::Reply { wait, outcome } => {
            let (next, step) = on_tool_reply(r, wait, outcome);
            (next, id_of(step))
        },
        Event::Woke { purpose, sleep } => {
            let (next, step) = on_tool_woke(r, purpose, sleep);
            (next, id_of(step))
        },
        Event::Request { instance_id, method, params, timeout_ms } => {
            let (next, asked) = r.request(instance_id, method, params, timeout_ms);
            (
                next,
                match asked {
                    Ok(ask) => Some(ask.id),
                    Err(_) => None,
                },
            )
        },
        Event::Finish { instance_id, link, id, outcome } => (
            r.finish_request(instance_id, link, id, outcome).0,
            None,
        ),
    }
}

/// The state of a new server after some events, and the numbers of the requests
/// that were made, in order.
pub open spec fn history(events: Seq<Event>) -> (RegistryView, Seq<i64>)
    decreases events.len(),
{
    if events.len() == 0 {
        (nobody(), Seq::empty())
    } else {
        let (before, ids) = history(events.drop_last());
        let (after, id) = happen(before, events.last());
        (
            after,
            match id {
                Some(id) => ids.push(id),
                None => ids,
            },
        )
    }
}

/// Whether a change from `r` to `next` takes numbers as it should: a request takes
/// the one that is next, and nothing else takes any.
pub open spec fn takes_next_id(r: RegistryView, next: RegistryView, id: Option<i64>) -> bool {
    match id {
        Some(id) => id == r.next_id && next.next_id == following(r.next_id),
        None => next.next_id == r.next_id,
    }
}

proof fn lemma_command_ids(
    r: RegistryView,
    purpose: Purpose,
    instance_id: Seq<char>,
    command: Seq<char>,
)
    ensures
        ({
            let (next, step) = run_command(r, purpose, instance_id, command);
            takes_next_id(r, next, id_of(step))
        }),
{
}

proof fn lemma_call_ids(r: RegistryView, name: Seq<char>, args: JsonView)
    ensures
        ({
            let (next, step) = dispatch(r, name, args);
            takes_next_id(r, next, id_of(step))
        }),
{
    match r.selected {
        Some(instance_id) => {
            match args.get("command"@) {
                Some(JsonView::Str(command)) => {
                    lemma_command_ids(r, Purpose::Execute, instance_id, command);
                },
                _ => {},
            }
            lemma_command_ids(r, Purpose::SavingExit, instance_id, "wqall"@);
            lemma_command_ids(r, Purpose::ForcedExit, instance_id, "qall!"@);
        },
        None => {},
    }
    assert(takes_next_id(r, selecting(r, args).0, id_of(selecting(r, args).1)));
    assert(takes_next_id(r, asking_state(r).0, id_of(asking_state(r).1)));
    assert(takes_next_id(r, executing(r, args).0, id_of(executing(r, args).1)));
    assert(takes_next_id(r, exiting(r, args).0, id_of(exiting(r, args).1)));
    assert(takes_next_id(r, searching(r, args).0, id_of(searching(r, args).1)));
    assert(takes_next_id(r, recording(r, args).0, id_of(recording(r, args).1)));
}

proof fn lemma_finish_ids(
    r: RegistryView,
    instance_id: Seq<char>,
    link: u64,
    id: i64,
    outcome: OutcomeView,
)
    ensures
        r.finish_request(instance_id, link, id, outcome).0.next_id == r.next_id,
        r.finish_state(instance_id, link, id, outcome).0.next_id == r.next_id,
{
}

proof fn lemma_reply_ids(r: RegistryView, wait: ToolReplyView, outcome: OutcomeView)
    ensures
        ({
            let (next, step) = on_tool_reply(r, wait, outcome);
            takes_next_id(r, next, id_of(step))
        }),
{
    match wait {
        ToolReplyView::Command { purpose, wait } => {
            match wait {
                CommandReplyView::Before { instance_id, command, link, id } => {
                    lemma_finish_ids(r, instance_id, link, id, outcome);
                },
                CommandReplyView::After { instance_id, command, before, link, id } => {
                    lemma_finish_ids(r, instance_id, link, id, outcome);
                },
            }
        },
        ToolReplyView::State { instance_id, link, id } => {
            lemma_finish_ids(r, instance_id, link, id, outcome);
        },
        ToolReplyView::ExitCheck { instance_id, link, id } => {
            lemma_finish_ids(r, instance_id, link, id, outcome);
            let next = r.finish_state(instance_id, link, id, outcome).0;
            lemma_command_ids(next, Purpose::CheckedExit, instance_id, "qall"@);
        },
        ToolReplyView::SearchHelp { instance_id, query, link, id } => {
            lemma_finish_ids(r, instance_id, link, id, outcome);
        },
        ToolReplyView::RecordMacro { instance_id, sequence, register, execute, link, id } => {
            lemma_finish_ids(r, instance_id, link, id, outcome);
        },
        ToolReplyView::Resource { instance_id, uri, link, id } => {
            lemma_finish_ids(r, instance_id, link, id, outcome);
        },
    }
}

proof fn lemma_read_ids(r: RegistryView, uri: Seq<char>)
    ensures
        takes_next_id(r, read(r, uri).0, id_of(read(r, uri).1)),
{
}

proof fn lemma_woke_ids(r: RegistryView, purpose: Purpose, sleep: CommandSleepView)
    ensures
        ({
            let (next, step) = on_tool_woke(r, purpose, sleep);
            takes_next_id(r, next, id_of(step))
        }),
{
}

proof fn lemma_session_ids(
    r: RegistryView,
    s: SessionView,
    m: IncomingMessageView,
    started: Seq<char>,
)
    ensures
        on_message(r, s, m, started).0.next_id == r.next_id,
        on_disconnect(r, s).0.next_id == r.next_id,
{
}

/// Each request takes the number that is next, and nothing else takes one.
pub proof fn law_requests_take_the_next_id(r: RegistryView, event: Event)
    ensures
        takes_next_id(r, happen(r, event).0, happen(r, event).1),
{
    match event {
        Event::Message { session, message, started } => {
            lemma_session_ids(r, session, message, started);
        },
        Event::Departure { session } => {
            assert(on_disconnect(r, session).0.next_id == r.next_id);
        },
        Event::Call { name, args } => {
            lemma_call_ids(r, name, args);
        },
        Event::Read { uri } => {
            lemma_read_ids(r, uri);
        },
        Event::Reply { wait, outcome } => {
            lemma_reply_ids(r, wait, outcome);
        },
        Event::Woke { purpose, sleep } => {
            lemma_woke_ids(r, purpose, sleep);
        },
        Event::Request { instance_id, method, params, timeout_ms } => {},
        Event::Finish { instance_id, link, id, outcome } => {
            lemma_finish_ids(r, instance_id, link, id, outcome);
        },
    }
}

proof fn lemma_history_ids(events: Seq<Event>)
    ensures
        history(events).0.next_id == id_after(0, history(events).1.len()),
        forall|k: int|
            0 <= k < history(events).1.len() ==> #[trigger] history(events).1[k] == id_after(
                0,
                k as nat,
            ),
    decreases events.len(),
{
    if events.len() > 0 {
        lemma_history_ids(events.drop_last());
        law_requests_take_the_next_id(history(events.drop_last()).0, events.last());
    }
}

/// The requests of a new server are numbered from zero on, one by one, whatever
/// happens between them and on whichever connections they go out.
pub proof fn law_requests_are_numbered_from_zero(events: Seq<Event>, k: int)
    requires
        0 <= k < history(events).1.len(),
        k < 0x8000_0000_0000_0000,
    ensures
        history(events).1[k] == k,
{
    lemma_history_ids(events);
    law_ids_count_from_zero(k as nat);
}

} // verus!
