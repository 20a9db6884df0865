//! What each call of a client does, from the call to what is said in the end.

use crate::bridge::on_reply;
use crate::bridge::on_sent;
use crate::bridge::CommandReplyView;
use crate::bridge::CommandSendView;
use crate::bridge::CommandSleepView;
use crate::bridge::CommandStepView;
use crate::command_laws::law_own_exit_commands;
use crate::commands::is_exit;
use crate::commands::judged;
use crate::commands::shown_name;
use crate::json::JsonView;
use crate::registry::AskView;
use crate::registry::ConnectionView;
use crate::registry::OutcomeView;
use crate::registry::RegistryView;
use crate::serde_values::pretty_text;
use crate::server::dispatch;
use crate::server::on_tool_reply;
use crate::server::on_tool_woke;
use crate::server::read;
use crate::text::decimal;
use crate::text::decimal_int;
use crate::text::joined;
use crate::tools::carried_on;
use crate::tools::unsaved;
use crate::tools::unsaved_text;
use crate::tools::ErrorKind;
use crate::tools::Purpose;
use crate::tools::ToolErrorView;
use crate::tools::ToolReplyView;
use crate::tools::ToolStepView;
use crate::value_laws::carries_request;
use crate::value_laws::law_command_line_carries_the_command;
use crate::value_laws::law_request_line_carries_the_request;
use vstd::prelude::*;

verus! {

// ---------------------------------------------------------------------------
// Steps
// ---------------------------------------------------------------------------
/// Whether a step ends a call with a text, and writes nothing.
pub open spec fn says(step: ToolStepView, text: Seq<char>) -> bool {
    step == ToolStepView::Done { write: None, result: Ok(text) }
}

/// Whether a step ends a call with an error, and writes nothing.
pub open spec fn refuses(step: ToolStepView, kind: ErrorKind, message: Seq<char>) -> bool {
    step == ToolStepView::Done { write: None, result: Err(ToolErrorView { kind, message }) }
}

/// Whether a change from `r` to `next` sends just the request to the instance: it
/// goes out on the instance's link under the next number, the answer to it is
/// awaited, and nothing else changes.
pub open spec fn sends_request(
    r: RegistryView,
    next: RegistryView,
    ask: AskView,
    instance_id: Seq<char>,
    method: Seq<char>,
    params: JsonView,
    timeout_ms: int,
) -> bool {
    &&& r.connections.contains_key(instance_id)
    &&& ask.link == r.connections[instance_id].link
    &&& ask.id == r.next_id
    &&& ask.timeout_ms == timeout_ms
    &&& carries_request(ask.line, r.next_id as int, method, params)
    &&& next.connections == r.connections
    &&& next.order == r.order
    &&& next.selected == r.selected
    &&& next.pending_exits == r.pending_exits
    &&& next.pending == r.pending.insert((ask.link, ask.id))
}

/// Whether a change from `r` to `next` asks the instance for its state, and for two
/// seconds.
pub open spec fn asks_for_state(
    r: RegistryView,
    next: RegistryView,
    ask: AskView,
    instance_id: Seq<char>,
) -> bool {
    sends_request(
        r,
        next,
        ask,
        instance_id,
        "get_state"@,
        JsonView::Object(Map::empty()),
        2000,
    )
}

/// Whether a change from `r` to `next` caches a state of the instance, and does
/// nothing else.
pub open spec fn caches(
    r: RegistryView,
    next: RegistryView,
    instance_id: Seq<char>,
    state: JsonView,
) -> bool {
    &&& r.connections.contains_key(instance_id)
    &&& next.connections == r.connections.insert(
        instance_id,
        ConnectionView { state: Some(state), ..r.connections[instance_id] },
    )
    &&& next.order == r.order
    &&& next.selected == r.selected
    &&& next.pending_exits == r.pending_exits
    &&& next.pending == r.pending
    &&& next.next_id == r.next_id
}

/// Whether a line that runs a command goes out on the link of the instance.
pub open spec fn sends_command(
    r: RegistryView,
    step: ToolStepView,
    instance_id: Seq<char>,
    command: Seq<char>,
) -> bool {
    &&& step is Send
    &&& r.connections.contains_key(instance_id)
    &&& step->Send_2.link == r.connections[instance_id].link
    &&& carries_request(
        step->Send_2.line,
        0,
        "execute_command"@,
        JsonView::Object(Map::empty().insert("command"@, JsonView::Str(command))),
    )
}

/// A request to a connected instance is sent to it, and nothing else happens.
pub proof fn law_request_is_sent(
    r: RegistryView,
    instance_id: Seq<char>,
    method: Seq<char>,
    params: JsonView,
    timeout_ms: u64,
)
    requires
        r.connections.contains_key(instance_id),
    ensures
        ({
            let (next, asked) = r.request(instance_id, method, params, timeout_ms);
            &&& asked is Ok
            &&& sends_request(
                r,
                next,
                asked->Ok_0,
                instance_id,
                method,
                params,
                timeout_ms as int,
            )
        }),
{
    law_request_line_carries_the_request(r.next_id, method, params);
}

/// A request for the state of a connected instance is sent to it.
pub proof fn law_state_request_is_sent(r: RegistryView, instance_id: Seq<char>)
    requires
        r.connections.contains_key(instance_id),
    ensures
        ({
            let (next, asked) = r.request_state(instance_id);
            asked is Ok && asks_for_state(r, next, asked->Ok_0, instance_id)
        }),
{
    law_request_is_sent(r, instance_id, "get_state"@, JsonView::Object(Map::empty()), 2000);
}

proof fn lemma_finish_caches(
    r: RegistryView,
    instance_id: Seq<char>,
    link: u64,
    id: i64,
    state: JsonView,
)
    requires
        r.connections.contains_key(instance_id),
    ensures
        caches(
            r,
            r.finish_state(instance_id, link, id, OutcomeView::Replied(Ok(state))).0,
            instance_id,
            state,
        ),
        r.finish_state(instance_id, link, id, OutcomeView::Replied(Ok(state))).1 == Ok::<
            JsonView,
            Seq<char>,
        >(state),
{
}

/// The names of the tools are of different lengths.
proof fn lemma_tool_names()
    ensures
        "list_vim_instances"@.len() == 18,
        "select_vim_instance"@.len() == 19,
        "get_vim_state"@.len() == 13,
        "vim_execute"@.len() == 11,
        "exit_vim"@.len() == 8,
        "vim_search_help"@.len() == 15,
        "vim_record_macro"@.len() == 16,
{
    reveal_strlit("list_vim_instances");
    reveal_strlit("select_vim_instance");
    reveal_strlit("get_vim_state");
    reveal_strlit("vim_execute");
    reveal_strlit("exit_vim");
    reveal_strlit("vim_search_help");
    reveal_strlit("vim_record_macro");
}

// ---------------------------------------------------------------------------
// State and resources
// ---------------------------------------------------------------------------
/// `get_vim_state` asks the selected instance for its state, and says the whole of
/// what it answers.
pub proof fn law_state_is_said_whole(r: RegistryView, args: JsonView, state: JsonView)
    requires
        r.valid(),
        r.selected is Some,
    ensures
        ({
            let id = r.selected->Some_0;
            let (asked, step) = dispatch(r, "get_vim_state"@, args);
            let (end, last) = on_tool_reply(asked, step->Ask_0, OutcomeView::Replied(Ok(state)));
            &&& step is Ask
            &&& asks_for_state(r, asked, step->Ask_1, id)
            &&& caches(asked, end, id, state)
            &&& says(last, pretty_text(state))
        }),
{
    lemma_tool_names();
    let id = r.selected->Some_0;
    law_state_request_is_sent(r, id);
    let (asked, step) = dispatch(r, "get_vim_state"@, args);
    lemma_finish_caches(asked, id, step->Ask_1.link, step->Ask_1.id, state);
}

/// The uris of resources, told apart.
proof fn lemma_uris()
    ensures
        "vim://instances"@.len() == 15,
        "vim://state"@.len() == 11,
        "vim://buffers"@.len() == 13,
        "vim://tabs"@.len() == 10,
{
    reveal_strlit("vim://instances");
    reveal_strlit("vim://state");
    reveal_strlit("vim://buffers");
    reveal_strlit("vim://tabs");
}

/// The resources other than the list of instances ask the selected instance for its
/// state. What is read of `vim://state` is the whole state, the same text that
/// `get_vim_state` says; of `vim://buffers` and `vim://tabs` it is the member of
/// that name, or an empty array where the state has none.
pub proof fn law_resources_show_the_state(
    r: RegistryView,
    uri: Seq<char>,
    args: JsonView,
    state: JsonView,
)
    requires
        r.valid(),
        r.selected is Some,
        uri == "vim://state"@ || uri == "vim://buffers"@ || uri == "vim://tabs"@,
    ensures
        ({
            let id = r.selected->Some_0;
            let (asked, step) = read(r, uri);
            let (end, last) = on_tool_reply(asked, step->Ask_0, OutcomeView::Replied(Ok(state)));
            let (asked2, step2) = dispatch(r, "get_vim_state"@, args);
            let last2 = on_tool_reply(asked2, step2->Ask_0, OutcomeView::Replied(Ok(state))).1;
            let key = if uri == "vim://buffers"@ {
                "buffers"@
            } else {
                "tabs"@
            };
            &&& step is Ask
            &&& asks_for_state(r, asked, step->Ask_1, id)
            &&& caches(asked, end, id, state)
            &&& uri == "vim://state"@ ==> says(last, pretty_text(state)) && last == last2
            &&& uri != "vim://state"@ && state is Object && state->Object_0.contains_key(key)
                ==> says(last, pretty_text(state->Object_0[key]))
            &&& uri != "vim://state"@ && !(state is Object && state->Object_0.contains_key(key))
                ==> says(last, pretty_text(JsonView::Array(Seq::empty())))
        }),
{
    lemma_uris();
    let id = r.selected->Some_0;
    law_state_request_is_sent(r, id);
    law_state_is_said_whole(r, args, state);
    let (asked, step) = read(r, uri);
    lemma_finish_caches(asked, id, step->Ask_1.link, step->Ask_1.id, state);
}

/// A resource that does not exist is refused once the state of the selected instance
/// is there.
pub proof fn law_other_resources_are_refused(r: RegistryView, uri: Seq<char>, state: JsonView)
    requires
        r.valid(),
        r.selected is Some,
        uri != "vim://instances"@,
        uri != "vim://state"@,
        uri != "vim://buffers"@,
        uri != "vim://tabs"@,
    ensures
        ({
            let (asked, step) = read(r, uri);
            let last = on_tool_reply(asked, step->Ask_0, OutcomeView::Replied(Ok(state))).1;
            &&& step is Ask
            &&& asks_for_state(r, asked, step->Ask_1, r.selected->Some_0)
            &&& refuses(last, ErrorKind::InvalidRequest, "Unknown resource: "@ + uri)
        }),
{
    law_state_request_is_sent(r, r.selected->Some_0);
}

// ---------------------------------------------------------------------------
// Help
// ---------------------------------------------------------------------------
/// `vim_search_help` asks the selected instance to search for the query, whole and
/// unchanged, and for three seconds. Where the answer tells of success, what it
/// tells of the topic is said; otherwise that there is none.
pub proof fn law_help_is_searched_for_the_query(
    r: RegistryView,
    args: JsonView,
    query: Seq<char>,
    found: JsonView,
)
    requires
        r.valid(),
        r.selected is Some,
        args is Object,
        args->Object_0.contains_key("query"@),
        args->Object_0["query"@] == JsonView::Str(query),
    ensures
        ({
            let id = r.selected->Some_0;
            let (asked, step) = dispatch(r, "vim_search_help"@, args);
            let (end, last) = on_tool_reply(asked, step->Ask_0, OutcomeView::Replied(Ok(found)));
            let line = found.get("line"@);
            &&& step is Ask
            &&& sends_request(
                r,
                asked,
                step->Ask_1,
                id,
                "search_help"@,
                JsonView::Object(Map::empty().insert("query"@, JsonView::Str(query))),
                3000,
            )
            &&& end == asked
            &&& found.get("success"@) == Some(JsonView::Bool(true)) ==> says(
                last,
                "Found help for '"@ + query + "':\n\nTag: "@ + found.str_or("tag"@, ""@)
                    + "\nFile: "@ + found.str_or("file"@, ""@) + "\nLine: "@ + decimal_int(
                    if line is Some && line->Some_0.as_i64() is Some {
                        line->Some_0.as_i64()->Some_0 as int
                    } else {
                        0
                    },
                ) + "\n\nHelp window opened in Vim."@,
            )
            &&& found.get("success"@) != Some(JsonView::Bool(true)) ==> says(
                last,
                "No help found for '"@ + query
                    + "'. Try a more specific term, :helpgrep, or :help."@,
            )
        }),
{
    lemma_tool_names();
    let params = JsonView::Object(map!["query"@ => JsonView::Str(query)]);
    assert(map!["query"@ => JsonView::Str(query)] =~= Map::empty().insert(
        "query"@,
        JsonView::Str(query),
    ));
    law_request_is_sent(r, r.selected->Some_0, "search_help"@, params, 3000);
}

// ---------------------------------------------------------------------------
// Macros
// ---------------------------------------------------------------------------
/// Whether a text is one small letter or one digit, by code points.
pub open spec fn is_letter_or_digit(s: Seq<char>) -> bool {
    s.len() == 1 && (97 <= s[0] as int <= 122 || 48 <= s[0] as int <= 57)
}

/// `vim_record_macro` asks the selected instance to record the sequence in the
/// register, whole and unchanged, for each of the small letters and digits; the
/// register is `q` and the macro is run where the call does not say otherwise. Where
/// the answer tells of success, that is said, and whether the macro was run;
/// otherwise why it failed.
pub proof fn law_macro_is_recorded(
    r: RegistryView,
    args: JsonView,
    sequence: Seq<char>,
    done: JsonView,
)
    requires
        r.valid(),
        r.selected is Some,
        args is Object,
        args->Object_0.contains_key("macro_sequence"@),
        args->Object_0["macro_sequence"@] == JsonView::Str(sequence),
        is_letter_or_digit(args.str_or("register"@, "q"@)),
    ensures
        ({
            let id = r.selected->Some_0;
            let register = args.str_or("register"@, "q"@);
            let execute = args.bool_or("execute"@, true);
            let (asked, step) = dispatch(r, "vim_record_macro"@, args);
            let (end, last) = on_tool_reply(asked, step->Ask_0, OutcomeView::Replied(Ok(done)));
            let recorded = "Macro recorded in register \""@ + register + "\""@ + if execute {
                " and executed"@
            } else {
                Seq::empty()
            } + "\nSequence: "@ + sequence;
            let success = done.get("success"@) == Some(JsonView::Bool(true));
            let output = done.get("output"@);
            &&& step is Ask
            &&& sends_request(
                r,
                asked,
                step->Ask_1,
                id,
                "record_macro"@,
                JsonView::Object(
                    Map::empty().insert("macro_sequence"@, JsonView::Str(sequence)).insert(
                        "register"@,
                        JsonView::Str(register),
                    ).insert("execute"@, JsonView::Bool(execute)),
                ),
                2000,
            )
            &&& end == asked
            &&& success && output is Some && output->Some_0 is Str ==> says(
                last,
                recorded + "\n"@ + output->Some_0->Str_0,
            )
            &&& success && !(output is Some && output->Some_0 is Str) ==> says(last, recorded)
            &&& !success ==> says(
                last,
                "Failed to record macro: "@ + done.str_or("error"@, "Unknown error"@),
            )
        }),
{
    lemma_tool_names();
    let register = args.str_or("register"@, "q"@);
    let execute = args.bool_or("execute"@, true);
    let m = map![
        "macro_sequence"@ => JsonView::Str(sequence),
        "register"@ => JsonView::Str(register),
        "execute"@ => JsonView::Bool(execute),
    ];
    assert(m =~= Map::empty().insert("macro_sequence"@, JsonView::Str(sequence)).insert(
        "register"@,
        JsonView::Str(register),
    ).insert("execute"@, JsonView::Bool(execute)));
    law_request_is_sent(r, r.selected->Some_0, "record_macro"@, JsonView::Object(m), 2000);
    let head = "Macro recorded in register \""@ + register + "\""@;
    assert(head + Seq::<char>::empty() =~= head);
}

/// Any other register is refused, and nothing is sent.
pub proof fn law_other_registers_are_refused(
    r: RegistryView,
    args: JsonView,
    sequence: Seq<char>,
)
    requires
        r.selected is Some,
        args.get("macro_sequence"@) == Some(JsonView::Str(sequence)),
        !is_letter_or_digit(args.str_or("register"@, "q"@)),
    ensures
        ({
            let (next, step) = dispatch(r, "vim_record_macro"@, args);
            &&& next == r
            &&& refuses(
                step,
                ErrorKind::InvalidParams,
                "Register must be a single letter (a-z) or digit (0-9)"@,
            )
        }),
{
    lemma_tool_names();
}

/// A call that lacks the text it needs is refused, and nothing is sent.
pub proof fn law_missing_arguments_are_refused(r: RegistryView, args: JsonView)
    requires
        r.selected is Some,
    ensures
        !(args.get("command"@) matches Some(JsonView::Str(_))) ==> {
            let (next, step) = dispatch(r, "vim_execute"@, args);
            next == r && refuses(
                step,
                ErrorKind::InvalidParams,
                "Command parameter is required"@,
            )
        },
        !(args.get("query"@) matches Some(JsonView::Str(_))) ==> {
            let (next, step) = dispatch(r, "vim_search_help"@, args);
            next == r && refuses(step, ErrorKind::InvalidParams, "Query parameter is required"@)
        },
        !(args.get("macro_sequence"@) matches Some(JsonView::Str(_))) ==> {
            let (next, step) = dispatch(r, "vim_record_macro"@, args);
            next == r && refuses(
                step,
                ErrorKind::InvalidParams,
                "macro_sequence parameter is required"@,
            )
        },
{
    lemma_tool_names();
}

// ---------------------------------------------------------------------------
// Exiting
// ---------------------------------------------------------------------------
/// Whether an item of a list of buffers says that it has unsaved changes.
pub open spec fn is_unsaved(buffer: JsonView) -> bool {
    buffer.get("modified"@) == Some(JsonView::Bool(true))
}

/// Whether a state shows a buffer with unsaved changes.
pub open spec fn shows_unsaved(state: JsonView) -> bool {
    exists|i: int|
        0 <= i < state.items("buffers"@).len() && is_unsaved(
            #[trigger] state.items("buffers"@)[i],
        )
}

/// The unsaved buffers are named one by one, in the order of the list: each that
/// says it is modified, and no other, by its name or as one without a name.
pub proof fn law_unsaved_buffers_are_named_in_order(
    m: Map<Seq<char>, JsonView>,
    buffers: Seq<JsonView>,
    buffer: JsonView,
)
    ensures
        ({
            let shorter = JsonView::Object(m.insert("buffers"@, JsonView::Array(buffers)));
            let longer = JsonView::Object(
                m.insert("buffers"@, JsonView::Array(buffers.push(buffer))),
            );
            let name = buffer.str_or("name"@, ""@);
            unsaved(longer) == if is_unsaved(buffer) {
                unsaved(shorter).push(
                    if name.len() == 0 {
                        "[No Name]"@
                    } else {
                        name
                    },
                )
            } else {
                unsaved(shorter)
            }
        }),
        unsaved(JsonView::Object(m.insert("buffers"@, JsonView::Array(Seq::empty())))).len() == 0,
        unsaved(JsonView::Object(m.remove("buffers"@))).len() == 0,
{
    reveal(Seq::filter);
    let keeps = |b: JsonView| b.bool_or("modified"@, false);
    let name = |b: JsonView| shown_name(b.str_or("name"@, ""@));
    let all = buffers.push(buffer);
    assert(all.drop_last() =~= buffers);
    assert(keeps(buffer) == is_unsaved(buffer));
    let shorter = JsonView::Object(m.insert("buffers"@, JsonView::Array(buffers)));
    let longer = JsonView::Object(m.insert("buffers"@, JsonView::Array(all)));
    assert(longer.items("buffers"@) == all);
    assert(shorter.items("buffers"@) == buffers);
    if is_unsaved(buffer) {
        assert(all.filter(keeps) == buffers.filter(keeps).push(buffer));
        assert(unsaved(longer) =~= unsaved(shorter).push(name(buffer)));
    } else {
        assert(all.filter(keeps) == buffers.filter(keeps));
    }
}

/// What is said of unsaved buffers: how many there are, their names, and what can be
/// done.
pub proof fn law_unsaved_buffers_are_told(names: Seq<Seq<char>>)
    ensures
        unsaved_text(names) == "Cannot exit Vim: "@ + decimal(names.len())
            + " buffer(s) have unsaved changes: "@ + joined(names, ", "@)
            + "\n\nOptions:\n- Save manually and run exit_vim again\n- exit_vim action='save_and_exit'\n- exit_vim action='force_exit'"@,
{
}

proof fn lemma_unsaved(state: JsonView)
    ensures
        shows_unsaved(state) <==> unsaved(state).len() > 0,
{
    let all = state.items("buffers"@);
    let keeps = |b: JsonView| b.bool_or("modified"@, false);
    if shows_unsaved(state) {
        let i = choose|i: int| 0 <= i < all.len() && is_unsaved(#[trigger] all[i]);
        assert(keeps(all[i]));
        all.lemma_filter_contains(keeps, i);
    }
    if all.filter(keeps).len() > 0 {
        let b = all.filter(keeps)[0];
        all.lemma_filter_pred(keeps, 0);
        all.lemma_filter_contains_rev(keeps, b);
        let i = choose|i: int| 0 <= i < all.len() && all[i] == b;
        assert(is_unsaved(all[i]));
    }
}

/// `exit_vim` without an action, or with the action `check`, asks the selected
/// instance for its state. Where that shows no unsaved buffer, `qall` goes out to
/// that same instance, which alone is marked as told to exit; otherwise nothing is
/// sent, and the unsaved buffers are told.
pub proof fn law_checked_exit_is_of_the_selected(
    r: RegistryView,
    args: JsonView,
    state: JsonView,
)
    requires
        r.valid(),
        r.selected is Some,
        args.str_or("action"@, "check"@) == "check"@,
    ensures
        ({
            let id = r.selected->Some_0;
            let (asked, step) = dispatch(r, "exit_vim"@, args);
            let (end, last) = on_tool_reply(asked, step->Ask_0, OutcomeView::Replied(Ok(state)));
            &&& step is Ask
            &&& asks_for_state(r, asked, step->Ask_1, id)
            &&& !shows_unsaved(state) ==> {
                &&& sends_command(r, last, id, "qall"@)
                &&& end.pending_exits == r.pending_exits.insert(id)
                &&& end.selected == r.selected
                &&& end.order == r.order
            }
            &&& shows_unsaved(state) ==> {
                &&& says(last, unsaved_text(unsaved(state)))
                &&& caches(asked, end, id, state)
            }
        }),
{
    lemma_tool_names();
    lemma_unsaved(state);
    law_own_exit_commands();
    law_command_line_carries_the_command("qall"@);
    let id = r.selected->Some_0;
    law_state_request_is_sent(r, id);
    let (asked, step) = dispatch(r, "exit_vim"@, args);
    lemma_finish_caches(asked, id, step->Ask_1.link, step->Ask_1.id, state);
}

/// `exit_vim` with one of the two other actions sends the command for it to the
/// selected instance at once, and marks that instance alone as told to exit; any
/// other action is refused.
pub proof fn law_other_exits_are_of_the_selected(r: RegistryView, args: JsonView)
    requires
        r.valid(),
        r.selected is Some,
        args.str_or("action"@, "check"@) != "check"@,
    ensures
        ({
            let id = r.selected->Some_0;
            let action = args.str_or("action"@, "check"@);
            let (next, step) = dispatch(r, "exit_vim"@, args);
            &&& action == "save_and_exit"@ ==> sends_command(r, step, id, "wqall"@)
            &&& action == "force_exit"@ ==> sends_command(r, step, id, "qall!"@)
            &&& action == "save_and_exit"@ || action == "force_exit"@ ==> {
                &&& next.pending_exits == r.pending_exits.insert(id)
                &&& next.connections == r.connections
                &&& next.order == r.order
                &&& next.selected == r.selected
                &&& next.pending == r.pending
            }
            &&& action != "save_and_exit"@ && action != "force_exit"@ ==> next == r && refuses(
                step,
                ErrorKind::InvalidParams,
                "Invalid action '"@ + action + "'. Use: check, save_and_exit, or force_exit"@,
            )
        }),
{
    lemma_tool_names();
    law_own_exit_commands();
    law_command_line_carries_the_command("wqall"@);
    law_command_line_carries_the_command("qall!"@);
    reveal_strlit("save_and_exit");
    reveal_strlit("force_exit");
}

/// What an exit says when the instance is gone, by the way in which it was asked
/// for.
pub open spec fn exit_message(purpose: Purpose) -> Seq<char> {
    match purpose {
        Purpose::Execute => "Vim exited successfully"@,
        Purpose::CheckedExit => "Vim exited successfully (no unsaved changes)"@,
        Purpose::SavingExit => "All changes saved and Vim exited successfully"@,
        Purpose::ForcedExit => "Vim force exited (unsaved changes discarded)"@,
    }
}

/// The three ways of `exit_vim` and an exit command of `vim_execute` are told apart
/// in the end by what they were asked for.
pub proof fn law_exit_says_what_was_asked(r: RegistryView, args: JsonView, state: JsonView)
    requires
        r.valid(),
        r.selected is Some,
    ensures
        ({
            let action = args.str_or("action"@, "check"@);
            let (asked, step) = dispatch(r, "exit_vim"@, args);
            let last = on_tool_reply(asked, step->Ask_0, OutcomeView::Replied(Ok(state))).1;
            &&& action == "check"@ && !shows_unsaved(state) ==> last is Send && last->Send_0
                == Purpose::CheckedExit
            &&& action == "save_and_exit"@ ==> step is Send && step->Send_0 == Purpose::SavingExit
            &&& action == "force_exit"@ ==> step is Send && step->Send_0 == Purpose::ForcedExit
        }),
{
    lemma_tool_names();
    law_own_exit_commands();
    lemma_unsaved(state);
    reveal_strlit("check");
    reveal_strlit("save_and_exit");
    reveal_strlit("force_exit");
    assert("check"@.len() == 5 && "save_and_exit"@.len() == 13 && "force_exit"@.len() == 10);
}

/// An exit whose line was sent sleeps; when the instance is then gone it says so, by
/// what was asked for.
pub proof fn law_gone_instance_ends_the_exit(
    r: RegistryView,
    purpose: Purpose,
    instance_id: Seq<char>,
    polls: u64,
)
    requires
        !r.connections.contains_key(instance_id),
    ensures
        ({
            let (next, step) = on_tool_woke(
                r,
                purpose,
                CommandSleepView::Exit { instance_id, polls },
            );
            next == r && says(step, exit_message(purpose))
        }),
{
}

/// An exit that gives up, or whose line could not be sent, is an error; that of
/// `vim_execute` is marked as the failure of a command.
pub proof fn law_failed_exit_is_an_error(
    r: RegistryView,
    purpose: Purpose,
    instance_id: Seq<char>,
    wait: CommandSendView,
)
    requires
        r.connections.contains_key(instance_id),
    ensures
        ({
            let step = on_tool_woke(
                r,
                purpose,
                CommandSleepView::Exit { instance_id, polls: 39 },
            ).1;
            let unsent = carried_on(purpose, on_sent(wait, false));
            if purpose == Purpose::Execute {
                &&& refuses(
                    step,
                    ErrorKind::Internal,
                    "Failed to execute command: "@ + "Timeout waiting for Vim to exit"@,
                )
                &&& refuses(
                    unsent,
                    ErrorKind::Internal,
                    "Failed to execute command: "@ + "Instance disconnected"@,
                )
            } else {
                &&& refuses(step, ErrorKind::Internal, "Timeout waiting for Vim to exit"@)
                &&& refuses(unsent, ErrorKind::Internal, "Instance disconnected"@)
            }
        }),
{
}

// ---------------------------------------------------------------------------
// Commands
// ---------------------------------------------------------------------------
/// `vim_execute` with a command that ends Vim sends the command, as it was given, to
/// the selected instance at once, and marks that instance alone as told to exit.
pub proof fn law_executed_exit_is_sent(r: RegistryView, args: JsonView, command: Seq<char>)
    requires
        r.valid(),
        r.selected is Some,
        args.get("command"@) == Some(JsonView::Str(command)),
        is_exit(command),
    ensures
        ({
            let id = r.selected->Some_0;
            let (next, step) = dispatch(r, "vim_execute"@, args);
            &&& sends_command(r, step, id, command)
            &&& step->Send_0 == Purpose::Execute
            &&& step->Send_1 == (CommandSendView::Exit { instance_id: id })
            &&& next.pending_exits == r.pending_exits.insert(id)
            &&& next.connections == r.connections
            &&& next.order == r.order
            &&& next.selected == r.selected
            &&& next.pending == r.pending
        }),
{
    lemma_tool_names();
    law_command_line_carries_the_command(command);
}

/// `vim_execute` with any other command runs from the call to what is said: the
/// selected instance is asked for its state, the command goes out to it as it was
/// given, after half a second it is asked for its state again, and what is said is
/// the judgement on the command by the first state and the second.
pub proof fn law_executed_command_is_judged(
    r: RegistryView,
    args: JsonView,
    command: Seq<char>,
    before: JsonView,
    after: JsonView,
)
    requires
        r.valid(),
        r.selected is Some,
        args.get("command"@) == Some(JsonView::Str(command)),
        !is_exit(command),
    ensures
        ({
            let id = r.selected->Some_0;
            let (r1, step1) = dispatch(r, "vim_execute"@, args);
            let (r2, step2) = on_tool_reply(r1, step1->Ask_0, OutcomeView::Replied(Ok(before)));
            let step3 = carried_on(step2->Send_0, on_sent(step2->Send_1, true));
            let (r4, step4) = on_tool_woke(r2, step3->Sleep_0, step3->Sleep_1);
            let (r5, step5) = on_tool_reply(r4, step4->Ask_0, OutcomeView::Replied(Ok(after)));
            let (ok, message) = judged(command, before, after);
            &&& step1 is Ask
            &&& asks_for_state(r, r1, step1->Ask_1, id)
            &&& caches(r1, r2, id, before)
            &&& sends_command(r, step2, id, command)
            &&& step3 is Sleep
            &&& step3->Sleep_2 == 500
            &&& step4 is Ask
            &&& asks_for_state(r2, r4, step4->Ask_1, id)
            &&& caches(r4, r5, id, after)
            &&& ok ==> says(step5, message)
            &&& !ok ==> refuses(
                step5,
                ErrorKind::Internal,
                "Failed to execute command: "@ + ("Command verification failed: "@ + message),
            )
        }),
{
    lemma_tool_names();
    law_command_line_carries_the_command(command);
    let id = r.selected->Some_0;
    law_state_request_is_sent(r, id);
    let (r1, step1) = dispatch(r, "vim_execute"@, args);
    lemma_finish_caches(r1, id, step1->Ask_1.link, step1->Ask_1.id, before);
    let (r2, step2) = on_tool_reply(r1, step1->Ask_0, OutcomeView::Replied(Ok(before)));
    assert(r2.connections.contains_key(id));
    law_state_request_is_sent(r2, id);
    let step3 = carried_on(step2->Send_0, on_sent(step2->Send_1, true));
    assert(step3 == ToolStepView::Sleep(
        Purpose::Execute,
        CommandSleepView::Judged { instance_id: id, command, before },
        500,
    ));
    let (r4, step4) = on_tool_woke(r2, step3->Sleep_0, step3->Sleep_1);
    lemma_finish_caches(r4, id, step4->Ask_1.link, step4->Ask_1.id, after);
}

/// A command whose state cannot be had fails with the reason, before it was sent or
/// after; of the state nothing changes but what the end of the request does.
pub proof fn law_command_without_state_fails(
    r: RegistryView,
    instance_id: Seq<char>,
    command: Seq<char>,
    before: JsonView,
    link: u64,
    id: i64,
    outcome: OutcomeView,
)
    requires
        !(outcome matches OutcomeView::Replied(Ok(_))),
    ensures
        ({
            let (ended, reason) = r.finish_request(instance_id, link, id, outcome);
            &&& on_reply(
                r,
                CommandReplyView::Before { instance_id, command, link, id },
                outcome,
            ) == (
                ended,
                CommandStepView::Done(
                    Err("Failed to get state before command: "@ + reason->Err_0),
                ),
            )
            &&& on_reply(
                r,
                CommandReplyView::After { instance_id, command, before, link, id },
                outcome,
            ) == (
                ended,
                CommandStepView::Done(
                    Err("Failed to verify command execution: "@ + reason->Err_0),
                ),
            )
        }),
{
}

/// A command whose instance is gone when its state has come, or when it is to be
/// asked again, fails.
pub proof fn law_command_of_a_gone_instance_fails(
    r: RegistryView,
    instance_id: Seq<char>,
    command: Seq<char>,
    before: JsonView,
    link: u64,
    id: i64,
)
    requires
        !r.connections.contains_key(instance_id),
    ensures
        ({
            let absent = "Instance "@ + instance_id + " not connected"@;
            let (next, step) = on_tool_reply(
                r,
                ToolReplyView::Command {
                    purpose: Purpose::Execute,
                    wait: CommandReplyView::Before { instance_id, command, link, id },
                },
                OutcomeView::Replied(Ok(before)),
            );
            let (next2, step2) = on_tool_woke(
                r,
                Purpose::Execute,
                CommandSleepView::Judged { instance_id, command, before },
            );
            &&& next == r && next2 == r
            &&& refuses(step, ErrorKind::Internal, "Failed to execute command: "@ + absent)
            &&& refuses(
                step2,
                ErrorKind::Internal,
                "Failed to execute command: "@ + ("Failed to verify command execution: "@ + absent),
            )
        }),
{
}

} // verus!
