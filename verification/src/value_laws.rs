//! What holds of every JSON value, of the views of the library's types, and of the
//! lines of the protocol.

use crate::bridge::CommandReply;
use crate::bridge::CommandReplyView;
use crate::bridge::CommandSend;
use crate::bridge::CommandSendView;
use crate::bridge::CommandSleep;
use crate::bridge::CommandSleepView;
use crate::bridge::CommandStep;
use crate::bridge::CommandStepView;
use crate::bridge::Departure;
use crate::bridge::Outgoing;
use crate::bridge::Reaction;
use crate::bridge::ReactionView;
use crate::bridge::Session;
use crate::catalog::Tool;
use crate::json::array_view;
use crate::json::object_view;
use crate::json::same_json;
use crate::json::strings_view;
use crate::json::Json;
use crate::json::JsonView;
use crate::json::NumberView;
use crate::protocol::command_line;
use crate::protocol::framed;
use crate::protocol::registered_line;
use crate::protocol::request_line;
use crate::protocol::IncomingMessage;
use crate::protocol::InstanceInfo;
use crate::registry::ask_result;
use crate::registry::value_result;
use crate::registry::Ask;
use crate::registry::AskView;
use crate::registry::Connection;
use crate::registry::FileWrite;
use crate::registry::Outcome;
use crate::registry::OutcomeView;
use crate::serde_values::compact_text;
use crate::serde_values::number_of;
use crate::server::Resource;
use crate::tools::ToolError;
use crate::tools::ToolReply;
use crate::tools::ToolReplyView;
use crate::tools::ToolStep;
use crate::tools::ToolStepView;
use vstd::prelude::*;

verus! {

// ---------------------------------------------------------------------------
// Members
// ---------------------------------------------------------------------------
/// The member under a key is what was put there last, and nothing where nothing is;
/// what is no object has no members.
pub proof fn law_members_are_found_by_key(
    m: Map<Seq<char>, JsonView>,
    key: Seq<char>,
    value: JsonView,
    other: JsonView,
)
    ensures
        JsonView::Object(m.insert(key, value)).get(key) == Some(value),
        JsonView::Object(m.remove(key)).get(key) is None,
        !(other is Object) ==> other.get(key) is None,
{
}

/// A member of a member is found by both keys, and only there.
pub proof fn law_inner_members_are_found_by_both_keys(
    m: Map<Seq<char>, JsonView>,
    outer: Seq<char>,
    inner: Seq<char>,
    value: JsonView,
)
    ensures
        JsonView::Object(m.insert(outer, value)).get2(outer, inner) == value.get(inner),
        JsonView::Object(m.remove(outer)).get2(outer, inner) is None,
{
}

/// A member is read by its kind: as the text, the truth value or the items that it
/// is, and by the default where it is of another kind or missing.
pub proof fn law_members_are_read_by_kind(
    m: Map<Seq<char>, JsonView>,
    key: Seq<char>,
    value: JsonView,
    text: Seq<char>,
    truth: bool,
)
    ensures
        ({
            let with = JsonView::Object(m.insert(key, value));
            let without = JsonView::Object(m.remove(key));
            &&& value is Str ==> with.str_or(key, text) == value->Str_0
            &&& !(value is Str) ==> with.str_or(key, text) == text
            &&& without.str_or(key, text) == text
            &&& value is Bool ==> with.bool_or(key, truth) == value->Bool_0
            &&& !(value is Bool) ==> with.bool_or(key, truth) == truth
            &&& without.bool_or(key, truth) == truth
            &&& value is Array ==> with.items(key) == value->Array_0
            &&& !(value is Array) ==> with.items(key).len() == 0
            &&& without.items(key).len() == 0
        }),
        !(value is Object) ==> value.str_or(key, text) == text && value.bool_or(key, truth) == truth
            && value.items(key).len() == 0,
{
}

/// A value is seen as the kind that it is, and as no other.
pub proof fn law_values_are_of_one_kind(j: JsonView)
    ensures
        j.as_str() is Some <==> j is Str,
        j is Str ==> j.as_str() == Some(j->Str_0),
        j.as_bool() is Some <==> j is Bool,
        j is Bool ==> j.as_bool() == Some(j->Bool_0),
        j.as_array() is Some <==> j is Array,
        j is Array ==> j.as_array() == Some(j->Array_0),
{
}

/// A number is an integer of 64 bits with a sign where it is whole and fits, and
/// only there.
pub proof fn law_integers_that_fit(i: int, digits: Seq<char>)
    ensures
        -0x8000_0000_0000_0000 <= i < 0x8000_0000_0000_0000 ==> JsonView::Number(
            NumberView::Int(i),
        ).as_i64() == Some(i as i64) && i as i64 == i,
        !(-0x8000_0000_0000_0000 <= i < 0x8000_0000_0000_0000) ==> JsonView::Number(
            NumberView::Int(i),
        ).as_i64() is None,
        JsonView::Number(NumberView::Float(digits)).as_i64() is None,
        JsonView::Str(digits).as_i64() is None,
        JsonView::Null.as_i64() is None,
{
}

// ---------------------------------------------------------------------------
// Equality
// ---------------------------------------------------------------------------
/// Texts, truth values and whole numbers are equal where they are the same, and
/// values of different kinds never are.
pub proof fn law_plain_values_are_equal_where_the_same(
    s: Seq<char>,
    t: Seq<char>,
    p: bool,
    q: bool,
    i: int,
    j: int,
    a: JsonView,
    b: JsonView,
)
    ensures
        same_json(JsonView::Str(s), JsonView::Str(t)) == (s == t),
        same_json(JsonView::Bool(p), JsonView::Bool(q)) == (p == q),
        same_json(
            JsonView::Number(NumberView::Int(i)),
            JsonView::Number(NumberView::Int(j)),
        ) == (i == j),
        !same_json(
            JsonView::Number(NumberView::Int(i)),
            JsonView::Number(NumberView::Float(s)),
        ),
        same_json(JsonView::Null, JsonView::Null),
        same_json(a, b) ==> {
            &&& a is Null == b is Null
            &&& a is Bool == b is Bool
            &&& a is Number == b is Number
            &&& a is Str == b is Str
            &&& a is Array == b is Array
            &&& a is Object == b is Object
        },
{
}

/// Two arrays are equal exactly where they are as long and equal item by item.
pub proof fn law_arrays_are_equal_item_by_item(
    x: Seq<JsonView>,
    y: Seq<JsonView>,
    a: JsonView,
    b: JsonView,
)
    requires
        x.len() == y.len(),
    ensures
        same_json(JsonView::Array(x.push(a)), JsonView::Array(y.push(b))) == (same_json(
            JsonView::Array(x),
            JsonView::Array(y),
        ) && same_json(a, b)),
        !same_json(JsonView::Array(x.push(a)), JsonView::Array(y)),
{
    let (p, q) = (x.push(a), y.push(b));
    if same_json(JsonView::Array(p), JsonView::Array(q)) {
        assert forall|i: int| 0 <= i < x.len() implies same_json(#[trigger] x[i], y[i]) by {
            assert(p[i] == x[i] && q[i] == y[i]);
            assert(same_json(p[i], q[i]));
        }
        assert(same_json(p[x.len() as int], q[x.len() as int]));
    }
    if same_json(JsonView::Array(x), JsonView::Array(y)) && same_json(a, b) {
        assert forall|i: int| 0 <= i < p.len() implies same_json(#[trigger] p[i], q[i]) by {
            if i < x.len() {
                assert(same_json(x[i], y[i]));
            }
        }
    }
}

/// Two equal objects have the same keys, and equal members under each.
pub proof fn law_equal_objects_have_equal_members(
    x: Map<Seq<char>, JsonView>,
    y: Map<Seq<char>, JsonView>,
    key: Seq<char>,
)
    requires
        same_json(JsonView::Object(x), JsonView::Object(y)),
    ensures
        x.contains_key(key) == y.contains_key(key),
        x.contains_key(key) ==> same_json(x[key], y[key]),
{
    assert(x.dom().contains(key) == y.dom().contains(key));
}

// ---------------------------------------------------------------------------
// What values stand for
// ---------------------------------------------------------------------------
/// A value in plain data stands for what it holds.
pub proof fn law_plain_data_stands_for_itself(
    b: bool,
    i: i64,
    u: u64,
    n: serde_json::Number,
    s: String,
    items: Vec<Json>,
    k: int,
)
    ensures
        Json::Null@ == JsonView::Null,
        Json::Bool(b)@ == JsonView::Bool(b),
        Json::Int(i)@ == JsonView::Number(NumberView::Int(i as int)),
        Json::UInt(u)@ == JsonView::Number(NumberView::Int(u as int)),
        Json::Float(n)@ == JsonView::Number(number_of(n)),
        Json::Str(s)@ == JsonView::Str(s@),
        Json::Array(items)@ == JsonView::Array(array_view(items@)),
        array_view(items@).len() == items@.len(),
        0 <= k < items@.len() ==> array_view(items@)[k] == items@[k]@,
{
}

/// An entry at the end of a list is put into the map that the list stands for; the
/// empty list stands for the empty map.
pub proof fn law_entries_are_put_one_by_one(entries: Seq<(String, Json)>, entry: (String, Json))
    ensures
        object_view(entries.push(entry)) == object_view(entries).insert(entry.0@, entry.1@),
        object_view(Seq::empty()) == Map::<Seq<char>, JsonView>::empty(),
{
    assert(entries.push(entry).drop_last() =~= entries);
}

/// A list of texts as an array has the texts as its items, in order.
pub proof fn law_strings_are_items(list: Seq<Seq<char>>, i: int)
    ensures
        strings_view(list) is Array,
        strings_view(list)->Array_0.len() == list.len(),
        0 <= i < list.len() ==> strings_view(list)->Array_0[i] == JsonView::Str(list[i]),
{
}

// ---------------------------------------------------------------------------
// Views
// ---------------------------------------------------------------------------
/// A view shows what the fields of a value hold, each under its own name.
pub proof fn law_views_show_the_fields(
    ask: Ask,
    out: Outgoing,
    file: FileWrite,
    c: Connection,
    info: InstanceInfo,
    session: Session,
    departure: Departure,
    error: ToolError,
    i: int,
)
    ensures
        ask@.link == ask.link && ask@.id == ask.id && ask@.line == ask.line@ && ask@.timeout_ms
            == ask.timeout_ms,
        out@.link == out.link && out@.line == out.line@,
        file@.path == file.path@ && file@.text == file.text@,
        c@.info == c.info@ && c@.started == c.started@ && c@.link == c.link,
        c.state is Some ==> c@.state == Some(c.state->Some_0@),
        c.state is None ==> c@.state is None,
        info@.pid == info.pid && info@.cwd == info.cwd@ && info@.main_file == info.main_file@
            && info@.version == info.version@,
        info@.buffers.len() == info.buffers@.len(),
        0 <= i < info.buffers@.len() ==> info@.buffers[i] == info.buffers@[i]@,
        session@.link == session.link,
        session.instance_id is Some ==> session@.instance_id == Some(session.instance_id->Some_0@),
        session.instance_id is None ==> session@.instance_id is None,
        departure@.instance_id == departure.instance_id@ && departure@.expected
            == departure.expected && departure@.registry_file == departure.registry_file@,
        error@.kind == error.kind && error@.message == error.message@,
{
}

/// A message is seen as it arrived, field by field.
pub proof fn law_messages_are_seen_as_they_arrived(m: IncomingMessage)
    ensures
        m@.msg_type is Some == m.msg_type is Some,
        m.msg_type is Some ==> m@.msg_type == Some(m.msg_type->Some_0@),
        m@.instance_id is Some == m.instance_id is Some,
        m.instance_id is Some ==> m@.instance_id == Some(m.instance_id->Some_0@),
        m@.info is Some == m.info is Some,
        m.info is Some ==> m@.info == Some(m.info->Some_0@),
        m@.state is Some == m.state is Some,
        m.state is Some ==> m@.state == Some(m.state->Some_0@),
        m@.id == m.id,
        m@.result is Some == m.result is Some,
        m.result is Some ==> m@.result == Some(m.result->Some_0@),
        m@.error is Some == m.error is Some,
        m.error is Some ==> m@.error == Some(m.error->Some_0.message@),
{
}

/// An outcome is seen as it came.
pub proof fn law_outcomes_are_seen_as_they_came(o: Outcome)
    ensures
        o@ is SendFailed == o is SendFailed,
        o@ is Closed == o is Closed,
        o@ is TimedOut == o is TimedOut,
        o@ is Replied == o is Replied,
        o is Replied && o->Replied_0 is Ok ==> o@ == OutcomeView::Replied(
            Ok(o->Replied_0->Ok_0@),
        ),
        o is Replied && o->Replied_0 is Err ==> o@ == OutcomeView::Replied(
            Err(o->Replied_0->Err_0.message@),
        ),
{
}

/// The step of a command is seen with what it carries.
pub proof fn law_command_steps_are_seen_whole(step: CommandStep)
    ensures
        match step {
            CommandStep::Done(Ok(text)) => step@ == CommandStepView::Done(Ok(text@)),
            CommandStep::Done(Err(e)) => step@ == CommandStepView::Done(Err(e@)),
            CommandStep::Ask(wait, ask) => step@ == CommandStepView::Ask(wait@, ask@),
            CommandStep::Send(wait, out) => step@ == CommandStepView::Send(wait@, out@),
            CommandStep::Sleep(wait, ms) => step@ == CommandStepView::Sleep(wait@, ms),
        },
{
}

/// The step of a call is seen with what it carries.
pub proof fn law_call_steps_are_seen_whole(step: ToolStep)
    ensures
        match step {
            ToolStep::Done { write, result } => {
                &&& step@ is Done
                &&& step@->Done_write is Some == write is Some
                &&& write is Some ==> step@->Done_write == Some(write->Some_0@)
                &&& step@->Done_result is Ok == result is Ok
                &&& result is Ok ==> step@->Done_result->Ok_0 == result->Ok_0@
                &&& result is Err ==> step@->Done_result->Err_0 == result->Err_0@
            },
            ToolStep::Ask(wait, ask) => step@ == ToolStepView::Ask(wait@, ask@),
            ToolStep::Send(send, out) => step@ == ToolStepView::Send(
                send.purpose,
                send.wait@,
                out@,
            ),
            ToolStep::Sleep(sleep, ms) => step@ == ToolStepView::Sleep(
                sleep.purpose,
                sleep.wait@,
                ms,
            ),
        },
{
}

/// What is remembered of a command is seen field by field.
pub proof fn law_waiting_commands_are_seen_whole(
    reply: CommandReply,
    send: CommandSend,
    sleep: CommandSleep,
)
    ensures
        match reply {
            CommandReply::Before { instance_id, command, link, id } => reply@ == (
            CommandReplyView::Before { instance_id: instance_id@, command: command@, link, id }),
            CommandReply::After { instance_id, command, before, link, id } => reply@ == (
            CommandReplyView::After {
                instance_id: instance_id@,
                command: command@,
                before: before@,
                link,
                id,
            }),
        },
        match send {
            CommandSend::Exit { instance_id } => send@ == (CommandSendView::Exit {
                instance_id: instance_id@,
            }),
            CommandSend::Judged { instance_id, command, before } => send@ == (
            CommandSendView::Judged {
                instance_id: instance_id@,
                command: command@,
                before: before@,
            }),
        },
        match sleep {
            CommandSleep::Exit { instance_id, polls } => sleep@ == (CommandSleepView::Exit {
                instance_id: instance_id@,
                polls,
            }),
            CommandSleep::Judged { instance_id, command, before } => sleep@ == (
            CommandSleepView::Judged {
                instance_id: instance_id@,
                command: command@,
                before: before@,
            }),
        },
{
}

/// What is remembered of a call is seen field by field.
pub proof fn law_waiting_calls_are_seen_whole(reply: ToolReply)
    ensures
        match reply {
            ToolReply::Command { purpose, wait } => reply@ == (ToolReplyView::Command {
                purpose,
                wait: wait@,
            }),
            ToolReply::State { instance_id, link, id } => reply@ == (ToolReplyView::State {
                instance_id: instance_id@,
                link,
                id,
            }),
            ToolReply::ExitCheck { instance_id, link, id } => reply@ == (
            ToolReplyView::ExitCheck { instance_id: instance_id@, link, id }),
            ToolReply::SearchHelp { instance_id, query, link, id } => reply@ == (
            ToolReplyView::SearchHelp { instance_id: instance_id@, query: query@, link, id }),
            ToolReply::RecordMacro { instance_id, sequence, register, execute, link, id } => reply@
                == (ToolReplyView::RecordMacro {
                instance_id: instance_id@,
                sequence: sequence@,
                register: register@,
                execute,
                link,
                id,
            }),
            ToolReply::Resource { instance_id, uri, link, id } => reply@ == (
            ToolReplyView::Resource { instance_id: instance_id@, uri: uri@, link, id }),
        },
{
}

/// What a message calls for is seen field by field.
pub proof fn law_reactions_are_seen_whole(reaction: Reaction)
    ensures
        match reaction {
            Reaction::Nothing => reaction@ == ReactionView::Nothing,
            Reaction::Registered { instance_id, registry_file, ack, preference_file } => {
                &&& reaction@ is Registered
                &&& reaction@->instance_id == instance_id@
                &&& reaction@->registry_file == registry_file@
                &&& reaction@->ack == ack@
                &&& reaction@->preference_file is Some == preference_file is Some
                &&& preference_file is Some ==> reaction@->preference_file == Some(
                    preference_file->Some_0@,
                )
            },
            Reaction::Deliver { id, reply: Ok(value) } => reaction@ == (ReactionView::Deliver {
                id,
                reply: Ok(value@),
            }),
            Reaction::Deliver { id, reply: Err(e) } => reaction@ == (ReactionView::Deliver {
                id,
                reply: Err(e.message@),
            }),
        },
{
}

/// The start and the end of a request are seen as they are.
pub proof fn law_request_results_are_seen_whole(
    asked: Result<Ask, String>,
    ended: Result<Json, String>,
)
    ensures
        asked is Ok ==> ask_result(asked) == Ok::<AskView, Seq<char>>(asked->Ok_0@),
        asked is Err ==> ask_result(asked) == Err::<AskView, Seq<char>>(asked->Err_0@),
        ended is Ok ==> value_result(ended) == Ok::<JsonView, Seq<char>>(ended->Ok_0@),
        ended is Err ==> value_result(ended) == Err::<JsonView, Seq<char>>(ended->Err_0@),
{
}

/// A tool and a resource are seen as they are announced.
pub proof fn law_announcements_are_seen_whole(tool: Tool, resource: Resource)
    ensures
        tool@.name == tool.name@ && tool@.description == tool.description@ && tool@.schema
            == tool.schema@,
        resource@.uri == resource.uri@ && resource@.name == resource.name@,
{
}

// ---------------------------------------------------------------------------
// Lines
// ---------------------------------------------------------------------------
/// Whether `m` has the keys of the list and no others.
pub open spec fn has_just(m: Map<Seq<char>, JsonView>, keys: Seq<Seq<char>>) -> bool {
    forall|k: Seq<char>| #[trigger] m.contains_key(k) <==> keys.contains(k)
}

/// Whether a line carries a request: it is the compact text of an object with the
/// id, the method and the params, and nothing else, and ends in a line break.
pub open spec fn carries_request(
    line: Seq<char>,
    id: int,
    method: Seq<char>,
    params: JsonView,
) -> bool {
    exists|m: Map<Seq<char>, JsonView>|
        {
            &&& line == (#[trigger] compact_text(JsonView::Object(m))).push('\n')
            &&& has_just(m, seq!["id"@, "method"@, "params"@])
            &&& m["id"@] == JsonView::Number(NumberView::Int(id))
            &&& m["method"@] == JsonView::Str(method)
            &&& m["params"@] == params
        }
}

/// The line of a request carries the request.
pub proof fn law_request_line_carries_the_request(
    id: i64,
    method: Seq<char>,
    params: JsonView,
)
    ensures
        carries_request(request_line(id, method, params), id as int, method, params),
{
    reveal_strlit("id");
    reveal_strlit("method");
    reveal_strlit("params");
    reveal_strlit("\n");
    let m = map![
        "id"@ => JsonView::Number(NumberView::Int(id as int)),
        "method"@ => JsonView::Str(method),
        "params"@ => params,
    ];
    let keys = seq!["id"@, "method"@, "params"@];
    assert(keys[0] == "id"@ && keys[1] == "method"@ && keys[2] == "params"@);
    assert("id"@.len() == 2 && "method"@[0] == 'm' && "params"@[0] == 'p');
    assert(compact_text(JsonView::Object(m)) + "\n"@ =~= compact_text(JsonView::Object(m)).push(
        '\n',
    ));
}

/// The line that runs a command carries the request to do so, with the command as it
/// was given as its only parameter, and under the number zero.
pub proof fn law_command_line_carries_the_command(command: Seq<char>)
    ensures
        carries_request(
            command_line(command),
            0,
            "execute_command"@,
            JsonView::Object(Map::empty().insert("command"@, JsonView::Str(command))),
        ),
{
    law_request_line_carries_the_request(
        0,
        "execute_command"@,
        JsonView::Object(map!["command"@ => JsonView::Str(command)]),
    );
    assert(map!["command"@ => JsonView::Str(command)] =~= Map::empty().insert(
        "command"@,
        JsonView::Str(command),
    ));
}

/// The line of an acknowledgment has the type first and the id of the instance
/// second, each as JSON.
pub proof fn law_acknowledgment_names_the_instance(kind: Seq<char>, id: Seq<char>)
    ensures
        registered_line(kind, id) == "{\"type\":"@ + compact_text(JsonView::Str(kind))
            + ",\"instance_id\":"@ + compact_text(JsonView::Str(id)) + "}\n"@,
{
}

/// A text with a line break behind it is a line of the protocol exactly where it has
/// none in it; without one behind it is none.
pub proof fn law_line_has_one_break_at_its_end(text: Seq<char>, c: char)
    ensures
        framed(text.push('\n')) <==> !text.contains('\n'),
        framed(text.push(c)) ==> c == '\n',
        !framed(Seq::empty()),
{
    assert(text.push('\n').drop_last() =~= text);
}

} // verus!
