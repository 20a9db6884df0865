//! What holds of every state: of registrations and departures, of requests and
//! their answers, and of commands from start to end.

use crate::bridge::carried_reply;
use crate::bridge::judged_result;
use crate::bridge::on_disconnect;
use crate::bridge::on_line;
use crate::bridge::on_message;
use crate::bridge::on_register;
use crate::bridge::on_reply;
use crate::bridge::on_sent;
use crate::bridge::on_woke;
use crate::bridge::start_command;
use crate::bridge::start_exit;
use crate::bridge::CommandReplyView;
use crate::bridge::CommandSendView;
use crate::bridge::CommandSleepView;
use crate::bridge::CommandStepView;
use crate::bridge::DepartureView;
use crate::bridge::OutgoingView;
use crate::bridge::ReactionView;
use crate::bridge::SessionView;
use crate::bridge::EXIT_POLLS;
use crate::bridge::EXIT_POLL_MS;
use crate::bridge::SETTLE_MS;
use crate::commands::is_exit;
use crate::json::JsonView;
use crate::protocol::command_line;
use crate::protocol::request_line;
use crate::protocol::IncomingMessageView;
use crate::registry::following;
use crate::registry::lemma_all_but_one;
use crate::registry::lemma_all_but_pushed;
use crate::registry::lemma_put_valid;
use crate::registry::lemma_without_valid;
use crate::registry::nobody;
use crate::registry::AskView;
use crate::registry::ConnectionView;
use crate::registry::FileWriteView;
use crate::registry::OutcomeView;
use crate::registry::RegistryView;
use crate::serde_values::compact_text;
use crate::text::trim;
use vstd::prelude::*;

verus! {

// ---------------------------------------------------------------------------
// Validity
// ---------------------------------------------------------------------------
/// Every message and every departure keeps the state valid: the selected instance
/// and those that were told to exit are connected.
pub proof fn law_events_keep_valid(
    r: RegistryView,
    s: SessionView,
    m: IncomingMessageView,
    started: Seq<char>,
)
    requires
        r.valid(),
    ensures
        on_message(r, s, m, started).0.valid(),
        on_disconnect(r, s).0.valid(),
{
    match (m.instance_id, m.info) {
        (Some(id), Some(info)) => {
            lemma_put_valid(r, id, ConnectionView { info, started, link: s.link, state: None });
        },
        _ => {},
    }
    match (s.instance_id, m.state) {
        (Some(id), Some(state)) => {
            lemma_cache_valid(r, id, state);
        },
        _ => {},
    }
    match s.instance_id {
        Some(id) => {
            lemma_without_valid(r, id);
        },
        None => {},
    }
}

proof fn lemma_cache_valid(r: RegistryView, id: Seq<char>, state: JsonView)
    requires
        r.valid(),
    ensures
        r.cache(id, state).valid(),
{
    match r.lookup(id) {
        Some(c) => {
            lemma_put_valid(r, id, ConnectionView { state: Some(state), ..c });
        },
        None => {},
    }
}

proof fn lemma_finish_valid(
    r: RegistryView,
    instance_id: Seq<char>,
    link: u64,
    id: i64,
    outcome: OutcomeView,
)
    requires
        r.valid(),
    ensures
        r.finish_state(instance_id, link, id, outcome).0.valid(),
{
    let (next, result) = r.finish_request(instance_id, link, id, outcome);
    match result {
        Ok(state) => {
            lemma_cache_valid(next, instance_id, state);
        },
        Err(_) => {},
    }
}

/// Every step of a command keeps the state valid.
pub proof fn law_commands_keep_valid(
    r: RegistryView,
    instance_id: Seq<char>,
    command: Seq<char>,
    reply: CommandReplyView,
    outcome: OutcomeView,
    sleep: CommandSleepView,
)
    requires
        r.valid(),
    ensures
        start_command(r, instance_id, command).0.valid(),
        on_reply(r, reply, outcome).0.valid(),
        on_woke(r, sleep).0.valid(),
{
    match reply {
        CommandReplyView::Before { instance_id, command, link, id } => {
            lemma_finish_valid(r, instance_id, link, id, outcome);
        },
        CommandReplyView::After { instance_id, command, before, link, id } => {
            lemma_finish_valid(r, instance_id, link, id, outcome);
        },
    }
}

// ---------------------------------------------------------------------------
// Registrations and departures
// ---------------------------------------------------------------------------
/// An instance that registers is connected with what it told, on the link on which
/// it did so, and with no state yet; every other instance stays as it was.
pub proof fn law_registered_is_connected(
    r: RegistryView,
    s: SessionView,
    m: IncomingMessageView,
    started: Seq<char>,
    other: Seq<char>,
)
    requires
        r.valid(),
        m.msg_type == Some("register"@),
        m.instance_id is Some,
        m.info is Some,
    ensures
        ({
            let (next, session, _) = on_message(r, s, m, started);
            let id = m.instance_id->Some_0;
            &&& next.lookup(id) == Some(
                ConnectionView { info: m.info->Some_0, started, link: s.link, state: None },
            )
            &&& session.instance_id == Some(id)
            &&& other != id ==> next.lookup(other) == r.lookup(other)
            &&& next.pending == r.pending
            &&& next.pending_exits == r.pending_exits
        }),
{
}

/// An instance that registers is selected where it is then the only one; otherwise
/// the selection stays as it was.
pub proof fn law_only_instance_is_selected(
    r: RegistryView,
    s: SessionView,
    id: Seq<char>,
    c: ConnectionView,
)
    requires
        r.valid(),
    ensures
        ({
            let (next, _, reaction) = on_register(r, s, id, c);
            let only = forall|other: Seq<char>| #[trigger]
                r.connections.contains_key(other) ==> other == id;
            &&& only ==> next.selected == Some(id) && reaction->preference_file is Some
            &&& !only ==> next.selected == r.selected && reaction->preference_file is None
        }),
{
    let joined = r.put(id, c);
    lemma_put_valid(r, id, c);
    let only = forall|other: Seq<char>| #[trigger]
        r.connections.contains_key(other) ==> other == id;
    assert(joined.order.contains(id));
    let at = choose|at: int| 0 <= at < joined.order.len() && joined.order[at] == id;
    if only {
        assert forall|i: int| 0 <= i < joined.order.len() implies joined.order[i] == id by {
            assert(joined.order.contains(joined.order[i]));
        }
        if joined.order.len() > 1 {
            assert(joined.order[0] == joined.order[1]);
        }
    } else {
        let other = choose|other: Seq<char>| #[trigger]
            r.connections.contains_key(other) && other != id;
        assert(joined.order.contains(other));
        let i = choose|i: int| 0 <= i < joined.order.len() && joined.order[i] == other;
        assert(i != at);
    }
}

/// An instance whose link ends is gone, and no longer selected or told to exit;
/// every other instance stays as it was, and so does the selection of another.
pub proof fn law_departed_is_gone(r: RegistryView, s: SessionView, other: Seq<char>)
    requires
        r.valid(),
        s.instance_id is Some,
    ensures
        ({
            let (next, departure) = on_disconnect(r, s);
            let id = s.instance_id->Some_0;
            &&& next.lookup(id) is None
            &&& !next.pending_exits.contains(id)
            &&& next.selected != Some(id)
            &&& r.selected != Some(id) ==> next.selected == r.selected
            &&& other != id ==> next.lookup(other) == r.lookup(other)
            &&& other != id ==> next.pending_exits.contains(other) == r.pending_exits.contains(other)
            &&& next.pending == r.pending
            &&& departure is Some
            &&& departure->Some_0.instance_id == id
            &&& departure->Some_0.expected == r.pending_exits.contains(id)
        }),
{
}

/// The end of a link undoes the registration of an instance that was not there
/// before: the state is what it was.
pub proof fn law_departure_undoes_registration(
    r: RegistryView,
    s: SessionView,
    id: Seq<char>,
    c: ConnectionView,
)
    requires
        r.valid(),
        !r.connections.contains_key(id),
    ensures
        ({
            let (joined, session, _) = on_register(r, s, id, c);
            on_disconnect(joined, session).0 == r
        }),
{
    let (joined, session, _) = on_register(r, s, id, c);
    let back = on_disconnect(joined, session).0;
    assert(!r.order.contains(id));
    lemma_all_but_pushed(r.order, id);
    assert(back.connections =~= r.connections);
    assert(!r.pending_exits.contains(id));
    assert(back.pending_exits =~= r.pending_exits);
    if joined.order.len() == 1 {
        if r.selected is Some {
            assert(r.order.contains(r.selected->Some_0));
        }
    }
    assert(back =~= r);
}

/// The registry file that a registration or a departure writes lists exactly the
/// instances that are then connected.
pub proof fn law_registry_file_lists_the_connected(
    r: RegistryView,
    s: SessionView,
    m: IncomingMessageView,
    started: Seq<char>,
    id: Seq<char>,
)
    ensures
        ({
            let (next, _, reaction) = on_message(r, s, m, started);
            reaction is Registered ==> {
                &&& reaction->registry_file == next.registry_file()
                &&& next.record().get(id) is Some <==> next.lookup(id) is Some
            }
        }),
        ({
            let (next, departure) = on_disconnect(r, s);
            departure is Some ==> {
                &&& departure->Some_0.registry_file == next.registry_file()
                &&& next.record().get(id) is Some <==> next.lookup(id) is Some
            }
        }),
{
    let (next, _, reaction) = on_message(r, s, m, started);
    if reaction is Registered {
        let joined = r.put(m.instance_id->Some_0, next.connections[m.instance_id->Some_0]);
        assert(next.connections == joined.connections);
        assert(next.record()->Object_0 =~= joined.record()->Object_0);
    }
}

/// The end of a link on which nobody registered changes nothing.
pub proof fn law_stranger_leaves_no_trace(r: RegistryView, s: SessionView)
    requires
        s.instance_id is None,
    ensures
        on_disconnect(r, s) == (r, None::<DepartureView>),
{
}

// ---------------------------------------------------------------------------
// Requests and answers
// ---------------------------------------------------------------------------
/// Whether a message is a push, by its type.
pub open spec fn is_push(m: IncomingMessageView) -> bool {
    m.msg_type == Some("register"@) || m.msg_type == Some("state_update"@)
}

/// A push, which has one of the two types, never answers a request; any other
/// message never touches the instances, the selection or the expected exits.
pub proof fn law_type_tells_pushes_from_answers(
    r: RegistryView,
    s: SessionView,
    m: IncomingMessageView,
    started: Seq<char>,
)
    ensures
        ({
            let (next, session, reaction) = on_message(r, s, m, started);
            &&& is_push(m) ==> !(reaction is Deliver) && next.pending == r.pending
            &&& !is_push(m) ==> next == (RegistryView { pending: next.pending, ..r }) && session == s && !(
            reaction is Registered)
        }),
{
    assert(r =~= RegistryView { pending: r.pending, ..r });
}

/// A message with neither a push type nor an id does nothing.
pub proof fn law_no_id_no_answer(
    r: RegistryView,
    s: SessionView,
    m: IncomingMessageView,
    started: Seq<char>,
)
    requires
        !is_push(m),
        m.id is None,
    ensures
        on_message(r, s, m, started) == (r, s, ReactionView::Nothing),
{
}

/// A request to a connected instance goes out on that instance's link under a
/// number of its own; the first answer that bears the number on that link is
/// handed over, and none after it.
pub proof fn law_request_is_answered_once(
    r: RegistryView,
    instance_id: Seq<char>,
    method: Seq<char>,
    params: JsonView,
    timeout_ms: u64,
    s: SessionView,
    m: IncomingMessageView,
    started: Seq<char>,
)
    requires
        r.connections.contains_key(instance_id),
        s.link == r.connections[instance_id].link,
        m.id == Some(r.next_id),
        !is_push(m),
    ensures
        ({
            let (asked, ask) = r.request(instance_id, method, params, timeout_ms);
            let (answered, _, reaction) = on_message(asked, s, m, started);
            &&& ask == Ok::<AskView, Seq<char>>(
                AskView {
                    link: s.link,
                    id: r.next_id,
                    line: request_line(r.next_id, method, params),
                    timeout_ms,
                },
            )
            &&& reaction == (ReactionView::Deliver { id: r.next_id, reply: carried_reply(m) })
            &&& on_message(answered, s, m, started) == (answered, s, ReactionView::Nothing)
        }),
{
}

/// A message settles no request but the one that it answers.
pub proof fn law_answers_leave_other_requests(
    r: RegistryView,
    s: SessionView,
    m: IncomingMessageView,
    started: Seq<char>,
    link: u64,
    id: i64,
)
    requires
        link != s.link || m.id != Some(id),
    ensures
        on_message(r, s, m, started).0.pending.contains((link, id)) == r.pending.contains(
            (link, id),
        ),
{
}

/// An answer on another link is not taken for the answer to a request.
pub proof fn law_answers_stay_on_their_link(
    r: RegistryView,
    instance_id: Seq<char>,
    method: Seq<char>,
    params: JsonView,
    timeout_ms: u64,
    s: SessionView,
    m: IncomingMessageView,
    started: Seq<char>,
)
    requires
        r.connections.contains_key(instance_id),
        s.link != r.connections[instance_id].link,
        !r.pending.contains((s.link, r.next_id)),
        m.id == Some(r.next_id),
        !is_push(m),
    ensures
        ({
            let (asked, _) = r.request(instance_id, method, params, timeout_ms);
            on_message(asked, s, m, started) == (asked, s, ReactionView::Nothing)
        }),
{
}

/// A request that ended without an answer is no longer awaited, whether its line
/// could not be sent, its connection closed or its time ran out: an answer that
/// comes later is passed over.
pub proof fn law_late_answers_are_passed_over(
    r: RegistryView,
    instance_id: Seq<char>,
    s: SessionView,
    id: i64,
    outcome: OutcomeView,
    m: IncomingMessageView,
    started: Seq<char>,
)
    requires
        !(outcome is Replied),
        m.id == Some(id),
        !is_push(m),
    ensures
        ({
            let (next, result) = r.finish_request(instance_id, s.link, id, outcome);
            &&& result is Err
            &&& !next.pending.contains((s.link, id))
            &&& on_message(next, s, m, started) == (next, s, ReactionView::Nothing)
        }),
{
}

/// Only a request that is under way is awaited: one that cannot be sent leaves the
/// awaited requests as they were.
pub proof fn law_unsent_request_leaves_nothing_pending(
    r: RegistryView,
    instance_id: Seq<char>,
    method: Seq<char>,
    params: JsonView,
    timeout_ms: u64,
)
    requires
        r.connections.contains_key(instance_id),
        !r.pending.contains((r.connections[instance_id].link, r.next_id)),
    ensures
        ({
            let (asked, ask) = r.request(instance_id, method, params, timeout_ms);
            let (next, result) = asked.finish_request(
                instance_id,
                ask->Ok_0.link,
                ask->Ok_0.id,
                OutcomeView::SendFailed,
            );
            &&& result == Err::<JsonView, Seq<char>>("Instance "@ + instance_id + " disconnected"@)
            &&& next.pending == r.pending
        }),
{
    let key = (r.connections[instance_id].link, r.next_id);
    assert(r.pending.insert(key).remove(key) =~= r.pending);
}

/// A request to an instance that is not connected sends nothing and changes
/// nothing.
pub proof fn law_absent_instance_is_not_asked(
    r: RegistryView,
    instance_id: Seq<char>,
    method: Seq<char>,
    params: JsonView,
    timeout_ms: u64,
)
    requires
        !r.connections.contains_key(instance_id),
    ensures
        r.request(instance_id, method, params, timeout_ms) == (
            r,
            Err::<AskView, Seq<char>>("Instance "@ + instance_id + " not connected"@),
        ),
{
}

/// The number that follows `id` after `n` requests.
pub open spec fn id_after(id: i64, n: nat) -> i64
    decreases n,
{
    if n == 0 {
        id
    } else {
        following(id_after(id, (n - 1) as nat))
    }
}

proof fn lemma_id_after(id: i64, n: nat)
    ensures
        id_after(id, n) - i64::MIN == (id - i64::MIN + n) % 0x1_0000_0000_0000_0000,
    decreases n,
{
    if n > 0 {
        lemma_id_after(id, (n - 1) as nat);
    }
}

/// Numbers that start at zero count up, as long as they have no more than 63 bits.
pub proof fn law_ids_count_from_zero(n: nat)
    requires
        n < 0x8000_0000_0000_0000,
    ensures
        id_after(0, n) == n,
{
    lemma_id_after(0, n);
}

/// No two of any 2^64 requests in a row have the same number.
pub proof fn law_request_ids_differ(id: i64, m: nat, n: nat)
    requires
        m < n < m + 0x1_0000_0000_0000_0000,
    ensures
        id_after(id, m) != id_after(id, n),
{
    lemma_id_after(id, m);
    lemma_id_after(id, n);
}

// ---------------------------------------------------------------------------
// Runs of lines
// ---------------------------------------------------------------------------
/// A line that arrives on a link: its text, the message that it holds where it
/// holds one, and the marker of the moment.
pub struct LineView {
    pub text: Seq<char>,
    pub message: Option<IncomingMessageView>,
    pub started: Seq<char>,
}

/// Whether a line is passed over: it is blank, holds no message, or is a
/// registration without an id or without what it tells of the instance.
pub open spec fn is_passed_over(line: LineView) -> bool {
    ||| trim(line.text).len() == 0
    ||| line.message is None
    ||| {
        let m = line.message->Some_0;
        m.msg_type == Some("register"@) && (m.instance_id is None || m.info is None)
    }
}

/// What the lines of a link do, one after the other: the state, the session, and
/// what they called for.
pub open spec fn run(r: RegistryView, s: SessionView, lines: Seq<LineView>) -> (
    RegistryView,
    SessionView,
    Seq<ReactionView>,
)
    decreases lines.len(),
{
    if lines.len() == 0 {
        (r, s, Seq::empty())
    } else {
        let (before, session, done) = run(r, s, lines.drop_last());
        let line = lines.last();
        let (after, next, reaction) = on_line(
            before,
            session,
            line.text,
            line.message,
            line.started,
        );
        (
            after,
            next,
            if reaction is Nothing {
                done
            } else {
                done.push(reaction)
            },
        )
    }
}

/// A line that is passed over changes nothing and calls for nothing.
pub proof fn law_passed_over_line_does_nothing(r: RegistryView, s: SessionView, line: LineView)
    requires
        is_passed_over(line),
    ensures
        on_line(r, s, line.text, line.message, line.started) == (r, s, ReactionView::Nothing),
{
}

/// Lines that are passed over do not change a run: without them the registry, the
/// requests that are awaited, what is sent back and what the end of the link does
/// are the same.
pub proof fn law_passed_over_lines_change_no_run(
    r: RegistryView,
    s: SessionView,
    lines: Seq<LineView>,
)
    ensures
        ({
            let kept = lines.filter(|line: LineView| !is_passed_over(line));
            &&& run(r, s, lines) == run(r, s, kept)
            &&& on_disconnect(run(r, s, lines).0, run(r, s, lines).1) == on_disconnect(
                run(r, s, kept).0,
                run(r, s, kept).1,
            )
        }),
    decreases lines.len(),
{
    reveal(Seq::filter);
    let keeps = |line: LineView| !is_passed_over(line);
    if lines.len() > 0 {
        let front = lines.drop_last();
        let line = lines.last();
        law_passed_over_lines_change_no_run(r, s, front);
        if is_passed_over(line) {
            let (before, session, _) = run(r, s, front);
            law_passed_over_line_does_nothing(before, session, line);
            assert(lines.filter(keeps) == front.filter(keeps));
        } else {
            assert(lines.filter(keeps) == front.filter(keeps).push(line));
            assert(front.filter(keeps).push(line).drop_last() =~= front.filter(keeps));
        }
    } else {
        assert(lines.filter(keeps) =~= lines);
    }
}

// ---------------------------------------------------------------------------
// The cached state
// ---------------------------------------------------------------------------
/// A state that an instance pushed is the one that is cached for it; the other
/// instances keep theirs.
pub proof fn law_pushed_state_is_cached(
    r: RegistryView,
    s: SessionView,
    m: IncomingMessageView,
    started: Seq<char>,
    other: Seq<char>,
)
    requires
        m.msg_type == Some("state_update"@),
        m.state is Some,
        s.instance_id is Some,
        r.connections.contains_key(s.instance_id->Some_0),
    ensures
        ({
            let id = s.instance_id->Some_0;
            let next = on_message(r, s, m, started).0;
            &&& next.lookup(id) == Some(ConnectionView { state: m.state, ..r.connections[id] })
            &&& other != id ==> next.lookup(other) == r.lookup(other)
        }),
{
    reveal_strlit("register");
    reveal_strlit("state_update");
    assert("register"@.len() != "state_update"@.len());
}

/// A state that was asked for is given back and cached.
pub proof fn law_asked_state_is_cached(
    r: RegistryView,
    instance_id: Seq<char>,
    link: u64,
    id: i64,
    state: JsonView,
)
    requires
        r.connections.contains_key(instance_id),
    ensures
        ({
            let (next, result) = r.finish_state(
                instance_id,
                link,
                id,
                OutcomeView::Replied(Ok(state)),
            );
            &&& result == Ok::<JsonView, Seq<char>>(state)
            &&& next.lookup(instance_id) == Some(
                ConnectionView { state: Some(state), ..r.connections[instance_id] },
            )
        }),
{
}

// ---------------------------------------------------------------------------
// Commands
// ---------------------------------------------------------------------------
/// An exit command that reaches its instance is sent on the instance's link. When
/// the link then ends, that is an expected departure, and the command succeeds.
pub proof fn law_exit_succeeds_by_departure(
    r: RegistryView,
    instance_id: Seq<char>,
    command: Seq<char>,
    s: SessionView,
    polls: u64,
)
    requires
        r.valid(),
        r.connections.contains_key(instance_id),
        is_exit(command),
        s.instance_id == Some(instance_id),
    ensures
        ({
            let (told, step) = start_command(r, instance_id, command);
            let (gone, departure) = on_disconnect(told, s);
            &&& step == CommandStepView::Send(
                CommandSendView::Exit { instance_id },
                OutgoingView {
                    link: r.connections[instance_id].link,
                    line: command_line(command),
                },
            )
            &&& departure is Some
            &&& departure->Some_0.expected
            &&& on_woke(gone, CommandSleepView::Exit { instance_id, polls }) == (
                gone,
                CommandStepView::Done(Ok("Vim exited successfully"@)),
            )
        }),
{
}

/// What an exit command does in `n` looks, while the state stays `r`.
pub open spec fn after_looks(r: RegistryView, instance_id: Seq<char>, n: nat) -> (
    RegistryView,
    CommandStepView,
)
    decreases n,
{
    if n == 0 {
        (r, on_sent(CommandSendView::Exit { instance_id }, true))
    } else {
        match after_looks(r, instance_id, (n - 1) as nat) {
            (next, CommandStepView::Sleep(sleep, _)) => on_woke(next, sleep),
            other => other,
        }
    }
}

/// An exit command whose instance stays connected looks forty times, each after
/// fifty milliseconds; then it gives up, and the instance is no longer expected to
/// exit.
pub proof fn law_exit_gives_up(r: RegistryView, instance_id: Seq<char>, n: nat)
    requires
        r.connections.contains_key(instance_id),
        n <= EXIT_POLLS,
    ensures
        EXIT_POLLS == 40,
        EXIT_POLL_MS == 50,
        after_looks(r, instance_id, n) == if n < EXIT_POLLS {
            (
                r,
                CommandStepView::Sleep(
                    CommandSleepView::Exit { instance_id, polls: n as u64 },
                    EXIT_POLL_MS,
                ),
            )
        } else {
            (
                r.unmark_exit(instance_id),
                CommandStepView::Done(Err("Timeout waiting for Vim to exit"@)),
            )
        },
    decreases n,
{
    if n > 0 {
        law_exit_gives_up(r, instance_id, (n - 1) as nat);
    }
}

/// Giving up on an exit takes back what telling the instance to exit did, where it
/// had not been told before.
pub proof fn law_giving_up_takes_the_mark_back(
    r: RegistryView,
    instance_id: Seq<char>,
    command: Seq<char>,
)
    requires
        r.connections.contains_key(instance_id),
        !r.pending_exits.contains(instance_id),
    ensures
        start_exit(r, instance_id, command).0.unmark_exit(instance_id) == r,
{
    let told = start_exit(r, instance_id, command).0;
    assert(told.unmark_exit(instance_id).pending_exits =~= r.pending_exits);
    assert(told.unmark_exit(instance_id) =~= r);
}

/// A command that does not end Vim runs from its start to its result: the state is
/// asked for, the command is sent, and after half a second the state is asked for
/// again. What is said follows from the two states, and the second is cached.
pub proof fn law_judged_run(
    r: RegistryView,
    instance_id: Seq<char>,
    command: Seq<char>,
    before: JsonView,
    after: JsonView,
)
    requires
        r.connections.contains_key(instance_id),
        !is_exit(command),
    ensures
        ({
            let (r1, step1) = start_command(r, instance_id, command);
            let (r2, step2) = on_reply(r1, step1->Ask_0, OutcomeView::Replied(Ok(before)));
            let step3 = on_sent(step2->Send_0, true);
            let (r4, step4) = on_woke(r2, step3->Sleep_0);
            let (r5, step5) = on_reply(r4, step4->Ask_0, OutcomeView::Replied(Ok(after)));
            let link = r.connections[instance_id].link;
            &&& step1 is Ask
            &&& step1->Ask_1.link == link
            &&& step2 is Send
            &&& step2->Send_1 == OutgoingView { link, line: command_line(command) }
            &&& step3 is Sleep
            &&& step3->Sleep_1 == 500
            &&& step4 is Ask
            &&& step4->Ask_1.link == link
            &&& step5 == CommandStepView::Done(judged_result(command, before, after))
            &&& r5.lookup(instance_id) == Some(
                ConnectionView { state: Some(after), ..r.connections[instance_id] },
            )
            &&& r5.selected == r.selected
            &&& r5.pending_exits == r.pending_exits
        }),
{
    let (r1, step1) = start_command(r, instance_id, command);
    let ask1 = step1->Ask_1;
    assert(r1.connections == r.connections);
    let (r2, step2) = on_reply(r1, step1->Ask_0, OutcomeView::Replied(Ok(before)));
    assert(step2 is Send);
    assert(r2.connections.contains_key(instance_id));
    let step3 = on_sent(step2->Send_0, true);
    assert(SETTLE_MS == 500);
    let (r4, step4) = on_woke(r2, step3->Sleep_0);
    assert(r4.connections == r2.connections);
}

/// A command whose line cannot be sent fails, and does not wait.
pub proof fn law_unsent_command_fails(wait: CommandSendView)
    ensures
        on_sent(wait, false) == CommandStepView::Done(Err("Instance disconnected"@)),
{
}

// ---------------------------------------------------------------------------
// What is told and kept
// ---------------------------------------------------------------------------
/// A new server has nobody connected, nothing selected and nothing awaited.
pub proof fn law_new_server_is_empty(id: Seq<char>, link: u64, number: i64)
    ensures
        nobody().lookup(id) is None,
        nobody().order.len() == 0,
        nobody().selected is None,
        !nobody().pending_exits.contains(id),
        !nobody().pending.contains((link, number)),
        nobody().valid(),
{
}

/// An instance that was not there comes last in order; one that was there keeps its
/// place.
pub proof fn law_new_instances_come_last(
    r: RegistryView,
    s: SessionView,
    id: Seq<char>,
    c: ConnectionView,
)
    ensures
        ({
            let next = on_register(r, s, id, c).0;
            &&& r.connections.contains_key(id) ==> next.order == r.order
            &&& !r.connections.contains_key(id) ==> next.order == r.order + seq![id]
            &&& next.next_id == r.next_id
        }),
{
    assert(r.order.push(id) =~= r.order + seq![id]);
}

/// An instance that leaves is taken out of the order; the others keep theirs.
pub proof fn law_departure_keeps_the_order(
    r: RegistryView,
    s: SessionView,
    id: Seq<char>,
    a: Seq<Seq<char>>,
    b: Seq<Seq<char>>,
)
    requires
        r.order == a + seq![id] + b,
        r.order.no_duplicates(),
        s.instance_id == Some(id),
    ensures
        on_disconnect(r, s).0.order == a + b,
{
    assert(r.order[a.len() as int] == id);
    lemma_all_but_one(r.order, a.len() as int, id);
    assert(r.order.remove(a.len() as int) =~= a + b);
}

/// A registration is acknowledged by its id; the registry file is written, and the
/// preference file where the instance is selected.
pub proof fn law_registration_is_acknowledged(
    r: RegistryView,
    s: SessionView,
    id: Seq<char>,
    c: ConnectionView,
)
    ensures
        ({
            let (next, session, reaction) = on_register(r, s, id, c);
            &&& session == SessionView { link: s.link, instance_id: Some(id) }
            &&& reaction is Registered
            &&& reaction->instance_id == id
            &&& reaction->ack == "{\"type\":"@ + compact_text(JsonView::Str("registered"@))
                + ",\"instance_id\":"@ + compact_text(JsonView::Str(id)) + "}\n"@
            &&& reaction->preference_file is Some ==> reaction->preference_file->Some_0 == (
                FileWriteView { path: "/tmp/vim-mcp-preference.txt"@, text: id })
        }),
{
}

/// The answer that a message carries is its error where it has one, else its result,
/// else null.
pub proof fn law_error_counts_before_result(m: IncomingMessageView)
    ensures
        m.error is Some ==> carried_reply(m) == Err::<JsonView, Seq<char>>(m.error->Some_0),
        m.error is None && m.result is Some ==> carried_reply(m) == Ok::<JsonView, Seq<char>>(
            m.result->Some_0,
        ),
        m.error is None && m.result is None ==> carried_reply(m) == Ok::<JsonView, Seq<char>>(
            JsonView::Null,
        ),
{
}

/// A line that is not passed over does what its message does.
pub proof fn law_line_does_what_its_message_does(
    r: RegistryView,
    s: SessionView,
    line: LineView,
)
    requires
        !is_passed_over(line),
    ensures
        on_line(r, s, line.text, line.message, line.started) == on_message(
            r,
            s,
            line.message->Some_0,
            line.started,
        ),
{
}

/// A request ends with what Vim answered, or with the reason why nothing came; the
/// instances and the selection stay as they were.
pub proof fn law_request_ends_with_the_answer_or_the_reason(
    r: RegistryView,
    instance_id: Seq<char>,
    link: u64,
    id: i64,
    outcome: OutcomeView,
)
    ensures
        ({
            let (next, result) = r.finish_request(instance_id, link, id, outcome);
            &&& next.connections == r.connections
            &&& next.order == r.order
            &&& next.selected == r.selected
            &&& next.pending_exits == r.pending_exits
            &&& next.next_id == r.next_id
            &&& match outcome {
                OutcomeView::Replied(reply) => result == reply && next.pending == r.pending,
                OutcomeView::SendFailed => result == Err::<JsonView, Seq<char>>(
                    "Instance "@ + instance_id + " disconnected"@,
                ),
                OutcomeView::Closed => result == Err::<JsonView, Seq<char>>(
                    "Vim connection closed before responding"@,
                ),
                OutcomeView::TimedOut => result == Err::<JsonView, Seq<char>>(
                    "Timeout waiting for Vim response"@,
                ),
            }
        }),
{
}

/// A request for the state ends as any request does; a state that came is cached,
/// and a reason caches nothing.
pub proof fn law_only_a_state_that_came_is_cached(
    r: RegistryView,
    instance_id: Seq<char>,
    link: u64,
    id: i64,
    outcome: OutcomeView,
    other: Seq<char>,
)
    ensures
        ({
            let (next, result) = r.finish_state(instance_id, link, id, outcome);
            &&& result == r.finish_request(instance_id, link, id, outcome).1
            &&& result is Err ==> next.connections == r.connections
            &&& other != instance_id || !r.connections.contains_key(instance_id) ==> next.lookup(
                other,
            ) == r.lookup(other)
            &&& next.order == r.order
            &&& next.selected == r.selected
        }),
{
}

/// Telling an instance to exit, and no longer expecting it to, concern that instance
/// alone.
pub proof fn law_exit_marks_are_of_one_instance(r: RegistryView, id: Seq<char>, other: Seq<char>)
    ensures
        r.mark_exit(id).pending_exits.contains(id),
        !r.unmark_exit(id).pending_exits.contains(id),
        other != id ==> {
            &&& r.mark_exit(id).pending_exits.contains(other) == r.pending_exits.contains(other)
            &&& r.unmark_exit(id).pending_exits.contains(other) == r.pending_exits.contains(other)
        },
        r.mark_exit(id) == (RegistryView { pending_exits: r.mark_exit(id).pending_exits, ..r }),
        r.unmark_exit(id) == (RegistryView { pending_exits: r.unmark_exit(id).pending_exits, ..r }),
{
}

/// A command to an instance that is not connected fails, and changes nothing.
pub proof fn law_absent_instance_runs_no_command(
    r: RegistryView,
    instance_id: Seq<char>,
    command: Seq<char>,
)
    requires
        !r.connections.contains_key(instance_id),
    ensures
        ({
            let absent = "Instance "@ + instance_id + " not connected"@;
            start_command(r, instance_id, command) == (
                r,
                CommandStepView::Done(
                    if is_exit(command) {
                        Err(absent)
                    } else {
                        Err("Failed to get state before command: "@ + absent)
                    },
                ),
            )
        }),
{
}

/// A message with the number of an awaited request of its link hands over what it
/// carries, and that request alone is no longer awaited; any other message with a
/// number is passed over.
pub proof fn law_awaited_answers_are_handed_over(
    r: RegistryView,
    s: SessionView,
    m: IncomingMessageView,
    started: Seq<char>,
    id: i64,
)
    requires
        m.id == Some(id),
        !is_push(m),
    ensures
        ({
            let (next, session, reaction) = on_message(r, s, m, started);
            if r.pending.contains((s.link, id)) {
                &&& next == (RegistryView { pending: r.pending.remove((s.link, id)), ..r })
                &&& session == s
                &&& reaction == (ReactionView::Deliver { id, reply: carried_reply(m) })
            } else {
                (next, session, reaction) == (r, s, ReactionView::Nothing)
            }
        }),
{
}

/// A push of a state does nothing where it has no state, where nobody has registered
/// on its link, or where who did is gone; it never calls for anything.
pub proof fn law_idle_pushes_do_nothing(
    r: RegistryView,
    s: SessionView,
    m: IncomingMessageView,
    started: Seq<char>,
)
    requires
        m.msg_type == Some("state_update"@),
    ensures
        ({
            let (next, session, reaction) = on_message(r, s, m, started);
            &&& session == s
            &&& reaction == ReactionView::Nothing
            &&& m.state is None || s.instance_id is None || !r.connections.contains_key(
                s.instance_id->Some_0,
            ) ==> next == r
            &&& next.order == r.order
            &&& next.selected == r.selected
            &&& next.pending_exits == r.pending_exits
            &&& next.pending == r.pending
        }),
{
    reveal_strlit("register");
    reveal_strlit("state_update");
    assert("register"@.len() != "state_update"@.len());
}

} // verus!
