//! Shared state: connected Vim instances, the selected instance, and the
//! requests that await an answer.
//!
//! A socket connection is a *link*, known by a number that its owner gives it.
//! The state below decides what is sent and what an arriving message means; the
//! sockets and the clocks belong to the caller.

use crate::json::lemma_object_is;
use crate::json::object_view;
use crate::json::option_json;
use crate::json::strings_view;
use crate::json::with_entry;
use crate::json::Json;
use crate::json::JsonView;
use crate::json::NumberView;
use crate::protocol::framed;
use crate::protocol::option_text;
use crate::protocol::request_line;
use crate::protocol::InstanceInfo;
use crate::protocol::InstanceInfoView;
use crate::protocol::Request;
use crate::protocol::ResponseError;
use crate::serde_values::pretty_text;
use crate::text::eq;
use crate::text::texts;
use vstd::prelude::*;

verus! {

pub const SOCKET_PATH: &'static str = "/tmp/vim-mcp-server.sock";

pub const REGISTRY_PATH: &'static str = "/tmp/vim-mcp-registry.json";

pub const PREFERENCE_PATH: &'static str = "/tmp/vim-mcp-preference.txt";

// ---------------------------------------------------------------------------
// Data
// ---------------------------------------------------------------------------
/// A connected Vim instance.
#[derive(Debug)]
pub struct Connection {
    pub info: InstanceInfo,
    pub started: String,
    /// The link that reaches the instance.
    pub link: u64,
    /// Latest cached state.
    pub state: Option<Json>,
}

/// What a [`Connection`] is.
pub struct ConnectionView {
    pub info: InstanceInfoView,
    pub started: Seq<char>,
    pub link: u64,
    pub state: Option<JsonView>,
}

impl View for Connection {
    type V = ConnectionView;

    open spec fn view(&self) -> ConnectionView {
        ConnectionView {
            info: self.info@,
            started: self.started@,
            link: self.link,
            state: option_json(self.state),
        }
    }
}

/// A text to be written to a file.
#[derive(Debug)]
pub struct FileWrite {
    pub path: &'static str,
    pub text: String,
}

/// What a [`FileWrite`] says.
pub struct FileWriteView {
    pub path: Seq<char>,
    pub text: Seq<char>,
}

impl View for FileWrite {
    type V = FileWriteView;

    open spec fn view(&self) -> FileWriteView {
        FileWriteView { path: self.path@, text: self.text@ }
    }
}

/// A request on its way: `line` goes out on `link`, and the answer bears `id`. It
/// is waited for no longer than `timeout_ms` milliseconds.
#[derive(Debug)]
pub struct Ask {
    pub link: u64,
    pub id: i64,
    pub line: String,
    pub timeout_ms: u64,
}

/// What an [`Ask`] says.
pub struct AskView {
    pub link: u64,
    pub id: i64,
    pub line: Seq<char>,
    pub timeout_ms: u64,
}

impl View for Ask {
    type V = AskView;

    open spec fn view(&self) -> AskView {
        AskView { link: self.link, id: self.id, line: self.line@, timeout_ms: self.timeout_ms }
    }
}

/// What became of a request.
#[derive(Debug)]
pub enum Outcome {
    /// The line could not be sent.
    SendFailed,
    /// Vim answered, with a result or with an error.
    Replied(Result<Json, ResponseError>),
    /// The answer can no longer come.
    Closed,
    /// No answer came in time.
    TimedOut,
}

/// What an [`Outcome`] says.
pub enum OutcomeView {
    SendFailed,
    Replied(Result<JsonView, Seq<char>>),
    Closed,
    TimedOut,
}

/// What Vim's answer says.
pub open spec fn reply_view(reply: Result<Json, ResponseError>) -> Result<JsonView, Seq<char>> {
    match reply {
        Ok(value) => Ok(value@),
        Err(e) => Err(e@),
    }
}

impl View for Outcome {
    type V = OutcomeView;

    open spec fn view(&self) -> OutcomeView {
        match *self {
            Outcome::SendFailed => OutcomeView::SendFailed,
            Outcome::Replied(reply) => OutcomeView::Replied(reply_view(reply)),
            Outcome::Closed => OutcomeView::Closed,
            Outcome::TimedOut => OutcomeView::TimedOut,
        }
    }
}

/// The state of the server.
#[derive(Debug)]
pub struct Registry {
    connections: Vec<(String, Connection)>,
    selected: Option<String>,
    pending_exits: Vec<String>,
    pending: Vec<(u64, i64)>,
    next_id: i64,
}

/// What a [`Registry`] holds.
#[verifier::ext_equal]
pub struct RegistryView {
    /// The connected instances by their ids.
    pub connections: Map<Seq<char>, ConnectionView>,
    /// Their ids in the order in which they came.
    pub order: Seq<Seq<char>>,
    pub selected: Option<Seq<char>>,
    /// The instances that were told to exit.
    pub pending_exits: Set<Seq<char>>,
    /// The requests that await an answer: the link and the id.
    pub pending: Set<(u64, i64)>,
    pub next_id: i64,
}

/// The connections of a list by their ids.
spec fn connection_map(list: Seq<(String, Connection)>) -> Map<Seq<char>, ConnectionView> {
    Map::new(
        |id: Seq<char>| exists|i: int| 0 <= i < list.len() && (#[trigger] list[i]).0@ == id,
        |id: Seq<char>|
            list[choose|i: int| 0 <= i < list.len() && (#[trigger] list[i]).0@ == id].1@,
    )
}

spec fn connection_order(list: Seq<(String, Connection)>) -> Seq<Seq<char>> {
    Seq::new(list.len(), |i: int| list[i].0@)
}

spec fn distinct_ids(list: Seq<(String, Connection)>) -> bool {
    forall|i: int, j: int|
        0 <= i < j < list.len() ==> (#[trigger] list[i]).0@ != (#[trigger] list[j]).0@
}

impl View for Registry {
    type V = RegistryView;

    closed spec fn view(&self) -> RegistryView {
        RegistryView {
            connections: connection_map(self.connections@),
            order: connection_order(self.connections@),
            selected: option_text(self.selected),
            pending_exits: texts(self.pending_exits@).to_set(),
            pending: self.pending@.to_set(),
            next_id: self.next_id,
        }
    }
}

/// The ids of `order` that are not `id`.
pub open spec fn all_but(order: Seq<Seq<char>>, id: Seq<char>) -> Seq<Seq<char>> {
    order.filter(|other: Seq<char>| other != id)
}

/// The number after `id`, which wraps around at the end of the range.
pub open spec fn following(id: i64) -> i64 {
    if id == i64::MAX {
        i64::MIN
    } else {
        (id + 1) as i64
    }
}

impl RegistryView {
    /// What holds of every state: the order lists the connected instances, each
    /// once; the selected instance is connected, and so is each that was told to
    /// exit.
    pub open spec fn valid(self) -> bool {
        &&& self.order.no_duplicates()
        &&& forall|id: Seq<char>|
            self.connections.contains_key(id) <==> #[trigger] self.order.contains(id)
        &&& self.selected matches Some(id) ==> self.connections.contains_key(id)
        &&& forall|id: Seq<char>| #[trigger]
            self.pending_exits.contains(id) ==> self.connections.contains_key(id)
    }

    /// The connection of an instance.
    pub open spec fn lookup(self, id: Seq<char>) -> Option<ConnectionView> {
        if self.connections.contains_key(id) {
            Some(self.connections[id])
        } else {
            None
        }
    }

    /// The state with the connection of `id` set to `connection`.
    pub open spec fn put(self, id: Seq<char>, connection: ConnectionView) -> RegistryView {
        RegistryView {
            connections: self.connections.insert(id, connection),
            order: if self.connections.contains_key(id) {
                self.order
            } else {
                self.order.push(id)
            },
            ..self
        }
    }

    /// The state with `state` cached for `id`, where `id` is connected.
    pub open spec fn cache(self, id: Seq<char>, state: JsonView) -> RegistryView {
        match self.lookup(id) {
            Some(c) => self.put(id, ConnectionView { state: Some(state), ..c }),
            None => self,
        }
    }

    /// The state without the instance `id`.
    pub open spec fn without(self, id: Seq<char>) -> RegistryView {
        RegistryView {
            connections: self.connections.remove(id),
            order: all_but(self.order, id),
            selected: if self.selected == Some(id) {
                None
            } else {
                self.selected
            },
            pending_exits: self.pending_exits.remove(id),
            ..self
        }
    }

    /// The state with `id` selected.
    pub open spec fn select(self, id: Seq<char>) -> RegistryView {
        RegistryView { selected: Some(id), ..self }
    }

    /// The state in which `id` was told to exit.
    pub open spec fn mark_exit(self, id: Seq<char>) -> RegistryView {
        RegistryView { pending_exits: self.pending_exits.insert(id), ..self }
    }

    /// The state in which `id` is no longer expected to exit.
    pub open spec fn unmark_exit(self, id: Seq<char>) -> RegistryView {
        RegistryView { pending_exits: self.pending_exits.remove(id), ..self }
    }

    /// The state in which no answer to request `id` of `link` is awaited.
    pub open spec fn settle(self, link: u64, id: i64) -> RegistryView {
        RegistryView { pending: self.pending.remove((link, id)), ..self }
    }

    /// The start of a request: what is sent, or why nothing is.
    pub open spec fn request(
        self,
        instance_id: Seq<char>,
        method: Seq<char>,
        params: JsonView,
        timeout_ms: u64,
    ) -> (RegistryView, Result<AskView, Seq<char>>) {
        match self.lookup(instance_id) {
            Some(c) => (
                RegistryView {
                    pending: self.pending.insert((c.link, self.next_id)),
                    next_id: following(self.next_id),
                    ..self
                },
                Ok(
                    AskView {
                        link: c.link,
                        id: self.next_id,
                        line: request_line(self.next_id, method, params),
                        timeout_ms,
                    },
                ),
            ),
            None => (self, Err(not_connected(instance_id))),
        }
    }

    /// The end of a request: the value that Vim answered, or why there is none. A
    /// request that was not answered is no longer awaited.
    pub open spec fn finish_request(
        self,
        instance_id: Seq<char>,
        link: u64,
        id: i64,
        outcome: OutcomeView,
    ) -> (RegistryView, Result<JsonView, Seq<char>>) {
        match outcome {
            OutcomeView::SendFailed => (
                self.settle(link, id),
                Err("Instance "@ + instance_id + " disconnected"@),
            ),
            OutcomeView::Replied(reply) => (self, reply),
            OutcomeView::Closed => (
                self.settle(link, id),
                Err("Vim connection closed before responding"@),
            ),
            OutcomeView::TimedOut => (
                self.settle(link, id),
                Err("Timeout waiting for Vim response"@),
            ),
        }
    }

    /// The start of a request for the full state of an instance.
    pub open spec fn request_state(self, instance_id: Seq<char>) -> (
        RegistryView,
        Result<AskView, Seq<char>>,
    ) {
        self.request(instance_id, "get_state"@, JsonView::Object(Map::empty()), 2000)
    }

    /// The end of a request for the state: a state that came is cached.
    pub open spec fn finish_state(
        self,
        instance_id: Seq<char>,
        link: u64,
        id: i64,
        outcome: OutcomeView,
    ) -> (RegistryView, Result<JsonView, Seq<char>>) {
        let (next, result) = self.finish_request(instance_id, link, id, outcome);
        match result {
            Ok(state) => (next.cache(instance_id, state), Ok(state)),
            Err(e) => (next, Err(e)),
        }
    }

    /// The instances as they are recorded in the registry file.
    pub open spec fn record(self) -> JsonView {
        JsonView::Object(
            Map::new(
                |id: Seq<char>| self.connections.contains_key(id),
                |id: Seq<char>| recorded(self.connections[id]),
            ),
        )
    }

    /// The registry file.
    pub open spec fn registry_file(self) -> FileWriteView {
        FileWriteView { path: REGISTRY_PATH@, text: pretty_text(self.record()) }
    }
}

/// The state with nobody connected, before the first request.
pub open spec fn nobody() -> RegistryView {
    RegistryView {
        connections: Map::empty(),
        order: Seq::empty(),
        selected: None,
        pending_exits: Set::empty(),
        pending: Set::empty(),
        next_id: 0,
    }
}

/// The message on an instance that is not connected.
pub open spec fn not_connected(instance_id: Seq<char>) -> Seq<char> {
    "Instance "@ + instance_id + " not connected"@
}

/// The file that remembers which instance was selected.
pub open spec fn preference_file(instance_id: Seq<char>) -> FileWriteView {
    FileWriteView { path: PREFERENCE_PATH@, text: instance_id }
}

/// An instance as it is recorded in the registry file.
pub open spec fn recorded(c: ConnectionView) -> JsonView {
    JsonView::Object(info_map(c.info).insert("started"@, JsonView::Str(c.started)))
}

/// The members by which an instance is described.
pub open spec fn info_map(info: InstanceInfoView) -> Map<Seq<char>, JsonView> {
    map![
        "pid"@ => JsonView::Number(NumberView::Int(info.pid as int)),
        "cwd"@ => JsonView::Str(info.cwd),
        "main_file"@ => JsonView::Str(info.main_file),
        "buffers"@ => strings_view(info.buffers),
    ]
}

// ---------------------------------------------------------------------------
// Lists and what they stand for
// ---------------------------------------------------------------------------
proof fn lemma_map_at(list: Seq<(String, Connection)>, i: int)
    requires
        distinct_ids(list),
        0 <= i < list.len(),
    ensures
        connection_map(list).contains_key(list[i].0@),
        connection_map(list)[list[i].0@] == list[i].1@,
        connection_order(list).contains(list[i].0@),
{
    let id = list[i].0@;
    let k = choose|k: int| 0 <= k < list.len() && (#[trigger] list[k]).0@ == id;
    assert(0 <= k < list.len() && list[k].0@ == id);
    assert(k == i);
    assert(connection_order(list)[i] == id);
}

proof fn lemma_map_key(list: Seq<(String, Connection)>, id: Seq<char>)
    ensures
        connection_map(list).contains_key(id) <==> exists|i: int|
            0 <= i < list.len() && (#[trigger] list[i]).0@ == id,
        connection_map(list).contains_key(id) <==> connection_order(list).contains(id),
{
    let order = connection_order(list);
    if connection_map(list).contains_key(id) {
        let i = choose|i: int| 0 <= i < list.len() && (#[trigger] list[i]).0@ == id;
        assert(order[i] == id);
    }
    if order.contains(id) {
        let i = choose|i: int| 0 <= i < order.len() && order[i] == id;
        assert(list[i].0@ == id);
    }
}

/// A map that has the ids of a list and at each the list's connection is the map
/// of the list.
proof fn lemma_is_map(list: Seq<(String, Connection)>, m: Map<Seq<char>, ConnectionView>)
    requires
        distinct_ids(list),
        forall|i: int| 0 <= i < list.len() ==> m.contains_key((#[trigger] list[i]).0@),
        forall|i: int| 0 <= i < list.len() ==> m[(#[trigger] list[i]).0@] == list[i].1@,
        forall|id: Seq<char>| #[trigger] m.contains_key(id) ==> connection_order(list).contains(id),
    ensures
        connection_map(list) == m,
{
    assert forall|id: Seq<char>| #[trigger]
        connection_map(list).dom().contains(id) == m.dom().contains(id) by {
        lemma_map_key(list, id);
        assert(m.contains_key(id) == m.dom().contains(id));
    }
    assert forall|id: Seq<char>| #[trigger] connection_map(list).dom().contains(id) implies
        connection_map(list)[id] == m[id] by {
        lemma_map_key(list, id);
        let i = choose|i: int| 0 <= i < list.len() && (#[trigger] list[i]).0@ == id;
        lemma_map_at(list, i);
    }
    assert(connection_map(list).dom() =~= m.dom());
    assert(connection_map(list) =~= m);
}

proof fn lemma_push(list: Seq<(String, Connection)>, entry: (String, Connection))
    requires
        distinct_ids(list),
        !connection_order(list).contains(entry.0@),
    ensures
        distinct_ids(list.push(entry)),
        connection_map(list.push(entry)) == connection_map(list).insert(entry.0@, entry.1@),
        connection_order(list.push(entry)) == connection_order(list).push(entry.0@),
{
    let longer = list.push(entry);
    let m = connection_map(list).insert(entry.0@, entry.1@);
    let order = connection_order(list);
    assert forall|i: int| 0 <= i < list.len() implies (#[trigger] longer[i]).0@ != entry.0@ by {
        assert(order[i] == longer[i].0@);
    }
    assert(connection_order(longer) =~= order.push(entry.0@));
    assert forall|i: int| 0 <= i < longer.len() implies {
        &&& m.contains_key((#[trigger] longer[i]).0@)
        &&& m[longer[i].0@] == longer[i].1@
    } by {
        if i < list.len() {
            assert(longer[i] == list[i]);
            lemma_map_at(list, i);
        }
    }
    assert forall|id: Seq<char>| #[trigger] m.contains_key(id) implies connection_order(
        longer,
    ).contains(id) by {
        lemma_map_key(list, id);
        if id == entry.0@ {
            assert(connection_order(longer)[list.len() as int] == id);
        } else {
            let i = choose|i: int| 0 <= i < order.len() && order[i] == id;
            assert(connection_order(longer)[i] == id);
        }
    }
    lemma_is_map(longer, m);
}

proof fn lemma_update(list: Seq<(String, Connection)>, at: int, entry: (String, Connection))
    requires
        distinct_ids(list),
        0 <= at < list.len(),
        list[at].0@ == entry.0@,
    ensures
        distinct_ids(list.update(at, entry)),
        connection_map(list.update(at, entry)) == connection_map(list).insert(entry.0@, entry.1@),
        connection_order(list.update(at, entry)) == connection_order(list),
{
    let next = list.update(at, entry);
    let m = connection_map(list).insert(entry.0@, entry.1@);
    assert(connection_order(next) =~= connection_order(list));
    assert(distinct_ids(next));
    assert forall|i: int| 0 <= i < next.len() implies {
        &&& m.contains_key((#[trigger] next[i]).0@)
        &&& m[next[i].0@] == next[i].1@
    } by {
        if i != at {
            assert(next[i] == list[i]);
            lemma_map_at(list, i);
        }
    }
    assert forall|id: Seq<char>| #[trigger] m.contains_key(id) implies connection_order(
        next,
    ).contains(id) by {
        lemma_map_key(list, id);
        lemma_map_at(list, at);
    }
    lemma_is_map(next, m);
}

/// To leave out an id that occurs once is to remove it where it occurs.
pub proof fn lemma_all_but_one(order: Seq<Seq<char>>, at: int, id: Seq<char>)
    requires
        order.no_duplicates(),
        0 <= at < order.len(),
        order[at] == id,
    ensures
        all_but(order, id) == order.remove(at),
    decreases order.len(),
{
    reveal(Seq::filter);
    let front = order.drop_last();
    if at == order.len() - 1 {
        lemma_all_but_none(front, id);
        assert(order.remove(at) =~= front);
    } else {
        lemma_all_but_one(front, at, id);
        assert(order.remove(at) =~= front.remove(at).push(order.last()));
    }
    assert(all_but(order, id) == if order.last() != id {
        all_but(front, id).push(order.last())
    } else {
        all_but(front, id)
    });
}

/// To leave out an id that does not occur changes nothing.
proof fn lemma_all_but_none(order: Seq<Seq<char>>, id: Seq<char>)
    requires
        !order.contains(id),
    ensures
        all_but(order, id) == order,
    decreases order.len(),
{
    reveal(Seq::filter);
    if order.len() > 0 {
        let front = order.drop_last();
        assert(order[order.len() - 1] != id);
        assert forall|i: int| 0 <= i < front.len() implies front[i] != id by {
            assert(front[i] == order[i]);
        }
        lemma_all_but_none(front, id);
        assert(order =~= front.push(order.last()));
        assert(all_but(order, id) == all_but(front, id).push(order.last()));
    } else {
        assert(all_but(order, id) =~= order);
    }
}

/// To leave out an id that was put at the end gives back what was there before.
pub proof fn lemma_all_but_pushed(order: Seq<Seq<char>>, id: Seq<char>)
    requires
        !order.contains(id),
    ensures
        all_but(order.push(id), id) == order,
{
    reveal(Seq::filter);
    lemma_all_but_none(order, id);
    assert(order.push(id).drop_last() =~= order);
}

proof fn lemma_order_distinct(list: Seq<(String, Connection)>)
    ensures
        distinct_ids(list) <==> connection_order(list).no_duplicates(),
{
    let order = connection_order(list);
    if distinct_ids(list) {
        assert forall|i: int, j: int|
            0 <= i < order.len() && 0 <= j < order.len() && i != j implies order[i] != order[j] by {
            assert(list[i].0@ == order[i]);
            assert(list[j].0@ == order[j]);
        }
    }
    if order.no_duplicates() {
        assert forall|i: int, j: int| 0 <= i < j < list.len() implies (#[trigger] list[i]).0@ != (
        #[trigger] list[j]).0@ by {
            assert(list[i].0@ == order[i]);
            assert(list[j].0@ == order[j]);
        }
    }
}

proof fn lemma_remove(list: Seq<(String, Connection)>, at: int)
    requires
        distinct_ids(list),
        0 <= at < list.len(),
    ensures
        distinct_ids(list.remove(at)),
        connection_map(list.remove(at)) == connection_map(list).remove(list[at].0@),
        connection_order(list.remove(at)) == all_but(connection_order(list), list[at].0@),
{
    let next = list.remove(at);
    let id = list[at].0@;
    let m = connection_map(list).remove(id);
    let order = connection_order(list);
    lemma_order_distinct(list);
    assert(order[at] == id);
    lemma_all_but_one(order, at, id);
    assert(connection_order(next) =~= order.remove(at));
    assert forall|i: int, j: int| 0 <= i < j < next.len() implies (#[trigger] next[i]).0@ != (
    #[trigger] next[j]).0@ by {
        let k = if i < at { i } else { i + 1 };
        let l = if j < at { j } else { j + 1 };
        assert(next[i] == list[k] && next[j] == list[l]);
    }
    assert forall|i: int| 0 <= i < next.len() implies {
        &&& m.contains_key((#[trigger] next[i]).0@)
        &&& m[next[i].0@] == next[i].1@
    } by {
        let k = if i < at { i } else { i + 1 };
        assert(next[i] == list[k]);
        lemma_map_at(list, k);
        lemma_map_at(list, at);
    }
    assert forall|other: Seq<char>| #[trigger] m.contains_key(other) implies connection_order(
        next,
    ).contains(other) by {
        lemma_map_key(list, other);
        let k = choose|k: int| 0 <= k < list.len() && (#[trigger] list[k]).0@ == other;
        let i = if k < at { k } else { k - 1 };
        assert(connection_order(next)[i] == other);
    }
    lemma_is_map(next, m);
}

proof fn lemma_push_set<A>(s: Seq<A>, x: A)
    requires
        s.no_duplicates(),
        !s.contains(x),
    ensures
        s.push(x).no_duplicates(),
        s.push(x).to_set() == s.to_set().insert(x),
{
    let t = s.push(x);
    assert forall|y: A| #[trigger] t.to_set().contains(y) == s.to_set().insert(x).contains(y) by {
        if s.contains(y) {
            let i = choose|i: int| 0 <= i < s.len() && s[i] == y;
            assert(t[i] == y);
        }
        if y == x {
            assert(t[s.len() as int] == x);
        }
        if t.contains(y) && y != x {
            let i = choose|i: int| 0 <= i < t.len() && t[i] == y;
            assert(s[i] == y);
        }
    }
    assert(t.to_set() =~= s.to_set().insert(x));
}

proof fn lemma_remove_set<A>(s: Seq<A>, at: int)
    requires
        s.no_duplicates(),
        0 <= at < s.len(),
    ensures
        s.remove(at).no_duplicates(),
        s.remove(at).to_set() == s.to_set().remove(s[at]),
{
    let t = s.remove(at);
    assert forall|y: A| #[trigger] t.to_set().contains(y) == s.to_set().remove(s[at]).contains(
        y,
    ) by {
        if s.contains(y) && y != s[at] {
            let i = choose|i: int| 0 <= i < s.len() && s[i] == y;
            let k = if i < at { i } else { i - 1 };
            assert(t[k] == y);
        }
        if t.contains(y) {
            let k = choose|k: int| 0 <= k < t.len() && t[k] == y;
            let i = if k < at { k } else { k + 1 };
            assert(s[i] == y);
        }
    }
    assert(t.to_set() =~= s.to_set().remove(s[at]));
}

proof fn lemma_absent_set<A>(s: Seq<A>, x: A)
    requires
        !s.contains(x),
    ensures
        s.to_set().remove(x) == s.to_set(),
{
    assert(s.to_set().remove(x) =~= s.to_set());
}

/// Putting a connection keeps a state valid.
pub proof fn lemma_put_valid(r: RegistryView, id: Seq<char>, c: ConnectionView)
    requires
        r.valid(),
    ensures
        r.put(id, c).valid(),
{
    let n = r.put(id, c);
    if !r.connections.contains_key(id) {
        assert(!r.order.contains(id));
        assert forall|other: Seq<char>|
            n.connections.contains_key(other) <==> #[trigger] n.order.contains(other) by {
            if r.order.contains(other) {
                let i = choose|i: int| 0 <= i < r.order.len() && r.order[i] == other;
                assert(n.order[i] == other);
            }
            if other == id {
                assert(n.order[r.order.len() as int] == id);
            }
            if n.order.contains(other) && other != id {
                let i = choose|i: int| 0 <= i < n.order.len() && n.order[i] == other;
                assert(r.order[i] == other);
            }
        }
    }
}

/// Taking an instance out keeps a state valid.
pub proof fn lemma_without_valid(r: RegistryView, id: Seq<char>)
    requires
        r.valid(),
    ensures
        r.without(id).valid(),
{
    let n = r.without(id);
    if r.order.contains(id) {
        let at = choose|at: int| 0 <= at < r.order.len() && r.order[at] == id;
        lemma_all_but_one(r.order, at, id);
        lemma_remove_set(r.order, at);
        assert forall|other: Seq<char>|
            n.connections.contains_key(other) <==> #[trigger] n.order.contains(other) by {
            assert(n.order.contains(other) == n.order.to_set().contains(other));
            assert(r.order.contains(other) == r.order.to_set().contains(other));
        }
    } else {
        lemma_all_but_none(r.order, id);
        assert(!r.connections.contains_key(id));
    }
}

/// The position of `s` in a list of strings.
fn find_text(list: &Vec<String>, s: &str) -> (r: Option<usize>)
    ensures
        match r {
            Some(i) => i < list@.len() && texts(list@)[i as int] == s@,
            None => !texts(list@).contains(s@),
        },
{
    for i in 0..list.len()
        invariant
            forall|j: int| 0 <= j < i ==> (#[trigger] list@[j])@ != s@,
    {
        if eq(list[i].as_str(), s) {
            return Some(i);
        }
    }
    assert forall|j: int| 0 <= j < texts(list@).len() implies texts(list@)[j] != s@ by {
        assert(list@[j]@ != s@);
    }
    None
}

// ---------------------------------------------------------------------------
// Operations
// ---------------------------------------------------------------------------
impl Registry {
    /// Whether the lists that hold the state are in order.
    pub closed spec fn inv(&self) -> bool {
        &&& distinct_ids(self.connections@)
        &&& texts(self.pending_exits@).no_duplicates()
        &&& self.pending@.no_duplicates()
    }

    /// Whether the registry is in a state that its operations keep it in.
    pub open spec fn wf(&self) -> bool {
        &&& self.inv()
        &&& self@.valid()
    }

    /// A registry with nobody connected.
    pub fn new() -> (r: Registry)
        ensures
            r.wf(),
            r@ == nobody(),
    {
        let r = Registry {
            connections: Vec::new(),
            selected: None,
            pending_exits: Vec::new(),
            pending: Vec::new(),
            next_id: 0,
        };
        assert(r@.connections =~= Map::empty());
        assert(r@.order =~= Seq::empty());
        assert(r@.pending_exits =~= Set::empty());
        assert(r@.pending =~= Set::empty());
        r
    }

    fn find(&self, id: &str) -> (r: Option<usize>)
        requires
            self.inv(),
        ensures
            match r {
                Some(i) => {
                    &&& i < self.connections@.len()
                    &&& self.connections@[i as int].0@ == id@
                    &&& self@.lookup(id@) == Some(self.connections@[i as int].1@)
                },
                None => self@.lookup(id@) is None && !self@.order.contains(id@),
            },
    {
        for i in 0..self.connections.len()
            invariant
                self.inv(),
                forall|j: int| 0 <= j < i ==> (#[trigger] self.connections@[j]).0@ != id@,
        {
            if eq(self.connections[i].0.as_str(), id) {
                proof {
                    lemma_map_at(self.connections@, i as int);
                }
                return Some(i);
            }
        }
        proof {
            lemma_map_key(self.connections@, id@);
        }
        None
    }

    /// The connection of an instance.
    pub fn get_connection(&self, id: &str) -> (r: Option<&Connection>)
        requires
            self.wf(),
        ensures
            match r {
                Some(c) => self@.lookup(id@) == Some(c@),
                None => self@.lookup(id@) is None,
            },
    {
        match self.find(id) {
            Some(i) => Some(&self.connections[i].1),
            None => None,
        }
    }

    /// The selected instance.
    pub fn get_selected(&self) -> (r: Option<&str>)
        requires
            self.wf(),
        ensures
            match r {
                Some(id) => self@.selected == Some(id@),
                None => self@.selected is None,
            },
    {
        match &self.selected {
            Some(id) => Some(id.as_str()),
            None => None,
        }
    }

    /// The number of connected instances.
    pub fn count(&self) -> (r: usize)
        requires
            self.wf(),
        ensures
            r == self@.order.len(),
    {
        self.connections.len()
    }

    /// The id and the connection of the instance at `i` in order.
    pub fn at(&self, i: usize) -> (r: (&str, &Connection))
        requires
            self.wf(),
            i < self@.order.len(),
        ensures
            r.0@ == self@.order[i as int],
            self@.connections.contains_key(r.0@),
            r.1@ == self@.connections[r.0@],
    {
        proof {
            lemma_map_at(self.connections@, i as int);
        }
        (self.connections[i].0.as_str(), &self.connections[i].1)
    }

    /// The ids of the connected instances, in order.
    pub fn ids(&self) -> (r: Vec<String>)
        requires
            self.wf(),
        ensures
            texts(r@) == self@.order,
    {
        let mut out: Vec<String> = Vec::new();
        for i in 0..self.connections.len()
            invariant
                out@.len() == i,
                forall|j: int| 0 <= j < i ==> (#[trigger] out@[j])@ == self.connections@[j].0@,
        {
            out.push(self.connections[i].0.clone());
        }
        assert(texts(out@) =~= self@.order);
        out
    }

    /// Sets the connection of `id`.
    pub fn put(&mut self, id: &str, connection: Connection)
        requires
            old(self).wf(),
        ensures
            final(self).wf(),
            final(self)@ == old(self)@.put(id@, connection@),
    {
        let ghost list = self.connections@;
        let ghost view = self@;
        let entry = (id.to_owned(), connection);
        match self.find(id) {
            Some(i) => {
                proof {
                    lemma_update(list, i as int, entry);
                    lemma_map_at(list, i as int);
                }
                self.connections.set(i, entry);
            },
            None => {
                proof {
                    lemma_push(list, entry);
                    lemma_map_key(list, id@);
                }
                self.connections.push(entry);
            },
        }
        proof {
            lemma_put_valid(view, id@, connection@);
            assert(self@ == view.put(id@, connection@));
        }
    }

    /// Takes an instance out, and says whether it was told to exit.
    pub fn take_out(&mut self, id: &str) -> (expected: bool)
        requires
            old(self).wf(),
        ensures
            final(self).wf(),
            final(self)@ == old(self)@.without(id@),
            expected == old(self)@.pending_exits.contains(id@),
    {
        let ghost view = self@;
        let ghost list = self.connections@;
        let expected = self.drop_exit(id);
        match self.find(id) {
            Some(i) => {
                proof {
                    lemma_remove(list, i as int);
                }
                self.connections.remove(i);
            },
            None => {
                proof {
                    lemma_all_but_none(view.order, id@);
                    assert(view.connections.remove(id@) =~= view.connections);
                }
            },
        }
        let was_selected = match &self.selected {
            Some(selected) => eq(selected.as_str(), id),
            None => false,
        };
        if was_selected {
            self.selected = None;
        }
        proof {
            lemma_without_valid(view, id@);
            assert(self@ == view.without(id@));
        }
        expected
    }

    /// Forgets that `id` was told to exit, and says whether it was.
    fn drop_exit(&mut self, id: &str) -> (expected: bool)
        requires
            old(self).inv(),
        ensures
            final(self).inv(),
            final(self)@ == old(self)@.unmark_exit(id@),
            final(self).connections == old(self).connections,
            expected == old(self)@.pending_exits.contains(id@),
    {
        let ghost exits = texts(self.pending_exits@);
        let ghost view = self@;
        let r = match find_text(&self.pending_exits, id) {
            Some(i) => {
                self.pending_exits.remove(i);
                proof {
                    lemma_remove_set(exits, i as int);
                    assert(texts(self.pending_exits@) =~= exits.remove(i as int));
                }
                true
            },
            None => {
                proof {
                    lemma_absent_set(exits, id@);
                }
                false
            },
        };
        assert(self@ =~= view.unmark_exit(id@));
        r
    }

    /// Forgets that `id` was told to exit.
    pub fn unmark_exit(&mut self, id: &str)
        requires
            old(self).wf(),
        ensures
            final(self).wf(),
            final(self)@ == old(self)@.unmark_exit(id@),
    {
        self.drop_exit(id);
    }

    /// Remembers that `id` was told to exit.
    pub fn mark_exit(&mut self, id: &str)
        requires
            old(self).wf(),
            old(self)@.connections.contains_key(id@),
        ensures
            final(self).wf(),
            final(self)@ == old(self)@.mark_exit(id@),
    {
        let ghost exits = texts(self.pending_exits@);
        let ghost view = self@;
        match find_text(&self.pending_exits, id) {
            Some(_) => {
                assert(exits.to_set().insert(id@) =~= exits.to_set());
            },
            None => {
                self.pending_exits.push(id.to_owned());
                proof {
                    lemma_push_set(exits, id@);
                    assert(texts(self.pending_exits@) =~= exits.push(id@));
                }
            },
        }
        assert(self@ =~= view.mark_exit(id@));
    }

    /// Selects an instance.
    pub fn select(&mut self, id: &str)
        requires
            old(self).wf(),
            old(self)@.connections.contains_key(id@),
        ensures
            final(self).wf(),
            final(self)@ == old(self)@.select(id@),
    {
        self.selected = Some(id.to_owned());
    }

    /// Caches the state of `id`, where `id` is connected.
    pub fn cache(&mut self, id: &str, state: Json)
        requires
            old(self).wf(),
        ensures
            final(self).wf(),
            final(self)@ == old(self)@.cache(id@, state@),
    {
        match self.find(id) {
            Some(i) => {
                let ghost list = self.connections@;
                let ghost view = self@;
                let (key, old_connection) = self.connections.remove(i);
                let connection = Connection { state: Some(state), ..old_connection };
                let entry = (key, connection);
                self.connections.insert(i, entry);
                proof {
                    assert(self.connections@ =~= list.update(i as int, entry));
                    lemma_update(list, i as int, entry);
                    lemma_map_at(list, i as int);
                    lemma_put_valid(view, id@, connection@);
                    assert(self@ == view.put(id@, connection@));
                }
            },
            None => {},
        }
    }

    /// The position of a request that awaits an answer.
    fn find_pending(&self, link: u64, id: i64) -> (r: Option<usize>)
        ensures
            match r {
                Some(i) => i < self.pending@.len() && self.pending@[i as int] == (link, id),
                None => !self.pending@.contains((link, id)),
            },
    {
        for i in 0..self.pending.len()
            invariant
                forall|j: int| 0 <= j < i ==> self.pending@[j] != (link, id),
        {
            if self.pending[i].0 == link && self.pending[i].1 == id {
                return Some(i);
            }
        }
        None
    }

    /// Stops awaiting the answer to a request, and says whether it was awaited.
    pub fn settle(&mut self, link: u64, id: i64) -> (awaited: bool)
        requires
            old(self).wf(),
        ensures
            final(self).wf(),
            final(self)@ == old(self)@.settle(link, id),
            awaited == old(self)@.pending.contains((link, id)),
    {
        let ghost pending = self.pending@;
        let ghost view = self@;
        let r = match self.find_pending(link, id) {
            Some(i) => {
                self.pending.remove(i);
                proof {
                    lemma_remove_set(pending, i as int);
                }
                true
            },
            None => {
                proof {
                    lemma_absent_set(pending, (link, id));
                }
                false
            },
        };
        assert(self@ =~= view.settle(link, id));
        r
    }

    /// The id of the next request.
    fn next_request_id(&mut self) -> (id: i64)
        requires
            old(self).wf(),
        ensures
            final(self).wf(),
            id == old(self)@.next_id,
            final(self)@ == (RegistryView { next_id: following(old(self)@.next_id), ..old(self)@ }),
    {
        let id = self.next_id;
        self.next_id = if id == i64::MAX {
            i64::MIN
        } else {
            id + 1
        };
        id
    }

    /// Starts a request to a Vim instance: what is to be sent, or why nothing is.
    pub fn request(
        &mut self,
        instance_id: &str,
        method: &'static str,
        params: Json,
        timeout_ms: u64,
    ) -> (r: Result<Ask, String>)
        requires
            old(self).wf(),
        ensures
            final(self).wf(),
            (final(self)@, ask_result(r)) == old(self)@.request(
                instance_id@,
                method@,
                params@,
                timeout_ms,
            ),
            r matches Ok(ask) ==> framed(ask.line@),
    {
        let ghost view = self@;
        let link = match self.get_connection(instance_id) {
            Some(c) => c.link,
            None => {
                return Err(not_connected_text(instance_id));
            },
        };
        let id = self.next_request_id();
        let ghost pending = self.pending@;
        match self.find_pending(link, id) {
            Some(_) => {
                assert(pending.to_set().insert((link, id)) =~= pending.to_set());
            },
            None => {
                self.pending.push((link, id));
                proof {
                    lemma_push_set(pending, (link, id));
                }
            },
        }
        let request = Request { id, method, params };
        let line = request.line();
        assert(self@ =~= view.request(instance_id@, method@, params@, timeout_ms).0);
        Ok(Ask { link, id, line, timeout_ms })
    }

    /// Ends a request: the value that Vim answered, or why there is none.
    pub fn finish_request(
        &mut self,
        instance_id: &str,
        link: u64,
        id: i64,
        outcome: Outcome,
    ) -> (r: Result<Json, String>)
        requires
            old(self).wf(),
        ensures
            final(self).wf(),
            (final(self)@, value_result(r)) == old(self)@.finish_request(
                instance_id@,
                link,
                id,
                outcome@,
            ),
    {
        match outcome {
            Outcome::SendFailed => {
                self.settle(link, id);
                Err("Instance ".to_owned().concat(instance_id).concat(" disconnected"))
            },
            Outcome::Replied(reply) => match reply {
                Ok(value) => Ok(value),
                Err(e) => Err(e.message),
            },
            Outcome::Closed => {
                self.settle(link, id);
                Err("Vim connection closed before responding".to_owned())
            },
            Outcome::TimedOut => {
                self.settle(link, id);
                Err("Timeout waiting for Vim response".to_owned())
            },
        }
    }

    /// Starts a request for the full Vim state, which is waited for two seconds.
    pub fn request_state(&mut self, instance_id: &str) -> (r: Result<Ask, String>)
        requires
            old(self).wf(),
        ensures
            final(self).wf(),
            (final(self)@, ask_result(r)) == old(self)@.request_state(instance_id@),
            r matches Ok(ask) ==> framed(ask.line@),
    {
        self.request(instance_id, "get_state", Json::empty_object(), 2000)
    }

    /// Ends a request for the state, and caches a state that came.
    pub fn finish_state(
        &mut self,
        instance_id: &str,
        link: u64,
        id: i64,
        outcome: Outcome,
    ) -> (r: Result<Json, String>)
        requires
            old(self).wf(),
        ensures
            final(self).wf(),
            (final(self)@, value_result(r)) == old(self)@.finish_state(
                instance_id@,
                link,
                id,
                outcome@,
            ),
    {
        let result = self.finish_request(instance_id, link, id, outcome);
        match result {
            Ok(state) => {
                self.cache(instance_id, state.clone());
                Ok(state)
            },
            Err(e) => Err(e),
        }
    }

    /// The registry file: every connected instance, by its id.
    pub fn save_registry(&self) -> (r: FileWrite)
        requires
            self.wf(),
        ensures
            r@ == self@.registry_file(),
    {
        let mut entries: Vec<(String, Json)> = Vec::new();
        for i in 0..self.connections.len()
            invariant
                self.wf(),
                entries@.len() == i,
                forall|j: int|
                    0 <= j < i ==> (#[trigger] entries@[j]).0@ == self.connections@[j].0@,
                forall|j: int|
                    0 <= j < i ==> (#[trigger] entries@[j]).1@ == recorded(
                        self.connections@[j].1@,
                    ),
        {
            let c = &self.connections[i].1;
            let members = with_entry(info_entries(&c.info), "started", Json::string(c.started.as_str()));
            entries.push((self.connections[i].0.clone(), Json::Object(members)));
        }
        proof {
            let m = self@.record()->Object_0;
            let list = self.connections@;
            assert forall|i: int| 0 <= i < entries@.len() implies {
                &&& m.contains_key((#[trigger] entries@[i]).0@)
                &&& m[entries@[i].0@] == entries@[i].1@
            } by {
                lemma_map_at(list, i);
            }
            assert forall|id: Seq<char>| #[trigger] m.contains_key(id) implies exists|i: int|
                0 <= i < entries@.len() && (#[trigger] entries@[i]).0@ == id by {
                lemma_map_key(list, id);
                let i = choose|i: int| 0 <= i < list.len() && (#[trigger] list[i]).0@ == id;
                assert(entries@[i].0@ == id);
            }
            assert forall|i: int, j: int| 0 <= i < j < entries@.len() implies (
            #[trigger] entries@[i]).0@ != (#[trigger] entries@[j]).0@ by {
                assert(list[i].0@ != list[j].0@);
            }
            lemma_object_is(entries@, m);
        }
        FileWrite { path: REGISTRY_PATH, text: Json::Object(entries).to_pretty() }
    }

    /// The file that remembers which instance was selected.
    pub fn save_preference(&self, instance_id: &str) -> (r: FileWrite)
        ensures
            r@ == preference_file(instance_id@),
    {
        FileWrite { path: PREFERENCE_PATH, text: instance_id.to_owned() }
    }
}

impl Default for Registry {
    fn default() -> (r: Registry)
        ensures
            r.wf(),
            r@ == nobody(),
    {
        Registry::new()
    }
}

/// What the start of a request gives.
pub open spec fn ask_result(r: Result<Ask, String>) -> Result<AskView, Seq<char>> {
    match r {
        Ok(ask) => Ok(ask@),
        Err(e) => Err(e@),
    }
}

/// What the end of a request gives.
pub open spec fn value_result(r: Result<Json, String>) -> Result<JsonView, Seq<char>> {
    match r {
        Ok(value) => Ok(value@),
        Err(e) => Err(e@),
    }
}

/// The message on an instance that is not connected.
pub fn not_connected_text(instance_id: &str) -> (r: String)
    ensures
        r@ == not_connected(instance_id@),
{
    "Instance ".to_owned().concat(instance_id).concat(" not connected")
}

/// The members by which an instance is described.
pub fn info_entries(info: &InstanceInfo) -> (r: Vec<(String, Json)>)
    ensures
        object_view(r@) == info_map(info@),
{
    let entries = with_entry(Vec::new(), "pid", Json::Int(info.pid));
    let entries = with_entry(entries, "cwd", Json::string(info.cwd.as_str()));
    let entries = with_entry(entries, "main_file", Json::string(info.main_file.as_str()));
    with_entry(entries, "buffers", Json::strings(&info.buffers))
}

} // verus!
