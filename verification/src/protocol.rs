//! Wire protocol shared between the MCP server and the Vim plugin.
//!
//! Messages are newline-delimited JSON over the Unix socket. This module
//! defines the exact shapes the VimScript plugin sends and expects.

use crate::json::option_json;
use crate::json::with_entry;
use crate::json::Json;
use crate::json::JsonView;
use crate::json::NumberView;
use crate::serde_values::compact_text;
use crate::text::texts;
use vstd::prelude::*;

verus! {

/// Info a Vim instance reports when it registers.
#[derive(Debug)]
pub struct InstanceInfo {
    pub pid: i64,
    pub cwd: String,
    pub main_file: String,
    pub buffers: Vec<String>,
    pub version: Json,
}

/// What an [`InstanceInfo`] says.
pub struct InstanceInfoView {
    pub pid: i64,
    pub cwd: Seq<char>,
    pub main_file: Seq<char>,
    pub buffers: Seq<Seq<char>>,
    pub version: JsonView,
}

impl View for InstanceInfo {
    type V = InstanceInfoView;

    open spec fn view(&self) -> InstanceInfoView {
        InstanceInfoView {
            pid: self.pid,
            cwd: self.cwd@,
            main_file: self.main_file@,
            buffers: texts(self.buffers@),
            version: self.version@,
        }
    }
}

impl Clone for InstanceInfo {
    fn clone(&self) -> (r: InstanceInfo)
        ensures
            r@ == self@,
    {
        let mut buffers: Vec<String> = Vec::new();
        for i in 0..self.buffers.len()
            invariant
                buffers@.len() == i,
                forall|j: int| 0 <= j < i ==> (#[trigger] buffers@[j])@ == self.buffers@[j]@,
        {
            buffers.push(self.buffers[i].clone());
        }
        assert(texts(buffers@) =~= texts(self.buffers@));
        InstanceInfo {
            pid: self.pid,
            cwd: self.cwd.clone(),
            main_file: self.main_file.clone(),
            buffers,
            version: self.version.clone(),
        }
    }
}

/// An error that Vim reports in answer to a request.
#[derive(Debug)]
pub struct ResponseError {
    pub message: String,
}

impl View for ResponseError {
    type V = Seq<char>;

    open spec fn view(&self) -> Seq<char> {
        self.message@
    }
}

impl Clone for ResponseError {
    fn clone(&self) -> (r: ResponseError)
        ensures
            r@ == self@,
    {
        ResponseError { message: self.message.clone() }
    }
}

/// A message arriving from a Vim instance.
///
/// Vim sends either a `register` / `state_update` push (tagged by `type`) or a
/// response to a request we sent (identified by `id`).
#[derive(Debug)]
pub struct IncomingMessage {
    pub msg_type: Option<String>,
    pub instance_id: Option<String>,
    pub info: Option<InstanceInfo>,
    pub state: Option<Json>,
    pub id: Option<i64>,
    pub result: Option<Json>,
    pub error: Option<ResponseError>,
}

/// What an [`IncomingMessage`] says.
pub struct IncomingMessageView {
    pub msg_type: Option<Seq<char>>,
    pub instance_id: Option<Seq<char>>,
    pub info: Option<InstanceInfoView>,
    pub state: Option<JsonView>,
    pub id: Option<i64>,
    pub result: Option<JsonView>,
    pub error: Option<Seq<char>>,
}

/// What an optional string holds.
pub open spec fn option_text(o: Option<String>) -> Option<Seq<char>> {
    match o {
        Some(s) => Some(s@),
        None => None,
    }
}

impl View for IncomingMessage {
    type V = IncomingMessageView;

    open spec fn view(&self) -> IncomingMessageView {
        IncomingMessageView {
            msg_type: option_text(self.msg_type),
            instance_id: option_text(self.instance_id),
            info: match self.info {
                Some(info) => Some(info@),
                None => None,
            },
            state: option_json(self.state),
            id: self.id,
            result: option_json(self.result),
            error: match self.error {
                Some(e) => Some(e@),
                None => None,
            },
        }
    }
}

/// Whether `line` is one line of the protocol: it ends in a line break and has no
/// other.
pub open spec fn framed(line: Seq<char>) -> bool {
    line.len() > 0 && line.last() == '\n' && !line.drop_last().contains('\n')
}

/// A request we send to Vim: `{"id":N,"method":"...","params":{...}}\n`.
#[derive(Debug)]
pub struct Request {
    pub id: i64,
    pub method: &'static str,
    pub params: Json,
}

/// The line of a request.
pub open spec fn request_line(id: i64, method: Seq<char>, params: JsonView) -> Seq<char> {
    compact_text(
        JsonView::Object(
            map![
                "id"@ => JsonView::Number(NumberView::Int(id as int)),
                "method"@ => JsonView::Str(method),
                "params"@ => params,
            ],
        ),
    ) + "\n"@
}

impl Request {
    /// The line that carries this request.
    pub fn line(&self) -> (r: String)
        ensures
            r@ == request_line(self.id, self.method@, self.params@),
            framed(r@),
    {
        let entries = with_entry(Vec::new(), "id", Json::Int(self.id));
        let entries = with_entry(entries, "method", Json::string(self.method));
        let entries = with_entry(entries, "params", self.params.clone());
        let text = Json::Object(entries).to_compact();
        proof {
            reveal_strlit("\n");
        }
        let line = text.concat("\n");
        assert(line@.drop_last() =~= text@);
        line
    }
}

/// The line that tells Vim to run a command. Nobody waits for an answer to it.
pub open spec fn command_line(command: Seq<char>) -> Seq<char> {
    request_line(
        0,
        "execute_command"@,
        JsonView::Object(map!["command"@ => JsonView::Str(command)]),
    )
}

/// The line that tells Vim to run `command`.
pub fn execute_command_line(command: &str) -> (r: String)
    ensures
        r@ == command_line(command@),
        framed(r@),
{
    let params = Json::Object(with_entry(Vec::new(), "command", Json::string(command)));
    let request = Request { id: 0, method: "execute_command", params };
    request.line()
}

/// Acknowledgment we send back after a successful registration.
#[derive(Debug)]
pub struct Registered {
    pub msg_type: &'static str,
    pub instance_id: String,
}

/// The line of an acknowledgment: `{"type":"...","instance_id":"..."}\n`.
pub open spec fn registered_line(msg_type: Seq<char>, instance_id: Seq<char>) -> Seq<char> {
    "{\"type\":"@ + compact_text(JsonView::Str(msg_type)) + ",\"instance_id\":"@ + compact_text(
        JsonView::Str(instance_id),
    ) + "}\n"@
}

impl Registered {
    pub fn new(instance_id: String) -> (r: Self)
        ensures
            r.msg_type@ == "registered"@,
            r.instance_id == instance_id,
    {
        Registered { msg_type: "registered", instance_id }
    }

    /// The line that carries this acknowledgment.
    pub fn line(&self) -> (r: String)
        ensures
            r@ == registered_line(self.msg_type@, self.instance_id@),
            framed(r@),
    {
        let kind = Json::string(self.msg_type).to_compact();
        let id = Json::string(self.instance_id.as_str()).to_compact();
        let line = "{\"type\":".to_owned().concat(kind.as_str()).concat(",\"instance_id\":").concat(
            id.as_str(),
        ).concat("}\n");
        proof {
            reveal_strlit("{\"type\":");
            reveal_strlit(",\"instance_id\":");
            reveal_strlit("}\n");
            assert forall|i: int| 0 <= i < line@.len() - 1 implies line@[i] != '\n' by {}
        }
        line
    }
}

} // verus!
