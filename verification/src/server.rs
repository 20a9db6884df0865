//! The calls of MCP clients: which tool or resource each is for, and how it goes
//! on.

use crate::bridge::on_reply;
use crate::bridge::on_sent;
use crate::bridge::on_woke;
use crate::bridge::CommandSleepView;
use crate::json::lemma_object_is;
use crate::json::with_entry;
use crate::json::Json;
use crate::json::JsonView;
use crate::registry::info_entries;
use crate::registry::info_map;
use crate::registry::ConnectionView;
use crate::registry::Outcome;
use crate::registry::OutcomeView;
use crate::registry::Registry;
use crate::registry::RegistryView;
use crate::serde_values::pretty_text;
use crate::text::eq;
use crate::tools::answer;
use crate::tools::answered;
use crate::tools::asking_state;
use crate::tools::carried_on;
use crate::tools::carry_on;
use crate::tools::check_exit;
use crate::tools::describe_help;
use crate::tools::describe_macro;
use crate::tools::executing;
use crate::tools::exit_checked;
use crate::tools::exit_vim;
use crate::tools::exiting;
use crate::tools::failed;
use crate::tools::failure;
use crate::tools::get_vim_state;
use crate::tools::help_text;
use crate::tools::instances_text;
use crate::tools::list_vim_instances;
use crate::tools::macro_text;
use crate::tools::none_selected;
use crate::tools::recording;
use crate::tools::searching;
use crate::tools::select_vim_instance;
use crate::tools::selected;
use crate::tools::selecting;
use crate::tools::vim_execute;
use crate::tools::vim_record_macro;
use crate::tools::vim_search_help;
use crate::tools::ErrorKind;
use crate::tools::Purpose;
use crate::tools::ToolReply;
use crate::tools::ToolReplyView;
use crate::tools::ToolSend;
use crate::tools::ToolSleep;
use crate::tools::ToolStep;
use crate::tools::ToolStepView;
use vstd::prelude::*;

verus! {

// ---------------------------------------------------------------------------
// Tools
// ---------------------------------------------------------------------------
/// The start of a tool call.
pub open spec fn dispatch(r: RegistryView, name: Seq<char>, args: JsonView) -> (
    RegistryView,
    ToolStepView,
) {
    if name == "list_vim_instances"@ {
        (r, answer(instances_text(r)))
    } else if name == "select_vim_instance"@ {
        selecting(r, args)
    } else if name == "get_vim_state"@ {
        asking_state(r)
    } else if name == "vim_execute"@ {
        executing(r, args)
    } else if name == "exit_vim"@ {
        exiting(r, args)
    } else if name == "vim_search_help"@ {
        searching(r, args)
    } else if name == "vim_record_macro"@ {
        recording(r, args)
    } else {
        (r, failure(ErrorKind::InvalidRequest, "Unknown tool: "@ + name))
    }
}

/// Starts a tool call. The arguments are an object.
pub fn dispatch_tool(registry: &mut Registry, name: &str, args: &Json) -> (step: ToolStep)
    requires
        old(registry).wf(),
    ensures
        final(registry).wf(),
        (final(registry)@, step@) == dispatch(old(registry)@, name@, args@),
        step.sends_framed(),
{
    if eq(name, "list_vim_instances") {
        answered(list_vim_instances(registry))
    } else if eq(name, "select_vim_instance") {
        select_vim_instance(registry, args)
    } else if eq(name, "get_vim_state") {
        get_vim_state(registry)
    } else if eq(name, "vim_execute") {
        vim_execute(registry, args)
    } else if eq(name, "exit_vim") {
        exit_vim(registry, args)
    } else if eq(name, "vim_search_help") {
        vim_search_help(registry, args)
    } else if eq(name, "vim_record_macro") {
        vim_record_macro(registry, args)
    } else {
        failed(ErrorKind::InvalidRequest, "Unknown tool: ".to_owned().concat(name))
    }
}

/// What follows when the request that a call awaits has an outcome.
pub open spec fn on_tool_reply(r: RegistryView, wait: ToolReplyView, outcome: OutcomeView) -> (
    RegistryView,
    ToolStepView,
) {
    match wait {
        ToolReplyView::Command { purpose, wait } => {
            let (next, step) = on_reply(r, wait, outcome);
            (next, carried_on(purpose, step))
        },
        ToolReplyView::State { instance_id, link, id } => {
            let (next, result) = r.finish_state(instance_id, link, id, outcome);
            match result {
                Ok(state) => (next, answer(pretty_text(state))),
                Err(e) => (next, failure(ErrorKind::Internal, e)),
            }
        },
        ToolReplyView::ExitCheck { instance_id, link, id } => {
            let (next, result) = r.finish_state(instance_id, link, id, outcome);
            match result {
                Ok(state) => exit_checked(next, instance_id, state),
                Err(e) => (next, failure(ErrorKind::Internal, e)),
            }
        },
        ToolReplyView::SearchHelp { instance_id, query, link, id } => {
            let (next, result) = r.finish_request(instance_id, link, id, outcome);
            match result {
                Ok(value) => (next, answer(help_text(query, value))),
                Err(e) => (next, failure(ErrorKind::Internal, e)),
            }
        },
        ToolReplyView::RecordMacro { instance_id, sequence, register, execute, link, id } => {
            let (next, result) = r.finish_request(instance_id, link, id, outcome);
            match result {
                Ok(value) => (next, answer(macro_text(sequence, register, execute, value))),
                Err(e) => (next, failure(ErrorKind::Internal, e)),
            }
        },
        ToolReplyView::Resource { instance_id, uri, link, id } => {
            let (next, result) = r.finish_state(instance_id, link, id, outcome);
            match result {
                Ok(state) => (next, resource_text(uri, state)),
                Err(e) => (next, failure(ErrorKind::Internal, e)),
            }
        },
    }
}

impl ToolReply {
    /// Resumes a call whose request has an outcome.
    pub fn resume(self, registry: &mut Registry, outcome: Outcome) -> (step: ToolStep)
        requires
            old(registry).wf(),
        ensures
            final(registry).wf(),
            (final(registry)@, step@) == on_tool_reply(old(registry)@, self@, outcome@),
            step.sends_framed(),
    {
        match self {
            ToolReply::Command { purpose, wait } => {
                let step = wait.resume(registry, outcome);
                carry_on(purpose, step)
            },
            ToolReply::State { instance_id, link, id } => {
                match registry.finish_state(instance_id.as_str(), link, id, outcome) {
                    Ok(state) => answered(state.to_pretty()),
                    Err(e) => failed(ErrorKind::Internal, e),
                }
            },
            ToolReply::ExitCheck { instance_id, link, id } => {
                match registry.finish_state(instance_id.as_str(), link, id, outcome) {
                    Ok(state) => check_exit(registry, instance_id.as_str(), &state),
                    Err(e) => failed(ErrorKind::Internal, e),
                }
            },
            ToolReply::SearchHelp { instance_id, query, link, id } => {
                match registry.finish_request(instance_id.as_str(), link, id, outcome) {
                    Ok(value) => answered(describe_help(query.as_str(), &value)),
                    Err(e) => failed(ErrorKind::Internal, e),
                }
            },
            ToolReply::RecordMacro { instance_id, sequence, register, execute, link, id } => {
                match registry.finish_request(instance_id.as_str(), link, id, outcome) {
                    Ok(value) => answered(
                        describe_macro(sequence.as_str(), register.as_str(), execute, &value),
                    ),
                    Err(e) => failed(ErrorKind::Internal, e),
                }
            },
            ToolReply::Resource { instance_id, uri, link, id } => {
                match registry.finish_state(instance_id.as_str(), link, id, outcome) {
                    Ok(state) => describe_resource(uri.as_str(), &state),
                    Err(e) => failed(ErrorKind::Internal, e),
                }
            },
        }
    }
}

impl ToolSend {
    /// Resumes a call whose line was sent, or could not be.
    pub fn resume(self, sent: bool) -> (step: ToolStep)
        ensures
            step@ == carried_on(self.purpose, on_sent(self.wait@, sent)),
            step.sends_framed(),
    {
        carry_on(self.purpose, self.wait.resume(sent))
    }
}

/// What follows when a call wakes.
pub open spec fn on_tool_woke(
    r: RegistryView,
    purpose: Purpose,
    wait: CommandSleepView,
) -> (RegistryView, ToolStepView) {
    let (next, step) = on_woke(r, wait);
    (next, carried_on(purpose, step))
}

impl ToolSleep {
    /// Resumes a call that wakes.
    pub fn resume(self, registry: &mut Registry) -> (step: ToolStep)
        requires
            old(registry).wf(),
        ensures
            final(registry).wf(),
            (final(registry)@, step@) == on_tool_woke(old(registry)@, self.purpose, self.wait@),
            step.sends_framed(),
    {
        carry_on(self.purpose, self.wait.resume(registry))
    }
}

// ---------------------------------------------------------------------------
// Resources
// ---------------------------------------------------------------------------
/// A resource that clients can read.
#[derive(Debug)]
pub struct Resource {
    pub uri: &'static str,
    pub name: &'static str,
}

/// What a [`Resource`] is.
pub struct ResourceView {
    pub uri: Seq<char>,
    pub name: Seq<char>,
}

impl View for Resource {
    type V = ResourceView;

    open spec fn view(&self) -> ResourceView {
        ResourceView { uri: self.uri@, name: self.name@ }
    }
}

/// The resources that there are: the list of instances, and what is read of the
/// selected one.
pub open spec fn resources(r: RegistryView) -> Seq<ResourceView> {
    let instances = ResourceView { uri: "vim://instances"@, name: "Vim Instances"@ };
    if r.selected is Some {
        seq![
            instances,
            ResourceView { uri: "vim://state"@, name: "Vim State"@ },
            ResourceView { uri: "vim://buffers"@, name: "Vim Buffers"@ },
            ResourceView { uri: "vim://tabs"@, name: "Vim Tabs"@ },
        ]
    } else {
        seq![instances]
    }
}

/// Lists the resources.
pub fn list_resources(registry: &Registry) -> (r: Vec<Resource>)
    requires
        registry.wf(),
    ensures
        r@.map_values(|x: Resource| x@) == resources(registry@),
{
    let mut out: Vec<Resource> = Vec::new();
    out.push(Resource { uri: "vim://instances", name: "Vim Instances" });
    if registry.get_selected().is_some() {
        out.push(Resource { uri: "vim://state", name: "Vim State" });
        out.push(Resource { uri: "vim://buffers", name: "Vim Buffers" });
        out.push(Resource { uri: "vim://tabs", name: "Vim Tabs" });
    }
    assert(out@.map_values(|x: Resource| x@) =~= resources(registry@));
    out
}

/// An instance as the list of instances shows it.
pub open spec fn listed(c: ConnectionView) -> JsonView {
    JsonView::Object(info_map(c.info).insert("connected"@, JsonView::Bool(true)))
}

/// The instances, by their ids.
pub open spec fn instance_list(r: RegistryView) -> JsonView {
    JsonView::Object(
        Map::new(
            |id: Seq<char>| r.connections.contains_key(id),
            |id: Seq<char>| listed(r.connections[id]),
        ),
    )
}

fn build_instance_list(registry: &Registry) -> (r: Json)
    requires
        registry.wf(),
    ensures
        r@ == instance_list(registry@),
{
    let n: usize = registry.count();
    let mut entries: Vec<(String, Json)> = Vec::new();
    for i in 0..n
        invariant
            registry.wf(),
            n == registry@.order.len(),
            entries@.len() == i,
            forall|j: int| 0 <= j < i ==> (#[trigger] entries@[j]).0@ == registry@.order[j],
            forall|j: int|
                0 <= j < i ==> (#[trigger] entries@[j]).1@ == listed(
                    registry@.connections[registry@.order[j]],
                ),
    {
        let (id, c) = registry.at(i);
        let members = with_entry(info_entries(&c.info), "connected", Json::Bool(true));
        entries.push((id.to_owned(), Json::Object(members)));
    }
    proof {
        let m = instance_list(registry@)->Object_0;
        let order = registry@.order;
        assert forall|i: int| 0 <= i < entries@.len() implies {
            &&& m.contains_key((#[trigger] entries@[i]).0@)
            &&& m[entries@[i].0@] == entries@[i].1@
        } by {
            assert(order.contains(order[i]));
        }
        assert forall|id: Seq<char>| #[trigger] m.contains_key(id) implies exists|i: int|
            0 <= i < entries@.len() && (#[trigger] entries@[i]).0@ == id by {
            assert(order.contains(id));
            let i = choose|i: int| 0 <= i < order.len() && order[i] == id;
            assert(entries@[i].0@ == id);
        }
        assert forall|i: int, j: int| 0 <= i < j < entries@.len() implies (
        #[trigger] entries@[i]).0@ != (#[trigger] entries@[j]).0@ by {
            assert(order[i] != order[j]);
        }
        lemma_object_is(entries@, m);
    }
    Json::Object(entries)
}

/// The start of reading a resource. The resources other than the list of
/// instances are parts of the state of the selected one, which is asked for first.
pub open spec fn read(r: RegistryView, uri: Seq<char>) -> (RegistryView, ToolStepView) {
    if uri == "vim://instances"@ {
        (r, answer(pretty_text(instance_list(r))))
    } else {
        match r.selected {
            Some(instance_id) => {
                let (next, asked) = r.request_state(instance_id);
                match asked {
                    Ok(ask) => (
                        next,
                        ToolStepView::Ask(
                            ToolReplyView::Resource {
                                instance_id,
                                uri,
                                link: ask.link,
                                id: ask.id,
                            },
                            ask,
                        ),
                    ),
                    Err(e) => (next, failure(ErrorKind::Internal, e)),
                }
            },
            None => (r, none_selected()),
        }
    }
}

/// Starts reading a resource.
pub fn read_resource_text(registry: &mut Registry, uri: &str) -> (step: ToolStep)
    requires
        old(registry).wf(),
    ensures
        final(registry).wf(),
        (final(registry)@, step@) == read(old(registry)@, uri@),
        step.sends_framed(),
{
    if eq(uri, "vim://instances") {
        return answered(build_instance_list(registry).to_pretty());
    }
    match selected(registry) {
        Ok(instance_id) => match registry.request_state(instance_id.as_str()) {
            Ok(ask) => ToolStep::Ask(
                ToolReply::Resource {
                    instance_id,
                    uri: uri.to_owned(),
                    link: ask.link,
                    id: ask.id,
                },
                ask,
            ),
            Err(e) => failed(ErrorKind::Internal, e),
        },
        Err(e) => ToolStep::Done { write: None, result: Err(e) },
    }
}

/// The member of a state under `key`, an empty array where there is none.
pub open spec fn part_of(state: JsonView, key: Seq<char>) -> JsonView {
    match state.get(key) {
        Some(v) => v,
        None => JsonView::Array(Seq::empty()),
    }
}

/// The text of a resource, out of the state of an instance.
pub open spec fn resource_text(uri: Seq<char>, state: JsonView) -> ToolStepView {
    if uri == "vim://buffers"@ {
        answer(pretty_text(part_of(state, "buffers"@)))
    } else if uri == "vim://tabs"@ {
        answer(pretty_text(part_of(state, "tabs"@)))
    } else if uri == "vim://state"@ {
        answer(pretty_text(state))
    } else {
        failure(ErrorKind::InvalidRequest, "Unknown resource: "@ + uri)
    }
}

fn pretty_part(state: &Json, key: &str) -> (r: String)
    ensures
        r@ == pretty_text(part_of(state@, key@)),
{
    match state.get(key) {
        Some(v) => v.to_pretty(),
        None => {
            let empty = Json::Array(Vec::new());
            assert(empty@->Array_0 =~= Seq::empty());
            empty.to_pretty()
        },
    }
}

fn describe_resource(uri: &str, state: &Json) -> (step: ToolStep)
    ensures
        step@ == resource_text(uri@, state@),
        step.sends_framed(),
{
    if eq(uri, "vim://buffers") {
        answered(pretty_part(state, "buffers"))
    } else if eq(uri, "vim://tabs") {
        answered(pretty_part(state, "tabs"))
    } else if eq(uri, "vim://state") {
        answered(state.to_pretty())
    } else {
        failed(ErrorKind::InvalidRequest, "Unknown resource: ".to_owned().concat(uri))
    }
}

} // verus!
