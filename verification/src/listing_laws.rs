//! What is listed: the instances, the resources and the tools.

use crate::call_laws::refuses;
use crate::call_laws::says;
use crate::catalog::as_schema;
use crate::catalog::tools;
use crate::json::strings_view;
use crate::json::JsonView;
use crate::json::NumberView;
use crate::registry::info_map;
use crate::registry::ConnectionView;
use crate::registry::FileWriteView;
use crate::registry::RegistryView;
use crate::serde_values::pretty_text;
use crate::server::dispatch;
use crate::server::instance_list;
use crate::server::read;
use crate::server::resources;
use crate::server_laws::is_announced;
use crate::server_laws::law_resources_need_a_selection;
use crate::server_laws::law_tools_need_a_selection;
use crate::text::decimal;
use crate::text::decimal_int;
use crate::text::joined;
use crate::tools::instance_lines;
use crate::tools::ErrorKind;
use crate::tools::ToolStepView;
use crate::value_laws::has_just;
use vstd::prelude::*;

verus! {

// ---------------------------------------------------------------------------
// Instances
// ---------------------------------------------------------------------------
/// The file of an instance as it is told: one without a file is unnamed.
pub open spec fn told_file(c: ConnectionView) -> Seq<char> {
    if c.info.main_file.len() == 0 {
        "unnamed"@
    } else {
        c.info.main_file
    }
}

proof fn lemma_tool_names()
    ensures
        "list_vim_instances"@.len() == 18,
        "select_vim_instance"@.len() == 19,
{
    reveal_strlit("list_vim_instances");
    reveal_strlit("select_vim_instance");
}

/// `list_vim_instances` tells how many instances are connected, and of each its id,
/// its process, its file and its directory, in the order in which they came. Where
/// there are several and none is selected, it asks to select one. Nothing changes.
pub proof fn law_instances_are_listed(r: RegistryView, args: JsonView, lines: Seq<Seq<char>>)
    requires
        lines.len() == r.order.len(),
        forall|i: int|
            0 <= i < lines.len() ==> #[trigger] lines[i] == {
                let c = r.connections[r.order[i]];
                "- "@ + r.order[i] + " (PID: "@ + decimal_int(c.info.pid as int) + ")\n  File: "@
                    + told_file(c) + "\n  CWD: "@ + c.info.cwd
            },
    ensures
        ({
            let (next, step) = dispatch(r, "list_vim_instances"@, args);
            let n = r.order.len();
            let found = "Found "@ + decimal(n) + " Vim instance(s):\n"@ + joined(lines, "\n"@);
            &&& next == r
            &&& n == 0 ==> says(
                step,
                "No Vim instances connected. Open Vim with the vim-mcp plugin loaded, or run :VimMCPReconnect."@,
            )
            &&& n == 1 || (n > 1 && r.selected is Some) ==> says(step, found)
            &&& n > 1 && r.selected is None ==> says(
                step,
                found
                    + "\n\nPlease select an instance using select_vim_instance with instance_id."@,
            )
        }),
{
    assert(instance_lines(r) =~= lines);
}

/// `select_vim_instance` selects the connected instance that it is given, writes its
/// id to the preference file, and tells of it; nothing else changes.
pub proof fn law_given_instance_is_selected(r: RegistryView, args: JsonView, id: Seq<char>)
    requires
        args is Object,
        args->Object_0.contains_key("instance_id"@),
        args->Object_0["instance_id"@] == JsonView::Str(id),
        r.connections.contains_key(id),
    ensures
        ({
            let (next, step) = dispatch(r, "select_vim_instance"@, args);
            let c = r.connections[id];
            &&& next.selected == Some(id)
            &&& next.connections == r.connections
            &&& next.order == r.order
            &&& next.pending_exits == r.pending_exits
            &&& next.pending == r.pending
            &&& next.next_id == r.next_id
            &&& step == ToolStepView::Done {
                write: Some(FileWriteView { path: "/tmp/vim-mcp-preference.txt"@, text: id }),
                result: Ok(
                    "Connected to Vim instance: "@ + id + "\nFile: "@ + told_file(c) + "\nCWD: "@
                        + c.info.cwd,
                ),
            }
        }),
{
    lemma_tool_names();
}

/// An instance that is not connected is refused, and those that are connected are
/// named, in the order in which they came; a call that names none is refused too.
pub proof fn law_other_instances_are_refused(r: RegistryView, args: JsonView)
    requires
        match args.get("instance_id"@) {
            Some(JsonView::Str(id)) => !r.connections.contains_key(id),
            _ => true,
        },
    ensures
        ({
            let (next, step) = dispatch(r, "select_vim_instance"@, args);
            &&& next == r
            &&& match args.get("instance_id"@) {
                Some(JsonView::Str(id)) => refuses(
                    step,
                    ErrorKind::InvalidParams,
                    "Instance '"@ + id + "' not found. Available instances: "@ + if r.order.len()
                        == 0 {
                        "none"@
                    } else {
                        joined(r.order, ", "@)
                    },
                ),
                _ => refuses(step, ErrorKind::InvalidParams, "instance_id is required"@),
            }
        }),
{
    lemma_tool_names();
}

/// Without a selection the calls that need one say how to select.
pub proof fn law_missing_selection_is_told(
    r: RegistryView,
    name: Seq<char>,
    args: JsonView,
    uri: Seq<char>,
)
    requires
        r.selected is None,
        is_announced(name),
        name != "list_vim_instances"@,
        name != "select_vim_instance"@,
        uri != "vim://instances"@,
    ensures
        refuses(
            dispatch(r, name, args).1,
            ErrorKind::InvalidRequest,
            "No Vim instance selected. Use select_vim_instance tool first."@,
        ),
        refuses(
            read(r, uri).1,
            ErrorKind::InvalidRequest,
            "No Vim instance selected. Use select_vim_instance tool first."@,
        ),
{
    law_tools_need_a_selection(r, name, args);
    law_resources_need_a_selection(r, uri);
}

// ---------------------------------------------------------------------------
// Instances in JSON
// ---------------------------------------------------------------------------
/// Whether members describe an instance: its process, its directory, its file and
/// its buffers, and one more member under `key`.
pub open spec fn describes(
    m: Map<Seq<char>, JsonView>,
    c: ConnectionView,
    key: Seq<char>,
    value: JsonView,
) -> bool {
    &&& has_just(m, seq!["pid"@, "cwd"@, "main_file"@, "buffers"@, key])
    &&& m["pid"@] == JsonView::Number(NumberView::Int(c.info.pid as int))
    &&& m["cwd"@] == JsonView::Str(c.info.cwd)
    &&& m["main_file"@] == JsonView::Str(c.info.main_file)
    &&& m["buffers"@] == strings_view(c.info.buffers)
    &&& m[key] == value
}

proof fn lemma_describes(c: ConnectionView, key: Seq<char>, value: JsonView)
    requires
        key == "started"@ || key == "connected"@,
    ensures
        describes(info_map(c.info).insert(key, value), c, key, value),
{
    reveal_strlit("pid");
    reveal_strlit("cwd");
    reveal_strlit("main_file");
    reveal_strlit("buffers");
    reveal_strlit("started");
    reveal_strlit("connected");
    assert("pid"@[0] == 'p' && "cwd"@[1] == 'w' && "main_file"@[0] == 'm' && "buffers"@[0] == 'b'
        && "started"@[0] == 's' && "connected"@[0] == 'c' && "connected"@[1] == 'o' && "cwd"@[0]
        == 'c');
    let keys = seq!["pid"@, "cwd"@, "main_file"@, "buffers"@, key];
    assert(keys[0] == "pid"@ && keys[1] == "cwd"@ && keys[2] == "main_file"@ && keys[3]
        == "buffers"@ && keys[4] == key);
    let m = info_map(c.info).insert(key, value);
    assert forall|k: Seq<char>| #[trigger] m.contains_key(k) <==> keys.contains(k) by {
        if keys.contains(k) {
            let i = choose|i: int| 0 <= i < keys.len() && keys[i] == k;
            assert(i == 0 || i == 1 || i == 2 || i == 3 || i == 4);
        }
    }
}

/// The registry file has an entry for each connected instance and for no other; it
/// describes the instance, and tells when it came.
pub proof fn law_registry_file_describes_the_connected(r: RegistryView, id: Seq<char>)
    ensures
        r.registry_file().path == "/tmp/vim-mcp-registry.json"@,
        r.registry_file().text == pretty_text(r.record()),
        r.record() is Object,
        r.record()->Object_0.contains_key(id) == r.connections.contains_key(id),
        r.connections.contains_key(id) ==> {
            let entry = r.record()->Object_0[id];
            entry is Object && describes(
                entry->Object_0,
                r.connections[id],
                "started"@,
                JsonView::Str(r.connections[id].started),
            )
        },
{
    if r.connections.contains_key(id) {
        lemma_describes(
            r.connections[id],
            "started"@,
            JsonView::Str(r.connections[id].started),
        );
    }
}

/// The resource `vim://instances` can always be read. It has an entry for each
/// connected instance and for no other; it describes the instance as connected.
pub proof fn law_instances_resource_describes_the_connected(r: RegistryView, id: Seq<char>)
    ensures
        ({
            let (next, step) = read(r, "vim://instances"@);
            let list = instance_list(r);
            &&& next == r
            &&& says(step, pretty_text(list))
            &&& list is Object
            &&& list->Object_0.contains_key(id) == r.connections.contains_key(id)
            &&& r.connections.contains_key(id) ==> {
                let entry = list->Object_0[id];
                entry is Object && describes(
                    entry->Object_0,
                    r.connections[id],
                    "connected"@,
                    JsonView::Bool(true),
                )
            }
        }),
{
    if r.connections.contains_key(id) {
        lemma_describes(r.connections[id], "connected"@, JsonView::Bool(true));
    }
}

// ---------------------------------------------------------------------------
// Resources
// ---------------------------------------------------------------------------
/// The list of instances is always there; the three parts of the state are there
/// exactly where an instance is selected.
pub proof fn law_resources_follow_the_selection(r: RegistryView)
    ensures
        resources(r).len() == if r.selected is Some {
            4nat
        } else {
            1nat
        },
        resources(r)[0].uri == "vim://instances"@ && resources(r)[0].name == "Vim Instances"@,
        r.selected is Some ==> {
            &&& resources(r)[1].uri == "vim://state"@ && resources(r)[1].name == "Vim State"@
            &&& resources(r)[2].uri == "vim://buffers"@ && resources(r)[2].name == "Vim Buffers"@
            &&& resources(r)[3].uri == "vim://tabs"@ && resources(r)[3].name == "Vim Tabs"@
        },
{
}

// ---------------------------------------------------------------------------
// Tools
// ---------------------------------------------------------------------------
/// Whether a schema has the property, of the given type and with the given
/// description.
pub open spec fn has_property(
    schema: JsonView,
    name: Seq<char>,
    kind: Seq<char>,
    description: Seq<char>,
) -> bool {
    &&& schema.get2("properties"@, name) is Some
    &&& schema.get2("properties"@, name)->Some_0.get("type"@) == Some(JsonView::Str(kind))
    &&& schema.get2("properties"@, name)->Some_0.get("description"@) == Some(
        JsonView::Str(description),
    )
}

/// Whether a schema has the properties of the list and no others.
pub open spec fn has_just_properties(schema: JsonView, names: Seq<Seq<char>>) -> bool {
    schema.get("properties"@) matches Some(JsonView::Object(m)) && has_just(m, names)
}

proof fn lemma_schema_keys()
    ensures
        "type"@ != "properties"@,
        "type"@ != "required"@,
        "type"@ != "description"@,
        "properties"@ != "required"@,
        "enum"@ != "type"@,
        "enum"@ != "description"@,
        "macro_sequence"@ != "register"@,
        "macro_sequence"@ != "execute"@,
        "register"@ != "execute"@,
{
    reveal_strlit("type");
    reveal_strlit("properties");
    reveal_strlit("required");
    reveal_strlit("description");
    reveal_strlit("enum");
    reveal_strlit("macro_sequence");
    reveal_strlit("register");
    reveal_strlit("execute");
    assert("type"@[0] == 't' && "enum"@[0] == 'e');
    assert("type"@.len() == 4 && "properties"@.len() == 10 && "required"@.len() == 8
        && "description"@.len() == 11);
    assert("macro_sequence"@.len() == 14 && "register"@.len() == 8 && "execute"@.len() == 7);
}

/// The tools without arguments are announced as such.
pub proof fn law_tools_without_arguments()
    ensures
        tools().len() == 7,
        tools()[0].name == "list_vim_instances"@,
        tools()[0].description == "List all available Vim instances"@,
        tools()[2].name == "get_vim_state"@,
        tools()[2].description == "Get the current state of the selected Vim instance"@,
        has_just_properties(tools()[0].schema, Seq::empty()),
        has_just_properties(tools()[2].schema, Seq::empty()),
        tools()[0].schema.get("required"@) is None,
        tools()[2].schema.get("required"@) is None,
{
    lemma_schema_keys();
}

/// The tools with one text as their argument require it, and say what it is.
pub proof fn law_tools_with_one_argument()
    ensures
        tools()[1].name == "select_vim_instance"@,
        tools()[1].description == "Select a Vim instance to connect to"@,
        has_just_properties(tools()[1].schema, seq!["instance_id"@]),
        has_property(
            tools()[1].schema,
            "instance_id"@,
            "string"@,
            "The ID of the Vim instance to select"@,
        ),
        tools()[1].schema.get("required"@) == Some(strings_view(seq!["instance_id"@])),
        tools()[3].name == "vim_execute"@,
        tools()[3].description == "Execute an Ex command in the selected Vim instance"@,
        has_just_properties(tools()[3].schema, seq!["command"@]),
        has_property(
            tools()[3].schema,
            "command"@,
            "string"@,
            "The Ex command to execute (e.g., \"w\", \"q\", \"set number\")"@,
        ),
        tools()[3].schema.get("required"@) == Some(strings_view(seq!["command"@])),
        tools()[5].name == "vim_search_help"@,
        tools()[5].description
            == "Search Vim help documentation for a topic and open the most relevant help section"@,
        has_just_properties(tools()[5].schema, seq!["query"@]),
        has_property(
            tools()[5].schema,
            "query"@,
            "string"@,
            "The help topic to search for (e.g., \"channel\", \"buffers\")"@,
        ),
        tools()[5].schema.get("required"@) == Some(strings_view(seq!["query"@])),
{
    lemma_schema_keys();
    assert(seq!["instance_id"@][0] == "instance_id"@);
    assert(seq!["command"@][0] == "command"@);
    assert(seq!["query"@][0] == "query"@);
}

/// `exit_vim` has one optional argument, which is one of three.
pub proof fn law_exit_tool_has_three_actions()
    ensures
        tools()[4].name == "exit_vim"@,
        tools()[4].description
            == "Exit the selected Vim instance, with handling for unsaved changes"@,
        has_just_properties(tools()[4].schema, seq!["action"@]),
        has_property(
            tools()[4].schema,
            "action"@,
            "string"@,
            "Action to take: \"check\" (default), \"save_and_exit\", or \"force_exit\""@,
        ),
        tools()[4].schema.get2("properties"@, "action"@)->Some_0.get("enum"@) == Some(
            strings_view(seq!["check"@, "save_and_exit"@, "force_exit"@]),
        ),
        tools()[4].schema.get("required"@) is None,
{
    lemma_schema_keys();
    assert(seq!["action"@][0] == "action"@);
}

/// `vim_record_macro` requires a sequence, and has a register and a switch that may
/// be left out.
pub proof fn law_macro_tool_has_three_arguments()
    ensures
        tools()[6].name == "vim_record_macro"@,
        tools()[6].description == "Record a Vim macro from a sequence of keystrokes."@,
        has_just_properties(
            tools()[6].schema,
            seq!["macro_sequence"@, "register"@, "execute"@],
        ),
        has_property(
            tools()[6].schema,
            "macro_sequence"@,
            "string"@,
            "The Vim keystroke sequence to record (e.g., \"0gUwj2j\")"@,
        ),
        has_property(
            tools()[6].schema,
            "register"@,
            "string"@,
            "Register to save the macro in (default: \"q\"). Single letter a-z or digit 0-9"@,
        ),
        has_property(
            tools()[6].schema,
            "execute"@,
            "boolean"@,
            "Whether to execute the macro immediately after recording (default: true)"@,
        ),
        tools()[6].schema.get("required"@) == Some(strings_view(seq!["macro_sequence"@])),
{
    lemma_schema_keys();
    let names = seq!["macro_sequence"@, "register"@, "execute"@];
    assert(names[0] == "macro_sequence"@ && names[1] == "register"@ && names[2] == "execute"@);
}

/// A schema is an object: an object is its own schema, and anything else has the
/// empty one.
pub proof fn law_schema_is_an_object(v: JsonView)
    ensures
        v is Object ==> as_schema(v) == v,
        !(v is Object) ==> as_schema(v) == JsonView::Object(Map::empty()),
{
}

} // verus!
