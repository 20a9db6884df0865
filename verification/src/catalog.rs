//! The tools as they are announced to clients: their names, what they do, and
//! the schemas of their arguments.

use crate::json::object_view;
use crate::json::strings_view;
use crate::json::with_entry;
use crate::json::Json;
use crate::json::JsonView;
use crate::text::texts;
use vstd::prelude::*;

verus! {

/// The name by which the server announces itself.
pub const SERVER_NAME: &'static str = "vim-mcp";

/// A tool.
#[derive(Debug)]
pub struct Tool {
    pub name: &'static str,
    pub description: &'static str,
    pub schema: Json,
}

/// What a [`Tool`] is.
pub struct ToolView {
    pub name: Seq<char>,
    pub description: Seq<char>,
    pub schema: JsonView,
}

impl View for Tool {
    type V = ToolView;

    open spec fn view(&self) -> ToolView {
        ToolView { name: self.name@, description: self.description@, schema: self.schema@ }
    }
}

/// A value as a JSON schema: itself where it is an object, else the empty object.
pub open spec fn as_schema(v: JsonView) -> JsonView {
    match v {
        JsonView::Object(_) => v,
        _ => JsonView::Object(Map::empty()),
    }
}

/// Build a JSON-Schema object from a JSON value.
pub fn schema(v: Json) -> (r: Json)
    ensures
        r@ == as_schema(v@),
{
    match v {
        Json::Object(entries) => Json::Object(entries),
        _ => Json::empty_object(),
    }
}

/// The schema of an object with these properties.
pub open spec fn object_schema(properties: Map<Seq<char>, JsonView>) -> Map<Seq<char>, JsonView> {
    map!["type"@ => JsonView::Str("object"@), "properties"@ => JsonView::Object(properties)]
}

/// The schema of an argument.
pub open spec fn argument(kind: Seq<char>, description: Seq<char>) -> Map<Seq<char>, JsonView> {
    map!["type"@ => JsonView::Str(kind), "description"@ => JsonView::Str(description)]
}

/// The schema of a tool without arguments.
pub open spec fn no_arguments() -> JsonView {
    JsonView::Object(object_schema(Map::empty()))
}

/// The schema of a tool whose argument `name` is required.
pub open spec fn arguments(properties: Map<Seq<char>, JsonView>, name: Seq<char>) -> JsonView {
    JsonView::Object(object_schema(properties).insert("required"@, strings_view(seq![name])))
}

/// The schema of `exit_vim`, whose argument is optional.
pub open spec fn exit_arguments() -> JsonView {
    JsonView::Object(
        object_schema(
            map![
                "action"@ => JsonView::Object(
                    argument(
                        "string"@,
                        "Action to take: \"check\" (default), \"save_and_exit\", or \"force_exit\""@,
                    ).insert(
                        "enum"@,
                        strings_view(seq!["check"@, "save_and_exit"@, "force_exit"@]),
                    ),
                ),
            ],
        ),
    )
}

/// The schema of `vim_record_macro`.
pub open spec fn macro_arguments() -> JsonView {
    arguments(
        map![
            "macro_sequence"@ => JsonView::Object(
                argument("string"@, "The Vim keystroke sequence to record (e.g., \"0gUwj2j\")"@),
            ),
            "register"@ => JsonView::Object(
                argument(
                    "string"@,
                    "Register to save the macro in (default: \"q\"). Single letter a-z or digit 0-9"@,
                ),
            ),
            "execute"@ => JsonView::Object(
                argument(
                    "boolean"@,
                    "Whether to execute the macro immediately after recording (default: true)"@,
                ),
            ),
        ],
        "macro_sequence"@,
    )
}

/// The tools, in the order in which they are announced.
pub open spec fn tools() -> Seq<ToolView> {
    seq![
        ToolView {
            name: "list_vim_instances"@,
            description: "List all available Vim instances"@,
            schema: no_arguments(),
        },
        ToolView {
            name: "select_vim_instance"@,
            description: "Select a Vim instance to connect to"@,
            schema: arguments(
                map![
                    "instance_id"@ => JsonView::Object(
                        argument("string"@, "The ID of the Vim instance to select"@),
                    ),
                ],
                "instance_id"@,
            ),
        },
        ToolView {
            name: "get_vim_state"@,
            description: "Get the current state of the selected Vim instance"@,
            schema: no_arguments(),
        },
        ToolView {
            name: "vim_execute"@,
            description: "Execute an Ex command in the selected Vim instance"@,
            schema: arguments(
                map![
                    "command"@ => JsonView::Object(
                        argument(
                            "string"@,
                            "The Ex command to execute (e.g., \"w\", \"q\", \"set number\")"@,
                        ),
                    ),
                ],
                "command"@,
            ),
        },
        ToolView {
            name: "exit_vim"@,
            description: "Exit the selected Vim instance, with handling for unsaved changes"@,
            schema: exit_arguments(),
        },
        ToolView {
            name: "vim_search_help"@,
            description: "Search Vim help documentation for a topic and open the most relevant help section"@,
            schema: arguments(
                map![
                    "query"@ => JsonView::Object(
                        argument(
                            "string"@,
                            "The help topic to search for (e.g., \"channel\", \"buffers\")"@,
                        ),
                    ),
                ],
                "query"@,
            ),
        },
        ToolView {
            name: "vim_record_macro"@,
            description: "Record a Vim macro from a sequence of keystrokes."@,
            schema: macro_arguments(),
        },
    ]
}

fn build_argument(kind: &str, description: &str) -> (r: Vec<(String, Json)>)
    ensures
        object_view(r@) == argument(kind@, description@),
{
    let entries = with_entry(Vec::new(), "type", Json::string(kind));
    with_entry(entries, "description", Json::string(description))
}

fn build_object(properties: Vec<(String, Json)>) -> (r: Vec<(String, Json)>)
    ensures
        object_view(r@) == object_schema(object_view(properties@)),
{
    let entries = with_entry(Vec::new(), "type", Json::string("object"));
    with_entry(entries, "properties", Json::Object(properties))
}

fn build_no_arguments() -> (r: Json)
    ensures
        r@ == no_arguments(),
{
    schema(Json::Object(build_object(Vec::new())))
}

fn build_arguments(properties: Vec<(String, Json)>, name: &str) -> (r: Json)
    ensures
        r@ == arguments(object_view(properties@), name@),
{
    let mut required: Vec<String> = Vec::new();
    required.push(name.to_owned());
    assert(texts(required@) =~= seq![name@]);
    schema(
        Json::Object(with_entry(build_object(properties), "required", Json::strings(&required))),
    )
}

fn with_argument(
    properties: Vec<(String, Json)>,
    name: &str,
    kind: &str,
    description: &str,
) -> (r: Vec<(String, Json)>)
    ensures
        object_view(r@) == object_view(properties@).insert(
            name@,
            JsonView::Object(argument(kind@, description@)),
        ),
{
    with_entry(properties, name, Json::Object(build_argument(kind, description)))
}

fn build_exit_schema() -> (r: Json)
    ensures
        r@ == exit_arguments(),
{
    let mut actions: Vec<String> = Vec::new();
    actions.push("check".to_owned());
    actions.push("save_and_exit".to_owned());
    actions.push("force_exit".to_owned());
    assert(texts(actions@) =~= seq!["check"@, "save_and_exit"@, "force_exit"@]);
    let action = build_argument(
        "string",
        "Action to take: \"check\" (default), \"save_and_exit\", or \"force_exit\"",
    );
    let action = with_entry(action, "enum", Json::strings(&actions));
    let properties = with_entry(Vec::new(), "action", Json::Object(action));
    schema(Json::Object(build_object(properties)))
}

fn build_macro_schema() -> (r: Json)
    ensures
        r@ == macro_arguments(),
{
    let properties = with_argument(
        Vec::new(),
        "macro_sequence",
        "string",
        "The Vim keystroke sequence to record (e.g., \"0gUwj2j\")",
    );
    let properties = with_argument(
        properties,
        "register",
        "string",
        "Register to save the macro in (default: \"q\"). Single letter a-z or digit 0-9",
    );
    let properties = with_argument(
        properties,
        "execute",
        "boolean",
        "Whether to execute the macro immediately after recording (default: true)",
    );
    build_arguments(properties, "macro_sequence")
}

/// Lists the tools.
pub fn list_tools() -> (r: Vec<Tool>)
    ensures
        r@.map_values(|t: Tool| t@) == tools(),
{
    let mut out: Vec<Tool> = Vec::new();
    out.push(
        Tool {
            name: "list_vim_instances",
            description: "List all available Vim instances",
            schema: build_no_arguments(),
        },
    );
    let properties = with_argument(
        Vec::new(),
        "instance_id",
        "string",
        "The ID of the Vim instance to select",
    );
    out.push(
        Tool {
            name: "select_vim_instance",
            description: "Select a Vim instance to connect to",
            schema: build_arguments(properties, "instance_id"),
        },
    );
    out.push(
        Tool {
            name: "get_vim_state",
            description: "Get the current state of the selected Vim instance",
            schema: build_no_arguments(),
        },
    );
    let properties = with_argument(
        Vec::new(),
        "command",
        "string",
        "The Ex command to execute (e.g., \"w\", \"q\", \"set number\")",
    );
    out.push(
        Tool {
            name: "vim_execute",
            description: "Execute an Ex command in the selected Vim instance",
            schema: build_arguments(properties, "command"),
        },
    );
    out.push(
        Tool {
            name: "exit_vim",
            description: "Exit the selected Vim instance, with handling for unsaved changes",
            schema: build_exit_schema(),
        },
    );
    let properties = with_argument(
        Vec::new(),
        "query",
        "string",
        "The help topic to search for (e.g., \"channel\", \"buffers\")",
    );
    out.push(
        Tool {
            name: "vim_search_help",
            description: "Search Vim help documentation for a topic and open the most relevant help section",
            schema: build_arguments(properties, "query"),
        },
    );
    out.push(
        Tool {
            name: "vim_record_macro",
            description: "Record a Vim macro from a sequence of keystrokes.",
            schema: build_macro_schema(),
        },
    );
    assert(out@.map_values(|t: Tool| t@) =~= tools());
    out
}

} // verus!
