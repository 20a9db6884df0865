//! What is said of a command, by what the states before and after it show.

use crate::bridge::judged_result;
use crate::command_laws::law_exit_by_first_word;
use crate::commands::active_place;
use crate::commands::current_id;
use crate::commands::current_modified;
use crate::commands::current_name;
use crate::commands::first_active;
use crate::commands::is_exit;
use crate::commands::judged;
use crate::commands::shown_name;
use crate::commands::verdict;
use crate::json::same_json;
use crate::json::JsonView;
use crate::serde_values::compact_text;
use crate::text::decimal;
use crate::text::is_whitespace;
use crate::text::lowercase;
use crate::text::starts_with;
use crate::text::word;
use crate::text::words;
use crate::text_laws::is_tight;
use crate::text_laws::is_white;
use crate::text_laws::law_contains_with_something_around;
use crate::text_laws::law_starts_with_something_behind;
use crate::text_laws::law_tight_text_is_one_word;
use crate::text_laws::law_trim_takes_the_surroundings;
use crate::text_laws::law_white_space_parts_words;
use vstd::prelude::*;

verus! {

// ---------------------------------------------------------------------------
// Commands and states
// ---------------------------------------------------------------------------
/// A command that is typed as a name, with or without arguments behind a space.
pub open spec fn typed(name: Seq<char>, args: Option<Seq<char>>) -> Seq<char> {
    match args {
        Some(args) => name + seq![' '] + args,
        None => name,
    }
}

/// Whether a command is a name, with or without arguments.
pub open spec fn is_typed(cmd: Seq<char>, name: Seq<char>) -> bool {
    exists|args: Option<Seq<char>>| cmd == #[trigger] typed(name, args)
}

/// Whether a command is a name with arguments.
pub open spec fn is_typed_with(cmd: Seq<char>, name: Seq<char>) -> bool {
    exists|args: Seq<char>| cmd == #[trigger] typed(name, Some(args))
}

/// How many items the array under `key` has in a state that is an object; a state
/// without such an array has none.
pub open spec fn length_of(state: JsonView, key: Seq<char>) -> nat {
    if state is Object && state->Object_0.contains_key(key) && state->Object_0[key] is Array {
        state->Object_0[key]->Array_0.len()
    } else {
        0
    }
}

/// Whether a tab says of itself that it is active.
pub open spec fn is_active(tab: JsonView) -> bool {
    tab is Object && tab->Object_0.contains_key("active"@) && tab->Object_0["active"@]
        == JsonView::Bool(true)
}

/// Whether `place` is that of the first active tab of a state, counted from one, or
/// zero where no tab is active.
pub open spec fn is_active_place(state: JsonView, place: int) -> bool {
    let n = length_of(state, "tabs"@);
    let tabs = state->Object_0["tabs"@]->Array_0;
    if place == 0 {
        forall|i: int| 0 <= i < n ==> !is_active(#[trigger] tabs[i])
    } else {
        &&& 1 <= place <= n
        &&& is_active(tabs[place - 1])
        &&& forall|i: int| 0 <= i < place - 1 ==> !is_active(#[trigger] tabs[i])
    }
}

/// What a state says of its current buffer under `key`.
pub open spec fn of_buffer(state: JsonView, key: Seq<char>) -> Option<JsonView> {
    if state is Object && state->Object_0.contains_key("current_buffer"@) {
        let buffer = state->Object_0["current_buffer"@];
        if buffer is Object && buffer->Object_0.contains_key(key) {
            Some(buffer->Object_0[key])
        } else {
            None
        }
    } else {
        None
    }
}

proof fn lemma_typed(cmd: Seq<char>, name: Seq<char>)
    ensures
        is_typed(cmd, name) <==> cmd == name || starts_with(cmd, name + " "@),
        is_typed_with(cmd, name) <==> starts_with(cmd, name + " "@),
{
    reveal_strlit(" ");
    assert(" "@ =~= seq![' ']);
    law_starts_with_something_behind(cmd, name + " "@);
    if cmd == name {
        assert(cmd == typed(name, None));
    }
    if starts_with(cmd, name + " "@) {
        let rest = choose|rest: Seq<char>| cmd == #[trigger] (name + " "@ + rest);
        assert(cmd == typed(name, Some(rest)));
    }
    if is_typed_with(cmd, name) {
        let args = choose|args: Seq<char>| cmd == #[trigger] typed(name, Some(args));
        assert(cmd == name + " "@ + args);
    }
    if is_typed(cmd, name) {
        let args = choose|args: Option<Seq<char>>| cmd == #[trigger] typed(name, args);
        match args {
            Some(args) => {
                assert(cmd == name + " "@ + args);
            },
            None => {},
        }
    }
}

/// The names that commands are told by, letter by letter.
proof fn lemma_names()
    ensures
        "split"@ == seq!['s', 'p', 'l', 'i', 't'],
        "vsplit"@ == seq!['v', 's', 'p', 'l', 'i', 't'],
        "tabnew"@ == seq!['t', 'a', 'b', 'n', 'e', 'w'],
        "tabnext"@ == seq!['t', 'a', 'b', 'n', 'e', 'x', 't'],
        "tabprevious"@ == seq!['t', 'a', 'b', 'p', 'r', 'e', 'v', 'i', 'o', 'u', 's'],
        "edit"@ == seq!['e', 'd', 'i', 't'],
        "e"@ == seq!['e'],
        "set"@ == seq!['s', 'e', 't'],
        "wincmd"@ == seq!['w', 'i', 'n', 'c', 'm', 'd'],
        "w"@ == seq!['w'],
        "write"@ == seq!['w', 'r', 'i', 't', 'e'],
        "edit "@ == "edit"@ + " "@,
        "e "@ == "e"@ + " "@,
        "set "@ == "set"@ + " "@,
        "wincmd "@ == "wincmd"@ + " "@,
        " "@ == seq![' '],
{
    reveal_strlit("split");
    reveal_strlit("vsplit");
    reveal_strlit("tabnew");
    reveal_strlit("tabnext");
    reveal_strlit("tabprevious");
    reveal_strlit("edit");
    reveal_strlit("e");
    reveal_strlit("set");
    reveal_strlit("wincmd");
    reveal_strlit("w");
    reveal_strlit("write");
    reveal_strlit("edit ");
    reveal_strlit("e ");
    reveal_strlit("set ");
    reveal_strlit("wincmd ");
    reveal_strlit(" ");
    assert("split"@ =~= seq!['s', 'p', 'l', 'i', 't']);
    assert("vsplit"@ =~= seq!['v', 's', 'p', 'l', 'i', 't']);
    assert("tabnew"@ =~= seq!['t', 'a', 'b', 'n', 'e', 'w']);
    assert("tabnext"@ =~= seq!['t', 'a', 'b', 'n', 'e', 'x', 't']);
    assert("tabprevious"@ =~= seq!['t', 'a', 'b', 'p', 'r', 'e', 'v', 'i', 'o', 'u', 's']);
    assert("edit"@ =~= seq!['e', 'd', 'i', 't']);
    assert("e"@ =~= seq!['e']);
    assert("set"@ =~= seq!['s', 'e', 't']);
    assert("wincmd"@ =~= seq!['w', 'i', 'n', 'c', 'm', 'd']);
    assert("w"@ =~= seq!['w']);
    assert("write"@ =~= seq!['w', 'r', 'i', 't', 'e']);
    assert("edit "@ =~= "edit"@ + " "@);
    assert("e "@ =~= "e"@ + " "@);
    assert("set "@ =~= "set"@ + " "@);
    assert("wincmd "@ =~= "wincmd"@ + " "@);
    assert(" "@ =~= seq![' ']);
}

/// Where one command is typed another is not, unless the names agree.
proof fn lemma_apart(cmd: Seq<char>, name: Seq<char>, other: Seq<char>, at: int)
    requires
        cmd == name || starts_with(cmd, name + " "@),
        0 <= at < name.len() < cmd.len() + 1,
        at < other.len() ==> name[at] != other[at],
        at == other.len() ==> name[at] != ' ',
        at <= other.len(),
    ensures
        cmd != other,
        !starts_with(cmd, other + " "@),
{
    reveal_strlit(" ");
    let n = name + " "@;
    let o = other + " "@;
    if cmd != name {
        assert(cmd.take(n.len() as int)[at] == n[at]);
    }
    assert(cmd[at] == name[at]);
    if starts_with(cmd, o) {
        assert(cmd.take(o.len() as int)[at] == o[at]);
    }
}

// ---------------------------------------------------------------------------
// Opening windows and tabs
// ---------------------------------------------------------------------------
/// `split` is judged by the windows alone: it took effect exactly where there are
/// more of them after it than before, and what is said names both numbers.
pub proof fn law_split_counts_windows(
    cmd: Seq<char>,
    command: Seq<char>,
    before: JsonView,
    after: JsonView,
)
    requires
        is_typed(cmd, "split"@),
    ensures
        ({
            let (b, a) = (length_of(before, "windows"@), length_of(after, "windows"@));
            verdict(cmd, command, before, after) == if a > b {
                (
                    true,
                    "Window split successful. Windows increased from "@ + decimal(b) + " to "@
                        + decimal(a) + "."@,
                )
            } else {
                (false, "Window split may have failed. Window count unchanged: "@ + decimal(b) + "."@)
            }
        }),
{
    lemma_typed(cmd, "split"@);
}

/// `vsplit` is judged by the windows alone, as `split` is.
pub proof fn law_vsplit_counts_windows(
    cmd: Seq<char>,
    command: Seq<char>,
    before: JsonView,
    after: JsonView,
)
    requires
        is_typed(cmd, "vsplit"@),
    ensures
        ({
            let (b, a) = (length_of(before, "windows"@), length_of(after, "windows"@));
            verdict(cmd, command, before, after) == if a > b {
                (
                    true,
                    "Vertical split successful. Windows increased from "@ + decimal(b) + " to "@
                        + decimal(a) + "."@,
                )
            } else {
                (
                    false,
                    "Vertical split may have failed. Window count unchanged: "@ + decimal(b) + "."@,
                )
            }
        }),
{
    lemma_names();
    lemma_typed(cmd, "vsplit"@);
    lemma_apart(cmd, "vsplit"@, "split"@, 0);
}

/// `tabnew` is judged by the tabs alone: it took effect exactly where there are more
/// of them after it than before, whatever the states say of windows, and what is
/// said names both numbers.
pub proof fn law_tabnew_counts_tabs(
    cmd: Seq<char>,
    command: Seq<char>,
    before: JsonView,
    after: JsonView,
)
    requires
        is_typed(cmd, "tabnew"@),
    ensures
        ({
            let (b, a) = (length_of(before, "tabs"@), length_of(after, "tabs"@));
            verdict(cmd, command, before, after) == if a > b {
                (
                    true,
                    "New tab created successfully. Tabs increased from "@ + decimal(b) + " to "@
                        + decimal(a) + "."@,
                )
            } else {
                (false, "Tab creation may have failed. Tab count unchanged: "@ + decimal(b) + "."@)
            }
        }),
{
    lemma_names();
    lemma_typed(cmd, "tabnew"@);
    lemma_apart(cmd, "tabnew"@, "split"@, 0);
    lemma_apart(cmd, "tabnew"@, "vsplit"@, 0);
}

// ---------------------------------------------------------------------------
// Moving between tabs
// ---------------------------------------------------------------------------
proof fn lemma_first_active(tabs: Seq<JsonView>)
    ensures
        match first_active(tabs) {
            Some(i) => {
                &&& i < tabs.len()
                &&& is_active(tabs[i as int])
                &&& forall|j: int| 0 <= j < i ==> !is_active(#[trigger] tabs[j])
            },
            None => forall|j: int| 0 <= j < tabs.len() ==> !is_active(#[trigger] tabs[j]),
        },
    decreases tabs.len(),
{
    if tabs.len() > 0 {
        let front = tabs.drop_last();
        lemma_first_active(front);
        assert(tabs.last().bool_or("active"@, false) == is_active(tabs.last()));
        assert forall|j: int| 0 <= j < front.len() implies is_active(#[trigger] tabs[j])
            == is_active(front[j]) by {}
        match first_active(front) {
            Some(i) => {
                assert(tabs[i as int] == front[i as int]);
            },
            None => {
                assert forall|j: int| 0 <= j < tabs.len() - 1 implies !is_active(
                    #[trigger] tabs[j],
                ) by {
                    assert(front[j] == tabs[j]);
                }
            },
        }
    }
}

proof fn lemma_active_place(state: JsonView, place: int)
    requires
        is_active_place(state, place),
    ensures
        active_place(state) == place,
{
    let tabs = state.items("tabs"@);
    let n = length_of(state, "tabs"@);
    assert(tabs.len() == n);
    assert(n > 0 ==> tabs == state->Object_0["tabs"@]->Array_0);
    lemma_first_active(tabs);
    match first_active(tabs) {
        Some(i) => {
            if place == 0 {
                assert(!is_active(tabs[i as int]));
            } else if i + 1 < place {
                assert(!is_active(tabs[i as int]));
            } else if place < i + 1 {
                assert(!is_active(tabs[place - 1]));
            }
        },
        None => {
            if place > 0 {
                assert(!is_active(tabs[place - 1]));
            }
        },
    }
}

/// `tabnext` and `tabprevious` are judged by the place of the active tab: they took
/// effect exactly where it is another after them than before, and what is said
/// names both places, or the end at which there is nowhere to go.
pub proof fn law_tab_moves_compare_active_tabs(
    cmd: Seq<char>,
    command: Seq<char>,
    before: JsonView,
    after: JsonView,
    b: int,
    a: int,
)
    requires
        cmd == "tabnext"@ || cmd == "tabprevious"@,
        is_active_place(before, b),
        is_active_place(after, a),
    ensures
        verdict(cmd, command, before, after) == if a != b {
            (
                true,
                "Tab navigation successful. Active tab changed from "@ + decimal(b as nat) + " to "@
                    + decimal(a as nat) + "."@,
            )
        } else if cmd == "tabnext"@ {
            (false, "Tab navigation may have failed or already at "@ + "last"@ + " tab."@)
        } else {
            (false, "Tab navigation may have failed or already at "@ + "first"@ + " tab."@)
        },
{
    lemma_names();
    lemma_active_place(before, b);
    lemma_active_place(after, a);
    lemma_apart(cmd, cmd, "split"@, 0);
    lemma_apart(cmd, cmd, "vsplit"@, 0);
    if cmd == "tabnext"@ {
        lemma_apart(cmd, cmd, "tabnew"@, 5);
    } else {
        lemma_apart(cmd, cmd, "tabnew"@, 3);
        assert("tabnext"@[3] != "tabprevious"@[3]);
    }
}

// ---------------------------------------------------------------------------
// Buffers
// ---------------------------------------------------------------------------
/// The name of the current buffer that a state reports, empty where it reports
/// none.
pub open spec fn reported_name(state: JsonView) -> Seq<char> {
    match of_buffer(state, "name"@) {
        Some(JsonView::Str(name)) => name,
        _ => Seq::empty(),
    }
}

/// `edit` and `e` are judged by the first thing that is typed behind them: they took
/// effect exactly where the name of the current buffer has it in it. What is said
/// names the buffer.
pub proof fn law_edit_looks_for_the_file(
    cmd: Seq<char>,
    command: Seq<char>,
    before: JsonView,
    after: JsonView,
)
    requires
        is_typed_with(cmd, "edit"@) || is_typed_with(cmd, "e"@),
    ensures
        ({
            let name = reported_name(after);
            let opened = words(cmd).len() > 1 && words(cmd)[1].len() > 0 && exists|
                a: Seq<char>,
                b: Seq<char>,
            |
                name == #[trigger] (a + words(cmd)[1] + b);
            verdict(cmd, command, before, after) == if opened {
                (true, "File opened successfully: "@ + name)
            } else {
                (false, "File opening may have failed. Current buffer: "@ + name)
            }
        }),
{
    lemma_names();
    lemma_typed(cmd, "edit"@);
    lemma_typed(cmd, "e"@);
    reveal_strlit("");
    assert(""@ =~= Seq::empty());
    assert(reported_name(after) == current_name(after));
    if starts_with(cmd, "edit"@ + " "@) {
        lemma_apart(cmd, "edit"@, "split"@, 0);
        lemma_apart(cmd, "edit"@, "vsplit"@, 0);
        lemma_apart(cmd, "edit"@, "tabnew"@, 0);
        lemma_apart(cmd, "edit"@, "tabnext"@, 0);
        lemma_apart(cmd, "edit"@, "tabprevious"@, 0);
    } else {
        lemma_apart(cmd, "e"@, "split"@, 0);
        lemma_apart(cmd, "e"@, "vsplit"@, 0);
        lemma_apart(cmd, "e"@, "tabnew"@, 0);
        lemma_apart(cmd, "e"@, "tabnext"@, 0);
        lemma_apart(cmd, "e"@, "tabprevious"@, 0);
    }
    law_contains_with_something_around(current_name(after), word(cmd, 1));
}

/// What is typed behind `edit` or `e`, up to the next white space, is the file that
/// is looked for.
pub proof fn law_edit_takes_the_first_argument(name: Seq<char>, file: Seq<char>, rest: Seq<char>)
    requires
        name == "edit"@ || name == "e"@,
        file.len() > 0,
        forall|i: int| 0 <= i < file.len() ==> !is_whitespace(#[trigger] file[i]),
    ensures
        words(typed(name, Some(file))) == seq![name, file],
        words(typed(name, Some(file + seq![' '] + rest)))[1] == file,
        words(typed(name, Some(file + seq![' '] + rest))).len() > 1,
{
    lemma_names();
    law_tight_text_is_one_word(name);
    law_tight_text_is_one_word(file);
    let none: Seq<char> = Seq::empty();
    law_white_space_parts_words(name, ' ', file);
    assert(name.push(' ') + file =~= typed(name, Some(file)));
    assert(seq![name] + seq![file] =~= seq![name, file]);
    let cmd = typed(name, Some(file + seq![' '] + rest));
    law_white_space_parts_words(name, ' ', file + seq![' '] + rest);
    assert(name.push(' ') + (file + seq![' '] + rest) =~= cmd);
    law_white_space_parts_words(file, ' ', rest);
    assert(file.push(' ') + rest =~= file + seq![' '] + rest);
    assert(words(cmd) == seq![name] + (seq![file] + words(rest)));
    assert(words(cmd)[1] == file);
}

/// `set` counts as executed, whatever the states show.
pub proof fn law_set_is_executed(
    cmd: Seq<char>,
    command: Seq<char>,
    before: JsonView,
    after: JsonView,
)
    requires
        is_typed_with(cmd, "set"@),
    ensures
        verdict(cmd, command, before, after) == (true, "Setting command executed: "@ + command),
{
    lemma_names();
    lemma_typed(cmd, "set"@);
    lemma_apart(cmd, "set"@, "split"@, 1);
    lemma_apart(cmd, "set"@, "vsplit"@, 0);
    lemma_apart(cmd, "set"@, "tabnew"@, 0);
    lemma_apart(cmd, "set"@, "tabnext"@, 0);
    lemma_apart(cmd, "set"@, "tabprevious"@, 0);
    lemma_apart(cmd, "set"@, "edit"@, 0);
    lemma_apart(cmd, "set"@, "e"@, 0);
}

/// `wincmd` always counts as executed. It is reported as a move exactly where the
/// id of the current buffer is another after it than before, and then the new id is
/// named, as JSON.
pub proof fn law_wincmd_compares_buffer_ids(
    cmd: Seq<char>,
    command: Seq<char>,
    before: JsonView,
    after: JsonView,
)
    requires
        is_typed_with(cmd, "wincmd"@),
    ensures
        ({
            let (b, a) = (of_buffer(before, "id"@), of_buffer(after, "id"@));
            let stayed = a is Some == b is Some && (a is Some ==> same_json(b->Some_0, a->Some_0));
            verdict(cmd, command, before, after) == (
                true,
                if stayed {
                    "Window navigation command executed: "@ + command
                } else if a is Some {
                    "Window navigation successful. Moved to buffer "@ + compact_text(a->Some_0)
                        + "."@
                } else {
                    "Window navigation successful. Moved to buffer "@ + "."@
                },
            )
        }),
{
    lemma_names();
    lemma_typed(cmd, "wincmd"@);
    lemma_apart(cmd, "wincmd"@, "split"@, 0);
    lemma_apart(cmd, "wincmd"@, "vsplit"@, 0);
    lemma_apart(cmd, "wincmd"@, "tabnew"@, 0);
    lemma_apart(cmd, "wincmd"@, "tabnext"@, 0);
    lemma_apart(cmd, "wincmd"@, "tabprevious"@, 0);
    lemma_apart(cmd, "wincmd"@, "edit"@, 0);
    lemma_apart(cmd, "wincmd"@, "e"@, 0);
    lemma_apart(cmd, "wincmd"@, "set"@, 0);
    assert(current_id(before) == of_buffer(before, "id"@));
    assert(current_id(after) == of_buffer(after, "id"@));
    reveal_strlit("");
    let head = "Window navigation successful. Moved to buffer "@;
    assert(head + ""@ + "."@ =~= head + "."@);
}

/// `w` and `write` always count as executed. They are reported as saving exactly
/// where the state after says that the current buffer is not modified, and then the
/// buffer is named, one without a name as such.
pub proof fn law_write_reports_saving(
    cmd: Seq<char>,
    command: Seq<char>,
    before: JsonView,
    after: JsonView,
)
    requires
        cmd == "w"@ || cmd == "write"@,
    ensures
        verdict(cmd, command, before, after) == (
            true,
            if of_buffer(after, "modified"@) == Some(JsonView::Bool(false)) {
                "File saved successfully: "@ + if reported_name(after).len() == 0 {
                    "[No Name]"@
                } else {
                    reported_name(after)
                }
            } else {
                "Write command executed: "@ + command
            },
        ),
{
    lemma_names();
    reveal_strlit("");
    assert(""@ =~= Seq::empty());
    assert(reported_name(after) == current_name(after));
    lemma_apart(cmd, cmd, "split"@, 0);
    lemma_apart(cmd, cmd, "vsplit"@, 0);
    lemma_apart(cmd, cmd, "tabnew"@, 0);
    lemma_apart(cmd, cmd, "tabnext"@, 0);
    lemma_apart(cmd, cmd, "tabprevious"@, 0);
    lemma_apart(cmd, cmd, "edit"@, 0);
    lemma_apart(cmd, cmd, "e"@, 0);
    lemma_apart(cmd, cmd, "set"@, 0);
    if cmd == "w"@ {
        assert(!starts_with(cmd, "wincmd "@));
    } else {
        lemma_apart(cmd, cmd, "wincmd"@, 1);
    }
    assert(current_modified(after) == !(of_buffer(after, "modified"@) == Some(
        JsonView::Bool(false),
    )));
    assert(shown_name(current_name(after)) == if reported_name(after).len() == 0 {
        "[No Name]"@
    } else {
        reported_name(after)
    });
}

/// Every other command counts as executed: one that only starts like a known
/// command, or lacks the argument that a known one needs, is not taken for it.
pub proof fn law_other_commands_are_executed(
    cmd: Seq<char>,
    command: Seq<char>,
    before: JsonView,
    after: JsonView,
)
    requires
        !is_typed(cmd, "split"@),
        !is_typed(cmd, "vsplit"@),
        !is_typed(cmd, "tabnew"@),
        cmd != "tabnext"@,
        cmd != "tabprevious"@,
        !is_typed_with(cmd, "edit"@),
        !is_typed_with(cmd, "e"@),
        !is_typed_with(cmd, "set"@),
        !is_typed_with(cmd, "wincmd"@),
        cmd != "w"@,
        cmd != "write"@,
    ensures
        verdict(cmd, command, before, after) == (
            true,
            "Command executed successfully: "@ + command,
        ),
{
    lemma_names();
    lemma_typed(cmd, "split"@);
    lemma_typed(cmd, "vsplit"@);
    lemma_typed(cmd, "tabnew"@);
    lemma_typed(cmd, "edit"@);
    lemma_typed(cmd, "e"@);
    lemma_typed(cmd, "set"@);
    lemma_typed(cmd, "wincmd"@);
}

// ---------------------------------------------------------------------------
// Commands as they are given
// ---------------------------------------------------------------------------
/// A command is told by what stands between the white space around it, in lower
/// case; what is said repeats it as it was given.
pub proof fn law_command_is_told_by_its_lower_case(
    lead: Seq<char>,
    body: Seq<char>,
    tail: Seq<char>,
    before: JsonView,
    after: JsonView,
)
    requires
        is_white(lead),
        is_white(tail),
        is_tight(body),
    ensures
        judged(lead + body + tail, before, after) == verdict(
            lowercase(body),
            lead + body + tail,
            before,
            after,
        ),
{
    law_trim_takes_the_surroundings(lead, body, tail);
}

/// A judged command succeeds exactly where the judgement is positive, and says what
/// the judgement says; a failure is marked as one.
pub proof fn law_result_follows_the_judgement(
    command: Seq<char>,
    before: JsonView,
    after: JsonView,
)
    ensures
        ({
            let (ok, message) = judged(command, before, after);
            &&& ok ==> judged_result(command, before, after) == Ok::<Seq<char>, Seq<char>>(message)
            &&& !ok ==> judged_result(command, before, after) == Err::<Seq<char>, Seq<char>>(
                "Command verification failed: "@ + message,
            )
        }),
{
}

/// The commands that end Vim are those whose first word is one of nine.
pub proof fn law_nine_words_end_vim(
    lead: Seq<char>,
    first: Seq<char>,
    rest: Option<Seq<char>>,
)
    requires
        is_white(lead),
        first.len() > 0,
        forall|i: int| 0 <= i < first.len() ==> !is_whitespace(#[trigger] first[i]),
    ensures
        is_exit(lead + typed(first, rest)) <==> seq![
            "q"@,
            "qa"@,
            "qall"@,
            "wq"@,
            "wqa"@,
            "wqall"@,
            "q!"@,
            "qa!"@,
            "qall!"@,
        ].contains(first),
{
    let all = seq!["q"@, "qa"@, "qall"@, "wq"@, "wqa"@, "wqall"@, "q!"@, "qa!"@, "qall!"@];
    assert(all[0] == "q"@ && all[1] == "qa"@ && all[2] == "qall"@ && all[3] == "wq"@ && all[4]
        == "wqa"@ && all[5] == "wqall"@ && all[6] == "q!"@ && all[7] == "qa!"@ && all[8]
        == "qall!"@);
    let command = lead + typed(first, rest);
    law_exit_by_first_word(command);
    law_tight_text_is_one_word(first);
    lemma_lead(lead, typed(first, rest));
    match rest {
        Some(args) => {
            law_white_space_parts_words(first, ' ', args);
            assert(first.push(' ') + args =~= typed(first, rest));
            assert((seq![first] + words(args))[0] == first);
        },
        None => {},
    }
    assert(word(command, 0) == first);
}

proof fn lemma_lead(lead: Seq<char>, s: Seq<char>)
    requires
        is_white(lead),
    ensures
        words(lead + s) == words(s),
    decreases lead.len(),
{
    if lead.len() > 0 {
        assert((lead + s)[0] == lead[0]);
        assert((lead + s).drop_first() =~= lead.drop_first() + s);
        assert forall|i: int| 0 <= i < lead.drop_first().len() implies is_whitespace(
            #[trigger] lead.drop_first()[i],
        ) by {
            assert(lead.drop_first()[i] == lead[i + 1]);
        }
        lemma_lead(lead.drop_first(), s);
    } else {
        assert(lead + s =~= s);
    }
}

} // verus!
