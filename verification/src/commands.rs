//! Ex commands: which of them end Vim, and whether one took effect, judged by
//! Vim's state before and after it.

use crate::json::array_view;
use crate::json::same_json;
use crate::json::Json;
use crate::json::JsonView;
use crate::serde_values::compact_text;
use crate::text::begins;
use crate::text::contains;
use crate::text::contains_text;
use crate::text::decimal;
use crate::text::eq;
use crate::text::lowercase;
use crate::text::lowered;
use crate::text::number_text;
use crate::text::starts_with;
use crate::text::trim;
use crate::text::trimmed;
use crate::text::word;
use crate::text::word_at;
use vstd::prelude::*;

verus! {

// ---------------------------------------------------------------------------
// Commands that end Vim
// ---------------------------------------------------------------------------
/// Whether `first` names a command that ends Vim.
pub open spec fn is_exit_word(first: Seq<char>) -> bool {
    ||| first == "q"@
    ||| first == "qa"@
    ||| first == "qall"@
    ||| first == "wq"@
    ||| first == "wqa"@
    ||| first == "wqall"@
    ||| first == "q!"@
    ||| first == "qa!"@
    ||| first == "qall!"@
}

/// Whether a command line ends Vim: its first word decides.
pub open spec fn is_exit(command: Seq<char>) -> bool {
    is_exit_word(word(trim(command), 0))
}

/// Is this an Ex command that exits Vim (so the socket will close instead of
/// replying)?
pub fn is_exit_command(command: &str) -> (r: bool)
    ensures
        r == is_exit(command@),
{
    let word = word_at(trimmed(command), 0);
    let first = word.as_str();
    eq(first, "q") || eq(first, "qa") || eq(first, "qall") || eq(first, "wq") || eq(first, "wqa")
        || eq(first, "wqall") || eq(first, "q!") || eq(first, "qa!") || eq(first, "qall!")
}

// ---------------------------------------------------------------------------
// What the state reports
// ---------------------------------------------------------------------------
/// The number of windows that a state lists.
pub open spec fn window_count(state: JsonView) -> nat {
    state.items("windows"@).len()
}

/// The number of tabs that a state lists.
pub open spec fn tab_count(state: JsonView) -> nat {
    state.items("tabs"@).len()
}

/// The index of the first active tab.
pub open spec fn first_active(tabs: Seq<JsonView>) -> Option<nat>
    decreases tabs.len(),
{
    if tabs.len() == 0 {
        None
    } else {
        match first_active(tabs.drop_last()) {
            Some(i) => Some(i),
            None => if tabs.last().bool_or("active"@, false) {
                Some((tabs.len() - 1) as nat)
            } else {
                None
            },
        }
    }
}

/// The place of a state's active tab, counted from one; zero where no tab is
/// active.
pub open spec fn active_place(state: JsonView) -> nat {
    match first_active(state.items("tabs"@)) {
        Some(i) => i + 1,
        None => 0,
    }
}

/// The name of a state's current buffer, empty where the state has none.
pub open spec fn current_name(state: JsonView) -> Seq<char> {
    match state.get2("current_buffer"@, "name"@) {
        Some(JsonView::Str(s)) => s,
        _ => ""@,
    }
}

/// Whether a state's current buffer has unsaved changes. A state that does not
/// say so counts as unsaved.
pub open spec fn current_modified(state: JsonView) -> bool {
    match state.get2("current_buffer"@, "modified"@) {
        Some(JsonView::Bool(b)) => b,
        _ => true,
    }
}

/// The id of a state's current buffer.
pub open spec fn current_id(state: JsonView) -> Option<JsonView> {
    state.get2("current_buffer"@, "id"@)
}

/// Whether two optional values are equal.
pub open spec fn same_option(a: Option<JsonView>, b: Option<JsonView>) -> bool {
    match (a, b) {
        (Some(x), Some(y)) => same_json(x, y),
        (None, None) => true,
        _ => false,
    }
}

/// A buffer's name as it is shown.
pub open spec fn shown_name(name: Seq<char>) -> Seq<char> {
    if name.len() == 0 {
        "[No Name]"@
    } else {
        name
    }
}

/// The number of items in the array under `key`.
fn count_items(state: &Json, key: &str) -> (r: u64)
    ensures
        r == state@.items(key@).len(),
{
    match state.get(key) {
        Some(v) => match v.as_array() {
            Some(items) => items.len() as u64,
            None => 0,
        },
        None => 0,
    }
}

/// The place of the active tab, counted from one.
fn find_active(state: &Json) -> (r: u64)
    ensures
        r == active_place(state@),
{
    match state.get("tabs") {
        Some(v) => match v.as_array() {
            Some(items) => {
                let ghost all = array_view(items@);
                for i in 0..items.len()
                    invariant
                        all == array_view(items@),
                        first_active(all.take(i as int)) is None,
                        state@.items("tabs"@) == all,
                {
                    assert(all.take(i + 1).drop_last() =~= all.take(i as int));
                    if items[i].bool_or("active", false) {
                        proof {
                            lemma_first_active_stays(all, i + 1);
                        }
                        return i as u64 + 1;
                    }
                }
                assert(all.take(all.len() as int) =~= all);
                0
            },
            None => 0,
        },
        None => 0,
    }
}

/// What is the first active tab of some of the tabs is that of all of them.
proof fn lemma_first_active_stays(tabs: Seq<JsonView>, n: int)
    requires
        0 <= n <= tabs.len(),
        first_active(tabs.take(n)) is Some,
    ensures
        first_active(tabs) == first_active(tabs.take(n)),
    decreases tabs.len(),
{
    if n < tabs.len() {
        assert(tabs.drop_last().take(n) =~= tabs.take(n));
        lemma_first_active_stays(tabs.drop_last(), n);
    } else {
        assert(tabs.take(n) =~= tabs);
    }
}

fn find_current_name(state: &Json) -> (r: &str)
    ensures
        r@ == current_name(state@),
{
    match state.get2("current_buffer", "name") {
        Some(v) => match v.as_str() {
            Some(s) => s,
            None => "",
        },
        None => "",
    }
}

fn find_current_modified(state: &Json) -> (r: bool)
    ensures
        r == current_modified(state@),
{
    match state.get2("current_buffer", "modified") {
        Some(v) => match v.as_bool() {
            Some(b) => b,
            None => true,
        },
        None => true,
    }
}

fn options_same(a: Option<&Json>, b: Option<&Json>) -> (r: bool)
    ensures
        r == same_option(
            match a {
                Some(x) => Some(x@),
                None => None,
            },
            match b {
                Some(y) => Some(y@),
                None => None,
            },
        ),
{
    match a {
        Some(x) => match b {
            Some(y) => x.same(y),
            None => false,
        },
        None => b.is_none(),
    }
}

/// A buffer's name as it is shown.
pub fn show_name(name: &str) -> (r: &str)
    ensures
        r@ == shown_name(name@),
{
    if name.is_empty() {
        "[No Name]"
    } else {
        name
    }
}

// ---------------------------------------------------------------------------
// The verdict
// ---------------------------------------------------------------------------
/// The verdict on a command that opens one more of something: `before` and `after`
/// are the counts, and the texts surround them.
pub open spec fn growth_verdict(
    before: nat,
    after: nat,
    grown: Seq<char>,
    unchanged: Seq<char>,
) -> (bool, Seq<char>) {
    if after > before {
        (true, grown + decimal(before) + " to "@ + decimal(after) + "."@)
    } else {
        (false, unchanged + decimal(before) + "."@)
    }
}

/// The verdict on a move to another tab.
pub open spec fn tab_move_verdict(before: nat, after: nat, edge: Seq<char>) -> (bool, Seq<char>) {
    if before != after {
        (
            true,
            "Tab navigation successful. Active tab changed from "@ + decimal(before) + " to "@
                + decimal(after) + "."@,
        )
    } else {
        (false, "Tab navigation may have failed or already at "@ + edge + " tab."@)
    }
}

/// The verdict on opening the file `filename`.
pub open spec fn edit_verdict(filename: Seq<char>, name: Seq<char>) -> (bool, Seq<char>) {
    if filename.len() > 0 && contains_text(name, filename) {
        (true, "File opened successfully: "@ + name)
    } else {
        (false, "File opening may have failed. Current buffer: "@ + name)
    }
}

/// The verdict on a move to another window.
pub open spec fn window_move_verdict(
    command: Seq<char>,
    before: JsonView,
    after: JsonView,
) -> (bool, Seq<char>) {
    if !same_option(current_id(before), current_id(after)) {
        let id = match current_id(after) {
            Some(id) => compact_text(id),
            None => ""@,
        };
        (true, "Window navigation successful. Moved to buffer "@ + id + "."@)
    } else {
        (true, "Window navigation command executed: "@ + command)
    }
}

/// The verdict on saving the current buffer.
pub open spec fn write_verdict(command: Seq<char>, after: JsonView) -> (bool, Seq<char>) {
    if !current_modified(after) {
        (true, "File saved successfully: "@ + shown_name(current_name(after)))
    } else {
        (true, "Write command executed: "@ + command)
    }
}

/// Whether `cmd` is the command `name`, alone or with arguments.
pub open spec fn is_command(cmd: Seq<char>, name: Seq<char>) -> bool {
    cmd == name || starts_with(cmd, name + " "@)
}

/// Whether a command took effect, and the message that says so. `cmd` is the
/// command trimmed and in lower case, `command` as it was given.
pub open spec fn verdict(
    cmd: Seq<char>,
    command: Seq<char>,
    before: JsonView,
    after: JsonView,
) -> (bool, Seq<char>) {
    if is_command(cmd, "split"@) {
        growth_verdict(
            window_count(before),
            window_count(after),
            "Window split successful. Windows increased from "@,
            "Window split may have failed. Window count unchanged: "@,
        )
    } else if is_command(cmd, "vsplit"@) {
        growth_verdict(
            window_count(before),
            window_count(after),
            "Vertical split successful. Windows increased from "@,
            "Vertical split may have failed. Window count unchanged: "@,
        )
    } else if is_command(cmd, "tabnew"@) {
        growth_verdict(
            tab_count(before),
            tab_count(after),
            "New tab created successfully. Tabs increased from "@,
            "Tab creation may have failed. Tab count unchanged: "@,
        )
    } else if cmd == "tabnext"@ {
        tab_move_verdict(active_place(before), active_place(after), "last"@)
    } else if cmd == "tabprevious"@ {
        tab_move_verdict(active_place(before), active_place(after), "first"@)
    } else if starts_with(cmd, "edit "@) || starts_with(cmd, "e "@) {
        edit_verdict(word(cmd, 1), current_name(after))
    } else if starts_with(cmd, "set "@) {
        (true, "Setting command executed: "@ + command)
    } else if starts_with(cmd, "wincmd "@) {
        window_move_verdict(command, before, after)
    } else if cmd == "w"@ || cmd == "write"@ {
        write_verdict(command, after)
    } else {
        (true, "Command executed successfully: "@ + command)
    }
}

fn judge_growth(before: u64, after: u64, grown: &str, unchanged: &str) -> (r: (bool, String))
    ensures
        (r.0, r.1@) == growth_verdict(before as nat, after as nat, grown@, unchanged@),
{
    if after > before {
        (
            true,
            grown.to_owned().concat(number_text(before).as_str()).concat(" to ").concat(
                number_text(after).as_str(),
            ).concat("."),
        )
    } else {
        (false, unchanged.to_owned().concat(number_text(before).as_str()).concat("."))
    }
}

fn judge_tab_move(before: u64, after: u64, edge: &str) -> (r: (bool, String))
    ensures
        (r.0, r.1@) == tab_move_verdict(before as nat, after as nat, edge@),
{
    if before != after {
        (
            true,
            "Tab navigation successful. Active tab changed from ".to_owned().concat(
                number_text(before).as_str(),
            ).concat(" to ").concat(number_text(after).as_str()).concat("."),
        )
    } else {
        (
            false,
            "Tab navigation may have failed or already at ".to_owned().concat(edge).concat(" tab."),
        )
    }
}

fn judge_window_move(command: &str, before: &Json, after: &Json) -> (r: (bool, String))
    ensures
        (r.0, r.1@) == window_move_verdict(command@, before@, after@),
{
    let old_id = before.get2("current_buffer", "id");
    let new_id = after.get2("current_buffer", "id");
    if !options_same(old_id, new_id) {
        let id = match new_id {
            Some(id) => id.to_compact(),
            None => "".to_owned(),
        };
        (
            true,
            "Window navigation successful. Moved to buffer ".to_owned().concat(id.as_str()).concat(
                ".",
            ),
        )
    } else {
        (true, "Window navigation command executed: ".to_owned().concat(command))
    }
}

fn command_is(cmd: &str, name: &str) -> (r: bool)
    ensures
        r == is_command(cmd@, name@),
{
    eq(cmd, name) || begins(cmd, name.to_owned().concat(" ").as_str())
}

/// Judges a command by the states before and after it. `cmd` is the command
/// trimmed and in lower case, `command` as it was given.
pub fn judge_command(cmd: &str, command: &str, before: &Json, after: &Json) -> (r: (bool, String))
    ensures
        (r.0, r.1@) == verdict(cmd@, command@, before@, after@),
{
    if command_is(cmd, "split") {
        judge_growth(
            count_items(before, "windows"),
            count_items(after, "windows"),
            "Window split successful. Windows increased from ",
            "Window split may have failed. Window count unchanged: ",
        )
    } else if command_is(cmd, "vsplit") {
        judge_growth(
            count_items(before, "windows"),
            count_items(after, "windows"),
            "Vertical split successful. Windows increased from ",
            "Vertical split may have failed. Window count unchanged: ",
        )
    } else if command_is(cmd, "tabnew") {
        judge_growth(
            count_items(before, "tabs"),
            count_items(after, "tabs"),
            "New tab created successfully. Tabs increased from ",
            "Tab creation may have failed. Tab count unchanged: ",
        )
    } else if eq(cmd, "tabnext") {
        judge_tab_move(find_active(before), find_active(after), "last")
    } else if eq(cmd, "tabprevious") {
        judge_tab_move(find_active(before), find_active(after), "first")
    } else if begins(cmd, "edit ") || begins(cmd, "e ") {
        let filename = word_at(cmd, 1);
        let name = find_current_name(after);
        if !filename.as_str().is_empty() && contains(name, filename.as_str()) {
            (true, "File opened successfully: ".to_owned().concat(name))
        } else {
            (false, "File opening may have failed. Current buffer: ".to_owned().concat(name))
        }
    } else if begins(cmd, "set ") {
        (true, "Setting command executed: ".to_owned().concat(command))
    } else if begins(cmd, "wincmd ") {
        judge_window_move(command, before, after)
    } else if eq(cmd, "w") || eq(cmd, "write") {
        if !find_current_modified(after) {
            (
                true,
                "File saved successfully: ".to_owned().concat(show_name(find_current_name(after))),
            )
        } else {
            (true, "Write command executed: ".to_owned().concat(command))
        }
    } else {
        (true, "Command executed successfully: ".to_owned().concat(command))
    }
}

/// What is said of a command as it was given.
pub open spec fn judged(command: Seq<char>, before: JsonView, after: JsonView) -> (bool, Seq<char>) {
    verdict(lowercase(trim(command)), command, before, after)
}

/// Verify a command's effect by diffing before/after state.
pub fn verify_command_execution(command: &str, before: &Json, after: &Json) -> (r: (bool, String))
    ensures
        (r.0, r.1@) == judged(command@, before@, after@),
{
    let cmd = lowered(trimmed(command));
    judge_command(cmd.as_str(), command, before, after)
}

} // verus!
