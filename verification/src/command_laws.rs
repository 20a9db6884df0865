//! What holds of every command: when one ends Vim, and how one is judged.

use crate::commands::current_id;
use crate::commands::is_command;
use crate::commands::is_exit;
use crate::commands::is_exit_word;
use crate::commands::judged;
use crate::commands::same_option;
use crate::commands::verdict;
use crate::commands::window_move_verdict;
use crate::json::same_json;
use crate::json::JsonView;
use crate::text::all_ascii;
use crate::text::ascii_lower;
use crate::text::ascii_lowercase;
use crate::text::is_whitespace;
use crate::text::lemma_word_bound;
use crate::text::lowercase;
use crate::text::starts_with;
use crate::text::trim;
use crate::text::trim_end;
use crate::text::trim_start;
use crate::text::word;
use crate::text::word_len;
use crate::text::words;
use crate::text_laws::law_tight_text_is_one_word;
use vstd::prelude::*;

verus! {

// ---------------------------------------------------------------------------
// Words
// ---------------------------------------------------------------------------
proof fn lemma_words_trim_start(s: Seq<char>)
    ensures
        words(trim_start(s)) == words(s),
    decreases s.len(),
{
    if s.len() > 0 && is_whitespace(s[0]) {
        lemma_words_trim_start(s.drop_first());
    }
}

/// White space at the end does not lengthen the first word.
proof fn lemma_word_len_push(s: Seq<char>, c: char)
    requires
        is_whitespace(c),
    ensures
        word_len(s.push(c)) == word_len(s),
    decreases s.len(),
{
    if s.len() > 0 {
        assert(s.push(c).drop_first() =~= s.drop_first().push(c));
        lemma_word_len_push(s.drop_first(), c);
    }
}

/// White space at the end adds no word.
proof fn lemma_words_push(s: Seq<char>, c: char)
    requires
        is_whitespace(c),
    ensures
        words(s.push(c)) == words(s),
    decreases s.len(),
{
    let t = s.push(c);
    if s.len() == 0 {
        assert(t.drop_first() =~= s);
    } else if is_whitespace(s[0]) {
        assert(t.drop_first() =~= s.drop_first().push(c));
        lemma_words_push(s.drop_first(), c);
    } else {
        let n = word_len(s) as int;
        lemma_word_len_push(s, c);
        lemma_word_bound(s);
        assert(t.take(n) =~= s.take(n));
        assert(t.skip(n) =~= s.skip(n).push(c));
        lemma_words_push(s.skip(n), c);
    }
}

proof fn lemma_words_trim_end(s: Seq<char>)
    ensures
        words(trim_end(s)) == words(s),
    decreases s.len(),
{
    if s.len() > 0 && is_whitespace(s.last()) {
        lemma_words_trim_end(s.drop_last());
        lemma_words_push(s.drop_last(), s.last());
        assert(s.drop_last().push(s.last()) =~= s);
    }
}

/// The words of a text do not depend on the white space around it.
pub proof fn law_words_of_trimmed(s: Seq<char>)
    ensures
        words(trim(s)) == words(s),
{
    lemma_words_trim_start(s);
    lemma_words_trim_end(trim_start(s));
}

// ---------------------------------------------------------------------------
// Commands that end Vim
// ---------------------------------------------------------------------------
/// Whether a command ends Vim is decided by its first word alone: neither the
/// white space around it nor its arguments count.
pub proof fn law_exit_by_first_word(command: Seq<char>)
    ensures
        is_exit(command) == is_exit_word(word(command, 0)),
{
    law_words_of_trimmed(command);
}

/// A command of a single word is that word.
proof fn lemma_single_word(s: Seq<char>)
    requires
        s.len() > 0,
        forall|i: int| 0 <= i < s.len() ==> !is_whitespace(#[trigger] s[i]),
    ensures
        word(s, 0) == s,
{
    law_tight_text_is_one_word(s);
}

/// The commands with which `exit_vim` ends Vim are commands that end Vim.
pub proof fn law_own_exit_commands()
    ensures
        is_exit("qall"@),
        is_exit("wqall"@),
        is_exit("qall!"@),
{
    reveal_strlit("qall");
    reveal_strlit("wqall");
    reveal_strlit("qall!");
    lemma_single_word("qall"@);
    lemma_single_word("wqall"@);
    lemma_single_word("qall!"@);
    law_exit_by_first_word("qall"@);
    law_exit_by_first_word("wqall"@);
    law_exit_by_first_word("qall!"@);
}

// ---------------------------------------------------------------------------
// The verdict
// ---------------------------------------------------------------------------
/// Whether a command opens or moves something that the states show.
pub open spec fn is_checked(cmd: Seq<char>) -> bool {
    ||| is_command(cmd, "split"@)
    ||| is_command(cmd, "vsplit"@)
    ||| is_command(cmd, "tabnew"@)
    ||| cmd == "tabnext"@
    ||| cmd == "tabprevious"@
    ||| starts_with(cmd, "edit "@)
    ||| starts_with(cmd, "e "@)
}

/// Only a command whose effect the states show can be reported as failed; every
/// other command, known or not, counts as executed.
pub proof fn law_only_checked_fail(
    cmd: Seq<char>,
    command: Seq<char>,
    before: JsonView,
    after: JsonView,
)
    ensures
        !verdict(cmd, command, before, after).0 ==> is_checked(cmd),
{
}

/// A command that opens a window or a tab, or moves to another tab, is reported as
/// failed where nothing changed.
pub proof fn law_unchanged_fails(cmd: Seq<char>, command: Seq<char>, state: JsonView)
    requires
        is_command(cmd, "split"@) || is_command(cmd, "vsplit"@) || is_command(cmd, "tabnew"@) || cmd
            == "tabnext"@ || cmd == "tabprevious"@,
    ensures
        !verdict(cmd, command, state, state).0,
{
}

/// Every JSON value equals itself.
pub proof fn law_same_json_reflexive(j: JsonView)
    ensures
        same_json(j, j),
    decreases j,
{
    match j {
        JsonView::Array(items) => {
            assert forall|i: int| 0 <= i < items.len() implies same_json(
                #[trigger] items[i],
                items[i],
            ) by {
                law_same_json_reflexive(items[i]);
            }
        },
        JsonView::Object(m) => {
            assert forall|k: Seq<char>| m.dom().contains(k) implies same_json(
                #[trigger] m[k],
                m[k],
            ) by {
                law_same_json_reflexive(m[k]);
            }
        },
        _ => {},
    }
}

/// Equality of JSON values does not depend on which comes first.
pub proof fn law_same_json_symmetric(a: JsonView, b: JsonView)
    ensures
        same_json(a, b) == same_json(b, a),
    decreases a,
{
    match (a, b) {
        (JsonView::Array(x), JsonView::Array(y)) => {
            if x.len() == y.len() {
                assert forall|i: int| 0 <= i < x.len() implies same_json(#[trigger] x[i], y[i])
                    == same_json(y[i], x[i]) by {
                    law_same_json_symmetric(x[i], y[i]);
                }
                if same_json(a, b) {
                    assert forall|i: int| 0 <= i < y.len() implies same_json(
                        #[trigger] y[i],
                        x[i],
                    ) by {
                        assert(same_json(x[i], y[i]));
                    }
                }
                if same_json(b, a) {
                    assert forall|i: int| 0 <= i < x.len() implies same_json(
                        #[trigger] x[i],
                        y[i],
                    ) by {
                        assert(same_json(y[i], x[i]));
                    }
                }
            }
        },
        (JsonView::Object(x), JsonView::Object(y)) => {
            if x.dom() == y.dom() {
                assert forall|k: Seq<char>| x.dom().contains(k) implies same_json(
                    #[trigger] x[k],
                    y[k],
                ) == same_json(y[k], x[k]) by {
                    law_same_json_symmetric(x[k], y[k]);
                }
                if same_json(a, b) {
                    assert forall|k: Seq<char>| y.dom().contains(k) implies same_json(
                        #[trigger] y[k],
                        x[k],
                    ) by {
                        assert(same_json(x[k], y[k]));
                    }
                }
                if same_json(b, a) {
                    assert forall|k: Seq<char>| x.dom().contains(k) implies same_json(
                        #[trigger] x[k],
                        y[k],
                    ) by {
                        assert(same_json(y[k], x[k]));
                    }
                }
            }
        },
        _ => {},
    }
}

/// A window command after which the current buffer is the same is not reported as
/// a move.
pub proof fn law_same_buffer_is_no_move(command: Seq<char>, state: JsonView)
    ensures
        window_move_verdict(command, state, state) == (
            true,
            "Window navigation command executed: "@ + command,
        ),
{
    match current_id(state) {
        Some(id) => {
            law_same_json_reflexive(id);
        },
        None => {},
    }
    assert(same_option(current_id(state), current_id(state)));
}

// ---------------------------------------------------------------------------
// Letter case
// ---------------------------------------------------------------------------
proof fn lemma_lower_whitespace(c: char)
    ensures
        is_whitespace(ascii_lower(c)) == is_whitespace(c),
{
}

proof fn lemma_trim_start_lower(s: Seq<char>)
    ensures
        trim_start(ascii_lowercase(s)) == ascii_lowercase(trim_start(s)),
        all_ascii(s) ==> all_ascii(trim_start(s)),
    decreases s.len(),
{
    if s.len() > 0 {
        lemma_lower_whitespace(s[0]);
        if is_whitespace(s[0]) {
            lemma_trim_start_lower(s.drop_first());
            assert(ascii_lowercase(s).drop_first() =~= ascii_lowercase(s.drop_first()));
        }
    }
}

proof fn lemma_trim_end_lower(s: Seq<char>)
    ensures
        trim_end(ascii_lowercase(s)) == ascii_lowercase(trim_end(s)),
        all_ascii(s) ==> all_ascii(trim_end(s)),
    decreases s.len(),
{
    if s.len() > 0 {
        lemma_lower_whitespace(s.last());
        if is_whitespace(s.last()) {
            lemma_trim_end_lower(s.drop_last());
            assert(ascii_lowercase(s).drop_last() =~= ascii_lowercase(s.drop_last()));
        }
    }
}

/// Whether an ASCII command took effect does not depend on the case of its
/// letters.
pub proof fn law_case_ignored(command: Seq<char>, before: JsonView, after: JsonView)
    requires
        all_ascii(command),
    ensures
        judged(command, before, after).0 == judged(ascii_lowercase(command), before, after).0,
{
    let lower = ascii_lowercase(command);
    lemma_trim_start_lower(command);
    lemma_trim_end_lower(trim_start(command));
    lemma_trim_start_lower(lower);
    lemma_trim_end_lower(trim_start(lower));
    assert(all_ascii(lower));
    let t = trim(command);
    assert(trim(lower) == ascii_lowercase(t));
    assert(ascii_lowercase(ascii_lowercase(t)) =~= ascii_lowercase(t));
    assert(lowercase(trim(lower)) == lowercase(t));
}

/// Whether a command took effect does not depend on the white space around
/// it.
pub proof fn law_surroundings_ignored(command: Seq<char>, before: JsonView, after: JsonView)
    ensures
        judged(command, before, after).0 == judged(trim(command), before, after).0,
{
    lemma_trim_twice(command);
}

proof fn lemma_trim_start_head(s: Seq<char>)
    ensures
        trim_start(s).len() == 0 || !is_whitespace(trim_start(s)[0]),
    decreases s.len(),
{
    if s.len() > 0 && is_whitespace(s[0]) {
        lemma_trim_start_head(s.drop_first());
    }
}

proof fn lemma_trim_end_keeps(s: Seq<char>)
    ensures
        trim_end(s).len() <= s.len(),
        trim_end(s) == s.take(trim_end(s).len() as int),
        trim_end(s).len() == 0 || !is_whitespace(trim_end(s).last()),
    decreases s.len(),
{
    if s.len() > 0 && is_whitespace(s.last()) {
        lemma_trim_end_keeps(s.drop_last());
        let n = trim_end(s).len() as int;
        assert(s.drop_last().take(n) =~= s.take(n));
    } else {
        assert(s.take(s.len() as int) =~= s);
    }
}

proof fn lemma_trim_twice(s: Seq<char>)
    ensures
        trim(trim(s)) == trim(s),
{
    lemma_trim_start_head(s);
    lemma_trim_end_keeps(trim_start(s));
    let t = trim(s);
    if t.len() > 0 {
        assert(t[0] == trim_start(s)[0]);
    }
    assert(trim_start(t) == t);
}

} // verus!
