//! What holds of every text: how numbers are written, how texts are trimmed, cut
//! into words, searched, lowered and joined.

use crate::text::all_ascii;
use crate::text::contains_text;
use crate::text::decimal;
use crate::text::decimal_int;
use crate::text::found_at;
use crate::text::is_whitespace;
use crate::text::joined;
use crate::text::lemma_word_bound;
use crate::text::lowercase;
use crate::text::starts_with;
use crate::text::texts;
use crate::text::trim;
use crate::text::trim_end;
use crate::text::trim_start;
use crate::text::unicode_lowercase;
use crate::text::word;
use crate::text::word_len;
use crate::text::words;
use vstd::prelude::*;

verus! {

// ---------------------------------------------------------------------------
// Numbers
// ---------------------------------------------------------------------------
/// The number that a row of decimal digits stands for.
pub open spec fn value_of(digits: Seq<char>) -> int
    decreases digits.len(),
{
    if digits.len() == 0 {
        0
    } else {
        value_of(digits.drop_last()) * 10 + (digits.last() as int - 48)
    }
}

/// A number in decimal is a row of digits that stands for the number, and has no
/// zero in front of other digits.
pub proof fn law_decimal_stands_for_the_number(n: nat)
    ensures
        value_of(decimal(n)) == n,
        decimal(n).len() >= 1,
        decimal(n).len() > 1 ==> decimal(n)[0] != '0',
        forall|i: int| 0 <= i < decimal(n).len() ==> '0' <= #[trigger] decimal(n)[i] <= '9',
    decreases n,
{
    reveal_with_fuel(value_of, 2);
    if n >= 10 {
        let front = decimal(n / 10);
        law_decimal_stands_for_the_number(n / 10);
        assert(decimal(n).drop_last() =~= front);
        assert(decimal(n)[0] == front[0]);
        if front.len() == 1 {
            assert(value_of(front.drop_last()) == 0);
            assert(front[0] as int - 48 == n / 10);
        }
    }
}

/// A negative number is written as its opposite behind a minus sign, any other
/// without a sign.
pub proof fn law_sign_stands_in_front(i: int)
    ensures
        i >= 0 ==> decimal_int(i) == decimal(i as nat),
        i < 0 ==> decimal_int(i) == seq!['-'] + decimal((-i) as nat),
{
    reveal_strlit("-");
    assert("-"@ =~= seq!['-']);
}

// ---------------------------------------------------------------------------
// White space
// ---------------------------------------------------------------------------
/// White space is what Unicode calls so, by code points.
pub proof fn law_white_space_by_code_point(c: char)
    ensures
        is_whitespace(c) <==> {
            let n = c as int;
            9 <= n <= 13 || n == 0x20 || n == 0x85 || n == 0xa0 || n == 0x1680 || 0x2000 <= n
                <= 0x200a || n == 0x2028 || n == 0x2029 || n == 0x202f || n == 0x205f || n == 0x3000
        },
{
}

/// Whether a text is white space throughout.
pub open spec fn is_white(s: Seq<char>) -> bool {
    forall|i: int| 0 <= i < s.len() ==> is_whitespace(#[trigger] s[i])
}

/// Whether a text neither starts nor ends in white space.
pub open spec fn is_tight(s: Seq<char>) -> bool {
    s.len() > 0 ==> !is_whitespace(s[0]) && !is_whitespace(s.last())
}

proof fn lemma_trim_start_white(lead: Seq<char>, rest: Seq<char>)
    requires
        is_white(lead),
        rest.len() > 0 ==> !is_whitespace(rest[0]),
    ensures
        trim_start(lead + rest) == rest,
    decreases lead.len(),
{
    let s = lead + rest;
    if lead.len() > 0 {
        assert(s[0] == lead[0]);
        assert(s.drop_first() =~= lead.drop_first() + rest);
        assert forall|i: int| 0 <= i < lead.drop_first().len() implies is_whitespace(
            #[trigger] lead.drop_first()[i],
        ) by {
            assert(lead.drop_first()[i] == lead[i + 1]);
        }
        lemma_trim_start_white(lead.drop_first(), rest);
    } else {
        assert(s =~= rest);
    }
}

proof fn lemma_trim_start_all(s: Seq<char>)
    requires
        is_white(s),
    ensures
        trim_start(s) == Seq::<char>::empty(),
{
    lemma_trim_start_white(s, Seq::empty());
    assert(s + Seq::<char>::empty() =~= s);
}

proof fn lemma_trim_end_white(body: Seq<char>, tail: Seq<char>)
    requires
        is_white(tail),
        body.len() > 0 ==> !is_whitespace(body.last()),
    ensures
        trim_end(body + tail) == body,
    decreases tail.len(),
{
    let s = body + tail;
    if tail.len() > 0 {
        assert(s.last() == tail.last());
        assert(s.drop_last() =~= body + tail.drop_last());
        assert forall|i: int| 0 <= i < tail.drop_last().len() implies is_whitespace(
            #[trigger] tail.drop_last()[i],
        ) by {
            assert(tail.drop_last()[i] == tail[i]);
        }
        lemma_trim_end_white(body, tail.drop_last());
    } else {
        assert(s =~= body);
    }
}

/// Trimming takes away the white space around a text, and nothing else.
pub proof fn law_trim_takes_the_surroundings(lead: Seq<char>, body: Seq<char>, tail: Seq<char>)
    requires
        is_white(lead),
        is_white(tail),
        is_tight(body),
    ensures
        trim(lead + body + tail) == body,
{
    if body.len() > 0 {
        lemma_trim_start_white(lead, body + tail);
        assert(lead + body + tail =~= lead + (body + tail));
        lemma_trim_end_white(body, tail);
    } else {
        let s = lead + body + tail;
        assert forall|i: int| 0 <= i < s.len() implies is_whitespace(#[trigger] s[i]) by {
            if i < lead.len() {
                assert(s[i] == lead[i]);
            } else {
                assert(s[i] == tail[i - lead.len()]);
            }
        }
        lemma_trim_start_all(s);
        assert(body =~= Seq::empty());
    }
}

// ---------------------------------------------------------------------------
// Words
// ---------------------------------------------------------------------------
proof fn lemma_word_len_before(a: Seq<char>, c: char, b: Seq<char>)
    requires
        is_whitespace(c),
    ensures
        word_len(a.push(c) + b) == word_len(a),
    decreases a.len(),
{
    let s = a.push(c) + b;
    if a.len() > 0 {
        assert(s[0] == a[0]);
        assert(s.drop_first() =~= a.drop_first().push(c) + b);
        lemma_word_len_before(a.drop_first(), c, b);
    } else {
        assert(s[0] == c);
    }
}

/// White space parts words: the words of a text with white space in it are those
/// before it and those after it.
pub proof fn law_white_space_parts_words(a: Seq<char>, c: char, b: Seq<char>)
    requires
        is_whitespace(c),
    ensures
        words(a.push(c) + b) == words(a) + words(b),
    decreases a.len(),
{
    let s = a.push(c) + b;
    if a.len() == 0 {
        assert(s[0] == c);
        assert(s.drop_first() =~= b);
        assert(words(a) + words(b) =~= words(b));
    } else if is_whitespace(a[0]) {
        assert(s[0] == a[0]);
        assert(s.drop_first() =~= a.drop_first().push(c) + b);
        law_white_space_parts_words(a.drop_first(), c, b);
    } else {
        let n = word_len(a) as int;
        assert(s[0] == a[0]);
        lemma_word_bound(a);
        lemma_word_len_before(a, c, b);
        assert(s.take(n) =~= a.take(n));
        assert(s.skip(n) =~= a.skip(n).push(c) + b);
        law_white_space_parts_words(a.skip(n), c, b);
        assert(words(s) =~= words(a) + words(b));
    }
}

/// A text without white space is one word, and the empty text has no word.
pub proof fn law_tight_text_is_one_word(s: Seq<char>)
    requires
        forall|i: int| 0 <= i < s.len() ==> !is_whitespace(#[trigger] s[i]),
    ensures
        s.len() > 0 ==> words(s) == seq![s],
        s.len() == 0 ==> words(s) == Seq::<Seq<char>>::empty(),
{
    lemma_all_word(s);
    if s.len() > 0 {
        let n = s.len() as int;
        assert(s.take(n) =~= s);
        assert(words(s.skip(n)) =~= Seq::empty());
        assert(words(s) =~= seq![s]);
    }
}

proof fn lemma_all_word(s: Seq<char>)
    requires
        forall|i: int| 0 <= i < s.len() ==> !is_whitespace(#[trigger] s[i]),
    ensures
        word_len(s) == s.len(),
    decreases s.len(),
{
    if s.len() > 0 {
        assert forall|i: int| 0 <= i < s.len() - 1 implies !is_whitespace(
            #[trigger] s.drop_first()[i],
        ) by {
            assert(s.drop_first()[i] == s[i + 1]);
        }
        lemma_all_word(s.drop_first());
    }
}

/// The word at a place is the one that the list of words has there, and empty
/// beyond its end.
pub proof fn law_word_by_place(s: Seq<char>, n: int)
    ensures
        0 <= n < words(s).len() ==> word(s, n) == words(s)[n],
        n >= words(s).len() ==> word(s, n).len() == 0,
{
}

// ---------------------------------------------------------------------------
// Parts
// ---------------------------------------------------------------------------
/// A text contains a part exactly where it is that part with something before and
/// after it.
pub proof fn law_contains_with_something_around(s: Seq<char>, part: Seq<char>)
    ensures
        contains_text(s, part) <==> exists|a: Seq<char>, b: Seq<char>| s == #[trigger] (a + part + b),
{
    if contains_text(s, part) {
        let at = choose|at: int| found_at(s, part, at);
        let a = s.take(at);
        let b = s.skip(at + part.len());
        assert(s =~= a + s.subrange(at, at + part.len()) + b);
        assert(s == a + part + b);
    }
    if exists|a: Seq<char>, b: Seq<char>| s == #[trigger] (a + part + b) {
        let (a, b) = choose|a: Seq<char>, b: Seq<char>| s == #[trigger] (a + part + b);
        assert(s.subrange(a.len() as int, (a.len() + part.len()) as int) =~= part);
        assert(found_at(s, part, a.len() as int));
    }
}

/// A text starts with a prefix exactly where it is that prefix with something after
/// it.
pub proof fn law_starts_with_something_behind(s: Seq<char>, prefix: Seq<char>)
    ensures
        starts_with(s, prefix) <==> exists|rest: Seq<char>| s == #[trigger] (prefix + rest),
{
    if starts_with(s, prefix) {
        let rest = s.skip(prefix.len() as int);
        assert(s =~= s.take(prefix.len() as int) + rest);
        assert(s == prefix + rest);
    }
    if exists|rest: Seq<char>| s == #[trigger] (prefix + rest) {
        let rest = choose|rest: Seq<char>| s == #[trigger] (prefix + rest);
        assert(s.take(prefix.len() as int) =~= prefix);
    }
}

/// The lower-case form of an ASCII text has the same length; each capital letter
/// moves up by 32 code points, and every other character stays.
pub proof fn law_lower_case_of_ascii(s: Seq<char>, i: int)
    requires
        forall|k: int| 0 <= k < s.len() ==> 0 <= (#[trigger] s[k]) as int <= 127,
        0 <= i < s.len(),
    ensures
        lowercase(s).len() == s.len(),
        65 <= s[i] as int <= 90 ==> lowercase(s)[i] as int == s[i] as int + 32,
        !(65 <= s[i] as int <= 90) ==> lowercase(s)[i] == s[i],
{
    assert(all_ascii(s));
}

/// The lower-case form of a text that is not ASCII throughout is the one of
/// Unicode.
pub proof fn law_lower_case_of_other_texts(s: Seq<char>, i: int)
    requires
        0 <= i < s.len(),
        s[i] as int > 127,
    ensures
        lowercase(s) == unicode_lowercase(s),
{
    assert(!(s[i] <= '\u{7f}'));
}

// ---------------------------------------------------------------------------
// Lists
// ---------------------------------------------------------------------------
/// One text joined is that text; two lists joined are what each gives, with the
/// separator between them.
pub proof fn law_joined_with_separator(a: Seq<Seq<char>>, b: Seq<Seq<char>>, sep: Seq<char>)
    ensures
        a.len() == 1 ==> joined(a, sep) == a[0],
        a.len() > 0 && b.len() > 0 ==> joined(a + b, sep) == joined(a, sep) + sep + joined(b, sep),
        a.len() > 0 && b.len() == 0 ==> joined(a + b, sep) == joined(a, sep),
    decreases b.len(),
{
    if b.len() == 0 {
        assert(a + b =~= a);
    } else if a.len() > 0 {
        assert((a + b).drop_last() =~= a + b.drop_last());
        law_joined_with_separator(a, b.drop_last(), sep);
        if b.len() > 1 {
            assert(joined(a + b, sep) =~= joined(a, sep) + sep + joined(b, sep));
        }
    }
}

/// What a list of strings holds is what its strings hold, in order.
pub proof fn law_texts_by_place(list: Seq<String>, i: int)
    ensures
        texts(list).len() == list.len(),
        0 <= i < list.len() ==> texts(list)[i] == list[i]@,
{
}

} // verus!
