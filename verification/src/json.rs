//! JSON values: what they are, and how the library reads them.
//!
//! [`Json`] holds a value as plain data and [`JsonView`] is its meaning. Objects
//! are finite maps: the order of the entries carries no meaning, and of two
//! entries under one key the later one counts.

use crate::serde_values::number_of;
use crate::serde_values::clone_number;
use crate::serde_values::number_as_i128;
use crate::text::eq;
use crate::text::texts;
use vstd::prelude::*;

verus! {

/// What a JSON number is.
pub enum NumberView {
    Int(int),
    /// A number that was written with a fraction or an exponent, by its text.
    Float(Seq<char>),
}

/// What a JSON value is.
pub enum JsonView {
    Null,
    Bool(bool),
    Number(NumberView),
    Str(Seq<char>),
    Array(Seq<JsonView>),
    Object(Map<Seq<char>, JsonView>),
}

impl JsonView {
    /// The member of an object under `key`; nothing else has members.
    pub open spec fn get(self, key: Seq<char>) -> Option<JsonView> {
        match self {
            JsonView::Object(m) => if m.contains_key(key) {
                Some(m[key])
            } else {
                None
            },
            _ => None,
        }
    }

    /// The member under `outer`, and of that the member under `inner`.
    pub open spec fn get2(self, outer: Seq<char>, inner: Seq<char>) -> Option<JsonView> {
        match self.get(outer) {
            Some(v) => v.get(inner),
            None => None,
        }
    }

    pub open spec fn as_array(self) -> Option<Seq<JsonView>> {
        match self {
            JsonView::Array(items) => Some(items),
            _ => None,
        }
    }

    pub open spec fn as_str(self) -> Option<Seq<char>> {
        match self {
            JsonView::Str(s) => Some(s),
            _ => None,
        }
    }

    pub open spec fn as_bool(self) -> Option<bool> {
        match self {
            JsonView::Bool(b) => Some(b),
            _ => None,
        }
    }

    /// The integer that a number is, where it fits 64 bits with a sign.
    pub open spec fn as_i64(self) -> Option<i64> {
        match self {
            JsonView::Number(NumberView::Int(i)) => if i64::MIN <= i <= i64::MAX {
                Some(i as i64)
            } else {
                None
            },
            _ => None,
        }
    }

    /// The array under `key`, the empty one where there is none.
    pub open spec fn items(self, key: Seq<char>) -> Seq<JsonView> {
        match self.get(key) {
            Some(JsonView::Array(items)) => items,
            _ => Seq::empty(),
        }
    }

    /// The string under `key`, `default` where there is none.
    pub open spec fn str_or(self, key: Seq<char>, default: Seq<char>) -> Seq<char> {
        match self.get(key) {
            Some(JsonView::Str(s)) => s,
            _ => default,
        }
    }

    /// The boolean under `key`, `default` where there is none.
    pub open spec fn bool_or(self, key: Seq<char>, default: bool) -> bool {
        match self.get(key) {
            Some(JsonView::Bool(b)) => b,
            _ => default,
        }
    }
}

/// Whether `text` is how a float that is zero is written, with either sign.
pub open spec fn is_zero_text(text: Seq<char>) -> bool {
    text == "0.0"@ || text == "-0.0"@
}

/// Whether two numbers are equal. An integer never equals a float.
pub open spec fn same_number(a: NumberView, b: NumberView) -> bool {
    match (a, b) {
        (NumberView::Int(i), NumberView::Int(j)) => i == j,
        (NumberView::Float(s), NumberView::Float(t)) => s == t || (is_zero_text(s) && is_zero_text(
            t,
        )),
        _ => false,
    }
}

/// Whether two JSON values are equal: of one kind, and equal throughout.
pub open spec fn same_json(a: JsonView, b: JsonView) -> bool
    decreases a,
{
    match (a, b) {
        (JsonView::Null, JsonView::Null) => true,
        (JsonView::Bool(p), JsonView::Bool(q)) => p == q,
        (JsonView::Number(m), JsonView::Number(n)) => same_number(m, n),
        (JsonView::Str(s), JsonView::Str(t)) => s == t,
        (JsonView::Array(x), JsonView::Array(y)) => {
            &&& x.len() == y.len()
            &&& forall|i: int| 0 <= i < x.len() ==> same_json(#[trigger] x[i], y[i])
        },
        (JsonView::Object(x), JsonView::Object(y)) => {
            &&& x.dom() == y.dom()
            &&& forall|k: Seq<char>| x.dom().contains(k) ==> same_json(#[trigger] x[k], y[k])
        },
        _ => false,
    }
}

/// A JSON value in plain data.
///
/// A number that is no 64-bit integer is carried as `Float`.
#[derive(Debug)]
pub enum Json {
    Null,
    Bool(bool),
    Int(i64),
    UInt(u64),
    Float(serde_json::Number),
    Str(String),
    Array(Vec<Json>),
    Object(Vec<(String, Json)>),
}

/// The values of an array's items.
pub open spec fn array_view(items: Seq<Json>) -> Seq<JsonView>
    decreases items,
{
    Seq::new(
        items.len(),
        |i: int|
            if 0 <= i < items.len() {
                items[i].tree()
            } else {
                JsonView::Null
            },
    )
}

/// The map that a list of entries stands for.
pub open spec fn object_view(entries: Seq<(String, Json)>) -> Map<Seq<char>, JsonView>
    decreases entries,
{
    if entries.len() == 0 {
        Map::empty()
    } else {
        object_view(entries.drop_last()).insert(entries.last().0@, entries.last().1.tree())
    }
}

impl Json {
    /// The meaning of this value.
    pub open spec fn tree(self) -> JsonView
        decreases self,
    {
        match self {
            Json::Null => JsonView::Null,
            Json::Bool(b) => JsonView::Bool(b),
            Json::Int(i) => JsonView::Number(NumberView::Int(i as int)),
            Json::UInt(u) => JsonView::Number(NumberView::Int(u as int)),
            Json::Float(n) => JsonView::Number(number_of(n)),
            Json::Str(s) => JsonView::Str(s@),
            Json::Array(items) => JsonView::Array(array_view(items@)),
            Json::Object(entries) => JsonView::Object(object_view(entries@)),
        }
    }
}

impl View for Json {
    type V = JsonView;

    open spec fn view(&self) -> JsonView {
        self.tree()
    }
}

/// What an optional value is.
pub open spec fn option_json(o: Option<Json>) -> Option<JsonView> {
    match o {
        Some(j) => Some(j@),
        None => None,
    }
}

/// An entry list's last entry under a key decides what the map holds there.
pub proof fn lemma_object_last_wins(entries: Seq<(String, Json)>, i: int)
    requires
        0 <= i < entries.len(),
        forall|j: int| i < j < entries.len() ==> (#[trigger] entries[j]).0@ != entries[i].0@,
    ensures
        object_view(entries).contains_key(entries[i].0@),
        object_view(entries)[entries[i].0@] == entries[i].1@,
    decreases entries.len(),
{
    if i < entries.len() - 1 {
        let front = entries.drop_last();
        assert forall|j: int| i < j < front.len() implies (#[trigger] front[j]).0@
            != front[i].0@ by {
            assert(front[j] == entries[j]);
        }
        lemma_object_last_wins(front, i);
    }
}

/// A key that no entry has is not in the map.
pub proof fn lemma_object_absent(entries: Seq<(String, Json)>, key: Seq<char>)
    requires
        forall|j: int| 0 <= j < entries.len() ==> (#[trigger] entries[j]).0@ != key,
    ensures
        !object_view(entries).contains_key(key),
    decreases entries.len(),
{
    if entries.len() > 0 {
        let front = entries.drop_last();
        assert forall|j: int| 0 <= j < front.len() implies (#[trigger] front[j]).0@ != key by {
            assert(front[j] == entries[j]);
        }
        lemma_object_absent(front, key);
    }
}

/// Whether no key occurs twice.
pub open spec fn distinct_entries(entries: Seq<(String, Json)>) -> bool {
    forall|i: int, j: int|
        0 <= i < j < entries.len() ==> (#[trigger] entries[i]).0@ != (#[trigger] entries[j]).0@
}

/// A map that has the keys of an entry list and at each the list's value is what
/// the list stands for.
pub proof fn lemma_object_is(entries: Seq<(String, Json)>, m: Map<Seq<char>, JsonView>)
    requires
        distinct_entries(entries),
        forall|i: int| 0 <= i < entries.len() ==> m.contains_key((#[trigger] entries[i]).0@),
        forall|i: int| 0 <= i < entries.len() ==> m[(#[trigger] entries[i]).0@] == entries[i].1@,
        forall|k: Seq<char>| #[trigger]
            m.contains_key(k) ==> exists|i: int|
                0 <= i < entries.len() && (#[trigger] entries[i]).0@ == k,
    ensures
        object_view(entries) == m,
{
    let o = object_view(entries);
    assert forall|k: Seq<char>| #[trigger] o.dom().contains(k) == m.dom().contains(k) && (
    o.dom().contains(k) ==> o[k] == m[k]) by {
        if exists|i: int| 0 <= i < entries.len() && (#[trigger] entries[i]).0@ == k {
            let i = choose|i: int| 0 <= i < entries.len() && (#[trigger] entries[i]).0@ == k;
            lemma_object_last_wins(entries, i);
            assert(m.contains_key(k));
        } else {
            lemma_object_absent(entries, k);
            assert(!m.contains_key(k));
        }
    }
    assert(o.dom() =~= m.dom());
    assert(o =~= m);
}

/// `entries` with one more entry at its end.
pub fn with_entry(entries: Vec<(String, Json)>, key: &str, value: Json) -> (r: Vec<(String, Json)>)
    ensures
        object_view(r@) == object_view(entries@).insert(key@, value@),
{
    let mut out = entries;
    let ghost before = out@;
    out.push((key.to_owned(), value));
    assert(out@.drop_last() =~= before);
    out
}

/// The JSON array of a list of strings.
pub open spec fn strings_view(list: Seq<Seq<char>>) -> JsonView {
    JsonView::Array(Seq::new(list.len(), |i: int| JsonView::Str(list[i])))
}

impl Json {
    /// An object with no members.
    pub fn empty_object() -> (r: Json)
        ensures
            r@ == JsonView::Object(Map::empty()),
    {
        Json::Object(Vec::new())
    }

    /// A string.
    pub fn string(s: &str) -> (r: Json)
        ensures
            r@ == JsonView::Str(s@),
    {
        Json::Str(s.to_owned())
    }

    /// The array of a list of strings.
    pub fn strings(list: &Vec<String>) -> (r: Json)
        ensures
            r@ == strings_view(texts(list@)),
    {
        let mut items: Vec<Json> = Vec::new();
        for i in 0..list.len()
            invariant
                items@.len() == i,
                forall|j: int| 0 <= j < i ==> (#[trigger] items@[j])@ == JsonView::Str(list@[j]@),
        {
            items.push(Json::Str(list[i].clone()));
        }
        assert(array_view(items@) =~= strings_view(texts(list@))->Array_0);
        Json::Array(items)
    }

    /// The member of an object under `key`.
    pub fn get(&self, key: &str) -> (r: Option<&Json>)
        ensures
            match r {
                Some(v) => self@.get(key@) == Some(v@),
                None => self@.get(key@) is None,
            },
    {
        match self {
            Json::Object(entries) => {
                let mut i: usize = entries.len();
                while i > 0
                    invariant
                        i <= entries@.len(),
                        forall|j: int| i <= j < entries@.len() ==> (#[trigger] entries@[j]).0@ != key@,
                        self@ == JsonView::Object(object_view(entries@)),
                    decreases i,
                {
                    i = i - 1;
                    if eq(entries[i].0.as_str(), key) {
                        proof {
                            lemma_object_last_wins(entries@, i as int);
                        }
                        return Some(&entries[i].1);
                    }
                }
                proof {
                    lemma_object_absent(entries@, key@);
                }
                None
            },
            _ => None,
        }
    }

    /// The items of an array.
    pub fn as_array(&self) -> (r: Option<&Vec<Json>>)
        ensures
            match r {
                Some(items) => self@.as_array() == Some(array_view(items@)),
                None => self@.as_array() is None,
            },
    {
        match self {
            Json::Array(items) => Some(items),
            _ => None,
        }
    }

    /// The text of a string.
    pub fn as_str(&self) -> (r: Option<&str>)
        ensures
            match r {
                Some(s) => self@.as_str() == Some(s@),
                None => self@.as_str() is None,
            },
    {
        match self {
            Json::Str(s) => Some(s.as_str()),
            _ => None,
        }
    }

    /// The value of a boolean.
    pub fn as_bool(&self) -> (r: Option<bool>)
        ensures
            r == self@.as_bool(),
    {
        match self {
            Json::Bool(b) => Some(*b),
            _ => None,
        }
    }

    /// The integer that a number is, where it fits 64 bits with a sign.
    pub fn as_i64(&self) -> (r: Option<i64>)
        ensures
            r == self@.as_i64(),
    {
        match self {
            Json::Int(i) => Some(*i),
            Json::UInt(u) => if *u <= i64::MAX as u64 {
                Some(*u as i64)
            } else {
                None
            },
            Json::Float(n) => match number_as_i128(n) {
                Some(i) => if i64::MIN as i128 <= i && i <= i64::MAX as i128 {
                    Some(i as i64)
                } else {
                    None
                },
                None => None,
            },
            _ => None,
        }
    }

    /// The member under `outer`, and of that the member under `inner`.
    pub fn get2(&self, outer: &str, inner: &str) -> (r: Option<&Json>)
        ensures
            match r {
                Some(v) => self@.get2(outer@, inner@) == Some(v@),
                None => self@.get2(outer@, inner@) is None,
            },
    {
        match self.get(outer) {
            Some(v) => v.get(inner),
            None => None,
        }
    }

    /// The string under `key`, `default` where there is none.
    pub fn str_or<'a>(&'a self, key: &str, default: &'a str) -> (r: &'a str)
        ensures
            r@ == self@.str_or(key@, default@),
    {
        match self.get(key) {
            Some(v) => match v.as_str() {
                Some(s) => s,
                None => default,
            },
            None => default,
        }
    }

    /// The boolean under `key`, `default` where there is none.
    pub fn bool_or(&self, key: &str, default: bool) -> (r: bool)
        ensures
            r == self@.bool_or(key@, default),
    {
        match self.get(key) {
            Some(v) => match v.as_bool() {
                Some(b) => b,
                None => default,
            },
            None => default,
        }
    }
}

impl Clone for Json {
    fn clone(&self) -> (r: Json)
        ensures
            r@ == self@,
        decreases self,
    {
        match self {
            Json::Null => Json::Null,
            Json::Bool(b) => Json::Bool(*b),
            Json::Int(i) => Json::Int(*i),
            Json::UInt(u) => Json::UInt(*u),
            Json::Float(n) => Json::Float(clone_number(n)),
            Json::Str(s) => Json::Str(s.clone()),
            Json::Array(items) => {
                let mut copies: Vec<Json> = Vec::new();
                for i in 0..items.len()
                    invariant
                        copies@.len() == i,
                        decreases_to!(self => items@),
                        forall|j: int| 0 <= j < i ==> (#[trigger] copies@[j])@ == items@[j]@,
                {
                    let copy = items[i].clone();
                    copies.push(copy);
                }
                assert(array_view(copies@) =~= array_view(items@));
                Json::Array(copies)
            },
            Json::Object(entries) => {
                let mut copies: Vec<(String, Json)> = Vec::new();
                for i in 0..entries.len()
                    invariant
                        copies@.len() == i,
                        decreases_to!(self => entries@),
                        object_view(copies@) == object_view(entries@.take(i as int)),
                {
                    let ghost before = copies@;
                    let copy = entries[i].1.clone();
                    copies.push((entries[i].0.clone(), copy));
                    assert(copies@.drop_last() == before);
                    assert(entries@.take(i + 1).drop_last() == entries@.take(i as int));
                }
                assert(entries@.take(entries@.len() as int) == entries@);
                Json::Object(copies)
            },
        }
    }
}

} // verus!
