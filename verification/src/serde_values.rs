//! The crossing between [`Json`] and the values of `serde_json`, which parses
//! and writes JSON text.
//!
//! What is stated of `serde_json` holds of it without its features
//! `preserve_order` and `arbitrary_precision`, as it is used here: the text of an
//! object depends on its members alone, and a number is an integer of 64 bits or a
//! finite float.

use crate::json::array_view;
use crate::json::object_view;
use crate::json::same_json;
use crate::json::Json;
use crate::json::JsonView;
use crate::json::NumberView;
use vstd::prelude::*;

verus! {

/// `serde_json`'s JSON value.
#[verifier::external_type_specification]
#[verifier::external_body]
pub struct ExValue(serde_json::Value);

/// `serde_json`'s JSON number.
#[verifier::external_type_specification]
#[verifier::external_body]
pub struct ExNumber(serde_json::Number);

/// What a `serde_json::Number` holds.
pub uninterp spec fn number_of(n: serde_json::Number) -> NumberView;

/// What a `serde_json::Value` holds.
pub uninterp spec fn tree(v: serde_json::Value) -> JsonView;

/// The text that `serde_json` writes a value as, without white space between
/// the tokens.
pub uninterp spec fn compact_text(j: JsonView) -> Seq<char>;

/// The text that `serde_json` writes a value as, over several lines.
pub uninterp spec fn pretty_text(j: JsonView) -> Seq<char>;

/// `serde_json::Number::as_i128`: the integer that a number holds. It is `None`
/// exactly where the number is a float.
#[verifier::external_body]
pub(crate) fn number_as_i128(n: &serde_json::Number) -> (r: Option<i128>)
    ensures
        match r {
            Some(i) => number_of(*n) == NumberView::Int(i as int),
            None => number_of(*n) is Float,
        },
{
    n.as_i128()
}

/// `serde_json::Number::clone`: a number with the same content.
#[verifier::external_body]
pub(crate) fn clone_number(n: &serde_json::Number) -> (r: serde_json::Number)
    ensures
        number_of(r) == number_of(*n),
{
    n.clone()
}

/// `serde_json::Number::from_i128`: a number that holds the integer `i`, which
/// exists for every integer of 64 bits, with or without a sign.
#[verifier::external_body]
fn number_from_i128(i: i128) -> (r: Option<serde_json::Number>)
    ensures
        match r {
            Some(n) => i64::MIN <= i <= u64::MAX && number_of(n) == NumberView::Int(i as int),
            None => !(i64::MIN <= i <= u64::MAX),
        },
{
    serde_json::Number::from_i128(i)
}

/// A `serde_json::Value` taken apart by one level.
enum Parts {
    Null,
    Bool(bool),
    Number(serde_json::Number),
    Str(String),
    Array(Vec<serde_json::Value>),
    Object(Vec<(String, serde_json::Value)>),
}

/// The values of an array's items.
spec fn item_trees(items: Seq<serde_json::Value>) -> Seq<JsonView> {
    Seq::new(items.len(), |i: int| tree(items[i]))
}

/// The map that a list of entries stands for.
spec fn entry_trees(entries: Seq<(String, serde_json::Value)>) -> Map<Seq<char>, JsonView>
    decreases entries.len(),
{
    if entries.len() == 0 {
        Map::empty()
    } else {
        entry_trees(entries.drop_last()).insert(entries.last().0@, tree(entries.last().1))
    }
}

/// Whether no key occurs twice.
spec fn distinct_keys(entries: Seq<(String, serde_json::Value)>) -> bool {
    forall|i: int, j: int|
        0 <= i < j < entries.len() ==> (#[trigger] entries[i]).0@ != (#[trigger] entries[j]).0@
}

impl Parts {
    /// The value that the parts make up.
    spec fn whole(self) -> JsonView {
        match self {
            Parts::Null => JsonView::Null,
            Parts::Bool(b) => JsonView::Bool(b),
            Parts::Number(n) => JsonView::Number(number_of(n)),
            Parts::Str(s) => JsonView::Str(s@),
            Parts::Array(items) => JsonView::Array(item_trees(items@)),
            Parts::Object(entries) => JsonView::Object(entry_trees(entries@)),
        }
    }
}

/// The variants of `serde_json::Value`, with what each holds: the parts make up
/// the value. An object's entries come out of its map, so no key occurs twice.
#[verifier::external_body]
fn unpack(v: serde_json::Value) -> (parts: Parts)
    ensures
        parts.whole() == tree(v),
        parts matches Parts::Object(entries) ==> distinct_keys(entries@),
{
    match v {
        serde_json::Value::Null => Parts::Null,
        serde_json::Value::Bool(b) => Parts::Bool(b),
        serde_json::Value::Number(n) => Parts::Number(n),
        serde_json::Value::String(s) => Parts::Str(s),
        serde_json::Value::Array(items) => Parts::Array(items),
        serde_json::Value::Object(m) => Parts::Object(m.into_iter().collect()),
    }
}

/// The variants of `serde_json::Value`, made from what each holds: the value is
/// what the parts make up.
#[verifier::external_body]
fn pack(parts: Parts) -> (v: serde_json::Value)
    requires
        parts matches Parts::Object(entries) ==> distinct_keys(entries@),
    ensures
        tree(v) == parts.whole(),
{
    match parts {
        Parts::Null => serde_json::Value::Null,
        Parts::Bool(b) => serde_json::Value::Bool(b),
        Parts::Number(n) => serde_json::Value::Number(n),
        Parts::Str(s) => serde_json::Value::String(s),
        Parts::Array(items) => serde_json::Value::Array(items),
        Parts::Object(entries) => serde_json::Value::Object(entries.into_iter().collect()),
    }
}

/// `serde_json::Map::insert` on the map of an object: puts `item` under `key`, in
/// place of what was there.
#[verifier::external_body]
fn object_insert(v: &mut serde_json::Value, key: String, item: serde_json::Value)
    requires
        tree(*old(v)) is Object,
    ensures
        tree(*final(v)) == JsonView::Object(tree(*old(v))->Object_0.insert(key@, tree(item))),
{
    if let serde_json::Value::Object(m) = v {
        m.insert(key, item);
    }
}

/// `serde_json::Value::to_string`: the compact text of a value. A line break
/// inside a string is written as an escape, so the text has none.
#[verifier::external_body]
fn value_to_string(v: &serde_json::Value) -> (r: String)
    ensures
        r@ == compact_text(tree(*v)),
        !r@.contains('\n'),
{
    v.to_string()
}

/// `serde_json::to_string_pretty`: the text of a value over several lines. It
/// fails on a map with keys that are no strings, and a value has none.
#[verifier::external_body]
fn value_to_string_pretty(v: &serde_json::Value) -> (r: Option<String>)
    ensures
        r is Some,
        r->Some_0@ == pretty_text(tree(*v)),
{
    serde_json::to_string_pretty(v).ok()
}

/// `==` of `serde_json::Value`: whether two values are equal throughout.
#[verifier::external_body]
fn value_eq(a: &serde_json::Value, b: &serde_json::Value) -> (r: bool)
    ensures
        r == same_json(tree(*a), tree(*b)),
{
    a == b
}

proof fn lemma_entries_finite(entries: Seq<(String, serde_json::Value)>)
    ensures
        entry_trees(entries).dom().finite(),
    decreases entries.len(),
{
    if entries.len() > 0 {
        lemma_entries_finite(entries.drop_last());
    }
}

proof fn lemma_entry_present(entries: Seq<(String, serde_json::Value)>, i: int)
    requires
        distinct_keys(entries),
        0 <= i < entries.len(),
    ensures
        entry_trees(entries).contains_key(entries[i].0@),
        entry_trees(entries)[entries[i].0@] == tree(entries[i].1),
        entry_trees(entries).dom().finite(),
    decreases entries.len(),
{
    lemma_entries_finite(entries);
    if i < entries.len() - 1 {
        lemma_entry_present(entries.drop_last(), i);
    }
}

impl Json {
    /// The plain data of a `serde_json` value.
    pub fn from_value(v: serde_json::Value) -> (r: Json)
        ensures
            r@ == tree(v),
        decreases tree(v),
    {
        match unpack(v) {
            Parts::Null => Json::Null,
            Parts::Bool(b) => Json::Bool(b),
            Parts::Number(n) => match number_as_i128(&n) {
                Some(i) => if i64::MIN as i128 <= i && i <= i64::MAX as i128 {
                    Json::Int(i as i64)
                } else if 0 <= i && i <= u64::MAX as i128 {
                    Json::UInt(i as u64)
                } else {
                    Json::Float(n)
                },
                None => Json::Float(n),
            },
            Parts::Str(s) => Json::Str(s),
            Parts::Array(items) => {
                let mut out: Vec<Json> = Vec::new();
                for item in it: items
                    invariant
                        tree(v) == JsonView::Array(item_trees(it.seq())),
                        out@.len() == it.index(),
                        forall|j: int| 0 <= j < out@.len() ==> (#[trigger] out@[j])@ == tree(it.seq()[j]),
                {
                    proof {
                        let whole = tree(v);
                        assert(decreases_to!(whole => whole->Array_0));
                        assert(whole->Array_0[it.index() as int] == tree(item));
                        assert(decreases_to!(whole->Array_0 => whole->Array_0[it.index() as int]));
                    }
                    out.push(Json::from_value(item));
                }
                assert(array_view(out@) =~= item_trees(items@));
                Json::Array(out)
            },
            Parts::Object(entries) => {
                let mut out: Vec<(String, Json)> = Vec::new();
                for entry in it: entries
                    invariant
                        distinct_keys(it.seq()),
                        tree(v) == JsonView::Object(entry_trees(it.seq())),
                        out@.len() == it.index(),
                        object_view(out@) == entry_trees(it.seq().take(it.index() as int)),
                {
                    let ghost before = out@;
                    proof {
                        let all = it.seq();
                        let i = it.index() as int;
                        lemma_entry_present(all, i);
                        assert(all.take(i + 1).drop_last() =~= all.take(i));
                        let whole = tree(v);
                        assert(decreases_to!(whole => whole->Object_0));
                        assert(decreases_to!(whole->Object_0 => whole->Object_0[all[i].0@]));
                    }
                    let key = entry.0;
                    out.push((key, Json::from_value(entry.1)));
                    assert(out@.drop_last() =~= before);
                }
                assert(entries@.take(entries@.len() as int) =~= entries@);
                Json::Object(out)
            },
        }
    }

    /// The `serde_json` value of plain data.
    pub fn to_value(&self) -> (v: serde_json::Value)
        ensures
            tree(v) == self@,
        decreases self,
    {
        match self {
            Json::Null => pack(Parts::Null),
            Json::Bool(b) => pack(Parts::Bool(*b)),
            Json::Int(i) => match number_from_i128(*i as i128) {
                Some(n) => pack(Parts::Number(n)),
                None => pack(Parts::Null),
            },
            Json::UInt(u) => match number_from_i128(*u as i128) {
                Some(n) => pack(Parts::Number(n)),
                None => pack(Parts::Null),
            },
            Json::Float(n) => pack(Parts::Number(clone_number(n))),
            Json::Str(s) => pack(Parts::Str(s.clone())),
            Json::Array(items) => {
                let mut out: Vec<serde_json::Value> = Vec::new();
                for i in 0..items.len()
                    invariant
                        out@.len() == i,
                        decreases_to!(self => items@),
                        forall|j: int| 0 <= j < i ==> tree(#[trigger] out@[j]) == items@[j]@,
                {
                    out.push(items[i].to_value());
                }
                assert(item_trees(out@) =~= array_view(items@));
                pack(Parts::Array(out))
            },
            Json::Object(entries) => {
                let mut out = pack(Parts::Object(Vec::new()));
                for i in 0..entries.len()
                    invariant
                        decreases_to!(self => entries@),
                        tree(out) == JsonView::Object(object_view(entries@.take(i as int))),
                {
                    let item = entries[i].1.to_value();
                    assert(entries@.take(i + 1).drop_last() =~= entries@.take(i as int));
                    object_insert(&mut out, entries[i].0.clone(), item);
                }
                assert(entries@.take(entries@.len() as int) =~= entries@);
                out
            },
        }
    }

    /// The compact JSON text of this value.
    pub fn to_compact(&self) -> (r: String)
        ensures
            r@ == compact_text(self@),
            !r@.contains('\n'),
    {
        value_to_string(&self.to_value())
    }

    /// The JSON text of this value over several lines.
    pub fn to_pretty(&self) -> (r: String)
        ensures
            r@ == pretty_text(self@),
    {
        match value_to_string_pretty(&self.to_value()) {
            Some(s) => s,
            None => String::new(),
        }
    }

    /// Whether two values are equal.
    pub fn same(&self, other: &Json) -> (r: bool)
        ensures
            r == same_json(self@, other@),
    {
        value_eq(&self.to_value(), &other.to_value())
    }
}

} // verus!
