//! The JSON values that travel through a record, and what the library relies on
//! about them.
//!
//! `serde_json::Value` and `serde_json::Map` are opaque here. Everything that is
//! said about them is said through the spec functions below, and the wrappers in
//! this file are the only code that touches them; their contracts are trusted.

use serde_json::Value;
use vstd::prelude::*;
use vstd::string::StringExecFns;

verus! {

/// `serde_json::Value`, of which nothing is seen here.
#[verifier::external_type_specification]
#[verifier::external_body]
pub struct ExValue(serde_json::Value);

/// `serde_json::Map`, of which nothing is seen here.
#[verifier::external_type_specification]
#[verifier::external_body]
#[verifier::reject_recursive_types(K)]
#[verifier::reject_recursive_types(V)]
pub struct ExObject<K, V>(serde_json::Map<K, V>);

/// A JSON object: string keys, each with one value.
pub type JsonObject = serde_json::Map<String, Value>;

/// The entries of a JSON object: which keys it holds, and the value under each.
pub uninterp spec fn object_entries(m: JsonObject) -> Map<Seq<char>, Value>;

/// The keys of a JSON object in the order in which the object hands them out.
pub uninterp spec fn object_keys(m: JsonObject) -> Seq<Seq<char>>;

/// The text of a JSON string; `None` for every other kind of value.
pub uninterp spec fn json_string(v: Value) -> Option<Seq<char>>;

/// The elements of a JSON array; `None` for every other kind of value.
pub uninterp spec fn json_items(v: Value) -> Option<Seq<Value>>;

/// How deeply arrays are nested in a value.
pub uninterp spec fn json_depth(v: Value) -> nat;

/// Whether a value is a JSON number.
pub uninterp spec fn json_is_number(v: Value) -> bool;

/// Whether a value is JSON `null`.
pub uninterp spec fn json_is_null(v: Value) -> bool;

/// A JSON number as a `u64`, where it is a non-negative integer that fits.
pub uninterp spec fn json_u64(v: Value) -> Option<u64>;

/// The compact JSON text of a value, as `Display` prints it.
pub uninterp spec fn json_text(v: Value) -> Seq<char>;

/// The JSON string that holds the text `text`.
pub uninterp spec fn json_of_string(text: Seq<char>) -> Value;

/// Trusted: `serde_json::Map::new` makes a map without entries.
#[verifier::external_body]
pub(crate) fn object_new() -> (r: JsonObject)
    ensures
        object_entries(r) == no_entries(),
{
    serde_json::Map::new()
}

/// Trusted: `serde_json::Map::remove` takes the entry under `key` out of the map,
/// if there is one, and returns its value; every other entry stays as it is.
#[verifier::external_body]
pub(crate) fn object_remove(m: &mut JsonObject, key: &str) -> (r: Option<Value>)
    ensures
        object_entries(*final(m)) == object_entries(*old(m)).remove(key@),
        r == lookup(object_entries(*old(m)), key@),
{
    m.remove(key)
}

/// Trusted: `serde_json::Map::get` returns the value under `key`, if the map has
/// that key.
#[verifier::external_body]
pub(crate) fn object_get<'a>(m: &'a JsonObject, key: &str) -> (r: Option<&'a Value>)
    ensures
        match r {
            Some(v) => lookup(object_entries(*m), key@) == Some(*v),
            None => lookup(object_entries(*m), key@) is None,
        },
{
    m.get(key)
}

/// Trusted: `serde_json::Map::into_iter` hands out the entries of the map, each
/// key once and with the value that was stored under it, and leaves no entry
/// out.
#[verifier::external_body]
pub(crate) fn object_into_entries(m: JsonObject) -> (r: Vec<(String, Value)>)
    ensures
        r@.len() == object_keys(m).len(),
        forall|i: int|
            0 <= i < r@.len() ==> (#[trigger] r@[i]).0@ == object_keys(m)[i] && lookup(
                object_entries(m),
                object_keys(m)[i],
            ) == Some(r@[i].1),
        forall|i: int, j: int|
            0 <= i < j < r@.len() ==> (#[trigger] r@[i]).0@ != (#[trigger] r@[j]).0@,
        forall|k: Seq<char>| #[trigger]
            object_entries(m).contains_key(k) ==> exists|i: int|
                0 <= i < r@.len() && (#[trigger] r@[i]).0@ == k,
{
    m.into_iter().collect()
}

/// Trusted: `Value::as_str` returns the text of a JSON string and `None` for any
/// other value.
#[verifier::external_body]
pub(crate) fn value_as_str<'a>(v: &'a Value) -> (r: Option<&'a str>)
    ensures
        match r {
            Some(s) => json_string(*v) == Some(s@),
            None => json_string(*v) is None,
        },
{
    v.as_str()
}

/// Trusted: `Value::as_array` returns the elements of a JSON array and `None` for
/// any other value. An element is nested less deeply than the array that holds it.
#[verifier::external_body]
pub(crate) fn value_as_array<'a>(v: &'a Value) -> (r: Option<&'a Vec<Value>>)
    ensures
        match r {
            Some(items) => json_items(*v) == Some(items@) && forall|i: int|
                0 <= i < items@.len() ==> json_depth(#[trigger] items@[i]) < json_depth(*v),
            None => json_items(*v) is None,
        },
{
    v.as_array()
}

/// Trusted: `Value::is_number` tells whether the value is a JSON number.
#[verifier::external_body]
pub(crate) fn value_is_number(v: &Value) -> (r: bool)
    ensures
        r == json_is_number(*v),
{
    v.is_number()
}

/// Trusted: `Value::as_u64` returns the number as a `u64` where the value is a
/// non-negative integer, and `None` otherwise.
#[verifier::external_body]
pub(crate) fn value_as_u64(v: &Value) -> (r: Option<u64>)
    ensures
        r == json_u64(*v),
{
    v.as_u64()
}

/// Trusted: `Value`'s `Display` (through `to_string`) writes the value as compact
/// JSON text.
#[verifier::external_body]
pub(crate) fn value_to_text(v: &Value) -> (r: String)
    ensures
        r@ == json_text(*v),
{
    v.to_string()
}

/// Trusted: `Value::from` makes of a `&str` the JSON string with that text, of
/// which `Value::as_str` gives the text back.
#[verifier::external_body]
pub(crate) fn string_value(text: &str) -> (r: Value)
    ensures
        r == json_of_string(text@),
        json_string(r) == Some(text@),
{
    Value::from(text)
}

/// Trusted: `Value::Null` is JSON `null`, for which `Value::is_null` holds.
#[verifier::external_body]
pub(crate) fn null_value() -> (r: Value)
    ensures
        json_is_null(r),
{
    Value::Null
}

/// The entries of an object that holds no key.
pub open spec fn no_entries() -> Map<Seq<char>, Value> {
    Map::empty()
}

/// The value under `key`, if the entries hold that key.
pub open spec fn lookup(entries: Map<Seq<char>, Value>, key: Seq<char>) -> Option<Value> {
    if entries.contains_key(key) {
        Some(entries[key])
    } else {
        None
    }
}

/// The text under `key`, if the entries hold that key with a JSON string.
pub open spec fn string_at(entries: Map<Seq<char>, Value>, key: Seq<char>) -> Option<Seq<char>> {
    match lookup(entries, key) {
        Some(v) => json_string(v),
        None => None,
    }
}

/// The elements of an array, where each is nested less deeply than the array.
pub open spec fn nested_items(v: Value) -> Option<Seq<Value>> {
    match json_items(v) {
        Some(items) => if forall|i: int|
            0 <= i < items.len() ==> json_depth(#[trigger] items[i]) < json_depth(v) {
            Some(items)
        } else {
            None
        },
        None => None,
    }
}

/// How a value is written in a list of plain strings: a JSON string as its bare
/// text, an array as its elements written this way and joined by commas, and
/// anything else as JSON text.
pub open spec fn plain_text(v: Value) -> Seq<char>
    decreases json_depth(v), 1nat, 0nat,
{
    match json_string(v) {
        Some(s) => s,
        None => match nested_items(v) {
            Some(items) => joined_prefix(v, items.len()),
            None => json_text(v),
        },
    }
}

/// The first `n` elements of the array `v`, each as `plain_text`, with a comma
/// between neighbours.
pub open spec fn joined_prefix(v: Value, n: nat) -> Seq<char>
    decreases json_depth(v), 0nat, n,
{
    match nested_items(v) {
        Some(items) => if n == 0 || n > items.len() {
            Seq::empty()
        } else if n == 1 {
            plain_text(items[0])
        } else {
            joined_prefix(v, (n - 1) as nat) + seq![','] + plain_text(items[n - 1])
        },
        None => Seq::empty(),
    }
}

/// Writes a value as `plain_text` describes: a string as its text, an array as
/// its elements joined by commas, anything else as JSON text.
pub fn val_to_string(val: &Value) -> (r: String)
    ensures
        r@ == plain_text(*val),
        json_string(*val) matches Some(s) ==> r@ == s,
        json_string(*val) is None && json_items(*val) is Some ==> r@ == joined_prefix(
            *val,
            json_items(*val)->0.len(),
        ) && nested_items(*val) == json_items(*val),
        json_string(*val) is None && json_items(*val) is None ==> r@ == json_text(*val),
    decreases json_depth(*val),
{
    match value_as_str(val) {
        Some(s) => String::from_str(s),
        None => match value_as_array(val) {
            Some(items) => {
                let mut out = String::new();
                let mut i: usize = 0;
                while i < items.len()
                    invariant
                        i <= items@.len(),
                        nested_items(*val) == Some(items@),
                        out@ == joined_prefix(*val, i as nat),
                    decreases items@.len() - i,
                {
                    if i > 0 {
                        out.append(",");
                        proof {
                            reveal_strlit(",");
                            assert(","@ =~= seq![',']);
                        }
                    }
                    let item = val_to_string(&items[i]);
                    out.append(item.as_str());
                    i += 1;
                    assert(out@ =~= joined_prefix(*val, i as nat));
                }
                out
            },
            None => value_to_text(val),
        },
    }
}

} // verus!
