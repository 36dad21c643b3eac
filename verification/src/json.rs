//! JSON values as this library sees them.
//!
//! A `serde_json::Value` is carried through the library without being looked
//! into. What the library needs of JSON is small: an object to put named
//! values in and take them out of, an integer and a string as values, and a
//! copy of a value. Each of these is one call into `serde_json`, made in a
//! function below whose contract is trusted rather than proved.

use serde_json::Value;
use vstd::prelude::*;

verus! {

/// `serde_json::Value`: a JSON value, carried through the library unopened.
#[verifier::external_type_specification]
#[verifier::external_body]
pub struct ExValue(serde_json::Value);

/// `serde_json::Map`: the members of a JSON object, each key held once.
#[verifier::external_type_specification]
#[verifier::external_body]
#[verifier::reject_recursive_types(K)]
#[verifier::reject_recursive_types(V)]
pub struct ExObject<K, V>(serde_json::Map<K, V>);

/// A JSON object: named values, each name held once.
pub type Object = serde_json::Map<String, Value>;

/// The members of a JSON object: each key with the value stored under it.
pub uninterp spec fn object_entries(object: Object) -> Map<Seq<char>, Value>;

/// The JSON number that stands for the integer `n`.
pub uninterp spec fn integer_value(n: i64) -> Value;

/// The JSON string whose content is `text`.
pub uninterp spec fn text_value(text: Seq<char>) -> Value;

/// The entries of an object without members.
pub open spec fn no_entries() -> Map<Seq<char>, Value> {
    Map::empty()
}

/// What `entries` holds under `key`, if anything.
pub open spec fn entry(entries: Map<Seq<char>, Value>, key: Seq<char>) -> Option<Value> {
    if entries.contains_key(key) {
        Some(entries[key])
    } else {
        None
    }
}

/// `serde_json::Map::new`: an object without members.
#[verifier::external_body]
pub(crate) fn object_new() -> (object: Object)
    ensures
        object_entries(object) == no_entries(),
{
    serde_json::Map::new()
}

/// `serde_json::Map::insert`: stores `value` under `key`, replacing what was
/// there, and returns what was replaced.
#[verifier::external_body]
pub(crate) fn object_insert(
    object: &mut Object,
    key: String,
    value: Value,
) -> (previous: Option<Value>)
    ensures
        object_entries(*final(object)) == object_entries(*old(object)).insert(key@, value),
        previous == entry(object_entries(*old(object)), key@),
{
    object.insert(key, value)
}

/// `serde_json::Map::remove`: takes the member named `key` out of the object
/// and returns its value; an object without such a member is left as it was.
#[verifier::external_body]
pub(crate) fn object_remove(object: &mut Object, key: &str) -> (removed:
    Option<Value>)
    ensures
        object_entries(*final(object)) == object_entries(*old(object)).remove(key@),
        removed == entry(object_entries(*old(object)), key@),
{
    object.remove(key)
}

/// `Value::from` on an `i64`: the JSON number for `n`, which is the number
/// for no other integer.
#[verifier::external_body]
pub(crate) fn integer(n: i64) -> (value: Value)
    ensures
        value == integer_value(n),
        forall|m: i64| value == #[trigger] integer_value(m) ==> m == n,
{
    Value::from(n)
}

/// `Value::as_i64`: the integer that a value stands for. It is `Some(n)`
/// exactly for the JSON number that `Value::from` makes of `n`; a string, a
/// fraction or an integer beyond `i64` gives `None`.
#[verifier::external_body]
pub(crate) fn as_integer(value: &Value) -> (n: Option<i64>)
    ensures
        forall|m: i64| n == Some(m) <==> *value == #[trigger] integer_value(m),
{
    value.as_i64()
}

/// `Value::String`: the JSON string with the content of `text`.
#[verifier::external_body]
pub(crate) fn text(content: String) -> (value: Value)
    ensures
        value == text_value(content@),
{
    Value::String(content)
}

/// `Value::clone`: a second value equal to the first.
#[verifier::external_body]
pub(crate) fn copy(value: &Value) -> (twin: Value)
    ensures
        twin == *value,
{
    value.clone()
}

} // verus!
