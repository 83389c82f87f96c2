//! JSON documents.
//!
//! Documents are built, parsed and stored by `serde_json`. Its `Value` is
//! opaque to the verifier, so this module gives it a mathematical content,
//! [`Json`], and states what the few `serde_json` operations used by the
//! library do to that content. Everything stated here about `serde_json` is
//! taken on trust from its source; the rest of the library is proved against
//! these statements.
use crate::keyed::{distinct_keys, has_key, index_of, lemma_index_of};
use serde_json::Value;
use vstd::prelude::*;

verus! {

/// `serde_json::Value`, a JSON document. The verifier sees nothing inside
/// it; [`json_of`] names what it holds.
#[verifier::external_type_specification]
#[verifier::external_body]
pub struct ExValue(serde_json::Value);

/// `serde_json::Map`, a JSON object. The verifier sees nothing inside it;
/// [`object_of`] names what it holds.
#[verifier::external_type_specification]
#[verifier::external_body]
#[verifier::reject_recursive_types(K)]
#[verifier::reject_recursive_types(V)]
pub struct ExObject<K, V>(serde_json::Map<K, V>);

/// `serde_json::Error`, what the parser reports. Nothing is said of it.
#[verifier::external_type_specification]
#[verifier::external_body]
pub struct ExJsonError(serde_json::Error);

/// What a JSON document holds.
pub enum Json {
    Null,
    Bool(bool),
    /// A number written without fraction or exponent that fits `u64` or `i64`.
    Integer(int),
    /// Any other number, by its writing.
    Fraction(Seq<char>),
    Text(Seq<char>),
    Array(Seq<Json>),
    Object(Map<Seq<char>, Json>),
}

impl Json {
    /// The member `key` of an object; `None` for a missing key and for
    /// anything that is not an object.
    pub open spec fn member(self, key: Seq<char>) -> Option<Json> {
        match self {
            Json::Object(fields) => if fields.contains_key(key) {
                Some(fields[key])
            } else {
                None
            },
            _ => None,
        }
    }

    pub open spec fn as_text(self) -> Option<Seq<char>> {
        match self {
            Json::Text(text) => Some(text),
            _ => None,
        }
    }

    pub open spec fn as_bool(self) -> Option<bool> {
        match self {
            Json::Bool(b) => Some(b),
            _ => None,
        }
    }

    /// The number as a `u64`, for a non-negative integer.
    pub open spec fn as_u64(self) -> Option<u64> {
        match self {
            Json::Integer(n) => if 0 <= n <= u64::MAX {
                Some(n as u64)
            } else {
                None
            },
            _ => None,
        }
    }

    pub open spec fn as_array(self) -> Option<Seq<Json>> {
        match self {
            Json::Array(items) => Some(items),
            _ => None,
        }
    }

    pub open spec fn as_object(self) -> Option<Map<Seq<char>, Json>> {
        match self {
            Json::Object(fields) => Some(fields),
            _ => None,
        }
    }
}

/// The content of a `serde_json::Value`: what its variant holds, and for an
/// array or an object the contents of what it holds.
pub uninterp spec fn json_of(value: serde_json::Value) -> Json;

/// The content of a `serde_json::Map`: its values by key.
pub uninterp spec fn object_of(object: serde_json::Map<String, Value>) -> Map<Seq<char>, Json>;

/// The document that `serde_json::from_str` reads from `text`, or `None`
/// where it reports an error.
pub uninterp spec fn parsed(text: Seq<char>) -> Option<Json>;

/// The contents of a sequence of values, item by item.
pub open spec fn contents(values: Seq<Value>) -> Seq<Json> {
    values.map_values(|value: Value| json_of(value))
}

/// The pairs of `entries` as a map from key to content.
pub open spec fn fields_of(entries: Seq<(String, Value)>) -> Map<Seq<char>, Json> {
    Map::new(
        |key: Seq<char>| has_key(entries, key),
        |key: Seq<char>| json_of(entries[index_of(entries, key)].1),
    )
}

/// Where no key comes twice, each pair is what the map holds under its key.
pub proof fn lemma_fields_of_entry(entries: Seq<(String, Value)>, i: int)
    requires
        distinct_keys(entries),
        0 <= i < entries.len(),
    ensures
        fields_of(entries).contains_key(entries[i].0@),
        fields_of(entries)[entries[i].0@] == json_of(entries[i].1),
        index_of(entries, entries[i].0@) == i,
{
    lemma_index_of(entries, i);
}

/// The strings of `items` as JSON texts.
pub open spec fn texts(items: Seq<String>) -> Seq<Json> {
    items.map_values(|item: String| Json::Text(item@))
}

/// `Value::is_null`: true exactly for `Value::Null`.
pub assume_specification[ serde_json::Value::is_null ](value: &Value) -> (r: bool)
    ensures
        r == (json_of(*value) == Json::Null),
;

/// `Value::as_bool`: the boolean of `Value::Bool`, `None` for every other
/// variant.
pub assume_specification[ serde_json::Value::as_bool ](value: &Value) -> (r: Option<bool>)
    ensures
        r == json_of(*value).as_bool(),
;

/// `Value::as_u64`: the number of a `Value::Number` that holds a
/// non-negative integer, `None` for negative integers, other numbers and
/// every other variant.
pub assume_specification[ serde_json::Value::as_u64 ](value: &Value) -> (r: Option<u64>)
    ensures
        r == json_of(*value).as_u64(),
;

/// `Value::as_str`: the string of `Value::String`, `None` for every other
/// variant.
pub assume_specification<'a>[ serde_json::Value::as_str ](value: &'a Value) -> (r: Option<&'a str>)
    ensures
        match json_of(*value).as_text() {
            Some(text) => r is Some && r->0@ == text,
            None => r is None,
        },
;

/// `Value::as_array`: the vector of `Value::Array`, `None` for every other
/// variant.
pub assume_specification<'a>[ serde_json::Value::as_array ](value: &'a Value) -> (r: Option<
    &'a Vec<Value>,
>)
    ensures
        match json_of(*value).as_array() {
            Some(items) => r is Some && contents(r->0@) == items,
            None => r is None,
        },
;

/// `Value::as_object`: the map of `Value::Object`, `None` for every other
/// variant.
pub assume_specification<'a>[ serde_json::Value::as_object ](value: &'a Value) -> (r: Option<
    &'a serde_json::Map<String, Value>,
>)
    ensures
        match json_of(*value).as_object() {
            Some(fields) => r is Some && object_of(*r->0) == fields,
            None => r is None,
        },
;

/// `Clone` for `serde_json::Value`: a value with the same content.
pub assume_specification[ <serde_json::Value as Clone>::clone ](value: &Value) -> (r: Value)
    ensures
        json_of(r) == json_of(*value),
;

/// `Value::get` with a string key: the value stored under `key` where
/// `value` is an object that has the key, `None` otherwise.
#[verifier::external_body]
pub(crate) fn member<'a>(value: &'a Value, key: &str) -> (r: Option<&'a Value>)
    ensures
        match json_of(*value).member(key@) {
            Some(found) => r is Some && json_of(*r->0) == found,
            None => r is None,
        },
{
    value.get(key)
}

/// `Map::iter`: every entry of the map once, as owned pairs. No key comes
/// twice, and the pairs hold what the map holds. Nothing is said of their
/// order.
#[verifier::external_body]
pub(crate) fn entries(object: &serde_json::Map<String, Value>) -> (r: Vec<(String, Value)>)
    ensures
        distinct_keys(r@),
        fields_of(r@) == object_of(*object),
{
    object.iter().map(|(key, value)| (key.clone(), value.clone())).collect()
}

/// `Clone` for `serde_json::Map`: a map with the same entries.
#[verifier::external_body]
pub(crate) fn copy_object(object: &serde_json::Map<String, Value>) -> (r: serde_json::Map<
    String,
    Value,
>)
    ensures
        object_of(r) == object_of(*object),
{
    object.clone()
}

/// `serde_json::to_value` on a boolean: always `Value::Bool` of it.
#[verifier::external_body]
pub(crate) fn bool_value(b: bool) -> (r: Value)
    ensures
        json_of(r) == Json::Bool(b),
{
    serde_json::to_value(b).unwrap()
}

/// `serde_json::to_value` on an `i64`: always `Value::Number` of that
/// integer.
#[verifier::external_body]
pub(crate) fn integer_value(n: i64) -> (r: Value)
    ensures
        json_of(r) == Json::Integer(n as int),
{
    serde_json::to_value(n).unwrap()
}

/// `serde_json::to_value` on a vector of strings: always `Value::Array` of
/// one `Value::String` per item, in order.
#[verifier::external_body]
pub(crate) fn text_array(items: Vec<String>) -> (r: Value)
    ensures
        json_of(r) == Json::Array(texts(items@)),
{
    serde_json::to_value(items).unwrap()
}

/// `serde_json::from_str` at type `Value`: the document written in `text`,
/// or the error found in it.
#[verifier::external_body]
pub(crate) fn parse(text: &str) -> (r: Result<Value, serde_json::Error>)
    ensures
        match parsed(text@) {
            Some(document) => r is Ok && json_of(r->Ok_0) == document,
            None => r is Err,
        },
{
    serde_json::from_str(text)
}

/// The message of a `serde_json::Error`, as its `Display` gives it.
#[verifier::external_body]
pub(crate) fn error_message(error: &serde_json::Error) -> String {
    error.to_string()
}

} // verus!
