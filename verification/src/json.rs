//! The parsed JSON documents, as `serde_json` holds them, and what this
//! library reads in them.

use vstd::prelude::*;

verus! {

/// `serde_json::Value`, a parsed JSON value. Nothing is known of one but what
/// the functions below say.
#[verifier::external_type_specification]
#[verifier::external_body]
pub struct ExValue(serde_json::Value);

/// `serde_json::Map`, the members of a JSON object. Nothing is known of one
/// but what the functions below say.
#[verifier::external_type_specification]
#[verifier::external_body]
#[verifier::reject_recursive_types(K)]
#[verifier::reject_recursive_types(V)]
pub struct ExObject<K, V>(serde_json::Map<K, V>);

/// What a JSON value holds. Numbers are not told apart: nothing here reads one.
pub enum Json {
    Null,
    Bool(bool),
    Number,
    Text(Seq<char>),
    Array(Seq<Json>),
    Object(Map<Seq<char>, Json>),
}

/// What the `serde_json::Value` `value` holds: which of the six kinds of JSON
/// value it is, and, but for a number, its content.
pub uninterp spec fn json_of(value: serde_json::Value) -> Json;

/// The members that the `serde_json::Map` `object` holds, each key with what
/// its value holds.
pub uninterp spec fn members_of(object: serde_json::Map<String, serde_json::Value>) -> Map<
    Seq<char>,
    Json,
>;

/// What each value of `values` holds, in order.
pub open spec fn items_of(values: Seq<serde_json::Value>) -> Seq<Json> {
    values.map_values(|value: serde_json::Value| json_of(value))
}

/// `serde_json::Value::as_object` hands out the members of an object, and
/// nothing for a value of another kind.
pub assume_specification[ serde_json::Value::as_object ](value: &serde_json::Value) -> (object:
    Option<&serde_json::Map<String, serde_json::Value>>)
    ensures
        match object {
            Some(members) => json_of(*value) == Json::Object(members_of(*members)),
            None => !(json_of(*value) is Object),
        },
;

/// `serde_json::Value::as_array` hands out the elements of an array, and
/// nothing for a value of another kind.
pub assume_specification[ serde_json::Value::as_array ](value: &serde_json::Value) -> (array:
    Option<&Vec<serde_json::Value>>)
    ensures
        match array {
            Some(elements) => json_of(*value) == Json::Array(items_of(elements@)),
            None => !(json_of(*value) is Array),
        },
;

/// `serde_json::Value::as_str` hands out the text of a string, and nothing
/// for a value of another kind.
pub assume_specification[ serde_json::Value::as_str ](value: &serde_json::Value) -> (text: Option<
    &str,
>)
    ensures
        match text {
            Some(s) => json_of(*value) == Json::Text(s@),
            None => !(json_of(*value) is Text),
        },
;

/// `serde_json::Value::as_bool` hands out a boolean, and nothing for a value
/// of another kind.
pub assume_specification[ serde_json::Value::as_bool ](value: &serde_json::Value) -> (boolean:
    Option<bool>)
    ensures
        match boolean {
            Some(b) => json_of(*value) == Json::Bool(b),
            None => !(json_of(*value) is Bool),
        },
;

/// `serde_json::Map::get` hands out the value that the object holds under
/// `key`, and nothing where it has no such key.
#[verifier::external_body]
pub(crate) fn member<'a>(
    object: &'a serde_json::Map<String, serde_json::Value>,
    key: &str,
) -> (value: Option<&'a serde_json::Value>)
    ensures
        match value {
            Some(v) => members_of(*object).contains_key(key@) && members_of(*object)[key@]
                == json_of(*v),
            None => !members_of(*object).contains_key(key@),
        },
{
    object.get(key)
}

} // verus!
