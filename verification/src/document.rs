//! Reading the fields of an upstream document. A required field that is
//! absent or of the wrong type is a fault; an optional one is then just absent.

use vstd::prelude::*;
use crate::error::{Fault, Key, Place, SchemaError};
use crate::json::{items_of, json_of, member, members_of, Json};

verus! {

/// The members of `payload` as those of the document, or the fault of a
/// payload that is no object.
pub open spec fn document_of(payload: Json) -> Result<Map<Seq<char>, Json>, SchemaError> {
    match payload {
        Json::Object(members) => Ok(members),
        _ => Err(SchemaError { place: Place::Document, fault: Fault::NotAnObject }),
    }
}

/// The members of the element at position `index` of a list, or the fault of
/// an element that is no object.
pub open spec fn element_of(element: Json, index: usize) -> Result<
    Map<Seq<char>, Json>,
    SchemaError,
> {
    match element {
        Json::Object(members) => Ok(members),
        _ => Err(SchemaError { place: Place::Element(index), fault: Fault::NotAnObject }),
    }
}

/// The value that the object at `place` holds under `key`, or the fault of an
/// object without that key.
pub open spec fn required(members: Map<Seq<char>, Json>, place: Place, key: Key) -> Result<
    Json,
    SchemaError,
> {
    if members.contains_key(key.text()) {
        Ok(members[key.text()])
    } else {
        Err(SchemaError { place, fault: Fault::Missing(key) })
    }
}

/// The text that the object at `place` holds under `key`, or the fault of an
/// object that holds none there.
pub open spec fn required_text(members: Map<Seq<char>, Json>, place: Place, key: Key) -> Result<
    Seq<char>,
    SchemaError,
> {
    match required(members, place, key) {
        Ok(Json::Text(text)) => Ok(text),
        Ok(_) => Err(SchemaError { place, fault: Fault::Mistyped(key) }),
        Err(fault) => Err(fault),
    }
}

/// The list that the object at `place` holds under `key`, or the fault of an
/// object that holds none there.
pub open spec fn required_list(members: Map<Seq<char>, Json>, place: Place, key: Key) -> Result<
    Seq<Json>,
    SchemaError,
> {
    match required(members, place, key) {
        Ok(Json::Array(elements)) => Ok(elements),
        Ok(_) => Err(SchemaError { place, fault: Fault::Mistyped(key) }),
        Err(fault) => Err(fault),
    }
}

/// The text under `key`, where the object has a text there.
pub open spec fn optional_text(members: Map<Seq<char>, Json>, key: Key) -> Option<Seq<char>> {
    if members.contains_key(key.text()) {
        match members[key.text()] {
            Json::Text(text) => Some(text),
            _ => None,
        }
    } else {
        None
    }
}

/// The boolean under `key`, where the object has a boolean there.
pub open spec fn optional_bool(members: Map<Seq<char>, Json>, key: Key) -> Option<bool> {
    if members.contains_key(key.text()) {
        match members[key.text()] {
            Json::Bool(b) => Some(b),
            _ => None,
        }
    } else {
        None
    }
}

/// The object that a fetched payload must be.
pub fn as_document(payload: &serde_json::Value) -> (document: Result<
    &serde_json::Map<String, serde_json::Value>,
    SchemaError,
>)
    ensures
        match document_of(json_of(*payload)) {
            Ok(members) => document matches Ok(object) && members_of(*object) == members,
            Err(fault) => document matches Err(e) && e == fault,
        },
{
    match payload.as_object() {
        Some(object) => Ok(object),
        None => Err(SchemaError { place: Place::Document, fault: Fault::NotAnObject }),
    }
}

/// The object that the element at position `index` of a list must be.
pub fn as_element(element: &serde_json::Value, index: usize) -> (object: Result<
    &serde_json::Map<String, serde_json::Value>,
    SchemaError,
>)
    ensures
        match element_of(json_of(*element), index) {
            Ok(members) => object matches Ok(o) && members_of(*o) == members,
            Err(fault) => object matches Err(e) && e == fault,
        },
{
    match element.as_object() {
        Some(object) => Ok(object),
        None => Err(SchemaError { place: Place::Element(index), fault: Fault::NotAnObject }),
    }
}

/// The value that `object`, which stands at `place`, holds under `key`.
pub fn get<'a>(
    object: &'a serde_json::Map<String, serde_json::Value>,
    place: Place,
    key: Key,
) -> (value: Result<&'a serde_json::Value, SchemaError>)
    ensures
        match required(members_of(*object), place, key) {
            Ok(json) => value matches Ok(v) && json_of(*v) == json,
            Err(fault) => value matches Err(e) && e == fault,
        },
{
    match member(object, key.name()) {
        Some(value) => Ok(value),
        None => Err(SchemaError { place, fault: Fault::Missing(key) }),
    }
}

/// The text that `object`, which stands at `place`, must hold under `key`.
pub fn get_text<'a>(
    object: &'a serde_json::Map<String, serde_json::Value>,
    place: Place,
    key: Key,
) -> (text: Result<&'a str, SchemaError>)
    ensures
        match required_text(members_of(*object), place, key) {
            Ok(t) => text matches Ok(s) && s@ == t,
            Err(fault) => text matches Err(e) && e == fault,
        },
{
    match get(object, place, key) {
        Ok(value) => match value.as_str() {
            Some(text) => Ok(text),
            None => Err(SchemaError { place, fault: Fault::Mistyped(key) }),
        },
        Err(fault) => Err(fault),
    }
}

/// The list that `object`, which stands at `place`, must hold under `key`.
pub fn get_list<'a>(
    object: &'a serde_json::Map<String, serde_json::Value>,
    place: Place,
    key: Key,
) -> (list: Result<&'a Vec<serde_json::Value>, SchemaError>)
    ensures
        match required_list(members_of(*object), place, key) {
            Ok(items) => list matches Ok(elements) && items_of(elements@) == items,
            Err(fault) => list matches Err(e) && e == fault,
        },
{
    match get(object, place, key) {
        Ok(value) => match value.as_array() {
            Some(elements) => Ok(elements),
            None => Err(SchemaError { place, fault: Fault::Mistyped(key) }),
        },
        Err(fault) => Err(fault),
    }
}

/// The text under `key`, where `object` has a text there.
pub fn find_text<'a>(object: &'a serde_json::Map<String, serde_json::Value>, key: Key) -> (text:
    Option<&'a str>)
    ensures
        match optional_text(members_of(*object), key) {
            Some(t) => text matches Some(s) && s@ == t,
            None => text is None,
        },
{
    match member(object, key.name()) {
        Some(value) => value.as_str(),
        None => None,
    }
}

/// The boolean under `key`, where `object` has a boolean there.
pub fn find_bool(object: &serde_json::Map<String, serde_json::Value>, key: Key) -> (boolean:
    Option<bool>)
    ensures
        boolean == optional_bool(members_of(*object), key),
{
    match member(object, key.name()) {
        Some(value) => value.as_bool(),
        None => None,
    }
}

} // verus!
