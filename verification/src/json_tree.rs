//! The JSON that providers speak, as the `serde_json` crate holds it.

use vstd::prelude::*;

verus! {

/// What a JSON value amounts to for this library: text, an array, an object,
/// or anything else (null, a boolean, a number).
pub enum JsonNode {
    Text(Seq<char>),
    Array(Seq<JsonNode>),
    Object(Map<Seq<char>, JsonNode>),
    Other,
}

/// `serde_json::Value`. Nothing of its inside is known here.
#[verifier::external_type_specification]
#[verifier::external_body]
pub struct ExJsonValue(serde_json::Value);

/// `serde_json::Error`, the error of the parser and of the serializer.
#[verifier::external_type_specification]
#[verifier::external_body]
pub struct ExJsonError(serde_json::Error);

/// A value, reduced to a `JsonNode`.
pub uninterp spec fn json_node(value: serde_json::Value) -> JsonNode;

/// The message an error displays.
pub uninterp spec fn json_fault(error: serde_json::Error) -> Seq<char>;

/// What parsing bytes as one JSON value gives: the value, or the parser's
/// message.
pub uninterp spec fn json_parse(bytes: Seq<u8>) -> Result<JsonNode, Seq<char>>;

/// What writing a text out as a JSON string gives: the text between quotes,
/// with what JSON asks to be escaped escaped, or the serializer's message.
pub uninterp spec fn json_string(text: Seq<char>) -> Result<Seq<char>, Seq<char>>;

/// The member of an object under a key: `None` where the node is no object or
/// the object has no such key.
pub open spec fn member(node: JsonNode, key: Seq<char>) -> Option<JsonNode> {
    match node {
        JsonNode::Object(members) => if members.contains_key(key) {
            Some(members[key])
        } else {
            None
        },
        _ => None,
    }
}

/// The element of an array at an index: `None` where the node is no array or
/// the array is too short.
pub open spec fn element(node: JsonNode, index: int) -> Option<JsonNode> {
    match node {
        JsonNode::Array(elements) => if 0 <= index < elements.len() {
            Some(elements[index])
        } else {
            None
        },
        _ => None,
    }
}

/// The text of a string: `None` where the node is no string.
pub open spec fn text_of(node: JsonNode) -> Option<Seq<char>> {
    match node {
        JsonNode::Text(text) => Some(text),
        _ => None,
    }
}

/// `serde_json::from_slice` at type `serde_json::Value`: parses the bytes as
/// one JSON value. The result depends on the bytes alone.
#[verifier::external_body]
pub(crate) fn parse_json(bytes: &[u8]) -> (r: Result<serde_json::Value, serde_json::Error>)
    ensures
        match r {
            Ok(value) => json_parse(bytes@) == Ok::<JsonNode, Seq<char>>(json_node(value)),
            Err(error) => json_parse(bytes@) == Err::<JsonNode, Seq<char>>(json_fault(error)),
        },
{
    serde_json::from_slice::<serde_json::Value>(bytes)
}

/// `Display` of `serde_json::Error`, through `to_string`.
#[verifier::external_body]
pub(crate) fn json_fault_text(error: &serde_json::Error) -> (text: String)
    ensures
        text@ == json_fault(*error),
{
    error.to_string()
}

/// `serde_json::Value::get` with a `str` index: the member of an object under
/// that key.
#[verifier::external_body]
pub(crate) fn json_member<'a>(value: &'a serde_json::Value, key: &str) -> (r: Option<
    &'a serde_json::Value,
>)
    ensures
        match r {
            Some(found) => member(json_node(*value), key@) == Some(json_node(*found)),
            None => member(json_node(*value), key@).is_none(),
        },
{
    value.get(key)
}

/// `serde_json::Value::get` with a `usize` index: the element of an array at
/// that index.
#[verifier::external_body]
pub(crate) fn json_element<'a>(value: &'a serde_json::Value, index: usize) -> (r: Option<
    &'a serde_json::Value,
>)
    ensures
        match r {
            Some(found) => element(json_node(*value), index as int) == Some(json_node(*found)),
            None => element(json_node(*value), index as int).is_none(),
        },
{
    value.get(index)
}

/// `serde_json::Value::as_str`: the text of a string, `None` for any other value.
pub assume_specification<'a>[ serde_json::Value::as_str ](value: &'a serde_json::Value) -> (r:
    Option<&'a str>)
    ensures
        match r {
            Some(text) => text_of(json_node(*value)) == Some(text@),
            None => text_of(json_node(*value)).is_none(),
        },
;

/// `serde_json::to_string` on a `str`: the text as a JSON string. The result
/// depends on the text alone.
#[verifier::external_body]
pub(crate) fn quote_json(text: &str) -> (r: Result<String, serde_json::Error>)
    ensures
        match r {
            Ok(quoted) => json_string(text@) == Ok::<Seq<char>, Seq<char>>(quoted@),
            Err(error) => json_string(text@) == Err::<Seq<char>, Seq<char>>(json_fault(error)),
        },
{
    serde_json::to_string(text)
}

} // verus!
