//! The JSON documents that the weather service answers with.
//!
//! A document is held as a `serde_json::Value`. Verus cannot look into one, so
//! the contracts speak of its mathematical counterpart, a [`Node`], and the
//! few functions at the end of this file are believed, not proved, to read a
//! value as `serde_json` documents it.

use vstd::prelude::*;

verus! {

#[verifier::external_type_specification]
#[verifier::external_body]
pub struct ExValue(serde_json::Value);

#[verifier::external_type_specification]
#[verifier::external_body]
pub struct ExError(serde_json::Error);

/// A JSON value as mathematics sees it.
pub enum Node {
    Null,
    Bool(bool),
    /// A number. `whole` is its value where the document wrote an integer that
    /// fits 64 bits, signed or unsigned; `text` is the number as it prints.
    Number { whole: Option<int>, text: Seq<char> },
    Text(Seq<char>),
    List(Seq<Node>),
    Object(Map<Seq<char>, Node>),
}

/// The value that a `serde_json::Value` holds.
pub uninterp spec fn node_of(v: serde_json::Value) -> Node;

/// What a text parses to as JSON, `None` where it is not a JSON document.
pub uninterp spec fn parse_outcome(text: Seq<char>) -> Option<Node>;

/// The member `key` of an object; nothing else has members.
pub open spec fn child(node: Node, key: Seq<char>) -> Option<Node> {
    match node {
        Node::Object(members) => if members.contains_key(key) {
            Some(members[key])
        } else {
            None
        },
        _ => None,
    }
}

/// The member `key` of a node that may itself be missing.
pub open spec fn child_of(holder: Option<Node>, key: Seq<char>) -> Option<Node> {
    match holder {
        Some(node) => child(node, key),
        None => None,
    }
}

/// A node read as a signed 64-bit integer: an integral number in range.
pub open spec fn int_of(node: Node) -> Option<i64> {
    match node {
        Node::Number { whole: Some(n), .. } => if i64::MIN <= n <= i64::MAX {
            Some(n as i64)
        } else {
            None
        },
        _ => None,
    }
}

/// A node read as a number of any kind, by its printed form.
pub open spec fn numeral_of(node: Node) -> Option<Seq<char>> {
    match node {
        Node::Number { text, .. } => Some(text),
        _ => None,
    }
}

/// A node read as a string.
pub open spec fn text_of(node: Node) -> Option<Seq<char>> {
    match node {
        Node::Text(s) => Some(s),
        _ => None,
    }
}

/// A node read as an array.
pub open spec fn list_of(node: Node) -> Option<Seq<Node>> {
    match node {
        Node::List(items) => Some(items),
        _ => None,
    }
}

/// The nodes of a run of values, in order.
pub open spec fn nodes_of(items: Seq<serde_json::Value>) -> Seq<Node> {
    items.map_values(|v: serde_json::Value| node_of(v))
}

/// `serde_json::from_str` at `Value`: the outcome depends on the text alone,
/// and a value that comes back holds what the text parses to.
#[verifier::external_body]
pub(crate) fn parse_text(text: &str) -> (r: Result<serde_json::Value, serde_json::Error>)
    ensures
        match r {
            Ok(v) => parse_outcome(text@) == Some(node_of(v)),
            Err(_) => parse_outcome(text@) is None,
        },
{
    serde_json::from_str(text)
}

/// `serde_json::Error`'s `Display`: the message of a parse failure. Nothing
/// is claimed of its wording.
#[verifier::external_body]
pub(crate) fn fault_message(fault: &serde_json::Error) -> String {
    fault.to_string()
}

/// `Value::get` with a string index: the member of that name where the value
/// is an object that has one, `None` for every other value.
#[verifier::external_body]
pub(crate) fn member<'a>(v: &'a serde_json::Value, key: &str) -> (r: Option<&'a serde_json::Value>)
    ensures
        match r {
            Some(found) => child(node_of(*v), key@) == Some(node_of(*found)),
            None => child(node_of(*v), key@) is None,
        },
{
    v.get(key)
}

/// `Value::as_i64`: the integer where the value is an integral number that
/// fits `i64`, `None` for a fraction, a larger integer or any other value.
#[verifier::external_body]
pub(crate) fn as_int(v: &serde_json::Value) -> (r: Option<i64>)
    ensures
        r == int_of(node_of(*v)),
{
    v.as_i64()
}

/// `Value::as_str`: the string where the value is one, else `None`.
#[verifier::external_body]
pub(crate) fn as_text<'a>(v: &'a serde_json::Value) -> (r: Option<&'a str>)
    ensures
        match r {
            Some(s) => text_of(node_of(*v)) == Some(s@),
            None => text_of(node_of(*v)) is None,
        },
{
    v.as_str()
}

/// `Value::as_array`: the elements where the value is an array, else `None`.
#[verifier::external_body]
pub(crate) fn as_list<'a>(v: &'a serde_json::Value) -> (r: Option<&'a Vec<serde_json::Value>>)
    ensures
        match r {
            Some(items) => list_of(node_of(*v)) == Some(nodes_of(items@)),
            None => list_of(node_of(*v)) is None,
        },
{
    v.as_array()
}

/// `Number`'s `Display` under `Value::Number`: the printed form of a number,
/// `None` for a value that is no number.
#[verifier::external_body]
pub(crate) fn as_numeral(v: &serde_json::Value) -> (r: Option<String>)
    ensures
        match r {
            Some(s) => numeral_of(node_of(*v)) == Some(s@),
            None => numeral_of(node_of(*v)) is None,
        },
{
    match v {
        serde_json::Value::Number(n) => Some(n.to_string()),
        _ => None,
    }
}

} // verus!
