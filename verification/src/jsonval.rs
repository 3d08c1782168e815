//! Bindings to the JSON library that parses the inbound envelope.
//!
//! A parsed document never crosses into the adapter: the adapter only ever
//! asks whether a text parses as JSON and what stands at a fixed JSON
//! pointer in it, and receives the answers as plain values. Both answers
//! are functions of the text alone, so each carries a name the contracts
//! of the decoder speak through.

use vstd::prelude::*;

verus! {

/// What stands at a JSON pointer, reduced to what the decoder reads: no
/// value at all, a string value, or a value of any other type.
#[derive(Debug)]
pub enum JsonNode {
    /// The pointer addresses nothing.
    Absent,
    /// The pointer addresses a JSON string, carried here.
    Text(String),
    /// The pointer addresses a JSON value of some other type.
    Other,
}

/// The string a node carries, if it is a string node.
pub open spec fn node_string(node: JsonNode) -> Option<Seq<char>> {
    match node {
        JsonNode::Text(s) => Some(s@),
        _ => None,
    }
}

/// Whether the text parses as a JSON document.
pub uninterp spec fn json_parses(s: Seq<char>) -> bool;

/// Whether the document the text parses to has a value at the pointer;
/// an unparseable text has a value nowhere.
pub uninterp spec fn json_has_node(s: Seq<char>, path: Seq<char>) -> bool;

/// The string at the pointer in the document the text parses to, if the
/// text parses and the pointer addresses a string value.
pub uninterp spec fn json_string_at(s: Seq<char>, path: Seq<char>) -> Option<Seq<char>>;

/// Relies on serde_json::from_str: whether the text parses as JSON, a
/// function of the text alone.
#[verifier::external_body]
pub(crate) fn json_well_formed(raw: &str) -> (r: bool)
    ensures
        r == json_parses(raw@),
{
    serde_json::from_str::<serde_json::Value>(raw).is_ok()
}

/// Relies on serde_json::from_str and serde_json::Value::pointer: looks
/// up a value by an RFC 6901 JSON pointer in the document the text parses
/// to. Both are functions of their arguments alone, so what comes back is
/// a function of the text and the pointer.
#[verifier::external_body]
pub(crate) fn node_at(raw: &str, path: &str) -> (r: JsonNode)
    ensures
        r is Absent <==> !json_has_node(raw@, path@),
        r is Text <==> json_string_at(raw@, path@) is Some,
        r matches JsonNode::Text(s) ==> json_string_at(raw@, path@) == Some(s@),
{
    let parsed: Option<serde_json::Value> = serde_json::from_str(raw).ok();
    match parsed.as_ref().and_then(|v| v.pointer(path)) {
        None => JsonNode::Absent,
        Some(serde_json::Value::String(s)) => JsonNode::Text(s.clone()),
        Some(_) => JsonNode::Other,
    }
}

} // verus!
