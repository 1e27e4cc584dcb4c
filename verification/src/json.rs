use vstd::prelude::*;
use bytes::Buf;
use serde_json::Value as Node;
use crate::payload::{Json, Payload};

verus! {

/// `serde_json::Value`, known to the verifier by name only.
#[verifier::external_type_specification]
#[verifier::external_body]
pub struct ExNode(serde_json::Value);

/// The tree that a `serde_json::Value` holds.
pub uninterp spec fn node_tree(node: serde_json::Value) -> Json;

/// The compact JSON text that `serde_json::to_string` writes for a tree, or
/// the text of its error.
pub uninterp spec fn json_text(tree: Json) -> Result<Seq<char>, Seq<char>>;

/// The tree that `serde_json::from_slice` reads from bytes, or the text of
/// its error.
pub uninterp spec fn json_parsed(bytes: Seq<u8>) -> Result<Json, Seq<char>>;

/// Builds the `serde_json::Value` that holds the same tree as `p`: each node
/// becomes the variant of the same kind, an integer goes through
/// `Value::from`, a float through `Value::from` of the double with these bits
/// (which gives null when it is not finite), and the entries of an object are
/// inserted in order, so a later entry replaces an earlier one with its key.
#[verifier::external_body]
pub(crate) fn lower(p: &Payload) -> (out: serde_json::Value)
    ensures
        node_tree(out) == p@,
{
    match p {
        Payload::Null => Node::Null,
        Payload::Bool(b) => Node::Bool(*b),
        Payload::PosInt(n) => Node::from(*n),
        Payload::NegInt(n) => Node::from(*n),
        Payload::Float(bits) => Node::from((&bits.to_be_bytes()[..]).get_f64()),
        Payload::String(s) => Node::String(s.clone()),
        Payload::Array(a) => Node::Array(a.iter().map(lower).collect()),
        Payload::Object(o) => Node::Object(o.iter().fold(serde_json::Map::new(), |mut m, (k, v)| {
            m.insert(k.clone(), lower(v));
            m
        })),
    }
}

/// Takes a `serde_json::Value` apart into the payload tree that it holds: a
/// number becomes `PosInt` where `as_u64` has it, else `NegInt` where
/// `as_i64` has it, else the bits of the double.
#[verifier::external_body]
pub(crate) fn raise(node: serde_json::Value) -> (out: Payload)
    ensures
        out@ == node_tree(node),
{
    match node {
        Node::Null => Payload::Null,
        Node::Bool(b) => Payload::Bool(b),
        Node::Number(n) => match (n.as_u64(), n.as_i64()) {
            (Some(u), _) => Payload::PosInt(u),
            (_, Some(i)) => Payload::NegInt(i),
            _ => Payload::Float(n.as_f64().unwrap().to_bits()),
        },
        Node::String(s) => Payload::String(s),
        Node::Array(a) => Payload::Array(a.into_iter().map(raise).collect()),
        Node::Object(o) => Payload::Object(o.into_iter().map(|(k, v)| (k, raise(v))).collect()),
    }
}

/// `serde_json::to_string` on a value: the compact JSON text of the tree it
/// holds. An error is handed on as its text.
#[verifier::external_body]
pub(crate) fn write_node(node: &serde_json::Value) -> (out: Result<String, String>)
    ensures
        match out {
            Ok(text) => json_text(node_tree(*node)) == Ok::<Seq<char>, Seq<char>>(text@),
            Err(e) => json_text(node_tree(*node)) == Err::<Seq<char>, Seq<char>>(e@),
        },
{
    serde_json::to_string(node).map_err(|e| e.to_string())
}

/// `serde_json::from_slice` to a value: the tree that the bytes spell. An
/// error is handed on as its text.
#[verifier::external_body]
pub(crate) fn read_node(bytes: &[u8]) -> (out: Result<serde_json::Value, String>)
    ensures
        match out {
            Ok(node) => json_parsed(bytes@) == Ok::<Json, Seq<char>>(node_tree(node)),
            Err(e) => json_parsed(bytes@) == Err::<Json, Seq<char>>(e@),
        },
{
    serde_json::from_slice::<serde_json::Value>(bytes).map_err(|e| e.to_string())
}

/// Writes a payload tree as compact JSON text.
pub fn to_json_text(p: &Payload) -> (out: Result<String, String>)
    ensures
        match out {
            Ok(text) => json_text(p@) == Ok::<Seq<char>, Seq<char>>(text@),
            Err(e) => json_text(p@) == Err::<Seq<char>, Seq<char>>(e@),
        },
{
    let node = lower(p);
    write_node(&node)
}

/// Reads a payload tree from JSON text given as bytes.
pub fn from_json_bytes(bytes: &[u8]) -> (out: Result<Payload, String>)
    ensures
        match out {
            Ok(p) => json_parsed(bytes@) == Ok::<Json, Seq<char>>(p@),
            Err(e) => json_parsed(bytes@) == Err::<Json, Seq<char>>(e@),
        },
{
    match read_node(bytes) {
        Ok(node) => Ok(raise(node)),
        Err(e) => Err(e),
    }
}

} // verus!
