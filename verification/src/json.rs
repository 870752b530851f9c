//! The calls into `serde_json`, each with the contract that the rest of the
//! library relies on. Nothing in this file is proved: the contracts restate
//! what `serde_json` does.

use vstd::prelude::*;

verus! {

/// A parsed JSON document, as `serde_json` holds it.
#[verifier::external_type_specification]
#[verifier::external_body]
pub struct ExJsonValue(serde_json::Value);

/// The error of `serde_json`.
#[verifier::external_type_specification]
#[verifier::external_body]
pub struct ExJsonError(serde_json::Error);

/// What stands at one place of a JSON document, as far as a response reads it.
#[derive(Debug, Clone)]
pub enum JsonNode {
    /// Nothing: the place does not exist in the document.
    Absent,
    /// A JSON string, unescaped.
    Text(String),
    /// A JSON number, as the bits of the double-precision number that
    /// `serde_json` reads from it, in IEEE 754 binary form.
    Number(u64),
    /// A JSON object.
    Object,
    /// Anything else: null, a boolean or an array.
    Other,
}

/// The JSON string literal that `serde_json::to_string` writes for a string:
/// the string in double quotes, with the escapes that JSON asks for.
pub uninterp spec fn json_string_text(s: Seq<char>) -> Seq<char>;

/// The character of a decimal digit.
pub open spec fn digit_char(d: nat) -> char {
    if d == 0 {
        '0'
    } else if d == 1 {
        '1'
    } else if d == 2 {
        '2'
    } else if d == 3 {
        '3'
    } else if d == 4 {
        '4'
    } else if d == 5 {
        '5'
    } else if d == 6 {
        '6'
    } else if d == 7 {
        '7'
    } else if d == 8 {
        '8'
    } else {
        '9'
    }
}

/// A number in decimal, without sign or leading zeros.
pub open spec fn decimal_text(n: nat) -> Seq<char>
    decreases n,
{
    if n < 10 {
        seq![digit_char(n)]
    } else {
        decimal_text(n / 10).push(digit_char(n % 10))
    }
}

/// The numbers of a list in decimal, separated by commas.
pub open spec fn numbers_text(path: Seq<u32>) -> Seq<char>
    decreases path.len(),
{
    if path.len() == 0 {
        Seq::empty()
    } else if path.len() == 1 {
        decimal_text(path[0] as nat)
    } else {
        numbers_text(path.drop_last()) + ","@ + decimal_text(path.last() as nat)
    }
}

/// The JSON array of a list of unsigned 32-bit integers, without white space.
pub open spec fn path_array_text(path: Seq<u32>) -> Seq<char> {
    "["@ + numbers_text(path) + "]"@
}

/// The document that `serde_json::from_str` reads from a text, given as the
/// node at each JSON pointer that leads somewhere in it; `None` where the text
/// is no JSON document.
pub uninterp spec fn json_parse(text: Seq<char>) -> Option<Map<Seq<char>, JsonNode>>;

/// What a parsed document holds: for each JSON pointer that leads somewhere in
/// it, the node found there.
pub uninterp spec fn json_nodes(doc: serde_json::Value) -> Map<Seq<char>, JsonNode>;

/// The node that a document holds at a pointer, `Absent` where the pointer
/// leads nowhere.
pub open spec fn node_or_absent(nodes: Map<Seq<char>, JsonNode>, pointer: Seq<char>) -> JsonNode {
    if nodes.dom().contains(pointer) {
        nodes[pointer]
    } else {
        JsonNode::Absent
    }
}

/// `serde_json::to_string` on a string slice. It writes into a byte vector,
/// which takes every write, so it always succeeds; the result is the JSON
/// string literal of the argument.
#[verifier::external_body]
pub(crate) fn encode_string(s: &str) -> (r: Result<String, serde_json::Error>)
    ensures
        r is Ok,
        r matches Ok(text) ==> text@ == json_string_text(s@),
{
    serde_json::to_string(s)
}

/// `serde_json::to_string` on a list of unsigned 32-bit integers. It writes
/// into a byte vector, which takes every write, so it always succeeds; the
/// result is the JSON array of the numbers: each in decimal, separated by
/// commas, in brackets, without white space.
#[verifier::external_body]
pub(crate) fn encode_path(path: &Vec<u32>) -> (r: Result<String, serde_json::Error>)
    ensures
        r is Ok,
        r matches Ok(text) ==> text@ == path_array_text(path@),
{
    serde_json::to_string(path)
}

/// `serde_json::from_str` into a `serde_json::Value`. It succeeds exactly on
/// the texts that are JSON documents, and the value then holds the document
/// of the text.
#[verifier::external_body]
pub(crate) fn parse_document(text: &str) -> (r: Result<serde_json::Value, serde_json::Error>)
    ensures
        r is Ok <==> json_parse(text@) is Some,
        r matches Ok(doc) ==> json_parse(text@) == Some(json_nodes(doc)),
{
    serde_json::from_str::<serde_json::Value>(text)
}

/// `serde_json::Value::pointer`, with the value found turned into a
/// `JsonNode`: the node that the document holds at the pointer.
#[verifier::external_body]
pub(crate) fn node_at(doc: &serde_json::Value, pointer: &str) -> (node: JsonNode)
    ensures
        node == node_or_absent(json_nodes(*doc), pointer@),
{
    match doc.pointer(pointer) {
        None => JsonNode::Absent,
        Some(serde_json::Value::String(s)) => JsonNode::Text(s.clone()),
        Some(serde_json::Value::Number(n)) => match n.as_f64() {
            Some(x) => JsonNode::Number(x.to_bits()),
            None => JsonNode::Other,
        },
        Some(serde_json::Value::Object(_)) => JsonNode::Object,
        Some(_) => JsonNode::Other,
    }
}

} // verus!
