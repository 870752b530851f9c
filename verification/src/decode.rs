//! The decoding of one inbound frame: blank frames are skipped, `serde_json`
//! reads the others, and a field that the document leaves out takes its
//! default.

use vstd::prelude::*;
use crate::error::RisError;
use crate::json::{json_parse, node_at, node_or_absent, parse_document, JsonNode};
use crate::schema::{
    default_data_view, default_timestamp, default_unknown_string, ResponseDataView, ResponseView,
    RisResponse, RisResponseData,
};

verus! {

/// The characters that JSON counts as white space.
pub open spec fn is_json_space(c: char) -> bool {
    c == ' ' || c == '\t' || c == '\n' || c == '\r'
}

/// A frame is blank where it holds nothing but white space.
pub open spec fn is_blank(text: Seq<char>) -> bool {
    forall|i: int| 0 <= i < text.len() ==> is_json_space(#[trigger] text[i])
}

/// The nodes of a document that a response is read from.
#[derive(Debug, Clone)]
pub struct ResponseNodes {
    /// The document itself.
    pub root: JsonNode,
    /// The member `type` of the document.
    pub message_type: JsonNode,
    /// The member `data` of the document.
    pub data: JsonNode,
    /// The members of `data`.
    pub timestamp: JsonNode,
    pub peer: JsonNode,
    pub peer_asn: JsonNode,
    pub id: JsonNode,
    pub host: JsonNode,
    pub data_type: JsonNode,
}

/// The nodes of a parsed document at the places that a response is read from.
pub open spec fn nodes_of_document(doc: Map<Seq<char>, JsonNode>) -> ResponseNodes {
    ResponseNodes {
        root: node_or_absent(doc, ""@),
        message_type: node_or_absent(doc, "/type"@),
        data: node_or_absent(doc, "/data"@),
        timestamp: node_or_absent(doc, "/data/timestamp"@),
        peer: node_or_absent(doc, "/data/peer"@),
        peer_asn: node_or_absent(doc, "/data/peer_asn"@),
        id: node_or_absent(doc, "/data/id"@),
        host: node_or_absent(doc, "/data/host"@),
        data_type: node_or_absent(doc, "/data/type"@),
    }
}

/// A string field: its text, `unknown` where it is absent, nothing where the
/// node is no string.
pub open spec fn text_or_unknown(node: JsonNode) -> Option<Seq<char>> {
    match node {
        JsonNode::Absent => Some("unknown"@),
        JsonNode::Text(s) => Some(s@),
        _ => None,
    }
}

/// The timestamp: its bits, zero where it is absent, nothing where the node
/// is no number.
pub open spec fn bits_or_zero(node: JsonNode) -> Option<u64> {
    match node {
        JsonNode::Absent => Some(0u64),
        JsonNode::Number(bits) => Some(bits),
        _ => None,
    }
}

/// The data of a response: all defaults where `data` is absent, each field or
/// its default where it is an object, nothing where `data` or one of its
/// fields has the wrong shape.
pub open spec fn data_of_nodes(n: ResponseNodes) -> Option<ResponseDataView> {
    match n.data {
        JsonNode::Absent => Some(default_data_view()),
        JsonNode::Object => if bits_or_zero(n.timestamp) is Some && text_or_unknown(n.peer) is Some
            && text_or_unknown(n.peer_asn) is Some && text_or_unknown(n.id) is Some
            && text_or_unknown(n.host) is Some && text_or_unknown(n.data_type) is Some {
            Some(
                ResponseDataView {
                    timestamp_bits: bits_or_zero(n.timestamp).unwrap(),
                    peer: text_or_unknown(n.peer).unwrap(),
                    peer_asn: text_or_unknown(n.peer_asn).unwrap(),
                    id: text_or_unknown(n.id).unwrap(),
                    host: text_or_unknown(n.host).unwrap(),
                    data_type: text_or_unknown(n.data_type).unwrap(),
                },
            )
        } else {
            None
        },
        _ => None,
    }
}

/// The response that a document holds: nothing where the document is no
/// object or a member has the wrong shape.
pub open spec fn response_of_nodes(n: ResponseNodes) -> Option<ResponseView> {
    if n.root is Object && text_or_unknown(n.message_type) is Some && data_of_nodes(n) is Some {
        Some(
            ResponseView {
                message_type: text_or_unknown(n.message_type).unwrap(),
                data: data_of_nodes(n).unwrap(),
            },
        )
    } else {
        None
    }
}

/// What becomes of one inbound frame.
#[derive(Debug, Clone)]
pub enum FrameOutcome {
    /// The frame is blank: nothing is forwarded.
    Skip,
    /// The frame holds this response.
    Record(RisResponse),
    /// The frame is neither blank nor a response.
    Fatal(RisError),
}

/// The mathematical value of a `FrameOutcome`.
pub enum OutcomeView {
    Skip,
    Record(ResponseView),
    Fatal(RisError),
}

impl View for FrameOutcome {
    type V = OutcomeView;

    open spec fn view(&self) -> OutcomeView {
        match *self {
            FrameOutcome::Skip => OutcomeView::Skip,
            FrameOutcome::Record(r) => OutcomeView::Record(r@),
            FrameOutcome::Fatal(e) => OutcomeView::Fatal(e),
        }
    }
}

/// What becomes of a frame with the given text.
pub open spec fn frame_outcome(text: Seq<char>) -> OutcomeView {
    if is_blank(text) {
        OutcomeView::Skip
    } else {
        match json_parse(text) {
            None => OutcomeView::Fatal(RisError::Decode),
            Some(doc) => match response_of_nodes(nodes_of_document(doc)) {
                Some(r) => OutcomeView::Record(r),
                None => OutcomeView::Fatal(RisError::Decode),
            },
        }
    }
}

/// Whether a frame holds nothing but white space.
pub fn is_blank_frame(text: &str) -> (blank: bool)
    ensures
        blank == is_blank(text@),
{
    let n = text.unicode_len();
    let mut i: usize = 0;
    while i < n
        invariant
            n == text@.len(),
            i <= n,
            forall|j: int| 0 <= j < i ==> is_json_space(#[trigger] text@[j]),
        decreases n - i,
    {
        let c = text.get_char(i);
        if !(c == ' ' || c == '\t' || c == '\n' || c == '\r') {
            return false;
        }
        i += 1;
    }
    true
}

fn take_text(node: JsonNode) -> (r: Option<String>)
    ensures
        r matches Some(s) ==> text_or_unknown(node) == Some(s@),
        r is None ==> text_or_unknown(node) is None,
{
    match node {
        JsonNode::Absent => Some(default_unknown_string()),
        JsonNode::Text(s) => Some(s),
        _ => None,
    }
}

fn take_bits(node: &JsonNode) -> (r: Option<u64>)
    ensures
        r == bits_or_zero(*node),
{
    match node {
        JsonNode::Absent => Some(default_timestamp()),
        JsonNode::Number(bits) => Some(*bits),
        _ => None,
    }
}

/// Builds the response from the nodes of a document. It fails exactly where
/// the document is no object or a member has the wrong shape; a member that
/// is absent takes its default.
pub fn decode_nodes(nodes: ResponseNodes) -> (r: Result<RisResponse, RisError>)
    ensures
        r matches Ok(response) ==> response_of_nodes(nodes) == Some(response@),
        r matches Err(e) ==> e == RisError::Decode && response_of_nodes(nodes) is None,
{
    match nodes.root {
        JsonNode::Object => {},
        _ => {
            return Err(RisError::Decode);
        },
    }
    let message_type = match take_text(nodes.message_type) {
        Some(s) => s,
        None => {
            return Err(RisError::Decode);
        },
    };
    let data = match nodes.data {
        JsonNode::Absent => RisResponseData::default(),
        JsonNode::Object => {
            let timestamp = take_bits(&nodes.timestamp);
            let peer = take_text(nodes.peer);
            let peer_asn = take_text(nodes.peer_asn);
            let id = take_text(nodes.id);
            let host = take_text(nodes.host);
            let data_type = take_text(nodes.data_type);
            match (timestamp, peer, peer_asn, id, host, data_type) {
                (Some(t), Some(p), Some(a), Some(i), Some(h), Some(d)) => RisResponseData::new(
                    t,
                    p,
                    a,
                    i,
                    h,
                    d,
                ),
                _ => {
                    return Err(RisError::Decode);
                },
            }
        },
        _ => {
            return Err(RisError::Decode);
        },
    };
    Ok(RisResponse::new(message_type, data))
}

/// Decodes one inbound frame. A blank frame is skipped; any other frame is a
/// response where it is a JSON object of the response shape, and fatal where
/// it is not.
pub fn decode_frame(text: &str) -> (outcome: FrameOutcome)
    ensures
        outcome@ == frame_outcome(text@),
{
    if is_blank_frame(text) {
        return FrameOutcome::Skip;
    }
    let doc = match parse_document(text) {
        Ok(doc) => doc,
        Err(_) => {
            return FrameOutcome::Fatal(RisError::Decode);
        },
    };
    let nodes = ResponseNodes {
        root: node_at(&doc, ""),
        message_type: node_at(&doc, "/type"),
        data: node_at(&doc, "/data"),
        timestamp: node_at(&doc, "/data/timestamp"),
        peer: node_at(&doc, "/data/peer"),
        peer_asn: node_at(&doc, "/data/peer_asn"),
        id: node_at(&doc, "/data/id"),
        host: node_at(&doc, "/data/host"),
        data_type: node_at(&doc, "/data/type"),
    };
    match decode_nodes(nodes) {
        Ok(response) => FrameOutcome::Record(response),
        Err(e) => FrameOutcome::Fatal(e),
    }
}

/// A field that a document leaves out takes its default: `unknown` for the
/// kind of the message and for each string of the data, zero for the
/// timestamp, and all of these where `data` itself is left out. A document
/// that is an object and whose members, where present, have the right shape
/// always decodes.
pub proof fn lemma_defaults_substituted(n: ResponseNodes)
    ensures
        n.root is Object && n.message_type is Absent && n.data is Absent ==> response_of_nodes(n)
            == Some(ResponseView { message_type: "unknown"@, data: default_data_view() }),
        n.root is Object && n.data is Object && n.timestamp is Absent && n.peer is Absent
            && n.peer_asn is Absent && n.id is Absent && n.host is Absent && n.data_type is Absent
            && text_or_unknown(n.message_type) is Some ==> response_of_nodes(n) is Some
            && response_of_nodes(n).unwrap().data == default_data_view(),
        response_of_nodes(n) matches Some(r) ==> {
            &&& n.message_type is Absent ==> r.message_type == "unknown"@
            &&& n.data is Absent ==> r.data == default_data_view()
            &&& n.data is Object && n.timestamp is Absent ==> r.data.timestamp_bits == 0
            &&& n.data is Object && n.peer is Absent ==> r.data.peer == "unknown"@
            &&& n.data is Object && n.peer_asn is Absent ==> r.data.peer_asn == "unknown"@
            &&& n.data is Object && n.id is Absent ==> r.data.id == "unknown"@
            &&& n.data is Object && n.host is Absent ==> r.data.host == "unknown"@
            &&& n.data is Object && n.data_type is Absent ==> r.data.data_type == "unknown"@
        },
        response_of_nodes(n) matches Some(r) ==> {
            &&& n.message_type matches JsonNode::Text(s) ==> r.message_type == s@
            &&& n.data is Object ==> {
                &&& n.timestamp matches JsonNode::Number(b) ==> r.data.timestamp_bits == b
                &&& n.peer matches JsonNode::Text(s) ==> r.data.peer == s@
                &&& n.peer_asn matches JsonNode::Text(s) ==> r.data.peer_asn == s@
                &&& n.id matches JsonNode::Text(s) ==> r.data.id == s@
                &&& n.host matches JsonNode::Text(s) ==> r.data.host == s@
                &&& n.data_type matches JsonNode::Text(s) ==> r.data.data_type == s@
            }
        },
{
}

/// A frame that is empty or holds only white space is skipped: it gives no
/// record and no error, whatever a JSON parser would make of it.
pub proof fn lemma_blank_frame_skipped(text: Seq<char>)
    ensures
        is_blank(text) ==> frame_outcome(text) is Skip,
        text.len() == 0 ==> is_blank(text),
        frame_outcome(text) is Skip ==> is_blank(text),
{
}

} // verus!
