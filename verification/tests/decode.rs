use risclient::{
    decode_frame, decode_nodes, default_timestamp, default_unknown_string, is_blank_frame,
    FrameOutcome, JsonNode, ResponseNodes, RisError, RisResponse, RisResponseData,
};

fn record(text: &str) -> RisResponse {
    match decode_frame(text) {
        FrameOutcome::Record(r) => r,
        other => panic!("no record: {:?}", other),
    }
}

fn is_fatal(text: &str) -> bool {
    matches!(decode_frame(text), FrameOutcome::Fatal(RisError::Decode))
}

fn seconds(data: &RisResponseData) -> f64 {
    f64::from_bits(data.timestamp_bits())
}

fn assert_all_defaults(data: &RisResponseData) {
    assert_eq!(seconds(data), 0.0);
    assert_eq!(data.peer(), "unknown");
    assert_eq!(data.peer_asn(), "unknown");
    assert_eq!(data.id(), "unknown");
    assert_eq!(data.host(), "unknown");
    assert_eq!(data.data_type(), "unknown");
}

#[test]
fn defaults_are_unknown_and_zero() {
    assert_eq!(default_unknown_string(), "unknown");
    assert_eq!(default_timestamp(), 0);
    assert_eq!(f64::from_bits(default_timestamp()), 0.0);
    assert_all_defaults(&RisResponseData::default());
}

#[test]
fn empty_data_object_takes_every_default() {
    let r = record("{\"type\":\"ris_message\",\"data\":{}}");
    assert_eq!(r.message_type(), "ris_message");
    assert_all_defaults(r.data());
}

#[test]
fn partial_data_keeps_what_is_there() {
    let r = record("{\"type\":\"ris_message\",\"data\":{\"peer\":\"192.0.2.1\",\"host\":\"rrc16\"}}");
    assert_eq!(r.data().peer(), "192.0.2.1");
    assert_eq!(r.data().host(), "rrc16");
    assert_eq!(r.data().peer_asn(), "unknown");
    assert_eq!(r.data().id(), "unknown");
    assert_eq!(r.data().data_type(), "unknown");
    assert_eq!(seconds(r.data()), 0.0);
}

#[test]
fn missing_top_level_type_is_unknown() {
    let r = record("{\"data\":{\"id\":\"abc\"}}");
    assert_eq!(r.message_type(), "unknown");
    assert_eq!(r.data().id(), "abc");
}

#[test]
fn missing_data_block_takes_every_default() {
    let r = record("{\"type\":\"pong\"}");
    assert_eq!(r.message_type(), "pong");
    assert_all_defaults(r.data());
    let r = record("{}");
    assert_eq!(r.message_type(), "unknown");
    assert_all_defaults(r.data());
}

#[test]
fn full_message_is_read_field_by_field() {
    let r = record(
        "{\"type\":\"ris_message\",\"data\":{\"timestamp\":1568279796.63,\"peer\":\"192.0.2.1\",\
         \"peer_asn\":\"64512\",\"id\":\"21-1-2\",\"host\":\"rrc21\",\"type\":\"UPDATE\",\"extra\":[1,2]}}",
    );
    assert_eq!(r.message_type(), "ris_message");
    assert_eq!(seconds(r.data()), 1568279796.63);
    assert_eq!(r.data().peer(), "192.0.2.1");
    assert_eq!(r.data().peer_asn(), "64512");
    assert_eq!(r.data().id(), "21-1-2");
    assert_eq!(r.data().host(), "rrc21");
    assert_eq!(r.data().data_type(), "UPDATE");
}

#[test]
fn timestamp_may_be_an_integer() {
    let r = record("{\"data\":{\"timestamp\":3}}");
    assert_eq!(seconds(r.data()), 3.0);
    let r = record("{\"data\":{\"timestamp\":1.5}}");
    assert_eq!(seconds(r.data()), 1.5);
}

#[test]
fn strings_are_unescaped() {
    let r = record("{\"type\":\"a\\\"b\\u0041\"}");
    assert_eq!(r.message_type(), "a\"bA");
}

#[test]
fn blank_frames_are_skipped() {
    for text in ["", " ", "   ", "\n", "\r\n", "\t \n\r"] {
        assert!(is_blank_frame(text));
        assert!(matches!(decode_frame(text), FrameOutcome::Skip));
    }
}

#[test]
fn frames_with_content_are_not_blank() {
    for text in ["{}", " x ", "\u{a0}", "null", " {"] {
        assert!(!is_blank_frame(text));
        assert!(!matches!(decode_frame(text), FrameOutcome::Skip));
    }
}

#[test]
fn invalid_json_is_fatal() {
    assert!(is_fatal("{"));
    assert!(is_fatal("{\"type\":"));
    assert!(is_fatal("not json"));
    assert!(is_fatal("{\"type\":\"x\"} trailing"));
    assert!(is_fatal("{'type':'x'}"));
}

#[test]
fn wrong_shape_is_fatal() {
    assert!(is_fatal("null"));
    assert!(is_fatal("[1,2]"));
    assert!(is_fatal("\"text\""));
    assert!(is_fatal("{\"type\":5}"));
    assert!(is_fatal("{\"type\":null}"));
    assert!(is_fatal("{\"data\":[]}"));
    assert!(is_fatal("{\"data\":null}"));
    assert!(is_fatal("{\"data\":{\"peer\":1}}"));
    assert!(is_fatal("{\"data\":{\"timestamp\":\"1.5\"}}"));
    assert!(is_fatal("{\"data\":{\"type\":{}}}"));
}

fn absent_nodes() -> ResponseNodes {
    ResponseNodes {
        root: JsonNode::Object,
        message_type: JsonNode::Absent,
        data: JsonNode::Absent,
        timestamp: JsonNode::Absent,
        peer: JsonNode::Absent,
        peer_asn: JsonNode::Absent,
        id: JsonNode::Absent,
        host: JsonNode::Absent,
        data_type: JsonNode::Absent,
    }
}

#[test]
fn nodes_that_are_absent_take_defaults() {
    let r = decode_nodes(absent_nodes()).unwrap();
    assert_eq!(r.message_type(), "unknown");
    assert_all_defaults(r.data());
    let mut nodes = absent_nodes();
    nodes.data = JsonNode::Object;
    let r = decode_nodes(nodes).unwrap();
    assert_all_defaults(r.data());
}

#[test]
fn nodes_that_are_present_are_kept() {
    let mut nodes = absent_nodes();
    nodes.message_type = JsonNode::Text("ris_message".to_string());
    nodes.data = JsonNode::Object;
    nodes.timestamp = JsonNode::Number(2.5f64.to_bits());
    nodes.peer = JsonNode::Text("p".to_string());
    nodes.peer_asn = JsonNode::Text("a".to_string());
    nodes.id = JsonNode::Text("i".to_string());
    nodes.host = JsonNode::Text("h".to_string());
    nodes.data_type = JsonNode::Text("d".to_string());
    let r = decode_nodes(nodes).unwrap();
    assert_eq!(r.message_type(), "ris_message");
    assert_eq!(seconds(r.data()), 2.5);
    assert_eq!(r.data().peer(), "p");
    assert_eq!(r.data().peer_asn(), "a");
    assert_eq!(r.data().id(), "i");
    assert_eq!(r.data().host(), "h");
    assert_eq!(r.data().data_type(), "d");
}

#[test]
fn fields_of_an_absent_data_block_are_not_read() {
    let mut nodes = absent_nodes();
    nodes.peer = JsonNode::Other;
    let r = decode_nodes(nodes).unwrap();
    assert_all_defaults(r.data());
}

#[test]
fn nodes_of_the_wrong_shape_are_refused() {
    let mut nodes = absent_nodes();
    nodes.root = JsonNode::Other;
    assert_eq!(decode_nodes(nodes).unwrap_err(), RisError::Decode);
    let mut nodes = absent_nodes();
    nodes.root = JsonNode::Absent;
    assert_eq!(decode_nodes(nodes).unwrap_err(), RisError::Decode);
    let mut nodes = absent_nodes();
    nodes.message_type = JsonNode::Number(0);
    assert_eq!(decode_nodes(nodes).unwrap_err(), RisError::Decode);
    let mut nodes = absent_nodes();
    nodes.data = JsonNode::Text("x".to_string());
    assert_eq!(decode_nodes(nodes).unwrap_err(), RisError::Decode);
    let mut nodes = absent_nodes();
    nodes.data = JsonNode::Object;
    nodes.timestamp = JsonNode::Text("1".to_string());
    assert_eq!(decode_nodes(nodes).unwrap_err(), RisError::Decode);
    let mut nodes = absent_nodes();
    nodes.data = JsonNode::Object;
    nodes.host = JsonNode::Object;
    assert_eq!(decode_nodes(nodes).unwrap_err(), RisError::Decode);
}

#[test]
fn response_built_by_hand() {
    let data = RisResponseData::new(
        1.0f64.to_bits(),
        "p".to_string(),
        "a".to_string(),
        "i".to_string(),
        "h".to_string(),
        "d".to_string(),
    );
    let r = RisResponse::new("ris_message".to_string(), data);
    assert_eq!(r.message_type(), "ris_message");
    assert_eq!(seconds(r.data()), 1.0);
    assert_eq!(r.data().peer(), "p");
}
