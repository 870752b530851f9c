use risclient::{
    forward_frames, on_delivery, on_event, RisError, RisResponse, StreamAction, StreamEvent,
};

fn frames(texts: &[&str]) -> Vec<String> {
    texts.iter().map(|t| t.to_string()).collect()
}

/// Drives the loop's decisions over a scripted connection, with a consumer
/// that takes the first `capacity` responses and is gone after that.
fn run(events: Vec<StreamEvent>, capacity: usize) -> (Vec<RisResponse>, Option<RisError>) {
    let mut seen = Vec::new();
    for event in events {
        match on_event(&event) {
            StreamAction::Continue => {}
            StreamAction::Forward(r) => {
                let delivered = seen.len() < capacity;
                if delivered {
                    seen.push(r);
                }
                match on_delivery(delivered) {
                    StreamAction::Stop(cause) => return (seen, cause),
                    _ => {}
                }
            }
            StreamAction::Stop(cause) => return (seen, cause),
        }
    }
    panic!("the script ended without closing the connection");
}

#[test]
fn blank_then_message_then_close() {
    let input = frames(&["", "{\"type\":\"ris_message\",\"data\":{\"peer\":\"192.0.2.1\"}}"]);
    let out = forward_frames(&input);
    assert_eq!(out.error, None);
    assert_eq!(out.records.len(), 1);
    let r = &out.records[0];
    assert_eq!(r.data().peer(), "192.0.2.1");
    assert_eq!(r.message_type(), "ris_message");
    assert_eq!(r.data().peer_asn(), "unknown");
    assert_eq!(f64::from_bits(r.data().timestamp_bits()), 0.0);
}

#[test]
fn blank_then_message_then_close_event_by_event() {
    let events = vec![
        StreamEvent::Frame("".to_string()),
        StreamEvent::Frame("{\"type\":\"ris_message\",\"data\":{\"peer\":\"192.0.2.1\"}}".to_string()),
        StreamEvent::Closed,
    ];
    let (seen, cause) = run(events, usize::MAX);
    assert_eq!(cause, None);
    assert_eq!(seen.len(), 1);
    assert_eq!(seen[0].data().peer(), "192.0.2.1");
    assert_eq!(seen[0].message_type(), "ris_message");
    assert_eq!(seen[0].data().peer_asn(), "unknown");
    assert_eq!(f64::from_bits(seen[0].data().timestamp_bits()), 0.0);
}

#[test]
fn valid_frames_arrive_all_and_in_order() {
    let texts: Vec<String> =
        (0..50).map(|i| format!("{{\"type\":\"ris_message\",\"data\":{{\"id\":\"m{}\"}}}}", i)).collect();
    let out = forward_frames(&texts);
    assert_eq!(out.error, None);
    assert_eq!(out.records.len(), 50);
    for (i, r) in out.records.iter().enumerate() {
        assert_eq!(r.data().id(), &format!("m{}", i));
    }
}

#[test]
fn blank_frames_between_messages_leave_no_trace() {
    let input = frames(&[" ", "{\"data\":{\"id\":\"a\"}}", "\n", "", "{\"data\":{\"id\":\"b\"}}", "\t"]);
    let out = forward_frames(&input);
    assert_eq!(out.error, None);
    assert_eq!(out.records.len(), 2);
    assert_eq!(out.records[0].data().id(), "a");
    assert_eq!(out.records[1].data().id(), "b");
}

#[test]
fn no_frames_no_records() {
    let out = forward_frames(&Vec::new());
    assert_eq!(out.error, None);
    assert!(out.records.is_empty());
}

#[test]
fn a_malformed_frame_ends_the_stream() {
    let input = frames(&["{\"data\":{\"id\":\"a\"}}", "{\"type\":", "{\"data\":{\"id\":\"b\"}}"]);
    let out = forward_frames(&input);
    assert_eq!(out.error, Some(RisError::Decode));
    assert_eq!(out.records.len(), 1);
    assert_eq!(out.records[0].data().id(), "a");
}

#[test]
fn events_map_to_actions() {
    assert!(matches!(on_event(&StreamEvent::Frame("  ".to_string())), StreamAction::Continue));
    assert!(matches!(on_event(&StreamEvent::Frame("{}".to_string())), StreamAction::Forward(_)));
    assert!(matches!(
        on_event(&StreamEvent::Frame("oops".to_string())),
        StreamAction::Stop(Some(RisError::Decode))
    ));
    assert!(matches!(on_event(&StreamEvent::ReadError), StreamAction::Stop(Some(RisError::Transport))));
    assert!(matches!(on_event(&StreamEvent::Closed), StreamAction::Stop(None)));
}

#[test]
fn delivery_decides_whether_the_loop_goes_on() {
    assert!(matches!(on_delivery(true), StreamAction::Continue));
    assert!(matches!(on_delivery(false), StreamAction::Stop(Some(RisError::QueueClosed))));
}

#[test]
fn a_read_error_ends_the_stream() {
    let events = vec![
        StreamEvent::Frame("{\"data\":{\"id\":\"a\"}}".to_string()),
        StreamEvent::ReadError,
        StreamEvent::Frame("{\"data\":{\"id\":\"b\"}}".to_string()),
    ];
    let (seen, cause) = run(events, usize::MAX);
    assert_eq!(cause, Some(RisError::Transport));
    assert_eq!(seen.len(), 1);
}

#[test]
fn a_dropped_receiver_ends_the_stream() {
    let events = vec![
        StreamEvent::Frame("{\"data\":{\"id\":\"a\"}}".to_string()),
        StreamEvent::Frame("{\"data\":{\"id\":\"b\"}}".to_string()),
        StreamEvent::Closed,
    ];
    let (seen, cause) = run(events, 1);
    assert_eq!(cause, Some(RisError::QueueClosed));
    assert_eq!(seen.len(), 1);
    assert_eq!(seen[0].data().id(), "a");
}
