//! End-to-end runs of one connection over concrete schedules.

use framestream::capture::TickOutcome;
use framestream::connection::{run_connection, run_two_connections, ConnectionScript};
use framestream::message::Message;
use framestream::packet::FramePacket;
use framestream::supervisor::{InboundEvent, SupervisorState};

fn packet(frame: Vec<u8>, metric: u64) -> FramePacket {
    FramePacket { frame, metric }
}

fn texts_of(wire: &[Message]) -> Vec<String> {
    wire.iter()
        .filter_map(|m| match m {
            Message::Text(t) => Some(t.clone()),
            Message::Binary(_) => None,
        })
        .collect()
}

#[test]
fn four_ticks_give_four_pairs_in_order() {
    // A source stub yields frames with metrics [0, 3, 3, 0] on four ticks:
    // the client observes four binary/text pairs with texts "0", "3", "3",
    // "0" in that order.
    let script = ConnectionScript {
        source_ready: true,
        ticks: vec![
            TickOutcome::Captured(packet(vec![10], 0)),
            TickOutcome::Captured(packet(vec![20], 3)),
            TickOutcome::Captured(packet(vec![30], 3)),
            TickOutcome::Captured(packet(vec![40], 0)),
        ],
        inbound: vec![],
        fault: None,
    };
    let trace = run_connection(script);
    assert_eq!(trace.wire.len(), 8);
    assert!(trace.stream_clean);
    assert_eq!(trace.state, SupervisorState::Closed);
    let expected_frames = [vec![10u8], vec![20], vec![30], vec![40]];
    let expected_texts = ["0", "3", "3", "0"];
    for i in 0..4 {
        match &trace.wire[2 * i] {
            Message::Binary(b) => assert_eq!(b, &expected_frames[i]),
            other => panic!("expected a binary frame, got {:?}", other),
        }
        match &trace.wire[2 * i + 1] {
            Message::Text(t) => assert_eq!(t, expected_texts[i]),
            other => panic!("expected a text metric, got {:?}", other),
        }
    }
}

#[test]
fn empty_and_failed_ticks_emit_no_pair() {
    // A zero-sized image or a transient read failure on a tick contributes
    // no message pair; the following ticks still stream normally.
    let script = ConnectionScript {
        source_ready: true,
        ticks: vec![
            TickOutcome::Empty,
            TickOutcome::Captured(packet(vec![1, 2], 5)),
            TickOutcome::ReadFailed,
            TickOutcome::Captured(packet(vec![3], 7)),
            TickOutcome::Empty,
        ],
        inbound: vec![],
        fault: None,
    };
    let trace = run_connection(script);
    assert_eq!(trace.wire.len(), 4);
    assert_eq!(trace.wire[0], Message::Binary(vec![1, 2]));
    assert_eq!(trace.wire[1], Message::Text("5".to_string()));
    assert_eq!(trace.wire[2], Message::Binary(vec![3]));
    assert_eq!(trace.wire[3], Message::Text("7".to_string()));
}

#[test]
fn write_fault_cuts_the_stream_for_good() {
    // The transport refuses the write at index 3: messages 0..3 reach the
    // wire, message 3 and everything later never does.
    let script = ConnectionScript {
        source_ready: true,
        ticks: vec![
            TickOutcome::Captured(packet(vec![1], 1)),
            TickOutcome::Captured(packet(vec![2], 2)),
            TickOutcome::Captured(packet(vec![3], 3)),
        ],
        inbound: vec![InboundEvent::Text("ping".to_string())],
        fault: Some(3),
    };
    let trace = run_connection(script);
    assert_eq!(trace.wire.len(), 3);
    assert!(!trace.stream_clean);
    assert_eq!(trace.wire[0], Message::Binary(vec![1]));
    assert_eq!(trace.wire[1], Message::Text("1".to_string()));
    assert_eq!(trace.wire[2], Message::Binary(vec![2]));
    assert_eq!(trace.state, SupervisorState::Closed);
}

#[test]
fn ping_gets_exactly_one_ack() {
    // A client text message "ping" is answered with exactly one fixed
    // acknowledgement, and never in the middle of a frame pair.
    let script = ConnectionScript {
        source_ready: true,
        ticks: vec![TickOutcome::Captured(packet(vec![9, 9], 2))],
        inbound: vec![InboundEvent::Text("ping".to_string())],
        fault: None,
    };
    let trace = run_connection(script);
    assert_eq!(trace.wire.len(), 3);
    assert_eq!(trace.wire[0], Message::Binary(vec![9, 9]));
    assert_eq!(trace.wire[1], Message::Text("2".to_string()));
    assert_eq!(trace.wire[2], Message::Text("ack".to_string()));
    assert_eq!(texts_of(&trace.wire).len(), 2);
}

#[test]
fn non_text_inbound_is_ignored() {
    let script = ConnectionScript {
        source_ready: true,
        ticks: vec![],
        inbound: vec![
            InboundEvent::Other,
            InboundEvent::Text("hello".to_string()),
            InboundEvent::Other,
        ],
        fault: None,
    };
    let trace = run_connection(script);
    assert_eq!(trace.wire, vec![Message::Text("ack".to_string())]);
}

#[test]
fn inbound_end_stops_the_acks() {
    // Once the inbound stream ends, later events are never seen and no
    // further acknowledgement is sent.
    let script = ConnectionScript {
        source_ready: true,
        ticks: vec![],
        inbound: vec![
            InboundEvent::Text("a".to_string()),
            InboundEvent::Ended,
            InboundEvent::Text("b".to_string()),
        ],
        fault: None,
    };
    let trace = run_connection(script);
    assert_eq!(trace.wire, vec![Message::Text("ack".to_string())]);
    assert_eq!(trace.state, SupervisorState::Closed);
}

#[test]
fn unavailable_source_streams_nothing_but_still_answers() {
    // When the source cannot be opened, no frame is ever produced; the
    // connection idles and still answers inbound text.
    let script = ConnectionScript {
        source_ready: false,
        ticks: vec![TickOutcome::Captured(packet(vec![1], 1))],
        inbound: vec![InboundEvent::Text("anyone there".to_string())],
        fault: None,
    };
    let trace = run_connection(script);
    assert_eq!(trace.wire, vec![Message::Text("ack".to_string())]);
}

#[test]
fn two_connections_are_independent() {
    // A write fault on connection A leaves connection B's stream whole and
    // ordered.
    let a = ConnectionScript {
        source_ready: true,
        ticks: vec![
            TickOutcome::Captured(packet(vec![1], 1)),
            TickOutcome::Captured(packet(vec![2], 2)),
        ],
        inbound: vec![],
        fault: Some(1),
    };
    let b = ConnectionScript {
        source_ready: true,
        ticks: vec![
            TickOutcome::Captured(packet(vec![7], 4)),
            TickOutcome::Captured(packet(vec![8], 6)),
        ],
        inbound: vec![],
        fault: None,
    };
    let (ta, tb) = run_two_connections(a, b);
    assert_eq!(ta.wire.len(), 1);
    assert_eq!(tb.wire.len(), 4);
    assert_eq!(tb.wire[0], Message::Binary(vec![7]));
    assert_eq!(tb.wire[1], Message::Text("4".to_string()));
    assert_eq!(tb.wire[2], Message::Binary(vec![8]));
    assert_eq!(tb.wire[3], Message::Text("6".to_string()));
}
