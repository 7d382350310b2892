use rust_chat::hub::{BroadcastHub, RecvOutcome, SUBSCRIBER_CAPACITY};
use rust_chat::lifecycle::{next_state, ConnAction, ConnEvent, ConnState};
use rust_chat::message::{new_message_id, ChatMessage, MESSAGE_ID_LEN};
use rust_chat::metrics::ConnectionMetrics;
use rust_chat::receive::{receive, receive_with_id, Inbound, ReceiveAction};
use rust_chat::send::{event_for, SendAction, SendBatcher, SendEvent, BATCH_SIZE, BATCH_TIMEOUT_MICROS};
use rust_chat::server::ChatServer;

fn msg(content: &str) -> ChatMessage {
    ChatMessage::new(
        "client-id".to_string(),
        content.to_string(),
        7,
        "alice".to_string(),
    )
}

fn recv_content(hub: &mut BroadcastHub, id: u64) -> Option<String> {
    match hub.recv(id) {
        RecvOutcome::Message(m) => Some(m.content),
        _ => None,
    }
}

#[test]
fn metrics_start_at_zero_and_count() {
    let mut m = ConnectionMetrics::new();
    assert_eq!(m.connections, 0);
    m.record_text_received(12);
    m.record_bytes_received(5);
    m.record_sent(30);
    m.record_error();
    m.connection_opened();
    m.connection_opened();
    m.connection_closed();
    assert_eq!(m.messages_received, 1);
    assert_eq!(m.bytes_received, 17);
    assert_eq!(m.messages_sent, 1);
    assert_eq!(m.bytes_sent, 30);
    assert_eq!(m.errors, 1);
    assert_eq!(m.connections, 1);
}

#[test]
fn metrics_counters_hold_at_the_limits() {
    let mut m = ConnectionMetrics::new();
    m.connection_closed();
    assert_eq!(m.connections, 0);
    m.bytes_sent = u64::MAX - 1;
    m.record_sent(10);
    assert_eq!(m.bytes_sent, u64::MAX);
}

#[test]
fn fan_out_reaches_every_subscriber_once() {
    let mut hub = BroadcastHub::new(8);
    let ids: Vec<u64> = (0..5).map(|_| hub.subscribe().unwrap()).collect();
    assert_eq!(hub.publish(msg("hello")), 5);
    for &id in &ids {
        assert_eq!(recv_content(&mut hub, id), Some("hello".to_string()));
        assert!(matches!(hub.recv(id), RecvOutcome::Empty));
    }
}

#[test]
fn subscriber_sees_only_messages_after_it_joined() {
    let mut hub = BroadcastHub::new(8);
    let a = hub.subscribe().unwrap();
    hub.publish(msg("early"));
    let b = hub.subscribe().unwrap();
    hub.publish(msg("late"));
    assert_eq!(recv_content(&mut hub, a), Some("early".to_string()));
    assert_eq!(recv_content(&mut hub, a), Some("late".to_string()));
    assert_eq!(recv_content(&mut hub, b), Some("late".to_string()));
    assert!(matches!(hub.recv(b), RecvOutcome::Empty));
}

#[test]
fn slow_subscriber_loses_oldest_and_others_do_not() {
    let mut hub = BroadcastHub::new(3);
    let slow = hub.subscribe().unwrap();
    let fast = hub.subscribe().unwrap();
    for i in 0..5 {
        hub.publish(msg(&format!("m{}", i)));
        assert_eq!(recv_content(&mut hub, fast), Some(format!("m{}", i)));
    }
    assert!(matches!(hub.recv(slow), RecvOutcome::Lagged(2)));
    assert_eq!(recv_content(&mut hub, slow), Some("m2".to_string()));
    assert_eq!(recv_content(&mut hub, slow), Some("m3".to_string()));
    assert_eq!(recv_content(&mut hub, slow), Some("m4".to_string()));
    assert!(matches!(hub.recv(slow), RecvOutcome::Empty));
}

#[test]
fn publish_with_no_subscribers_returns_at_once() {
    let mut hub = BroadcastHub::new(1);
    assert_eq!(hub.publish(msg("nobody")), 0);
    assert_eq!(hub.subscriber_count(), 0);
}

#[test]
fn closed_hub_signals_closed_after_draining() {
    let mut hub = BroadcastHub::new(4);
    let a = hub.subscribe().unwrap();
    hub.publish(msg("last"));
    hub.close();
    assert_eq!(hub.publish(msg("dropped")), 0);
    assert_eq!(recv_content(&mut hub, a), Some("last".to_string()));
    assert!(matches!(hub.recv(a), RecvOutcome::Closed));
}

#[test]
fn unsubscribe_releases_the_queue() {
    let mut hub = BroadcastHub::new(4);
    let a = hub.subscribe().unwrap();
    let b = hub.subscribe().unwrap();
    assert_ne!(a, b);
    hub.publish(msg("x"));
    assert!(hub.unsubscribe(a));
    assert!(!hub.unsubscribe(a));
    assert!(matches!(hub.recv(a), RecvOutcome::NotSubscribed));
    assert_eq!(hub.subscriber_count(), 1);
    assert_eq!(recv_content(&mut hub, b), Some("x".to_string()));
}

#[test]
fn full_batch_is_flushed() {
    let mut b = SendBatcher::new(0);
    for i in 0..BATCH_SIZE - 1 {
        let a = b.step(SendEvent::Delivered(msg(&format!("{}", i))), 0);
        assert!(matches!(a, SendAction::Wait));
    }
    let a = b.step(SendEvent::Delivered(msg("last")), 0);
    assert!(matches!(a, SendAction::Flush));
    let batch = b.take_batch(5);
    assert_eq!(batch.len(), 100);
    assert_eq!(batch[0].content, "0");
    assert_eq!(batch[99].content, "last");
    assert_eq!(b.pending(), 0);
    assert_eq!(b.last_flush, 5);
}

#[test]
fn lone_message_is_flushed_after_timeout() {
    let mut b = SendBatcher::new(1_000);
    assert!(matches!(b.step(SendEvent::Delivered(msg("one")), 1_500), SendAction::Wait));
    assert!(matches!(b.step(SendEvent::Tick, 1_999), SendAction::Wait));
    assert!(matches!(
        b.step(SendEvent::Tick, 1_000 + BATCH_TIMEOUT_MICROS),
        SendAction::Flush
    ));
}

#[test]
fn empty_batch_is_never_flushed_and_lag_is_passed_over() {
    let mut b = SendBatcher::new(0);
    assert!(matches!(b.step(SendEvent::Tick, 1_000_000), SendAction::Wait));
    assert!(matches!(b.step(SendEvent::Lagged(3), 1_000_000), SendAction::Wait));
    assert_eq!(b.pending(), 0);
    assert!(matches!(b.step(SendEvent::Closed, 0), SendAction::Stop));
}

#[test]
fn late_delivery_flushes_at_once() {
    let mut b = SendBatcher::new(0);
    assert!(matches!(
        b.step(SendEvent::Delivered(msg("late")), BATCH_TIMEOUT_MICROS),
        SendAction::Flush
    ));
}

#[test]
fn lifecycle_runs_forward() {
    let (s, a) = next_state(ConnState::Connecting, ConnEvent::HandshakeSucceeded);
    assert!(matches!(s, ConnState::Active) && matches!(a, ConnAction::Register));
    let (s, a) = next_state(s, ConnEvent::PipelineFinished);
    assert!(matches!(s, ConnState::Closing) && matches!(a, ConnAction::TearDown));
    let (s, a) = next_state(s, ConnEvent::TornDown);
    assert!(matches!(s, ConnState::Closed) && matches!(a, ConnAction::Ignore));
    let (s, a) = next_state(s, ConnEvent::HandshakeSucceeded);
    assert!(matches!(s, ConnState::Closed) && matches!(a, ConnAction::Ignore));
}

#[test]
fn failed_handshake_goes_straight_to_closed() {
    let (s, a) = next_state(ConnState::Connecting, ConnEvent::HandshakeTimedOut);
    assert!(matches!(s, ConnState::Closed) && matches!(a, ConnAction::RecordError));
    let (s, a) = next_state(ConnState::Connecting, ConnEvent::HandshakeFailed);
    assert!(matches!(s, ConnState::Closed) && matches!(a, ConnAction::RecordError));
}

#[test]
fn message_ids_are_hyphenated_uuids() {
    let a = new_message_id();
    let b = new_message_id();
    assert_eq!(a.len(), MESSAGE_ID_LEN);
    assert_eq!(a.matches('-').count(), 4);
    assert_ne!(a, b);
}

#[test]
fn restamp_replaces_id_and_time_only() {
    let m = msg("body").restamp("server".to_string(), 99);
    assert_eq!(m.id, "server");
    assert_eq!(m.timestamp, 99);
    assert_eq!(m.content, "body");
    assert_eq!(m.user, "alice");
    let d = m.duplicate();
    assert_eq!(d.id, m.id);
    assert_eq!(d.content, m.content);
}

#[test]
fn decoded_text_is_restamped_and_published() {
    let mut m = ConnectionMetrics::new();
    let frame = Inbound::Text { len: 40, decoded: Some(msg("hi")) };
    match receive(&mut m, frame, 123) {
        ReceiveAction::Publish(p) => {
            assert_ne!(p.id, "client-id");
            assert_eq!(p.id.len(), MESSAGE_ID_LEN);
            assert_eq!(p.timestamp, 123);
            assert_eq!(p.content, "hi");
            assert_eq!(p.user, "alice");
        }
        _ => panic!("expected a message to publish"),
    }
    assert_eq!(m.messages_received, 1);
    assert_eq!(m.bytes_received, 40);
}

#[test]
fn malformed_text_is_dropped_and_connection_stays() {
    let mut m = ConnectionMetrics::new();
    let frame = Inbound::Text { len: 9, decoded: None };
    assert!(matches!(
        receive_with_id(&mut m, frame, "x".to_string(), 1),
        ReceiveAction::Continue
    ));
    assert_eq!(m.messages_received, 0);
    assert_eq!(m.bytes_received, 9);
    assert_eq!(m.errors, 0);
}

#[test]
fn control_frames_count_bytes_only() {
    let mut m = ConnectionMetrics::new();
    for f in [Inbound::Binary(3), Inbound::Ping(4), Inbound::Pong(5)] {
        assert!(matches!(receive(&mut m, f, 0), ReceiveAction::Continue));
    }
    assert_eq!(m.bytes_received, 12);
    assert_eq!(m.messages_received, 0);
    assert!(matches!(receive(&mut m, Inbound::Close, 0), ReceiveAction::Stop));
    assert_eq!(m.errors, 0);
    assert!(matches!(receive(&mut m, Inbound::Error, 0), ReceiveAction::Stop));
    assert_eq!(m.errors, 1);
}

#[test]
fn ten_connect_three_disconnect_leaves_seven() {
    let mut s = ChatServer::new();
    let ids: Vec<u64> = (0..10).map(|_| s.connect().unwrap()).collect();
    assert_eq!(s.metrics.connections, 10);
    for id in &ids[..3] {
        assert!(s.disconnect(*id));
    }
    assert_eq!(s.metrics.connections, 7);
    assert_eq!(s.get_stats().0, 7);
    assert!(!s.disconnect(ids[0]));
    assert_eq!(s.metrics.connections, 7);
}

#[test]
fn server_relays_between_connections() {
    let mut s = ChatServer::new();
    assert_eq!(s.hub.capacity, SUBSCRIBER_CAPACITY);
    let a = s.connect().unwrap();
    let b = s.connect().unwrap();
    let bad = Inbound::Text { len: 3, decoded: None };
    assert!(s.handle_inbound(bad, 10));
    assert!(matches!(s.hub.recv(b), RecvOutcome::Empty));
    let good = Inbound::Text { len: 50, decoded: Some(msg("yo")) };
    assert!(s.handle_inbound(good, 11));
    for id in [a, b] {
        match s.hub.recv(id) {
            RecvOutcome::Message(m) => {
                assert_eq!(m.content, "yo");
                assert_eq!(m.timestamp, 11);
                assert_ne!(m.id, "client-id");
            }
            _ => panic!("expected the relayed message"),
        }
    }
    assert!(!s.handle_inbound(Inbound::Close, 12));
    assert_eq!(s.get_stats(), (2, 0, 1, 0));
    assert_eq!(s.metrics.bytes_received, 53);
    s.handshake_failed();
    assert_eq!(s.get_stats().3, 1);
    assert_eq!(s.broadcast_message(msg("direct")), 2);
}

#[test]
fn hub_outcomes_become_send_events() {
    assert!(matches!(event_for(RecvOutcome::Message(msg("a"))), Some(SendEvent::Delivered(_))));
    assert!(matches!(event_for(RecvOutcome::Lagged(4)), Some(SendEvent::Lagged(4))));
    assert!(event_for(RecvOutcome::Empty).is_none());
    assert!(matches!(event_for(RecvOutcome::Closed), Some(SendEvent::Closed)));
    assert!(matches!(event_for(RecvOutcome::NotSubscribed), Some(SendEvent::Closed)));
}

#[test]
fn lag_does_not_hold_back_a_due_batch() {
    let mut b = SendBatcher::new(0);
    assert!(matches!(b.step(SendEvent::Delivered(msg("one")), 10), SendAction::Wait));
    assert!(matches!(b.step(SendEvent::Lagged(1), 20), SendAction::Wait));
    assert!(matches!(b.step(SendEvent::Lagged(1), BATCH_TIMEOUT_MICROS), SendAction::Flush));
}

#[test]
fn burst_of_250_flushes_twice_and_leaves_50() {
    let mut b = SendBatcher::new(0);
    let mut flushes = 0;
    for i in 0..250 {
        if let SendAction::Flush = b.step(SendEvent::Delivered(msg(&format!("{}", i))), 0) {
            assert_eq!(b.take_batch(0).len(), BATCH_SIZE);
            flushes += 1;
        }
    }
    assert_eq!(flushes, 2);
    assert_eq!(b.pending(), 50);
}

#[test]
fn fresh_server_hands_out_identifiers_from_zero() {
    let mut s = ChatServer::new();
    assert_eq!(s.hub.next_id, 0);
    assert_eq!(s.connect(), Some(0));
}
