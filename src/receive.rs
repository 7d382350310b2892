use vstd::prelude::*;

use crate::message::{ChatMessage, MESSAGE_ID_LEN};
use crate::metrics::{sat_add, ConnectionMetrics};

verus! {

/// One item read from a connection's transport. A text frame carries its
/// length in bytes and, when its payload decoded as a message, that message.
pub enum Inbound {
    Text { len: u64, decoded: Option<ChatMessage> },
    Binary(u64),
    Ping(u64),
    Pong(u64),
    Close,
    Error,
}

/// What the receive side does with an inbound item.
pub enum ReceiveAction {
    /// Publish this message to the hub and keep reading.
    Publish(ChatMessage),
    /// Keep reading.
    Continue,
    /// End the receive side.
    Stop,
}

/// The action for `frame`, when a decoded message is stamped with `id` at `now_ms`.
pub open spec fn receive_action(frame: Inbound, id: String, now_ms: u64) -> ReceiveAction {
    match frame {
        Inbound::Text { len: _, decoded: Some(m) } => ReceiveAction::Publish(
            ChatMessage { id, content: m.content, timestamp: now_ms, user: m.user },
        ),
        Inbound::Close => ReceiveAction::Stop,
        Inbound::Error => ReceiveAction::Stop,
        _ => ReceiveAction::Continue,
    }
}

/// The counters after `frame` is read.
pub open spec fn metrics_after(m: ConnectionMetrics, frame: Inbound) -> ConnectionMetrics {
    match frame {
        Inbound::Text { len, decoded: Some(_) } => ConnectionMetrics {
            messages_received: sat_add(m.messages_received, 1),
            bytes_received: sat_add(m.bytes_received, len),
            ..m
        },
        Inbound::Text { len, decoded: None } => ConnectionMetrics {
            bytes_received: sat_add(m.bytes_received, len),
            ..m
        },
        Inbound::Binary(len) => ConnectionMetrics { bytes_received: sat_add(m.bytes_received, len), ..m },
        Inbound::Ping(len) => ConnectionMetrics { bytes_received: sat_add(m.bytes_received, len), ..m },
        Inbound::Pong(len) => ConnectionMetrics { bytes_received: sat_add(m.bytes_received, len), ..m },
        Inbound::Close => m,
        Inbound::Error => ConnectionMetrics { errors: sat_add(m.errors, 1), ..m },
    }
}

/// Counts `frame` and decides what to do with it, stamping a decoded
/// message with `id` and `now_ms` in place of what the client sent. A text
/// frame that did not decode moves only the byte count and is otherwise
/// dropped; the connection stays open.
pub fn receive_with_id(metrics: &mut ConnectionMetrics, frame: Inbound, id: String, now_ms: u64) -> (r: ReceiveAction)
    ensures
        *final(metrics) == metrics_after(*old(metrics), frame),
        r == receive_action(frame, id, now_ms),
{
    match frame {
        Inbound::Text { len, decoded } => match decoded {
            Some(m) => {
                metrics.record_text_received(len);
                ReceiveAction::Publish(m.restamp(id, now_ms))
            },
            None => {
                metrics.record_bytes_received(len);
                ReceiveAction::Continue
            },
        },
        Inbound::Binary(len) => {
            metrics.record_bytes_received(len);
            ReceiveAction::Continue
        },
        Inbound::Ping(len) => {
            metrics.record_bytes_received(len);
            ReceiveAction::Continue
        },
        Inbound::Pong(len) => {
            metrics.record_bytes_received(len);
            ReceiveAction::Continue
        },
        Inbound::Close => ReceiveAction::Stop,
        Inbound::Error => {
            metrics.record_error();
            ReceiveAction::Stop
        },
    }
}

/// As `receive_with_id`, with a freshly generated identifier for a decoded message.
pub fn receive(metrics: &mut ConnectionMetrics, frame: Inbound, now_ms: u64) -> (r: ReceiveAction)
    ensures
        *final(metrics) == metrics_after(*old(metrics), frame),
        exists|id: String|
            r == receive_action(frame, id, now_ms) && (r is Publish ==> id@.len()
                == MESSAGE_ID_LEN),
{
    let id = match &frame {
        Inbound::Text { len: _, decoded: Some(_) } => crate::message::new_message_id(),
        _ => String::new(),
    };
    let ghost g = id;
    let r = receive_with_id(metrics, frame, id, now_ms);
    assert(r == receive_action(frame, g, now_ms) && (r is Publish ==> g@.len() == MESSAGE_ID_LEN));
    r
}

/// A text frame that did not decode publishes nothing and keeps the
/// connection open; only the received byte count moves.
pub proof fn lemma_malformed_input_isolated(len: u64, id: String, now_ms: u64, m: ConnectionMetrics)
    ensures
        receive_action(Inbound::Text { len, decoded: None }, id, now_ms) is Continue,
        metrics_after(m, Inbound::Text { len, decoded: None }) == (ConnectionMetrics {
            bytes_received: sat_add(m.bytes_received, len),
            ..m
        }),
{
}

/// A published message carries the server's identifier and time, whatever
/// identifier and time the client put in it; its content and sender are the
/// client's.
pub proof fn lemma_server_assigns_id_and_time(len: u64, m: ChatMessage, id: String, now_ms: u64)
    ensures
        receive_action(Inbound::Text { len, decoded: Some(m) }, id, now_ms) is Publish,
        receive_action(Inbound::Text { len, decoded: Some(m) }, id, now_ms)->Publish_0 == (
        ChatMessage { id, content: m.content, timestamp: now_ms, user: m.user }),
{
}

} // verus!
