use vstd::prelude::*;

use crate::hub::{
    has_sub, publish_model, subscribe_model, unsubscribe_model, BroadcastHub, SubModel,
    SUBSCRIBER_CAPACITY,
};
use crate::message::ChatMessage;
use crate::metrics::{sat_add, sat_dec, ConnectionMetrics};
use crate::receive::{metrics_after, receive, receive_action, Inbound, ReceiveAction};

verus! {

/// The relay: the hub with its registry of connections, and the counters.
pub struct ChatServer {
    pub hub: BroadcastHub,
    pub metrics: ConnectionMetrics,
}

impl ChatServer {
    pub open spec fn wf(&self) -> bool {
        self.hub.wf()
    }

    /// No connections, no counts, and subscriptions of `SUBSCRIBER_CAPACITY` messages.
    pub fn new() -> (r: ChatServer)
        ensures
            r.wf(),
            r.hub@ == Seq::<SubModel>::empty(),
            r.hub.capacity == SUBSCRIBER_CAPACITY,
            r.hub.next_id == 0,
            !r.hub.closed,
            r.metrics == ConnectionMetrics::new_spec(),
    {
        ChatServer { hub: BroadcastHub::new(SUBSCRIBER_CAPACITY), metrics: ConnectionMetrics::new() }
    }

    /// A handshake failed or timed out: only the error count moves.
    pub fn handshake_failed(&mut self)
        requires
            old(self).wf(),
        ensures
            final(self).wf(),
            final(self).hub == old(self).hub,
            final(self).metrics == (ConnectionMetrics {
                errors: sat_add(old(self).metrics.errors, 1),
                ..old(self).metrics
            }),
    {
        self.metrics.record_error();
    }

    /// Registers a connection that completed its handshake: it gets an
    /// empty subscription and counts as active. `None`, with nothing changed,
    /// once every identifier has been handed out.
    pub fn connect(&mut self) -> (r: Option<u64>)
        requires
            old(self).wf(),
        ensures
            final(self).wf(),
            final(self).hub.capacity == old(self).hub.capacity,
            final(self).hub.closed == old(self).hub.closed,
            match r {
                Some(id) => !has_sub(old(self).hub@, id) && final(self).hub@ == subscribe_model(
                    old(self).hub@,
                    id,
                ) && final(self).metrics == (ConnectionMetrics {
                    connections: sat_add(old(self).metrics.connections, 1),
                    ..old(self).metrics
                }),
                None => old(self).hub.next_id == u64::MAX && final(self).hub@ == old(self).hub@
                    && final(self).metrics == old(self).metrics,
            },
    {
        let r = self.hub.subscribe();
        if r.is_some() {
            self.metrics.connection_opened();
        }
        r
    }

    /// Cleans up connection `id`: its subscription and buffered messages go
    /// and it no longer counts as active. Says whether it was registered;
    /// if not, nothing changes.
    pub fn disconnect(&mut self, id: u64) -> (r: bool)
        requires
            old(self).wf(),
        ensures
            final(self).wf(),
            final(self).hub.capacity == old(self).hub.capacity,
            final(self).hub.closed == old(self).hub.closed,
            r == has_sub(old(self).hub@, id),
            final(self).hub@ == unsubscribe_model(old(self).hub@, id),
            final(self).metrics == (if r {
                ConnectionMetrics { connections: sat_dec(old(self).metrics.connections), ..old(self).metrics }
            } else {
                old(self).metrics
            }),
    {
        let r = self.hub.unsubscribe(id);
        if r {
            self.metrics.connection_closed();
        }
        r
    }

    /// Publishes `message` to every connection as it stands, without
    /// restamping it; returns how many subscriptions it was offered to.
    pub fn broadcast_message(&mut self, message: ChatMessage) -> (r: usize)
        requires
            old(self).wf(),
        ensures
            final(self).wf(),
            final(self).metrics == old(self).metrics,
            final(self).hub.capacity == old(self).hub.capacity,
            final(self).hub.closed == old(self).hub.closed,
            old(self).hub.closed ==> r == 0 && final(self).hub@ == old(self).hub@,
            !old(self).hub.closed ==> r == old(self).hub@.len() && final(self).hub@
                == publish_model(old(self).hub@, message, old(self).hub.capacity as nat),
    {
        self.hub.publish(message)
    }

    /// Handles one item read from a connection at `now_ms`: counts it, and
    /// when it is a text frame that decoded, stamps it with a new identifier
    /// and the time and publishes it. Returns whether to keep reading.
    pub fn handle_inbound(&mut self, frame: Inbound, now_ms: u64) -> (r: bool)
        requires
            old(self).wf(),
        ensures
            final(self).wf(),
            final(self).metrics == metrics_after(old(self).metrics, frame),
            final(self).hub.capacity == old(self).hub.capacity,
            final(self).hub.closed == old(self).hub.closed,
            r == !(frame is Close || frame is Error),
            exists|id: String|
                match #[trigger] receive_action(frame, id, now_ms) {
                    ReceiveAction::Publish(m) => id@.len() == crate::message::MESSAGE_ID_LEN
                        && final(self).hub@ == (if old(self).hub.closed {
                        old(self).hub@
                    } else {
                        publish_model(old(self).hub@, m, old(self).hub.capacity as nat)
                    }),
                    _ => final(self).hub@ == old(self).hub@,
                },
    {
        let action = receive(&mut self.metrics, frame, now_ms);
        let ghost a = action;
        let ghost id = choose|id: String|
            a == receive_action(frame, id, now_ms) && (a is Publish ==> id@.len()
                == crate::message::MESSAGE_ID_LEN);
        match action {
            ReceiveAction::Publish(m) => {
                self.hub.publish(m);
                true
            },
            ReceiveAction::Continue => true,
            ReceiveAction::Stop => false,
        }
    }

    /// The number of registered connections, messages sent, messages
    /// received and errors.
    pub fn get_stats(&self) -> (r: (usize, u64, u64, u64))
        ensures
            r == (
                self.hub@.len() as usize,
                self.metrics.messages_sent,
                self.metrics.messages_received,
                self.metrics.errors,
            ),
    {
        (
            self.hub.subscriber_count(),
            self.metrics.messages_sent,
            self.metrics.messages_received,
            self.metrics.errors,
        )
    }
}

/// Connecting and then disconnecting a connection returns the registry and
/// the active-connection count to what they were before.
pub proof fn lemma_connect_disconnect_restores(subs: Seq<SubModel>, connections: u64, id: u64)
    requires
        crate::hub::ids_unique(subs),
        !has_sub(subs, id),
        connections < u64::MAX,
    ensures
        unsubscribe_model(subscribe_model(subs, id), id) == subs,
        sat_dec(sat_add(connections, 1)) == connections,
{
    crate::hub::lemma_subscribe_unsubscribe(subs, id);
}

} // verus!
