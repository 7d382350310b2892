use vstd::prelude::*;

use crate::hub::RecvOutcome;
use crate::message::ChatMessage;

verus! {

/// A batch is written out as soon as it holds this many messages.
pub const BATCH_SIZE: usize = 100;

/// A non-empty batch is written out once this many microseconds have passed
/// since the last write.
pub const BATCH_TIMEOUT_MICROS: u64 = 1000;

/// Time passed from `since` to `now`; a clock reading that goes backwards counts as none.
pub open spec fn elapsed(now: u64, since: u64) -> u64 {
    if now >= since {
        (now - since) as u64
    } else {
        0
    }
}

/// A batch of `len` messages is due `waited` microseconds after the last write.
pub open spec fn flush_due(len: nat, waited: u64) -> bool {
    len >= BATCH_SIZE || (len > 0 && waited >= BATCH_TIMEOUT_MICROS)
}

/// What the send side of a connection observes.
pub enum SendEvent {
    /// The hub handed over a message for this connection.
    Delivered(ChatMessage),
    /// The subscription fell behind and this many messages were dropped.
    Lagged(u64),
    /// The hub is closed.
    Closed,
    /// The batch timer fired.
    Tick,
}

/// What the send side does next.
pub enum SendAction {
    /// Keep waiting for the next event.
    Wait,
    /// Write the pending batch with `take_batch`, then keep waiting.
    Flush,
    /// End the send side.
    Stop,
}

/// The action for an event, given how many messages are pending once the
/// event is applied and how long it has been since the last write.
pub open spec fn action_for(ev: SendEvent, pending: nat, waited: u64) -> SendAction {
    match ev {
        SendEvent::Closed => SendAction::Stop,
        _ => if flush_due(pending, waited) {
            SendAction::Flush
        } else {
            SendAction::Wait
        },
    }
}

/// The send-side event for what the hub handed out; `None` when nothing
/// was waiting. A subscription that is gone ends the send side as a closed
/// hub does.
pub open spec fn event_of(o: RecvOutcome) -> Option<SendEvent> {
    match o {
        RecvOutcome::Message(m) => Some(SendEvent::Delivered(m)),
        RecvOutcome::Lagged(n) => Some(SendEvent::Lagged(n)),
        RecvOutcome::Empty => None,
        RecvOutcome::Closed => Some(SendEvent::Closed),
        RecvOutcome::NotSubscribed => Some(SendEvent::Closed),
    }
}

/// Turns a receive outcome of the hub into a send-side event.
pub fn event_for(o: RecvOutcome) -> (r: Option<SendEvent>)
    ensures
        r == event_of(o),
{
    match o {
        RecvOutcome::Message(m) => Some(SendEvent::Delivered(m)),
        RecvOutcome::Lagged(n) => Some(SendEvent::Lagged(n)),
        RecvOutcome::Empty => None,
        RecvOutcome::Closed => Some(SendEvent::Closed),
        RecvOutcome::NotSubscribed => Some(SendEvent::Closed),
    }
}

/// The pending batch of one connection and the time of its last write.
pub struct SendBatcher {
    pub batch: Vec<ChatMessage>,
    pub last_flush: u64,
}

impl SendBatcher {
    /// An empty batch, last written at `now`.
    pub fn new(now: u64) -> (r: SendBatcher)
        ensures
            r.batch@ == Seq::<ChatMessage>::empty(),
            r.last_flush == now,
    {
        SendBatcher { batch: Vec::with_capacity(BATCH_SIZE), last_flush: now }
    }

    /// The number of messages waiting to be written.
    pub fn pending(&self) -> (r: usize)
        ensures
            r == self.batch@.len(),
    {
        self.batch.len()
    }

    /// Applies `ev` at time `now` and says what to do next. A delivered
    /// message joins the end of the batch; lag adds nothing, but a batch
    /// that is due is still flushed, so a stream of lag cannot hold it back.
    pub fn step(&mut self, ev: SendEvent, now: u64) -> (r: SendAction)
        ensures
            final(self).last_flush == old(self).last_flush,
            final(self).batch@ == match ev {
                SendEvent::Delivered(m) => old(self).batch@.push(m),
                _ => old(self).batch@,
            },
            r == action_for(ev, final(self).batch@.len(), elapsed(now, old(self).last_flush)),
    {
        let waited = if now >= self.last_flush {
            now - self.last_flush
        } else {
            0
        };
        match ev {
            SendEvent::Closed => SendAction::Stop,
            SendEvent::Lagged(_) => self.due(waited),
            SendEvent::Delivered(m) => {
                self.batch.push(m);
                self.due(waited)
            },
            SendEvent::Tick => self.due(waited),
        }
    }

    fn due(&self, waited: u64) -> (r: SendAction)
        ensures
            r == (if flush_due(self.batch@.len(), waited) {
                SendAction::Flush
            } else {
                SendAction::Wait
            }),
    {
        let len = self.batch.len();
        if len >= BATCH_SIZE || (len > 0 && waited >= BATCH_TIMEOUT_MICROS) {
            SendAction::Flush
        } else {
            SendAction::Wait
        }
    }

    /// Hands over the pending messages in arrival order and starts a new,
    /// empty batch, last written at `now`.
    pub fn take_batch(&mut self, now: u64) -> (r: Vec<ChatMessage>)
        ensures
            r@ == old(self).batch@,
            final(self).batch@ == Seq::<ChatMessage>::empty(),
            final(self).last_flush == now,
    {
        let mut fresh: Vec<ChatMessage> = Vec::with_capacity(BATCH_SIZE);
        std::mem::swap(&mut self.batch, &mut fresh);
        self.last_flush = now;
        fresh
    }
}

/// A batch that is flushed whenever it is due never holds more than
/// `BATCH_SIZE` messages: a delivery to a batch below that size either makes
/// the batch due or leaves it below that size.
pub proof fn lemma_burst_flushes_every_batch_size(m: ChatMessage, pending: nat, waited: u64)
    requires
        pending < BATCH_SIZE,
    ensures
        action_for(SendEvent::Delivered(m), pending + 1, waited) == SendAction::Flush || pending
            + 1 < BATCH_SIZE,
        pending + 1 == BATCH_SIZE ==> action_for(SendEvent::Delivered(m), pending + 1, waited)
            == SendAction::Flush,
{
}

/// The pending count and the number of flushes after `k` deliveries in a
/// row, starting from `pending` messages, each less than the timeout after
/// the last write, with the batch written whenever the step asks for it.
pub open spec fn burst(m: ChatMessage, pending: nat, k: nat, waited: u64) -> (nat, nat)
    decreases k,
{
    if k == 0 {
        (pending, 0)
    } else {
        let (q, f) = burst(m, pending, (k - 1) as nat, waited);
        if action_for(SendEvent::Delivered(m), q + 1, waited) is Flush {
            (0, f + 1)
        } else {
            (q + 1, f)
        }
    }
}

/// A burst of `k` messages with no gap reaching the timeout, starting from
/// an empty batch, is written in exactly `k / BATCH_SIZE` full batches, and
/// never more than `BATCH_SIZE` messages wait.
pub proof fn lemma_burst_flush_count(m: ChatMessage, k: nat, waited: u64)
    requires
        waited < BATCH_TIMEOUT_MICROS,
    ensures
        burst(m, 0, k, waited) == (k % (BATCH_SIZE as nat), k / (BATCH_SIZE as nat)),
        burst(m, 0, k, waited).0 < BATCH_SIZE,
    decreases k,
{
    if k > 0 {
        lemma_burst_flush_count(m, (k - 1) as nat, waited);
    }
}

/// A lone pending message is written at the first timer tick once the
/// timeout has passed since the last write, however long no other message came.
pub proof fn lemma_pending_message_flushes_after_timeout(pending: nat, waited: u64)
    requires
        pending > 0,
        waited >= BATCH_TIMEOUT_MICROS,
    ensures
        action_for(SendEvent::Tick, pending, waited) == SendAction::Flush,
{
}

} // verus!
