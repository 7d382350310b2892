use std::collections::VecDeque;
use vstd::prelude::*;

use crate::message::ChatMessage;
use crate::metrics::sat_add;

verus! {

/// Messages a single subscription can hold before its oldest unread one is dropped.
pub const SUBSCRIBER_CAPACITY: usize = 50000;

/// The abstract state of one subscription: its identifier, the messages
/// waiting for it in publish order, and how many it has lost since it last
/// heard of a loss.
pub ghost struct SubModel {
    pub id: u64,
    pub queue: Seq<ChatMessage>,
    pub lagged: u64,
}

/// What a subscription hands out on its next receive.
pub enum RecvOutcome {
    /// The oldest message waiting.
    Message(ChatMessage),
    /// This many messages were dropped since the last receive because the
    /// subscription fell behind; nothing is consumed.
    Lagged(u64),
    /// Nothing is waiting now.
    Empty,
    /// The hub was closed and nothing is waiting.
    Closed,
    /// No subscription has this identifier.
    NotSubscribed,
}

/// `s` after `m` is offered to it: appended, and when the queue is already
/// full the oldest message goes and the loss is counted.
pub open spec fn offer(s: SubModel, m: ChatMessage, cap: nat) -> SubModel {
    if s.queue.len() < cap {
        SubModel { id: s.id, queue: s.queue.push(m), lagged: s.lagged }
    } else {
        SubModel { id: s.id, queue: s.queue.drop_first().push(m), lagged: sat_add(s.lagged, 1) }
    }
}

/// Every subscription after `m` is published: each is offered `m` on its own.
pub open spec fn publish_model(subs: Seq<SubModel>, m: ChatMessage, cap: nat) -> Seq<SubModel> {
    Seq::new(subs.len(), |i: int| offer(subs[i], m, cap))
}

pub open spec fn has_sub(subs: Seq<SubModel>, id: u64) -> bool {
    exists|i: int| 0 <= i < subs.len() && subs[i].id == id
}

/// The position of the subscription with identifier `id`.
pub open spec fn index_of(subs: Seq<SubModel>, id: u64) -> int {
    choose|i: int| 0 <= i < subs.len() && subs[i].id == id
}

pub open spec fn ids_unique(subs: Seq<SubModel>) -> bool {
    forall|i: int, j: int|
        0 <= i < subs.len() && 0 <= j < subs.len() && i != j ==> subs[i].id != subs[j].id
}

/// The subscriptions after a new, empty one with identifier `id` joins.
pub open spec fn subscribe_model(subs: Seq<SubModel>, id: u64) -> Seq<SubModel> {
    subs.push(SubModel { id, queue: Seq::empty(), lagged: 0 })
}

/// The subscriptions after the one with identifier `id` leaves.
pub open spec fn unsubscribe_model(subs: Seq<SubModel>, id: u64) -> Seq<SubModel> {
    if has_sub(subs, id) {
        subs.remove(index_of(subs, id))
    } else {
        subs
    }
}

/// What a receive on subscription `s` hands out.
pub open spec fn recv_result(s: SubModel, closed: bool) -> RecvOutcome {
    if s.lagged > 0 {
        RecvOutcome::Lagged(s.lagged)
    } else if s.queue.len() > 0 {
        RecvOutcome::Message(s.queue[0])
    } else if closed {
        RecvOutcome::Closed
    } else {
        RecvOutcome::Empty
    }
}

/// Subscription `s` after a receive.
pub open spec fn after_recv(s: SubModel) -> SubModel {
    if s.lagged > 0 {
        SubModel { id: s.id, queue: s.queue, lagged: 0 }
    } else if s.queue.len() > 0 {
        SubModel { id: s.id, queue: s.queue.drop_first(), lagged: 0 }
    } else {
        s
    }
}

/// One subscriber's bounded queue.
pub struct Subscription {
    pub id: u64,
    pub queue: VecDeque<ChatMessage>,
    pub lagged: u64,
}

impl View for Subscription {
    type V = SubModel;

    open spec fn view(&self) -> SubModel {
        SubModel { id: self.id, queue: self.queue@, lagged: self.lagged }
    }
}

impl Subscription {
    fn offer(&mut self, m: ChatMessage, cap: usize)
        requires
            cap >= 1,
            old(self)@.queue.len() <= cap,
        ensures
            final(self)@ == offer(old(self)@, m, cap as nat),
    {
        if self.queue.len() >= cap {
            self.queue.pop_front();
            self.lagged = if self.lagged < u64::MAX { self.lagged + 1 } else { u64::MAX };
        }
        self.queue.push_back(m);
    }

    fn take(&mut self, closed: bool) -> (r: RecvOutcome)
        ensures
            r == recv_result(old(self)@, closed),
            final(self)@ == after_recv(old(self)@),
    {
        if self.lagged > 0 {
            let n = self.lagged;
            self.lagged = 0;
            RecvOutcome::Lagged(n)
        } else {
            match self.queue.pop_front() {
                Some(m) => RecvOutcome::Message(m),
                None => if closed {
                    RecvOutcome::Closed
                } else {
                    RecvOutcome::Empty
                },
            }
        }
    }
}

/// The broadcast hub and the registry of live subscriptions, one per
/// connection. Publishing offers a message to every subscription; a
/// subscription that is full loses its oldest message, and no other
/// subscription is affected.
pub struct BroadcastHub {
    pub subs: Vec<Subscription>,
    pub capacity: usize,
    pub next_id: u64,
    pub closed: bool,
}

impl View for BroadcastHub {
    type V = Seq<SubModel>;

    open spec fn view(&self) -> Seq<SubModel> {
        self.subs@.map_values(|s: Subscription| s@)
    }
}

impl BroadcastHub {
    /// Identifiers are distinct and below `next_id`, and no queue is over capacity.
    pub open spec fn wf(&self) -> bool {
        &&& self.capacity >= 1
        &&& ids_unique(self@)
        &&& forall|i: int|
            0 <= i < self@.len() ==> self@[i].id < self.next_id && self@[i].queue.len()
                <= self.capacity
    }

    /// A hub with no subscriptions whose queues hold `capacity` messages each.
    pub fn new(capacity: usize) -> (r: BroadcastHub)
        requires
            capacity >= 1,
        ensures
            r.wf(),
            r@ == Seq::<SubModel>::empty(),
            r.capacity == capacity,
            r.next_id == 0,
            !r.closed,
    {
        let r = BroadcastHub { subs: Vec::new(), capacity, next_id: 0, closed: false };
        assert(r@ =~= Seq::<SubModel>::empty());
        r
    }

    /// The number of live subscriptions.
    pub fn subscriber_count(&self) -> (r: usize)
        ensures
            r == self@.len(),
    {
        self.subs.len()
    }

    fn find(&self, id: u64) -> (r: Option<usize>)
        requires
            self.wf(),
        ensures
            match r {
                Some(i) => i < self@.len() && index_of(self@, id) == i && has_sub(self@, id),
                None => !has_sub(self@, id),
            },
    {
        let mut i: usize = 0;
        while i < self.subs.len()
            invariant
                self.wf(),
                i <= self.subs@.len(),
                forall|j: int| 0 <= j < i ==> self@[j].id != id,
            decreases self.subs@.len() - i,
        {
            if self.subs[i].id == id {
                assert(self@[i as int].id == id);
                assert(has_sub(self@, id));
                let ghost k = index_of(self@, id);
                assert(self@[k].id == id);
                assert(k == i as int);
                return Some(i);
            }
            i = i + 1;
        }
        None
    }

    /// Adds an empty subscription and returns its identifier, which no live
    /// subscription has; `None` once every identifier has been handed out.
    pub fn subscribe(&mut self) -> (r: Option<u64>)
        requires
            old(self).wf(),
        ensures
            final(self).wf(),
            final(self).capacity == old(self).capacity,
            final(self).closed == old(self).closed,
            match r {
                Some(id) => old(self).next_id < u64::MAX && id == old(self).next_id
                    && !has_sub(old(self)@, id)
                    && final(self)@ == subscribe_model(old(self)@, id),
                None => old(self).next_id == u64::MAX && final(self)@ == old(self)@,
            },
    {
        if self.next_id == u64::MAX {
            return None;
        }
        let id = self.next_id;
        let ghost v0 = self@;
        self.subs.push(Subscription { id, queue: VecDeque::new(), lagged: 0 });
        self.next_id = id + 1;
        assert(self@ =~= subscribe_model(v0, id));
        Some(id)
    }

    /// Removes the subscription with identifier `id` and its buffered
    /// messages; says whether there was one.
    pub fn unsubscribe(&mut self, id: u64) -> (r: bool)
        requires
            old(self).wf(),
        ensures
            final(self).wf(),
            final(self).capacity == old(self).capacity,
            final(self).closed == old(self).closed,
            r == has_sub(old(self)@, id),
            final(self)@ == unsubscribe_model(old(self)@, id),
    {
        match self.find(id) {
            Some(i) => {
                let ghost v0 = self@;
                self.subs.remove(i);
                assert(self@ =~= v0.remove(i as int));
                true
            },
            None => false,
        }
    }

    /// Offers `m` to every subscription and returns how many there were.
    /// Never waits: a full subscription loses its oldest message instead.
    /// After `close` nothing is offered.
    pub fn publish(&mut self, m: ChatMessage) -> (r: usize)
        requires
            old(self).wf(),
        ensures
            final(self).wf(),
            final(self).capacity == old(self).capacity,
            final(self).closed == old(self).closed,
            old(self).closed ==> r == 0 && final(self)@ == old(self)@,
            !old(self).closed ==> r == old(self)@.len() && final(self)@ == publish_model(
                old(self)@,
                m,
                old(self).capacity as nat,
            ),
    {
        if self.closed {
            return 0;
        }
        let ghost v0 = self@;
        let n = self.subs.len();
        let mut i: usize = 0;
        while i < n
            invariant
                n == v0.len(),
                self.subs@.len() == n,
                i <= n,
                self.capacity == old(self).capacity,
                self.next_id == old(self).next_id,
                self.closed == old(self).closed,
                old(self).wf(),
                v0 == old(self)@,
                forall|j: int| 0 <= j < i ==> self@[j] == offer(v0[j], m, self.capacity as nat),
                forall|j: int| i <= j < n ==> self@[j] == v0[j],
            decreases n - i,
        {
            let ghost before = self@;
            let item = m.duplicate();
            let cap = self.capacity;
            assert(self.subs@[i as int]@ == v0[i as int]);
            assert(v0[i as int].queue.len() <= cap);
            self.subs[i].offer(item, cap);
            assert(self@ =~= before.update(i as int, offer(v0[i as int], m, cap as nat)));
            i = i + 1;
        }
        assert(self@ =~= publish_model(v0, m, self.capacity as nat));
        n
    }

    /// Takes the next outcome for subscription `id`: first any loss it has
    /// not yet heard of, then its oldest waiting message.
    pub fn recv(&mut self, id: u64) -> (r: RecvOutcome)
        requires
            old(self).wf(),
        ensures
            final(self).wf(),
            final(self).capacity == old(self).capacity,
            final(self).closed == old(self).closed,
            !has_sub(old(self)@, id) ==> r == RecvOutcome::NotSubscribed && final(self)@ == old(
                self,
            )@,
            has_sub(old(self)@, id) ==> r == recv_result(
                old(self)@[index_of(old(self)@, id)],
                old(self).closed,
            ) && final(self)@ == old(self)@.update(
                index_of(old(self)@, id),
                after_recv(old(self)@[index_of(old(self)@, id)]),
            ),
    {
        match self.find(id) {
            Some(i) => {
                let ghost v0 = self@;
                let closed = self.closed;
                let r = self.subs[i].take(closed);
                assert(self@ =~= v0.update(i as int, after_recv(v0[i as int])));
                r
            },
            None => RecvOutcome::NotSubscribed,
        }
    }

    /// Closes the hub: each subscription, once drained, receives `Closed`.
    pub fn close(&mut self)
        requires
            old(self).wf(),
        ensures
            final(self).wf(),
            final(self)@ == old(self)@,
            final(self).capacity == old(self).capacity,
            final(self).closed,
    {
        self.closed = true;
    }
}


/// When no subscription is full, publishing `m` appends exactly one copy of
/// `m` to every subscription's queue and loses nothing.
pub proof fn lemma_fan_out_complete(subs: Seq<SubModel>, m: ChatMessage, cap: nat)
    requires
        forall|i: int| 0 <= i < subs.len() ==> subs[i].queue.len() < cap,
    ensures
        publish_model(subs, m, cap).len() == subs.len(),
        forall|i: int|
            0 <= i < subs.len() ==> {
                &&& publish_model(subs, m, cap)[i].id == subs[i].id
                &&& publish_model(subs, m, cap)[i].queue == subs[i].queue.push(m)
                &&& publish_model(subs, m, cap)[i].lagged == subs[i].lagged
            },
{
}

/// What publishing does to one subscription depends on that subscription
/// alone: two hubs that agree on subscription `j` still agree on it after
/// the same message is published to both, whatever state the others are in.
/// A full subscription stays at capacity, losing its oldest message.
pub proof fn lemma_lag_isolated(
    subs: Seq<SubModel>,
    others: Seq<SubModel>,
    m: ChatMessage,
    cap: nat,
    j: int,
)
    requires
        cap >= 1,
        0 <= j < subs.len(),
        0 <= j < others.len(),
        subs[j] == others[j],
        subs[j].queue.len() <= cap,
    ensures
        publish_model(subs, m, cap)[j] == publish_model(others, m, cap)[j],
        publish_model(subs, m, cap)[j].queue.len() <= cap,
        subs[j].queue.len() == cap ==> {
            &&& publish_model(subs, m, cap)[j].queue == subs[j].queue.drop_first().push(m)
            &&& publish_model(subs, m, cap)[j].lagged == sat_add(subs[j].lagged, 1)
        },
{
}

/// A connection that subscribes and then unsubscribes leaves the set of
/// subscriptions as it found it.
pub proof fn lemma_subscribe_unsubscribe(subs: Seq<SubModel>, id: u64)
    requires
        ids_unique(subs),
        !has_sub(subs, id),
    ensures
        subscribe_model(subs, id).len() == subs.len() + 1,
        has_sub(subscribe_model(subs, id), id),
        unsubscribe_model(subscribe_model(subs, id), id) == subs,
{
    let s2 = subscribe_model(subs, id);
    let n = subs.len() as int;
    assert(s2[n].id == id);
    assert(has_sub(s2, id));
    let k = index_of(s2, id);
    assert(s2[k].id == id);
    if k != n {
        assert(subs[k].id == id);
    }
    assert(k == n);
    assert(s2.remove(n) =~= subs);
}

/// Unsubscribing a live identifier removes exactly one subscription.
pub proof fn lemma_unsubscribe_len(subs: Seq<SubModel>, id: u64)
    requires
        has_sub(subs, id),
    ensures
        unsubscribe_model(subs, id).len() == subs.len() - 1,
        !has_sub(unsubscribe_model(subs, id), id) <== ids_unique(subs),
{
    let k = index_of(subs, id);
    assert(subs[k].id == id);
    if ids_unique(subs) {
        let r = unsubscribe_model(subs, id);
        if has_sub(r, id) {
            let t = choose|t: int| 0 <= t < r.len() && r[t].id == id;
            if t < k {
                assert(r[t] == subs[t]);
            } else {
                assert(r[t] == subs[t + 1]);
            }
        }
    }
}

} // verus!
