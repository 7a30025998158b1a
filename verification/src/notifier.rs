//! The event notifier: it hands each published event to every subscriber
//! whose filter the event passes, through a queue of the subscriber's own.
//!
//! Publishing only fills queues and so never waits for a subscriber. Each
//! subscriber pulls its events when it is ready, in the order in which they
//! were published.

use crate::error::WsErr;
use crate::ws_event::{EventView, Filter, WsEvent};
use std::collections::VecDeque;
use vstd::prelude::*;

verus! {

/// Names one subscription of one notifier.
#[derive(Debug, Clone, Copy, PartialEq, Eq, Hash, Structural)]
pub struct SubscriptionHandle {
    /// The number that the notifier gave to the subscription.
    pub id: u64,
}

/// What a pull on a subscription yields.
#[derive(Debug, PartialEq, Eq)]
pub enum Delivery {
    /// The oldest event in the subscriber's queue, which has left the queue.
    Item(WsEvent),
    /// The subscription has been cancelled: no event will come.
    End,
    /// No event is queued yet; the subscriber waits until it is woken.
    Pending,
}

/// The mathematical value of a [`Delivery`].
pub enum DeliveryView {
    Item(EventView),
    End,
    Pending,
}

impl View for Delivery {
    type V = DeliveryView;

    open spec fn view(&self) -> DeliveryView {
        match self {
            Delivery::Item(event) => DeliveryView::Item(event@),
            Delivery::End => DeliveryView::End,
            Delivery::Pending => DeliveryView::Pending,
        }
    }
}

/// The mathematical value of one subscription.
pub struct SubscriberView {
    /// The number of the subscription.
    pub id: u64,
    /// The filter that events must pass, if there is one.
    pub filter: Option<Filter>,
    /// The events that were delivered and not pulled yet, oldest first.
    pub pending: Seq<EventView>,
    /// The subscriber found its queue empty and waits to be woken.
    pub parked: bool,
}

impl SubscriberView {
    /// Whether the subscriber is to receive the event.
    pub open spec fn accepts(self, event: EventView) -> bool {
        match self.filter {
            Some(filter) => filter.accepts(event),
            None => true,
        }
    }

    /// The events that the subscriber is to receive, as a predicate.
    pub open spec fn accepting(self) -> spec_fn(EventView) -> bool {
        |event: EventView| self.accepts(event)
    }

    /// The subscriber after an event was published: with the event at the
    /// back of its queue if it accepts the event, unchanged otherwise.
    pub open spec fn deliver(self, event: EventView) -> SubscriberView {
        if self.accepts(event) {
            SubscriberView { pending: self.pending.push(event), parked: false, ..self }
        } else {
            self
        }
    }

    /// Whether the subscriber is to be woken when the event is published.
    pub open spec fn woken_by(self, event: EventView) -> bool {
        self.parked && self.accepts(event)
    }

    /// What a pull yields for this subscriber.
    pub open spec fn poll_result(self) -> DeliveryView {
        if self.pending.len() > 0 {
            DeliveryView::Item(self.pending[0])
        } else {
            DeliveryView::Pending
        }
    }

    /// The subscriber after a pull: without its oldest event, or waiting.
    pub open spec fn polled(self) -> SubscriberView {
        if self.pending.len() > 0 {
            SubscriberView { pending: self.pending.drop_first(), ..self }
        } else {
            SubscriberView { parked: true, ..self }
        }
    }
}

/// The mathematical value of a [`Notifier`].
pub struct NotifierView {
    /// The subscriptions, in the order in which they were made.
    pub subs: Seq<SubscriberView>,
    /// The number that the next subscription gets.
    pub next_id: u64,
}

impl NotifierView {
    /// The numbers of the subscriptions rise along the list and lie below
    /// the next number to be given; a subscriber only waits at an empty
    /// queue.
    pub open spec fn wf(self) -> bool {
        &&& forall|i: int, j: int|
            0 <= i < j < self.subs.len() ==> (#[trigger] self.subs[i]).id < (
            #[trigger] self.subs[j]).id
        &&& forall|i: int|
            0 <= i < self.subs.len() ==> (#[trigger] self.subs[i]).id < self.next_id
        &&& forall|i: int|
            0 <= i < self.subs.len() && (#[trigger] self.subs[i]).parked
                ==> self.subs[i].pending.len() == 0
    }

    /// A notifier without subscriptions.
    pub open spec fn empty() -> NotifierView {
        NotifierView { subs: Seq::empty(), next_id: 0 }
    }

    /// Whether the subscription with this number is registered.
    pub open spec fn registered(self, id: u64) -> bool {
        exists|i: int| 0 <= i < self.subs.len() && (#[trigger] self.subs[i]).id == id
    }

    /// The place in the list of the subscription with this number.
    pub open spec fn index_of(self, id: u64) -> int {
        choose|i: int| 0 <= i < self.subs.len() && (#[trigger] self.subs[i]).id == id
    }

    /// The subscription with this number.
    pub open spec fn get(self, id: u64) -> SubscriberView {
        self.subs[self.index_of(id)]
    }

    /// Whether a further subscription can be numbered.
    pub open spec fn can_subscribe(self) -> bool {
        self.next_id < u64::MAX
    }

    /// The notifier after a subscription with the given filter was added.
    pub open spec fn subscribe(self, filter: Option<Filter>) -> NotifierView {
        NotifierView {
            subs: self.subs.push(
                SubscriberView { id: self.next_id, filter, pending: Seq::empty(), parked: false },
            ),
            next_id: (self.next_id + 1) as u64,
        }
    }

    /// The notifier after the subscription with this number was cancelled.
    pub open spec fn unsubscribe(self, id: u64) -> NotifierView {
        if self.registered(id) {
            NotifierView { subs: self.subs.remove(self.index_of(id)), ..self }
        } else {
            self
        }
    }

    /// The notifier after an event was published.
    pub open spec fn publish(self, event: EventView) -> NotifierView {
        NotifierView {
            subs: self.subs.map_values(|sub: SubscriberView| sub.deliver(event)),
            ..self
        }
    }

    /// The subscriptions to wake when an event is published: those that wait
    /// and accept the event, in the order in which they were made.
    pub open spec fn woken(self, event: EventView) -> Seq<SubscriptionHandle> {
        self.subs.filter(|sub: SubscriberView| sub.woken_by(event)).map_values(
            |sub: SubscriberView| SubscriptionHandle { id: sub.id },
        )
    }

    /// The notifier after each of `events` was published in turn.
    pub open spec fn publish_all(self, events: Seq<EventView>) -> NotifierView
        decreases events.len(),
    {
        if events.len() == 0 {
            self
        } else {
            self.publish_all(events.drop_last()).publish(events.last())
        }
    }

    /// What a pull on the subscription with this number yields: an event or
    /// `Pending` while it is registered, the end once it is cancelled, and
    /// `InconsistentObserver` for a number that was never given.
    pub open spec fn poll_result(self, id: u64) -> Result<DeliveryView, WsErr> {
        if id >= self.next_id {
            Err(WsErr::InconsistentObserver)
        } else if self.registered(id) {
            Ok(self.get(id).poll_result())
        } else {
            Ok(DeliveryView::End)
        }
    }

    /// The notifier after a pull on the subscription with this number.
    pub open spec fn poll(self, id: u64) -> NotifierView {
        if self.registered(id) {
            NotifierView {
                subs: self.subs.update(self.index_of(id), self.get(id).polled()),
                ..self
            }
        } else {
            self
        }
    }

    /// What the pull after `n` earlier pulls on the same subscription yields.
    pub open spec fn nth_poll(self, id: u64, n: nat) -> Result<DeliveryView, WsErr>
        decreases n,
    {
        if n == 0 {
            self.poll_result(id)
        } else {
            self.poll(id).nth_poll(id, (n - 1) as nat)
        }
    }

    /// In a well-formed notifier a number names at most one subscription.
    pub proof fn lemma_index_of(self, i: int)
        requires
            self.wf(),
            0 <= i < self.subs.len(),
        ensures
            self.registered(self.subs[i].id),
            self.index_of(self.subs[i].id) == i,
            self.get(self.subs[i].id) == self.subs[i],
    {
        let id = self.subs[i].id;
        let j = self.index_of(id);
        assert(0 <= j < self.subs.len() && self.subs[j].id == id);
        if j < i {
            assert(self.subs[j].id < self.subs[i].id);
        }
        if i < j {
            assert(self.subs[i].id < self.subs[j].id);
        }
    }

    /// A registered number has its place in the list.
    pub proof fn lemma_registered(self, id: u64)
        requires
            self.registered(id),
        ensures
            0 <= self.index_of(id) < self.subs.len(),
            self.get(id).id == id,
    {
    }
}

/// One subscription: its number, its filter and the events that wait for it.
#[derive(Debug)]
struct Subscriber {
    id: u64,
    filter: Option<Filter>,
    pending: VecDeque<WsEvent>,
    parked: bool,
}

impl View for Subscriber {
    type V = SubscriberView;

    closed spec fn view(&self) -> SubscriberView {
        SubscriberView {
            id: self.id,
            filter: self.filter,
            pending: self.pending@.map_values(|event: WsEvent| event@),
            parked: self.parked,
        }
    }
}

impl Subscriber {
    fn accepts(&self, event: &WsEvent) -> (r: bool)
        ensures
            r == self@.accepts(event@),
    {
        match &self.filter {
            Some(filter) => filter.test(event),
            None => true,
        }
    }

    fn deliver(&mut self, event: &WsEvent) -> (wake: bool)
        ensures
            wake == old(self)@.woken_by(event@),
            final(self)@ == old(self)@.deliver(event@),
    {
        if self.accepts(event) {
            let wake = self.parked;
            self.pending.push_back(event.clone());
            self.parked = false;
            assert(self@.pending =~= old(self)@.pending.push(event@));
            wake
        } else {
            false
        }
    }

    fn poll(&mut self) -> (r: Delivery)
        ensures
            r@ == old(self)@.poll_result(),
            final(self)@ == old(self)@.polled(),
    {
        match self.pending.pop_front() {
            Some(event) => {
                assert(self@.pending =~= old(self)@.pending.drop_first());
                Delivery::Item(event)
            },
            None => {
                self.parked = true;
                assert(self@.pending =~= old(self)@.pending);
                Delivery::Pending
            },
        }
    }
}

/// Fans events out to any number of subscribers.
#[derive(Debug)]
pub struct Notifier {
    subs: Vec<Subscriber>,
    next_id: u64,
}

impl View for Notifier {
    type V = NotifierView;

    closed spec fn view(&self) -> NotifierView {
        NotifierView {
            subs: self.subs@.map_values(|sub: Subscriber| sub@),
            next_id: self.next_id,
        }
    }
}

impl Notifier {
    /// A notifier without subscribers.
    pub fn new() -> (notifier: Notifier)
        ensures
            notifier@ == NotifierView::empty(),
            notifier@.wf(),
    {
        let notifier = Notifier { subs: Vec::new(), next_id: 0 };
        assert(notifier@.subs =~= Seq::empty());
        notifier
    }

    /// The number of subscriptions.
    pub fn subscriber_count(&self) -> (n: usize)
        ensures
            n == self@.subs.len(),
    {
        self.subs.len()
    }

    /// Where the subscription with this number stands in the list.
    fn find(&self, id: u64) -> (r: Option<usize>)
        requires
            self@.wf(),
        ensures
            match r {
                Some(i) => self@.registered(id) && i == self@.index_of(id),
                None => !self@.registered(id),
            },
    {
        let mut i: usize = 0;
        while i < self.subs.len()
            invariant
                i <= self.subs.len(),
                self@.wf(),
                forall|j: int| 0 <= j < i ==> (#[trigger] self@.subs[j]).id != id,
            decreases self.subs.len() - i,
        {
            if self.subs[i].id == id {
                proof {
                    assert(self@.subs[i as int].id == id);
                    self@.lemma_index_of(i as int);
                }
                return Some(i);
            }
            i += 1;
        }
        None
    }

    /// Whether this subscription is registered.
    pub fn is_subscribed(&self, handle: SubscriptionHandle) -> (r: bool)
        requires
            self@.wf(),
        ensures
            r == self@.registered(handle.id),
    {
        self.find(handle.id).is_some()
    }

    /// Registers a subscriber, who from now on receives every published
    /// event that passes `filter`, or every event where there is none.
    /// Fails with `InconsistentObserver`, changing nothing, only when the
    /// numbers for subscriptions have run out.
    pub fn subscribe(&mut self, filter: Option<Filter>) -> (r: Result<SubscriptionHandle, WsErr>)
        requires
            old(self)@.wf(),
        ensures
            final(self)@.wf(),
            old(self)@.can_subscribe() ==> r == Ok::<SubscriptionHandle, WsErr>(
                SubscriptionHandle { id: old(self)@.next_id },
            ) && final(self)@ == old(self)@.subscribe(filter),
            !old(self)@.can_subscribe() ==> r == Err::<SubscriptionHandle, WsErr>(
                WsErr::InconsistentObserver,
            ) && final(self)@ == old(self)@,
    {
        if self.next_id == u64::MAX {
            return Err(WsErr::InconsistentObserver);
        }
        let id = self.next_id;
        let sub = Subscriber { id, filter, pending: VecDeque::new(), parked: false };
        assert(sub@.pending =~= Seq::empty());
        self.subs.push(sub);
        self.next_id = id + 1;
        assert(self@.subs =~= old(self)@.subscribe(filter).subs);
        Ok(SubscriptionHandle { id })
    }

    /// Cancels a subscription at once, dropping the events that still waited
    /// for it. Cancelling a subscription that is not registered changes
    /// nothing. Returns whether the subscriber waited and is to be woken.
    pub fn unsubscribe(&mut self, handle: SubscriptionHandle) -> (wake: bool)
        requires
            old(self)@.wf(),
        ensures
            final(self)@.wf(),
            final(self)@ == old(self)@.unsubscribe(handle.id),
            wake == (old(self)@.registered(handle.id) && old(self)@.get(handle.id).parked),
    {
        match self.find(handle.id) {
            Some(i) => {
                let sub = self.subs.remove(i);
                assert(self@.subs =~= old(self)@.subs.remove(i as int));
                sub.parked
            },
            None => false,
        }
    }

    /// Hands an event to every subscriber that accepts it, at the back of
    /// the subscriber's queue. Never fails and never waits; without
    /// subscribers it does nothing. Returns the subscriptions to wake: those
    /// that waited and received the event.
    pub fn publish(&mut self, event: &WsEvent) -> (wake: Vec<SubscriptionHandle>)
        requires
            old(self)@.wf(),
        ensures
            final(self)@.wf(),
            final(self)@ == old(self)@.publish(event@),
            wake@ == old(self)@.woken(event@),
    {
        let mut wake: Vec<SubscriptionHandle> = Vec::new();
        let ghost before = self@;
        let ghost waiting = |sub: SubscriberView| sub.woken_by(event@);
        let ghost handle = |sub: SubscriberView| SubscriptionHandle { id: sub.id };
        let mut i: usize = 0;
        assert(before.subs.take(0) =~= Seq::empty());
        while i < self.subs.len()
            invariant
                i <= self.subs.len(),
                before == old(self)@,
                before.wf(),
                self@.next_id == before.next_id,
                self@.subs.len() == before.subs.len(),
                waiting == (|sub: SubscriberView| sub.woken_by(event@)),
                handle == (|sub: SubscriberView| SubscriptionHandle { id: sub.id }),
                forall|j: int| 0 <= j < i ==> #[trigger] self@.subs[j] == before.subs[j].deliver(event@),
                forall|j: int| i <= j < self.subs.len() ==> #[trigger] self@.subs[j] == before.subs[j],
                wake@ == before.subs.take(i as int).filter(waiting).map_values(handle),
            decreases self.subs.len() - i,
        {
            let ghost prefix = before.subs.take(i as int);
            let ghost earlier = self.subs@;
            let ghost earlier_view = self@;
            let ghost woken_so_far = wake@;
            assert(self@.subs[i as int] == before.subs[i as int]);
            let id = self.subs[i].id;
            let woken = self.subs[i].deliver(event);
            if woken {
                wake.push(SubscriptionHandle { id });
            }
            proof {
                assert(self.subs@.len() == earlier.len());
                assert(self.subs@[i as int]@ == earlier[i as int]@.deliver(event@));
                assert forall|j: int| 0 <= j < self.subs.len() && j != i implies self.subs@[j]
                    == earlier[j] by {}
                assert forall|j: int| 0 <= j < i + 1 implies #[trigger] self@.subs[j]
                    == before.subs[j].deliver(event@) by {
                    if j < i {
                        assert(self@.subs[j] == earlier[j]@);
                        assert(earlier_view.subs[j] == earlier[j]@);
                    }
                }
                assert forall|j: int| i + 1 <= j < self.subs.len() implies #[trigger] self@.subs[j]
                    == before.subs[j] by {
                    assert(self@.subs[j] == earlier[j]@);
                    assert(earlier_view.subs[j] == earlier[j]@);
                }
                assert(before.subs.take(i + 1) =~= prefix.push(before.subs[i as int]));
                prefix.lemma_filter_push(before.subs[i as int], waiting);
                assert(woken == waiting(before.subs[i as int]));
                assert(handle(before.subs[i as int]) == SubscriptionHandle { id });
                if woken {
                    assert(wake@ == woken_so_far.push(SubscriptionHandle { id }));
                    assert(wake@ =~= prefix.push(before.subs[i as int]).filter(waiting).map_values(
                        handle,
                    ));
                }
            }
            i += 1;
        }
        proof {
            assert(before.subs.take(i as int) =~= before.subs);
            assert(self@.subs =~= before.publish(event@).subs);
        }
        wake
    }

    /// Pulls the next event for a subscription. Yields the oldest event in
    /// its queue; at an empty queue `Pending`, after which the subscriber
    /// counts as waiting. For a cancelled subscription it yields the end of
    /// the sequence, and for one that this notifier never gave
    /// `InconsistentObserver`.
    pub fn next_event(&mut self, handle: SubscriptionHandle) -> (r: Result<Delivery, WsErr>)
        requires
            old(self)@.wf(),
        ensures
            final(self)@.wf(),
            final(self)@ == old(self)@.poll(handle.id),
            match r {
                Ok(delivery) => old(self)@.poll_result(handle.id) == Ok::<DeliveryView, WsErr>(
                    delivery@,
                ),
                Err(e) => old(self)@.poll_result(handle.id) == Err::<DeliveryView, WsErr>(e),
            },
    {
        if handle.id >= self.next_id {
            proof {
                if self@.registered(handle.id) {
                    self@.lemma_registered(handle.id);
                }
            }
            return Err(WsErr::InconsistentObserver);
        }
        match self.find(handle.id) {
            Some(i) => {
                let delivery = self.subs[i].poll();
                assert(self@.subs =~= old(self)@.poll(handle.id).subs);
                Ok(delivery)
            },
            None => Ok(Delivery::End),
        }
    }
}

/// Publishing leaves every subscription in its place and changes of each
/// only its queue: the event is at the back of the queue of every subscriber
/// that accepts it, and of no other.
pub proof fn law_publish_reaches_every_subscriber(notifier: NotifierView, event: EventView, id: u64)
    requires
        notifier.wf(),
        notifier.registered(id),
    ensures
        notifier.publish(event).wf(),
        notifier.publish(event).registered(id),
        notifier.publish(event).get(id) == notifier.get(id).deliver(event),
        notifier.publish(event).next_id == notifier.next_id,
{
    let after = notifier.publish(event);
    let i = notifier.index_of(id);
    assert forall|a: int, b: int| 0 <= a < b < after.subs.len() implies (#[trigger] after.subs[a]).id
        < (#[trigger] after.subs[b]).id by {
        assert(notifier.subs[a].id < notifier.subs[b].id);
    }
    assert forall|a: int| 0 <= a < after.subs.len() implies (#[trigger] after.subs[a]).id
        < after.next_id by {
        assert(notifier.subs[a].id < notifier.next_id);
    }
    assert forall|a: int| 0 <= a < after.subs.len() && (#[trigger] after.subs[a]).parked implies
        after.subs[a].pending.len() == 0 by {
        assert(notifier.subs[a].parked ==> notifier.subs[a].pending.len() == 0);
    }
    assert(after.subs[i].id == id);
    after.lemma_index_of(i);
}

/// Fan-out without loss, duplication or reordering: after a sequence of
/// events was published, the queue of every subscriber that was registered
/// all the while has grown by exactly the events that the subscriber accepts,
/// in the order in which they were published.
pub proof fn law_fan_out(notifier: NotifierView, events: Seq<EventView>, id: u64)
    requires
        notifier.wf(),
        notifier.registered(id),
    ensures
        notifier.publish_all(events).wf(),
        notifier.publish_all(events).registered(id),
        notifier.publish_all(events).next_id == notifier.next_id,
        notifier.publish_all(events).get(id).filter == notifier.get(id).filter,
        notifier.publish_all(events).get(id).pending == notifier.get(id).pending + events.filter(
            notifier.get(id).accepting(),
        ),
    decreases events.len(),
{
    let sub = notifier.get(id);
    if events.len() == 0 {
        assert(events.filter(sub.accepting()) =~= Seq::empty()) by {
            reveal(Seq::filter);
        }
        assert(sub.pending + events.filter(sub.accepting()) =~= sub.pending);
    } else {
        let earlier = events.drop_last();
        let last = events.last();
        law_fan_out(notifier, earlier, id);
        let before = notifier.publish_all(earlier);
        law_publish_reaches_every_subscriber(before, last, id);
        assert(events =~= earlier.push(last));
        earlier.lemma_filter_push(last, sub.accepting());
        assert(before.get(id).accepts(last) == sub.accepts(last));
        assert(notifier.publish_all(events).get(id).pending =~= sub.pending + events.filter(
            sub.accepting(),
        ));
    }
}

/// A pull changes only the subscription it is made on, which stays in its
/// place.
pub proof fn law_pull_is_local(notifier: NotifierView, id: u64)
    requires
        notifier.wf(),
        notifier.registered(id),
    ensures
        notifier.poll(id).wf(),
        notifier.poll(id).registered(id),
        notifier.poll(id).get(id) == notifier.get(id).polled(),
        notifier.poll(id).next_id == notifier.next_id,
        forall|other: u64|
            other != id && #[trigger] notifier.registered(other) ==> notifier.poll(id).registered(
                other,
            ) && notifier.poll(id).get(other) == notifier.get(other),
{
    let after = notifier.poll(id);
    let i = notifier.index_of(id);
    assert forall|a: int, b: int| 0 <= a < b < after.subs.len() implies (#[trigger] after.subs[a]).id
        < (#[trigger] after.subs[b]).id by {
        assert(notifier.subs[a].id < notifier.subs[b].id);
    }
    assert forall|a: int| 0 <= a < after.subs.len() implies (#[trigger] after.subs[a]).id
        < after.next_id by {
        assert(notifier.subs[a].id < notifier.next_id);
    }
    assert forall|a: int| 0 <= a < after.subs.len() && (#[trigger] after.subs[a]).parked implies
        after.subs[a].pending.len() == 0 by {
        assert(notifier.subs[a].parked ==> notifier.subs[a].pending.len() == 0);
    }
    assert(after.subs[i].id == id);
    after.lemma_index_of(i);
    assert forall|other: u64| other != id && #[trigger] notifier.registered(other) implies notifier.poll(
        id,
    ).registered(other) && notifier.poll(id).get(other) == notifier.get(other) by {
        let j = notifier.index_of(other);
        assert(notifier.subs[j].id == other);
        assert(j != i);
        assert(after.subs[j] == notifier.subs[j]);
        after.lemma_index_of(j);
        assert(after.registered(other));
        assert(after.get(other) == notifier.get(other));
    }
}

/// A subscriber pulls its events one by one, oldest first, and finds
/// `Pending` once its queue is drained: no event comes twice, none is
/// skipped, and none overtakes another.
pub proof fn law_pulls_in_order(notifier: NotifierView, id: u64, n: nat)
    requires
        notifier.wf(),
        notifier.registered(id),
    ensures
        n < notifier.get(id).pending.len() ==> notifier.nth_poll(id, n) == Ok::<
            DeliveryView,
            WsErr,
        >(DeliveryView::Item(notifier.get(id).pending[n as int])),
        n >= notifier.get(id).pending.len() ==> notifier.nth_poll(id, n) == Ok::<
            DeliveryView,
            WsErr,
        >(DeliveryView::Pending),
    decreases n,
{
    notifier.lemma_registered(id);
    assert(notifier.subs[notifier.index_of(id)].id < notifier.next_id);
    if n > 0 {
        law_pull_is_local(notifier, id);
        law_pulls_in_order(notifier.poll(id), id, (n - 1) as nat);
    }
}

/// From subscription on there are no gaps: a subscriber that registers with
/// `filter` and then pulls, after `events` were published, receives exactly
/// the events among them that pass the filter, in the order of publication,
/// and then waits.
pub proof fn law_subscription_has_no_gaps(
    notifier: NotifierView,
    filter: Option<Filter>,
    events: Seq<EventView>,
    n: nat,
)
    requires
        notifier.wf(),
        notifier.can_subscribe(),
    ensures
        ({
            let id = notifier.next_id;
            let subscribed = notifier.subscribe(filter);
            let matching = events.filter(subscribed.get(id).accepting());
            let after = subscribed.publish_all(events);
            &&& subscribed.wf()
            &&& subscribed.registered(id)
            &&& subscribed.get(id).filter == filter
            &&& n < matching.len() ==> after.nth_poll(id, n) == Ok::<DeliveryView, WsErr>(
                DeliveryView::Item(matching[n as int]),
            )
            &&& n >= matching.len() ==> after.nth_poll(id, n) == Ok::<DeliveryView, WsErr>(
                DeliveryView::Pending,
            )
        }),
{
    let id = notifier.next_id;
    let subscribed = notifier.subscribe(filter);
    let last = notifier.subs.len() as int;
    assert forall|a: int, b: int| 0 <= a < b < subscribed.subs.len() implies (
    #[trigger] subscribed.subs[a]).id < (#[trigger] subscribed.subs[b]).id by {
        if b < last {
            assert(notifier.subs[a].id < notifier.subs[b].id);
        } else {
            assert(notifier.subs[a].id < notifier.next_id);
        }
    }
    assert forall|a: int| 0 <= a < subscribed.subs.len() implies (#[trigger] subscribed.subs[a]).id
        < subscribed.next_id by {
        if a < last {
            assert(notifier.subs[a].id < notifier.next_id);
        }
    }
    assert forall|a: int| 0 <= a < subscribed.subs.len() && (#[trigger] subscribed.subs[a]).parked implies
        subscribed.subs[a].pending.len() == 0 by {
        if a < last {
            assert(notifier.subs[a].parked ==> notifier.subs[a].pending.len() == 0);
        }
    }
    assert(subscribed.subs[last].id == id);
    subscribed.lemma_index_of(last);
    law_fan_out(subscribed, events, id);
    let matching = events.filter(subscribed.get(id).accepting());
    assert(subscribed.get(id).pending + matching =~= matching);
    law_pulls_in_order(subscribed.publish_all(events), id, n);
}

/// Publishing without subscribers is a silent no-op.
pub proof fn law_silent_without_subscribers(notifier: NotifierView, event: EventView)
    requires
        notifier.subs.len() == 0,
    ensures
        notifier.publish(event) == notifier,
        notifier.woken(event) == Seq::<SubscriptionHandle>::empty(),
{
    assert(notifier.publish(event).subs =~= notifier.subs);
    assert(notifier.subs.filter(|sub: SubscriberView| sub.woken_by(event)) =~= Seq::empty()) by {
        reveal(Seq::filter);
    }
    assert(notifier.woken(event) =~= Seq::<SubscriptionHandle>::empty());
}

/// Cancelling is immediate and final: the subscription is gone at once,
/// stays gone whatever is published, and a pull on it finds the end of the
/// sequence. The other subscriptions are untouched.
pub proof fn law_unsubscribe_is_immediate(notifier: NotifierView, id: u64)
    requires
        notifier.wf(),
    ensures
        notifier.unsubscribe(id).wf(),
        !notifier.unsubscribe(id).registered(id),
        notifier.unsubscribe(id).next_id == notifier.next_id,
        id < notifier.next_id ==> notifier.unsubscribe(id).poll_result(id) == Ok::<
            DeliveryView,
            WsErr,
        >(DeliveryView::End),
        forall|other: u64|
            other != id && #[trigger] notifier.registered(other) ==> notifier.unsubscribe(
                id,
            ).registered(other) && notifier.unsubscribe(id).get(other) == notifier.get(other),
{
    let after = notifier.unsubscribe(id);
    if notifier.registered(id) {
        let i = notifier.index_of(id);
        notifier.lemma_index_of(i);
        assert forall|a: int| 0 <= a < after.subs.len() implies #[trigger] after.subs[a] == (if a
            < i {
            notifier.subs[a]
        } else {
            notifier.subs[a + 1]
        }) by {}
        assert forall|a: int, b: int| 0 <= a < b < after.subs.len() implies (
        #[trigger] after.subs[a]).id < (#[trigger] after.subs[b]).id by {
            let a0 = if a < i { a } else { a + 1 };
            let b0 = if b < i { b } else { b + 1 };
            assert(notifier.subs[a0].id < notifier.subs[b0].id);
        }
        assert forall|a: int| 0 <= a < after.subs.len() implies (#[trigger] after.subs[a]).id
            < after.next_id by {
            let a0 = if a < i { a } else { a + 1 };
            assert(notifier.subs[a0].id < notifier.next_id);
        }
        assert forall|a: int| 0 <= a < after.subs.len() && (#[trigger] after.subs[a]).parked implies
            after.subs[a].pending.len() == 0 by {
            let a0 = if a < i { a } else { a + 1 };
            assert(notifier.subs[a0].parked ==> notifier.subs[a0].pending.len() == 0);
        }
        if after.registered(id) {
            let k = after.index_of(id);
            let k0 = if k < i { k } else { k + 1 };
            assert(notifier.subs[k0].id == id);
            notifier.lemma_index_of(k0);
        }
        assert forall|other: u64| other != id && #[trigger] notifier.registered(other) implies after.registered(
            other,
        ) && after.get(other) == notifier.get(other) by {
            let j = notifier.index_of(other);
            let j1 = if j < i { j } else { j - 1 };
            assert(after.subs[j1] == notifier.subs[j]);
            after.lemma_index_of(j1);
        }
    } else {
        assert forall|other: u64| other != id && #[trigger] notifier.registered(other) implies after.registered(
            other,
        ) && after.get(other) == notifier.get(other) by {}
    }
}

} // verus!
