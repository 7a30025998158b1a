//! The connection handle: the one place that knows a connection's phase,
//! its observers and its inbound messages.
//!
//! The host's callbacks come in through `on_open`, `on_message`, `on_error`
//! and `on_close`. Each of them updates the phase, publishes the event and
//! fills the queue in one step, and returns whom to wake. The application
//! sends, closes, observes and pulls messages through the other methods.
//! What has to reach the transport (a payload to send, a close to request)
//! is returned to the caller, who hands it on.

use crate::error::WsErr;
use crate::notifier::{Delivery, DeliveryView, Notifier, NotifierView, SubscriptionHandle};
use crate::ws_event::{CloseEvent, CloseView, EventView, Filter, WsEvent};
use crate::ws_message::{MessageView, Payload, PayloadView, WsMessage};
use crate::ws_state::{MachineView, StateMachine, WsState};
use crate::ws_stream::{law_delivery_order, Next, NextView, StreamView, WsStream};
use vstd::prelude::*;

verus! {

/// Whom to wake after a callback of the host.
#[derive(Debug, PartialEq, Eq)]
pub struct Wakeups {
    /// The consumer of the message stream waits and is to be woken.
    pub reader: bool,
    /// The observers that wait and have received an event, in the order of
    /// their subscriptions.
    pub observers: Vec<SubscriptionHandle>,
}

/// The mathematical value of a [`Wakeups`].
pub struct WakeupsView {
    pub reader: bool,
    pub observers: Seq<SubscriptionHandle>,
}

impl View for Wakeups {
    type V = WakeupsView;

    open spec fn view(&self) -> WakeupsView {
        WakeupsView { reader: self.reader, observers: self.observers@ }
    }
}

/// What the transport is to be asked when the application closes the
/// connection, and whom to wake.
#[derive(Debug, PartialEq, Eq)]
pub struct CloseRequest {
    /// The close code to pass on, if the application gave one.
    pub code: Option<u16>,
    /// The reason to pass on, if the application gave one.
    pub reason: Option<String>,
    /// The observers that wait and have received the `Closing` event.
    pub wake: Vec<SubscriptionHandle>,
}

/// The mathematical value of a [`CloseRequest`].
pub struct CloseRequestView {
    pub code: Option<u16>,
    pub reason: Option<Seq<char>>,
    pub wake: Seq<SubscriptionHandle>,
}

impl View for CloseRequest {
    type V = CloseRequestView;

    open spec fn view(&self) -> CloseRequestView {
        CloseRequestView {
            code: self.code,
            reason: match self.reason {
                Some(reason) => Some(reason@),
                None => None,
            },
            wake: self.wake@,
        }
    }
}

/// The mathematical value of a [`WsMeta`].
pub struct MetaView {
    /// The state machine with the connection's phase.
    pub machine: MachineView,
    /// The notifier with the observers.
    pub notifier: NotifierView,
    /// The message stream with the inbound queue.
    pub stream: StreamView,
    /// The first failure of a callback that the application has not yet
    /// collected.
    pub fault: Option<WsErr>,
}

impl MetaView {
    /// The parts are well formed, and the message stream is finished exactly
    /// when the connection is `Closed`.
    pub open spec fn wf(self) -> bool {
        &&& self.notifier.wf()
        &&& self.stream.wf()
        &&& self.stream.finished <==> self.machine.state == WsState::Closed
    }

    /// The phase of the connection.
    pub open spec fn state(self) -> WsState {
        self.machine.state
    }

    /// A handle for a connection that is being established, without
    /// observers and with an empty queue.
    pub open spec fn initial(limit: Option<nat>) -> MetaView {
        MetaView {
            machine: MachineView { state: WsState::Connecting, saw_error: false },
            notifier: NotifierView::empty(),
            stream: StreamView::empty(limit),
            fault: None,
        }
    }

    /// The handle after a callback failed with `error`: the failure is kept
    /// for the application unless an earlier one still waits.
    pub open spec fn fail(self, error: WsErr) -> MetaView {
        MetaView {
            fault: if self.fault is Some {
                self.fault
            } else {
                Some(error)
            },
            ..self
        }
    }

    /// What the callback for a life-cycle event returns: `InvalidTransition`
    /// where the event is illegal in the current phase, else whom to wake.
    /// The consumer of the stream is woken by a `Closed` event only.
    pub open spec fn event_result(self, event: EventView) -> Result<WakeupsView, WsErr> {
        if self.machine.apply(event) is Some {
            Ok(
                WakeupsView {
                    reader: event is Closed && self.stream.parked,
                    observers: self.notifier.woken(event),
                },
            )
        } else {
            Err(WsErr::InvalidTransition)
        }
    }

    /// The handle after the callback for a life-cycle event. A legal event
    /// moves the phase, is published to the observers and, if it is `Closed`,
    /// finishes the message stream. An illegal one changes nothing but the
    /// recorded failure.
    pub open spec fn on_event(self, event: EventView) -> MetaView {
        match self.machine.apply(event) {
            Some(machine) => MetaView {
                machine,
                notifier: self.notifier.publish(event),
                stream: if event is Closed {
                    self.stream.finish()
                } else {
                    self.stream
                },
                ..self
            },
            None => self.fail(WsErr::InvalidTransition),
        }
    }

    /// What the callback for an arrived payload returns: `InvalidTransition`
    /// unless the connection is `Open`; the decoding error of a payload that
    /// carries no message; `NotOpen` where the consumer has closed the
    /// stream and `QueueOverflow` where the queue is full; else whether the
    /// consumer is to be woken.
    pub open spec fn message_result(self, payload: PayloadView) -> Result<bool, WsErr> {
        if self.machine.state != WsState::Open {
            Err(WsErr::InvalidTransition)
        } else {
            match payload.decode() {
                Ok(_) => self.stream.accept_result(),
                Err(error) => Err(error),
            }
        }
    }

    /// The handle after the callback for an arrived payload: with the
    /// decoded message at the back of the queue, or with the failure
    /// recorded and nothing else changed.
    pub open spec fn on_message(self, payload: PayloadView) -> MetaView {
        match self.message_result(payload) {
            Ok(_) => MetaView { stream: self.stream.accept(payload.decode()->Ok_0), ..self },
            Err(error) => self.fail(error),
        }
    }

    /// The handle after the callbacks for each of `payloads` in turn.
    pub open spec fn on_messages(self, payloads: Seq<PayloadView>) -> MetaView
        decreases payloads.len(),
    {
        if payloads.len() == 0 {
            self
        } else {
            self.on_messages(payloads.drop_last()).on_message(payloads.last())
        }
    }

    /// The handle after the application asked to close the connection:
    /// while connecting or open the phase is `Closing` at once and the
    /// `Closing` event is published; in any other phase nothing changes.
    pub open spec fn close(self) -> MetaView {
        if self.machine.state.can_close() {
            MetaView {
                machine: self.machine.closing(),
                notifier: self.notifier.publish(EventView::Closing),
                ..self
            }
        } else {
            self
        }
    }

    /// What a send returns: the payload for the transport while the
    /// connection is `Open`, and `NotOpen` in every other phase.
    pub open spec fn send_result(self, message: MessageView) -> Result<PayloadView, WsErr> {
        if self.machine.state == WsState::Open {
            Ok(message.encode())
        } else {
            Err(WsErr::NotOpen)
        }
    }
}

/// The handle of one connection. It owns the connection's state machine, its
/// notifier and its message stream; nothing else changes them.
#[derive(Debug)]
pub struct WsMeta {
    machine: StateMachine,
    notifier: Notifier,
    stream: WsStream,
    fault: Option<WsErr>,
}

impl View for WsMeta {
    type V = MetaView;

    closed spec fn view(&self) -> MetaView {
        MetaView {
            machine: self.machine@,
            notifier: self.notifier@,
            stream: self.stream@,
            fault: self.fault,
        }
    }
}

impl WsMeta {
    /// A handle for a connection that is being established. The inbound
    /// queue holds at most `limit` messages, or any number where `limit` is
    /// `None`.
    pub fn new(limit: Option<usize>) -> (meta: WsMeta)
        ensures
            meta@ == MetaView::initial(
                match limit {
                    Some(limit) => Some(limit as nat),
                    None => None,
                },
            ),
            meta@.wf(),
    {
        WsMeta {
            machine: StateMachine::new(),
            notifier: Notifier::new(),
            stream: WsStream::new(limit),
            fault: None,
        }
    }

    /// The phase of the connection.
    pub fn state(&self) -> (state: WsState)
        ensures
            state == self@.state(),
    {
        self.machine.current()
    }

    /// Keeps a callback's failure for the application, unless an earlier one
    /// still waits to be collected.
    fn record(&mut self, error: WsErr)
        ensures
            final(self)@ == old(self)@.fail(error),
    {
        if self.fault.is_none() {
            self.fault = Some(error);
        }
    }

    /// One callback for a life-cycle event: moves the phase, publishes the
    /// event, and finishes the stream on `Closed`.
    fn handle_event(&mut self, event: WsEvent) -> (r: Result<Wakeups, WsErr>)
        requires
            old(self)@.wf(),
        ensures
            final(self)@.wf(),
            final(self)@ == old(self)@.on_event(event@),
            match r {
                Ok(wake) => old(self)@.event_result(event@) == Ok::<WakeupsView, WsErr>(wake@),
                Err(e) => old(self)@.event_result(event@) == Err::<WakeupsView, WsErr>(e),
            },
    {
        match self.machine.transition(&event) {
            Ok(_) => {
                let observers = self.notifier.publish(&event);
                let reader = if event.is_closed() {
                    self.stream.finish()
                } else {
                    false
                };
                Ok(Wakeups { reader, observers })
            },
            Err(error) => {
                self.record(error);
                Err(error)
            },
        }
    }

    /// The host confirms that the connection is established. Legal while
    /// `Connecting`: the phase becomes `Open` and an `Open` event is
    /// published. In any other phase the callback fails with
    /// `InvalidTransition`, which is also recorded, and changes nothing else.
    pub fn on_open(&mut self) -> (r: Result<Wakeups, WsErr>)
        requires
            old(self)@.wf(),
        ensures
            final(self)@.wf(),
            final(self)@ == old(self)@.on_event(EventView::Open),
            match r {
                Ok(wake) => old(self)@.event_result(EventView::Open) == Ok::<WakeupsView, WsErr>(
                    wake@,
                ),
                Err(e) => old(self)@.event_result(EventView::Open) == Err::<WakeupsView, WsErr>(e),
            },
    {
        self.handle_event(WsEvent::Open)
    }

    /// The host reports an error on the connection. Legal in every phase:
    /// the phase stays as it is, the error is noted and an `Error` event is
    /// published.
    pub fn on_error(&mut self) -> (r: Result<Wakeups, WsErr>)
        requires
            old(self)@.wf(),
        ensures
            final(self)@.wf(),
            final(self)@ == old(self)@.on_event(EventView::Error),
            match r {
                Ok(wake) => old(self)@.event_result(EventView::Error) == Ok::<WakeupsView, WsErr>(
                    wake@,
                ),
                Err(e) => old(self)@.event_result(EventView::Error) == Err::<WakeupsView, WsErr>(e),
            },
    {
        self.handle_event(WsEvent::Error)
    }

    /// The host reports that the connection has closed. Legal in every phase
    /// but `Closed`: the phase becomes `Closed`, a `Closed` event with the
    /// code, the reason and the flag is published, and the message stream is
    /// finished, which wakes its consumer. Once `Closed` the callback fails
    /// with `InvalidTransition`, which is also recorded, and changes nothing
    /// else.
    pub fn on_close(&mut self, code: u16, reason: String, was_clean: bool) -> (r: Result<
        Wakeups,
        WsErr,
    >)
        requires
            old(self)@.wf(),
        ensures
            final(self)@.wf(),
            final(self)@ == old(self)@.on_event(
                EventView::Closed(CloseView { code, reason: reason@, was_clean }),
            ),
            match r {
                Ok(wake) => old(self)@.event_result(
                    EventView::Closed(CloseView { code, reason: reason@, was_clean }),
                ) == Ok::<WakeupsView, WsErr>(wake@),
                Err(e) => old(self)@.event_result(
                    EventView::Closed(CloseView { code, reason: reason@, was_clean }),
                ) == Err::<WakeupsView, WsErr>(e),
            },
    {
        self.handle_event(WsEvent::Closed(CloseEvent { code, reason, was_clean }))
    }

    /// The host delivers a payload. Legal while `Open`: the payload is
    /// decoded and the message goes to the back of the inbound queue; the
    /// result says whether the consumer is to be woken. The callback fails
    /// with `InvalidTransition` in any other phase, with `InvalidEncoding`
    /// or `UnsupportedPayload` for a payload that carries no message, with
    /// `NotOpen` where the consumer has closed the stream, and with
    /// `QueueOverflow` where the queue is full. A failure is also recorded,
    /// and changes nothing else.
    pub fn on_message(&mut self, raw: Payload) -> (r: Result<Wakeups, WsErr>)
        requires
            old(self)@.wf(),
        ensures
            final(self)@.wf(),
            final(self)@ == old(self)@.on_message(raw@),
            match r {
                Ok(wake) => old(self)@.message_result(raw@) == Ok::<bool, WsErr>(wake.reader)
                    && wake.observers@.len() == 0,
                Err(e) => old(self)@.message_result(raw@) == Err::<bool, WsErr>(e),
            },
    {
        if !self.machine.current().is_open() {
            self.record(WsErr::InvalidTransition);
            return Err(WsErr::InvalidTransition);
        }
        let accepted = match WsMessage::try_from(raw) {
            Ok(msg) => self.stream.accept(msg),
            Err(error) => Err(error),
        };
        match accepted {
            Ok(reader) => Ok(Wakeups { reader, observers: Vec::new() }),
            Err(error) => {
                self.record(error);
                Err(error)
            },
        }
    }

    /// Sends a message. While the connection is `Open` the result is the
    /// payload to hand to the transport; in every other phase the send fails
    /// with `NotOpen` and nothing is handed on. The handle does not change.
    pub fn send(&self, message: WsMessage) -> (r: Result<Payload, WsErr>)
        ensures
            match r {
                Ok(payload) => self@.send_result(message@) == Ok::<PayloadView, WsErr>(payload@),
                Err(e) => self@.send_result(message@) == Err::<PayloadView, WsErr>(e),
            },
    {
        WsStream::send(self.machine.current(), message)
    }

    /// Asks to close the connection. Legal while `Connecting` or `Open`: the
    /// phase becomes `Closing` at once, a `Closing` event is published, and
    /// the result holds the code and the reason for the transport. The host
    /// confirms later through `on_close`. In any other phase the call fails
    /// with `NotOpen` and changes nothing.
    pub fn close(&mut self, code: Option<u16>, reason: Option<String>) -> (r: Result<
        CloseRequest,
        WsErr,
    >)
        requires
            old(self)@.wf(),
        ensures
            final(self)@.wf(),
            final(self)@ == old(self)@.close(),
            old(self)@.state().can_close() ==> r is Ok && r->Ok_0@ == (CloseRequestView {
                code,
                reason: match reason {
                    Some(reason) => Some(reason@),
                    None => None,
                },
                wake: old(self)@.notifier.woken(EventView::Closing),
            }),
            !old(self)@.state().can_close() ==> r == Err::<CloseRequest, WsErr>(WsErr::NotOpen),
    {
        match self.machine.request_close() {
            Ok(_) => {
                let wake = self.notifier.publish(&WsEvent::Closing);
                Ok(CloseRequest { code, reason, wake })
            },
            Err(error) => Err(error),
        }
    }

    /// Pulls the next inbound message: the oldest in the queue; at an empty
    /// queue the end of the sequence once the connection is `Closed` or the
    /// consumer has closed the stream, and else `Pending`, after which the
    /// consumer counts as waiting.
    pub fn next(&mut self) -> (r: Next)
        requires
            old(self)@.wf(),
        ensures
            final(self)@.wf(),
            r@ == old(self)@.stream.next_result(),
            final(self)@ == (MetaView { stream: old(self)@.stream.next(), ..old(self)@ }),
    {
        self.stream.next()
    }

    /// Closes the message stream on behalf of its consumer: what is queued
    /// is dropped and the sequence ends. The connection itself is not
    /// touched. Returns whether a waiting consumer is to be woken.
    pub fn close_stream(&mut self) -> (wake: bool)
        requires
            old(self)@.wf(),
        ensures
            final(self)@.wf(),
            wake == old(self)@.stream.parked,
            final(self)@ == (MetaView { stream: old(self)@.stream.cancel(), ..old(self)@ }),
    {
        self.stream.cancel()
    }

    /// Registers an observer, who from now on receives every event of the
    /// connection that passes `filter`, or every event where there is none.
    /// Fails with `InconsistentObserver`, changing nothing, only when the
    /// numbers for subscriptions have run out.
    pub fn observe(&mut self, filter: Option<Filter>) -> (r: Result<SubscriptionHandle, WsErr>)
        requires
            old(self)@.wf(),
        ensures
            final(self)@.wf(),
            old(self)@.notifier.can_subscribe() ==> r == Ok::<SubscriptionHandle, WsErr>(
                SubscriptionHandle { id: old(self)@.notifier.next_id },
            ) && final(self)@ == (MetaView {
                notifier: old(self)@.notifier.subscribe(filter),
                ..old(self)@
            }),
            !old(self)@.notifier.can_subscribe() ==> r == Err::<SubscriptionHandle, WsErr>(
                WsErr::InconsistentObserver,
            ) && final(self)@ == old(self)@,
    {
        self.notifier.subscribe(filter)
    }

    /// Cancels an observer's subscription at once. Returns whether the
    /// observer waited and is to be woken.
    pub fn unsubscribe(&mut self, handle: SubscriptionHandle) -> (wake: bool)
        requires
            old(self)@.wf(),
        ensures
            final(self)@.wf(),
            final(self)@ == (MetaView {
                notifier: old(self)@.notifier.unsubscribe(handle.id),
                ..old(self)@
            }),
            wake == (old(self)@.notifier.registered(handle.id) && old(self)@.notifier.get(
                handle.id,
            ).parked),
    {
        self.notifier.unsubscribe(handle)
    }

    /// Pulls the next event for an observer: the oldest in its queue; at an
    /// empty queue `Pending`, after which the observer counts as waiting.
    /// For a cancelled subscription it yields the end of the sequence, and
    /// for one that this handle never gave `InconsistentObserver`.
    pub fn next_event(&mut self, handle: SubscriptionHandle) -> (r: Result<Delivery, WsErr>)
        requires
            old(self)@.wf(),
        ensures
            final(self)@.wf(),
            final(self)@ == (MetaView {
                notifier: old(self)@.notifier.poll(handle.id),
                ..old(self)@
            }),
            match r {
                Ok(delivery) => old(self)@.notifier.poll_result(handle.id) == Ok::<
                    DeliveryView,
                    WsErr,
                >(delivery@),
                Err(e) => old(self)@.notifier.poll_result(handle.id) == Err::<DeliveryView, WsErr>(
                    e,
                ),
            },
    {
        self.notifier.next_event(handle)
    }

    /// The first failure of a callback that has not been collected yet.
    pub fn fault(&self) -> (fault: Option<WsErr>)
        ensures
            fault == self@.fault,
    {
        self.fault
    }

    /// Collects the recorded failure of a callback, if there is one, and
    /// makes room for the next.
    pub fn take_fault(&mut self) -> (fault: Option<WsErr>)
        ensures
            fault == old(self)@.fault,
            final(self)@ == (MetaView { fault: None, ..old(self)@ }),
    {
        let fault = self.fault;
        self.fault = None;
        fault
    }
}

/// The phase of a connection only ever advances, whatever the host reports
/// and whatever the application asks; a message never moves it; and `Closed`
/// is final.
pub proof fn law_phase_only_advances(meta: MetaView, event: EventView, payload: PayloadView)
    ensures
        meta.state().rank() <= meta.on_event(event).state().rank(),
        meta.state().rank() <= meta.close().state().rank(),
        meta.on_message(payload).state() == meta.state(),
        meta.state() == WsState::Closed ==> meta.on_event(event).state() == WsState::Closed
            && meta.close() == meta,
{
}

/// An event that is illegal in the current phase is reported as
/// `InvalidTransition` and leaves the phase, the observers and the queue as
/// they were; the failure is kept for the application.
pub proof fn law_illegal_event_changes_nothing(meta: MetaView, event: EventView)
    requires
        meta.state().after(event) is None,
    ensures
        meta.event_result(event) == Err::<WakeupsView, WsErr>(WsErr::InvalidTransition),
        meta.on_event(event).machine == meta.machine,
        meta.on_event(event).notifier == meta.notifier,
        meta.on_event(event).stream == meta.stream,
        meta.on_event(event).fault is Some,
        meta.fault is None ==> meta.on_event(event).fault == Some(WsErr::InvalidTransition),
{
}

/// Every legal event reaches the observers: what the notifier holds after
/// the callback is what publishing the event gives.
pub proof fn law_legal_event_is_published(meta: MetaView, event: EventView)
    requires
        meta.state().after(event) is Some,
    ensures
        meta.event_result(event) is Ok,
        meta.on_event(event).state() == meta.state().after(event)->Some_0,
        meta.on_event(event).notifier == meta.notifier.publish(event),
        meta.on_event(event).fault == meta.fault,
{
}

/// Outside the `Open` phase nothing is sent and nothing is received: a send
/// fails with `NotOpen`, and an arriving payload is refused with
/// `InvalidTransition` without touching the queue.
pub proof fn law_only_open_carries_messages(
    meta: MetaView,
    message: MessageView,
    payload: PayloadView,
)
    ensures
        meta.send_result(message) is Ok <==> meta.state() == WsState::Open,
        meta.state() != WsState::Open ==> meta.send_result(message) == Err::<PayloadView, WsErr>(
            WsErr::NotOpen,
        ),
        meta.state() != WsState::Open ==> meta.message_result(payload) == Err::<bool, WsErr>(
            WsErr::InvalidTransition,
        ) && meta.on_message(payload).stream == meta.stream,
        meta.state() == WsState::Open ==> meta.send_result(message)->Ok_0.decode() == Ok::<
            MessageView,
            WsErr,
        >(message),
{
}

/// The messages that a sequence of payloads carries.
pub open spec fn decoded(payloads: Seq<PayloadView>) -> Seq<MessageView> {
    payloads.map_values(|payload: PayloadView| payload.decode()->Ok_0)
}

/// While the connection is `Open` and its queue unbounded, a run of payloads
/// that all carry a message only fills the queue, each message behind the
/// one before it.
proof fn lemma_messages_fill_queue(meta: MetaView, payloads: Seq<PayloadView>)
    requires
        meta.state() == WsState::Open,
        meta.stream.limit is None,
        !meta.stream.ended(),
        forall|i: int| 0 <= i < payloads.len() ==> (#[trigger] payloads[i]).decode() is Ok,
    ensures
        meta.on_messages(payloads) == (MetaView {
            stream: meta.stream.accept_all(decoded(payloads)),
            ..meta
        }),
        meta.on_messages(payloads).stream.limit is None,
        !meta.on_messages(payloads).stream.ended(),
    decreases payloads.len(),
{
    if payloads.len() == 0 {
        assert(decoded(payloads) =~= Seq::empty());
    } else {
        let earlier = payloads.drop_last();
        lemma_messages_fill_queue(meta, earlier);
        assert(decoded(payloads).drop_last() =~= decoded(earlier));
        assert(decoded(payloads).last() == payloads.last().decode()->Ok_0);
        crate::ws_stream::law_unbounded_queue_takes_all(meta.stream, decoded(earlier));
    }
}

/// Messages are pulled in the order in which the host delivered them. After
/// a run of payloads arrived on an open connection with an empty, unbounded
/// queue, the pulls yield their messages one by one, first come first, and
/// then `Pending`: the end of the sequence is not reported while the
/// connection lives. Once the host has closed the connection, the pulls
/// yield the same messages and after them the end.
pub proof fn law_messages_arrive_in_order(
    meta: MetaView,
    payloads: Seq<PayloadView>,
    close: CloseView,
    n: nat,
)
    requires
        meta.state() == WsState::Open,
        meta.stream.limit is None,
        !meta.stream.ended(),
        meta.stream.queue.len() == 0,
        forall|i: int| 0 <= i < payloads.len() ==> (#[trigger] payloads[i]).decode() is Ok,
    ensures
        ({
            let after = meta.on_messages(payloads);
            let closed = after.on_event(EventView::Closed(close));
            &&& after.state() == WsState::Open
            &&& after.fault == meta.fault
            &&& after.stream.queue == decoded(payloads)
            &&& closed.state() == WsState::Closed
            &&& n < payloads.len() ==> after.stream.nth_next(n) == NextView::Item(
                payloads[n as int].decode()->Ok_0,
            ) && closed.stream.nth_next(n) == NextView::Item(payloads[n as int].decode()->Ok_0)
            &&& n >= payloads.len() ==> after.stream.nth_next(n) == NextView::Pending
                && closed.stream.nth_next(n) == NextView::End
        }),
{
    lemma_messages_fill_queue(meta, payloads);
    crate::ws_stream::law_unbounded_queue_takes_all(meta.stream, decoded(payloads));
    assert(meta.stream.queue + decoded(payloads) =~= decoded(payloads));
    law_delivery_order(meta.stream, decoded(payloads), n);
}

/// No consumer waits for ever: when the host closes the connection while
/// the consumer of the stream waits, the callback says to wake it, and its
/// next pull finds the end of the sequence.
pub proof fn law_close_wakes_reader(meta: MetaView, close: CloseView)
    requires
        meta.wf(),
        meta.stream.parked,
    ensures
        meta.state() != WsState::Closed,
        meta.event_result(EventView::Closed(close)) is Ok,
        meta.event_result(EventView::Closed(close))->Ok_0.reader,
        meta.on_event(EventView::Closed(close)).stream.next_result() is End,
        !meta.on_event(EventView::Closed(close)).stream.parked,
{
}

} // verus!
