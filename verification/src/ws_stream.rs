//! The message stream of a connection: a queue of inbound messages that a
//! consumer pulls from, and the guard on outbound messages.

use crate::error::WsErr;
use crate::ws_message::{MessageView, Payload, WsMessage};
use crate::ws_state::WsState;
use std::collections::VecDeque;
use vstd::prelude::*;

verus! {

/// What a pull on the stream yields.
#[derive(Debug, PartialEq, Eq)]
pub enum Next {
    /// The oldest message in the queue, which has left the queue.
    Item(WsMessage),
    /// The end of the sequence: no message is queued and none will come.
    End,
    /// No message is queued yet; the consumer waits until it is woken.
    Pending,
}

/// The mathematical value of a [`Next`].
pub enum NextView {
    Item(MessageView),
    End,
    Pending,
}

impl View for Next {
    type V = NextView;

    open spec fn view(&self) -> NextView {
        match self {
            Next::Item(msg) => NextView::Item(msg@),
            Next::End => NextView::End,
            Next::Pending => NextView::Pending,
        }
    }
}

/// The mathematical value of a [`WsStream`].
pub struct StreamView {
    /// The messages that arrived and were not pulled yet, oldest first.
    pub queue: Seq<MessageView>,
    /// The number of messages that the queue holds at most, if it is bounded.
    pub limit: Option<nat>,
    /// The connection has closed: no further message will arrive.
    pub finished: bool,
    /// The consumer has closed the stream.
    pub cancelled: bool,
    /// A consumer found the queue empty and waits to be woken.
    pub parked: bool,
}

impl StreamView {
    /// A consumer only waits at an empty queue of a stream that has not ended,
    /// and a stream that its consumer closed holds no messages.
    pub open spec fn wf(self) -> bool {
        &&& self.parked ==> self.queue.len() == 0 && !self.ended()
        &&& self.cancelled ==> self.queue.len() == 0
    }

    /// No further message will be taken into the queue.
    pub open spec fn ended(self) -> bool {
        self.finished || self.cancelled
    }

    /// The queue is bounded and holds as many messages as it may.
    pub open spec fn full(self) -> bool {
        self.limit matches Some(limit) && self.queue.len() >= limit
    }

    /// A fresh stream with the given bound.
    pub open spec fn empty(limit: Option<nat>) -> StreamView {
        StreamView {
            queue: Seq::empty(),
            limit,
            finished: false,
            cancelled: false,
            parked: false,
        }
    }

    /// The outcome of offering a message to the queue: the error where the
    /// stream has ended (`NotOpen`) or is full (`QueueOverflow`), else whether
    /// a waiting consumer is to be woken.
    pub open spec fn accept_result(self) -> Result<bool, WsErr> {
        if self.ended() {
            Err(WsErr::NotOpen)
        } else if self.full() {
            Err(WsErr::QueueOverflow)
        } else {
            Ok(self.parked)
        }
    }

    /// The stream after a message was offered: with the message at the back
    /// of the queue if it was taken, unchanged if it was refused.
    pub open spec fn accept(self, msg: MessageView) -> StreamView {
        if self.accept_result() is Ok {
            StreamView { queue: self.queue.push(msg), parked: false, ..self }
        } else {
            self
        }
    }

    /// The stream after each of `msgs` was offered in turn.
    pub open spec fn accept_all(self, msgs: Seq<MessageView>) -> StreamView
        decreases msgs.len(),
    {
        if msgs.len() == 0 {
            self
        } else {
            self.accept_all(msgs.drop_last()).accept(msgs.last())
        }
    }

    /// What a pull yields: the oldest message, or the end of the sequence if
    /// the queue is empty and the stream has ended, or `Pending`.
    pub open spec fn next_result(self) -> NextView {
        if self.queue.len() > 0 {
            NextView::Item(self.queue[0])
        } else if self.ended() {
            NextView::End
        } else {
            NextView::Pending
        }
    }

    /// The stream after a pull: without its oldest message, or with the
    /// consumer waiting.
    pub open spec fn next(self) -> StreamView {
        if self.queue.len() > 0 {
            StreamView { queue: self.queue.drop_first(), ..self }
        } else if self.ended() {
            self
        } else {
            StreamView { parked: true, ..self }
        }
    }

    /// What the pull after `n` earlier pulls yields.
    pub open spec fn nth_next(self, n: nat) -> NextView
        decreases n,
    {
        if n == 0 {
            self.next_result()
        } else {
            self.next().nth_next((n - 1) as nat)
        }
    }

    /// The stream after the connection has closed: what is queued stays to
    /// be pulled.
    pub open spec fn finish(self) -> StreamView {
        StreamView { finished: true, parked: false, ..self }
    }

    /// The stream after its consumer closed it: what was queued is dropped.
    pub open spec fn cancel(self) -> StreamView {
        StreamView { queue: Seq::empty(), cancelled: true, parked: false, ..self }
    }
}

/// The inbound queue of a connection with its consumer's side, and the guard
/// on what goes out.
///
/// Messages are pulled in the order in which they arrived. A message that was
/// taken into the queue stays there until it is pulled, unless the consumer
/// closes the stream. A bounded queue that is full refuses a message with
/// `QueueOverflow`; it never drops one silently.
#[derive(Debug)]
pub struct WsStream {
    queue: VecDeque<WsMessage>,
    limit: Option<usize>,
    finished: bool,
    cancelled: bool,
    parked: bool,
}

impl View for WsStream {
    type V = StreamView;

    closed spec fn view(&self) -> StreamView {
        StreamView {
            queue: self.queue@.map_values(|msg: WsMessage| msg@),
            limit: match self.limit {
                Some(limit) => Some(limit as nat),
                None => None,
            },
            finished: self.finished,
            cancelled: self.cancelled,
            parked: self.parked,
        }
    }
}

impl WsStream {
    /// A stream with an empty queue, bounded by `limit` messages or unbounded.
    pub fn new(limit: Option<usize>) -> (stream: WsStream)
        ensures
            stream@ == StreamView::empty(
                match limit {
                    Some(limit) => Some(limit as nat),
                    None => None,
                },
            ),
            stream@.wf(),
    {
        let stream = WsStream {
            queue: VecDeque::new(),
            limit,
            finished: false,
            cancelled: false,
            parked: false,
        };
        assert(stream@.queue =~= Seq::empty());
        stream
    }

    /// The number of messages that wait to be pulled.
    pub fn len(&self) -> (n: usize)
        ensures
            n == self@.queue.len(),
    {
        self.queue.len()
    }

    /// Whether no message waits to be pulled.
    pub fn is_empty(&self) -> (r: bool)
        ensures
            r == (self@.queue.len() == 0),
    {
        self.queue.len() == 0
    }

    /// The bound of the queue, if it has one.
    pub fn limit(&self) -> (limit: Option<usize>)
        ensures
            match limit {
                Some(n) => self@.limit == Some(n as nat),
                None => self@.limit is None,
            },
    {
        self.limit
    }

    /// Whether no further message will be taken into the queue.
    pub fn is_ended(&self) -> (r: bool)
        ensures
            r == self@.ended(),
    {
        self.finished || self.cancelled
    }

    /// Whether a consumer waits to be woken.
    pub fn is_parked(&self) -> (r: bool)
        ensures
            r == self@.parked,
    {
        self.parked
    }

    /// Offers an arrived message to the queue. A stream that has ended
    /// refuses it with `NotOpen`, a full queue with `QueueOverflow`; the
    /// stream is then unchanged. Otherwise the message goes to the back of
    /// the queue, and the result says whether a waiting consumer is to be
    /// woken.
    pub fn accept(&mut self, msg: WsMessage) -> (r: Result<bool, WsErr>)
        requires
            old(self)@.wf(),
        ensures
            r == old(self)@.accept_result(),
            final(self)@ == old(self)@.accept(msg@),
            final(self)@.wf(),
    {
        if self.finished || self.cancelled {
            return Err(WsErr::NotOpen);
        }
        let full = match self.limit {
            Some(limit) => self.queue.len() >= limit,
            None => false,
        };
        if full {
            return Err(WsErr::QueueOverflow);
        }
        let wake = self.parked;
        self.queue.push_back(msg);
        self.parked = false;
        assert(self@.queue =~= old(self)@.queue.push(msg@));
        Ok(wake)
    }

    /// Pulls the next message. Yields the oldest queued message; at an empty
    /// queue the end of the sequence if the stream has ended, and else
    /// `Pending`, after which the consumer counts as waiting.
    pub fn next(&mut self) -> (r: Next)
        requires
            old(self)@.wf(),
        ensures
            r@ == old(self)@.next_result(),
            final(self)@ == old(self)@.next(),
            final(self)@.wf(),
    {
        match self.queue.pop_front() {
            Some(msg) => {
                assert(self@.queue =~= old(self)@.queue.drop_first());
                Next::Item(msg)
            },
            None => {
                assert(self@.queue =~= old(self)@.queue);
                if self.finished || self.cancelled {
                    Next::End
                } else {
                    self.parked = true;
                    Next::Pending
                }
            },
        }
    }

    /// Tells the stream that the connection has closed. The queued messages
    /// stay to be pulled; after them the sequence ends. Returns whether a
    /// waiting consumer is to be woken.
    pub fn finish(&mut self) -> (wake: bool)
        requires
            old(self)@.wf(),
        ensures
            wake == old(self)@.parked,
            final(self)@ == old(self)@.finish(),
            final(self)@.wf(),
    {
        let wake = self.parked;
        self.finished = true;
        self.parked = false;
        wake
    }

    /// Closes the stream on behalf of its consumer. The queued messages are
    /// dropped and the sequence ends. Returns whether a waiting consumer is
    /// to be woken.
    pub fn cancel(&mut self) -> (wake: bool)
        requires
            old(self)@.wf(),
        ensures
            wake == old(self)@.parked,
            final(self)@ == old(self)@.cancel(),
            final(self)@.wf(),
    {
        let wake = self.parked;
        self.queue.clear();
        self.cancelled = true;
        self.parked = false;
        assert(self@.queue =~= Seq::empty());
        wake
    }

    /// The guard on outbound messages. While the connection is `Open` the
    /// message is turned into the payload that the transport is to send;
    /// in every other phase it is refused with `NotOpen` and nothing is
    /// handed on. Nothing is queued on the way out.
    pub fn send(state: WsState, message: WsMessage) -> (r: Result<Payload, WsErr>)
        ensures
            state == WsState::Open ==> r is Ok && r->Ok_0@ == message@.encode(),
            state != WsState::Open ==> r == Err::<Payload, WsErr>(WsErr::NotOpen),
    {
        if state.is_open() {
            Ok(Payload::from(message))
        } else {
            Err(WsErr::NotOpen)
        }
    }
}

/// While the queue is unbounded and the stream has not ended, every message
/// is taken, and the queue grows by exactly the messages offered, in the
/// order in which they were offered.
pub proof fn law_unbounded_queue_takes_all(stream: StreamView, msgs: Seq<MessageView>)
    requires
        stream.limit is None,
        !stream.ended(),
    ensures
        stream.accept_all(msgs).queue == stream.queue + msgs,
        stream.accept_all(msgs).limit is None,
        !stream.accept_all(msgs).ended(),
    decreases msgs.len(),
{
    if msgs.len() > 0 {
        law_unbounded_queue_takes_all(stream, msgs.drop_last());
        assert(stream.accept_all(msgs).queue =~= stream.queue + msgs);
    } else {
        assert(stream.queue + msgs =~= stream.queue);
    }
}

/// Pulls yield the queued messages one by one, oldest first. Once the queue
/// is drained, a pull yields the end of the sequence if the stream has ended,
/// and `Pending` otherwise: the end is never reported while a message is
/// queued or while the stream is still live.
pub proof fn law_pulls_in_order(stream: StreamView, n: nat)
    ensures
        n < stream.queue.len() ==> stream.nth_next(n) == NextView::Item(stream.queue[n as int]),
        n >= stream.queue.len() ==> stream.nth_next(n) == (if stream.ended() {
            NextView::End
        } else {
            NextView::Pending
        }),
    decreases n,
{
    if n > 0 {
        law_pulls_in_order(stream.next(), (n - 1) as nat);
    }
}

/// What arrives is what is pulled: after `msgs` were offered to an empty,
/// unbounded, live stream, the pulls yield exactly `msgs` in their order, and
/// then `Pending`; once the connection has closed, they yield `msgs` and then
/// the end.
pub proof fn law_delivery_order(stream: StreamView, msgs: Seq<MessageView>, n: nat)
    requires
        stream.limit is None,
        !stream.ended(),
        stream.queue.len() == 0,
    ensures
        n < msgs.len() ==> stream.accept_all(msgs).nth_next(n) == NextView::Item(msgs[n as int]),
        n < msgs.len() ==> stream.accept_all(msgs).finish().nth_next(n) == NextView::Item(
            msgs[n as int],
        ),
        n >= msgs.len() ==> stream.accept_all(msgs).nth_next(n) == NextView::Pending,
        n >= msgs.len() ==> stream.accept_all(msgs).finish().nth_next(n) == NextView::End,
{
    law_unbounded_queue_takes_all(stream, msgs);
    assert(stream.queue + msgs =~= msgs);
    law_pulls_in_order(stream.accept_all(msgs), n);
    law_pulls_in_order(stream.accept_all(msgs).finish(), n);
}

/// A consumer that waits is woken when the stream ends, and then finds the
/// end of the sequence instead of waiting for ever.
pub proof fn law_end_wakes_consumer(stream: StreamView)
    requires
        stream.wf(),
        stream.next_result() is Pending,
    ensures
        stream.next().parked,
        stream.next().finish().next_result() is End,
        stream.next().cancel().next_result() is End,
        !stream.next().finish().parked,
        !stream.next().cancel().parked,
{
}

} // verus!
