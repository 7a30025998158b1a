//! The phases of a connection and the state machine that moves between them.

use crate::error::WsErr;
use crate::ws_event::{EventView, WsEvent};
use vstd::prelude::*;

verus! {

/// The phase a connection is in.
#[derive(Debug, Clone, Copy, PartialEq, Eq, Hash, Structural)]
pub enum WsState {
    /// The connection is being established.
    Connecting,
    /// Messages can be sent and received.
    Open,
    /// A close was requested and awaits the host's confirmation.
    Closing,
    /// The connection is gone for good.
    Closed,
}

impl WsState {
    /// Position of the phase in the life cycle, from 0 for `Connecting` to 3
    /// for `Closed`.
    pub open spec fn rank(self) -> nat {
        match self {
            WsState::Connecting => 0,
            WsState::Open => 1,
            WsState::Closing => 2,
            WsState::Closed => 3,
        }
    }

    /// The transition table. The phase that follows `self` when the host
    /// reports `event`, or `None` where the event is illegal in this phase.
    ///
    /// | from       | event   | to      |
    /// |------------|---------|---------|
    /// | Connecting | Open    | Open    |
    /// | Connecting | Closed  | Closed  |
    /// | Open       | Closing | Closing |
    /// | Open       | Closed  | Closed  |
    /// | Closing    | Closed  | Closed  |
    ///
    /// An `Error` event is legal in every phase and changes none.
    pub open spec fn after(self, event: EventView) -> Option<WsState> {
        match (self, event) {
            (_, EventView::Error) => Some(self),
            (WsState::Connecting, EventView::Open) => Some(WsState::Open),
            (WsState::Connecting, EventView::Closed(_)) => Some(WsState::Closed),
            (WsState::Open, EventView::Closing) => Some(WsState::Closing),
            (WsState::Open, EventView::Closed(_)) => Some(WsState::Closed),
            (WsState::Closing, EventView::Closed(_)) => Some(WsState::Closed),
            _ => None,
        }
    }

    /// Whether a close can be requested in this phase: while connecting and
    /// while open.
    pub open spec fn can_close(self) -> bool {
        self == WsState::Connecting || self == WsState::Open
    }

    /// The phase reached from `self` by a sequence of events, or `None` if one
    /// of them is illegal where it comes.
    pub open spec fn replay(self, events: Seq<EventView>) -> Option<WsState>
        decreases events.len(),
    {
        if events.len() == 0 {
            Some(self)
        } else {
            match self.replay(events.drop_last()) {
                Some(state) => state.after(events.last()),
                None => None,
            }
        }
    }

    /// Whether messages can be sent in this phase.
    pub fn is_open(&self) -> (r: bool)
        ensures
            r == (*self == WsState::Open),
    {
        match self {
            WsState::Open => true,
            _ => false,
        }
    }
}

/// The mathematical value of a [`StateMachine`].
pub struct MachineView {
    /// The current phase.
    pub state: WsState,
    /// Whether the host has reported an error so far.
    pub saw_error: bool,
}

impl MachineView {
    /// The machine after a legal event, or `None` where the event is illegal.
    pub open spec fn apply(self, event: EventView) -> Option<MachineView> {
        match self.state.after(event) {
            Some(state) => Some(
                MachineView { state, saw_error: self.saw_error || event is Error },
            ),
            None => None,
        }
    }

    /// The machine after a close was requested in a phase that allows it.
    pub open spec fn closing(self) -> MachineView {
        MachineView { state: WsState::Closing, saw_error: self.saw_error }
    }
}

/// Tracks the phase of one connection and admits only the transitions of the
/// table.
#[derive(Debug)]
pub struct StateMachine {
    state: WsState,
    saw_error: bool,
}

impl View for StateMachine {
    type V = MachineView;

    closed spec fn view(&self) -> MachineView {
        MachineView { state: self.state, saw_error: self.saw_error }
    }
}

impl StateMachine {
    /// A machine for a connection that is being established.
    pub fn new() -> (machine: StateMachine)
        ensures
            machine@ == (MachineView { state: WsState::Connecting, saw_error: false }),
    {
        StateMachine { state: WsState::Connecting, saw_error: false }
    }

    /// The current phase.
    pub fn current(&self) -> (state: WsState)
        ensures
            state == self@.state,
    {
        self.state
    }

    /// Whether the host has reported an error at any time.
    pub fn saw_error(&self) -> (r: bool)
        ensures
            r == self@.saw_error,
    {
        self.saw_error
    }

    /// Applies the change of phase that `event` implies and returns the new
    /// phase. An `Error` event changes no phase and is recorded. An event
    /// that is illegal in the current phase is refused with
    /// `InvalidTransition` and leaves the machine as it was.
    pub fn transition(&mut self, event: &WsEvent) -> (r: Result<WsState, WsErr>)
        ensures
            match old(self)@.apply(event@) {
                Some(next) => r == Ok::<WsState, WsErr>(next.state) && final(self)@ == next,
                None => r == Err::<WsState, WsErr>(WsErr::InvalidTransition) && final(self)@ == old(self)@,
            },
    {
        let next = match (self.state, event) {
            (state, WsEvent::Error) => Some(state),
            (WsState::Connecting, WsEvent::Open) => Some(WsState::Open),
            (WsState::Connecting, WsEvent::Closed(_)) => Some(WsState::Closed),
            (WsState::Open, WsEvent::Closing) => Some(WsState::Closing),
            (WsState::Open, WsEvent::Closed(_)) => Some(WsState::Closed),
            (WsState::Closing, WsEvent::Closed(_)) => Some(WsState::Closed),
            _ => None,
        };
        match next {
            Some(state) => {
                if event.is_err() {
                    self.saw_error = true;
                }
                self.state = state;
                Ok(state)
            },
            None => Err(WsErr::InvalidTransition),
        }
    }

    /// Records that the application asked for the connection to be closed.
    /// While connecting or open the machine moves to `Closing` at once; in
    /// any other phase the request is refused with `NotOpen` and the machine
    /// stays as it was.
    pub fn request_close(&mut self) -> (r: Result<WsState, WsErr>)
        ensures
            old(self)@.state.can_close() ==> r == Ok::<WsState, WsErr>(WsState::Closing) && final(self)@ == old(self)@.closing(),
            !old(self)@.state.can_close() ==> r == Err::<WsState, WsErr>(WsErr::NotOpen) && final(self)@ == old(self)@,
    {
        match self.state {
            WsState::Connecting | WsState::Open => {
                self.state = WsState::Closing;
                Ok(WsState::Closing)
            },
            _ => Err(WsErr::NotOpen),
        }
    }
}

/// A legal event changes the phase only along the five edges of the table;
/// every other legal event leaves the phase as it is.
pub proof fn law_table_edges(from: WsState, event: EventView)
    ensures
        match from.after(event) {
            Some(to) => to == from || (from == WsState::Connecting && to == WsState::Open) || (from
                == WsState::Connecting && to == WsState::Closed) || (from == WsState::Open && to
                == WsState::Closing) || (from == WsState::Open && to == WsState::Closed) || (from
                == WsState::Closing && to == WsState::Closed),
            None => !(event is Error),
        },
        from.after(event) == Some(from) <==> event is Error,
{
}

/// No event and no close request ever moves a connection back: the rank of
/// the phase never falls.
pub proof fn law_rank_never_falls(machine: MachineView, event: EventView)
    ensures
        machine.apply(event) matches Some(next) ==> machine.state.rank() <= next.state.rank(),
        machine.state.can_close() ==> machine.state.rank() < machine.closing().state.rank(),
{
}

/// `Closed` is final: the only legal event is `Error`, which changes
/// nothing, and a close can no longer be requested.
pub proof fn law_closed_is_final(event: EventView)
    ensures
        WsState::Closed.after(event) == (if event is Error {
            Some(WsState::Closed)
        } else {
            None
        }),
        !WsState::Closed.can_close(),
{
}

/// Replaying a sequence of events goes through the table one event after the
/// other: the phase after `events` followed by `event` is the table's answer
/// for the phase after `events`.
pub proof fn law_replay_follows_table(from: WsState, events: Seq<EventView>, event: EventView)
    ensures
        from.replay(events.push(event)) == (match from.replay(events) {
            Some(state) => state.after(event),
            None => None,
        }),
        from.replay(Seq::empty()) == Some(from),
{
    assert(events.push(event).drop_last() =~= events);
}

/// Along any sequence of legal events the phase only advances, and from
/// `Closed` it does not change at all.
pub proof fn law_replay_only_advances(from: WsState, events: Seq<EventView>)
    ensures
        from.replay(events) matches Some(to) ==> from.rank() <= to.rank() && (from
            == WsState::Closed ==> to == WsState::Closed),
    decreases events.len(),
{
    if events.len() > 0 {
        law_replay_only_advances(from, events.drop_last());
    }
}

} // verus!
