//! Life-cycle events of a connection, and filters over them.

use vstd::prelude::*;

verus! {

/// What the host reports when a connection has closed.
#[derive(Debug, PartialEq, Eq)]
pub struct CloseEvent {
    /// The close code given by the peer or the host.
    pub code: u16,
    /// The reason given for closing; may be empty.
    pub reason: String,
    /// Whether the closing handshake completed.
    pub was_clean: bool,
}

/// The mathematical value of a [`CloseEvent`].
pub struct CloseView {
    pub code: u16,
    pub reason: Seq<char>,
    pub was_clean: bool,
}

impl View for CloseEvent {
    type V = CloseView;

    open spec fn view(&self) -> CloseView {
        CloseView { code: self.code, reason: self.reason@, was_clean: self.was_clean }
    }
}

impl Clone for CloseEvent {
    fn clone(&self) -> (copy: Self)
        ensures
            copy@ == self@,
    {
        CloseEvent { code: self.code, reason: self.reason.clone(), was_clean: self.was_clean }
    }
}

/// A change in the life cycle of a connection.
#[derive(Debug, PartialEq, Eq)]
pub enum WsEvent {
    /// The connection is established.
    Open,
    /// The host reported an error on the connection.
    Error,
    /// A close of the connection has been initiated.
    Closing,
    /// The connection has closed.
    Closed(CloseEvent),
}

/// The mathematical value of a [`WsEvent`].
pub enum EventView {
    Open,
    Error,
    Closing,
    Closed(CloseView),
}

impl View for WsEvent {
    type V = EventView;

    open spec fn view(&self) -> EventView {
        match self {
            WsEvent::Open => EventView::Open,
            WsEvent::Error => EventView::Error,
            WsEvent::Closing => EventView::Closing,
            WsEvent::Closed(close) => EventView::Closed(close@),
        }
    }
}

impl Clone for WsEvent {
    fn clone(&self) -> (copy: Self)
        ensures
            copy@ == self@,
    {
        match self {
            WsEvent::Open => WsEvent::Open,
            WsEvent::Error => WsEvent::Error,
            WsEvent::Closing => WsEvent::Closing,
            WsEvent::Closed(close) => WsEvent::Closed(close.clone()),
        }
    }
}

impl WsEvent {
    /// Whether this is the `Open` event.
    pub fn is_open(&self) -> (r: bool)
        ensures
            r == (self@ is Open),
    {
        match self {
            WsEvent::Open => true,
            _ => false,
        }
    }

    /// Whether this is the `Error` event.
    pub fn is_err(&self) -> (r: bool)
        ensures
            r == (self@ is Error),
    {
        match self {
            WsEvent::Error => true,
            _ => false,
        }
    }

    /// Whether this is the `Closing` event.
    pub fn is_closing(&self) -> (r: bool)
        ensures
            r == (self@ is Closing),
    {
        match self {
            WsEvent::Closing => true,
            _ => false,
        }
    }

    /// Whether this is a `Closed` event.
    pub fn is_closed(&self) -> (r: bool)
        ensures
            r == (self@ is Closed),
    {
        match self {
            WsEvent::Closed(_) => true,
            _ => false,
        }
    }
}

/// A predicate over events that looks at the kind of event only: for each
/// of the four kinds it says whether events of that kind pass.
#[derive(Debug, Clone, Copy, PartialEq, Eq, Hash, Structural)]
pub struct Filter {
    /// `Open` events pass.
    pub open: bool,
    /// `Error` events pass.
    pub error: bool,
    /// `Closing` events pass.
    pub closing: bool,
    /// `Closed` events pass.
    pub closed: bool,
}

impl Filter {
    /// Whether the event passes the filter.
    pub open spec fn accepts(self, event: EventView) -> bool {
        match event {
            EventView::Open => self.open,
            EventView::Error => self.error,
            EventView::Closing => self.closing,
            EventView::Closed(_) => self.closed,
        }
    }

    /// Tests an event against the filter.
    pub fn test(&self, event: &WsEvent) -> (pass: bool)
        ensures
            pass == self.accepts(event@),
    {
        match event {
            WsEvent::Open => self.open,
            WsEvent::Error => self.error,
            WsEvent::Closing => self.closing,
            WsEvent::Closed(_) => self.closed,
        }
    }
}

} // verus!
