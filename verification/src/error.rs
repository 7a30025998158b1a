//! The failures that the connection, its event notifier and its message
//! stream report.

use vstd::prelude::*;

verus! {

/// Everything that can go wrong on a connection, as a typed value.
#[derive(Debug, Clone, Copy, PartialEq, Eq, Hash, Structural)]
pub enum WsErr {
    /// The host reported an event that is illegal in the connection's current phase.
    InvalidTransition,
    /// A send or a close was attempted in a phase that does not allow it.
    NotOpen,
    /// A text payload did not hold valid text.
    InvalidEncoding,
    /// A payload was of a kind that cannot become a message.
    UnsupportedPayload,
    /// A bounded inbound queue was full when a message arrived.
    QueueOverflow,
    /// The notifier was handed a subscription it never issued, or can issue no further one.
    InconsistentObserver,
}

impl WsErr {
    /// A short human-readable account of the failure.
    pub fn description(&self) -> (text: &'static str)
        ensures
            text@ == self.description_spec(),
    {
        match self {
            WsErr::InvalidTransition => "The event is not legal in the connection's current state.",
            WsErr::NotOpen => "The connection state is not \"Open\".",
            WsErr::InvalidEncoding => "Received text message that could not be decoded as valid text.",
            WsErr::UnsupportedPayload => "Received a payload of a kind that cannot be decoded.",
            WsErr::QueueOverflow => "The inbound queue is full.",
            WsErr::InconsistentObserver => "The subscription is not known to this notifier.",
        }
    }

    /// The text that `description` returns for each failure.
    pub open spec fn description_spec(self) -> Seq<char> {
        match self {
            WsErr::InvalidTransition => "The event is not legal in the connection's current state."@,
            WsErr::NotOpen => "The connection state is not \"Open\"."@,
            WsErr::InvalidEncoding => "Received text message that could not be decoded as valid text."@,
            WsErr::UnsupportedPayload => "Received a payload of a kind that cannot be decoded."@,
            WsErr::QueueOverflow => "The inbound queue is full."@,
            WsErr::InconsistentObserver => "The subscription is not known to this notifier."@,
        }
    }
}

} // verus!
