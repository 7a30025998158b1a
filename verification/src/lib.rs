//! A client-side socket connection modelled as a verified state machine:
//! connection life cycle, event fan-out and a buffered message stream.

pub mod error;
pub mod notifier;
pub mod ws_event;
pub mod ws_message;
pub mod ws_meta;
pub mod ws_state;
pub mod ws_stream;

pub use error::WsErr;
pub use notifier::{Delivery, Notifier, SubscriptionHandle};
pub use ws_event::{CloseEvent, Filter, WsEvent};
pub use ws_message::{Message, Payload, WsMessage};
pub use ws_meta::{CloseRequest, Wakeups, WsMeta};
pub use ws_state::{StateMachine, WsState};
pub use ws_stream::{Next, WsStream};
