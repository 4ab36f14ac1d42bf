//! Run caller-supplied asynchronous protocol functions over negotiated substreams.
//!
//! A [`Handler`] owns the single execution slot of one connection: it pairs a protocol
//! function with its substream and polls the task that the function returns until the
//! task has ended, which it reports once. A [`Behaviour`] keeps the requests of peers
//! that are not connected yet, records through which addresses each peer is reached, and
//! hands the outcomes that the handlers report on to the application, addressed by peer.

pub mod behaviour;
pub mod behaviour_lemmas;
pub mod handler;
pub mod handler_lemmas;
pub mod network;
pub mod peers;
pub mod protocol;

pub use behaviour::{Behaviour, BehaviourAction, BehaviourOutEvent, BehaviourView};
pub use handler::{
    Handler, HandlerEvent, InboundProtocolState, OutboundProtocolState, Polled, ProtocolState,
};
pub use peers::ConnectedPeers;
pub use protocol::{
    InboundSubstream, OutboundSubstream, ProtocolInEvent, ProtocolInfo, ProtocolOutEvent,
    UsageError,
};
