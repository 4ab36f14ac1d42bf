//! The values that pass between the application, the behaviour and the handlers.

use vstd::prelude::*;

verus! {

/// The protocol name that both ends announce when a substream is negotiated.
pub struct ProtocolInfo {
    info: &'static [u8],
}

impl View for ProtocolInfo {
    type V = Seq<u8>;

    /// The bytes of the name.
    closed spec fn view(&self) -> Seq<u8> {
        self.info@
    }
}

impl ProtocolInfo {
    /// The protocol named `info`.
    pub fn new(info: &'static [u8]) -> (protocol: Self)
        ensures
            protocol@ == info@,
    {
        Self { info }
    }

    /// The bytes of the name, as they were given to [`ProtocolInfo::new`].
    pub fn protocol_info(&self) -> (info: &'static [u8])
        ensures
            info@ == self@,
    {
        self.info
    }
}

/// A substream that the remote has opened, negotiated for the protocol and ready for use.
pub struct InboundSubstream<S>(pub S);

/// A substream that this side has opened, negotiated for the protocol and ready for use.
pub struct OutboundSubstream<S>(pub S);

/// A request to a handler: run this protocol function on the next substream of its
/// direction.
pub enum ProtocolInEvent<FI, FO> {
    /// Run the function on a substream that the remote opens.
    ExecuteInbound(FI),
    /// Run the function on a substream that this side opens.
    ExecuteOutbound(FO),
}

/// How a request to a handler ended.
pub enum ProtocolOutEvent<I, O, E> {
    /// What the inbound protocol function ended with.
    Inbound(Result<I, E>),
    /// What the outbound protocol function ended with.
    Outbound(Result<O, E>),
    /// The outbound substream could not be negotiated, so the outbound protocol function
    /// was never called.
    DialUpgradeError,
}

/// Why a handler has no use for a request or a substream in the state its slot is in.
/// To hand it over all the same is a mistake of the caller, which the functions of the
/// handler leave out by their `requires`.
#[derive(Clone, Copy, Debug, PartialEq, Eq, Structural)]
pub enum UsageError {
    /// A substream arrived while the slot already holds one, runs a task, has a failed
    /// negotiation to report or is done.
    SubstreamAlreadyPresent,
    /// An outbound substream arrived for a slot that holds no request, so that nobody can
    /// have asked for it.
    SubstreamNotRequested,
    /// An inbound substream arrived while the slot serves an outbound request.
    InboundSubstreamInOutboundProtocol,
    /// An outbound substream arrived while the slot serves an inbound request.
    OutboundSubstreamInInboundProtocol,
    /// A protocol function arrived while the slot already holds one, runs a task, has a
    /// failed negotiation to report or is done.
    ProtocolFnAlreadyPresent,
    /// An inbound protocol function arrived while the slot serves an outbound request.
    InboundFnInOutboundProtocol,
    /// An outbound protocol function arrived while the slot serves an inbound request.
    OutboundFnInInboundProtocol,
}

impl UsageError {
    /// The text of [`UsageError::message`].
    pub open spec fn text(self) -> Seq<char> {
        match self {
            UsageError::SubstreamAlreadyPresent => "Illegal state, substream is already present."@,
            UsageError::SubstreamNotRequested =>
                "Illegal state, receiving substream means it was requested."@,
            UsageError::InboundSubstreamInOutboundProtocol =>
                "Failed to process inbound substream in outbound protocol."@,
            UsageError::OutboundSubstreamInInboundProtocol =>
                "Failed to process outbound substream in inbound protocol."@,
            UsageError::ProtocolFnAlreadyPresent =>
                "Illegal state, protocol fn is already present."@,
            UsageError::InboundFnInOutboundProtocol =>
                "Failed to process inbound protocol fn in outbound protocol."@,
            UsageError::OutboundFnInInboundProtocol =>
                "Failed to process outbound protocol fn in inbound protocol."@,
        }
    }

    /// A sentence that says what went wrong.
    pub fn message(&self) -> (message: &'static str)
        ensures
            message@ == self.text(),
    {
        match self {
            UsageError::SubstreamAlreadyPresent => "Illegal state, substream is already present.",
            UsageError::SubstreamNotRequested => {
                "Illegal state, receiving substream means it was requested."
            },
            UsageError::InboundSubstreamInOutboundProtocol => {
                "Failed to process inbound substream in outbound protocol."
            },
            UsageError::OutboundSubstreamInInboundProtocol => {
                "Failed to process outbound substream in inbound protocol."
            },
            UsageError::ProtocolFnAlreadyPresent => {
                "Illegal state, protocol fn is already present."
            },
            UsageError::InboundFnInOutboundProtocol => {
                "Failed to process inbound protocol fn in outbound protocol."
            },
            UsageError::OutboundFnInInboundProtocol => {
                "Failed to process outbound protocol fn in inbound protocol."
            },
        }
    }
}

} // verus!
