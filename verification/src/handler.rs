//! The execution slot of one connection.
//!
//! A slot takes a protocol function and the substream of its direction, in either order
//! for the inbound direction, calls the function on the substream and polls the task that
//! comes back until it is ready. It serves one request in its life: once it has reported
//! how the request ended the slot is done, and stays so.

use crate::network::poll_task;
use crate::protocol::{
    InboundSubstream, OutboundSubstream, ProtocolInEvent, ProtocolInfo, ProtocolOutEvent,
    UsageError,
};
use std::future::Future;
use std::task::Context;
use vstd::prelude::*;

verus! {

/// Whether `function` may be called on every substream.
pub open spec fn accepts_every<F: FnOnce(S) -> P, S, P>(function: F) -> bool {
    forall|substream: S| call_requires(function, (substream,))
}

/// Whether the protocol function that `event` carries may be called on every substream
/// of its direction.
pub open spec fn accepts_every_substream<FI, FO, S, PI, PO>(
    event: ProtocolInEvent<FI, FO>,
) -> bool where FI: FnOnce(InboundSubstream<S>) -> PI, FO: FnOnce(OutboundSubstream<S>) -> PO {
    match event {
        ProtocolInEvent::ExecuteInbound(function) => accepts_every::<FI, InboundSubstream<S>, PI>(
            function,
        ),
        ProtocolInEvent::ExecuteOutbound(function) => accepts_every::<FO, OutboundSubstream<S>, PO>(
            function,
        ),
    }
}

/// A slot that serves the inbound direction.
pub enum InboundProtocolState<F, S, P> {
    /// The function is here and waits for the substream.
    GotFunctionNeedSubstream(F),
    /// The substream is here and waits for the function.
    GotSubstreamNeedFunction(S),
    /// The task that the function made of the substream is running.
    Executing(P),
}

/// A slot that serves the outbound direction.
pub enum OutboundProtocolState<F, P> {
    /// The function is here; no substream has been asked for yet.
    GotFunctionNeedSubstream(F),
    /// The function is here and a substream has been asked for.
    GotFunctionRequestedSubstream(F),
    /// The task that the function made of the substream is running.
    Executing(P),
    /// The substream could not be negotiated; the next poll reports it.
    UpgradeFailed,
}

/// What a slot holds.
pub enum ProtocolState<FI, FO, S, PI, PO> {
    /// Nothing yet.
    Empty,
    Inbound(InboundProtocolState<FI, InboundSubstream<S>, PI>),
    Outbound(OutboundProtocolState<FO, PO>),
    /// The outcome has been reported.
    Done,
}

/// What polling a task gave.
pub enum Polled<P, T> {
    /// The task has ended with this output, and is no more.
    Ready(T),
    /// The task has not ended yet: here it is, as far as it got.
    Pending(P),
}

/// What a handler asks of its environment, or tells it, when it is polled.
pub enum HandlerEvent<I, O, E> {
    /// Negotiate an outbound substream for this protocol and hand it to
    /// [`Handler::inject_fully_negotiated_outbound`].
    OutboundSubstreamRequest { protocol: ProtocolInfo },
    /// The protocol function has ended.
    Custom(ProtocolOutEvent<I, O, E>),
}

impl<FI, FO, S, PI, PO> ProtocolState<FI, FO, S, PI, PO> {
    /// Whether the slot runs a task.
    pub open spec fn is_executing(self) -> bool {
        ||| self is Inbound && self->Inbound_0 is Executing
        ||| self is Outbound && self->Outbound_0 is Executing
    }

    /// Whether the slot has taken a request that is not answered yet: it holds the
    /// protocol function, runs its task, or has the failure of its substream to report.
    pub open spec fn has_request(self) -> bool {
        ||| self is Inbound && !(self->Inbound_0 is GotSubstreamNeedFunction)
        ||| self is Outbound
    }

    /// Whether the next poll of the slot reports how its request ended, if the task is
    /// ready: the slot runs a task or has a failure to report.
    pub open spec fn is_reporting(self) -> bool {
        self.is_executing() || (self is Outbound && self->Outbound_0 is UpgradeFailed)
    }

    /// Whether every protocol function that waits in the slot may be called on whichever
    /// substream arrives for it.
    pub open spec fn callable(self) -> bool where
        FI: FnOnce(InboundSubstream<S>) -> PI,
        FO: FnOnce(OutboundSubstream<S>) -> PO,
     {
        match self {
            ProtocolState::Inbound(InboundProtocolState::GotFunctionNeedSubstream(function)) =>
                accepts_every::<FI, InboundSubstream<S>, PI>(function),
            ProtocolState::Outbound(OutboundProtocolState::GotFunctionNeedSubstream(function)) =>
                accepts_every::<FO, OutboundSubstream<S>, PO>(function),
            ProtocolState::Outbound(
                OutboundProtocolState::GotFunctionRequestedSubstream(function),
            ) => accepts_every::<FO, OutboundSubstream<S>, PO>(function),
            _ => true,
        }
    }

    /// Why a slot that holds `self` has no use for an inbound substream, if it has none.
    ///
    /// An empty slot and a slot in which the inbound function waits take the substream.
    /// Every other slot refuses it.
    pub open spec fn inbound_substream_refusal(self) -> Option<UsageError> {
        match self {
            ProtocolState::Empty => None,
            ProtocolState::Inbound(InboundProtocolState::GotFunctionNeedSubstream(_)) => None,
            ProtocolState::Inbound(_) | ProtocolState::Done => Some(
                UsageError::SubstreamAlreadyPresent,
            ),
            ProtocolState::Outbound(_) => Some(UsageError::InboundSubstreamInOutboundProtocol),
        }
    }

    /// Whether a slot that holds `self` may hold `post` once it has taken the inbound
    /// `substream`.
    ///
    /// An empty slot keeps the substream. A slot in which the inbound function waits
    /// runs the task that the function makes of the substream. No other slot takes an
    /// inbound substream.
    pub open spec fn inbound_substream(self, substream: InboundSubstream<S>, post: Self) -> bool where
        FI: FnOnce(InboundSubstream<S>) -> PI,
     {
        match self {
            ProtocolState::Empty => post == ProtocolState::<FI, FO, S, PI, PO>::Inbound(
                InboundProtocolState::GotSubstreamNeedFunction(substream),
            ),
            ProtocolState::Inbound(InboundProtocolState::GotFunctionNeedSubstream(function)) => {
                &&& post matches ProtocolState::Inbound(InboundProtocolState::Executing(protocol))
                &&& call_ensures(function, (substream,), protocol)
            },
            _ => false,
        }
    }

    /// Why a slot that holds `self` has no use for an outbound substream, if it has none.
    ///
    /// A slot in which the outbound function waits takes the substream, whether it has
    /// asked for it yet or not. Every other slot refuses it.
    pub open spec fn outbound_substream_refusal(self) -> Option<UsageError> {
        match self {
            ProtocolState::Outbound(OutboundProtocolState::GotFunctionNeedSubstream(_)) => None,
            ProtocolState::Outbound(OutboundProtocolState::GotFunctionRequestedSubstream(_)) =>
                None,
            ProtocolState::Empty => Some(UsageError::SubstreamNotRequested),
            ProtocolState::Outbound(_) | ProtocolState::Done => Some(
                UsageError::SubstreamAlreadyPresent,
            ),
            ProtocolState::Inbound(_) => Some(UsageError::OutboundSubstreamInInboundProtocol),
        }
    }

    /// Whether a slot that holds `self` may hold `post` once it has taken the outbound
    /// `substream`.
    ///
    /// A slot in which the outbound function waits runs the task that the function makes
    /// of the substream. No other slot takes an outbound substream.
    pub open spec fn outbound_substream(self, substream: OutboundSubstream<S>, post: Self) -> bool where
        FO: FnOnce(OutboundSubstream<S>) -> PO,
     {
        match self {
            ProtocolState::Outbound(OutboundProtocolState::GotFunctionNeedSubstream(function)) => {
                &&& post matches ProtocolState::Outbound(OutboundProtocolState::Executing(protocol))
                &&& call_ensures(function, (substream,), protocol)
            },
            ProtocolState::Outbound(
                OutboundProtocolState::GotFunctionRequestedSubstream(function),
            ) => {
                &&& post matches ProtocolState::Outbound(OutboundProtocolState::Executing(protocol))
                &&& call_ensures(function, (substream,), protocol)
            },
            _ => false,
        }
    }

    /// Why a slot that holds `self` has no use for the request `event`, if it has none.
    ///
    /// An empty slot takes a request of either direction, and a slot in which an inbound
    /// substream waits takes an inbound one. Every other slot refuses the request.
    pub open spec fn event_refusal(self, event: ProtocolInEvent<FI, FO>) -> Option<UsageError> {
        match event {
            ProtocolInEvent::ExecuteInbound(_) => match self {
                ProtocolState::Empty => None,
                ProtocolState::Inbound(InboundProtocolState::GotSubstreamNeedFunction(_)) => None,
                ProtocolState::Inbound(_) | ProtocolState::Done => Some(
                    UsageError::ProtocolFnAlreadyPresent,
                ),
                ProtocolState::Outbound(_) => Some(UsageError::InboundFnInOutboundProtocol),
            },
            ProtocolInEvent::ExecuteOutbound(_) => match self {
                ProtocolState::Empty => None,
                ProtocolState::Outbound(_) | ProtocolState::Done => Some(
                    UsageError::ProtocolFnAlreadyPresent,
                ),
                ProtocolState::Inbound(_) => Some(UsageError::OutboundFnInInboundProtocol),
            },
        }
    }

    /// Whether a slot that holds `self` may hold `post` once it has taken the request
    /// `event`.
    ///
    /// An empty slot keeps the function. A slot in which an inbound substream waits
    /// runs the task that an inbound function makes of it. No other slot takes a
    /// request.
    pub open spec fn submitted(self, event: ProtocolInEvent<FI, FO>, post: Self) -> bool where
        FI: FnOnce(InboundSubstream<S>) -> PI,
     {
        match (event, self) {
            (ProtocolInEvent::ExecuteInbound(function), ProtocolState::Empty) => post
                == ProtocolState::<FI, FO, S, PI, PO>::Inbound(
                InboundProtocolState::GotFunctionNeedSubstream(function),
            ),
            (
                ProtocolInEvent::ExecuteInbound(function),
                ProtocolState::Inbound(InboundProtocolState::GotSubstreamNeedFunction(substream)),
            ) => {
                &&& post matches ProtocolState::Inbound(InboundProtocolState::Executing(protocol))
                &&& call_ensures(function, (substream,), protocol)
            },
            (ProtocolInEvent::ExecuteOutbound(function), ProtocolState::Empty) => post
                == ProtocolState::<FI, FO, S, PI, PO>::Outbound(
                OutboundProtocolState::GotFunctionNeedSubstream(function),
            ),
            _ => false,
        }
    }

    /// The slot after the news that the outbound substream could not be negotiated.
    ///
    /// A slot that has asked for the substream gives its function up and has the failure
    /// to report. Every other slot has no use for the news and stays as it is.
    pub open spec fn dial_upgrade_failed(self) -> Self {
        match self {
            ProtocolState::Outbound(OutboundProtocolState::GotFunctionRequestedSubstream(_)) =>
                ProtocolState::Outbound(OutboundProtocolState::UpgradeFailed),
            _ => self,
        }
    }

    /// Whether a slot that holds `self`, of a handler for the protocol `name`, may hold
    /// `post` and answer `event` once it has been polled.
    ///
    /// A slot that runs a task either still runs it and answers nothing, or is done and
    /// answers with the outcome. A slot that has a failure to report is done and answers
    /// with the failure. A slot whose outbound function has no substream asked for asks
    /// for one, once. Every other slot answers nothing and stays as it is.
    pub open spec fn polled<I, O, E>(
        self,
        name: Seq<u8>,
        post: Self,
        event: Option<HandlerEvent<I, O, E>>,
    ) -> bool {
        match self {
            ProtocolState::Inbound(InboundProtocolState::Executing(_)) => match event {
                None => post is Inbound && post->Inbound_0 is Executing,
                Some(HandlerEvent::Custom(ProtocolOutEvent::Inbound(_))) => post is Done,
                _ => false,
            },
            ProtocolState::Outbound(OutboundProtocolState::Executing(_)) => match event {
                None => post is Outbound && post->Outbound_0 is Executing,
                Some(HandlerEvent::Custom(ProtocolOutEvent::Outbound(_))) => post is Done,
                _ => false,
            },
            ProtocolState::Outbound(OutboundProtocolState::UpgradeFailed) => {
                &&& post is Done
                &&& event == Some(
                    HandlerEvent::Custom(ProtocolOutEvent::<I, O, E>::DialUpgradeError),
                )
            },
            ProtocolState::Outbound(OutboundProtocolState::GotFunctionNeedSubstream(function)) => {
                &&& post == ProtocolState::<FI, FO, S, PI, PO>::Outbound(
                    OutboundProtocolState::GotFunctionRequestedSubstream(function),
                )
                &&& event matches Some(HandlerEvent::OutboundSubstreamRequest { protocol })
                &&& protocol@ == name
            },
            _ => post == self && event is None,
        }
    }

    /// What becomes of a slot whose inbound task has just been polled: with an output the
    /// slot is done and the output is the outcome to report; without one the slot runs
    /// the task on and there is nothing to report.
    pub fn inbound_polled<I, O, E>(polled: Polled<PI, Result<I, E>>) -> (next: (
        Self,
        Option<HandlerEvent<I, O, E>>,
    ))
        ensures
            match polled {
                Polled::Ready(outcome) => {
                    &&& next.0 is Done
                    &&& next.1 == Some(
                        HandlerEvent::Custom(ProtocolOutEvent::<I, O, E>::Inbound(outcome)),
                    )
                },
                Polled::Pending(protocol) => {
                    &&& next.0 == ProtocolState::<FI, FO, S, PI, PO>::Inbound(
                        InboundProtocolState::Executing(protocol),
                    )
                    &&& next.1 is None
                },
            },
    {
        match polled {
            Polled::Ready(outcome) => (
                ProtocolState::Done,
                Some(HandlerEvent::Custom(ProtocolOutEvent::Inbound(outcome))),
            ),
            Polled::Pending(protocol) => (
                ProtocolState::Inbound(InboundProtocolState::Executing(protocol)),
                None,
            ),
        }
    }

    /// What becomes of a slot whose outbound task has just been polled: with an output
    /// the slot is done and the output is the outcome to report; without one the slot
    /// runs the task on and there is nothing to report.
    pub fn outbound_polled<I, O, E>(polled: Polled<PO, Result<O, E>>) -> (next: (
        Self,
        Option<HandlerEvent<I, O, E>>,
    ))
        ensures
            match polled {
                Polled::Ready(outcome) => {
                    &&& next.0 is Done
                    &&& next.1 == Some(
                        HandlerEvent::Custom(ProtocolOutEvent::<I, O, E>::Outbound(outcome)),
                    )
                },
                Polled::Pending(protocol) => {
                    &&& next.0 == ProtocolState::<FI, FO, S, PI, PO>::Outbound(
                        OutboundProtocolState::Executing(protocol),
                    )
                    &&& next.1 is None
                },
            },
    {
        match polled {
            Polled::Ready(outcome) => (
                ProtocolState::Done,
                Some(HandlerEvent::Custom(ProtocolOutEvent::Outbound(outcome))),
            ),
            Polled::Pending(protocol) => (
                ProtocolState::Outbound(OutboundProtocolState::Executing(protocol)),
                None,
            ),
        }
    }
}

/// The handler of one connection: its execution slot and the name of the protocol.
///
/// `FI` and `FO` are the inbound and the outbound protocol function, `S` the stream that
/// a substream is negotiated on, `PI` and `PO` the tasks that the functions return.
///
/// A function that waits in the slot may be called on every substream of its direction.
#[verifier::reject_recursive_types(FI)]
#[verifier::reject_recursive_types(FO)]
#[verifier::reject_recursive_types(S)]
#[verifier::reject_recursive_types(PI)]
#[verifier::reject_recursive_types(PO)]
pub struct Handler<FI, FO, S, PI, PO> where
    FI: FnOnce(InboundSubstream<S>) -> PI,
    FO: FnOnce(OutboundSubstream<S>) -> PO,
 {
    state: ProtocolState<FI, FO, S, PI, PO>,
    info: &'static [u8],
}

impl<FI, FO, S, PI, PO> View for Handler<FI, FO, S, PI, PO> where
    FI: FnOnce(InboundSubstream<S>) -> PI,
    FO: FnOnce(OutboundSubstream<S>) -> PO,
 {
    type V = ProtocolState<FI, FO, S, PI, PO>;

    /// What the slot holds.
    closed spec fn view(&self) -> ProtocolState<FI, FO, S, PI, PO> {
        self.state
    }
}

impl<FI, FO, S, PI, PO> Handler<FI, FO, S, PI, PO> where
    FI: FnOnce(InboundSubstream<S>) -> PI,
    FO: FnOnce(OutboundSubstream<S>) -> PO,
 {
    #[verifier::type_invariant]
    spec fn waiting_function_is_callable(self) -> bool {
        self.state.callable()
    }

    /// The bytes of the protocol name that the handler was made with.
    pub closed spec fn protocol_name(&self) -> Seq<u8> {
        self.info@
    }

    /// A handler with an empty slot, for the protocol named `info`.
    pub fn new(info: &'static [u8]) -> (handler: Self)
        ensures
            handler@ is Empty,
            handler.protocol_name() == info@,
    {
        Self { state: ProtocolState::Empty, info }
    }

    /// The protocol that inbound substreams are negotiated for.
    pub fn listen_protocol(&self) -> (protocol: ProtocolInfo)
        ensures
            protocol@ == self.protocol_name(),
    {
        ProtocolInfo::new(self.info)
    }

    /// Whether the connection is to be kept open: always, as long as the handler lives.
    pub fn connection_keep_alive(&self) -> (keep: bool)
        ensures
            keep,
    {
        true
    }

    /// Takes what the slot holds out of it, and leaves the slot empty for the moment.
    fn take_state(&mut self) -> (state: ProtocolState<FI, FO, S, PI, PO>)
        ensures
            state == old(self)@,
            state.callable(),
            final(self)@ is Empty,
            final(self).protocol_name() == old(self).protocol_name(),
    {
        proof {
            use_type_invariant(&*self);
        }
        let mut state = ProtocolState::Empty;
        core::mem::swap(&mut self.state, &mut state);
        state
    }

    /// Why the slot has no use for an inbound substream as it is now, if it has none.
    pub fn inbound_substream_refusal(&self) -> (refusal: Option<UsageError>)
        ensures
            refusal == self@.inbound_substream_refusal(),
    {
        match &self.state {
            ProtocolState::Empty => None,
            ProtocolState::Inbound(InboundProtocolState::GotFunctionNeedSubstream(_)) => None,
            ProtocolState::Inbound(_) => Some(UsageError::SubstreamAlreadyPresent),
            ProtocolState::Done => Some(UsageError::SubstreamAlreadyPresent),
            ProtocolState::Outbound(_) => Some(UsageError::InboundSubstreamInOutboundProtocol),
        }
    }

    /// Takes an inbound substream that has been negotiated. The slot must have use for
    /// it, which [`Handler::inbound_substream_refusal`] tells.
    pub fn inject_fully_negotiated_inbound(&mut self, substream: InboundSubstream<S>)
        requires
            old(self)@.inbound_substream_refusal() is None,
        ensures
            old(self)@.inbound_substream(substream, final(self)@),
            final(self).protocol_name() == old(self).protocol_name(),
    {
        let next = match self.take_state() {
            ProtocolState::Empty => ProtocolState::Inbound(
                InboundProtocolState::GotSubstreamNeedFunction(substream),
            ),
            ProtocolState::Inbound(InboundProtocolState::GotFunctionNeedSubstream(protocol_fn)) => {
                ProtocolState::Inbound(InboundProtocolState::Executing(protocol_fn(substream)))
            },
            _ => unreached(),
        };
        self.state = next;
    }

    /// Why the slot has no use for an outbound substream as it is now, if it has none.
    pub fn outbound_substream_refusal(&self) -> (refusal: Option<UsageError>)
        ensures
            refusal == self@.outbound_substream_refusal(),
    {
        match &self.state {
            ProtocolState::Outbound(OutboundProtocolState::GotFunctionNeedSubstream(_)) => None,
            ProtocolState::Outbound(OutboundProtocolState::GotFunctionRequestedSubstream(_)) => {
                None
            },
            ProtocolState::Empty => Some(UsageError::SubstreamNotRequested),
            ProtocolState::Outbound(_) => Some(UsageError::SubstreamAlreadyPresent),
            ProtocolState::Done => Some(UsageError::SubstreamAlreadyPresent),
            ProtocolState::Inbound(_) => Some(UsageError::OutboundSubstreamInInboundProtocol),
        }
    }

    /// Takes an outbound substream that has been negotiated. The slot must have use for
    /// it, which [`Handler::outbound_substream_refusal`] tells.
    pub fn inject_fully_negotiated_outbound(&mut self, substream: OutboundSubstream<S>)
        requires
            old(self)@.outbound_substream_refusal() is None,
        ensures
            old(self)@.outbound_substream(substream, final(self)@),
            final(self).protocol_name() == old(self).protocol_name(),
    {
        let next = match self.take_state() {
            ProtocolState::Outbound(OutboundProtocolState::GotFunctionNeedSubstream(protocol_fn)) => {
                ProtocolState::Outbound(OutboundProtocolState::Executing(protocol_fn(substream)))
            },
            ProtocolState::Outbound(
                OutboundProtocolState::GotFunctionRequestedSubstream(protocol_fn),
            ) => ProtocolState::Outbound(OutboundProtocolState::Executing(protocol_fn(substream))),
            _ => unreached(),
        };
        self.state = next;
    }

    /// Why the slot has no use for the request `event` as it is now, if it has none.
    pub fn event_refusal(&self, event: &ProtocolInEvent<FI, FO>) -> (refusal: Option<UsageError>)
        ensures
            refusal == self@.event_refusal(*event),
    {
        match event {
            ProtocolInEvent::ExecuteInbound(_) => match &self.state {
                ProtocolState::Empty => None,
                ProtocolState::Inbound(InboundProtocolState::GotSubstreamNeedFunction(_)) => None,
                ProtocolState::Inbound(_) => Some(UsageError::ProtocolFnAlreadyPresent),
                ProtocolState::Done => Some(UsageError::ProtocolFnAlreadyPresent),
                ProtocolState::Outbound(_) => Some(UsageError::InboundFnInOutboundProtocol),
            },
            ProtocolInEvent::ExecuteOutbound(_) => match &self.state {
                ProtocolState::Empty => None,
                ProtocolState::Outbound(_) => Some(UsageError::ProtocolFnAlreadyPresent),
                ProtocolState::Done => Some(UsageError::ProtocolFnAlreadyPresent),
                ProtocolState::Inbound(_) => Some(UsageError::OutboundFnInInboundProtocol),
            },
        }
    }

    /// Takes a request to run a protocol function. The slot must have use for it, which
    /// [`Handler::event_refusal`] tells.
    pub fn inject_event(&mut self, event: ProtocolInEvent<FI, FO>)
        requires
            old(self)@.event_refusal(event) is None,
            accepts_every_substream::<FI, FO, S, PI, PO>(event),
        ensures
            old(self)@.submitted(event, final(self)@),
            final(self).protocol_name() == old(self).protocol_name(),
    {
        let state = self.take_state();
        let next = match event {
            ProtocolInEvent::ExecuteInbound(protocol_fn) => match state {
                ProtocolState::Empty => ProtocolState::Inbound(
                    InboundProtocolState::GotFunctionNeedSubstream(protocol_fn),
                ),
                ProtocolState::Inbound(InboundProtocolState::GotSubstreamNeedFunction(substream)) => {
                    ProtocolState::Inbound(InboundProtocolState::Executing(protocol_fn(substream)))
                },
                _ => unreached(),
            },
            ProtocolInEvent::ExecuteOutbound(protocol_fn) => match state {
                ProtocolState::Empty => ProtocolState::Outbound(
                    OutboundProtocolState::GotFunctionNeedSubstream(protocol_fn),
                ),
                _ => unreached(),
            },
        };
        self.state = next;
    }

    /// Takes the news that the outbound substream could not be negotiated. The
    /// substream is not asked for again: the request has failed, which the next poll
    /// reports.
    pub fn inject_dial_upgrade_error(&mut self)
        ensures
            final(self)@ == old(self)@.dial_upgrade_failed(),
            final(self).protocol_name() == old(self).protocol_name(),
    {
        let next = match self.take_state() {
            ProtocolState::Outbound(OutboundProtocolState::GotFunctionRequestedSubstream(_)) =>
                ProtocolState::Outbound(OutboundProtocolState::UpgradeFailed),
            other => other,
        };
        self.state = next;
    }

    /// Lets the slot make progress: asks for the outbound substream that a waiting
    /// function needs, or polls the running task and reports its outcome if it is ready.
    /// `None` says that there is nothing to report.
    pub fn poll<I, O, E>(&mut self, cx: &mut Context<'_>) -> (event: Option<
        HandlerEvent<I, O, E>,
    >) where
        PI: Future<Output = Result<I, E>> + Unpin,
        PO: Future<Output = Result<O, E>> + Unpin,

        ensures
            old(self)@.polled(old(self).protocol_name(), final(self)@, event),
            final(self).protocol_name() == old(self).protocol_name(),
    {
        let (next, event) = match self.take_state() {
            ProtocolState::Inbound(InboundProtocolState::Executing(protocol)) => {
                ProtocolState::inbound_polled(poll_task(protocol, cx))
            },
            ProtocolState::Outbound(OutboundProtocolState::Executing(protocol)) => {
                ProtocolState::outbound_polled(poll_task(protocol, cx))
            },
            ProtocolState::Outbound(OutboundProtocolState::UpgradeFailed) => (
                ProtocolState::Done,
                Some(HandlerEvent::Custom(ProtocolOutEvent::DialUpgradeError)),
            ),
            ProtocolState::Outbound(OutboundProtocolState::GotFunctionNeedSubstream(protocol_fn)) => (
                ProtocolState::Outbound(
                    OutboundProtocolState::GotFunctionRequestedSubstream(protocol_fn),
                ),
                Some(
                    HandlerEvent::OutboundSubstreamRequest {
                        protocol: ProtocolInfo::new(self.info),
                    },
                ),
            ),
            other => (other, None),
        };
        self.state = next;
        event
    }
}

} // verus!
