//! What holds of a handler over its whole life, proved from the steps it can take.

use crate::handler::{HandlerEvent, InboundProtocolState, OutboundProtocolState, ProtocolState};
use crate::protocol::{
    InboundSubstream, OutboundSubstream, ProtocolInEvent, ProtocolOutEvent, UsageError,
};
use vstd::prelude::*;

verus! {

/// One call on a handler.
pub enum HandlerCall<FI, FO, S> {
    /// [`crate::handler::Handler::inject_event`] with this request.
    InjectEvent(ProtocolInEvent<FI, FO>),
    /// [`crate::handler::Handler::inject_fully_negotiated_inbound`] with this substream.
    InjectFullyNegotiatedInbound(InboundSubstream<S>),
    /// [`crate::handler::Handler::inject_fully_negotiated_outbound`] with this substream.
    InjectFullyNegotiatedOutbound(OutboundSubstream<S>),
    /// [`crate::handler::Handler::inject_dial_upgrade_error`].
    InjectDialUpgradeError,
    /// [`crate::handler::Handler::poll`].
    Poll,
}

/// Why a slot that holds `pre` refuses `call`, if it does: a call that is refused cannot
/// be made.
pub open spec fn refusal<FI, FO, S, PI, PO>(
    pre: ProtocolState<FI, FO, S, PI, PO>,
    call: HandlerCall<FI, FO, S>,
) -> Option<UsageError> {
    match call {
        HandlerCall::InjectEvent(event) => pre.event_refusal(event),
        HandlerCall::InjectFullyNegotiatedInbound(_) => pre.inbound_substream_refusal(),
        HandlerCall::InjectFullyNegotiatedOutbound(_) => pre.outbound_substream_refusal(),
        HandlerCall::InjectDialUpgradeError => None,
        HandlerCall::Poll => None,
    }
}

/// Whether the answer of a call reports how a request ended.
pub open spec fn reports_outcome<I, O, E>(answer: Option<HandlerEvent<I, O, E>>) -> bool {
    answer matches Some(HandlerEvent::Custom(_))
}

/// Whether the answer of a call asks for an outbound substream.
pub open spec fn asks_for_substream<I, O, E>(answer: Option<HandlerEvent<I, O, E>>) -> bool {
    answer matches Some(HandlerEvent::OutboundSubstreamRequest { .. })
}

/// Whether a handler for the protocol `name` whose slot holds `pre` may be called with
/// `call`, and may hold `post` and answer `answer` afterwards, by the contract of the
/// function that is called. Only a poll answers anything.
pub open spec fn step<FI, FO, S, PI, PO, I, O, E>(
    pre: ProtocolState<FI, FO, S, PI, PO>,
    name: Seq<u8>,
    call: HandlerCall<FI, FO, S>,
    post: ProtocolState<FI, FO, S, PI, PO>,
    answer: Option<HandlerEvent<I, O, E>>,
) -> bool where FI: FnOnce(InboundSubstream<S>) -> PI, FO: FnOnce(OutboundSubstream<S>) -> PO {
    &&& refusal(pre, call) is None
    &&& match call {
        HandlerCall::InjectEvent(event) => pre.submitted(event, post) && answer is None,
        HandlerCall::InjectFullyNegotiatedInbound(substream) => pre.inbound_substream(
            substream,
            post,
        ) && answer is None,
        HandlerCall::InjectFullyNegotiatedOutbound(substream) => pre.outbound_substream(
            substream,
            post,
        ) && answer is None,
        HandlerCall::InjectDialUpgradeError => post == pre.dial_upgrade_failed() && answer is None,
        HandlerCall::Poll => pre.polled(name, post, answer),
    }
}

/// Whether `states`, `calls` and `answers` tell a life of a handler for the protocol
/// `name`: it starts with an empty slot, and each call leads from one state to the next
/// with its answer.
pub open spec fn is_run<FI, FO, S, PI, PO, I, O, E>(
    name: Seq<u8>,
    states: Seq<ProtocolState<FI, FO, S, PI, PO>>,
    calls: Seq<HandlerCall<FI, FO, S>>,
    answers: Seq<Option<HandlerEvent<I, O, E>>>,
) -> bool where FI: FnOnce(InboundSubstream<S>) -> PI, FO: FnOnce(OutboundSubstream<S>) -> PO {
    &&& states.len() == calls.len() + 1
    &&& answers.len() == calls.len()
    &&& states[0] is Empty
    &&& forall|i: int|
        0 <= i < calls.len() ==> step(states[i], name, #[trigger] calls[i], states[i + 1], answers[i])
}

/// Whether a task starts between `pre` and `post`.
pub open spec fn starts_task<FI, FO, S, PI, PO>(
    pre: ProtocolState<FI, FO, S, PI, PO>,
    post: ProtocolState<FI, FO, S, PI, PO>,
) -> bool {
    !pre.is_executing() && post.is_executing()
}

/// A slot takes exactly what it does not refuse: wherever one of the three relations
/// holds between a slot and a later one, the slot had no refusal for the call.
pub proof fn lemma_taken_is_not_refused<FI, FO, S, PI, PO>(
    pre: ProtocolState<FI, FO, S, PI, PO>,
    call: HandlerCall<FI, FO, S>,
    post: ProtocolState<FI, FO, S, PI, PO>,
) where FI: FnOnce(InboundSubstream<S>) -> PI, FO: FnOnce(OutboundSubstream<S>) -> PO
    requires
        match call {
            HandlerCall::InjectEvent(event) => pre.submitted(event, post),
            HandlerCall::InjectFullyNegotiatedInbound(substream) => pre.inbound_substream(
                substream,
                post,
            ),
            HandlerCall::InjectFullyNegotiatedOutbound(substream) => pre.outbound_substream(
                substream,
                post,
            ),
            _ => true,
        },
    ensures
        refusal(pre, call) is None,
{
}

/// A slot that has taken a request, or is done with one, refuses every further request,
/// of the same direction and of the other: a second request cannot be handed to it, its
/// function is never called, and the slot never holds two requests.
pub proof fn lemma_second_request_refused<FI, FO, S, PI, PO>(
    pre: ProtocolState<FI, FO, S, PI, PO>,
    event: ProtocolInEvent<FI, FO>,
)
    requires
        pre.has_request() || pre is Done,
    ensures
        pre.event_refusal(event) is Some,
        event is ExecuteInbound && (pre is Inbound || pre is Done) ==> pre.event_refusal(event)
            == Some(UsageError::ProtocolFnAlreadyPresent),
        event is ExecuteOutbound && (pre is Outbound || pre is Done) ==> pre.event_refusal(event)
            == Some(UsageError::ProtocolFnAlreadyPresent),
        event is ExecuteInbound && pre is Outbound ==> pre.event_refusal(event) == Some(
            UsageError::InboundFnInOutboundProtocol,
        ),
        event is ExecuteOutbound && pre is Inbound ==> pre.event_refusal(event) == Some(
            UsageError::OutboundFnInInboundProtocol,
        ),
{
}

/// A slot that serves one direction refuses the substream of the other, so that a
/// function is never paired with a substream of the wrong direction and no second task
/// starts. A slot that runs a task, or is done, refuses every substream.
pub proof fn lemma_other_substream_refused<FI, FO, S, PI, PO>(
    pre: ProtocolState<FI, FO, S, PI, PO>,
)
    ensures
        pre is Outbound ==> pre.inbound_substream_refusal() == Some(
            UsageError::InboundSubstreamInOutboundProtocol,
        ),
        pre is Inbound ==> pre.outbound_substream_refusal() == Some(
            UsageError::OutboundSubstreamInInboundProtocol,
        ),
        pre.is_executing() || pre is Done ==> pre.inbound_substream_refusal() is Some
            && pre.outbound_substream_refusal() is Some,
{
}

/// A duplicate request leaves the first in place. A slot in which the outbound function
/// `first` waits refuses every further outbound request; when its substream arrives,
/// the task that runs is one that `first` has made of it, and a poll of that task can
/// only report an outbound outcome.
pub proof fn lemma_duplicate_outbound_leaves_first<FI, FO, S, PI, PO, I, O, E>(
    pre: ProtocolState<FI, FO, S, PI, PO>,
    first: FO,
    second: FO,
    substream: OutboundSubstream<S>,
    running: ProtocolState<FI, FO, S, PI, PO>,
    name: Seq<u8>,
    post: ProtocolState<FI, FO, S, PI, PO>,
    answer: Option<HandlerEvent<I, O, E>>,
) where FO: FnOnce(OutboundSubstream<S>) -> PO
    requires
        pre == ProtocolState::<FI, FO, S, PI, PO>::Outbound(
            OutboundProtocolState::GotFunctionNeedSubstream(first),
        ) || pre == ProtocolState::<FI, FO, S, PI, PO>::Outbound(
            OutboundProtocolState::GotFunctionRequestedSubstream(first),
        ),
    ensures
        pre.event_refusal(ProtocolInEvent::ExecuteOutbound(second)) == Some(
            UsageError::ProtocolFnAlreadyPresent,
        ),
        pre.outbound_substream_refusal() is None,
        pre.outbound_substream(substream, running) ==> runs_outbound(first, substream, running),
        pre.outbound_substream(substream, running) && running.polled(name, post, answer)
            && answer is Some ==> post is Done && answer matches Some(
            HandlerEvent::Custom(ProtocolOutEvent::Outbound(_)),
        ),
{
}

/// A duplicate request leaves the first in place. A slot in which the inbound function
/// `first` waits refuses every further inbound request; when its substream arrives, the
/// task that runs is one that `first` has made of it, and a poll of that task can only
/// report an inbound outcome.
pub proof fn lemma_duplicate_inbound_leaves_first<FI, FO, S, PI, PO, I, O, E>(
    first: FI,
    second: FI,
    substream: InboundSubstream<S>,
    running: ProtocolState<FI, FO, S, PI, PO>,
    name: Seq<u8>,
    post: ProtocolState<FI, FO, S, PI, PO>,
    answer: Option<HandlerEvent<I, O, E>>,
) where FI: FnOnce(InboundSubstream<S>) -> PI
    ensures
        ProtocolState::<FI, FO, S, PI, PO>::Inbound(
            InboundProtocolState::GotFunctionNeedSubstream(first),
        ).event_refusal(ProtocolInEvent::ExecuteInbound(second)) == Some(
            UsageError::ProtocolFnAlreadyPresent,
        ),
        ProtocolState::<FI, FO, S, PI, PO>::Inbound(
            InboundProtocolState::GotFunctionNeedSubstream(first),
        ).inbound_substream(substream, running) ==> runs_inbound(first, substream, running),
        ProtocolState::<FI, FO, S, PI, PO>::Inbound(
            InboundProtocolState::GotFunctionNeedSubstream(first),
        ).inbound_substream(substream, running) && running.polled(name, post, answer)
            && answer is Some ==> post is Done && answer matches Some(
            HandlerEvent::Custom(ProtocolOutEvent::Inbound(_)),
        ),
{
}

/// While a task runs, the slot takes no request and no substream; it runs its task
/// until a poll reports the outcome, and is done then.
pub proof fn lemma_running_task_stays<FI, FO, S, PI, PO, I, O, E>(
    pre: ProtocolState<FI, FO, S, PI, PO>,
    name: Seq<u8>,
    call: HandlerCall<FI, FO, S>,
    post: ProtocolState<FI, FO, S, PI, PO>,
    answer: Option<HandlerEvent<I, O, E>>,
) where FI: FnOnce(InboundSubstream<S>) -> PI, FO: FnOnce(OutboundSubstream<S>) -> PO
    requires
        pre.is_executing(),
    ensures
        !(call is Poll) && !(call is InjectDialUpgradeError) ==> refusal(pre, call) is Some,
        step(pre, name, call, post, answer) ==> {
            &&& post.is_executing() || post is Done
            &&& post.is_executing() ==> (post is Inbound <==> pre is Inbound)
            &&& post is Done <==> reports_outcome(answer)
            &&& !(call is Poll) ==> post == pre
        },
{
}

/// A slot that is done stays done: it takes no request and no substream, and reports
/// nothing more.
pub proof fn lemma_done_stays_done<FI, FO, S, PI, PO, I, O, E>(
    pre: ProtocolState<FI, FO, S, PI, PO>,
    name: Seq<u8>,
    call: HandlerCall<FI, FO, S>,
    post: ProtocolState<FI, FO, S, PI, PO>,
    answer: Option<HandlerEvent<I, O, E>>,
) where FI: FnOnce(InboundSubstream<S>) -> PI, FO: FnOnce(OutboundSubstream<S>) -> PO
    requires
        pre is Done,
    ensures
        !(call is Poll) && !(call is InjectDialUpgradeError) ==> refusal(pre, call) is Some,
        step(pre, name, call, post, answer) ==> post is Done && answer is None,
{
}

/// An outcome is reported by a poll of a slot that runs a task or has a failure to
/// report, and the slot is done afterwards.
pub proof fn lemma_outcome_ends_task<FI, FO, S, PI, PO, I, O, E>(
    pre: ProtocolState<FI, FO, S, PI, PO>,
    name: Seq<u8>,
    call: HandlerCall<FI, FO, S>,
    post: ProtocolState<FI, FO, S, PI, PO>,
    answer: Option<HandlerEvent<I, O, E>>,
) where FI: FnOnce(InboundSubstream<S>) -> PI, FO: FnOnce(OutboundSubstream<S>) -> PO
    requires
        step(pre, name, call, post, answer),
        reports_outcome(answer),
    ensures
        call is Poll,
        pre.is_reporting(),
        post is Done,
        pre is Inbound ==> answer matches Some(HandlerEvent::Custom(ProtocolOutEvent::Inbound(_))),
        pre.is_executing() && pre is Outbound ==> answer matches Some(
            HandlerEvent::Custom(ProtocolOutEvent::Outbound(_)),
        ),
        !pre.is_executing() ==> answer == Some(
            HandlerEvent::Custom(ProtocolOutEvent::<I, O, E>::DialUpgradeError),
        ),
{
}

/// In a life of a handler, once a task has started the slot runs it or is done, at every
/// later moment.
proof fn lemma_after_start<FI, FO, S, PI, PO, I, O, E>(
    name: Seq<u8>,
    states: Seq<ProtocolState<FI, FO, S, PI, PO>>,
    calls: Seq<HandlerCall<FI, FO, S>>,
    answers: Seq<Option<HandlerEvent<I, O, E>>>,
    i: int,
    k: int,
) where FI: FnOnce(InboundSubstream<S>) -> PI, FO: FnOnce(OutboundSubstream<S>) -> PO
    requires
        is_run(name, states, calls, answers),
        0 <= i <= k < states.len(),
        states[i].is_executing() || states[i] is Done,
    ensures
        states[k].is_executing() || states[k] is Done,
    decreases k - i,
{
    if i < k {
        lemma_after_start(name, states, calls, answers, i, k - 1);
        assert(step(states[k - 1], name, calls[k - 1], states[k - 1 + 1], answers[k - 1]));
    }
}

/// In a life of a handler, a slot that is done at one moment is done at every later one.
proof fn lemma_after_done<FI, FO, S, PI, PO, I, O, E>(
    name: Seq<u8>,
    states: Seq<ProtocolState<FI, FO, S, PI, PO>>,
    calls: Seq<HandlerCall<FI, FO, S>>,
    answers: Seq<Option<HandlerEvent<I, O, E>>>,
    i: int,
    k: int,
) where FI: FnOnce(InboundSubstream<S>) -> PI, FO: FnOnce(OutboundSubstream<S>) -> PO
    requires
        is_run(name, states, calls, answers),
        0 <= i <= k < states.len(),
        states[i] is Done,
    ensures
        states[k] is Done,
    decreases k - i,
{
    if i < k {
        lemma_after_done(name, states, calls, answers, i, k - 1);
        assert(step(states[k - 1], name, calls[k - 1], states[k - 1 + 1], answers[k - 1]));
    }
}

/// In a life of a handler, a slot that has taken a request holds it, runs it or is done
/// with it at every later moment.
proof fn lemma_after_request<FI, FO, S, PI, PO, I, O, E>(
    name: Seq<u8>,
    states: Seq<ProtocolState<FI, FO, S, PI, PO>>,
    calls: Seq<HandlerCall<FI, FO, S>>,
    answers: Seq<Option<HandlerEvent<I, O, E>>>,
    i: int,
    k: int,
) where FI: FnOnce(InboundSubstream<S>) -> PI, FO: FnOnce(OutboundSubstream<S>) -> PO
    requires
        is_run(name, states, calls, answers),
        0 <= i <= k < states.len(),
        states[i].has_request() || states[i] is Done,
    ensures
        states[k].has_request() || states[k] is Done,
    decreases k - i,
{
    if i < k {
        lemma_after_request(name, states, calls, answers, i, k - 1);
        assert(step(states[k - 1], name, calls[k - 1], states[k - 1 + 1], answers[k - 1]));
    }
}

/// One request in a life: a handler takes at most one request, of whichever direction.
/// Once it has taken one, no later call hands it another, so two requests are never
/// held and no function but the first is ever called.
pub proof fn lemma_one_request_per_life<FI, FO, S, PI, PO, I, O, E>(
    name: Seq<u8>,
    states: Seq<ProtocolState<FI, FO, S, PI, PO>>,
    calls: Seq<HandlerCall<FI, FO, S>>,
    answers: Seq<Option<HandlerEvent<I, O, E>>>,
    i: int,
    j: int,
) where FI: FnOnce(InboundSubstream<S>) -> PI, FO: FnOnce(OutboundSubstream<S>) -> PO
    requires
        is_run(name, states, calls, answers),
        0 <= i < j < calls.len(),
        calls[i] is InjectEvent,
    ensures
        !(calls[j] is InjectEvent),
{
    assert(step(states[i], name, calls[i], states[i + 1], answers[i]));
    lemma_after_request(name, states, calls, answers, i + 1, j);
    assert(step(states[j], name, calls[j], states[j + 1], answers[j]));
    if let HandlerCall::InjectEvent(event) = calls[j] {
        lemma_second_request_refused(states[j], event);
    }
}

/// Single flight: in the whole life of a handler at most one task is ever started, so
/// no two protocol functions run on one connection, at once or one after the other.
pub proof fn lemma_single_flight<FI, FO, S, PI, PO, I, O, E>(
    name: Seq<u8>,
    states: Seq<ProtocolState<FI, FO, S, PI, PO>>,
    calls: Seq<HandlerCall<FI, FO, S>>,
    answers: Seq<Option<HandlerEvent<I, O, E>>>,
    i: int,
    j: int,
) where FI: FnOnce(InboundSubstream<S>) -> PI, FO: FnOnce(OutboundSubstream<S>) -> PO
    requires
        is_run(name, states, calls, answers),
        0 <= i < j < calls.len(),
        starts_task(states[i], states[i + 1]),
    ensures
        !starts_task(states[j], states[j + 1]),
{
    lemma_after_start(name, states, calls, answers, i + 1, j);
    if states[j] is Done {
        lemma_after_done(name, states, calls, answers, j, j + 1);
    }
}

/// Single delivery: in the whole life of a handler at most one answer reports an
/// outcome. After it the slot is done, and every later call answers nothing.
pub proof fn lemma_outcome_reported_once<FI, FO, S, PI, PO, I, O, E>(
    name: Seq<u8>,
    states: Seq<ProtocolState<FI, FO, S, PI, PO>>,
    calls: Seq<HandlerCall<FI, FO, S>>,
    answers: Seq<Option<HandlerEvent<I, O, E>>>,
    i: int,
    j: int,
) where FI: FnOnce(InboundSubstream<S>) -> PI, FO: FnOnce(OutboundSubstream<S>) -> PO
    requires
        is_run(name, states, calls, answers),
        0 <= i < j < calls.len(),
        reports_outcome(answers[i]),
    ensures
        !reports_outcome(answers[j]),
        answers[j] is None,
        states[j + 1] is Done,
{
    assert(step(states[i], name, calls[i], states[i + 1], answers[i]));
    lemma_outcome_ends_task(states[i], name, calls[i], states[i + 1], answers[i]);
    lemma_after_done(name, states, calls, answers, i + 1, j);
    assert(step(states[j], name, calls[j], states[j + 1], answers[j]));
    lemma_done_stays_done(states[j], name, calls[j], states[j + 1], answers[j]);
}

/// Whether a slot has asked for its outbound substream at some time before, or will
/// never ask for one.
spec fn is_past_asking<FI, FO, S, PI, PO>(state: ProtocolState<FI, FO, S, PI, PO>) -> bool {
    ||| state is Done
    ||| state is Outbound && !(state->Outbound_0 is GotFunctionNeedSubstream)
}

/// In a life of a handler, a slot that has asked for its substream has no reason to ask
/// again at any later moment.
proof fn lemma_after_asking<FI, FO, S, PI, PO, I, O, E>(
    name: Seq<u8>,
    states: Seq<ProtocolState<FI, FO, S, PI, PO>>,
    calls: Seq<HandlerCall<FI, FO, S>>,
    answers: Seq<Option<HandlerEvent<I, O, E>>>,
    i: int,
    k: int,
) where FI: FnOnce(InboundSubstream<S>) -> PI, FO: FnOnce(OutboundSubstream<S>) -> PO
    requires
        is_run(name, states, calls, answers),
        0 <= i <= k < states.len(),
        is_past_asking(states[i]),
    ensures
        is_past_asking(states[k]),
    decreases k - i,
{
    if i < k {
        lemma_after_asking(name, states, calls, answers, i, k - 1);
        assert(step(states[k - 1], name, calls[k - 1], states[k - 1 + 1], answers[k - 1]));
    }
}

/// No retry: in the whole life of a handler at most one answer asks for an outbound
/// substream, whether the substream arrives, fails to be negotiated or never comes.
pub proof fn lemma_substream_requested_once<FI, FO, S, PI, PO, I, O, E>(
    name: Seq<u8>,
    states: Seq<ProtocolState<FI, FO, S, PI, PO>>,
    calls: Seq<HandlerCall<FI, FO, S>>,
    answers: Seq<Option<HandlerEvent<I, O, E>>>,
    i: int,
    j: int,
) where FI: FnOnce(InboundSubstream<S>) -> PI, FO: FnOnce(OutboundSubstream<S>) -> PO
    requires
        is_run(name, states, calls, answers),
        0 <= i < j < calls.len(),
        asks_for_substream(answers[i]),
    ensures
        !asks_for_substream(answers[j]),
{
    assert(step(states[i], name, calls[i], states[i + 1], answers[i]));
    lemma_after_asking(name, states, calls, answers, i + 1, j);
    assert(step(states[j], name, calls[j], states[j + 1], answers[j]));
}

/// A failed negotiation ends the request: a slot that has asked for its substream and
/// is told that the negotiation failed reports the failure at the next poll and is done.
pub proof fn lemma_failed_upgrade_is_reported<FI, FO, S, PI, PO, I, O, E>(
    pre: ProtocolState<FI, FO, S, PI, PO>,
    name: Seq<u8>,
    post: ProtocolState<FI, FO, S, PI, PO>,
    event: Option<HandlerEvent<I, O, E>>,
)
    requires
        pre is Outbound && pre->Outbound_0 is GotFunctionRequestedSubstream,
        pre.dial_upgrade_failed().polled(name, post, event),
    ensures
        event == Some(HandlerEvent::Custom(ProtocolOutEvent::<I, O, E>::DialUpgradeError)),
        post is Done,
{
}

/// Whether `end` is a slot that runs a task which `function` has made of `substream`.
pub open spec fn runs_inbound<FI, FO, S, PI, PO>(
    function: FI,
    substream: InboundSubstream<S>,
    end: ProtocolState<FI, FO, S, PI, PO>,
) -> bool where FI: FnOnce(InboundSubstream<S>) -> PI {
    &&& end matches ProtocolState::Inbound(InboundProtocolState::Executing(protocol))
    &&& call_ensures(function, (substream,), protocol)
}

/// Whether an empty slot may hold `end` once it has taken `function` and then
/// `substream`.
pub open spec fn function_then_substream<FI, FO, S, PI, PO>(
    function: FI,
    substream: InboundSubstream<S>,
    end: ProtocolState<FI, FO, S, PI, PO>,
) -> bool where FI: FnOnce(InboundSubstream<S>) -> PI {
    exists|mid: ProtocolState<FI, FO, S, PI, PO>|
        {
            &&& #[trigger] mid.inbound_substream(substream, end)
            &&& ProtocolState::<FI, FO, S, PI, PO>::Empty.submitted(
                ProtocolInEvent::ExecuteInbound(function),
                mid,
            )
        }
}

/// Whether an empty slot may hold `end` once it has taken `substream` and then
/// `function`.
pub open spec fn substream_then_function<FI, FO, S, PI, PO>(
    function: FI,
    substream: InboundSubstream<S>,
    end: ProtocolState<FI, FO, S, PI, PO>,
) -> bool where FI: FnOnce(InboundSubstream<S>) -> PI {
    exists|mid: ProtocolState<FI, FO, S, PI, PO>|
        {
            &&& #[trigger] mid.submitted(ProtocolInEvent::ExecuteInbound(function), end)
            &&& ProtocolState::<FI, FO, S, PI, PO>::Empty.inbound_substream(substream, mid)
        }
}

/// For the inbound direction it makes no difference which of the two arrives first, the
/// protocol function or the substream: either way both are taken, and the slot then
/// runs a task that the function has made of the substream, and nothing else.
pub proof fn lemma_inbound_arrival_order<FI, FO, S, PI, PO>(
    function: FI,
    substream: InboundSubstream<S>,
    end: ProtocolState<FI, FO, S, PI, PO>,
) where FI: FnOnce(InboundSubstream<S>) -> PI
    ensures
        function_then_substream(function, substream, end) <==> runs_inbound(
            function,
            substream,
            end,
        ),
        substream_then_function(function, substream, end) <==> runs_inbound(
            function,
            substream,
            end,
        ),
        function_then_substream(function, substream, end) <==> substream_then_function(
            function,
            substream,
            end,
        ),
{
    let empty = ProtocolState::<FI, FO, S, PI, PO>::Empty;
    let holds_function = ProtocolState::<FI, FO, S, PI, PO>::Inbound(
        InboundProtocolState::GotFunctionNeedSubstream(function),
    );
    let holds_substream = ProtocolState::<FI, FO, S, PI, PO>::Inbound(
        InboundProtocolState::GotSubstreamNeedFunction(substream),
    );
    if runs_inbound(function, substream, end) {
        assert(empty.submitted(ProtocolInEvent::ExecuteInbound(function), holds_function));
        assert(holds_function.inbound_substream(substream, end));
        assert(empty.inbound_substream(substream, holds_substream));
        assert(holds_substream.submitted(ProtocolInEvent::ExecuteInbound(function), end));
    }
}

/// Whether `end` is a slot that runs a task which `function` has made of `substream`.
pub open spec fn runs_outbound<FI, FO, S, PI, PO>(
    function: FO,
    substream: OutboundSubstream<S>,
    end: ProtocolState<FI, FO, S, PI, PO>,
) -> bool where FO: FnOnce(OutboundSubstream<S>) -> PO {
    &&& end matches ProtocolState::Outbound(OutboundProtocolState::Executing(protocol))
    &&& call_ensures(function, (substream,), protocol)
}

/// For the outbound direction the function comes first, and it makes no difference
/// whether a poll has asked for the substream before the substream arrives: a slot in
/// which the function waits takes the substream and runs a task that the function has
/// made of it. An empty slot refuses an outbound substream, since nobody asked for it.
pub proof fn lemma_outbound_pairing<FI, FO, S, PI, PO, I, O, E>(
    function: FO,
    substream: OutboundSubstream<S>,
    name: Seq<u8>,
    asked: ProtocolState<FI, FO, S, PI, PO>,
    answer: Option<HandlerEvent<I, O, E>>,
    end: ProtocolState<FI, FO, S, PI, PO>,
) where FI: FnOnce(InboundSubstream<S>) -> PI, FO: FnOnce(OutboundSubstream<S>) -> PO
    ensures
        ProtocolState::<FI, FO, S, PI, PO>::Empty.outbound_substream_refusal() == Some(
            UsageError::SubstreamNotRequested,
        ),
        ProtocolState::<FI, FO, S, PI, PO>::Empty.submitted(
            ProtocolInEvent::ExecuteOutbound(function),
            ProtocolState::Outbound(OutboundProtocolState::GotFunctionNeedSubstream(function)),
        ),
        ProtocolState::<FI, FO, S, PI, PO>::Outbound(
            OutboundProtocolState::GotFunctionNeedSubstream(function),
        ).outbound_substream(substream, end) <==> runs_outbound(function, substream, end),
        ProtocolState::<FI, FO, S, PI, PO>::Outbound(
            OutboundProtocolState::GotFunctionNeedSubstream(function),
        ).polled(name, asked, answer) ==> (asked.outbound_substream(substream, end)
            <==> runs_outbound(function, substream, end)),
{
}

} // verus!
