use libp2p::futures::channel::oneshot;
use libp2p::futures::future::BoxFuture;
use libp2p::futures::task::noop_waker;
use libp2p::futures::FutureExt;
use libp2p_async_await::{
    Handler, HandlerEvent, InboundProtocolState, InboundSubstream, OutboundProtocolState,
    OutboundSubstream, Polled, ProtocolInEvent, ProtocolOutEvent, ProtocolState, UsageError,
};
use std::task::Context;

type Task = BoxFuture<'static, Result<u32, String>>;
type InboundFn = Box<dyn FnOnce(InboundSubstream<u32>) -> Task + Send>;
type OutboundFn = Box<dyn FnOnce(OutboundSubstream<u32>) -> Task + Send>;
type TestHandler = Handler<InboundFn, OutboundFn, u32, Task, Task>;
type TestState = ProtocolState<InboundFn, OutboundFn, u32, Task, Task>;
type TestEvent = Option<HandlerEvent<u32, u32, String>>;

const NAME: &[u8] = b"/foo/bar/1.0.0";

/// An inbound function that ends at once with the number of its substream plus `add`.
fn inbound_adding(add: u32) -> InboundFn {
    Box::new(move |substream: InboundSubstream<u32>| {
        std::future::ready(Ok(substream.0 + add)).boxed()
    })
}

/// An outbound function that ends at once with `value`.
fn outbound_returning(value: u32) -> OutboundFn {
    Box::new(move |_substream: OutboundSubstream<u32>| std::future::ready(Ok(value)).boxed())
}

fn poll(handler: &mut TestHandler) -> TestEvent {
    let waker = noop_waker();
    let mut cx = Context::from_waker(&waker);
    handler.poll(&mut cx)
}

fn is_inbound_outcome(event: &TestEvent, expected: Result<u32, String>) -> bool {
    match event {
        Some(HandlerEvent::Custom(ProtocolOutEvent::Inbound(outcome))) => *outcome == expected,
        _ => false,
    }
}

fn is_outbound_outcome(event: &TestEvent, expected: Result<u32, String>) -> bool {
    match event {
        Some(HandlerEvent::Custom(ProtocolOutEvent::Outbound(outcome))) => *outcome == expected,
        _ => false,
    }
}

#[test]
fn new_handler_has_nothing_to_report() {
    let mut handler = TestHandler::new(NAME);
    assert!(poll(&mut handler).is_none());
    assert!(poll(&mut handler).is_none());
}

#[test]
fn handler_keeps_the_connection_alive() {
    let mut handler = TestHandler::new(NAME);
    assert!(handler.connection_keep_alive());
    handler.inject_event(ProtocolInEvent::ExecuteOutbound(outbound_returning(1)));
    assert!(handler.connection_keep_alive());
}

#[test]
fn handler_listens_for_its_protocol() {
    let handler = TestHandler::new(NAME);
    assert_eq!(handler.listen_protocol().protocol_info(), NAME);
}

#[test]
fn outbound_request_asks_for_a_substream_once() {
    let mut handler = TestHandler::new(NAME);
    handler.inject_event(ProtocolInEvent::ExecuteOutbound(outbound_returning(42)));
    match poll(&mut handler) {
        Some(HandlerEvent::OutboundSubstreamRequest { protocol }) => {
            assert_eq!(protocol.protocol_info(), NAME)
        }
        _ => panic!("the handler did not ask for a substream"),
    }
    assert!(poll(&mut handler).is_none());
    assert!(poll(&mut handler).is_none());
}

#[test]
fn outbound_request_runs_to_its_outcome() {
    let mut handler = TestHandler::new(NAME);
    handler.inject_event(ProtocolInEvent::ExecuteOutbound(outbound_returning(42)));
    assert!(matches!(poll(&mut handler), Some(HandlerEvent::OutboundSubstreamRequest { .. })));
    handler.inject_fully_negotiated_outbound(OutboundSubstream(7));
    assert!(is_outbound_outcome(&poll(&mut handler), Ok(42)));
}

#[test]
fn inbound_substream_before_function_pairs_on_submit() {
    let mut handler = TestHandler::new(NAME);
    handler.inject_fully_negotiated_inbound(InboundSubstream(10));
    assert!(poll(&mut handler).is_none());
    handler.inject_event(ProtocolInEvent::ExecuteInbound(inbound_adding(5)));
    assert!(is_inbound_outcome(&poll(&mut handler), Ok(15)));
}

#[test]
fn inbound_function_before_substream_pairs_on_arrival() {
    let mut handler = TestHandler::new(NAME);
    handler.inject_event(ProtocolInEvent::ExecuteInbound(inbound_adding(5)));
    assert!(poll(&mut handler).is_none());
    handler.inject_fully_negotiated_inbound(InboundSubstream(10));
    assert!(is_inbound_outcome(&poll(&mut handler), Ok(15)));
}

#[test]
fn inbound_arrival_order_does_not_change_the_outcome() {
    let mut function_first = TestHandler::new(NAME);
    function_first.inject_event(ProtocolInEvent::ExecuteInbound(inbound_adding(1)));
    function_first.inject_fully_negotiated_inbound(InboundSubstream(99));

    let mut substream_first = TestHandler::new(NAME);
    substream_first.inject_fully_negotiated_inbound(InboundSubstream(99));
    substream_first.inject_event(ProtocolInEvent::ExecuteInbound(inbound_adding(1)));

    let one = poll(&mut function_first);
    let other = poll(&mut substream_first);
    assert!(is_inbound_outcome(&one, Ok(100)));
    assert!(is_inbound_outcome(&other, Ok(100)));
}

#[test]
fn duplicate_outbound_request_is_refused() {
    let mut handler = TestHandler::new(NAME);
    handler.inject_event(ProtocolInEvent::ExecuteOutbound(outbound_returning(42)));
    assert_eq!(
        handler.event_refusal(&ProtocolInEvent::ExecuteOutbound(outbound_returning(7))),
        Some(UsageError::ProtocolFnAlreadyPresent)
    );
    // The first request goes on as if the second had not been made.
    assert!(matches!(poll(&mut handler), Some(HandlerEvent::OutboundSubstreamRequest { .. })));
    assert_eq!(
        handler.event_refusal(&ProtocolInEvent::ExecuteOutbound(outbound_returning(7))),
        Some(UsageError::ProtocolFnAlreadyPresent)
    );
    handler.inject_fully_negotiated_outbound(OutboundSubstream(0));
    assert_eq!(
        handler.event_refusal(&ProtocolInEvent::ExecuteOutbound(outbound_returning(7))),
        Some(UsageError::ProtocolFnAlreadyPresent)
    );
    assert!(is_outbound_outcome(&poll(&mut handler), Ok(42)));
}

#[test]
fn duplicate_inbound_request_is_refused() {
    let mut handler = TestHandler::new(NAME);
    handler.inject_event(ProtocolInEvent::ExecuteInbound(inbound_adding(1)));
    assert_eq!(
        handler.event_refusal(&ProtocolInEvent::ExecuteInbound(inbound_adding(2))),
        Some(UsageError::ProtocolFnAlreadyPresent)
    );
    handler.inject_fully_negotiated_inbound(InboundSubstream(10));
    assert_eq!(
        handler.event_refusal(&ProtocolInEvent::ExecuteInbound(inbound_adding(2))),
        Some(UsageError::ProtocolFnAlreadyPresent)
    );
    assert!(is_inbound_outcome(&poll(&mut handler), Ok(11)));
}

#[test]
fn request_of_the_other_direction_is_refused() {
    let mut inbound = TestHandler::new(NAME);
    inbound.inject_event(ProtocolInEvent::ExecuteInbound(inbound_adding(1)));
    assert_eq!(
        inbound.event_refusal(&ProtocolInEvent::ExecuteOutbound(outbound_returning(2))),
        Some(UsageError::OutboundFnInInboundProtocol)
    );

    let mut outbound = TestHandler::new(NAME);
    outbound.inject_event(ProtocolInEvent::ExecuteOutbound(outbound_returning(2)));
    assert_eq!(
        outbound.event_refusal(&ProtocolInEvent::ExecuteInbound(inbound_adding(1))),
        Some(UsageError::InboundFnInOutboundProtocol)
    );
    // Neither slot has changed.
    inbound.inject_fully_negotiated_inbound(InboundSubstream(1));
    assert!(is_inbound_outcome(&poll(&mut inbound), Ok(2)));
    assert!(matches!(poll(&mut outbound), Some(HandlerEvent::OutboundSubstreamRequest { .. })));
}

#[test]
fn second_inbound_substream_is_refused() {
    let mut handler = TestHandler::new(NAME);
    handler.inject_fully_negotiated_inbound(InboundSubstream(10));
    assert_eq!(handler.inbound_substream_refusal(), Some(UsageError::SubstreamAlreadyPresent));
    // The first substream is the one that the function gets.
    handler.inject_event(ProtocolInEvent::ExecuteInbound(inbound_adding(0)));
    assert_eq!(handler.inbound_substream_refusal(), Some(UsageError::SubstreamAlreadyPresent));
    assert!(is_inbound_outcome(&poll(&mut handler), Ok(10)));
}

#[test]
fn outbound_substream_on_an_empty_slot_is_refused() {
    let handler = TestHandler::new(NAME);
    assert_eq!(handler.outbound_substream_refusal(), Some(UsageError::SubstreamNotRequested));
    // An inbound substream and a request of either direction are welcome.
    assert_eq!(handler.inbound_substream_refusal(), None);
    assert_eq!(
        handler.event_refusal(&ProtocolInEvent::ExecuteInbound(inbound_adding(1))),
        None
    );
    assert_eq!(
        handler.event_refusal(&ProtocolInEvent::ExecuteOutbound(outbound_returning(1))),
        None
    );
}

#[test]
fn outbound_substream_meets_a_function_that_has_not_asked_yet() {
    let mut handler = TestHandler::new(NAME);
    handler.inject_event(ProtocolInEvent::ExecuteOutbound(outbound_returning(42)));
    // The function is there, and no poll has asked for the substream yet.
    assert_eq!(handler.outbound_substream_refusal(), None);
    handler.inject_fully_negotiated_outbound(OutboundSubstream(1));
    assert_eq!(handler.outbound_substream_refusal(), Some(UsageError::SubstreamAlreadyPresent));
    // The task runs, and nobody asks for a substream any more.
    assert!(is_outbound_outcome(&poll(&mut handler), Ok(42)));
    assert!(poll(&mut handler).is_none());
}

#[test]
fn outbound_substream_meets_a_function_that_has_asked() {
    let mut handler = TestHandler::new(NAME);
    handler.inject_event(ProtocolInEvent::ExecuteOutbound(outbound_returning(42)));
    assert!(matches!(poll(&mut handler), Some(HandlerEvent::OutboundSubstreamRequest { .. })));
    assert_eq!(handler.outbound_substream_refusal(), None);
    handler.inject_fully_negotiated_outbound(OutboundSubstream(1));
    assert_eq!(handler.outbound_substream_refusal(), Some(UsageError::SubstreamAlreadyPresent));
    assert!(is_outbound_outcome(&poll(&mut handler), Ok(42)));
}

#[test]
fn substream_of_the_other_direction_is_refused() {
    let mut inbound = TestHandler::new(NAME);
    inbound.inject_fully_negotiated_inbound(InboundSubstream(1));
    assert_eq!(inbound.outbound_substream_refusal(), Some(UsageError::OutboundSubstreamInInboundProtocol));

    let mut outbound = TestHandler::new(NAME);
    outbound.inject_event(ProtocolInEvent::ExecuteOutbound(outbound_returning(2)));
    assert_eq!(outbound.inbound_substream_refusal(), Some(UsageError::InboundSubstreamInOutboundProtocol));
}

#[test]
fn outcome_is_reported_once() {
    let mut handler = TestHandler::new(NAME);
    handler.inject_fully_negotiated_inbound(InboundSubstream(1));
    handler.inject_event(ProtocolInEvent::ExecuteInbound(inbound_adding(1)));
    assert!(is_inbound_outcome(&poll(&mut handler), Ok(2)));
    assert!(poll(&mut handler).is_none());
    assert!(poll(&mut handler).is_none());
    assert!(poll(&mut handler).is_none());
}

#[test]
fn done_handler_takes_nothing_more() {
    let mut handler = TestHandler::new(NAME);
    handler.inject_fully_negotiated_inbound(InboundSubstream(1));
    handler.inject_event(ProtocolInEvent::ExecuteInbound(inbound_adding(1)));
    assert!(is_inbound_outcome(&poll(&mut handler), Ok(2)));

    assert_eq!(
        handler.event_refusal(&ProtocolInEvent::ExecuteInbound(inbound_adding(1))),
        Some(UsageError::ProtocolFnAlreadyPresent)
    );
    assert_eq!(
        handler.event_refusal(&ProtocolInEvent::ExecuteOutbound(outbound_returning(1))),
        Some(UsageError::ProtocolFnAlreadyPresent)
    );
    assert_eq!(handler.inbound_substream_refusal(), Some(UsageError::SubstreamAlreadyPresent));
    assert_eq!(handler.outbound_substream_refusal(), Some(UsageError::SubstreamAlreadyPresent));
    assert!(poll(&mut handler).is_none());
}

#[test]
fn error_of_the_protocol_function_is_the_outcome() {
    let mut handler = TestHandler::new(NAME);
    let failing: InboundFn =
        Box::new(|_substream| std::future::ready(Err(String::from("remote hung up"))).boxed());
    handler.inject_event(ProtocolInEvent::ExecuteInbound(failing));
    handler.inject_fully_negotiated_inbound(InboundSubstream(3));
    assert!(is_inbound_outcome(&poll(&mut handler), Err(String::from("remote hung up"))));
    assert!(poll(&mut handler).is_none());
}

#[test]
fn task_that_is_not_ready_reports_nothing() {
    let (sender, receiver) = oneshot::channel::<u32>();
    let waiting: OutboundFn = Box::new(move |substream: OutboundSubstream<u32>| {
        async move {
            match receiver.await {
                Ok(value) => Ok(value + substream.0),
                Err(_) => Err(String::from("sender dropped")),
            }
        }
        .boxed()
    });
    let mut handler = TestHandler::new(NAME);
    handler.inject_event(ProtocolInEvent::ExecuteOutbound(waiting));
    assert!(matches!(poll(&mut handler), Some(HandlerEvent::OutboundSubstreamRequest { .. })));
    handler.inject_fully_negotiated_outbound(OutboundSubstream(2));

    assert!(poll(&mut handler).is_none());
    assert!(poll(&mut handler).is_none());
    // While the task runs the slot takes no other request.
    assert_eq!(
        handler.event_refusal(&ProtocolInEvent::ExecuteInbound(inbound_adding(1))),
        Some(UsageError::InboundFnInOutboundProtocol)
    );
    sender.send(40).unwrap();
    assert!(is_outbound_outcome(&poll(&mut handler), Ok(42)));
    assert!(poll(&mut handler).is_none());
}

#[test]
fn failed_negotiation_is_reported_once() {
    let mut handler = TestHandler::new(NAME);
    handler.inject_event(ProtocolInEvent::ExecuteOutbound(outbound_returning(42)));
    assert!(matches!(poll(&mut handler), Some(HandlerEvent::OutboundSubstreamRequest { .. })));
    handler.inject_dial_upgrade_error();
    assert!(matches!(
        poll(&mut handler),
        Some(HandlerEvent::Custom(ProtocolOutEvent::DialUpgradeError))
    ));
    // No second report, and no second request for a substream.
    assert!(poll(&mut handler).is_none());
    assert!(poll(&mut handler).is_none());
}

#[test]
fn handler_is_done_after_a_failed_negotiation() {
    let mut handler = TestHandler::new(NAME);
    handler.inject_event(ProtocolInEvent::ExecuteOutbound(outbound_returning(42)));
    assert!(matches!(poll(&mut handler), Some(HandlerEvent::OutboundSubstreamRequest { .. })));
    handler.inject_dial_upgrade_error();
    // The failure occupies the slot until it is reported.
    assert_eq!(
        handler.event_refusal(&ProtocolInEvent::ExecuteOutbound(outbound_returning(7))),
        Some(UsageError::ProtocolFnAlreadyPresent)
    );
    assert_eq!(handler.outbound_substream_refusal(), Some(UsageError::SubstreamAlreadyPresent));
    assert!(matches!(
        poll(&mut handler),
        Some(HandlerEvent::Custom(ProtocolOutEvent::DialUpgradeError))
    ));
    assert_eq!(
        handler.event_refusal(&ProtocolInEvent::ExecuteOutbound(outbound_returning(7))),
        Some(UsageError::ProtocolFnAlreadyPresent)
    );
    assert_eq!(handler.outbound_substream_refusal(), Some(UsageError::SubstreamAlreadyPresent));
    assert!(poll(&mut handler).is_none());
}

#[test]
fn failure_of_a_substream_that_nobody_asked_for_changes_nothing() {
    let mut empty = TestHandler::new(NAME);
    empty.inject_dial_upgrade_error();
    assert!(poll(&mut empty).is_none());
    empty.inject_event(ProtocolInEvent::ExecuteInbound(inbound_adding(1)));
    empty.inject_dial_upgrade_error();
    empty.inject_fully_negotiated_inbound(InboundSubstream(1));
    empty.inject_dial_upgrade_error();
    assert!(is_inbound_outcome(&poll(&mut empty), Ok(2)));
    empty.inject_dial_upgrade_error();
    assert!(poll(&mut empty).is_none());

    let mut waiting = TestHandler::new(NAME);
    waiting.inject_event(ProtocolInEvent::ExecuteOutbound(outbound_returning(42)));
    // No poll has asked for the substream yet.
    waiting.inject_dial_upgrade_error();
    assert!(matches!(poll(&mut waiting), Some(HandlerEvent::OutboundSubstreamRequest { .. })));
    waiting.inject_fully_negotiated_outbound(OutboundSubstream(1));
    waiting.inject_dial_upgrade_error();
    assert!(is_outbound_outcome(&poll(&mut waiting), Ok(42)));
}

#[test]
fn polled_inbound_task_with_output_is_done() {
    let (state, event): (TestState, TestEvent) =
        ProtocolState::inbound_polled(Polled::Ready(Err(String::from("no"))));
    assert!(matches!(state, ProtocolState::Done));
    assert!(is_inbound_outcome(&event, Err(String::from("no"))));
}

#[test]
fn polled_inbound_task_without_output_goes_on() {
    let task: Task = std::future::ready(Ok(1)).boxed();
    let (state, event): (TestState, TestEvent) =
        ProtocolState::inbound_polled(Polled::Pending(task));
    assert!(event.is_none());
    match state {
        ProtocolState::Inbound(InboundProtocolState::Executing(task)) => {
            assert_eq!(libp2p::futures::executor::block_on(task), Ok(1))
        }
        _ => panic!("the task was dropped"),
    }
}

#[test]
fn polled_outbound_task_with_output_is_done() {
    let (state, event): (TestState, TestEvent) =
        ProtocolState::outbound_polled(Polled::Ready(Ok(9)));
    assert!(matches!(state, ProtocolState::Done));
    assert!(is_outbound_outcome(&event, Ok(9)));
}

#[test]
fn polled_outbound_task_without_output_goes_on() {
    let task: Task = std::future::ready(Ok(5)).boxed();
    let (state, event): (TestState, TestEvent) =
        ProtocolState::outbound_polled(Polled::Pending(task));
    assert!(event.is_none());
    match state {
        ProtocolState::Outbound(OutboundProtocolState::Executing(task)) => {
            assert_eq!(libp2p::futures::executor::block_on(task), Ok(5))
        }
        _ => panic!("the task was dropped"),
    }
}

#[test]
fn usage_errors_say_what_went_wrong() {
    assert_eq!(
        UsageError::SubstreamAlreadyPresent.message(),
        "Illegal state, substream is already present."
    );
    assert_eq!(
        UsageError::SubstreamNotRequested.message(),
        "Illegal state, receiving substream means it was requested."
    );
    assert_eq!(
        UsageError::InboundSubstreamInOutboundProtocol.message(),
        "Failed to process inbound substream in outbound protocol."
    );
    assert_eq!(
        UsageError::OutboundSubstreamInInboundProtocol.message(),
        "Failed to process outbound substream in inbound protocol."
    );
    assert_eq!(
        UsageError::ProtocolFnAlreadyPresent.message(),
        "Illegal state, protocol fn is already present."
    );
    assert_eq!(
        UsageError::InboundFnInOutboundProtocol.message(),
        "Failed to process inbound protocol fn in outbound protocol."
    );
    assert_eq!(
        UsageError::OutboundFnInInboundProtocol.message(),
        "Failed to process outbound protocol fn in inbound protocol."
    );
}
