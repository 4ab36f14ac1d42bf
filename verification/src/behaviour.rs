//! The coordinator between the application and the handlers of the connections.
//!
//! It queues the requests of the application until their peer is connected, records
//! through which addresses each peer is reached, and queues the outcomes that the
//! handlers report until the application takes them.

use crate::handler::Handler;
use crate::network::{clone_address, remote_address, remote_address_of};
use crate::peers::{addresses_of, after_closed, after_established, is_connected, ConnectedPeers};
use crate::protocol::{InboundSubstream, OutboundSubstream, ProtocolInEvent, ProtocolOutEvent};
use libp2p::{Multiaddr, PeerId};
use std::collections::VecDeque;
use vstd::prelude::*;

verus! {

/// How a request ended, with the peer it was for.
pub enum BehaviourOutEvent<I, O, E> {
    /// What the inbound protocol function ended with.
    Inbound(PeerId, Result<I, E>),
    /// What the outbound protocol function ended with.
    Outbound(PeerId, Result<O, E>),
    /// The outbound substream could not be negotiated, so the outbound protocol function
    /// was never called.
    DialUpgradeError(PeerId),
}

impl<I: Clone, O: Clone, E: Clone> Clone for BehaviourOutEvent<I, O, E> {
    fn clone(&self) -> (copy: Self)
        ensures
            match (*self, copy) {
                (BehaviourOutEvent::Inbound(peer, Ok(a)), BehaviourOutEvent::Inbound(p, Ok(b))) =>
                    p == peer && cloned::<I>(a, b),
                (BehaviourOutEvent::Inbound(peer, Err(a)), BehaviourOutEvent::Inbound(p, Err(b))) =>
                    p == peer && cloned::<E>(a, b),
                (BehaviourOutEvent::Outbound(peer, Ok(a)), BehaviourOutEvent::Outbound(p, Ok(b))) =>
                    p == peer && cloned::<O>(a, b),
                (
                    BehaviourOutEvent::Outbound(peer, Err(a)),
                    BehaviourOutEvent::Outbound(p, Err(b)),
                ) => p == peer && cloned::<E>(a, b),
                (BehaviourOutEvent::DialUpgradeError(peer), BehaviourOutEvent::DialUpgradeError(p)) =>
                    p == peer,
                _ => false,
            },
    {
        match self {
            BehaviourOutEvent::Inbound(peer, Ok(value)) => BehaviourOutEvent::Inbound(
                *peer,
                Ok(value.clone()),
            ),
            BehaviourOutEvent::Inbound(peer, Err(error)) => BehaviourOutEvent::Inbound(
                *peer,
                Err(error.clone()),
            ),
            BehaviourOutEvent::Outbound(peer, Ok(value)) => BehaviourOutEvent::Outbound(
                *peer,
                Ok(value.clone()),
            ),
            BehaviourOutEvent::Outbound(peer, Err(error)) => BehaviourOutEvent::Outbound(
                *peer,
                Err(error.clone()),
            ),
            BehaviourOutEvent::DialUpgradeError(peer) => BehaviourOutEvent::DialUpgradeError(*peer),
        }
    }
}

/// What the behaviour asks of its environment when it is polled.
pub enum BehaviourAction<FI, FO, I, O, E> {
    /// Hand `event` to a handler of a connection to `peer_id`.
    NotifyHandler { peer_id: PeerId, event: ProtocolInEvent<FI, FO> },
    /// Hand the outcome to the application.
    GenerateEvent(BehaviourOutEvent<I, O, E>),
}

/// What a handler reported for `peer`, as the application gets it.
pub open spec fn addressed<I, O, E>(
    peer: PeerId,
    event: ProtocolOutEvent<I, O, E>,
) -> BehaviourOutEvent<I, O, E> {
    match event {
        ProtocolOutEvent::Inbound(outcome) => BehaviourOutEvent::Inbound(peer, outcome),
        ProtocolOutEvent::Outbound(outcome) => BehaviourOutEvent::Outbound(peer, outcome),
        ProtocolOutEvent::DialUpgradeError => BehaviourOutEvent::DialUpgradeError(peer),
    }
}

/// What a behaviour holds.
#[verifier::ext_equal]
pub struct BehaviourView<FI, FO, I, O, E> {
    /// The requests that no handler has been given yet, the next one to look at first.
    pub requests: Seq<(PeerId, ProtocolInEvent<FI, FO>)>,
    /// The outcomes that the application has not been given yet, oldest first.
    pub outcomes: Seq<(PeerId, ProtocolOutEvent<I, O, E>)>,
    /// The peers that a connection was established to, each with the addresses of its
    /// open connections.
    pub peers: Map<PeerId, Seq<Multiaddr>>,
}

impl<FI, FO, I, O, E> BehaviourView<FI, FO, I, O, E> {
    /// The behaviour after the application has asked for `event` to run with `peer`:
    /// the request is the last in its queue.
    pub open spec fn requested(self, peer: PeerId, event: ProtocolInEvent<FI, FO>) -> Self {
        BehaviourView { requests: self.requests.push((peer, event)), ..self }
    }

    /// The behaviour after a handler of `peer` has reported `event`: the outcome is the
    /// last in its queue.
    pub open spec fn reported(self, peer: PeerId, event: ProtocolOutEvent<I, O, E>) -> Self {
        BehaviourView { outcomes: self.outcomes.push((peer, event)), ..self }
    }

    /// The behaviour after a connection to `peer` through `address` was established.
    pub open spec fn connection_established(self, peer: PeerId, address: Multiaddr) -> Self {
        BehaviourView { peers: after_established(self.peers, peer, address), ..self }
    }

    /// The behaviour after a connection to `peer` through `address` was closed.
    pub open spec fn connection_closed(self, peer: PeerId, address: Multiaddr) -> Self {
        BehaviourView { peers: after_closed(self.peers, peer, address), ..self }
    }

    /// Whether a poll hands the first request to a handler: there is a request, and a
    /// connection to its peer is open.
    pub open spec fn dispatches(self) -> bool {
        self.requests.len() > 0 && is_connected(self.peers, self.requests[0].0)
    }

    /// The requests after a poll. The first one leaves the queue where it is handed to a
    /// handler, and goes to the back where its peer is not connected.
    pub open spec fn requests_after_poll(self) -> Seq<(PeerId, ProtocolInEvent<FI, FO>)> {
        if self.requests.len() == 0 {
            self.requests
        } else if self.dispatches() {
            self.requests.drop_first()
        } else {
            self.requests.drop_first().push(self.requests[0])
        }
    }

    /// The behaviour after a poll, and what the poll answers.
    ///
    /// A poll looks at the first request only. Where it has no request to hand out, it
    /// takes the oldest outcome. `None` says that there is nothing to do.
    pub open spec fn poll(self) -> (Self, Option<BehaviourAction<FI, FO, I, O, E>>) {
        if self.dispatches() {
            (
                BehaviourView { requests: self.requests_after_poll(), ..self },
                Some(
                    BehaviourAction::NotifyHandler {
                        peer_id: self.requests[0].0,
                        event: self.requests[0].1,
                    },
                ),
            )
        } else if self.outcomes.len() > 0 {
            (
                BehaviourView {
                    requests: self.requests_after_poll(),
                    outcomes: self.outcomes.drop_first(),
                    ..self
                },
                Some(
                    BehaviourAction::GenerateEvent(
                        addressed(self.outcomes[0].0, self.outcomes[0].1),
                    ),
                ),
            )
        } else {
            (BehaviourView { requests: self.requests_after_poll(), ..self }, None)
        }
    }
}

/// A behaviour that runs protocol functions with the peers of this node.
///
/// `FI` and `FO` are the inbound and the outbound protocol function, `I` and `O` what
/// they end with, `E` their error.
pub struct Behaviour<FI, FO, I, O, E> {
    protocol_in_events: VecDeque<(PeerId, ProtocolInEvent<FI, FO>)>,
    protocol_out_events: VecDeque<(PeerId, ProtocolOutEvent<I, O, E>)>,
    connected_peers: ConnectedPeers,
    info: &'static [u8],
}

impl<FI, FO, I, O, E> View for Behaviour<FI, FO, I, O, E> {
    type V = BehaviourView<FI, FO, I, O, E>;

    closed spec fn view(&self) -> BehaviourView<FI, FO, I, O, E> {
        BehaviourView {
            requests: self.protocol_in_events@,
            outcomes: self.protocol_out_events@,
            peers: self.connected_peers@,
        }
    }
}

impl<FI, FO, I, O, E> Behaviour<FI, FO, I, O, E> {
    /// The bytes of the protocol name that the behaviour was made with.
    pub closed spec fn protocol_name(&self) -> Seq<u8> {
        self.info@
    }

    /// A behaviour for the protocol named `info`, with nothing queued and no peer
    /// connected.
    pub fn new(info: &'static [u8]) -> (behaviour: Self)
        ensures
            behaviour@.requests == Seq::<(PeerId, ProtocolInEvent<FI, FO>)>::empty(),
            behaviour@.outcomes == Seq::<(PeerId, ProtocolOutEvent<I, O, E>)>::empty(),
            behaviour@.peers == Map::<PeerId, Seq<Multiaddr>>::empty(),
            behaviour.protocol_name() == info@,
    {
        Self {
            protocol_in_events: VecDeque::new(),
            protocol_out_events: VecDeque::new(),
            connected_peers: ConnectedPeers::new(),
            info,
        }
    }

    /// Asks for `protocol` to run with `peer` on a substream that the peer opens.
    pub fn do_protocol_listener(&mut self, peer: PeerId, protocol: FI)
        ensures
            final(self)@ == old(self)@.requested(peer, ProtocolInEvent::ExecuteInbound(protocol)),
            final(self).protocol_name() == old(self).protocol_name(),
    {
        self.protocol_in_events.push_back((peer, ProtocolInEvent::ExecuteInbound(protocol)));
    }

    /// Asks for `protocol` to run with `peer` on a substream that this node opens.
    pub fn do_protocol_dialer(&mut self, peer: PeerId, protocol: FO)
        ensures
            final(self)@ == old(self)@.requested(peer, ProtocolInEvent::ExecuteOutbound(protocol)),
            final(self).protocol_name() == old(self).protocol_name(),
    {
        self.protocol_in_events.push_back((peer, ProtocolInEvent::ExecuteOutbound(protocol)));
    }

    /// A handler for a new connection, with an empty slot.
    pub fn new_handler<S, PI, PO>(&self) -> (handler: Handler<FI, FO, S, PI, PO>) where
        FI: FnOnce(InboundSubstream<S>) -> PI,
        FO: FnOnce(OutboundSubstream<S>) -> PO,

        ensures
            handler@ is Empty,
            handler.protocol_name() == self.protocol_name(),
    {
        Handler::new(self.info)
    }

    /// The addresses through which `peer` is connected, oldest connection first; none
    /// for a peer that is not connected.
    pub fn addresses_of_peer(&self, peer: &PeerId) -> (addresses: Vec<Multiaddr>)
        ensures
            addresses@ == addresses_of(self@.peers, *peer),
    {
        self.connected_peers.addresses(peer)
    }

    /// Takes the news that a connection to `peer` was established between the ends
    /// `point`: records the connection with the address of the remote end.
    pub fn inject_connection_established(
        &mut self,
        peer: &PeerId,
        point: &libp2p::core::ConnectedPoint,
    )
        ensures
            final(self)@ == old(self)@.connection_established(*peer, remote_address_of(*point)),
            final(self).protocol_name() == old(self).protocol_name(),
    {
        let address = clone_address(remote_address(point));
        self.connection_established(peer, address);
    }

    /// Takes the news that a connection to `peer` between the ends `point` was closed:
    /// records it with the address of the remote end.
    pub fn inject_connection_closed(
        &mut self,
        peer: &PeerId,
        point: &libp2p::core::ConnectedPoint,
    )
        ensures
            final(self)@ == old(self)@.connection_closed(*peer, remote_address_of(*point)),
            final(self).protocol_name() == old(self).protocol_name(),
    {
        self.connection_closed(peer, remote_address(point));
    }

    /// Records that a connection to `peer` through `address` was established.
    pub fn connection_established(&mut self, peer: &PeerId, address: Multiaddr)
        ensures
            final(self)@ == old(self)@.connection_established(*peer, address),
            final(self).protocol_name() == old(self).protocol_name(),
    {
        self.connected_peers.connection_established(*peer, address);
    }

    /// Records that a connection to `peer` through `address` was closed.
    pub fn connection_closed(&mut self, peer: &PeerId, address: &Multiaddr)
        ensures
            final(self)@ == old(self)@.connection_closed(*peer, *address),
            final(self).protocol_name() == old(self).protocol_name(),
    {
        self.connected_peers.connection_closed(*peer, address);
    }

    /// Takes the outcome that a handler of `peer` has reported.
    pub fn inject_event(&mut self, peer: PeerId, event: ProtocolOutEvent<I, O, E>)
        ensures
            final(self)@ == old(self)@.reported(peer, event),
            final(self).protocol_name() == old(self).protocol_name(),
    {
        self.protocol_out_events.push_back((peer, event));
    }

    /// Does one step of work: hands the first request to a handler of its peer or, where
    /// that peer is not connected, puts the request back and hands the oldest outcome
    /// to the application.
    pub fn poll(&mut self) -> (action: Option<BehaviourAction<FI, FO, I, O, E>>)
        ensures
            final(self)@ == old(self)@.poll().0,
            action == old(self)@.poll().1,
            final(self).protocol_name() == old(self).protocol_name(),
    {
        if let Some((peer, event)) = self.protocol_in_events.pop_front() {
            if !self.connected_peers.is_connected(&peer) {
                self.protocol_in_events.push_back((peer, event));
            } else {
                return Some(BehaviourAction::NotifyHandler { peer_id: peer, event });
            }
        }
        if let Some((peer, event)) = self.protocol_out_events.pop_front() {
            return Some(
                BehaviourAction::GenerateEvent(
                    match event {
                        ProtocolOutEvent::Inbound(outcome) => BehaviourOutEvent::Inbound(
                            peer,
                            outcome,
                        ),
                        ProtocolOutEvent::Outbound(outcome) => BehaviourOutEvent::Outbound(
                            peer,
                            outcome,
                        ),
                        ProtocolOutEvent::DialUpgradeError => BehaviourOutEvent::DialUpgradeError(
                            peer,
                        ),
                    },
                ),
            );
        }
        None
    }
}

} // verus!
