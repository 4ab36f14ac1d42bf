//! What holds of a behaviour over several calls, proved from what each call does.

use crate::behaviour::{BehaviourAction, BehaviourView};
use crate::peers::{
    addresses_of, after_closed, after_established, is_connected, without,
};
use crate::protocol::{ProtocolInEvent, ProtocolOutEvent};
use libp2p::{Multiaddr, PeerId};
use vstd::prelude::*;

verus! {

/// One call on a behaviour.
pub enum BehaviourCall<FI, FO, I, O, E> {
    /// [`crate::behaviour::Behaviour::do_protocol_listener`] for this peer.
    DoProtocolListener(PeerId, FI),
    /// [`crate::behaviour::Behaviour::do_protocol_dialer`] for this peer.
    DoProtocolDialer(PeerId, FO),
    /// [`crate::behaviour::Behaviour::inject_connection_established`] for this peer, with
    /// the address of the remote end.
    InjectConnectionEstablished(PeerId, Multiaddr),
    /// [`crate::behaviour::Behaviour::inject_connection_closed`] for this peer, with the
    /// address of the remote end.
    InjectConnectionClosed(PeerId, Multiaddr),
    /// [`crate::behaviour::Behaviour::inject_event`] for this peer.
    InjectEvent(PeerId, ProtocolOutEvent<I, O, E>),
    /// [`crate::behaviour::Behaviour::poll`].
    Poll,
}

impl<FI, FO, I, O, E> BehaviourCall<FI, FO, I, O, E> {
    /// Whether the call reports that a connection to `peer` was established.
    pub open spec fn establishes_connection(self, peer: PeerId) -> bool {
        self matches BehaviourCall::InjectConnectionEstablished(to, _) && to == peer
    }
}

/// Whether `action` hands a request to a handler of `peer`.
pub open spec fn dispatches_to<FI, FO, I, O, E>(
    action: Option<BehaviourAction<FI, FO, I, O, E>>,
    peer: PeerId,
) -> bool {
    action matches Some(BehaviourAction::NotifyHandler { peer_id, .. }) && peer_id == peer
}

impl<FI, FO, I, O, E> BehaviourView<FI, FO, I, O, E> {
    /// The behaviour after `call`, by the contract of the function that is called.
    pub open spec fn after(self, call: BehaviourCall<FI, FO, I, O, E>) -> Self {
        match call {
            BehaviourCall::DoProtocolListener(peer, protocol) => self.requested(
                peer,
                ProtocolInEvent::ExecuteInbound(protocol),
            ),
            BehaviourCall::DoProtocolDialer(peer, protocol) => self.requested(
                peer,
                ProtocolInEvent::ExecuteOutbound(protocol),
            ),
            BehaviourCall::InjectConnectionEstablished(peer, address) =>
                self.connection_established(peer, address),
            BehaviourCall::InjectConnectionClosed(peer, address) => self.connection_closed(
                peer,
                address,
            ),
            BehaviourCall::InjectEvent(peer, event) => self.reported(peer, event),
            BehaviourCall::Poll => self.poll().0,
        }
    }

    /// What `call` answers: the action of a poll, and nothing for any other call.
    pub open spec fn answer(self, call: BehaviourCall<FI, FO, I, O, E>) -> Option<
        BehaviourAction<FI, FO, I, O, E>,
    > {
        match call {
            BehaviourCall::Poll => self.poll().1,
            _ => None,
        }
    }

    /// The behaviour after all of `calls`, one after the other.
    pub open spec fn after_all(self, calls: Seq<BehaviourCall<FI, FO, I, O, E>>) -> Self
        decreases calls.len(),
    {
        if calls.len() == 0 {
            self
        } else {
            self.after_all(calls.drop_last()).after(calls.last())
        }
    }

    /// The behaviour after `n` polls in a row.
    pub open spec fn polled_times(self, n: nat) -> Self
        decreases n,
    {
        if n == 0 {
            self
        } else {
            self.poll().0.polled_times((n - 1) as nat)
        }
    }
}

/// How often `address` occurs in `addresses`.
pub open spec fn occurrences(addresses: Seq<Multiaddr>, address: Multiaddr) -> nat {
    addresses.to_multiset().count(address)
}

/// Dispatch waits for connectivity: a poll hands a request to a handler only if a
/// connection to the peer of the request is open, and the request it hands out is the
/// first of the queue. A poll changes nothing about the connections.
pub proof fn lemma_dispatch_needs_connection<FI, FO, I, O, E>(
    behaviour: BehaviourView<FI, FO, I, O, E>,
)
    ensures
        behaviour.poll().1 matches Some(BehaviourAction::NotifyHandler { peer_id, event })
            ==> is_connected(behaviour.peers, peer_id) && behaviour.requests.len() > 0
            && behaviour.requests[0] == (peer_id, event),
        behaviour.poll().0.peers == behaviour.peers,
{
}

/// A peer without an open connection has none until a call reports that one was
/// established: no other call opens a connection.
proof fn lemma_stays_unconnected<FI, FO, I, O, E>(
    behaviour: BehaviourView<FI, FO, I, O, E>,
    calls: Seq<BehaviourCall<FI, FO, I, O, E>>,
    peer: PeerId,
)
    requires
        !is_connected(behaviour.peers, peer),
        forall|i: int| 0 <= i < calls.len() ==> !(#[trigger] calls[i]).establishes_connection(peer),
    ensures
        !is_connected(behaviour.after_all(calls).peers, peer),
    decreases calls.len(),
{
    if calls.len() > 0 {
        let before = calls.drop_last();
        assert(forall|i: int|
            0 <= i < before.len() ==> !(#[trigger] before[i]).establishes_connection(peer));
        lemma_stays_unconnected(behaviour, before, peer);
        if let BehaviourCall::InjectConnectionClosed(to, address) = calls.last() {
            lemma_without(addresses_of(behaviour.after_all(before).peers, to), address, address);
        }
    }
}

/// Dispatch waits for connectivity, whatever else happens: in a sequence of calls of
/// which none reports that a connection to `peer` was established, made on a behaviour
/// without an open connection to `peer`, no call hands a request to a handler of `peer`.
/// That a connection was closed lets no request through.
pub proof fn lemma_no_dispatch_before_connection<FI, FO, I, O, E>(
    behaviour: BehaviourView<FI, FO, I, O, E>,
    calls: Seq<BehaviourCall<FI, FO, I, O, E>>,
    peer: PeerId,
    k: int,
)
    requires
        !is_connected(behaviour.peers, peer),
        forall|i: int| 0 <= i < calls.len() ==> !(#[trigger] calls[i]).establishes_connection(peer),
        0 <= k < calls.len(),
    ensures
        !dispatches_to(behaviour.after_all(calls.take(k)).answer(calls[k]), peer),
        !is_connected(behaviour.after_all(calls).peers, peer),
{
    let before = calls.take(k);
    assert(forall|i: int|
            0 <= i < before.len() ==> !(#[trigger] before[i]).establishes_connection(peer));
    lemma_stays_unconnected(behaviour, before, peer);
    lemma_stays_unconnected(behaviour, calls, peer);
}

/// A request whose peer has no open connection is not lost: after any call it is still
/// queued.
pub proof fn lemma_waiting_request_is_kept<FI, FO, I, O, E>(
    behaviour: BehaviourView<FI, FO, I, O, E>,
    call: BehaviourCall<FI, FO, I, O, E>,
    request: (PeerId, ProtocolInEvent<FI, FO>),
)
    requires
        behaviour.requests.contains(request),
        !is_connected(behaviour.peers, request.0),
    ensures
        behaviour.after(call).requests.contains(request),
{
    let i = choose|i: int| 0 <= i < behaviour.requests.len() && behaviour.requests[i] == request;
    let after = behaviour.after(call).requests;
    match call {
        BehaviourCall::Poll => {
            if i == 0 {
                assert(after[after.len() - 1] == request);
            } else {
                assert(after[i - 1] == request);
            }
        },
        BehaviourCall::DoProtocolListener(_, _) => {
            assert(after[i] == request);
        },
        BehaviourCall::DoProtocolDialer(_, _) => {
            assert(after[i] == request);
        },
        _ => {},
    }
}

/// A request waits as long as it must: in a sequence of calls of which none reports
/// that a connection to its peer was established, made on a behaviour without an open
/// connection to the peer, the request is still queued after the last call.
pub proof fn lemma_waiting_request_is_never_lost<FI, FO, I, O, E>(
    behaviour: BehaviourView<FI, FO, I, O, E>,
    calls: Seq<BehaviourCall<FI, FO, I, O, E>>,
    request: (PeerId, ProtocolInEvent<FI, FO>),
)
    requires
        behaviour.requests.contains(request),
        !is_connected(behaviour.peers, request.0),
        forall|i: int|
            0 <= i < calls.len() ==> !(#[trigger] calls[i]).establishes_connection(request.0),
    ensures
        behaviour.after_all(calls).requests.contains(request),
    decreases calls.len(),
{
    if calls.len() > 0 {
        let before = calls.drop_last();
        assert(forall|i: int|
            0 <= i < before.len() ==> !(#[trigger] before[i]).establishes_connection(request.0));
        lemma_waiting_request_is_never_lost(behaviour, before, request);
        lemma_stays_unconnected(behaviour, before, request.0);
        lemma_waiting_request_is_kept(behaviour.after_all(before), calls.last(), request);
    }
}

/// A poll loses no request: the first one is handed to a handler or goes to the back of
/// the queue, and every other one moves up by one place.
pub proof fn lemma_poll_keeps_requests<FI, FO, I, O, E>(
    behaviour: BehaviourView<FI, FO, I, O, E>,
    k: int,
)
    requires
        0 <= k < behaviour.requests.len(),
    ensures
        k > 0 ==> behaviour.poll().0.requests[k - 1] == behaviour.requests[k],
        k == 0 && behaviour.dispatches() ==> behaviour.poll().1 == Some(
            BehaviourAction::<FI, FO, I, O, E>::NotifyHandler {
                peer_id: behaviour.requests[0].0,
                event: behaviour.requests[0].1,
            },
        ),
        k == 0 && !behaviour.dispatches() ==> behaviour.poll().0.requests.last()
            == behaviour.requests[0],
        behaviour.poll().0.requests.len() == if behaviour.dispatches() {
            behaviour.requests.len() - 1
        } else {
            behaviour.requests.len() as int
        },
{
}

/// A request that stands at place `k` of the queue is the first one after `k` polls,
/// whatever became of the requests before it; the polls change nothing about the
/// connections.
pub proof fn lemma_request_reaches_front<FI, FO, I, O, E>(
    behaviour: BehaviourView<FI, FO, I, O, E>,
    k: nat,
)
    requires
        k < behaviour.requests.len(),
    ensures
        behaviour.polled_times(k).requests.len() > 0,
        behaviour.polled_times(k).requests[0] == behaviour.requests[k as int],
        behaviour.polled_times(k).peers == behaviour.peers,
    decreases k,
{
    if k > 0 {
        lemma_poll_keeps_requests(behaviour, k as int);
        lemma_request_reaches_front(behaviour.poll().0, (k - 1) as nat);
    }
}

/// No request waits forever for a connected peer: a request at place `k` of the queue
/// whose peer is connected is handed to a handler by the poll that follows `k` others.
/// So the requests for connected peers are handed out in the order of the queue.
pub proof fn lemma_connected_request_is_dispatched<FI, FO, I, O, E>(
    behaviour: BehaviourView<FI, FO, I, O, E>,
    k: nat,
)
    requires
        k < behaviour.requests.len(),
        is_connected(behaviour.peers, behaviour.requests[k as int].0),
    ensures
        behaviour.polled_times(k).poll().1 == Some(
            BehaviourAction::<FI, FO, I, O, E>::NotifyHandler {
                peer_id: behaviour.requests[k as int].0,
                event: behaviour.requests[k as int].1,
            },
        ),
{
    lemma_request_reaches_front(behaviour, k);
}

/// A connected peer is not held up by one that is not: with a request for `a`, not
/// connected, queued before a request for `b`, connected, the first poll hands out no
/// request and puts the one for `a` behind the one for `b`, the second poll hands out
/// the request for `b`, and once a connection to `a` is reported the next poll hands out
/// the request for `a`.
pub proof fn lemma_connected_peer_overtakes<FI, FO, I, O, E>(
    behaviour: BehaviourView<FI, FO, I, O, E>,
    a: PeerId,
    for_a: ProtocolInEvent<FI, FO>,
    b: PeerId,
    for_b: ProtocolInEvent<FI, FO>,
    address: Multiaddr,
)
    requires
        behaviour.requests == seq![(a, for_a), (b, for_b)],
        !is_connected(behaviour.peers, a),
        is_connected(behaviour.peers, b),
    ensures
        !(behaviour.poll().1 is Some && behaviour.poll().1->0 is NotifyHandler),
        behaviour.poll().0.requests == seq![(b, for_b), (a, for_a)],
        behaviour.poll().0.poll().1 == Some(
            BehaviourAction::<FI, FO, I, O, E>::NotifyHandler { peer_id: b, event: for_b },
        ),
        behaviour.poll().0.poll().0.requests == seq![(a, for_a)],
        behaviour.poll().0.poll().0.connection_established(a, address).poll().1 == Some(
            BehaviourAction::<FI, FO, I, O, E>::NotifyHandler { peer_id: a, event: for_a },
        ),
        behaviour.poll().0.poll().0.connection_established(a, address).poll().0.requests
            == Seq::<(PeerId, ProtocolInEvent<FI, FO>)>::empty(),
{
    let first = behaviour.poll().0;
    assert(first.requests =~= seq![(b, for_b), (a, for_a)]);
    let second = first.poll().0;
    assert(second.requests =~= seq![(a, for_a)]);
    let third = second.connection_established(a, address);
    assert(third.poll().0.requests =~= Seq::<(PeerId, ProtocolInEvent<FI, FO>)>::empty());
}

/// Closing takes one occurrence away, the first: where `address` occurs in
/// `addresses`, what is left is `addresses` without the element at the first place that
/// holds `address`; it is shorter by one and holds `address` once less, and every other
/// address as often as before. Where `address` does not occur, nothing changes.
pub proof fn lemma_without(addresses: Seq<Multiaddr>, address: Multiaddr, other: Multiaddr)
    ensures
        addresses.contains(address) ==> {
            &&& exists|first: int|
                {
                    &&& 0 <= first < addresses.len()
                    &&& addresses[first] == address
                    &&& forall|k: int| 0 <= k < first ==> addresses[k] != address
                    &&& #[trigger] addresses.remove(first) == without(addresses, address)
                }
            &&& without(addresses, address).len() == addresses.len() - 1
            &&& occurrences(without(addresses, address), address) == occurrences(
                addresses,
                address,
            ) - 1
        },
        !addresses.contains(address) ==> without(addresses, address) == addresses,
        other != address ==> occurrences(without(addresses, address), other) == occurrences(
            addresses,
            other,
        ),
        occurrences(addresses, address) > 0 <==> addresses.contains(address),
{
    broadcast use vstd::seq_lib::group_to_multiset_ensures;

    addresses.index_of_first_ensures(address);
    if addresses.contains(address) {
        let first = addresses.index_of_first(address).unwrap();
        assert(addresses.remove(first) == without(addresses, address));
        assert(addresses.remove(first).to_multiset() == addresses.to_multiset().remove(address));
    }
}

/// When a connection is closed, its address leaves those of the peer once: the peer has
/// one address less, that address once less and every other address as often as before,
/// and the addresses of every other peer stay as they are. Where the peer has no such
/// address, nothing changes. No peer is recorded that was not before. The peer still
/// counts as connected exactly if an address is left: with two connections through one
/// address, one of which is closed, it does.
pub proof fn lemma_closed_address_removed(
    peers: Map<PeerId, Seq<Multiaddr>>,
    peer: PeerId,
    address: Multiaddr,
    other_peer: PeerId,
    other_address: Multiaddr,
)
    ensures
        addresses_of(after_closed(peers, peer, address), peer) == without(
            addresses_of(peers, peer),
            address,
        ),
        addresses_of(peers, peer).contains(address) ==> {
            &&& addresses_of(after_closed(peers, peer, address), peer).len() == addresses_of(
                peers,
                peer,
            ).len() - 1
            &&& occurrences(addresses_of(after_closed(peers, peer, address), peer), address)
                == occurrences(addresses_of(peers, peer), address) - 1
        },
        !addresses_of(peers, peer).contains(address) ==> after_closed(peers, peer, address)
            =~= peers,
        other_address != address ==> occurrences(
            addresses_of(after_closed(peers, peer, address), peer),
            other_address,
        ) == occurrences(addresses_of(peers, peer), other_address),
        other_peer != peer ==> addresses_of(after_closed(peers, peer, address), other_peer)
            == addresses_of(peers, other_peer),
        after_closed(peers, peer, address).dom() == peers.dom(),
        is_connected(after_closed(peers, peer, address), peer) <==> {
            ||| addresses_of(peers, peer).len() > 1
            ||| addresses_of(peers, peer).len() == 1 && addresses_of(peers, peer)[0] != address
        },
{
    let addresses = addresses_of(peers, peer);
    lemma_without(addresses, address, other_address);
    addresses.index_of_first_ensures(address);
    if !peers.contains_key(peer) {
        assert(!addresses.contains(address));
    }
    if addresses.len() == 1 {
        assert(addresses.contains(address) <==> addresses[0] == address);
    }
}

/// Two connections through one address, one of them closed: the address is still there,
/// once, and the peer still counts as connected.
pub proof fn lemma_one_of_two_equal_connections_closed(
    peers: Map<PeerId, Seq<Multiaddr>>,
    peer: PeerId,
    address: Multiaddr,
)
    ensures
        addresses_of(
            after_closed(
                after_established(after_established(peers, peer, address), peer, address),
                peer,
                address,
            ),
            peer,
        ).len() == addresses_of(peers, peer).len() + 1,
        occurrences(
            addresses_of(
                after_closed(
                    after_established(after_established(peers, peer, address), peer, address),
                    peer,
                    address,
                ),
                peer,
            ),
            address,
        ) == occurrences(addresses_of(peers, peer), address) + 1,
        is_connected(
            after_closed(
                after_established(after_established(peers, peer, address), peer, address),
                peer,
                address,
            ),
            peer,
        ),
{
    broadcast use vstd::seq_lib::group_to_multiset_ensures;

    let once = after_established(peers, peer, address);
    let twice = after_established(once, peer, address);
    let addresses = addresses_of(twice, peer);
    assert(addresses == addresses_of(peers, peer).push(address).push(address));
    assert(addresses[addresses.len() - 1] == address);
    assert(addresses.contains(address));
    lemma_closed_address_removed(twice, peer, address, peer, address);
}

/// When a connection is established, its address is the last among those of the peer,
/// the peer counts as connected, and the addresses of every other peer stay as they are.
pub proof fn lemma_established_address_added(
    peers: Map<PeerId, Seq<Multiaddr>>,
    peer: PeerId,
    address: Multiaddr,
    other_peer: PeerId,
)
    ensures
        is_connected(after_established(peers, peer, address), peer),
        addresses_of(after_established(peers, peer, address), peer) == addresses_of(peers, peer).push(
            address,
        ),
        other_peer != peer ==> addresses_of(after_established(peers, peer, address), other_peer)
            == addresses_of(peers, other_peer),
{
}

} // verus!
