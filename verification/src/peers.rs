//! Through which addresses each peer is connected.

use crate::network::{clone_address, same_address, same_peer};
use libp2p::{Multiaddr, PeerId};
use vstd::prelude::*;

verus! {

/// The addresses that `peers` records for `peer`: none for a peer that it does not know.
pub open spec fn addresses_of(peers: Map<PeerId, Seq<Multiaddr>>, peer: PeerId) -> Seq<Multiaddr> {
    if peers.contains_key(peer) {
        peers[peer]
    } else {
        Seq::empty()
    }
}

/// `addresses` without the first occurrence of `address`; every other address stays,
/// later occurrences of `address` too, in their order. Where `address` does not occur,
/// nothing leaves.
pub open spec fn without(addresses: Seq<Multiaddr>, address: Multiaddr) -> Seq<Multiaddr> {
    addresses.remove_value(address)
}

/// What `peers` becomes when a connection to `peer` through `address` is established:
/// the address is appended to those of the peer, which is known from then on.
pub open spec fn after_established(
    peers: Map<PeerId, Seq<Multiaddr>>,
    peer: PeerId,
    address: Multiaddr,
) -> Map<PeerId, Seq<Multiaddr>> {
    peers.insert(peer, addresses_of(peers, peer).push(address))
}

/// What `peers` becomes when a connection to `peer` through `address` is closed: the
/// address leaves those of the peer once, so that it stays as often as other connections
/// through it are open. A peer that was recorded stays recorded, also without
/// addresses; a peer that was not stays out.
pub open spec fn after_closed(
    peers: Map<PeerId, Seq<Multiaddr>>,
    peer: PeerId,
    address: Multiaddr,
) -> Map<PeerId, Seq<Multiaddr>> {
    if peers.contains_key(peer) {
        peers.insert(peer, without(peers[peer], address))
    } else {
        peers
    }
}

/// Whether `peers` records an open connection to `peer`: at least one address.
pub open spec fn is_connected(peers: Map<PeerId, Seq<Multiaddr>>, peer: PeerId) -> bool {
    addresses_of(peers, peer).len() > 0
}

/// Whether some entry of `entries` is about `peer`.
spec fn known(entries: Seq<(PeerId, Vec<Multiaddr>)>, peer: PeerId) -> bool {
    exists|i: int| 0 <= i < entries.len() && (#[trigger] entries[i]).0 == peer
}

/// The place of an entry about `peer`, where there is one.
spec fn position(entries: Seq<(PeerId, Vec<Multiaddr>)>, peer: PeerId) -> int {
    choose|i: int| 0 <= i < entries.len() && (#[trigger] entries[i]).0 == peer
}

/// Whether no two entries of `entries` are about the same peer.
spec fn distinct(entries: Seq<(PeerId, Vec<Multiaddr>)>) -> bool {
    forall|i: int, j: int|
        0 <= i < j < entries.len() ==> (#[trigger] entries[i]).0 != (#[trigger] entries[j]).0
}

/// The map that `entries` stands for.
spec fn as_map(entries: Seq<(PeerId, Vec<Multiaddr>)>) -> Map<PeerId, Seq<Multiaddr>> {
    Map::new(
        |peer: PeerId| known(entries, peer),
        |peer: PeerId| entries[position(entries, peer)].1@,
    )
}

/// In a list without repeated peers, the entry about a peer is found at one place only.
proof fn lemma_position(entries: Seq<(PeerId, Vec<Multiaddr>)>, i: int)
    requires
        distinct(entries),
        0 <= i < entries.len(),
    ensures
        known(entries, entries[i].0),
        position(entries, entries[i].0) == i,
        as_map(entries).contains_key(entries[i].0),
        as_map(entries)[entries[i].0] == entries[i].1@,
{
    let peer = entries[i].0;
    let j = position(entries, peer);
    assert(0 <= j < entries.len() && entries[j].0 == peer);
    if j < i {
        assert(entries[j].0 != entries[i].0);
    } else if i < j {
        assert(entries[i].0 != entries[j].0);
    }
}

/// Changing the addresses of one entry changes the map at that entry's peer only.
proof fn lemma_entry_updated(
    before: Seq<(PeerId, Vec<Multiaddr>)>,
    after: Seq<(PeerId, Vec<Multiaddr>)>,
    i: int,
)
    requires
        distinct(before),
        0 <= i < before.len(),
        after.len() == before.len(),
        after[i].0 == before[i].0,
        forall|k: int| 0 <= k < before.len() && k != i ==> after[k] == before[k],
    ensures
        distinct(after),
        as_map(after) == as_map(before).insert(before[i].0, after[i].1@),
{
    assert(forall|k: int| 0 <= k < before.len() ==> (#[trigger] after[k]).0 == before[k].0);
    assert(distinct(after)) by {
        assert forall|a: int, b: int| 0 <= a < b < after.len() implies (#[trigger] after[a]).0 != (
        #[trigger] after[b]).0 by {
            assert(before[a].0 != before[b].0);
        }
    }
    let expected = as_map(before).insert(before[i].0, after[i].1@);
    assert forall|peer: PeerId| as_map(after).contains_key(peer) == expected.contains_key(
        peer,
    ) by {
        if known(after, peer) {
            let k = position(after, peer);
            assert(before[k].0 == peer);
        }
        if known(before, peer) {
            let k = position(before, peer);
            assert(after[k].0 == peer);
        }
        if peer == before[i].0 {
            assert(after[i].0 == peer);
        }
    }
    assert forall|peer: PeerId| as_map(after).contains_key(peer) implies as_map(after)[peer]
        == expected[peer] by {
        let k = position(after, peer);
        lemma_position(after, k);
        if k != i {
            lemma_position(before, k);
        }
    }
    assert(as_map(after) =~= expected);
}

/// Appending an entry about a peer that had none adds that peer to the map.
proof fn lemma_entry_added(
    before: Seq<(PeerId, Vec<Multiaddr>)>,
    entry: (PeerId, Vec<Multiaddr>),
)
    requires
        distinct(before),
        !known(before, entry.0),
    ensures
        distinct(before.push(entry)),
        as_map(before.push(entry)) == as_map(before).insert(entry.0, entry.1@),
{
    let after = before.push(entry);
    let last = before.len() as int;
    assert(distinct(after)) by {
        assert forall|a: int, b: int| 0 <= a < b < after.len() implies (#[trigger] after[a]).0 != (
        #[trigger] after[b]).0 by {
            if b == last {
                assert(before[a].0 != entry.0);
            } else {
                assert(before[a].0 != before[b].0);
            }
        }
    }
    let expected = as_map(before).insert(entry.0, entry.1@);
    assert forall|peer: PeerId| as_map(after).contains_key(peer) == expected.contains_key(
        peer,
    ) by {
        if known(after, peer) {
            let k = position(after, peer);
            if k != last {
                assert(before[k].0 == peer);
            }
        }
        if known(before, peer) {
            let k = position(before, peer);
            assert(after[k].0 == peer);
        }
        if peer == entry.0 {
            assert(after[last].0 == peer);
        }
    }
    assert forall|peer: PeerId| as_map(after).contains_key(peer) implies as_map(after)[peer]
        == expected[peer] by {
        let k = position(after, peer);
        lemma_position(after, k);
        if k != last {
            lemma_position(before, k);
        }
    }
    assert(as_map(after) =~= expected);
}

/// A copy of `addresses`, address by address.
fn clone_addresses(addresses: &Vec<Multiaddr>) -> (copy: Vec<Multiaddr>)
    ensures
        copy@ == addresses@,
{
    let mut copy: Vec<Multiaddr> = Vec::new();
    let mut i: usize = 0;
    while i < addresses.len()
        invariant
            i <= addresses.len(),
            copy@ == addresses@.subrange(0, i as int),
        decreases addresses.len() - i,
    {
        copy.push(clone_address(&addresses[i]));
        i += 1;
    }
    copy
}

/// Takes the first occurrence of `address` out of `addresses` and keeps all others in
/// their order.
fn remove_address(addresses: &mut Vec<Multiaddr>, address: &Multiaddr)
    ensures
        final(addresses)@ == without(old(addresses)@, *address),
{
    let ghost before = addresses@;
    let mut i: usize = 0;
    while i < addresses.len()
        invariant
            before == old(addresses)@,
            addresses@ == before,
            i <= addresses.len(),
            forall|k: int| 0 <= k < i ==> before[k] != *address,
        decreases addresses.len() - i,
    {
        if same_address(&addresses[i], address) {
            proof {
                // The first occurrence is here: none stands before, and this is one.
                before.index_of_first_ensures(*address);
                assert(before.contains(before[i as int]));
                let first = before.index_of_first(*address).unwrap();
                assert(before[first] == *address);
                assert(first == i);
            }
            addresses.remove(i);
            return ;
        }
        i += 1;
    }
    proof {
        before.index_of_first_ensures(*address);
        assert(!before.contains(*address));
    }
}

/// Where the entry about `peer` stands in `entries`.
fn find(entries: &Vec<(PeerId, Vec<Multiaddr>)>, peer: &PeerId) -> (found: Option<usize>)
    ensures
        match found {
            Some(i) => i < entries@.len() && entries@[i as int].0 == *peer,
            None => !known(entries@, *peer),
        },
{
    let mut i: usize = 0;
    while i < entries.len()
        invariant
            i <= entries.len(),
            forall|k: int| 0 <= k < i ==> (#[trigger] entries@[k]).0 != *peer,
        decreases entries.len() - i,
    {
        if same_peer(&entries[i].0, peer) {
            return Some(i);
        }
        i += 1;
    }
    None
}

/// The peers that a connection was established to, each with the addresses of its
/// connections that are still open. An address occurs once for each connection that
/// was established through it.
///
/// No peer is recorded twice. A peer whose connections have all been closed stays
/// recorded, without addresses, and does not count as connected.
pub struct ConnectedPeers {
    entries: Vec<(PeerId, Vec<Multiaddr>)>,
}

impl View for ConnectedPeers {
    type V = Map<PeerId, Seq<Multiaddr>>;

    /// The addresses of each recorded peer, in the order in which their connections
    /// were established.
    closed spec fn view(&self) -> Map<PeerId, Seq<Multiaddr>> {
        as_map(self.entries@)
    }
}

impl ConnectedPeers {
    #[verifier::type_invariant]
    spec fn no_peer_twice(self) -> bool {
        distinct(self.entries@)
    }

    /// A record of no peer.
    pub fn new() -> (peers: Self)
        ensures
            peers@ == Map::<PeerId, Seq<Multiaddr>>::empty(),
    {
        let peers = ConnectedPeers { entries: Vec::new() };
        assert(peers@ =~= Map::<PeerId, Seq<Multiaddr>>::empty());
        peers
    }

    /// Whether a connection to `peer` is open.
    pub fn is_connected(&self, peer: &PeerId) -> (connected: bool)
        ensures
            connected == is_connected(self@, *peer),
    {
        proof {
            use_type_invariant(self);
        }
        match find(&self.entries, peer) {
            Some(i) => {
                proof {
                    lemma_position(self.entries@, i as int);
                }
                self.entries[i].1.len() > 0
            },
            None => false,
        }
    }

    /// The addresses through which `peer` is connected, oldest connection first.
    pub fn addresses(&self, peer: &PeerId) -> (addresses: Vec<Multiaddr>)
        ensures
            addresses@ == addresses_of(self@, *peer),
    {
        proof {
            use_type_invariant(self);
        }
        match find(&self.entries, peer) {
            Some(i) => {
                proof {
                    lemma_position(self.entries@, i as int);
                }
                clone_addresses(&self.entries[i].1)
            },
            None => Vec::new(),
        }
    }

    /// Records a connection to `peer` that was established through `address`.
    pub fn connection_established(&mut self, peer: PeerId, address: Multiaddr)
        ensures
            final(self)@ == after_established(old(self)@, peer, address),
    {
        proof {
            use_type_invariant(&*self);
        }
        let ghost before = self.entries@;
        // The entries are taken out while they change.
        let mut entries: Vec<(PeerId, Vec<Multiaddr>)> = Vec::new();
        core::mem::swap(&mut self.entries, &mut entries);
        match find(&entries, &peer) {
            Some(i) => {
                entries[i].1.push(address);
                proof {
                    lemma_position(before, i as int);
                    lemma_entry_updated(before, entries@, i as int);
                }
            },
            None => {
                let mut addresses: Vec<Multiaddr> = Vec::new();
                addresses.push(address);
                let ghost entry = (peer, addresses);
                entries.push((peer, addresses));
                proof {
                    lemma_entry_added(before, entry);
                    assert(entry.1@ =~= Seq::<Multiaddr>::empty().push(address));
                }
            },
        }
        self.entries = entries;
    }

    /// Records that a connection to `peer` through `address` was closed.
    pub fn connection_closed(&mut self, peer: PeerId, address: &Multiaddr)
        ensures
            final(self)@ == after_closed(old(self)@, peer, *address),
    {
        proof {
            use_type_invariant(&*self);
        }
        let ghost before = self.entries@;
        // The entries are taken out while they change.
        let mut entries: Vec<(PeerId, Vec<Multiaddr>)> = Vec::new();
        core::mem::swap(&mut self.entries, &mut entries);
        match find(&entries, &peer) {
            Some(i) => {
                remove_address(&mut entries[i].1, address);
                proof {
                    lemma_position(before, i as int);
                    lemma_entry_updated(before, entries@, i as int);
                }
            },
            None => {},
        }
        self.entries = entries;
    }
}

} // verus!
