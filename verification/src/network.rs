//! The types of libp2p and of the task machinery that this crate carries through, and the
//! few calls it makes on them. Nothing in this file is proved: each contract restates
//! what the called code does.

use crate::handler::Polled;
use libp2p::futures::FutureExt;
use libp2p::{Multiaddr, PeerId};
use std::future::Future;
use std::task::{Context, Poll};
use vstd::prelude::*;

verus! {

/// `libp2p::PeerId`, the identifier of a peer. The crate never looks inside one.
#[verifier::external_type_specification]
#[verifier::external_body]
pub struct ExPeerId(libp2p::PeerId);

/// `libp2p::Multiaddr`, an address through which a peer is reached. The crate never looks
/// inside one.
#[verifier::external_type_specification]
#[verifier::external_body]
pub struct ExMultiaddr(libp2p::Multiaddr);

/// `libp2p::core::ConnectedPoint`, the two ends of a connection. The crate never looks
/// inside one.
#[verifier::external_type_specification]
#[verifier::external_body]
pub struct ExConnectedPoint(libp2p::core::ConnectedPoint);

/// `std::task::Context`, which a task is polled with.
#[verifier::external_type_specification]
#[verifier::external_body]
pub struct ExContext<'a>(std::task::Context<'a>);

/// Compares two peer identifiers with `PeerId`'s `==`.
///
/// `PeerId` derives `PartialEq` over its one field, a multihash whose `PartialEq` is
/// derived as well, so `==` holds of two identifiers exactly when they are the same
/// value.
#[verifier::external_body]
pub(crate) fn same_peer(a: &PeerId, b: &PeerId) -> (same: bool)
    ensures
        same == (*a == *b),
{
    a == b
}

/// Compares two addresses with `Multiaddr`'s `==`.
///
/// `Multiaddr` derives `PartialEq` over the bytes it holds, so `==` holds of two
/// addresses exactly when they are the same value.
#[verifier::external_body]
pub(crate) fn same_address(a: &Multiaddr, b: &Multiaddr) -> (same: bool)
    ensures
        same == (*a == *b),
{
    a == b
}

/// Copies an address with `Multiaddr::clone`, which is derived and shares the bytes: the
/// copy is the same value.
#[verifier::external_body]
pub(crate) fn clone_address(address: &Multiaddr) -> (copy: Multiaddr)
    ensures
        copy == *address,
{
    address.clone()
}

/// The address of the remote end of a connection between the ends `point`, as
/// `ConnectedPoint::get_remote_address` gives it: the address that was dialed where this
/// node dialed, the address to send back to where it listened.
pub uninterp spec fn remote_address_of(point: libp2p::core::ConnectedPoint) -> Multiaddr;

/// Reads the address of the remote end out of the ends of a connection, with
/// `ConnectedPoint::get_remote_address`, which picks one of the addresses that `point`
/// holds and looks at nothing else: the same ends give the same address.
#[verifier::external_body]
pub(crate) fn remote_address(point: &libp2p::core::ConnectedPoint) -> (address: &Multiaddr)
    ensures
        *address == remote_address_of(*point),
{
    point.get_remote_address()
}

/// Polls a task once with `FutureExt::poll_unpin` of the futures crate, which pins the
/// task in place and calls `Future::poll`. A task that is ready gives its output and is
/// dropped; a task that is not ready comes back, to be polled again later.
///
/// Whether the task is ready depends on what the task waits for, so nothing is promised
/// of the answer, nor of what a task that comes back holds.
#[verifier::external_body]
pub(crate) fn poll_task<P: Future + Unpin>(mut task: P, cx: &mut Context<'_>) -> (polled: Polled<
    P,
    P::Output,
>) {
    match task.poll_unpin(cx) {
        Poll::Ready(output) => Polled::Ready(output),
        Poll::Pending => Polled::Pending(task),
    }
}

} // verus!
