//! Typestate vocabulary for the connection state of a J1939 socket.
//!
//! The kernel's J1939 stack assigns the remote address with `connect(2)`:
//! the PGN given there becomes the default PGN when sending, a NAME or
//! address given there becomes the default destination and a receive
//! filter.  `write(2)` and `read(2)` use the local address from `bind(2)`
//! and the remote address from `connect(2)`; on a socket that was never
//! connected the kernel answers them with an error.
//!
//! To turn that runtime error into a compile-time one, a socket is tagged
//! with a [`Peer`] marker: a socket opens [`Unlinked`], and connecting it
//! consumes the unlinked value and hands back a [`Linked`] one.  Stream
//! style read and write operations exist only on the linked type, so code
//! that never connects a socket has no such operations to call.  The
//! transition is one-way: no operation turns a linked socket back into an
//! unlinked one.
use vstd::prelude::*;

verus! {

/// Marker trait for the two connection states of a J1939 socket: a peer
/// either has or has not been linked with a connect call.
pub trait Peer {

}

/// Type indicating that no peer address is linked to the socket.
#[derive(Debug, Clone, Copy)]
pub struct Unlinked;

impl Peer for Unlinked {

}

/// Type indicating that a peer address is linked to the socket.
#[derive(Debug, Clone, Copy)]
pub struct Linked;

impl Peer for Linked {

}

} // verus!
