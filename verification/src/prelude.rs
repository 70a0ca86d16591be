//! The names most callers want, in one import.
pub use crate::{ConnectionState, DisconnectReason, PeerEvent, PeerHandle};
use crate::laminar_types::LaminarPacket;
use vstd::prelude::*;

verus! {

/// Reads the peer a packet belongs to off the packet.
pub trait GetPeerHandleFromLaminarPacket {
    /// The peer this value belongs to.
    spec fn spec_peer_handle(&self) -> PeerHandle;

    fn peer_handle(&self) -> (handle: PeerHandle)
        ensures
            handle == self.spec_peer_handle(),
    ;
}

impl GetPeerHandleFromLaminarPacket for LaminarPacket {
    open spec fn spec_peer_handle(&self) -> PeerHandle {
        self@.addr
    }

    fn peer_handle(&self) -> (handle: PeerHandle) {
        self.addr()
    }
}

} // verus!
