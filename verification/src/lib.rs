//! Connection tracking between an unreliable datagram transport and the
//! laminar reliability engine, for a client and for a server.
//!
//! The crate holds the parts that decide: the per-peer connection state
//! machine, the zero-length handshake that promotes a newly seen sender into a
//! tracked peer, the pump that turns engine events into application-facing
//! peer events, and the queue-backed transport adapter. Sockets, the engine
//! itself and the host's scheduler are driven from outside and exchange plain
//! values with this crate.
use crate::laminar_types::{LaminarPacket, PacketView};
use vstd::prelude::*;

pub mod channel;
pub mod client;
pub mod clock;
pub mod laminar_types;
pub mod laws;
pub mod prelude;
pub mod protocol;
pub mod server;
pub mod transport;

verus! {

/// Why a peer left.
#[derive(Debug, Clone, Copy, Eq, PartialEq, Structural)]
pub enum DisconnectReason {
    Timedout,
}

/// Lifecycle stage of one peer's connection.
#[derive(Debug, Clone, Copy, Eq, PartialEq, Structural)]
pub enum ConnectionState {
    Uninitialized,
    Connecting,
    Connected,
    Timeout,
    Disconnected,
}

/// Identity of a remote endpoint: its network address, held as plain numbers.
///
/// `ip` is the address in host byte order, so `127.0.0.1` is `0x7f00_0001`.
#[derive(Debug, Clone, Copy, PartialEq, Eq, Hash, Structural)]
#[allow(inconsistent_fields)]
pub enum PeerHandle {
    V4 { ip: u32, port: u16 },
    V6 { ip: u128, port: u16, flowinfo: u32, scope_id: u32 },
}

impl PeerHandle {
    /// The port number of this address.
    pub open spec fn spec_port(self) -> u16 {
        match self {
            PeerHandle::V4 { port, .. } => port,
            PeerHandle::V6 { port, .. } => port,
        }
    }

    /// This address with its port replaced by `port`.
    pub open spec fn spec_with_port(self, port: u16) -> PeerHandle {
        match self {
            PeerHandle::V4 { ip, .. } => PeerHandle::V4 { ip, port },
            PeerHandle::V6 { ip, flowinfo, scope_id, .. } => PeerHandle::V6 {
                ip,
                port,
                flowinfo,
                scope_id,
            },
        }
    }

    #[verifier::when_used_as_spec(spec_port)]
    pub fn port(self) -> (port: u16)
        ensures
            port == self.spec_port(),
    {
        match self {
            PeerHandle::V4 { port, .. } => port,
            PeerHandle::V6 { port, .. } => port,
        }
    }

    #[verifier::when_used_as_spec(spec_with_port)]
    pub fn with_port(self, port: u16) -> (moved: PeerHandle)
        ensures
            moved == self.spec_with_port(port),
    {
        match self {
            PeerHandle::V4 { ip, .. } => PeerHandle::V4 { ip, port },
            PeerHandle::V6 { ip, flowinfo, scope_id, .. } => PeerHandle::V6 {
                ip,
                port,
                flowinfo,
                scope_id,
            },
        }
    }
}

/// Why an operation on a network resource was refused.
#[derive(Debug, Clone, Copy, PartialEq, Eq, Structural)]
pub enum NetworkError {
    /// The resource has not been made active by `listen` yet.
    NotInitialized,
    /// The client has not been given a server by `connect` yet.
    NotConnected,
    /// The client already holds its one connection.
    AlreadyConnected,
    /// The queue's other end is gone: the worker behind it has ended.
    ChannelClosed,
}

/// A packet that was not queued, handed back with the reason.
#[derive(Debug, Clone, PartialEq)]
pub struct Unsent {
    pub reason: NetworkError,
    pub packet: LaminarPacket,
}

/// What the application is told about its peers.
///
/// Handshake packets never appear here, and a packet is passed on only from a
/// peer that is `Connected`.
#[derive(Debug, Clone, PartialEq)]
pub enum PeerEvent {
    /// The peer's connection has entered the given state.
    Status(PeerHandle, ConnectionState),
    /// The peer sent this packet.
    Packet(LaminarPacket),
}

/// What a [`PeerEvent`] is, mathematically.
pub enum PeerEventView {
    Status(PeerHandle, ConnectionState),
    Packet(PacketView),
}

impl View for PeerEvent {
    type V = PeerEventView;

    open spec fn view(&self) -> PeerEventView {
        match self {
            PeerEvent::Status(handle, state) => PeerEventView::Status(*handle, *state),
            PeerEvent::Packet(packet) => PeerEventView::Packet(packet@),
        }
    }
}

/// The published events as the state machine names them.
pub open spec fn peer_events_view(events: Seq<PeerEvent>) -> Seq<PeerEventView> {
    events.map_values(|event: PeerEvent| event@)
}

} // verus!
