//! The client's connection manager: at most one connection to one server, the
//! packets that wait for the reliability engine, and the connection's state
//! as the engine's events reveal it.
//!
//! The socket and the engine are driven from outside. Each tick the driver
//! asks [`NetworkResource::poll`] what to do with what the socket said, hands
//! the packets of [`NetworkResource::take_outgoing`] to the engine, and gives
//! the engine's events to [`laminar_poller`].
use crate::laminar_types::{
    events_view, packets_view, LaminarPacket, LaminarSocketEvent, PacketView, SocketEventView,
};
use crate::protocol::welcome_packet;
use crate::{ConnectionState, NetworkError, PeerHandle};
use vstd::prelude::*;

pub mod prelude;

verus! {

/// What the socket answered to one receive.
#[derive(Debug, Clone, PartialEq, Eq)]
pub enum Received {
    /// A datagram, with its bytes.
    Datagram(Vec<u8>),
    /// Nothing is queued.
    Empty,
    /// The socket reported an error.
    Failed,
}

/// What the driver is to do next within one tick.
#[derive(Debug, Clone, PartialEq, Eq)]
pub enum PollAction {
    /// There is no connection: do nothing this tick.
    Idle,
    /// Hand these bytes to the engine, then receive again.
    Deliver(Vec<u8>),
    /// The socket is drained: advance the engine's timers once and end the tick.
    Advance,
    /// The socket failed: advance the engine's timers once, end the tick and
    /// report the error. Nothing is retried within the tick.
    Surface,
}

/// What a [`PollAction`] is, mathematically.
pub enum PollActionView {
    Idle,
    Deliver(Seq<u8>),
    Advance,
    Surface,
}

impl View for PollAction {
    type V = PollActionView;

    open spec fn view(&self) -> PollActionView {
        match self {
            PollAction::Idle => PollActionView::Idle,
            PollAction::Deliver(bytes) => PollActionView::Deliver(bytes@),
            PollAction::Advance => PollActionView::Advance,
            PollAction::Surface => PollActionView::Surface,
        }
    }
}

/// The action that answers `received` on a live connection.
pub open spec fn poll_action(received: Received) -> PollActionView {
    match received {
        Received::Datagram(bytes) => PollActionView::Deliver(bytes@),
        Received::Empty => PollActionView::Advance,
        Received::Failed => PollActionView::Surface,
    }
}

/// The state of a connection to `server` once it has seen `event`.
///
/// Only events about `server` count. A connection moves forward only:
/// `Connecting` to `Connected`, either of them to `Timeout`, any of the three
/// to `Disconnected`, and nowhere from there.
pub open spec fn observed(
    state: ConnectionState,
    server: PeerHandle,
    event: SocketEventView,
) -> ConnectionState {
    let live = state == ConnectionState::Connecting || state == ConnectionState::Connected;
    if event.address() != server {
        state
    } else {
        match event {
            SocketEventView::Connect(_) => if state == ConnectionState::Connecting {
                ConnectionState::Connected
            } else {
                state
            },
            SocketEventView::Timeout(_) => if live {
                ConnectionState::Timeout
            } else {
                state
            },
            SocketEventView::Disconnect(_) => if live || state == ConnectionState::Timeout {
                ConnectionState::Disconnected
            } else {
                state
            },
            SocketEventView::Packet(_) => state,
        }
    }
}

/// The state of a connection to `server` once it has seen `events` in order.
pub open spec fn observed_all(
    state: ConnectionState,
    server: PeerHandle,
    events: Seq<SocketEventView>,
) -> ConnectionState
    decreases events.len(),
{
    if events.len() == 0 {
        state
    } else {
        observed(observed_all(state, server, events.drop_last()), server, events.last())
    }
}

/// The client's one connection.
#[derive(Debug)]
pub struct PeerConnection {
    server_addr: PeerHandle,
    connection_state: ConnectionState,
    outbox: Vec<LaminarPacket>,
}

/// What a [`PeerConnection`] is, mathematically.
pub struct ConnectionView {
    pub server_addr: PeerHandle,
    pub state: ConnectionState,
    /// The packets that wait for the engine, oldest first.
    pub outbox: Seq<PacketView>,
}

impl View for PeerConnection {
    type V = ConnectionView;

    closed spec fn view(&self) -> ConnectionView {
        ConnectionView {
            server_addr: self.server_addr,
            state: self.connection_state,
            outbox: packets_view(self.outbox@),
        }
    }
}

impl PeerConnection {
    /// A connection to `server_socket_address` that has sent nothing yet.
    pub fn new(server_socket_address: &PeerHandle) -> (connection: Self)
        ensures
            connection@ == (ConnectionView {
                server_addr: *server_socket_address,
                state: ConnectionState::Connecting,
                outbox: Seq::empty(),
            }),
    {
        let connection = PeerConnection {
            server_addr: *server_socket_address,
            connection_state: ConnectionState::Connecting,
            outbox: Vec::new(),
        };
        assert(connection@.outbox =~= Seq::<PacketView>::empty());
        connection
    }

    /// The address of the server this connection is to.
    pub fn server_addr(&self) -> (addr: &PeerHandle)
        ensures
            *addr == self@.server_addr,
    {
        &self.server_addr
    }

    pub fn state(&self) -> (state: ConnectionState)
        ensures
            state == self@.state,
    {
        self.connection_state
    }

    /// Puts `event` behind the packets that already wait for the engine.
    pub fn send(&mut self, event: LaminarPacket)
        ensures
            final(self)@ == (ConnectionView {
                outbox: old(self)@.outbox.push(event@),
                ..old(self)@
            }),
    {
        let ghost before = self.outbox@;
        self.outbox.push(event);
        assert(packets_view(self.outbox@) =~= packets_view(before).push(event@));
    }

    /// All packets that wait for the engine, oldest first; none waits after.
    pub fn take_outgoing(&mut self) -> (packets: Vec<LaminarPacket>)
        ensures
            packets_view(packets@) == old(self)@.outbox,
            final(self)@ == (ConnectionView { outbox: Seq::empty(), ..old(self)@ }),
    {
        let mut packets: Vec<LaminarPacket> = Vec::new();
        std::mem::swap(&mut self.outbox, &mut packets);
        assert(packets_view(self.outbox@) =~= Seq::<PacketView>::empty());
        packets
    }

    /// What to do with what the socket said: bytes go to the engine, an
    /// empty socket ends the tick, a failure ends it too and is reported.
    pub fn poll(&self, received: Received) -> (action: PollAction)
        ensures
            action@ == poll_action(received),
    {
        match received {
            Received::Datagram(bytes) => PollAction::Deliver(bytes),
            Received::Empty => PollAction::Advance,
            Received::Failed => PollAction::Surface,
        }
    }

    /// Takes note of one engine event.
    pub fn observe(&mut self, event: &LaminarSocketEvent)
        ensures
            final(self)@ == (ConnectionView {
                state: observed(old(self)@.state, old(self)@.server_addr, event@),
                ..old(self)@
            }),
    {
        let (about, next) = match event {
            LaminarSocketEvent::Connect(addr) => (
                *addr,
                match self.connection_state {
                    ConnectionState::Connecting => ConnectionState::Connected,
                    state => state,
                },
            ),
            LaminarSocketEvent::Timeout(addr) => (
                *addr,
                match self.connection_state {
                    ConnectionState::Connecting | ConnectionState::Connected => {
                        ConnectionState::Timeout
                    },
                    state => state,
                },
            ),
            LaminarSocketEvent::Disconnect(addr) => (
                *addr,
                match self.connection_state {
                    ConnectionState::Connecting
                    | ConnectionState::Connected
                    | ConnectionState::Timeout => ConnectionState::Disconnected,
                    state => state,
                },
            ),
            LaminarSocketEvent::Packet(packet) => (packet.addr(), self.connection_state),
        };
        if about == self.server_addr {
            self.connection_state = next;
        }
    }
}

/// The client's root object: no connection, or the one connection.
#[derive(Debug)]
pub struct NetworkResource {
    connection: Option<PeerConnection>,
}

impl View for NetworkResource {
    type V = Option<ConnectionView>;

    closed spec fn view(&self) -> Option<ConnectionView> {
        match self.connection {
            Some(connection) => Some(connection@),
            None => None,
        }
    }
}

/// The connection that `connect` makes: to `server`, `Connecting`, with the
/// zero-length reliable handshake packet waiting for the engine.
pub open spec fn fresh_connection(server: PeerHandle) -> ConnectionView {
    ConnectionView {
        server_addr: server,
        state: ConnectionState::Connecting,
        outbox: seq![welcome_packet(server)],
    }
}

impl NetworkResource {
    /// A client without a connection.
    pub fn new() -> (net: Self)
        ensures
            net@ is None,
    {
        NetworkResource { connection: None }
    }

    /// Whether `connect` has been called.
    pub open spec fn spec_initialized(&self) -> bool {
        self@ is Some
    }

    #[verifier::when_used_as_spec(spec_initialized)]
    pub fn initialized(&self) -> (active: bool)
        ensures
            active == self.spec_initialized(),
    {
        self.connection.is_some()
    }

    /// The state of the connection; `Uninitialized` while there is none.
    pub fn connection_state(&self) -> (state: ConnectionState)
        ensures
            state == match self@ {
                Some(connection) => connection.state,
                None => ConnectionState::Uninitialized,
            },
    {
        match &self.connection {
            Some(connection) => connection.state(),
            None => ConnectionState::Uninitialized,
        }
    }

    /// The address of the server, once there is a connection.
    pub fn server_addr(&self) -> (addr: Result<PeerHandle, NetworkError>)
        ensures
            addr == match self@ {
                Some(connection) => Ok::<PeerHandle, NetworkError>(connection.server_addr),
                None => Err::<PeerHandle, NetworkError>(NetworkError::NotInitialized),
            },
    {
        match &self.connection {
            Some(connection) => Ok(*connection.server_addr()),
            None => Err(NetworkError::NotInitialized),
        }
    }

    /// Starts the one connection, to `socket_address`, and queues the
    /// zero-length reliable packet that opens the handshake. A client that
    /// already has a connection keeps it and refuses the call.
    pub fn connect(&mut self, socket_address: PeerHandle) -> (connected: Result<(), NetworkError>)
        ensures
            old(self)@ is Some ==> connected == Err::<(), NetworkError>(
                NetworkError::AlreadyConnected,
            ) && final(self)@ == old(self)@,
            old(self)@ is None ==> connected is Ok && final(self)@ == Some(
                fresh_connection(socket_address),
            ),
    {
        if self.connection.is_some() {
            return Err(NetworkError::AlreadyConnected);
        }
        let mut connection = PeerConnection::new(&socket_address);
        connection.send(LaminarPacket::reliable_unordered(socket_address, Vec::new()));
        assert(connection@.outbox =~= seq![welcome_packet(socket_address)]);
        self.connection = Some(connection);
        Ok(())
    }

    /// Puts `packet` behind the packets that already wait for the engine.
    /// Without a connection nothing is queued.
    pub fn send(&mut self, packet: LaminarPacket) -> (sent: Result<(), NetworkError>)
        ensures
            match old(self)@ {
                Some(connection) => sent is Ok && final(self)@ == Some(
                    ConnectionView { outbox: connection.outbox.push(packet@), ..connection },
                ),
                None => sent == Err::<(), NetworkError>(NetworkError::NotConnected) && final(self)@
                    is None,
            },
    {
        match &mut self.connection {
            Some(connection) => {
                connection.send(packet);
                Ok(())
            },
            None => Err(NetworkError::NotConnected),
        }
    }

    /// All packets that wait for the engine, oldest first; none waits after.
    pub fn take_outgoing(&mut self) -> (packets: Vec<LaminarPacket>)
        ensures
            match old(self)@ {
                Some(connection) => packets_view(packets@) == connection.outbox && final(self)@
                    == Some(
                    ConnectionView { outbox: Seq::empty(), ..connection },
                ),
                None => packets@.len() == 0 && final(self)@ is None,
            },
    {
        match &mut self.connection {
            Some(connection) => connection.take_outgoing(),
            None => Vec::new(),
        }
    }

    /// What the driver is to do with what the socket said. Without a
    /// connection a tick is no work and no error.
    pub fn poll(&self, received: Received) -> (action: PollAction)
        ensures
            action@ == match self@ {
                Some(_) => poll_action(received),
                None => PollActionView::Idle,
            },
    {
        match &self.connection {
            Some(connection) => connection.poll(received),
            None => PollAction::Idle,
        }
    }
}

/// One tick of the client's event pump: takes note of `events`, which the
/// engine produced since the last tick, and hands all of them back for
/// publishing, in the order they came. Without a connection the events are
/// dropped.
pub fn laminar_poller(net: &mut NetworkResource, events: Vec<LaminarSocketEvent>) -> (out: Vec<
    LaminarSocketEvent,
>)
    ensures
        match old(net)@ {
            Some(connection) => out == events && final(net)@ == Some(
                ConnectionView {
                    state: observed_all(
                        connection.state,
                        connection.server_addr,
                        events_view(events@),
                    ),
                    ..connection
                },
            ),
            None => out@.len() == 0 && final(net)@ is None,
        },
{
    match &mut net.connection {
        None => Vec::new(),
        Some(connection) => {
            let ghost start = connection@;
            let ghost all = events_view(events@);
            let mut i: usize = 0;
            assert(all.take(0) =~= Seq::<SocketEventView>::empty());
            while i < events.len()
                invariant
                    i <= events@.len(),
                    all == events_view(events@),
                    connection@ == (ConnectionView {
                        state: observed_all(start.state, start.server_addr, all.take(i as int)),
                        ..start
                    }),
                decreases events@.len() - i,
            {
                connection.observe(&events[i]);
                proof {
                    assert(all.take(i + 1).drop_last() =~= all.take(i as int));
                    assert(all.take(i + 1).last() == events@[i as int]@);
                }
                i += 1;
            }
            assert(all.take(all.len() as int) =~= all);
            events
        },
    }
}

} // verus!
