//! The server's peer manager: a table of peers keyed by address, and the pump
//! that applies engine events to it.
use crate::channel::{open_queue, queue_send, queue_try_recv, share_sender, QueueError};
use crate::clock::now;
use crate::laminar_types::{
    events_view, packets_view, LaminarPacket, LaminarSocketEvent, PacketView, SocketEventView,
};
use crate::protocol::{
    creations_of, is_tracked_state, published, routed, routes_after, step, table_after,
    tracked_states, welcomes, PeerTable, ReactionView, Verdict,
};
pub use crate::transport::LaminarDatagramSocketForNaia;
use crate::transport::Datagram;
use crate::{
    peer_events_view, ConnectionState, NetworkError, PeerEvent, PeerEventView, PeerHandle, Unsent,
};
use crossbeam_channel::{Receiver, Sender};
use std::time::Instant;
use vstd::prelude::*;

pub mod prelude;

verus! {

/// One tracked remote endpoint.
#[derive(Debug)]
pub struct Peer {
    /// When the record was made.
    pub epoch: Instant,
    pub socket_addr: PeerHandle,
    connection_state: ConnectionState,
    event_sender: Sender<LaminarPacket>,
    listener: usize,
}

impl Peer {
    /// The address this peer is known by.
    pub closed spec fn spec_addr(&self) -> PeerHandle {
        self.socket_addr
    }

    /// The state of this peer's connection.
    pub closed spec fn spec_state(&self) -> ConnectionState {
        self.connection_state
    }

    /// When the record was made.
    pub closed spec fn spec_epoch(&self) -> Instant {
        self.epoch
    }

    /// The number of the listener this peer talks to.
    pub closed spec fn spec_listener(&self) -> usize {
        self.listener
    }

    fn new(socket_addr: PeerHandle, event_sender: Sender<LaminarPacket>, listener: usize) -> (peer:
        Self)
        ensures
            peer.socket_addr == socket_addr,
            peer.connection_state == ConnectionState::Connecting,
            peer.event_sender == event_sender,
            peer.listener == listener,
    {
        Self {
            epoch: now(),
            socket_addr,
            connection_state: ConnectionState::Connecting,
            event_sender,
            listener,
        }
    }

    #[verifier::when_used_as_spec(spec_addr)]
    pub fn addr(&self) -> (addr: PeerHandle)
        ensures
            addr == self.spec_addr(),
    {
        self.socket_addr
    }

    /// Queues `packet` for the reliability engine. The call fails only when
    /// the queue has lost its reader, and then hands the packet back.
    pub fn send(&self, packet: LaminarPacket) -> (sent: Result<(), Unsent>)
        ensures
            sent matches Err(unsent) ==> unsent.reason == NetworkError::ChannelClosed
                && unsent.packet == packet,
    {
        send_answer(queue_send(&self.event_sender, packet))
    }

    #[verifier::when_used_as_spec(spec_state)]
    pub fn state(&self) -> (state: ConnectionState)
        ensures
            state == self.spec_state(),
    {
        self.connection_state
    }

    /// The number of the listener this peer talks to: the one its first
    /// contact came in on.
    #[verifier::when_used_as_spec(spec_listener)]
    pub fn listener(&self) -> (listener: usize)
        ensures
            listener == self.spec_listener(),
    {
        self.listener
    }

    /// Puts the peer into `new_state` and says whether that changed it.
    /// Nothing else of the record changes.
    fn set_state(&mut self, new_state: ConnectionState) -> (changed: bool)
        ensures
            *final(self) == (Peer { connection_state: new_state, ..*old(self) }),
            changed == (new_state != old(self).connection_state),
    {
        let changed = new_state != self.connection_state;
        self.connection_state = new_state;
        changed
    }
}

/// What a send answers to each thing the engine queue can say: a packet that
/// was queued is sent; a packet that came back, because the queue has lost
/// its reader, is handed on with the reason.
pub open spec fn send_outcome(queued: Result<(), LaminarPacket>) -> Result<(), Unsent> {
    match queued {
        Ok(()) => Ok(()),
        Err(packet) => Err(Unsent { reason: NetworkError::ChannelClosed, packet }),
    }
}

/// Answers a send from what the engine queue said.
pub fn send_answer(queued: Result<(), LaminarPacket>) -> (sent: Result<(), Unsent>)
    ensures
        sent == send_outcome(queued),
{
    match queued {
        Ok(()) => Ok(()),
        Err(packet) => Err(Unsent { reason: NetworkError::ChannelClosed, packet }),
    }
}

/// What taking a packet off the engine queue answers to each thing the queue
/// can say: the packet, or nothing where the queue had none to give.
pub open spec fn take_outcome(polled: Result<LaminarPacket, QueueError>) -> Option<LaminarPacket> {
    match polled {
        Ok(packet) => Some(packet),
        Err(_) => None,
    }
}

/// Answers a take from what the engine queue said.
pub fn take_answer(polled: Result<LaminarPacket, QueueError>) -> (packet: Option<LaminarPacket>)
    ensures
        packet == take_outcome(polled),
{
    match polled {
        Ok(packet) => Some(packet),
        Err(_) => None,
    }
}

/// What one call of `listen` prepares: the addresses to bind, the adapter
/// that the reliability engine reads and writes, and the queue ends for the
/// two workers that move datagrams between the transport and the adapter.
#[derive(Debug)]
pub struct Listener {
    /// The number of this listener: how many were made before it.
    pub index: usize,
    pub socket_address: PeerHandle,
    pub webrtc_listen_address: PeerHandle,
    pub public_webrtc_address: PeerHandle,
    pub socket: LaminarDatagramSocketForNaia,
    /// The receiving worker queues here what the transport received.
    pub inbound: Sender<Datagram>,
    /// The sending worker takes from here what the transport is to send.
    pub outbound: Receiver<Datagram>,
}

/// Where the WebRTC side listens: the address asked for, or else the socket
/// address on the next port.
pub open spec fn webrtc_address(
    socket_address: PeerHandle,
    asked: Option<PeerHandle>,
) -> PeerHandle {
    match asked {
        Some(address) => address,
        None => socket_address.with_port((socket_address.port() + 1) as u16),
    }
}

/// What the server does in answer to one engine event.
#[derive(Debug)]
pub struct Reaction {
    /// The event to publish to the application, if any.
    pub emit: Option<PeerEvent>,
    /// The welcome packet to hand to the engine, if any.
    pub welcome: Option<LaminarPacket>,
    pub verdict: Verdict,
}

impl View for Reaction {
    type V = ReactionView;

    open spec fn view(&self) -> ReactionView {
        ReactionView {
            emitted: match self.emit {
                Some(event) => Some(event@),
                None => None,
            },
            welcome: match self.welcome {
                Some(packet) => Some(packet@),
                None => None,
            },
            verdict: self.verdict,
        }
    }
}

impl Reaction {
    /// Nothing is said and nothing is sent.
    fn silent(verdict: Verdict) -> (reaction: Reaction)
        ensures
            reaction@ == (ReactionView { emitted: None, welcome: None, verdict }),
    {
        Reaction { emit: None, welcome: None, verdict }
    }

    /// The application is told that `addr` has entered `state`.
    fn status(addr: PeerHandle, state: ConnectionState) -> (reaction: Reaction)
        ensures
            reaction@ == (ReactionView {
                emitted: Some(PeerEventView::Status(addr, state)),
                welcome: None,
                verdict: Verdict::Applied,
            }),
    {
        Reaction {
            emit: Some(PeerEvent::Status(addr, state)),
            welcome: None,
            verdict: Verdict::Applied,
        }
    }
}

/// What a run of events calls for.
#[derive(Debug)]
pub struct Applied {
    /// The events to publish to the application, in order.
    pub published: Vec<PeerEvent>,
    /// The welcome packets to hand to the engine, in order.
    pub welcomes: Vec<LaminarPacket>,
}

/// The server's root object: the peer table, the addresses it listens on and
/// the queue of packets that wait for the reliability engine.
pub struct NetworkResource {
    listeners: Vec<PeerHandle>,
    outbound_sender: Sender<LaminarPacket>,
    outbound_receiver: Receiver<LaminarPacket>,
    peers: Vec<Peer>,
    table: Ghost<PeerTable>,
    epochs: Ghost<Map<PeerHandle, Instant>>,
    routes: Ghost<Map<PeerHandle, usize>>,
    handed: Ghost<Seq<PacketView>>,
}

/// What a server [`NetworkResource`] is, mathematically.
pub struct ServerView {
    /// Each tracked address with the state of its connection.
    pub peers: PeerTable,
    /// Each tracked address with the time its record was made.
    pub epochs: Map<PeerHandle, Instant>,
    /// Each tracked address with the number of the listener it talks to.
    pub routes: Map<PeerHandle, usize>,
    /// The addresses given to `listen`, oldest first.
    pub listeners: Seq<PeerHandle>,
    /// The welcome packets that the pump has put to the engine queue so far,
    /// oldest first.
    pub handed: Seq<PacketView>,
}

impl ServerView {
    /// The three maps speak of the same peers, finitely many, each in a state
    /// that a tracked peer can be in.
    pub open spec fn aligned(self) -> bool {
        &&& self.peers.dom().finite()
        &&& self.epochs.dom() == self.peers.dom()
        &&& self.routes.dom() == self.peers.dom()
        &&& tracked_states(self.peers)
    }

    /// Every peer that is tracked in both views has the same creation time
    /// in both.
    pub open spec fn keeps_epochs_of(self, before: ServerView) -> bool {
        forall|addr: PeerHandle|
            before.peers.dom().contains(addr) && #[trigger] self.peers.dom().contains(addr)
                ==> self.epochs[addr] == before.epochs[addr]
    }

    /// Every peer that was tracked before `events` and is tracked after them,
    /// and made no first contact among them, has the creation time it had.
    pub open spec fn keeps_epochs_through(
        self,
        before: ServerView,
        events: Seq<SocketEventView>,
    ) -> bool {
        forall|addr: PeerHandle|
            before.peers.dom().contains(addr) && #[trigger] self.peers.dom().contains(addr)
                && creations_of(before.peers, events, addr) == 0 ==> self.epochs[addr]
                == before.epochs[addr]
    }

    /// The listener that a packet for `handle` goes out on: the one its peer
    /// talks to; for an address that is not tracked, the newest; none before
    /// the first `listen`.
    pub open spec fn route_of(self, handle: PeerHandle) -> Option<usize> {
        if self.peers.dom().contains(handle) {
            Some(self.routes[handle])
        } else if self.listeners.len() > 0 {
            Some((self.listeners.len() - 1) as usize)
        } else {
            None
        }
    }
}

impl View for NetworkResource {
    type V = ServerView;

    closed spec fn view(&self) -> ServerView {
        ServerView {
            peers: self.table@,
            epochs: self.epochs@,
            routes: self.routes@,
            listeners: self.listeners@,
            handed: self.handed@,
        }
    }
}

impl NetworkResource {
    /// The records agree with the view: one record per tracked address, with
    /// the state, the creation time and the listener that the view gives it.
    pub closed spec fn wf(&self) -> bool {
        &&& self@.aligned()
        &&& self.table@.dom().len() == self.peers@.len()
        &&& forall|i: int|
            0 <= i < self.peers@.len() ==> {
                &&& self.table@.dom().contains((#[trigger] self.peers@[i]).socket_addr)
                &&& self.table@[self.peers@[i].socket_addr] == self.peers@[i].connection_state
                &&& self.epochs@[self.peers@[i].socket_addr] == self.peers@[i].epoch
                &&& self.routes@[self.peers@[i].socket_addr] == self.peers@[i].listener
            }
        &&& forall|i: int, j: int|
            0 <= i < j < self.peers@.len() ==> (#[trigger] self.peers@[i]).socket_addr != (
            #[trigger] self.peers@[j]).socket_addr
        &&& forall|addr: PeerHandle| #[trigger]
            self.table@.dom().contains(addr) ==> self.spec_find(addr) is Some
    }

    /// Where the record of `handle` stands, if there is one.
    closed spec fn spec_find(&self, handle: PeerHandle) -> Option<int> {
        if exists|i: int| 0 <= i < self.peers@.len() && self.peers@[i].socket_addr == handle {
            Some(
                choose|i: int| 0 <= i < self.peers@.len() && self.peers@[i].socket_addr == handle,
            )
        } else {
            None
        }
    }

    /// What a well-formed server's view is known to be.
    pub proof fn wf_is_aligned(&self)
        requires
            self.wf(),
        ensures
            self@.aligned(),
    {
    }

    /// A server that tracks no peer and listens nowhere.
    pub fn new() -> (net: Self)
        ensures
            net.wf(),
            net@.peers == Map::<PeerHandle, ConnectionState>::empty(),
            net@.epochs == Map::<PeerHandle, Instant>::empty(),
            net@.routes == Map::<PeerHandle, usize>::empty(),
            net@.listeners == Seq::<PeerHandle>::empty(),
            net@.handed == Seq::<PacketView>::empty(),
    {
        let (outbound_sender, outbound_receiver) = open_queue();
        let net = NetworkResource {
            listeners: Vec::new(),
            outbound_sender,
            outbound_receiver,
            peers: Vec::new(),
            table: Ghost(Map::empty()),
            epochs: Ghost(Map::empty()),
            routes: Ghost(Map::empty()),
            handed: Ghost(Seq::empty()),
        };
        assert(net.epochs@.dom() =~= net.table@.dom());
        assert(net.routes@.dom() =~= net.table@.dom());
        net
    }

    fn find(&self, handle: PeerHandle) -> (found: Option<usize>)
        requires
            self.wf(),
        ensures
            match found {
                Some(i) => i < self.peers@.len() && self.peers@[i as int].socket_addr == handle
                    && self@.peers.dom().contains(handle),
                None => !self@.peers.dom().contains(handle),
            },
    {
        let mut i: usize = 0;
        while i < self.peers.len()
            invariant
                self.wf(),
                i <= self.peers@.len(),
                forall|k: int| 0 <= k < i ==> (#[trigger] self.peers@[k]).socket_addr != handle,
            decreases self.peers@.len() - i,
        {
            if self.peers[i].socket_addr == handle {
                return Some(i);
            }
            i += 1;
        }
        proof {
            if self.table@.dom().contains(handle) {
                assert(self.spec_find(handle) is Some);
            }
        }
        None
    }

    /// The record of `handle`, if it is tracked.
    pub fn peer(&self, handle: PeerHandle) -> (found: Option<&Peer>)
        requires
            self.wf(),
        ensures
            match found {
                Some(peer) => {
                    &&& self@.peers.dom().contains(handle)
                    &&& peer.spec_addr() == handle
                    &&& peer.spec_state() == self@.peers[handle]
                    &&& is_tracked_state(peer.spec_state())
                    &&& peer.spec_epoch() == self@.epochs[handle]
                    &&& peer.spec_listener() == self@.routes[handle]
                },
                None => !self@.peers.dom().contains(handle),
            },
    {
        match self.find(handle) {
            Some(i) => Some(&self.peers[i]),
            None => None,
        }
    }

    /// How many peers are tracked.
    pub fn num_peers(&self) -> (count: usize)
        requires
            self.wf(),
        ensures
            count == self@.peers.dom().len(),
    {
        self.peers.len()
    }

    /// The number of the listener that a packet for `handle` is to go out
    /// on.
    pub fn route(&self, handle: PeerHandle) -> (listener: Option<usize>)
        requires
            self.wf(),
        ensures
            listener == self@.route_of(handle),
    {
        match self.find(handle) {
            Some(i) => Some(self.peers[i].listener()),
            None => if self.listeners.len() > 0 {
                Some(self.listeners.len() - 1)
            } else {
                None
            },
        }
    }

    fn new_peer(&self, addr: PeerHandle, listener: usize) -> (peer: Peer)
        ensures
            peer.socket_addr == addr,
            peer.connection_state == ConnectionState::Connecting,
            peer.listener == listener,
    {
        Peer::new(addr, share_sender(&self.outbound_sender), listener)
    }

    /// Starts tracking `addr`, in state `Connecting`, on `listener`.
    fn track(&mut self, addr: PeerHandle, listener: usize)
        requires
            old(self).wf(),
            !old(self)@.peers.dom().contains(addr),
        ensures
            final(self).wf(),
            final(self)@.peers == old(self)@.peers.insert(addr, ConnectionState::Connecting),
            final(self)@.routes == old(self)@.routes.insert(addr, listener),
            final(self)@.keeps_epochs_of(old(self)@),
            final(self)@.listeners == old(self)@.listeners,
            final(self)@.handed == old(self)@.handed,
    {
        let peer = self.new_peer(addr, listener);
        let ghost epoch = peer.epoch;
        self.peers.push(peer);
        proof {
            self.table@ = self.table@.insert(addr, ConnectionState::Connecting);
            self.epochs@ = self.epochs@.insert(addr, epoch);
            self.routes@ = self.routes@.insert(addr, listener);
            let last = self.peers@.len() - 1;
            assert(self.peers@[last].socket_addr == addr);
            assert(self.epochs@.dom() =~= self.table@.dom());
            assert(self.routes@.dom() =~= self.table@.dom());
            assert forall|a: PeerHandle| #[trigger]
                self.table@.dom().contains(a) implies self.spec_find(a) is Some by {
                if a == addr {
                    assert(self.peers@[last].socket_addr == a);
                } else {
                    assert(old(self).spec_find(a) is Some);
                    let k = old(self).spec_find(a)->Some_0;
                    assert(self.peers@[k].socket_addr == a);
                }
            }
        }
    }

    /// Puts the record at `index` into `state`, and says whether that changed it.
    fn move_to(&mut self, index: usize, state: ConnectionState) -> (changed: bool)
        requires
            old(self).wf(),
            index < old(self).peers@.len(),
            is_tracked_state(state),
        ensures
            final(self).wf(),
            final(self)@ == (ServerView {
                peers: old(self)@.peers.insert(old(self).peers@[index as int].socket_addr, state),
                ..old(self)@
            }),
            changed == (state != old(self).peers@[index as int].spec_state()),
    {
        let ghost addr = self.peers@[index as int].socket_addr;
        let changed = self.peers[index].set_state(state);
        proof {
            self.table@ = self.table@.insert(addr, state);
            assert(self.table@.dom() =~= old(self).table@.dom());
            assert forall|a: PeerHandle| #[trigger]
                self.table@.dom().contains(a) implies self.spec_find(a) is Some by {
                assert(old(self).spec_find(a) is Some);
                let k = old(self).spec_find(a)->Some_0;
                assert(self.peers@[k].socket_addr == a);
            }
        }
        changed
    }

    /// Stops tracking the peer whose record is at `index`.
    fn forget(&mut self, index: usize)
        requires
            old(self).wf(),
            index < old(self).peers@.len(),
        ensures
            final(self).wf(),
            final(self)@.peers == old(self)@.peers.remove(
                old(self).peers@[index as int].socket_addr,
            ),
            final(self)@.routes == old(self)@.routes.remove(
                old(self).peers@[index as int].socket_addr,
            ),
            final(self)@.keeps_epochs_of(old(self)@),
            final(self)@.listeners == old(self)@.listeners,
            final(self)@.handed == old(self)@.handed,
    {
        let ghost addr = self.peers@[index as int].socket_addr;
        let _ = self.peers.remove(index);
        proof {
            self.table@ = self.table@.remove(addr);
            self.epochs@ = self.epochs@.remove(addr);
            self.routes@ = self.routes@.remove(addr);
            assert(self.epochs@.dom() =~= self.table@.dom());
            assert(self.routes@.dom() =~= self.table@.dom());
            assert forall|i: int| 0 <= i < self.peers@.len() implies {
                &&& self.table@.dom().contains((#[trigger] self.peers@[i]).socket_addr)
                &&& self.table@[self.peers@[i].socket_addr] == self.peers@[i].connection_state
                &&& self.epochs@[self.peers@[i].socket_addr] == self.peers@[i].epoch
                &&& self.routes@[self.peers@[i].socket_addr] == self.peers@[i].listener
            } by {
                if i < index {
                    assert(self.peers@[i] == old(self).peers@[i]);
                } else {
                    assert(self.peers@[i] == old(self).peers@[i + 1]);
                }
            }
            assert forall|i: int, j: int| 0 <= i < j < self.peers@.len() implies (
            #[trigger] self.peers@[i]).socket_addr != (#[trigger] self.peers@[j]).socket_addr by {
                let oi = if i < index { i } else { i + 1 };
                let oj = if j < index { j } else { j + 1 };
                assert(self.peers@[i] == old(self).peers@[oi]);
                assert(self.peers@[j] == old(self).peers@[oj]);
            }
            assert forall|a: PeerHandle| #[trigger]
                self.table@.dom().contains(a) implies self.spec_find(a) is Some by {
                assert(old(self).spec_find(a) is Some);
                let k = old(self).spec_find(a)->Some_0;
                assert(k != index);
                let nk = if k < index { k } else { k - 1 };
                assert(self.peers@[nk] == old(self).peers@[k]);
            }
        }
    }

    /// Applies one engine event, which came in on `listener`, to the peer
    /// table and says what is owed in answer: at most one event for the
    /// application, and a welcome packet where the event is a first contact.
    ///
    /// Only a packet that carries bytes is passed on, and only from a
    /// `Connected` peer: an empty packet is a handshake packet, and one that
    /// comes after the handshake is over is dropped as a violation. A first
    /// packet that is not empty is dropped too and leaves no record.
    pub fn handle_event(&mut self, listener: usize, event: LaminarSocketEvent) -> (reaction:
        Reaction)
        requires
            old(self).wf(),
        ensures
            final(self).wf(),
            final(self)@.peers == step(old(self)@.peers, event@).table,
            reaction@ == step(old(self)@.peers, event@).reaction,
            final(self)@.routes == routed(old(self)@.routes, old(self)@.peers, listener, event@),
            final(self)@.keeps_epochs_of(old(self)@),
            final(self)@.listeners == old(self)@.listeners,
            final(self)@.handed == old(self)@.handed,
    {
        match event {
            LaminarSocketEvent::Connect(addr) => match self.find(addr) {
                None => Reaction::silent(Verdict::UnknownPeer),
                Some(index) => {
                    let state = self.peers[index].state();
                    if state == ConnectionState::Connecting {
                        self.move_to(index, ConnectionState::Connected);
                        Reaction::status(addr, ConnectionState::Connected)
                    } else if state == ConnectionState::Connected {
                        Reaction::silent(Verdict::Swallowed)
                    } else {
                        Reaction::silent(Verdict::ProtocolViolation)
                    }
                },
            },
            LaminarSocketEvent::Disconnect(addr) => match self.find(addr) {
                None => Reaction::silent(Verdict::UnknownPeer),
                Some(index) => {
                    self.forget(index);
                    Reaction::status(addr, ConnectionState::Disconnected)
                },
            },
            LaminarSocketEvent::Timeout(addr) => match self.find(addr) {
                None => Reaction::silent(Verdict::UnknownPeer),
                Some(index) => {
                    if self.move_to(index, ConnectionState::Timeout) {
                        Reaction::status(addr, ConnectionState::Timeout)
                    } else {
                        assert(self.table@ =~= old(self).table@);
                        Reaction::silent(Verdict::Swallowed)
                    }
                },
            },
            LaminarSocketEvent::Packet(packet) => {
                let addr = packet.addr();
                let empty = packet.payload().len() == 0;
                match self.find(addr) {
                    None => {
                        if empty {
                            self.track(addr, listener);
                            Reaction {
                                emit: Some(PeerEvent::Status(addr, ConnectionState::Connecting)),
                                welcome: Some(LaminarPacket::reliable_unordered(addr, Vec::new())),
                                verdict: Verdict::Applied,
                            }
                        } else {
                            Reaction::silent(Verdict::ProtocolViolation)
                        }
                    },
                    Some(index) => {
                        let state = self.peers[index].state();
                        if state == ConnectionState::Connected && !empty {
                            Reaction {
                                emit: Some(PeerEvent::Packet(packet)),
                                welcome: None,
                                verdict: Verdict::Applied,
                            }
                        } else if state == ConnectionState::Connecting && empty {
                            Reaction::silent(Verdict::Swallowed)
                        } else {
                            Reaction::silent(Verdict::ProtocolViolation)
                        }
                    },
                }
            },
        }
    }

    /// Applies `events`, which came in on `listener`, to the peer table in
    /// order and gathers what they call for: the events for the application
    /// and the welcome packets for the engine, each in the order of the
    /// events that gave rise to them.
    pub fn apply(&mut self, listener: usize, events: Vec<LaminarSocketEvent>) -> (applied: Applied)
        requires
            old(self).wf(),
        ensures
            final(self).wf(),
            final(self)@.peers == table_after(old(self)@.peers, events_view(events@)),
            final(self)@.routes == routes_after(
                old(self)@.routes,
                old(self)@.peers,
                listener,
                events_view(events@),
            ),
            final(self)@.keeps_epochs_through(old(self)@, events_view(events@)),
            final(self)@.listeners == old(self)@.listeners,
            final(self)@.handed == old(self)@.handed,
            peer_events_view(applied.published@) == published(
                old(self)@.peers,
                events_view(events@),
            ),
            packets_view(applied.welcomes@) == welcomes(old(self)@.peers, events_view(events@)),
    {
        let mut published_events: Vec<PeerEvent> = Vec::new();
        let mut welcome_packets: Vec<LaminarPacket> = Vec::new();
        let ghost start = self@;
        let ghost all = events_view(events@);
        assert(all.take(0) =~= Seq::<SocketEventView>::empty());
        assert(peer_events_view(published_events@) =~= Seq::<PeerEventView>::empty());
        assert(packets_view(welcome_packets@) =~= Seq::<PacketView>::empty());
        for event in it: events
            invariant
                self.wf(),
                self@.listeners == start.listeners,
                self@.handed == start.handed,
                self@.keeps_epochs_through(start, all.take(it.index() as int)),
                all == events_view(it.seq()),
                self@.peers == table_after(start.peers, all.take(it.index() as int)),
                self@.routes == routes_after(
                    start.routes,
                    start.peers,
                    listener,
                    all.take(it.index() as int),
                ),
                peer_events_view(published_events@) == published(
                    start.peers,
                    all.take(it.index() as int),
                ),
                packets_view(welcome_packets@) == welcomes(
                    start.peers,
                    all.take(it.index() as int),
                ),
        {
            let ghost done = it.index() as int;
            let ghost told = published_events@;
            let ghost welcomed = welcome_packets@;
            let ghost earlier = self@;
            let reaction = self.handle_event(listener, event);
            proof {
                assert(all.take(done + 1).drop_last() =~= all.take(done));
                assert(all.take(done + 1).last() == event@);
                assert forall|addr: PeerHandle|
                    start.peers.dom().contains(addr) && #[trigger] self@.peers.dom().contains(addr)
                        && creations_of(start.peers, all.take(done + 1), addr)
                        == 0 implies self@.epochs[addr] == start.epochs[addr] by {
                    assert(creations_of(start.peers, all.take(done), addr) == 0);
                    assert(earlier.peers.dom().contains(addr));
                }
            }
            if let Some(welcome) = reaction.welcome {
                welcome_packets.push(welcome);
                assert(packets_view(welcome_packets@) =~= packets_view(welcomed).push(welcome@));
            }
            if let Some(peer_event) = reaction.emit {
                published_events.push(peer_event);
                assert(peer_events_view(published_events@) =~= peer_events_view(told).push(
                    peer_event@,
                ));
            }
        }
        assert(all.take(all.len() as int) =~= all);
        Applied { published: published_events, welcomes: welcome_packets }
    }

    /// Puts one welcome packet to the engine queue and notes that it did.
    /// What the queue answers is not kept: a queue that has lost its reader
    /// has lost its engine, and the welcome with it.
    fn hand_on(&mut self, welcome: LaminarPacket)
        requires
            old(self).wf(),
        ensures
            final(self).wf(),
            final(self)@ == (ServerView {
                handed: old(self)@.handed.push(welcome@),
                ..old(self)@
            }),
    {
        proof {
            self.handed@ = self.handed@.push(welcome@);
        }
        let _ = queue_send(&self.outbound_sender, welcome);
    }

    /// Queues `packet` for the reliability engine, whatever state its peer is
    /// in. Before `listen` nothing is queued. A packet that is not queued is
    /// handed back.
    pub fn send(&self, packet: LaminarPacket) -> (sent: Result<(), Unsent>)
        ensures
            !self.initialized() ==> sent == Err::<(), Unsent>(
                Unsent { reason: NetworkError::NotInitialized, packet },
            ),
            self.initialized() ==> sent is Ok || sent == Err::<(), Unsent>(
                Unsent { reason: NetworkError::ChannelClosed, packet },
            ),
    {
        if !self.initialized() {
            return Err(Unsent { reason: NetworkError::NotInitialized, packet });
        }
        send_answer(queue_send(&self.outbound_sender, packet))
    }

    /// The sending end of the queue to the reliability engine, once `listen`
    /// has made this server active.
    pub fn event_sender(&self) -> (sender: Result<&Sender<LaminarPacket>, NetworkError>)
        ensures
            sender is Ok <==> self.initialized(),
            sender matches Err(error) ==> error == NetworkError::NotInitialized,
    {
        if self.initialized() {
            Ok(&self.outbound_sender)
        } else {
            Err(NetworkError::NotInitialized)
        }
    }

    /// The oldest packet that waits for the reliability engine, taken off the
    /// queue; `None` when nothing waits. What waits depends on every holder of
    /// a sending end, so nothing is promised of the answer.
    pub fn next_outgoing(&self) -> (packet: Option<LaminarPacket>) {
        take_answer(queue_try_recv(&self.outbound_receiver))
    }

    /// Prepares one listener on `socket_address` and makes the server active.
    ///
    /// The second address is where the WebRTC side listens; left out, it is
    /// `socket_address` on the next port. The third is the WebRTC address
    /// given to clients; left out, it is the second. The listener that comes
    /// back carries its number, the adapter to bind an engine to and the far
    /// ends of the adapter's queues, one for each of the two workers. Each
    /// call adds a listener; none replaces another.
    pub fn listen(
        &mut self,
        socket_address: PeerHandle,
        webrtc_listen_address: Option<PeerHandle>,
        public_webrtc_address: Option<PeerHandle>,
    ) -> (listener: Listener)
        requires
            old(self).wf(),
            webrtc_listen_address is None ==> socket_address.port() < u16::MAX,
        ensures
            final(self).wf(),
            final(self).initialized(),
            final(self)@ == (ServerView {
                listeners: old(self)@.listeners.push(socket_address),
                ..old(self)@
            }),
            listener.index == old(self)@.listeners.len(),
            listener.socket_address == socket_address,
            listener.webrtc_listen_address == webrtc_address(socket_address, webrtc_listen_address),
            listener.public_webrtc_address == match public_webrtc_address {
                Some(address) => address,
                None => webrtc_address(socket_address, webrtc_listen_address),
            },
            listener.socket.bind_address == socket_address,
    {
        let webrtc_listen_address = match webrtc_listen_address {
            Some(address) => address,
            None => socket_address.with_port(socket_address.port() + 1),
        };
        let public_webrtc_address = match public_webrtc_address {
            Some(address) => address,
            None => webrtc_listen_address,
        };
        let (socket, inbound, outbound) = LaminarDatagramSocketForNaia::open(socket_address);
        let index = self.listeners.len();
        self.listeners.push(socket_address);
        Listener {
            index,
            socket_address,
            webrtc_listen_address,
            public_webrtc_address,
            socket,
            inbound,
            outbound,
        }
    }

    /// Whether `listen` has made this server active.
    pub open spec fn spec_initialized(&self) -> bool {
        self@.listeners.len() > 0
    }

    #[verifier::when_used_as_spec(spec_initialized)]
    pub fn initialized(&self) -> (active: bool)
        ensures
            active == self.spec_initialized(),
    {
        self.listeners.len() > 0
    }
}

/// One tick of the event pump for one listener: applies `events`, which the
/// engine of `listener` produced since the last tick, to the peer table in
/// order, puts the welcome packet of every first contact among them to the
/// engine queue, and returns what the application is to be told, in the same
/// order. Before `listen` the events are dropped.
pub fn laminar_poller(
    net: &mut NetworkResource,
    listener: usize,
    events: Vec<LaminarSocketEvent>,
) -> (out: Vec<PeerEvent>)
    requires
        old(net).wf(),
    ensures
        final(net).wf(),
        final(net)@.listeners == old(net)@.listeners,
        !old(net).initialized() ==> final(net)@ == old(net)@ && out@.len() == 0,
        old(net).initialized() ==> {
            &&& final(net)@.peers == table_after(old(net)@.peers, events_view(events@))
            &&& final(net)@.routes == routes_after(
                old(net)@.routes,
                old(net)@.peers,
                listener,
                events_view(events@),
            )
            &&& final(net)@.keeps_epochs_through(old(net)@, events_view(events@))
            &&& final(net)@.handed == old(net)@.handed + welcomes(
                old(net)@.peers,
                events_view(events@),
            )
            &&& peer_events_view(out@) == published(old(net)@.peers, events_view(events@))
        },
{
    if !net.initialized() {
        return Vec::new();
    }
    let ghost before = net@;
    let ghost all = events_view(events@);
    let applied = net.apply(listener, events);
    let ghost owed = packets_view(applied.welcomes@);
    let ghost after = net@;
    assert(owed.take(0) =~= Seq::<PacketView>::empty());
    assert(before.handed + owed.take(0) =~= before.handed);
    for welcome in it: applied.welcomes
        invariant
            net.wf(),
            owed == packets_view(it.seq()),
            net@ == (ServerView { handed: before.handed + owed.take(it.index() as int), ..after }),
    {
        let ghost done = it.index() as int;
        net.hand_on(welcome);
        assert(before.handed + owed.take(done + 1) =~= (before.handed + owed.take(done)).push(
            welcome@,
        ));
    }
    assert(owed.take(owed.len() as int) =~= owed);
    applied.published
}

} // verus!
