//! Plain-value pictures of the reliability engine's packet and event types.
//!
//! The engine's own values carry a socket address; here the same data is held
//! as numbers and bytes so that the state machine can read it.
use crate::PeerHandle;
use vstd::prelude::*;

verus! {

/// How a packet is to be delivered.
#[derive(Copy, Clone, Debug, PartialEq, Eq, Structural)]
pub enum DeliveryGuarantee {
    /// The packet may or may not arrive.
    Unreliable,
    /// The packet is resent until it is acknowledged.
    Reliable,
}

/// How a packet is arranged relative to others, optionally on a numbered stream.
#[derive(Copy, Clone, Debug, PartialEq, Eq)]
pub enum OrderingGuarantee {
    /// No arranging is done.
    Unordered,
    /// Only the newest packet of a stream is kept.
    Sequenced(Option<u8>),
    /// Packets of a stream come out in the order sent.
    Ordered(Option<u8>),
}

/// A user packet: who it is for (or from), what it carries and how it travels.
#[derive(Clone, Debug, PartialEq, Eq)]
pub struct LaminarPacket {
    addr: PeerHandle,
    payload: Vec<u8>,
    delivery: DeliveryGuarantee,
    ordering: OrderingGuarantee,
}

/// What a [`LaminarPacket`] is, mathematically.
pub struct PacketView {
    pub addr: PeerHandle,
    pub payload: Seq<u8>,
    pub delivery: DeliveryGuarantee,
    pub ordering: OrderingGuarantee,
}

impl View for LaminarPacket {
    type V = PacketView;

    closed spec fn view(&self) -> PacketView {
        PacketView {
            addr: self.addr,
            payload: self.payload@,
            delivery: self.delivery,
            ordering: self.ordering,
        }
    }
}

impl LaminarPacket {
    /// A packet that may be lost and is not arranged.
    pub fn unreliable(addr: PeerHandle, payload: Vec<u8>) -> (packet: LaminarPacket)
        ensures
            packet@ == (PacketView {
                addr,
                payload: payload@,
                delivery: DeliveryGuarantee::Unreliable,
                ordering: OrderingGuarantee::Unordered,
            }),
    {
        LaminarPacket {
            addr,
            payload,
            delivery: DeliveryGuarantee::Unreliable,
            ordering: OrderingGuarantee::Unordered,
        }
    }

    /// A packet that is resent until acknowledged and is not arranged.
    pub fn reliable_unordered(addr: PeerHandle, payload: Vec<u8>) -> (packet: LaminarPacket)
        ensures
            packet@ == (PacketView {
                addr,
                payload: payload@,
                delivery: DeliveryGuarantee::Reliable,
                ordering: OrderingGuarantee::Unordered,
            }),
    {
        LaminarPacket {
            addr,
            payload,
            delivery: DeliveryGuarantee::Reliable,
            ordering: OrderingGuarantee::Unordered,
        }
    }

    /// A packet that may be lost; of those that arrive on its stream only
    /// the newest is kept.
    pub fn unreliable_sequenced(
        addr: PeerHandle,
        payload: Vec<u8>,
        stream_id: Option<u8>,
    ) -> (packet: LaminarPacket)
        ensures
            packet@ == (PacketView {
                addr,
                payload: payload@,
                delivery: DeliveryGuarantee::Unreliable,
                ordering: OrderingGuarantee::Sequenced(stream_id),
            }),
    {
        LaminarPacket {
            addr,
            payload,
            delivery: DeliveryGuarantee::Unreliable,
            ordering: OrderingGuarantee::Sequenced(stream_id),
        }
    }

    /// A packet that is resent until acknowledged and comes out in the order
    /// sent on its stream.
    pub fn reliable_ordered(
        addr: PeerHandle,
        payload: Vec<u8>,
        stream_id: Option<u8>,
    ) -> (packet: LaminarPacket)
        ensures
            packet@ == (PacketView {
                addr,
                payload: payload@,
                delivery: DeliveryGuarantee::Reliable,
                ordering: OrderingGuarantee::Ordered(stream_id),
            }),
    {
        LaminarPacket {
            addr,
            payload,
            delivery: DeliveryGuarantee::Reliable,
            ordering: OrderingGuarantee::Ordered(stream_id),
        }
    }

    /// A packet that is resent until acknowledged; of those that arrive on
    /// its stream only the newest is kept.
    pub fn reliable_sequenced(
        addr: PeerHandle,
        payload: Vec<u8>,
        stream_id: Option<u8>,
    ) -> (packet: LaminarPacket)
        ensures
            packet@ == (PacketView {
                addr,
                payload: payload@,
                delivery: DeliveryGuarantee::Reliable,
                ordering: OrderingGuarantee::Sequenced(stream_id),
            }),
    {
        LaminarPacket {
            addr,
            payload,
            delivery: DeliveryGuarantee::Reliable,
            ordering: OrderingGuarantee::Sequenced(stream_id),
        }
    }

    /// The bytes carried.
    pub fn payload(&self) -> (bytes: &[u8])
        ensures
            bytes@ == self@.payload,
    {
        self.payload.as_slice()
    }

    /// The remote endpoint this packet is for, or came from.
    pub fn addr(&self) -> (addr: PeerHandle)
        ensures
            addr == self@.addr,
    {
        self.addr
    }

    pub fn delivery_guarantee(&self) -> (delivery: DeliveryGuarantee)
        ensures
            delivery == self@.delivery,
    {
        self.delivery
    }

    pub fn order_guarantee(&self) -> (ordering: OrderingGuarantee)
        ensures
            ordering == self@.ordering,
    {
        self.ordering
    }
}

/// An event as the reliability engine reports it.
#[derive(Debug, PartialEq)]
pub enum LaminarSocketEvent {
    /// A packet arrived from a remote endpoint.
    Packet(LaminarPacket),
    /// A packet has been both sent to and received from the endpoint.
    Connect(PeerHandle),
    /// The endpoint has been silent for longer than the idle timeout.
    Timeout(PeerHandle),
    /// The established connection to the endpoint is gone.
    Disconnect(PeerHandle),
}

/// What a [`LaminarSocketEvent`] is, mathematically.
pub enum SocketEventView {
    Packet(PacketView),
    Connect(PeerHandle),
    Timeout(PeerHandle),
    Disconnect(PeerHandle),
}

impl View for LaminarSocketEvent {
    type V = SocketEventView;

    open spec fn view(&self) -> SocketEventView {
        match self {
            LaminarSocketEvent::Packet(packet) => SocketEventView::Packet(packet@),
            LaminarSocketEvent::Connect(addr) => SocketEventView::Connect(*addr),
            LaminarSocketEvent::Timeout(addr) => SocketEventView::Timeout(*addr),
            LaminarSocketEvent::Disconnect(addr) => SocketEventView::Disconnect(*addr),
        }
    }
}

impl SocketEventView {
    /// The endpoint the event is about.
    pub open spec fn address(self) -> PeerHandle {
        match self {
            SocketEventView::Packet(packet) => packet.addr,
            SocketEventView::Connect(addr) => addr,
            SocketEventView::Timeout(addr) => addr,
            SocketEventView::Disconnect(addr) => addr,
        }
    }
}

/// The packets as the state machines read them.
pub open spec fn packets_view(packets: Seq<LaminarPacket>) -> Seq<PacketView> {
    packets.map_values(|packet: LaminarPacket| packet@)
}

/// The events as the state machines read them.
pub open spec fn events_view(events: Seq<LaminarSocketEvent>) -> Seq<SocketEventView> {
    events.map_values(|event: LaminarSocketEvent| event@)
}

} // verus!
