//! The server's connection state machine, as mathematics.
//!
//! A peer table maps each tracked address to the state of its connection.
//! [`step`] says what one engine event does to a table and what it makes the
//! server say; [`table_after`], [`published`] and [`welcomes`] extend that to
//! a sequence of events taken in arrival order.
use crate::laminar_types::{DeliveryGuarantee, OrderingGuarantee, PacketView, SocketEventView};
use crate::{ConnectionState, PeerEventView, PeerHandle};
use vstd::prelude::*;

verus! {

/// The peers a server tracks, each with the state of its connection.
pub type PeerTable = Map<PeerHandle, ConnectionState>;

/// How the state machine judged one event.
#[derive(Debug, Clone, Copy, PartialEq, Eq, Structural)]
pub enum Verdict {
    /// The event changed the table or was passed on to the application.
    Applied,
    /// The event is a repeat that calls for nothing: a second `Connect`, a
    /// handshake retry, a second `Timeout`.
    Swallowed,
    /// The event names an address that has no peer record; it is ignored.
    UnknownPeer,
    /// The event is not defined for the state its peer is in: a first packet
    /// that is not a handshake, a packet from a peer that is not `Connected`
    /// yet, an empty packet from a peer whose handshake is over, a `Connect`
    /// for a peer that has timed out. It is dropped.
    ProtocolViolation,
}

/// What the server does in answer to one event.
pub struct ReactionView {
    /// The event published to the application, if any.
    pub emitted: Option<PeerEventView>,
    /// The welcome packet handed to the engine, if any.
    pub welcome: Option<PacketView>,
    pub verdict: Verdict,
}

/// A table after one event, with the reaction to that event.
pub struct Transition {
    pub table: PeerTable,
    pub reaction: ReactionView,
}

/// The zero-length reliable packet that answers a first contact from `addr`.
pub open spec fn welcome_packet(addr: PeerHandle) -> PacketView {
    PacketView {
        addr,
        payload: Seq::empty(),
        delivery: DeliveryGuarantee::Reliable,
        ordering: OrderingGuarantee::Unordered,
    }
}

/// The table stays as it is and nothing is said.
pub open spec fn unmoved(table: PeerTable, verdict: Verdict) -> Transition {
    Transition { table, reaction: ReactionView { emitted: None, welcome: None, verdict } }
}

/// The peer at `addr` enters `state`, and the application is told so.
pub open spec fn enter(table: PeerTable, addr: PeerHandle, state: ConnectionState) -> Transition {
    Transition {
        table: table.insert(addr, state),
        reaction: ReactionView {
            emitted: Some(PeerEventView::Status(addr, state)),
            welcome: None,
            verdict: Verdict::Applied,
        },
    }
}

/// What one event does to a peer table.
pub open spec fn step(table: PeerTable, event: SocketEventView) -> Transition {
    let addr = event.address();
    let known = table.dom().contains(addr);
    match event {
        SocketEventView::Connect(_) => {
            if !known {
                unmoved(table, Verdict::UnknownPeer)
            } else if table[addr] == ConnectionState::Connecting {
                enter(table, addr, ConnectionState::Connected)
            } else if table[addr] == ConnectionState::Connected {
                unmoved(table, Verdict::Swallowed)
            } else {
                unmoved(table, Verdict::ProtocolViolation)
            }
        },
        SocketEventView::Disconnect(_) => {
            if !known {
                unmoved(table, Verdict::UnknownPeer)
            } else {
                Transition {
                    table: table.remove(addr),
                    reaction: ReactionView {
                        emitted: Some(PeerEventView::Status(addr, ConnectionState::Disconnected)),
                        welcome: None,
                        verdict: Verdict::Applied,
                    },
                }
            }
        },
        SocketEventView::Timeout(_) => {
            if !known {
                unmoved(table, Verdict::UnknownPeer)
            } else if table[addr] == ConnectionState::Timeout {
                unmoved(table, Verdict::Swallowed)
            } else {
                enter(table, addr, ConnectionState::Timeout)
            }
        },
        SocketEventView::Packet(packet) => {
            if !known {
                if packet.payload.len() == 0 {
                    Transition {
                        table: table.insert(addr, ConnectionState::Connecting),
                        reaction: ReactionView {
                            emitted: Some(PeerEventView::Status(addr, ConnectionState::Connecting)),
                            welcome: Some(welcome_packet(addr)),
                            verdict: Verdict::Applied,
                        },
                    }
                } else {
                    unmoved(table, Verdict::ProtocolViolation)
                }
            } else if table[addr] == ConnectionState::Connected && packet.payload.len() > 0 {
                Transition {
                    table,
                    reaction: ReactionView {
                        emitted: Some(PeerEventView::Packet(packet)),
                        welcome: None,
                        verdict: Verdict::Applied,
                    },
                }
            } else if table[addr] == ConnectionState::Connecting && packet.payload.len() == 0 {
                unmoved(table, Verdict::Swallowed)
            } else {
                unmoved(table, Verdict::ProtocolViolation)
            }
        },
    }
}

/// The event is a first contact: an empty packet from an address that has no
/// record. It is the one event that makes a record.
pub open spec fn creates(table: PeerTable, event: SocketEventView) -> bool {
    event matches SocketEventView::Packet(packet) && packet.payload.len() == 0
        && !table.dom().contains(packet.addr)
}

/// The event is a `Connect` that takes its peer from `Connecting` to `Connected`.
pub open spec fn connects(table: PeerTable, event: SocketEventView) -> bool {
    event matches SocketEventView::Connect(addr) && table.dom().contains(addr) && table[addr]
        == ConnectionState::Connecting
}

/// The event is a `Disconnect` of a tracked peer. It is the one event that
/// takes a record away.
pub open spec fn removes(table: PeerTable, event: SocketEventView) -> bool {
    event matches SocketEventView::Disconnect(addr) && table.dom().contains(addr)
}

/// Which listener each tracked peer talks to, after one event that came in
/// on `listener`: a peer is filed under the listener its first contact came
/// in on, and keeps it until its record is taken away.
pub open spec fn routed(
    routes: Map<PeerHandle, usize>,
    table: PeerTable,
    listener: usize,
    event: SocketEventView,
) -> Map<PeerHandle, usize> {
    if creates(table, event) {
        routes.insert(event.address(), listener)
    } else if removes(table, event) {
        routes.remove(event.address())
    } else {
        routes
    }
}

/// The table after `events` have been applied to `table` in order.
pub open spec fn table_after(table: PeerTable, events: Seq<SocketEventView>) -> PeerTable
    decreases events.len(),
{
    if events.len() == 0 {
        table
    } else {
        step(table_after(table, events.drop_last()), events.last()).table
    }
}

/// The reaction to the last of `events`, the earlier ones having been applied
/// to `table` before it.
pub open spec fn last_reaction(table: PeerTable, events: Seq<SocketEventView>) -> ReactionView
    recommends
        events.len() > 0,
{
    step(table_after(table, events.drop_last()), events.last()).reaction
}

/// The application-facing events that `events` give rise to, in order.
pub open spec fn published(table: PeerTable, events: Seq<SocketEventView>) -> Seq<PeerEventView>
    decreases events.len(),
{
    if events.len() == 0 {
        Seq::empty()
    } else {
        let before = published(table, events.drop_last());
        match last_reaction(table, events).emitted {
            Some(event) => before.push(event),
            None => before,
        }
    }
}

/// The welcome packets that `events` give rise to, in order.
pub open spec fn welcomes(table: PeerTable, events: Seq<SocketEventView>) -> Seq<PacketView>
    decreases events.len(),
{
    if events.len() == 0 {
        Seq::empty()
    } else {
        let before = welcomes(table, events.drop_last());
        match last_reaction(table, events).welcome {
            Some(packet) => before.push(packet),
            None => before,
        }
    }
}

/// How many of `events` made a record for `addr`.
pub open spec fn creations_of(
    table: PeerTable,
    events: Seq<SocketEventView>,
    addr: PeerHandle,
) -> nat
    decreases events.len(),
{
    if events.len() == 0 {
        0
    } else {
        let earlier = creations_of(table, events.drop_last(), addr);
        if events.last().address() == addr && creates(
            table_after(table, events.drop_last()),
            events.last(),
        ) {
            earlier + 1
        } else {
            earlier
        }
    }
}

/// Which listener each tracked peer talks to, after `events` that came in on
/// `listener` have been applied in order.
pub open spec fn routes_after(
    routes: Map<PeerHandle, usize>,
    table: PeerTable,
    listener: usize,
    events: Seq<SocketEventView>,
) -> Map<PeerHandle, usize>
    decreases events.len(),
{
    if events.len() == 0 {
        routes
    } else {
        routed(
            routes_after(routes, table, listener, events.drop_last()),
            table_after(table, events.drop_last()),
            listener,
            events.last(),
        )
    }
}

/// A state that a tracked peer can be in.
pub open spec fn is_tracked_state(state: ConnectionState) -> bool {
    state == ConnectionState::Connecting || state == ConnectionState::Connected || state
        == ConnectionState::Timeout
}

/// Every state in the table is one that a tracked peer can be in.
pub open spec fn tracked_states(table: PeerTable) -> bool {
    forall|addr: PeerHandle| #[trigger] table.dom().contains(addr) ==> is_tracked_state(table[addr])
}

} // verus!
