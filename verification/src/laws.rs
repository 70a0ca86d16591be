//! What holds of the two state machines for every table, every state and
//! every sequence of events.
use crate::client::observed_all;
use crate::laminar_types::{PacketView, SocketEventView};
use crate::protocol::{
    connects, creates, creations_of, published, removes, routed, step, table_after,
    tracked_states, unmoved, welcome_packet, welcomes, PeerTable, ReactionView, Verdict,
};
use crate::{ConnectionState, PeerEventView, PeerHandle};
use vstd::prelude::*;

verus! {

/// The reaction to `events[at]`, the events before it having been applied to
/// `table`.
pub open spec fn reaction_at(
    table: PeerTable,
    events: Seq<SocketEventView>,
    at: int,
) -> ReactionView
    recommends
        0 <= at < events.len(),
{
    step(table_after(table, events.take(at)), events[at]).reaction
}

/// How many of `events` made a record.
pub open spec fn creations(table: PeerTable, events: Seq<SocketEventView>) -> nat
    decreases events.len(),
{
    if events.len() == 0 {
        0
    } else {
        let earlier = creations(table, events.drop_last());
        if creates(table_after(table, events.drop_last()), events.last()) {
            earlier + 1
        } else {
            earlier
        }
    }
}

/// How many of `events` took a peer from `Connecting` to `Connected`.
pub open spec fn connections(table: PeerTable, events: Seq<SocketEventView>) -> nat
    decreases events.len(),
{
    if events.len() == 0 {
        0
    } else {
        let earlier = connections(table, events.drop_last());
        if connects(table_after(table, events.drop_last()), events.last()) {
            earlier + 1
        } else {
            earlier
        }
    }
}

/// How many of `events` took a record away.
pub open spec fn removals(table: PeerTable, events: Seq<SocketEventView>) -> nat
    decreases events.len(),
{
    if events.len() == 0 {
        0
    } else {
        let earlier = removals(table, events.drop_last());
        if removes(table_after(table, events.drop_last()), events.last()) {
            earlier + 1
        } else {
            earlier
        }
    }
}

/// How many welcome packets `events` caused to be sent to `addr`.
pub open spec fn welcomes_to(
    table: PeerTable,
    events: Seq<SocketEventView>,
    addr: PeerHandle,
) -> nat
    decreases events.len(),
{
    if events.len() == 0 {
        0
    } else {
        let earlier = welcomes_to(table, events.drop_last(), addr);
        match step(table_after(table, events.drop_last()), events.last()).reaction.welcome {
            Some(packet) => if packet.addr == addr {
                earlier + 1
            } else {
                earlier
            },
            None => earlier,
        }
    }
}

/// One event changes the number of tracked peers by exactly what it makes or
/// takes away, and leaves every tracked peer in a state a tracked peer can
/// be in.
pub proof fn step_keeps_count(table: PeerTable, event: SocketEventView)
    requires
        table.dom().finite(),
    ensures
        step(table, event).table.dom().finite(),
        step(table, event).table.dom().len() == table.dom().len() + (if creates(table, event) {
            1int
        } else {
            0int
        }) - (if removes(table, event) {
            1int
        } else {
            0int
        }),
        tracked_states(table) ==> tracked_states(step(table, event).table),
{
    let addr = event.address();
    let next = step(table, event).table;
    if creates(table, event) {
        assert(next.dom() =~= table.dom().insert(addr));
    } else if removes(table, event) {
        assert(next.dom() =~= table.dom().remove(addr));
    } else {
        assert(next.dom() =~= table.dom());
    }
}

/// The number of tracked peers is the number there was, plus the records
/// made, minus the records taken away; so it is never negative. From an empty
/// table it is the first contacts minus the disconnects.
pub proof fn peer_count_is_made_minus_removed(table: PeerTable, events: Seq<SocketEventView>)
    requires
        table.dom().finite(),
    ensures
        table_after(table, events).dom().finite(),
        table_after(table, events).dom().len() == table.dom().len() + creations(table, events)
            - removals(table, events),
        removals(table, events) <= table.dom().len() + creations(table, events),
    decreases events.len(),
{
    if events.len() > 0 {
        peer_count_is_made_minus_removed(table, events.drop_last());
        step_keeps_count(table_after(table, events.drop_last()), events.last());
    }
}

/// Where every record that was made has also been taken to `Connected`
/// once, the number of tracked peers is the number there was, plus the
/// `Connect` transitions applied, minus the `Disconnect` transitions applied.
pub proof fn peer_count_is_connected_minus_removed(table: PeerTable, events: Seq<SocketEventView>)
    requires
        table.dom().finite(),
        creations(table, events) == connections(table, events),
    ensures
        table_after(table, events).dom().len() == table.dom().len() + connections(table, events)
            - removals(table, events),
{
    peer_count_is_made_minus_removed(table, events);
}

/// A welcome packet is sent exactly on a first contact. It is the zero-length
/// reliable packet to the address that made contact, and the record it goes
/// with is made in the same step, in state `Connecting`.
pub proof fn welcome_iff_first_contact(table: PeerTable, event: SocketEventView)
    ensures
        step(table, event).reaction.welcome is Some <==> creates(table, event),
        creates(table, event) ==> {
            &&& step(table, event).reaction.welcome == Some(welcome_packet(event.address()))
            &&& welcome_packet(event.address()).payload.len() == 0
            &&& !table.dom().contains(event.address())
            &&& step(table, event).table.dom().contains(event.address())
            &&& step(table, event).table[event.address()] == ConnectionState::Connecting
        },
{
}

/// Over any sequence of events, each address is sent exactly one welcome
/// packet for each first contact it makes, and every welcome packet sent is
/// empty.
pub proof fn one_welcome_per_first_contact(
    table: PeerTable,
    events: Seq<SocketEventView>,
    addr: PeerHandle,
)
    ensures
        welcomes_to(table, events, addr) == creations_of(table, events, addr),
        welcomes(table, events).len() == creations(table, events),
        forall|i: int|
            0 <= i < welcomes(table, events).len() ==> (#[trigger] welcomes(
                table,
                events,
            )[i]).payload.len() == 0,
    decreases events.len(),
{
    if events.len() > 0 {
        one_welcome_per_first_contact(table, events.drop_last(), addr);
        welcome_iff_first_contact(table_after(table, events.drop_last()), events.last());
    }
}

/// A peer that is tracked after `events`, and was not before them, was sent
/// its welcome packet at an earlier step, the step that made its record in
/// state `Connecting`. So the welcome goes out before the record can ever be
/// `Connected`.
pub proof fn welcome_precedes_tracking(
    table: PeerTable,
    events: Seq<SocketEventView>,
    addr: PeerHandle,
)
    requires
        !table.dom().contains(addr),
        table_after(table, events).dom().contains(addr),
    ensures
        exists|at: int|
            0 <= at < events.len() && (#[trigger] reaction_at(table, events, at)).welcome == Some(
                welcome_packet(addr),
            ) && reaction_at(table, events, at).emitted == Some(
                PeerEventView::Status(addr, ConnectionState::Connecting),
            ),
    decreases events.len(),
{
    if events.len() > 0 {
        let earlier = events.drop_last();
        let last = events.len() - 1;
        if table_after(table, earlier).dom().contains(addr) {
            welcome_precedes_tracking(table, earlier, addr);
            let at = choose|at: int|
                0 <= at < earlier.len() && (#[trigger] reaction_at(table, earlier, at)).welcome
                    == Some(welcome_packet(addr)) && reaction_at(table, earlier, at).emitted
                    == Some(PeerEventView::Status(addr, ConnectionState::Connecting));
            assert(earlier.take(at) =~= events.take(at));
            assert(reaction_at(table, events, at) == reaction_at(table, earlier, at));
        } else {
            assert(events.take(last) =~= earlier);
            assert(reaction_at(table, events, last).welcome == Some(welcome_packet(addr)));
        }
    }
}

/// A `Connect` for a peer that is already `Connected` changes nothing and
/// tells the application nothing.
pub proof fn duplicate_connect_is_silent(table: PeerTable, addr: PeerHandle)
    requires
        table.dom().contains(addr),
        table[addr] == ConnectionState::Connected,
    ensures
        step(table, SocketEventView::Connect(addr)) == unmoved(table, Verdict::Swallowed),
{
}

/// Whatever the table, the second of two `Connect` events for one address
/// in a row tells the application nothing and changes nothing.
pub proof fn second_connect_is_silent(table: PeerTable, addr: PeerHandle)
    ensures
        ({
            let first = step(table, SocketEventView::Connect(addr));
            let second = step(first.table, SocketEventView::Connect(addr));
            second.reaction.emitted is None && second.reaction.welcome is None && second.table
                == first.table
        }),
{
}

/// A packet is passed on to the application exactly when it carries bytes
/// and its sender is `Connected`, and then it is passed on as it came, by the
/// event that carries it, and the table stays as it is.
pub proof fn packet_passed_on_iff_connected(
    table: PeerTable,
    event: SocketEventView,
    packet: PacketView,
)
    ensures
        step(table, event).reaction.emitted == Some(PeerEventView::Packet(packet)) <==> event
            == SocketEventView::Packet(packet) && packet.payload.len() > 0 && table.dom().contains(
            packet.addr,
        ) && table[packet.addr] == ConnectionState::Connected,
        step(table, event).reaction.emitted == Some(PeerEventView::Packet(packet)) ==> step(
            table,
            event,
        ).table == table,
{
}

/// The application is told at most one thing per event.
pub proof fn at_most_one_event_each(table: PeerTable, events: Seq<SocketEventView>)
    ensures
        published(table, events).len() <= events.len(),
        welcomes(table, events).len() <= events.len(),
    decreases events.len(),
{
    if events.len() > 0 {
        at_most_one_event_each(table, events.drop_last());
    }
}

/// An empty packet is never passed on, whatever state its sender is in:
/// the application sees no handshake packet. The only thing an empty packet
/// can make the server say is that a new peer is `Connecting`.
pub proof fn empty_packet_is_never_published(table: PeerTable, packet: PacketView)
    requires
        packet.payload.len() == 0,
    ensures
        ({
            let reaction = step(table, SocketEventView::Packet(packet)).reaction;
            reaction.emitted is None || reaction.emitted == Some(
                PeerEventView::Status(packet.addr, ConnectionState::Connecting),
            )
        }),
        table.dom().contains(packet.addr) ==> step(table, SocketEventView::Packet(packet)).table
            == table && step(table, SocketEventView::Packet(packet)).reaction.emitted is None,
{
}

/// A peer is filed under the listener its first contact came in on, and no
/// later event moves it to another: whatever listener an event comes in on,
/// a peer that is tracked before and after it keeps the listener it had.
pub proof fn peer_keeps_its_listener(
    routes: Map<PeerHandle, usize>,
    table: PeerTable,
    listener: usize,
    event: SocketEventView,
    addr: PeerHandle,
)
    requires
        routes.dom() == table.dom(),
    ensures
        routed(routes, table, listener, event).dom() == step(table, event).table.dom(),
        table.dom().contains(addr) && step(table, event).table.dom().contains(addr) ==> routed(
            routes,
            table,
            listener,
            event,
        )[addr] == routes[addr],
        creates(table, event) ==> routed(routes, table, listener, event)[event.address()]
            == listener,
{
    let next = step(table, event).table;
    if creates(table, event) {
        assert(next.dom() =~= table.dom().insert(event.address()));
    } else if removes(table, event) {
        assert(next.dom() =~= table.dom().remove(event.address()));
    } else {
        assert(next.dom() =~= table.dom());
    }
    assert(routed(routes, table, listener, event).dom() =~= next.dom());
}

/// Where one tick ends and the next begins makes no difference: events
/// applied over two ticks leave the table, and tell the application and the
/// engine, exactly what the same events do when applied in one.
pub proof fn ticks_compose(
    table: PeerTable,
    first: Seq<SocketEventView>,
    second: Seq<SocketEventView>,
)
    ensures
        table_after(table, first + second) == table_after(table_after(table, first), second),
        published(table, first + second) == published(table, first) + published(
            table_after(table, first),
            second,
        ),
        welcomes(table, first + second) == welcomes(table, first) + welcomes(
            table_after(table, first),
            second,
        ),
    decreases second.len(),
{
    let between = table_after(table, first);
    if second.len() == 0 {
        assert(first + second =~= first);
        assert(published(table, first) + published(between, second) =~= published(table, first));
        assert(welcomes(table, first) + welcomes(between, second) =~= welcomes(table, first));
    } else {
        ticks_compose(table, first, second.drop_last());
        assert((first + second).drop_last() =~= first + second.drop_last());
        assert((first + second).last() == second.last());
        let reaction = step(table_after(between, second.drop_last()), second.last()).reaction;
        match reaction.emitted {
            Some(event) => {
                assert(published(table, first + second) =~= published(table, first) + published(
                    between,
                    second,
                ));
            },
            None => {},
        }
        match reaction.welcome {
            Some(packet) => {
                assert(welcomes(table, first + second) =~= welcomes(table, first) + welcomes(
                    between,
                    second,
                ));
            },
            None => {},
        }
    }
}

/// A client connection that is `Disconnected` stays so, whatever follows.
pub proof fn disconnected_is_final(server: PeerHandle, events: Seq<SocketEventView>)
    ensures
        observed_all(ConnectionState::Disconnected, server, events)
            == ConnectionState::Disconnected,
    decreases events.len(),
{
    if events.len() > 0 {
        disconnected_is_final(server, events.drop_last());
    }
}

/// A client connection becomes `Connected` only by a `Connect` event about
/// its server.
pub proof fn connected_needs_a_connect_event(server: PeerHandle, events: Seq<SocketEventView>)
    requires
        observed_all(ConnectionState::Connecting, server, events) == ConnectionState::Connected,
    ensures
        exists|at: int|
            0 <= at < events.len() && #[trigger] events[at] == SocketEventView::Connect(server),
    decreases events.len(),
{
    let earlier = events.drop_last();
    if observed_all(ConnectionState::Connecting, server, earlier) == ConnectionState::Connected {
        connected_needs_a_connect_event(server, earlier);
        let at = choose|at: int|
            0 <= at < earlier.len() && #[trigger] earlier[at] == SocketEventView::Connect(server);
        assert(events[at] == earlier[at]);
    } else {
        assert(events[events.len() - 1] == SocketEventView::Connect(server));
    }
}

} // verus!
