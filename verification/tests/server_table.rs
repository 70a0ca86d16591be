use bevy_naia_laminar::laminar_types::{
    DeliveryGuarantee, LaminarPacket, LaminarSocketEvent, OrderingGuarantee,
};
use bevy_naia_laminar::protocol::Verdict;
use bevy_naia_laminar::channel::QueueError;
use bevy_naia_laminar::server::{laminar_poller, send_answer, take_answer, NetworkResource};
use bevy_naia_laminar::{ConnectionState, NetworkError, PeerEvent, PeerHandle, Unsent};

fn addr(port: u16) -> PeerHandle {
    PeerHandle::V4 { ip: 0x7f00_0001, port }
}

fn hello(port: u16) -> LaminarSocketEvent {
    LaminarSocketEvent::Packet(LaminarPacket::reliable_unordered(addr(port), vec![]))
}

fn data(port: u16, bytes: &[u8]) -> LaminarSocketEvent {
    LaminarSocketEvent::Packet(LaminarPacket::reliable_unordered(addr(port), bytes.to_vec()))
}

fn listening() -> NetworkResource {
    let mut net = NetworkResource::new();
    net.listen(addr(14191), None, None);
    net
}

#[test]
fn new_server_is_inert() {
    let net = NetworkResource::new();
    assert!(!net.initialized());
    assert_eq!(net.num_peers(), 0);
    assert!(net.peer(addr(1)).is_none());
    assert!(matches!(net.event_sender(), Err(NetworkError::NotInitialized)));
    let packet = LaminarPacket::unreliable(addr(1), b"x".to_vec());
    assert_eq!(
        net.send(packet.clone()),
        Err(Unsent { reason: NetworkError::NotInitialized, packet })
    );
    assert!(net.next_outgoing().is_none());
}

#[test]
fn first_contact_makes_a_connecting_peer_and_a_welcome() {
    let mut net = listening();
    let reaction = net.handle_event(0, hello(4000));
    assert_eq!(reaction.verdict, Verdict::Applied);
    assert_eq!(
        reaction.emit,
        Some(PeerEvent::Status(addr(4000), ConnectionState::Connecting))
    );
    let welcome = reaction.welcome.expect("a welcome is owed");
    assert_eq!(welcome.addr(), addr(4000));
    assert_eq!(welcome.payload().len(), 0);
    assert_eq!(welcome.delivery_guarantee(), DeliveryGuarantee::Reliable);
    assert_eq!(welcome.order_guarantee(), OrderingGuarantee::Unordered);
    assert_eq!(net.num_peers(), 1);
    let peer = net.peer(addr(4000)).expect("the peer is tracked");
    assert_eq!(peer.addr(), addr(4000));
    assert_eq!(peer.socket_addr, addr(4000));
    assert_eq!(peer.state(), ConnectionState::Connecting);
}

#[test]
fn handshake_retry_is_swallowed() {
    let mut net = listening();
    net.handle_event(0, hello(4000));
    let reaction = net.handle_event(0, hello(4000));
    assert_eq!(reaction.verdict, Verdict::Swallowed);
    assert!(reaction.emit.is_none());
    assert!(reaction.welcome.is_none());
    assert_eq!(net.num_peers(), 1);
    assert_eq!(net.peer(addr(4000)).unwrap().state(), ConnectionState::Connecting);
}

#[test]
fn connect_promotes_a_connecting_peer() {
    let mut net = listening();
    net.handle_event(0, hello(4000));
    let reaction = net.handle_event(0, LaminarSocketEvent::Connect(addr(4000)));
    assert_eq!(reaction.verdict, Verdict::Applied);
    assert_eq!(
        reaction.emit,
        Some(PeerEvent::Status(addr(4000), ConnectionState::Connected))
    );
    assert!(reaction.welcome.is_none());
    assert_eq!(net.peer(addr(4000)).unwrap().state(), ConnectionState::Connected);
}

#[test]
fn duplicate_connect_emits_nothing() {
    let mut net = listening();
    net.handle_event(0, hello(4000));
    net.handle_event(0, LaminarSocketEvent::Connect(addr(4000)));
    let reaction = net.handle_event(0, LaminarSocketEvent::Connect(addr(4000)));
    assert_eq!(reaction.verdict, Verdict::Swallowed);
    assert!(reaction.emit.is_none());
    assert!(reaction.welcome.is_none());
    assert_eq!(net.num_peers(), 1);
    assert_eq!(net.peer(addr(4000)).unwrap().state(), ConnectionState::Connected);
}

#[test]
fn packet_from_connected_peer_is_passed_on_unchanged() {
    let mut net = listening();
    net.handle_event(0, hello(4000));
    net.handle_event(0, LaminarSocketEvent::Connect(addr(4000)));
    let reaction = net.handle_event(0, data(4000, b"PING 1"));
    assert_eq!(reaction.verdict, Verdict::Applied);
    match reaction.emit {
        Some(PeerEvent::Packet(packet)) => {
            assert_eq!(packet.payload(), b"PING 1");
            assert_eq!(packet.addr(), addr(4000));
        }
        other => panic!("expected a packet, got {:?}", other),
    }
    assert!(reaction.welcome.is_none());
}

#[test]
fn empty_packet_from_connected_peer_is_dropped() {
    let mut net = listening();
    net.handle_event(0, hello(4000));
    net.handle_event(0, LaminarSocketEvent::Connect(addr(4000)));
    let reaction = net.handle_event(0, hello(4000));
    assert_eq!(reaction.verdict, Verdict::ProtocolViolation);
    assert!(reaction.emit.is_none());
    assert!(reaction.welcome.is_none());
    assert_eq!(net.num_peers(), 1);
    assert_eq!(net.peer(addr(4000)).unwrap().state(), ConnectionState::Connected);

    let out = laminar_poller(&mut net, 0, vec![hello(4000), data(4000, b"x"), hello(4000)]);
    assert_eq!(
        out,
        vec![PeerEvent::Packet(LaminarPacket::reliable_unordered(addr(4000), b"x".to_vec()))]
    );
    assert_eq!(net.peer(addr(4000)).unwrap().state(), ConnectionState::Connected);
    assert!(net.next_outgoing().is_none());
}

#[test]
fn packet_before_connected_is_not_passed_on() {
    let mut net = listening();
    net.handle_event(0, hello(4000));
    let reaction = net.handle_event(0, data(4000, b"too early"));
    assert_eq!(reaction.verdict, Verdict::ProtocolViolation);
    assert!(reaction.emit.is_none());
    assert!(reaction.welcome.is_none());
    assert_eq!(net.peer(addr(4000)).unwrap().state(), ConnectionState::Connecting);
}

#[test]
fn non_empty_first_packet_is_rejected_whatever_it_holds() {
    let mut net = listening();
    let first = net.handle_event(0, data(4000, b"a"));
    assert_eq!(first.verdict, Verdict::ProtocolViolation);
    assert!(first.emit.is_none());
    assert!(first.welcome.is_none());
    assert_eq!(net.num_peers(), 0);
    assert!(net.peer(addr(4000)).is_none());

    let second = net.handle_event(0, data(4000, b"z"));
    assert_eq!(second.verdict, Verdict::ProtocolViolation);
    assert!(second.emit.is_none());
    assert!(second.welcome.is_none());
    assert_eq!(net.num_peers(), 0);

    let longer = net.handle_event(0, data(4001, &[0u8; 1200]));
    assert_eq!(longer.verdict, Verdict::ProtocolViolation);
    assert!(longer.emit.is_none());
    assert_eq!(net.num_peers(), 0);
}

#[test]
fn events_for_unknown_peers_are_ignored() {
    let mut net = listening();
    for event in [
        LaminarSocketEvent::Connect(addr(5)),
        LaminarSocketEvent::Timeout(addr(5)),
        LaminarSocketEvent::Disconnect(addr(5)),
    ] {
        let reaction = net.handle_event(0, event);
        assert_eq!(reaction.verdict, Verdict::UnknownPeer);
        assert!(reaction.emit.is_none());
        assert!(reaction.welcome.is_none());
        assert_eq!(net.num_peers(), 0);
    }
}

#[test]
fn timeout_then_disconnect_removes_the_peer() {
    let mut net = listening();
    net.handle_event(0, hello(4000));
    net.handle_event(0, LaminarSocketEvent::Connect(addr(4000)));

    let timeout = net.handle_event(0, LaminarSocketEvent::Timeout(addr(4000)));
    assert_eq!(
        timeout.emit,
        Some(PeerEvent::Status(addr(4000), ConnectionState::Timeout))
    );
    assert_eq!(net.num_peers(), 1);
    assert_eq!(net.peer(addr(4000)).unwrap().state(), ConnectionState::Timeout);

    let again = net.handle_event(0, LaminarSocketEvent::Timeout(addr(4000)));
    assert_eq!(again.verdict, Verdict::Swallowed);
    assert!(again.emit.is_none());

    let gone = net.handle_event(0, LaminarSocketEvent::Disconnect(addr(4000)));
    assert_eq!(gone.verdict, Verdict::Applied);
    assert_eq!(
        gone.emit,
        Some(PeerEvent::Status(addr(4000), ConnectionState::Disconnected))
    );
    assert_eq!(net.num_peers(), 0);
    assert!(net.peer(addr(4000)).is_none());
}

#[test]
fn timed_out_peer_takes_neither_connect_nor_packets() {
    let mut net = listening();
    net.handle_event(0, hello(4000));
    net.handle_event(0, LaminarSocketEvent::Timeout(addr(4000)));
    assert_eq!(net.peer(addr(4000)).unwrap().state(), ConnectionState::Timeout);

    let connect = net.handle_event(0, LaminarSocketEvent::Connect(addr(4000)));
    assert_eq!(connect.verdict, Verdict::ProtocolViolation);
    assert!(connect.emit.is_none());

    let packet = net.handle_event(0, data(4000, b"late"));
    assert_eq!(packet.verdict, Verdict::ProtocolViolation);
    assert!(packet.emit.is_none());

    let empty = net.handle_event(0, hello(4000));
    assert_eq!(empty.verdict, Verdict::ProtocolViolation);
    assert!(empty.emit.is_none());
    assert!(empty.welcome.is_none());
    assert_eq!(net.peer(addr(4000)).unwrap().state(), ConnectionState::Timeout);
}

#[test]
fn reconnect_from_the_same_address_starts_a_new_record() {
    let mut net = listening();
    net.handle_event(0, hello(4000));
    net.handle_event(0, LaminarSocketEvent::Connect(addr(4000)));
    net.handle_event(0, LaminarSocketEvent::Disconnect(addr(4000)));
    assert_eq!(net.num_peers(), 0);

    let reaction = net.handle_event(0, hello(4000));
    assert_eq!(
        reaction.emit,
        Some(PeerEvent::Status(addr(4000), ConnectionState::Connecting))
    );
    assert!(reaction.welcome.is_some());
    assert_eq!(net.num_peers(), 1);
    assert_eq!(net.peer(addr(4000)).unwrap().state(), ConnectionState::Connecting);
}

#[test]
fn peers_are_told_apart_by_full_address() {
    let mut net = listening();
    let v6 = PeerHandle::V6 { ip: 1, port: 4000, flowinfo: 0, scope_id: 0 };
    net.handle_event(0, hello(4000));
    net.handle_event(0, hello(4001));
    net.handle_event(0, LaminarSocketEvent::Packet(LaminarPacket::reliable_unordered(v6, vec![])));
    assert_eq!(net.num_peers(), 3);
    net.handle_event(0, LaminarSocketEvent::Connect(addr(4001)));
    assert_eq!(net.peer(addr(4000)).unwrap().state(), ConnectionState::Connecting);
    assert_eq!(net.peer(addr(4001)).unwrap().state(), ConnectionState::Connected);
    assert_eq!(net.peer(v6).unwrap().state(), ConnectionState::Connecting);
    net.handle_event(0, LaminarSocketEvent::Disconnect(addr(4000)));
    assert_eq!(net.num_peers(), 2);
    assert!(net.peer(addr(4000)).is_none());
    assert_eq!(net.peer(addr(4001)).unwrap().state(), ConnectionState::Connected);
    assert_eq!(net.peer(v6).unwrap().addr(), v6);
}

#[test]
fn peer_count_is_first_contacts_minus_disconnects() {
    let mut net = listening();
    let events = vec![
        hello(1),
        hello(2),
        hello(1),
        LaminarSocketEvent::Connect(addr(1)),
        hello(3),
        LaminarSocketEvent::Disconnect(addr(2)),
        LaminarSocketEvent::Disconnect(addr(2)),
        LaminarSocketEvent::Timeout(addr(3)),
        LaminarSocketEvent::Disconnect(addr(9)),
        data(7, b"not a handshake"),
    ];
    let mut made = 0usize;
    let mut removed = 0usize;
    for event in events {
        let before = net.num_peers();
        let reaction = net.handle_event(0, event);
        if reaction.welcome.is_some() {
            made += 1;
        }
        if matches!(
            reaction.emit,
            Some(PeerEvent::Status(_, ConnectionState::Disconnected))
        ) {
            removed += 1;
        }
        assert_eq!(net.num_peers(), made - removed);
        assert!(net.num_peers() + 1 >= before);
    }
    assert_eq!(made, 3);
    assert_eq!(removed, 1);
    assert_eq!(net.num_peers(), 2);
}

#[test]
fn pump_drops_events_before_listen() {
    let mut net = NetworkResource::new();
    let out = laminar_poller(&mut net, 0, vec![hello(1), LaminarSocketEvent::Connect(addr(1))]);
    assert!(out.is_empty());
    assert_eq!(net.num_peers(), 0);
    assert!(net.next_outgoing().is_none());
}

#[test]
fn pump_applies_events_in_order_and_queues_welcomes() {
    let mut net = listening();
    let out = laminar_poller(
        &mut net,
        0,
        vec![
            hello(1),
            hello(1),
            LaminarSocketEvent::Connect(addr(1)),
            LaminarSocketEvent::Connect(addr(1)),
            data(1, b"PING 1"),
            hello(2),
            LaminarSocketEvent::Timeout(addr(1)),
            LaminarSocketEvent::Disconnect(addr(1)),
        ],
    );
    assert_eq!(
        out,
        vec![
            PeerEvent::Status(addr(1), ConnectionState::Connecting),
            PeerEvent::Status(addr(1), ConnectionState::Connected),
            PeerEvent::Packet(LaminarPacket::reliable_unordered(addr(1), b"PING 1".to_vec())),
            PeerEvent::Status(addr(2), ConnectionState::Connecting),
            PeerEvent::Status(addr(1), ConnectionState::Timeout),
            PeerEvent::Status(addr(1), ConnectionState::Disconnected),
        ]
    );
    assert_eq!(net.num_peers(), 1);
    assert_eq!(
        net.next_outgoing(),
        Some(LaminarPacket::reliable_unordered(addr(1), vec![]))
    );
    assert_eq!(
        net.next_outgoing(),
        Some(LaminarPacket::reliable_unordered(addr(2), vec![]))
    );
    assert_eq!(net.next_outgoing(), None);
}

#[test]
fn apply_gathers_events_and_welcomes_in_order() {
    let mut net = NetworkResource::new();
    let applied = net.apply(0, vec![
        hello(2),
        data(3, b"no handshake"),
        hello(1),
        LaminarSocketEvent::Connect(addr(2)),
        hello(2),
        LaminarSocketEvent::Disconnect(addr(1)),
        hello(1),
    ]);
    assert_eq!(
        applied.published,
        vec![
            PeerEvent::Status(addr(2), ConnectionState::Connecting),
            PeerEvent::Status(addr(1), ConnectionState::Connecting),
            PeerEvent::Status(addr(2), ConnectionState::Connected),
            PeerEvent::Status(addr(1), ConnectionState::Disconnected),
            PeerEvent::Status(addr(1), ConnectionState::Connecting),
        ]
    );
    assert_eq!(
        applied.welcomes,
        vec![
            LaminarPacket::reliable_unordered(addr(2), vec![]),
            LaminarPacket::reliable_unordered(addr(1), vec![]),
            LaminarPacket::reliable_unordered(addr(1), vec![]),
        ]
    );
    assert_eq!(net.num_peers(), 2);
    assert!(net.next_outgoing().is_none());

    let nothing = net.apply(0, vec![]);
    assert!(nothing.published.is_empty());
    assert!(nothing.welcomes.is_empty());
    assert_eq!(net.num_peers(), 2);
}

#[test]
fn pump_carries_state_across_ticks() {
    let mut net = listening();
    let first = laminar_poller(&mut net, 0, vec![hello(1)]);
    assert_eq!(first, vec![PeerEvent::Status(addr(1), ConnectionState::Connecting)]);
    let second = laminar_poller(&mut net, 0, vec![LaminarSocketEvent::Connect(addr(1))]);
    assert_eq!(second, vec![PeerEvent::Status(addr(1), ConnectionState::Connected)]);
    let third = laminar_poller(&mut net, 0, vec![]);
    assert!(third.is_empty());
    assert_eq!(net.num_peers(), 1);
}

#[test]
fn send_queues_for_the_engine_in_order() {
    let net = listening();
    let a = LaminarPacket::unreliable(addr(1), b"one".to_vec());
    let b = LaminarPacket::reliable_unordered(addr(77), b"two".to_vec());
    assert_eq!(net.send(a.clone()), Ok(()));
    assert_eq!(net.send(b.clone()), Ok(()));
    assert_eq!(net.next_outgoing(), Some(a));
    assert_eq!(net.next_outgoing(), Some(b));
    assert_eq!(net.next_outgoing(), None);
}

#[test]
fn peer_and_event_sender_share_the_engine_queue() {
    let mut net = listening();
    net.handle_event(0, hello(1));
    let reply = LaminarPacket::unreliable(addr(1), b"You sent: PING 1".to_vec());
    assert_eq!(net.peer(addr(1)).unwrap().send(reply.clone()), Ok(()));
    assert_eq!(net.next_outgoing(), Some(reply));

    let direct = LaminarPacket::unreliable(addr(1), b"direct".to_vec());
    net.event_sender().unwrap().send(direct.clone()).unwrap();
    assert_eq!(net.next_outgoing(), Some(direct));
}

#[test]
fn peer_records_carry_the_time_they_were_made() {
    let mut net = listening();
    let before = std::time::Instant::now();
    net.handle_event(0, hello(1));
    net.handle_event(0, hello(2));
    let after = std::time::Instant::now();
    let first = net.peer(addr(1)).unwrap().epoch;
    let second = net.peer(addr(2)).unwrap().epoch;
    assert!(before <= first);
    assert!(first <= second);
    assert!(second <= after);
    net.handle_event(0, LaminarSocketEvent::Connect(addr(1)));
    assert_eq!(net.peer(addr(1)).unwrap().epoch, first);
}

#[test]
fn listen_fills_in_the_missing_addresses() {
    let mut net = NetworkResource::new();
    let listener = net.listen(addr(14191), None, None);
    assert!(net.initialized());
    assert_eq!(listener.socket_address, addr(14191));
    assert_eq!(listener.webrtc_listen_address, addr(14192));
    assert_eq!(listener.public_webrtc_address, addr(14192));
    assert_eq!(listener.socket.bind_address, addr(14191));

    let v6 = PeerHandle::V6 { ip: 1, port: 9, flowinfo: 3, scope_id: 4 };
    let listener = net.listen(v6, None, Some(addr(1)));
    assert_eq!(
        listener.webrtc_listen_address,
        PeerHandle::V6 { ip: 1, port: 10, flowinfo: 3, scope_id: 4 }
    );
    assert_eq!(listener.public_webrtc_address, addr(1));

    let listener = net.listen(addr(65535), Some(addr(7)), None);
    assert_eq!(listener.webrtc_listen_address, addr(7));
    assert_eq!(listener.public_webrtc_address, addr(7));
    assert_eq!(listener.socket.bind_address, addr(65535));
}

#[test]
fn listen_keeps_the_peer_table() {
    let mut net = listening();
    net.handle_event(0, hello(1));
    net.listen(addr(15000), None, None);
    assert!(net.initialized());
    assert_eq!(net.num_peers(), 1);
    assert_eq!(net.peer(addr(1)).unwrap().state(), ConnectionState::Connecting);
}

#[test]
fn send_answers_each_thing_the_queue_can_say() {
    assert_eq!(send_answer(Ok(())), Ok(()));
    let packet = LaminarPacket::unreliable(addr(3), b"back".to_vec());
    assert_eq!(
        send_answer(Err(packet.clone())),
        Err(Unsent { reason: NetworkError::ChannelClosed, packet })
    );
}

#[test]
fn take_answers_each_thing_the_queue_can_say() {
    let packet = LaminarPacket::reliable_unordered(addr(3), b"next".to_vec());
    assert_eq!(take_answer(Ok(packet.clone())), Some(packet));
    assert_eq!(take_answer(Err(QueueError::Empty)), None);
    assert_eq!(take_answer(Err(QueueError::Disconnected)), None);
}

#[test]
fn listeners_are_numbered_in_the_order_made() {
    let mut net = NetworkResource::new();
    assert_eq!(net.route(addr(1)), None);
    assert_eq!(net.listen(addr(14191), None, None).index, 0);
    assert_eq!(net.listen(addr(15000), None, None).index, 1);
    assert_eq!(net.listen(addr(16000), Some(addr(1)), Some(addr(2))).index, 2);
    assert!(net.initialized());
    assert_eq!(net.num_peers(), 0);
}

#[test]
fn packets_go_out_on_the_listener_their_peer_came_in_on() {
    let mut net = NetworkResource::new();
    net.listen(addr(14191), None, None);
    net.listen(addr(15000), None, None);
    net.listen(addr(16000), None, None);

    net.handle_event(0, hello(1));
    net.handle_event(1, hello(2));
    assert_eq!(net.peer(addr(1)).unwrap().listener(), 0);
    assert_eq!(net.peer(addr(2)).unwrap().listener(), 1);
    assert_eq!(net.route(addr(1)), Some(0));
    assert_eq!(net.route(addr(2)), Some(1));
    assert_eq!(net.route(addr(3)), Some(2));

    // later events do not move a peer to another listener
    net.handle_event(2, LaminarSocketEvent::Connect(addr(1)));
    net.handle_event(2, hello(2));
    net.handle_event(2, data(1, b"PING 1"));
    assert_eq!(net.route(addr(1)), Some(0));
    assert_eq!(net.route(addr(2)), Some(1));

    // a record that is taken away frees the address for another listener
    net.handle_event(0, LaminarSocketEvent::Disconnect(addr(1)));
    assert_eq!(net.route(addr(1)), Some(2));
    laminar_poller(&mut net, 1, vec![hello(1)]);
    assert_eq!(net.route(addr(1)), Some(1));
    assert_eq!(net.peer(addr(1)).unwrap().listener(), 1);
    assert_eq!(net.num_peers(), 2);
}
