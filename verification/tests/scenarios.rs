use bevy_naia_laminar::client;
use bevy_naia_laminar::laminar_types::{LaminarPacket, LaminarSocketEvent};
use bevy_naia_laminar::server;
use bevy_naia_laminar::{ConnectionState, PeerEvent, PeerHandle};

fn server_address() -> PeerHandle {
    PeerHandle::V4 { ip: 0x7f00_0001, port: 14191 }
}

fn client_address() -> PeerHandle {
    PeerHandle::V4 { ip: 0x7f00_0001, port: 50000 }
}

/// A client and a server, with the events an engine on each side reports as
/// the handshake goes through, fed by hand.
fn connected_pair() -> (server::NetworkResource, client::NetworkResource, Vec<PeerEvent>) {
    let mut server = server::NetworkResource::new();
    server.listen(server_address(), None, None);
    let mut client = client::NetworkResource::new();
    client.connect(server_address()).unwrap();
    let mut told = Vec::new();

    // tick 1: the client's handshake packet goes out and reaches the server.
    let hello = client.take_outgoing();
    assert_eq!(hello, vec![LaminarPacket::reliable_unordered(server_address(), vec![])]);
    told.extend(server::laminar_poller(
        &mut server,
        0,
        vec![LaminarSocketEvent::Packet(LaminarPacket::reliable_unordered(
            client_address(),
            vec![],
        ))],
    ));

    // tick 2: the server's welcome goes out; its engine has now sent and received.
    let welcome = server.next_outgoing().expect("the welcome waits for the engine");
    assert_eq!(welcome, LaminarPacket::reliable_unordered(client_address(), vec![]));
    assert!(server.next_outgoing().is_none());
    told.extend(server::laminar_poller(
        &mut server,
        0,
        vec![LaminarSocketEvent::Connect(client_address())],
    ));

    // tick 3: the welcome reaches the client.
    let seen = client::laminar_poller(
        &mut client,
        vec![
            LaminarSocketEvent::Connect(server_address()),
            LaminarSocketEvent::Packet(LaminarPacket::reliable_unordered(server_address(), vec![])),
        ],
    );
    assert_eq!(seen.len(), 2);
    (server, client, told)
}

#[test]
fn client_and_server_connect_within_three_ticks() {
    let (server, client, told) = connected_pair();
    assert_eq!(client.connection_state(), ConnectionState::Connected);
    assert_eq!(server.num_peers(), 1);
    assert_eq!(
        server.peer(client_address()).unwrap().state(),
        ConnectionState::Connected
    );
    assert_eq!(
        told,
        vec![
            PeerEvent::Status(client_address(), ConnectionState::Connecting),
            PeerEvent::Status(client_address(), ConnectionState::Connected),
        ]
    );
}

#[test]
fn ping_reaches_the_server_and_the_reply_reaches_the_client() {
    let (mut server, mut client, _) = connected_pair();

    client.send(LaminarPacket::reliable_unordered(server_address(), b"PING 1".to_vec())).unwrap();
    let outgoing = client.take_outgoing();
    assert_eq!(outgoing.len(), 1);
    assert_eq!(outgoing[0].payload(), b"PING 1");
    assert_eq!(outgoing[0].addr(), server_address());

    let arrived =
        LaminarPacket::reliable_unordered(client_address(), outgoing[0].payload().to_vec());
    let told = server::laminar_poller(&mut server, 0, vec![LaminarSocketEvent::Packet(arrived)]);
    assert_eq!(told.len(), 1);
    let reply = match &told[0] {
        PeerEvent::Packet(packet) => {
            assert_eq!(packet.payload(), b"PING 1");
            let peer = server.peer(packet.addr()).expect("the sender is tracked");
            assert_eq!(peer.state(), ConnectionState::Connected);
            let mut reply = b"You sent: ".to_vec();
            reply.extend_from_slice(packet.payload());
            LaminarPacket::unreliable(packet.addr(), reply)
        }
        other => panic!("expected a packet, got {:?}", other),
    };
    server.send(reply).unwrap();

    let sent = server.next_outgoing().expect("the reply waits for the engine");
    assert_eq!(sent.addr(), client_address());
    assert_eq!(sent.payload(), b"You sent: PING 1");

    let arrived = LaminarPacket::unreliable(server_address(), sent.payload().to_vec());
    let seen = client::laminar_poller(&mut client, vec![LaminarSocketEvent::Packet(arrived)]);
    match &seen[..] {
        [LaminarSocketEvent::Packet(packet)] => {
            assert_eq!(packet.payload(), b"You sent: PING 1")
        }
        other => panic!("expected one packet, got {:?}", other),
    }
    assert_eq!(client.connection_state(), ConnectionState::Connected);
}

#[test]
fn silent_client_times_out_and_is_dropped() {
    let (mut server, _client, _) = connected_pair();
    assert_eq!(server.num_peers(), 1);
    assert!(server::laminar_poller(&mut server, 0, vec![]).is_empty());
    let told = server::laminar_poller(
        &mut server,
        0,
        vec![
            LaminarSocketEvent::Timeout(client_address()),
            LaminarSocketEvent::Disconnect(client_address()),
        ],
    );
    assert_eq!(
        told,
        vec![
            PeerEvent::Status(client_address(), ConnectionState::Timeout),
            PeerEvent::Status(client_address(), ConnectionState::Disconnected),
        ]
    );
    assert_eq!(server.num_peers(), 0);
    assert!(server.peer(client_address()).is_none());
}

#[test]
fn unreachable_server_leaves_the_client_to_its_timeout() {
    let mut client = client::NetworkResource::new();
    client.connect(server_address()).unwrap();
    for _ in 0..5 {
        assert!(client::laminar_poller(&mut client, vec![]).is_empty());
        assert_eq!(client.connection_state(), ConnectionState::Connecting);
    }
    client::laminar_poller(&mut client, vec![LaminarSocketEvent::Timeout(server_address())]);
    assert_eq!(client.connection_state(), ConnectionState::Timeout);
}

#[test]
fn first_packet_with_a_payload_gets_no_welcome() {
    let mut server = server::NetworkResource::new();
    server.listen(server_address(), None, None);
    let told = server::laminar_poller(
        &mut server,
        0,
        vec![LaminarSocketEvent::Packet(LaminarPacket::reliable_unordered(
            client_address(),
            b"not a handshake".to_vec(),
        ))],
    );
    assert!(told.is_empty());
    assert_eq!(server.num_peers(), 0);
    assert!(server.next_outgoing().is_none());
}
