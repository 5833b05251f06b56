//! The coordinator: requests, the actions they lead to, and what holds over several of them.

use snarkos::block::{Block, BlockHash};
use snarkos::coordinator::{Action, Coordinator, CoordinatorRequest, Environment, Refusal};
use snarkos::coordinator_server::{CoordinatorServer, CAPACITY_DELAY_IN_SECS, HANDSHAKE_DELAY_IN_MILLIS};
use snarkos::message::{Data, Message, NodeType, SocketAddr, State};

type Request = CoordinatorRequest<&'static str, &'static str, u8>;

const MINER: NodeType = NodeType { id: 1 };

fn env() -> Environment {
    Environment {
        network_id: 2,
        maximum_fork_depth: 4096,
        message_version: 12,
        node_type: NodeType { id: 0 },
        maximum_number_of_peers: 3,
        ping_sleep_in_secs: 60,
        connection_timeout_in_millis: 500,
    }
}

fn ip(port: u16) -> SocketAddr {
    SocketAddr::V4(0x7f00_0001, port)
}

fn block(height: u32, cumulative_weight: u128, is_valid: bool) -> Block {
    Block {
        height,
        hash: BlockHash { bytes: [height as u8; 32] },
        cumulative_weight,
        is_hiding: false,
        is_valid,
        bytes: vec![height as u8, 1, 2],
    }
}

fn coordinator() -> Coordinator<u8> {
    Coordinator::new(ip(4130), block(0, 10, true))
}

fn connect(coordinator: &mut Coordinator<u8>, port: u16) {
    let request: Request = CoordinatorRequest::Connected(ip(port), MINER, port as u8);
    assert!(matches!(coordinator.update(&env(), request), Action::Nothing));
}

#[test]
fn starts_without_peers() {
    let coordinator = coordinator();
    assert_eq!(ip(4130), coordinator.local_ip());
    assert_eq!(0, coordinator.number_of_connected_peers());
    assert!(coordinator.connected_peers().is_empty());
    assert_eq!(&block(0, 10, true), coordinator.latest_block());
}

#[test]
fn peers_are_connected_until_they_are_disconnected() {
    let mut coordinator = coordinator();
    connect(&mut coordinator, 1);
    connect(&mut coordinator, 2);
    // A peer that is connected again is not counted twice.
    connect(&mut coordinator, 1);
    assert_eq!(2, coordinator.number_of_connected_peers());
    assert!(coordinator.is_connected_to(ip(1)));
    assert!(!coordinator.is_connected_to(ip(3)));
    assert_eq!(Some(&2), coordinator.outbound(ip(2)));
    let mut peers = coordinator.connected_peers();
    peers.sort_by_key(|peer| format!("{:?}", peer));
    assert_eq!(vec![ip(1), ip(2)], peers);

    let gone: Request = CoordinatorRequest::Disconnected(ip(1));
    assert!(matches!(coordinator.update(&env(), gone), Action::Nothing));
    assert!(!coordinator.is_connected_to(ip(1)));
    assert_eq!(None, coordinator.outbound(ip(1)));
    assert_eq!(vec![ip(2)], coordinator.connected_peers());
    // A peer that is not connected may be disconnected.
    let gone: Request = CoordinatorRequest::Disconnected(ip(9));
    coordinator.update(&env(), gone);
    assert_eq!(1, coordinator.number_of_connected_peers());
}

#[test]
fn addresses_differ_by_each_part() {
    let mut coordinator = coordinator();
    let a = SocketAddr::V6(1, 2, 3, 4);
    let request: Request = CoordinatorRequest::Connected(a, MINER, 5);
    coordinator.update(&env(), request);
    assert!(coordinator.is_connected_to(a));
    for other in [SocketAddr::V6(0, 2, 3, 4), SocketAddr::V6(1, 0, 3, 4), SocketAddr::V6(1, 2, 0, 4), SocketAddr::V6(1, 2, 3, 0)] {
        assert!(!coordinator.is_connected_to(other));
    }
    assert!(!coordinator.is_connected_to(SocketAddr::V4(1, 2)));
}

#[test]
fn connect_dials_within_the_timeout() {
    let mut coordinator = coordinator();
    let request: Request = CoordinatorRequest::Connect(ip(7), "report");
    match coordinator.update(&env(), request) {
        Action::Dial { peer_ip, timeout_in_millis, connection_result } => {
            assert_eq!((ip(7), 500, "report"), (peer_ip, timeout_in_millis, connection_result));
        }
        other => panic!("{:?}", other),
    }
    assert_eq!(0, coordinator.number_of_connected_peers());
}

#[test]
fn connecting_is_accepted_while_there_is_room() {
    let mut coordinator = coordinator();
    connect(&mut coordinator, 1);
    let request: Request = CoordinatorRequest::Connecting("stream", ip(2));
    match coordinator.update(&env(), request) {
        Action::Accept { stream, peer_ip } => assert_eq!(("stream", ip(2)), (stream, peer_ip)),
        other => panic!("{:?}", other),
    }
    let request: Request = CoordinatorRequest::Connecting("stream", ip(1));
    match coordinator.update(&env(), request) {
        Action::Refuse { peer_ip, refusal } => assert_eq!((ip(1), Refusal::AlreadyConnected), (peer_ip, refusal)),
        other => panic!("{:?}", other),
    }
    connect(&mut coordinator, 2);
    connect(&mut coordinator, 3);
    // The limit counts first.
    for port in [1, 4] {
        let request: Request = CoordinatorRequest::Connecting("stream", ip(port));
        match coordinator.update(&env(), request) {
            Action::Refuse { peer_ip, refusal } => {
                assert_eq!((ip(port), Refusal::MaximumPeersReached), (peer_ip, refusal));
            }
            other => panic!("{:?}", other),
        }
    }
    assert_eq!(3, coordinator.number_of_connected_peers());
}

#[test]
fn messages_are_delivered_to_connected_peers() {
    let mut coordinator = coordinator();
    connect(&mut coordinator, 1);
    let request: Request = CoordinatorRequest::MessageSend(ip(1), Message::Disconnect);
    match coordinator.update(&env(), request) {
        Action::Deliver { peer_ip, message } => assert_eq!((ip(1), Message::Disconnect), (peer_ip, message)),
        other => panic!("{:?}", other),
    }
    coordinator.delivery_failed(ip(1));
    assert!(!coordinator.is_connected_to(ip(1)));
    let request: Request = CoordinatorRequest::MessageSend(ip(1), Message::Disconnect);
    match coordinator.update(&env(), request) {
        Action::NotConnected { peer_ip } => assert_eq!(ip(1), peer_ip),
        other => panic!("{:?}", other),
    }
}

#[test]
fn failures_are_reported() {
    let request: Request = CoordinatorRequest::Failure(ip(1), "broken".to_string());
    match coordinator().update(&env(), request) {
        Action::ReportFailure { peer_ip, failure } => assert_eq!((ip(1), "broken".to_string()), (peer_ip, failure)),
        other => panic!("{:?}", other),
    }
}

#[test]
fn a_heavier_block_is_adopted_and_propagated_once() {
    let mut coordinator = coordinator();
    for port in 1..4 {
        connect(&mut coordinator, port);
    }
    let request: Request = CoordinatorRequest::UnconfirmedBlock(ip(2), MINER, block(1, 11, true));
    match coordinator.update(&env(), request) {
        Action::Propagate { mut targets, message } => {
            targets.sort_by_key(|peer| format!("{:?}", peer));
            assert_eq!(vec![ip(1), ip(3)], targets);
            let expected =
                Message::UnconfirmedBlock(1, BlockHash { bytes: [1; 32] }, Data::Buffer(vec![1, 1, 2]));
            assert_eq!(expected, message);
            assert_eq!(expected, message.clone());
        }
        other => panic!("{:?}", other),
    }
    assert_eq!(&block(1, 11, true), coordinator.latest_block());
    // Announced again, it is stale.
    let request: Request = CoordinatorRequest::UnconfirmedBlock(ip(3), MINER, block(1, 11, true));
    match coordinator.update(&env(), request) {
        Action::StaleBlock { height, hash, cumulative_weight, peer_ip } => {
            assert_eq!((1, BlockHash { bytes: [1; 32] }), (height, hash));
            assert_eq!((11, ip(3)), (cumulative_weight, peer_ip));
        }
        other => panic!("{:?}", other),
    }
}

#[test]
fn an_invalid_or_lighter_block_is_not_adopted() {
    let mut coordinator = coordinator();
    let request: Request = CoordinatorRequest::UnconfirmedBlock(ip(2), MINER, block(1, 99, false));
    match coordinator.update(&env(), request) {
        Action::InvalidBlock { height, hash } => assert_eq!((1, BlockHash { bytes: [1; 32] }), (height, hash)),
        other => panic!("{:?}", other),
    }
    let request: Request = CoordinatorRequest::UnconfirmedBlock(ip(2), MINER, block(2, 10, true));
    assert!(matches!(coordinator.update(&env(), request), Action::StaleBlock { height: 2, .. }));
    assert_eq!(&block(0, 10, true), coordinator.latest_block());
}

#[test]
fn propagation_goes_by_the_filter() {
    let mut coordinator = coordinator();
    for port in 1..4 {
        connect(&mut coordinator, port);
    }
    let (targets, message) =
        coordinator.propagate(ip(1), Message::Disconnect, |peer, node_type| *peer != ip(2) && *node_type == MINER);
    assert_eq!(vec![ip(3)], targets);
    assert_eq!(Message::Disconnect, message);
    let (targets, _) = coordinator.propagate(ip(1), Message::Disconnect, |_, _| false);
    assert!(targets.is_empty());
}

#[test]
fn shut_down_disconnects_all_in_any_order() {
    let mut server: CoordinatorServer<u8> = CoordinatorServer::initialize(ip(4130), block(0, 10, true));
    assert_eq!(State::Ready, server.status());
    assert_eq!(ip(4130), server.local_ip());
    for port in 1..4 {
        let request: Request = CoordinatorRequest::Connected(ip(port), MINER, port as u8);
        server.update(&env(), request);
    }
    assert_eq!(3, server.coordinator().number_of_connected_peers());
    let mut requests: Vec<Request> = server.shut_down();
    assert_eq!(State::ShuttingDown, server.status());
    assert_eq!(6, requests.len());
    for pair in requests.chunks(2) {
        match pair {
            [CoordinatorRequest::MessageSend(a, Message::Disconnect), CoordinatorRequest::Disconnected(b)] => {
                assert_eq!(a, b);
            }
            other => panic!("{:?}", other),
        }
    }
    requests.reverse();
    for request in requests {
        server.update(&env(), request);
    }
    assert_eq!(0, server.coordinator().number_of_connected_peers());
}

#[test]
fn disconnecting_sends_a_message_first() {
    let requests: Vec<Request> = Coordinator::<u8>::disconnect(ip(5));
    assert_eq!(2, requests.len());
    assert!(matches!(&requests[0], CoordinatorRequest::MessageSend(peer, Message::Disconnect) if *peer == ip(5)));
    assert!(matches!(&requests[1], CoordinatorRequest::Disconnected(peer) if *peer == ip(5)));
}

#[test]
fn the_listener_waits_at_capacity() {
    let mut server: CoordinatorServer<u8> = CoordinatorServer::initialize(ip(4130), block(0, 10, true));
    for port in 1..4 {
        assert_eq!(None, server.delay_before_accept(&env()));
        let request: Request = CoordinatorRequest::Connected(ip(port), MINER, 0);
        server.update(&env(), request);
    }
    assert_eq!(Some(5), server.delay_before_accept(&env()));
    assert_eq!((5, 150), (CAPACITY_DELAY_IN_SECS, HANDSHAKE_DELAY_IN_MILLIS));
    server.delivery_failed(ip(2));
    assert_eq!(None, server.delay_before_accept(&env()));
    assert!(!server.coordinator().is_connected_to(ip(2)));
}

#[test]
fn the_server_makes_requests() {
    let request: Request = CoordinatorServer::<u8>::connect_to(ip(3), "report");
    assert!(matches!(request, CoordinatorRequest::Connect(peer, "report") if peer == ip(3)));
    let request: Result<Request, u8> = CoordinatorServer::<u8>::accepted(Ok(("stream", ip(3))));
    assert!(matches!(request, Ok(CoordinatorRequest::Connecting("stream", peer)) if peer == ip(3)));
    let request: Result<Request, u8> = CoordinatorServer::<u8>::accepted(Err(7));
    assert!(matches!(request, Err(7)));
}

#[test]
fn every_report_of_a_connection_counts() {
    type Server = CoordinatorServer<u8>;
    assert!(Server::connect_outcome::<u8>(true, Some(Ok(()))));
    assert!(Server::connect_outcome::<u8>(true, Some(Err(3))));
    assert!(!Server::connect_outcome::<u8>(true, None));
    assert!(!Server::connect_outcome::<u8>(false, None));
    assert!(!Server::connect_outcome::<u8>(false, Some(Ok(()))));
}
