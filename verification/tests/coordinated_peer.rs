//! The handler of a peer.

use std::collections::BTreeMap;

use snarkos::block::{Block, BlockHash, BlockHeader};
use snarkos::block_locators::BlockLocators;
use snarkos::coordinated_peer::{
    Built, CoordinatedPeer, Decoded, Deferred, Handled, Inbound, Peer, PeerError, Reaction, Received, Stage,
};
use snarkos::coordinator::{Action, Coordinator, CoordinatorRequest, Environment};
use snarkos::message::{Data, Message, NodeType, SocketAddr, State};

type Request = CoordinatorRequest<&'static str, (), u8>;

const PEER: SocketAddr = SocketAddr::V4(5, 4130);
const CLIENT: NodeType = NodeType { id: 0 };
const MINER: NodeType = NodeType { id: 1 };

fn env() -> Environment {
    Environment {
        network_id: 2,
        maximum_fork_depth: 4096,
        message_version: 12,
        node_type: CLIENT,
        maximum_number_of_peers: 3,
        ping_sleep_in_secs: 60,
        connection_timeout_in_millis: 500,
    }
}

fn hash(byte: u8) -> BlockHash {
    BlockHash { bytes: [byte; 32] }
}

fn header(height: u32, is_hiding: bool) -> BlockHeader {
    BlockHeader { height, cumulative_weight: height as u128 + 1, is_hiding, bytes: vec![8, 9] }
}

fn block(height: u32, is_hiding: bool) -> Block {
    Block { height, hash: hash(1), cumulative_weight: 7, is_hiding, is_valid: true, bytes: vec![3, 4] }
}

fn peer() -> Peer {
    Peer { peer_ip: PEER, version: 12, node_type: CLIENT, status: State::Ready, block_header: header(0, false) }
}

fn running() -> CoordinatedPeer {
    match CoordinatedPeer::build::<&str, (), u8, u8>(Ok(peer()), None, 1) {
        Built::Connected { mut handler, report_to: None, .. } => {
            handler.announced(true);
            handler
        }
        other => panic!("{:?}", other),
    }
}

fn ping(version: u32, fork_depth: u32) -> Message {
    Message::Ping(version, fork_depth, MINER, State::Other(3), hash(2), Data::Buffer(vec![1]))
}

fn handle(peer: &mut Peer, decoded: Decoded) -> Handled<&'static str, (), u8> {
    CoordinatedPeer::handle_message(&env(), peer, decoded)
}

#[test]
fn a_peer_that_is_set_up_is_announced() {
    match CoordinatedPeer::build::<&str, (), u8, u8>(Ok(peer()), Some("report"), 9) {
        Built::Connected { mut handler, report_to, request } => {
            assert_eq!(Some("report"), report_to);
            assert!(matches!(request, CoordinatorRequest::Connected(PEER, CLIENT, 9)));
            assert_eq!(Stage::Announcing, handler.stage());
            assert_eq!(PEER, handler.peer().peer_ip);
            // Where the coordinator is gone, the handler ends without a word.
            handler.announced(false);
            assert_eq!(Stage::Abandoned, handler.stage());
            let farewell: Option<Request> = handler.farewell();
            assert!(farewell.is_none());
        }
        other => panic!("{:?}", other),
    }
}

#[test]
fn a_peer_that_is_not_set_up_is_reported() {
    match CoordinatedPeer::build::<&str, (), u8, u8>(Err(3), Some("report"), 9) {
        Built::Failed { error, report_to } => assert_eq!((3, Some("report")), (error, report_to)),
        other => panic!("{:?}", other),
    }
}

#[test]
fn an_outdated_version_is_rejected() {
    assert!(matches!(
        CoordinatedPeer::receive(&env(), ping(11, 4096)),
        Received::Rejected(PeerError::OutdatedVersion(11))
    ));
    // The version is looked at first.
    assert!(matches!(
        CoordinatedPeer::receive(&env(), ping(11, 1)),
        Received::Rejected(PeerError::OutdatedVersion(11))
    ));
    assert!(matches!(
        CoordinatedPeer::receive(&env(), ping(13, 4096)),
        Received::Deferred(Deferred::Ping(13, MINER, State::Other(3), Data::Buffer(_)))
    ));
}

#[test]
fn an_incorrect_fork_depth_is_rejected() {
    assert!(matches!(
        CoordinatedPeer::receive(&env(), ping(12, 4097)),
        Received::Rejected(PeerError::IncorrectForkDepth(4097))
    ));
}

#[test]
fn messages_out_of_place_are_rejected() {
    for message in [Message::ChallengeRequest, Message::ChallengeResponse, Message::Unused] {
        assert!(matches!(
            CoordinatedPeer::receive(&env(), message),
            Received::Rejected(PeerError::NotFollowingProtocol)
        ));
    }
    assert!(matches!(
        CoordinatedPeer::receive(&env(), Message::Disconnect),
        Received::Rejected(PeerError::Disconnected)
    ));
    assert!(matches!(CoordinatedPeer::receive(&env(), Message::Other), Received::Ignored));
}

#[test]
fn a_ping_updates_the_peer() {
    let mut peer = peer();
    let handled = handle(&mut peer, Decoded::Ping(13, MINER, State::Other(3), Ok(header(70, true))));
    assert_eq!(Ok(()), handled.result);
    assert!(handled.request.is_none());
    assert_eq!(None, handled.ping_after);
    assert_eq!((13, MINER, State::Other(3)), (peer.version, peer.node_type, peer.status));
    assert_eq!((70, 71), (peer.height(), peer.cumulative_weight()));
}

#[test]
fn a_ping_without_readable_header_updates_the_rest() {
    let mut peer = peer();
    let handled = handle(&mut peer, Decoded::Ping(13, MINER, State::Other(3), Err("broken".to_string())));
    assert_eq!(Ok(()), handled.result);
    assert!(handled.request.is_none());
    assert_eq!((13, MINER, State::Other(3), 0), (peer.version, peer.node_type, peer.status, peer.height()));
}

#[test]
fn a_hiding_proof_is_rejected_after_the_upgrade() {
    let mut peer = peer();
    let late = Decoded::Ping(13, MINER, State::Ready, Ok(header(100_001, true)));
    let handled = handle(&mut peer, late);
    assert_eq!(Err(PeerError::NotV12Compliant), handled.result);
    assert_eq!((12, CLIENT, 0), (peer.version, peer.node_type, peer.height()));
    // At the height of the upgrade, without a hiding proof, or on another network it is accepted.
    assert_eq!(Ok(()), handle(&mut peer, Decoded::Ping(12, MINER, State::Ready, Ok(header(100_000, true)))).result);
    assert_eq!(Ok(()), handle(&mut peer, Decoded::Ping(12, MINER, State::Ready, Ok(header(100_001, false)))).result);
    let first = Environment { network_id: 1, ..env() };
    let late = Decoded::Ping(12, MINER, State::Ready, Ok(header(100_001, true)));
    let handled: Handled<&str, (), u8> = CoordinatedPeer::handle_message(&first, &mut peer, late);
    assert_eq!(Ok(()), handled.result);

    let handled = handle(&mut peer, Decoded::BlockResponse(Ok(block(100_001, true))));
    assert_eq!(Err(PeerError::NotV12Compliant), handled.result);
    assert!(handled.request.is_none());
    let handled = handle(&mut peer, Decoded::BlockResponse(Ok(block(100_000, true))));
    assert_eq!(Ok(()), handled.result);
    // An unconfirmed block is not looked at for that.
    let handled = handle(&mut peer, Decoded::UnconfirmedBlock(100_001, hash(1), Ok(block(100_001, true))));
    assert_eq!(Ok(()), handled.result);
}

#[test]
fn a_pong_takes_the_latest_header() {
    let mut peer = peer();
    let mut map = BTreeMap::new();
    map.insert(4, (hash(1), Some(header(4, false))));
    map.insert(9, (hash(2), Some(header(9, false))));
    let handled = handle(&mut peer, Decoded::Pong(Ok(BlockLocators::from(map.clone()))));
    assert_eq!(Ok(()), handled.result);
    assert!(handled.request.is_none());
    assert_eq!(Some(60), handled.ping_after);
    assert_eq!(9, peer.height());
    // Without a header at the greatest height, nothing is taken.
    map.insert(12, (hash(3), None));
    handle(&mut peer, Decoded::Pong(Ok(BlockLocators::from(map))));
    assert_eq!(9, peer.height());
    handle(&mut peer, Decoded::Pong(Ok(BlockLocators::default())));
    assert_eq!(9, peer.height());
}

#[test]
fn a_pong_that_cannot_be_read_is_a_failure() {
    let mut peer = peer();
    let handled = handle(&mut peer, Decoded::Pong(Err("broken".to_string())));
    assert_eq!(Ok(()), handled.result);
    assert_eq!(Some(60), handled.ping_after);
    match handled.request {
        Some(CoordinatorRequest::Failure(PEER, failure)) => assert_eq!("broken", failure),
        other => panic!("{:?}", other),
    }
}

#[test]
fn a_block_response_is_routed() {
    let mut peer = peer();
    match handle(&mut peer, Decoded::BlockResponse(Ok(block(3, false)))).request {
        Some(CoordinatorRequest::UnconfirmedBlock(PEER, CLIENT, routed)) => assert_eq!(block(3, false), routed),
        other => panic!("{:?}", other),
    }
    match handle(&mut peer, Decoded::BlockResponse(Err("broken".to_string()))).request {
        Some(CoordinatorRequest::Failure(PEER, failure)) => assert_eq!("broken", failure),
        other => panic!("{:?}", other),
    }
}

#[test]
fn an_unconfirmed_block_has_to_match_its_claim() {
    let mut peer = peer();
    match handle(&mut peer, Decoded::UnconfirmedBlock(3, hash(1), Ok(block(3, false)))).request {
        Some(CoordinatorRequest::UnconfirmedBlock(PEER, CLIENT, routed)) => assert_eq!(block(3, false), routed),
        other => panic!("{:?}", other),
    }
    for (height, claimed) in [(4, hash(1)), (3, hash(2))] {
        match handle(&mut peer, Decoded::UnconfirmedBlock(height, claimed, Ok(block(3, false)))).request {
            Some(CoordinatorRequest::Failure(PEER, failure)) => {
                assert_eq!("Malformed UnconfirmedBlock message", failure);
            }
            other => panic!("{:?}", other),
        }
    }
    match handle(&mut peer, Decoded::UnconfirmedBlock(3, hash(1), Err("broken".to_string()))).request {
        Some(CoordinatorRequest::Failure(PEER, failure)) => assert_eq!("broken", failure),
        other => panic!("{:?}", other),
    }
}

#[test]
fn only_pings_and_blocks_are_sent() {
    let message = Message::Ping(12, 4096, CLIENT, State::Ready, hash(2), Data::Object(header(1, false)));
    let expected = Message::Ping(12, 4096, CLIENT, State::Ready, hash(2), Data::Buffer(vec![8, 9]));
    assert_eq!(Some(expected), CoordinatedPeer::outbound(message));
    let message = Message::UnconfirmedBlock(3, hash(1), Data::Object(block(3, false)));
    let expected = Message::UnconfirmedBlock(3, hash(1), Data::Buffer(vec![3, 4]));
    assert_eq!(Some(expected.clone()), CoordinatedPeer::outbound(message));
    // What is serialized stays as it is.
    assert_eq!(Some(expected.clone()), CoordinatedPeer::outbound(expected));
    for message in [
        Message::Disconnect,
        Message::Other,
        Message::Pong(None, Data::Buffer(vec![])),
        Message::BlockResponse(Data::Object(block(3, false))),
    ] {
        assert_eq!(None, CoordinatedPeer::outbound(message));
    }
}

#[test]
fn the_handler_runs_until_the_stream_ends() {
    let mut handler = running();
    assert!(matches!(handler.inbound(&env(), Inbound::Unreadable), Reaction::Continue));
    assert!(matches!(handler.inbound(&env(), Inbound::Message(Message::Other)), Reaction::Continue));
    assert_eq!(Stage::Running, handler.stage());
    let farewell: Option<Request> = handler.farewell();
    assert!(farewell.is_none());
    assert!(matches!(handler.inbound(&env(), Inbound::Closed), Reaction::Stop(None)));
    assert_eq!(Stage::Disconnected, handler.stage());
    let farewell: Option<Request> = handler.farewell();
    assert!(matches!(farewell, Some(CoordinatorRequest::Disconnected(PEER))));
}

#[test]
fn the_handler_drops_a_peer_for_an_error() {
    let mut handler = running();
    let reaction = handler.inbound(&env(), Inbound::Message(Message::Disconnect));
    assert!(matches!(reaction, Reaction::Stop(Some(PeerError::Disconnected))));
    assert_eq!(Stage::Disconnected, handler.stage());

    let mut handler = running();
    match handler.inbound(&env(), Inbound::Message(ping(12, 4096))) {
        Reaction::Decode(Deferred::Ping(version, node_type, status, Data::Buffer(bytes))) => {
            assert_eq!(vec![1], bytes);
            let decoded = Decoded::Ping(version, node_type, status, Ok(header(50, false)));
            let handled: Handled<&str, (), u8> = handler.resume(&env(), decoded);
            assert_eq!(Ok(()), handled.result);
            assert_eq!(Stage::Running, handler.stage());
            assert_eq!(50, handler.peer().height());
        }
        other => panic!("{:?}", other),
    }
    let late = Decoded::BlockResponse(Ok(block(100_001, true)));
    let handled: Handled<&str, (), u8> = handler.resume(&env(), late);
    assert_eq!(Err(PeerError::NotV12Compliant), handled.result);
    assert_eq!(Stage::Disconnected, handler.stage());
}

#[test]
fn a_ping_speaks_of_the_genesis_block() {
    let request: Request = CoordinatedPeer::ping_request(&env(), PEER, State::Ready, hash(6), header(0, false));
    match request {
        CoordinatorRequest::MessageSend(PEER, message) => {
            let expected = Message::Ping(12, 4096, CLIENT, State::Ready, hash(6), Data::Object(header(0, false)));
            assert_eq!(expected, message);
            // A node of the same network accepts it.
            assert!(matches!(CoordinatedPeer::receive(&env(), message), Received::Deferred(_)));
        }
        other => panic!("{:?}", other),
    }
}

#[test]
fn an_announced_block_is_routed_by_the_next_node() {
    let mut coordinator: Coordinator<u8> = Coordinator::new(PEER, block(0, false));
    let heavier = Block { cumulative_weight: 8, ..block(3, false) };
    let request: Request = CoordinatorRequest::UnconfirmedBlock(PEER, MINER, heavier.clone());
    let message = match coordinator.update(&env(), request) {
        Action::Propagate { message, .. } => CoordinatedPeer::outbound(message).unwrap(),
        other => panic!("{:?}", other),
    };
    match CoordinatedPeer::receive(&env(), message) {
        Received::Deferred(Deferred::UnconfirmedBlock(height, hash, Data::Buffer(bytes))) => {
            assert_eq!(heavier.bytes, bytes);
            let decoded = Decoded::UnconfirmedBlock(height, hash, Ok(heavier.clone()));
            match handle(&mut peer(), decoded).request {
                Some(CoordinatorRequest::UnconfirmedBlock(PEER, CLIENT, routed)) => assert_eq!(heavier, routed),
                other => panic!("{:?}", other),
            }
        }
        other => panic!("{:?}", other),
    }
}

#[test]
fn errors_say_why_a_peer_is_dropped() {
    let ip = "127.0.0.1:4132";
    assert_eq!("Dropping 127.0.0.1:4132 on version 10 (outdated)", PeerError::OutdatedVersion(10).text(ip));
    assert_eq!(
        "Dropping 127.0.0.1:4132 for an incorrect maximum fork depth of 4294967295",
        PeerError::IncorrectForkDepth(u32::MAX).text(ip)
    );
    assert_eq!(
        "Dropping 127.0.0.1:4132 for an incorrect maximum fork depth of 0",
        PeerError::IncorrectForkDepth(0).text(ip)
    );
    assert_eq!(
        "Peer 127.0.0.1:4132 is not V12-compliant, proceeding to disconnect",
        PeerError::NotV12Compliant.text(ip)
    );
    assert_eq!("Peer 127.0.0.1:4132 is not following the protocol", PeerError::NotFollowingProtocol.text(ip));
    assert_eq!("Peer 127.0.0.1:4132 disconnected", PeerError::Disconnected.text(ip));
}

#[test]
fn only_the_part_of_a_message_is_decoded() {
    let no_header = |_: Vec<u8>| -> Result<BlockHeader, String> { panic!("no header is decoded") };
    let no_locators = |_: Vec<u8>| -> Result<BlockLocators, String> { panic!("no locators are decoded") };
    let no_block = |_: Vec<u8>| -> Result<Block, String> { panic!("no block is decoded") };

    let deferred = Deferred::Ping(13, MINER, State::Other(3), Data::Buffer(vec![1, 2]));
    let decode = |bytes: Vec<u8>| Ok(BlockHeader { bytes, ..header(8, true) });
    match deferred.decode(decode, no_locators, no_block) {
        Decoded::Ping(13, MINER, State::Other(3), Ok(decoded)) => {
            assert_eq!(BlockHeader { bytes: vec![1, 2], ..header(8, true) }, decoded);
        }
        other => panic!("{:?}", other),
    }
    // What is not serialized is taken as it is.
    let deferred = Deferred::Ping(13, MINER, State::Ready, Data::Object(header(5, false)));
    match deferred.decode(no_header, no_locators, no_block) {
        Decoded::Ping(13, MINER, State::Ready, Ok(decoded)) => assert_eq!(header(5, false), decoded),
        other => panic!("{:?}", other),
    }
    let deferred = Deferred::Pong(Data::Buffer(vec![4]));
    match deferred.decode(no_header, |bytes| Err(format!("{:?}", bytes)), no_block) {
        Decoded::Pong(Err(error)) => assert_eq!("[4]", error),
        other => panic!("{:?}", other),
    }
    let deferred = Deferred::BlockResponse(Data::Buffer(vec![5]));
    match deferred.decode(no_header, no_locators, |bytes| Ok(Block { bytes, ..block(2, false) })) {
        Decoded::BlockResponse(Ok(decoded)) => assert_eq!(vec![5], decoded.bytes),
        other => panic!("{:?}", other),
    }
    let deferred = Deferred::UnconfirmedBlock(9, hash(7), Data::Object(block(2, false)));
    match deferred.decode(no_header, no_locators, no_block) {
        Decoded::UnconfirmedBlock(height, claimed, Ok(decoded)) => {
            assert_eq!((9, hash(7), block(2, false)), (height, claimed, decoded));
        }
        other => panic!("{:?}", other),
    }
}
