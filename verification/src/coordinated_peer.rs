//! The handler of a connected peer: what is sent to it, and what is done about
//! the messages that come from it.

use vstd::prelude::*;
use vstd::string::StringExecFns;

use crate::block::{Block, BlockHash, BlockHeader, HeaderView, V12_UPGRADE_BLOCK_HEIGHT};
use crate::block_locators::{BlockLocators, LocatorView};
use crate::coordinator::{CoordinatorRequest, Environment, RequestView};
use crate::message::{Data, DataView, Message, MessageView, NodeType, SocketAddr, State};
use crate::text::{decimal_text, number_text};

verus! {

/// What is known of a peer.
#[derive(Debug)]
pub struct Peer {
    /// The address of the peer.
    pub peer_ip: SocketAddr,
    /// The version of its message protocol.
    pub version: u32,
    /// The kind of the node.
    pub node_type: NodeType,
    /// What the node is doing.
    pub status: State,
    /// The header of its latest block.
    pub block_header: BlockHeader,
}

/// What is known of a peer.
pub struct PeerView {
    pub peer_ip: SocketAddr,
    pub version: u32,
    pub node_type: NodeType,
    pub status: State,
    pub block_header: HeaderView,
}

impl View for Peer {
    type V = PeerView;

    open spec fn view(&self) -> PeerView {
        PeerView {
            peer_ip: self.peer_ip,
            version: self.version,
            node_type: self.node_type,
            status: self.status,
            block_header: self.block_header@,
        }
    }
}

impl Peer {
    /// The height of the peer's latest block.
    pub fn height(&self) -> (r: u32)
        ensures
            r == self@.block_header.height,
    {
        self.block_header.height
    }

    /// The cumulative weight of the peer's latest block.
    pub fn cumulative_weight(&self) -> (r: u128)
        ensures
            r == self@.block_header.cumulative_weight,
    {
        self.block_header.cumulative_weight
    }
}

/// Why a peer is dropped.
#[derive(Clone, Copy, Debug, PartialEq, Eq, Structural)]
pub enum PeerError {
    /// The version of its message protocol is outdated.
    OutdatedVersion(u32),
    /// Its maximum fork depth is not that of the network.
    IncorrectForkDepth(u32),
    /// It follows a ledger that does not comply with V12.
    NotV12Compliant,
    /// It does not follow the protocol.
    NotFollowingProtocol,
    /// It disconnected.
    Disconnected,
}

/// Why a peer is dropped, as a text.
pub open spec fn peer_error_text(error: PeerError, peer_ip: Seq<char>) -> Seq<char> {
    match error {
        PeerError::OutdatedVersion(version) => "Dropping "@ + peer_ip + " on version "@
            + number_text(version as int) + " (outdated)"@,
        PeerError::IncorrectForkDepth(fork_depth) => "Dropping "@ + peer_ip
            + " for an incorrect maximum fork depth of "@ + number_text(fork_depth as int),
        PeerError::NotV12Compliant => "Peer "@ + peer_ip
            + " is not V12-compliant, proceeding to disconnect"@,
        PeerError::NotFollowingProtocol => "Peer "@ + peer_ip + " is not following the protocol"@,
        PeerError::Disconnected => "Peer "@ + peer_ip + " disconnected"@,
    }
}

impl PeerError {
    /// Why the peer at an address, which is given as a text, is dropped.
    pub fn text(&self, peer_ip: &str) -> (r: String)
        ensures
            r@ == peer_error_text(*self, peer_ip@),
    {
        match self {
            PeerError::OutdatedVersion(version) => {
                let number: String = decimal_text(*version);
                "Dropping ".to_owned().concat(peer_ip).concat(" on version ").concat(
                    number.as_str(),
                ).concat(" (outdated)")
            },
            PeerError::IncorrectForkDepth(fork_depth) => {
                let number: String = decimal_text(*fork_depth);
                "Dropping ".to_owned().concat(peer_ip).concat(
                    " for an incorrect maximum fork depth of ",
                ).concat(number.as_str())
            },
            PeerError::NotV12Compliant => "Peer ".to_owned().concat(peer_ip).concat(
                " is not V12-compliant, proceeding to disconnect",
            ),
            PeerError::NotFollowingProtocol => "Peer ".to_owned().concat(peer_ip).concat(
                " is not following the protocol",
            ),
            PeerError::Disconnected => "Peer ".to_owned().concat(peer_ip).concat(" disconnected"),
        }
    }
}

/// A message that is handled once its part is decoded.
#[derive(Debug)]
pub enum Deferred {
    /// Ping := (version, node_type, status, block_header)
    Ping(u32, NodeType, State, Data<BlockHeader>),
    /// Pong := (block_locators)
    Pong(Data<BlockLocators>),
    /// BlockResponse := (block)
    BlockResponse(Data<Block>),
    /// UnconfirmedBlock := (block_height, block_hash, block)
    UnconfirmedBlock(u32, BlockHash, Data<Block>),
}

/// A message whose part is decoded, or could not be.
#[derive(Debug)]
pub enum Decoded {
    /// Ping := (version, node_type, status, block_header)
    Ping(u32, NodeType, State, Result<BlockHeader, String>),
    /// Pong := (block_locators)
    Pong(Result<BlockLocators, String>),
    /// BlockResponse := (block)
    BlockResponse(Result<Block, String>),
    /// UnconfirmedBlock := (block_height, block_hash, block)
    UnconfirmedBlock(u32, BlockHash, Result<Block, String>),
}

/// Whether a decoding gives a result for a part of a message: the value itself, where it
/// is not serialized, and otherwise what decoding the serialized form comes to.
pub open spec fn decodes<T, F: FnOnce(Vec<u8>) -> Result<T, String>>(
    decode: F,
    part: Data<T>,
    result: Result<T, String>,
) -> bool {
    match part {
        Data::Object(value) => result == Ok::<T, String>(value),
        Data::Buffer(bytes) => decode.ensures((bytes,), result),
    }
}

impl Deferred {
    /// Decodes the part of the message; the rest of the message stays as it is.
    pub fn decode<
        H: FnOnce(Vec<u8>) -> Result<BlockHeader, String>,
        L: FnOnce(Vec<u8>) -> Result<BlockLocators, String>,
        B: FnOnce(Vec<u8>) -> Result<Block, String>,
    >(self, header: H, locators: L, block: B) -> (r: Decoded)
        requires
            forall|bytes: Vec<u8>| header.requires((bytes,)),
            forall|bytes: Vec<u8>| locators.requires((bytes,)),
            forall|bytes: Vec<u8>| block.requires((bytes,)),
        ensures
            match self {
                Deferred::Ping(version, node_type, status, part) => r matches Decoded::Ping(
                    v,
                    n,
                    s,
                    result,
                ) && v == version && n == node_type && s == status && decodes(header, part, result),
                Deferred::Pong(part) => r matches Decoded::Pong(result) && decodes(
                    locators,
                    part,
                    result,
                ),
                Deferred::BlockResponse(part) => r matches Decoded::BlockResponse(result)
                    && decodes(block, part, result),
                Deferred::UnconfirmedBlock(height, hash, part) => r
                    matches Decoded::UnconfirmedBlock(h, b, result) && h == height && b == hash
                    && decodes(block, part, result),
            },
    {
        match self {
            Deferred::Ping(version, node_type, status, part) => Decoded::Ping(
                version,
                node_type,
                status,
                part.deserialize(header),
            ),
            Deferred::Pong(part) => Decoded::Pong(part.deserialize(locators)),
            Deferred::BlockResponse(part) => Decoded::BlockResponse(part.deserialize(block)),
            Deferred::UnconfirmedBlock(height, hash, part) => Decoded::UnconfirmedBlock(
                height,
                hash,
                part.deserialize(block),
            ),
        }
    }
}

/// What a message comes to before its part is decoded.
#[derive(Debug)]
pub enum Received {
    /// The peer is dropped.
    Rejected(PeerError),
    /// Nothing is done.
    Ignored,
    /// The part has to be decoded.
    Deferred(Deferred),
}

/// What a message comes to.
#[derive(Debug)]
pub struct Handled<C, S, O> {
    /// Whether the peer is kept.
    pub result: Result<(), PeerError>,
    /// What is routed to the coordinator.
    pub request: Option<CoordinatorRequest<C, S, O>>,
    /// The seconds after which the peer is sent a `Ping`, if it is sent one.
    pub ping_after: Option<u64>,
}

/// What a message comes to before its part is decoded.
pub open spec fn received(env: Environment, message: Message) -> Received {
    match message {
        Message::Ping(version, fork_depth, node_type, status, _, header) => if version
            < env.message_version {
            Received::Rejected(PeerError::OutdatedVersion(version))
        } else if fork_depth != env.maximum_fork_depth {
            Received::Rejected(PeerError::IncorrectForkDepth(fork_depth))
        } else {
            Received::Deferred(Deferred::Ping(version, node_type, status, header))
        },
        Message::Pong(_, locators) => Received::Deferred(Deferred::Pong(locators)),
        Message::BlockResponse(block) => Received::Deferred(Deferred::BlockResponse(block)),
        Message::UnconfirmedBlock(height, hash, block) => Received::Deferred(
            Deferred::UnconfirmedBlock(height, hash, block),
        ),
        Message::ChallengeRequest => Received::Rejected(PeerError::NotFollowingProtocol),
        Message::ChallengeResponse => Received::Rejected(PeerError::NotFollowingProtocol),
        Message::Disconnect => Received::Rejected(PeerError::Disconnected),
        Message::Unused => Received::Rejected(PeerError::NotFollowingProtocol),
        Message::Other => Received::Ignored,
    }
}

/// Whether a block at a height breaks the rule that no proof is hiding after the V12 upgrade.
pub open spec fn breaks_v12(env: Environment, height: u32, is_hiding: bool) -> bool {
    env.network_id == 2 && height > V12_UPGRADE_BLOCK_HEIGHT && is_hiding
}

/// Whether a height is the greatest one that is located.
pub open spec fn is_latest(m: Map<u32, LocatorView>, height: u32) -> bool {
    m.contains_key(height) && forall|other: u32| #[trigger]
        m.contains_key(other) ==> other <= height
}

/// The header at the greatest height that is located, if it is located too.
pub open spec fn latest_header(m: Map<u32, LocatorView>) -> Option<HeaderView> {
    if exists|height: u32| is_latest(m, height) {
        m[choose|height: u32| is_latest(m, height)].header
    } else {
        None
    }
}

/// Whether the peer of a decoded message is kept.
pub open spec fn verdict(env: Environment, decoded: Decoded) -> Result<(), PeerError> {
    match decoded {
        Decoded::Ping(_, _, _, Ok(header)) => if breaks_v12(env, header.height, header.is_hiding) {
            Err(PeerError::NotV12Compliant)
        } else {
            Ok(())
        },
        Decoded::BlockResponse(Ok(block)) => if breaks_v12(env, block.height, block.is_hiding) {
            Err(PeerError::NotV12Compliant)
        } else {
            Ok(())
        },
        _ => Ok(()),
    }
}

/// What is known of the peer of a decoded message after it.
pub open spec fn peer_after(env: Environment, peer: PeerView, decoded: Decoded) -> PeerView {
    match decoded {
        Decoded::Ping(version, node_type, status, header) => if verdict(env, decoded) is Err {
            peer
        } else {
            PeerView {
                version,
                node_type,
                status,
                block_header: match header {
                    Ok(header) => header@,
                    Err(_) => peer.block_header,
                },
                ..peer
            }
        },
        Decoded::Pong(Ok(locators)) => match latest_header(locators@) {
            Some(header) => PeerView { block_header: header, ..peer },
            None => peer,
        },
        _ => peer,
    }
}

/// What is routed to the coordinator for a decoded message.
pub open spec fn request_for<C, S, O>(
    env: Environment,
    peer: PeerView,
    decoded: Decoded,
) -> Option<RequestView<C, S, O>> {
    match decoded {
        Decoded::Ping(_, _, _, _) => None,
        Decoded::Pong(Ok(_)) => None,
        Decoded::Pong(Err(error)) => Some(RequestView::Failure(peer.peer_ip, error@)),
        Decoded::BlockResponse(Ok(block)) => if verdict(env, decoded) is Err {
            None
        } else {
            Some(RequestView::UnconfirmedBlock(peer.peer_ip, peer.node_type, block@))
        },
        Decoded::BlockResponse(Err(error)) => Some(RequestView::Failure(peer.peer_ip, error@)),
        Decoded::UnconfirmedBlock(height, hash, Ok(block)) => if height == block.height && hash
            == block.hash {
            Some(RequestView::UnconfirmedBlock(peer.peer_ip, peer.node_type, block@))
        } else {
            Some(RequestView::Failure(peer.peer_ip, "Malformed UnconfirmedBlock message"@))
        },
        Decoded::UnconfirmedBlock(_, _, Err(error)) => Some(
            RequestView::Failure(peer.peer_ip, error@),
        ),
    }
}

/// After how many seconds the peer of a decoded message is sent a `Ping`, if it is sent one.
pub open spec fn ping_for(env: Environment, decoded: Decoded) -> Option<u64> {
    match decoded {
        Decoded::Pong(_) => Some(env.ping_sleep_in_secs),
        _ => None,
    }
}

/// What an optional request asks for.
pub open spec fn optional_view<C, S, O>(request: Option<CoordinatorRequest<C, S, O>>) -> Option<
    RequestView<C, S, O>,
> {
    match request {
        Some(request) => Some(request@),
        None => None,
    }
}

/// A message as it is sent to a peer, if it is sent: a `Ping` or an
/// `UnconfirmedBlock`, with its part serialized.
pub open spec fn sent(message: MessageView) -> Option<MessageView> {
    match message {
        MessageView::Ping(version, fork_depth, node_type, status, hash, header) => Some(
            MessageView::Ping(
                version,
                fork_depth,
                node_type,
                status,
                hash,
                DataView::Buffer(Data::<BlockHeader>::serialized(header)),
            ),
        ),
        MessageView::UnconfirmedBlock(height, hash, block) => Some(
            MessageView::UnconfirmedBlock(
                height,
                hash,
                DataView::Buffer(Data::<Block>::serialized(block)),
            ),
        ),
        _ => None,
    }
}

/// How far the handler of a peer is.
#[derive(Clone, Copy, Debug, PartialEq, Eq, Structural)]
pub enum Stage {
    /// The coordinator is being told that the peer is connected.
    Announcing,
    /// Messages are exchanged.
    Running,
    /// The peer is gone, and the coordinator has to be told.
    Disconnected,
    /// The coordinator could not be told that the peer is connected.
    Abandoned,
}

/// What comes from the stream of a peer.
#[derive(Debug)]
pub enum Inbound {
    /// A message.
    Message(Message),
    /// Something that is not a message.
    Unreadable,
    /// The end of the stream.
    Closed,
}

/// What is left to do about what came from a peer.
#[derive(Debug)]
pub enum Reaction {
    /// Go on.
    Continue,
    /// Decode the part of the message, and resume.
    Decode(Deferred),
    /// Stop: the peer is dropped for the error, or has closed the stream.
    Stop(Option<PeerError>),
}

/// What is done about what comes from a peer.
pub open spec fn reaction(env: Environment, inbound: Inbound) -> Reaction {
    match inbound {
        Inbound::Message(message) => match received(env, message) {
            Received::Rejected(error) => Reaction::Stop(Some(error)),
            Received::Ignored => Reaction::Continue,
            Received::Deferred(deferred) => Reaction::Decode(deferred),
        },
        Inbound::Unreadable => Reaction::Continue,
        Inbound::Closed => Reaction::Stop(None),
    }
}

/// What an attempt to set up a peer comes to: where to report the result, if
/// somewhere, and, where it succeeded, the handler and what is routed to the coordinator.
#[derive(Debug)]
pub enum Built<C, S, O, E> {
    /// The peer is set up.
    Connected {
        handler: CoordinatedPeer,
        report_to: Option<C>,
        request: CoordinatorRequest<C, S, O>,
    },
    /// The peer could not be set up.
    Failed { error: E, report_to: Option<C> },
}

/// The handler of a peer.
#[derive(Debug)]
pub struct CoordinatedPeer {
    peer: Peer,
    stage: Stage,
}

/// What the handler of a peer knows.
pub struct CoordinatedPeerView {
    pub peer: PeerView,
    pub stage: Stage,
}

impl View for CoordinatedPeer {
    type V = CoordinatedPeerView;

    closed spec fn view(&self) -> CoordinatedPeerView {
        CoordinatedPeerView { peer: self.peer@, stage: self.stage }
    }
}

impl CoordinatedPeer {
    /// Starts the handler of a peer that was set up.
    pub fn build<C, S, O, E>(
        built: Result<Peer, E>,
        connection_result: Option<C>,
        outbound: O,
    ) -> (r: Built<C, S, O, E>)
        ensures
            match built {
                Ok(peer) => match r {
                    Built::Connected { handler, report_to, request } => {
                        &&& handler@ == (CoordinatedPeerView {
                            peer: peer@,
                            stage: Stage::Announcing,
                        })
                        &&& report_to == connection_result
                        &&& request@ == RequestView::<C, S, O>::Connected(
                            peer.peer_ip,
                            peer.node_type,
                            outbound,
                        )
                    },
                    Built::Failed { .. } => false,
                },
                Err(error) => r == (Built::<C, S, O, E>::Failed {
                    error,
                    report_to: connection_result,
                }),
            },
    {
        match built {
            Ok(peer) => {
                let request = CoordinatorRequest::Connected(peer.peer_ip, peer.node_type, outbound);
                Built::Connected {
                    handler: CoordinatedPeer { peer, stage: Stage::Announcing },
                    report_to: connection_result,
                    request,
                }
            },
            Err(error) => Built::Failed { error, report_to: connection_result },
        }
    }

    /// What is known of the peer.
    pub fn peer(&self) -> (r: &Peer)
        ensures
            r@ == self@.peer,
    {
        &self.peer
    }

    /// How far the handler is.
    pub fn stage(&self) -> (r: Stage)
        ensures
            r == self@.stage,
    {
        self.stage
    }

    /// Goes on once the coordinator was told that the peer is connected, or gives
    /// up where it could not be told.
    pub fn announced(&mut self, routed: bool)
        requires
            old(self)@.stage == Stage::Announcing,
        ensures
            final(self)@ == (CoordinatedPeerView {
                stage: if routed {
                    Stage::Running
                } else {
                    Stage::Abandoned
                },
                ..old(self)@
            }),
    {
        self.stage =
        if routed {
            Stage::Running
        } else {
            Stage::Abandoned
        };
    }

    /// Prepares a message for the peer, if it is one to be sent.
    pub fn outbound(message: Message) -> (r: Option<Message>)
        ensures
            match sent(message@) {
                Some(expected) => r matches Some(ready) && ready@ == expected,
                None => r is None,
            },
    {
        match message {
            Message::Ping(version, fork_depth, node_type, status, hash, header) => Some(
                Message::Ping(
                    version,
                    fork_depth,
                    node_type,
                    status,
                    hash,
                    Data::Buffer(header.serialize()),
                ),
            ),
            Message::UnconfirmedBlock(height, hash, block) => Some(
                Message::UnconfirmedBlock(height, hash, Data::Buffer(block.serialize())),
            ),
            _ => None,
        }
    }

    /// Decides what is done about what came from the peer.
    pub fn inbound(&mut self, env: &Environment, inbound: Inbound) -> (r: Reaction)
        requires
            old(self)@.stage == Stage::Running,
        ensures
            r == reaction(*env, inbound),
            final(self)@ == (CoordinatedPeerView {
                stage: if r is Stop {
                    Stage::Disconnected
                } else {
                    Stage::Running
                },
                ..old(self)@
            }),
    {
        match inbound {
            Inbound::Message(message) => match Self::receive(env, message) {
                Received::Rejected(error) => {
                    self.stage = Stage::Disconnected;
                    Reaction::Stop(Some(error))
                },
                Received::Ignored => Reaction::Continue,
                Received::Deferred(deferred) => Reaction::Decode(deferred),
            },
            Inbound::Unreadable => Reaction::Continue,
            Inbound::Closed => {
                self.stage = Stage::Disconnected;
                Reaction::Stop(None)
            },
        }
    }

    /// Goes on with a message once its part is decoded, or could not be.
    pub fn resume<C, S, O>(&mut self, env: &Environment, decoded: Decoded) -> (r: Handled<C, S, O>)
        requires
            old(self)@.stage == Stage::Running,
        ensures
            r.result == verdict(*env, decoded),
            optional_view(r.request) == request_for::<C, S, O>(*env, old(self)@.peer, decoded),
            r.ping_after == ping_for(*env, decoded),
            final(self)@ == (CoordinatedPeerView {
                peer: peer_after(*env, old(self)@.peer, decoded),
                stage: if verdict(*env, decoded) is Err {
                    Stage::Disconnected
                } else {
                    Stage::Running
                },
            }),
    {
        let handled = Self::handle_message(env, &mut self.peer, decoded);
        if handled.result.is_err() {
            self.stage = Stage::Disconnected;
        }
        handled
    }

    /// What is routed to the coordinator when the handler ends.
    pub fn farewell<C, S, O>(&self) -> (r: Option<CoordinatorRequest<C, S, O>>)
        ensures
            optional_view(r) == (if self@.stage == Stage::Disconnected {
                Some(RequestView::<C, S, O>::Disconnected(self@.peer.peer_ip))
            } else {
                None
            }),
    {
        if self.stage == Stage::Disconnected {
            Some(CoordinatorRequest::Disconnected(self.peer.peer_ip))
        } else {
            None
        }
    }

    /// Decides what a message comes to before its part is decoded.
    pub fn receive(env: &Environment, message: Message) -> (r: Received)
        ensures
            r == received(*env, message),
    {
        match message {
            Message::Ping(version, fork_depth, node_type, status, _, header) => {
                // Ensure the message protocol version is not outdated.
                if version < env.message_version {
                    return Received::Rejected(PeerError::OutdatedVersion(version));
                }
                // Ensure the maximum fork depth is correct.
                if fork_depth != env.maximum_fork_depth {
                    return Received::Rejected(PeerError::IncorrectForkDepth(fork_depth));
                }
                Received::Deferred(Deferred::Ping(version, node_type, status, header))
            },
            Message::Pong(_, locators) => Received::Deferred(Deferred::Pong(locators)),
            Message::BlockResponse(block) => Received::Deferred(Deferred::BlockResponse(block)),
            Message::UnconfirmedBlock(height, hash, block) => Received::Deferred(
                Deferred::UnconfirmedBlock(height, hash, block),
            ),
            Message::ChallengeRequest => Received::Rejected(PeerError::NotFollowingProtocol),
            Message::ChallengeResponse => Received::Rejected(PeerError::NotFollowingProtocol),
            Message::Disconnect => Received::Rejected(PeerError::Disconnected),
            Message::Unused => Received::Rejected(PeerError::NotFollowingProtocol),
            Message::Other => Received::Ignored,
        }
    }

    /// Handles a message whose part is decoded, or could not be.
    pub fn handle_message<C, S, O>(
        env: &Environment,
        peer: &mut Peer,
        decoded: Decoded,
    ) -> (r: Handled<C, S, O>)
        ensures
            r.result == verdict(*env, decoded),
            optional_view(r.request) == request_for::<C, S, O>(*env, old(peer)@, decoded),
            r.ping_after == ping_for(*env, decoded),
            final(peer)@ == peer_after(*env, old(peer)@, decoded),
    {
        let peer_ip: SocketAddr = peer.peer_ip;
        match decoded {
            Decoded::Ping(version, node_type, status, header) => {
                match header {
                    Ok(header) => {
                        // Sanity check for a V12 ledger.
                        if env.network_id == 2 && header.height > V12_UPGRADE_BLOCK_HEIGHT
                            && header.is_hiding {
                            return Handled {
                                result: Err(PeerError::NotV12Compliant),
                                request: None,
                                ping_after: None,
                            };
                        }
                        // Update the block header of the peer.
                        peer.block_header = header;
                    },
                    Err(_) => {},
                }
                // Update the version, the node type and the status of the peer.
                peer.version = version;
                peer.node_type = node_type;
                peer.status = status;
                Handled { result: Ok(()), request: None, ping_after: None }
            },
            Decoded::Pong(locators) => {
                let request = match locators {
                    Ok(locators) => {
                        let ghost m = locators@;
                        match locators.last() {
                            Some((height, entry)) => {
                                proof {
                                    assert(is_latest(m, height));
                                    let latest = choose|h: u32| is_latest(m, h);
                                    assert(is_latest(m, latest));
                                    assert(height == latest);
                                }
                                if let Some(header) = &entry.1 {
                                    peer.block_header = header.clone();
                                }
                            },
                            None => {
                                assert(forall|height: u32| !is_latest(m, height));
                            },
                        }
                        None
                    },
                    // Route the `Failure` to the coordinator.
                    Err(error) => Some(CoordinatorRequest::Failure(peer_ip, error)),
                };
                Handled { result: Ok(()), request, ping_after: Some(env.ping_sleep_in_secs) }
            },
            Decoded::BlockResponse(Ok(block)) => {
                // Sanity check for a V12 ledger.
                if env.network_id == 2 && block.height > V12_UPGRADE_BLOCK_HEIGHT
                    && block.is_hiding {
                    return Handled {
                        result: Err(PeerError::NotV12Compliant),
                        request: None,
                        ping_after: None,
                    };
                }
                // Route the `UnconfirmedBlock` to the coordinator.
                let request = CoordinatorRequest::UnconfirmedBlock(peer_ip, peer.node_type, block);
                Handled { result: Ok(()), request: Some(request), ping_after: None }
            },
            Decoded::BlockResponse(Err(error)) => Handled {
                result: Ok(()),
                request: Some(CoordinatorRequest::Failure(peer_ip, error)),
                ping_after: None,
            },
            Decoded::UnconfirmedBlock(height, hash, block) => {
                let request = match block {
                    // Ensure the claimed block height and block hash match the block.
                    Ok(block) => if height == block.height && hash == block.hash {
                        CoordinatorRequest::UnconfirmedBlock(peer_ip, peer.node_type, block)
                    } else {
                        CoordinatorRequest::Failure(
                            peer_ip,
                            "Malformed UnconfirmedBlock message".to_owned(),
                        )
                    },
                    Err(error) => CoordinatorRequest::Failure(peer_ip, error),
                };
                Handled { result: Ok(()), request: Some(request), ping_after: None }
            },
        }
    }

    /// The request that sends a peer a `Ping` about the genesis block.
    pub fn ping_request<C, S, O>(
        env: &Environment,
        peer_ip: SocketAddr,
        status: State,
        genesis_hash: BlockHash,
        genesis_header: BlockHeader,
    ) -> (r: CoordinatorRequest<C, S, O>)
        ensures
            r@ == RequestView::<C, S, O>::MessageSend(
                peer_ip,
                MessageView::Ping(
                    env.message_version,
                    env.maximum_fork_depth,
                    env.node_type,
                    status,
                    genesis_hash,
                    DataView::Object(genesis_header@),
                ),
            ),
    {
        CoordinatorRequest::MessageSend(
            peer_ip,
            Message::Ping(
                env.message_version,
                env.maximum_fork_depth,
                env.node_type,
                status,
                genesis_hash,
                Data::Object(genesis_header),
            ),
        )
    }
}

} // verus!
