//! The coordinator of a network: which peers are connected, which block is the
//! heaviest known, and what has to be done about each request.

use vstd::prelude::*;

use crate::block::{Block, BlockHash, BlockView};
use crate::message::{Data, DataView, Message, MessageView, NodeType, SocketAddr};
use crate::peers::PeerTable;

verus! {

/// The parameters of the network and of the node.
#[derive(Clone, Copy, Debug, PartialEq, Eq, Structural)]
pub struct Environment {
    /// The number of the network.
    pub network_id: u16,
    /// The maximum depth of a fork in the network.
    pub maximum_fork_depth: u32,
    /// The version of the message protocol.
    pub message_version: u32,
    /// The kind of this node.
    pub node_type: NodeType,
    /// The maximum number of connected peers.
    pub maximum_number_of_peers: usize,
    /// The seconds to wait before a peer is sent the next `Ping`.
    pub ping_sleep_in_secs: u64,
    /// The milliseconds after which an attempt to connect is given up.
    pub connection_timeout_in_millis: u64,
}

/// A request to the coordinator. `C` is where the result of a connection attempt
/// is reported, `S` a stream to a peer, and `O` hands messages to a peer.
#[derive(Debug)]
pub enum CoordinatorRequest<C, S, O> {
    /// Connect := (peer_ip, connection_result)
    Connect(SocketAddr, C),
    /// Connecting := (stream, peer_ip)
    Connecting(S, SocketAddr),
    /// Connected := (peer_ip, node_type, outbound)
    Connected(SocketAddr, NodeType, O),
    /// Disconnected := (peer_ip)
    Disconnected(SocketAddr),
    /// MessageSend := (peer_ip, message)
    MessageSend(SocketAddr, Message),
    /// Failure := (peer_ip, failure)
    Failure(SocketAddr, String),
    /// UnconfirmedBlock := (peer_ip, node_type, block)
    UnconfirmedBlock(SocketAddr, NodeType, Block),
}

/// What a request asks for.
pub enum RequestView<C, S, O> {
    Connect(SocketAddr, C),
    Connecting(S, SocketAddr),
    Connected(SocketAddr, NodeType, O),
    Disconnected(SocketAddr),
    MessageSend(SocketAddr, MessageView),
    Failure(SocketAddr, Seq<char>),
    UnconfirmedBlock(SocketAddr, NodeType, BlockView),
}

impl<C, S, O> View for CoordinatorRequest<C, S, O> {
    type V = RequestView<C, S, O>;

    open spec fn view(&self) -> RequestView<C, S, O> {
        match *self {
            CoordinatorRequest::Connect(ip, result) => RequestView::Connect(ip, result),
            CoordinatorRequest::Connecting(stream, ip) => RequestView::Connecting(stream, ip),
            CoordinatorRequest::Connected(ip, node_type, outbound) => RequestView::Connected(
                ip,
                node_type,
                outbound,
            ),
            CoordinatorRequest::Disconnected(ip) => RequestView::Disconnected(ip),
            CoordinatorRequest::MessageSend(ip, message) => RequestView::MessageSend(ip, message@),
            CoordinatorRequest::Failure(ip, failure) => RequestView::Failure(ip, failure@),
            CoordinatorRequest::UnconfirmedBlock(
                ip,
                node_type,
                block,
            ) => RequestView::UnconfirmedBlock(ip, node_type, block@),
        }
    }
}

/// Why an inbound connection is dropped.
#[derive(Clone, Copy, Debug, PartialEq, Eq, Structural)]
pub enum Refusal {
    /// The maximum number of peers is connected.
    MaximumPeersReached,
    /// The peer is connected already.
    AlreadyConnected,
}

/// What is left to do about a request once the coordinator is up to date.
#[derive(Debug)]
pub enum Action<C, S> {
    /// Nothing is left to do.
    Nothing,
    /// Open a stream to the peer, within so many milliseconds, and start its handler.
    Dial { peer_ip: SocketAddr, timeout_in_millis: u64, connection_result: C },
    /// Start the handler of the peer on the stream.
    Accept { stream: S, peer_ip: SocketAddr },
    /// Drop the stream.
    Refuse { peer_ip: SocketAddr, refusal: Refusal },
    /// Hand the message to the peer.
    Deliver { peer_ip: SocketAddr, message: Message },
    /// Report that there is no such peer to hand a message to.
    NotConnected { peer_ip: SocketAddr },
    /// Report the failure.
    ReportFailure { peer_ip: SocketAddr, failure: String },
    /// Report that the block is invalid.
    InvalidBlock { height: u32, hash: BlockHash },
    /// Report that the block is no heavier than the latest one.
    StaleBlock { height: u32, hash: BlockHash, cumulative_weight: u128, peer_ip: SocketAddr },
    /// Hand the message to each of the peers.
    Propagate { targets: Vec<SocketAddr>, message: Message },
}

/// What an action is. The order in which peers are served is left open.
pub enum ActionView<C, S> {
    Nothing,
    Dial(SocketAddr, u64, C),
    Accept(S, SocketAddr),
    Refuse(SocketAddr, Refusal),
    Deliver(SocketAddr, MessageView),
    NotConnected(SocketAddr),
    ReportFailure(SocketAddr, Seq<char>),
    InvalidBlock(u32, BlockHash),
    StaleBlock(u32, BlockHash, u128, SocketAddr),
    Propagate(Set<SocketAddr>, MessageView),
}

impl<C, S> View for Action<C, S> {
    type V = ActionView<C, S>;

    open spec fn view(&self) -> ActionView<C, S> {
        match *self {
            Action::Nothing => ActionView::Nothing,
            Action::Dial { peer_ip, timeout_in_millis, connection_result } => ActionView::Dial(
                peer_ip,
                timeout_in_millis,
                connection_result,
            ),
            Action::Accept { stream, peer_ip } => ActionView::Accept(stream, peer_ip),
            Action::Refuse { peer_ip, refusal } => ActionView::Refuse(peer_ip, refusal),
            Action::Deliver { peer_ip, message } => ActionView::Deliver(peer_ip, message@),
            Action::NotConnected { peer_ip } => ActionView::NotConnected(peer_ip),
            Action::ReportFailure { peer_ip, failure } => ActionView::ReportFailure(
                peer_ip,
                failure@,
            ),
            Action::InvalidBlock { height, hash } => ActionView::InvalidBlock(height, hash),
            Action::StaleBlock {
                height,
                hash,
                cumulative_weight,
                peer_ip,
            } => ActionView::StaleBlock(height, hash, cumulative_weight, peer_ip),
            Action::Propagate { targets, message } => ActionView::Propagate(
                targets@.to_set(),
                message@,
            ),
        }
    }
}

/// What a coordinator knows.
pub struct CoordinatorView<O> {
    pub local_ip: SocketAddr,
    pub connected_peers: Map<SocketAddr, (NodeType, O)>,
    pub latest_block: BlockView,
}

/// What a coordinator knows after a request.
pub open spec fn updated<C, S, O>(
    c: CoordinatorView<O>,
    request: RequestView<C, S, O>,
) -> CoordinatorView<O> {
    match request {
        RequestView::Connected(ip, node_type, outbound) => CoordinatorView {
            connected_peers: c.connected_peers.insert(ip, (node_type, outbound)),
            ..c
        },
        RequestView::Disconnected(ip) => CoordinatorView {
            connected_peers: c.connected_peers.remove(ip),
            ..c
        },
        RequestView::UnconfirmedBlock(_, _, block) => if adopts(c, block) {
            CoordinatorView { latest_block: block, ..c }
        } else {
            c
        },
        _ => c,
    }
}

/// Whether a coordinator takes a block for its latest one.
pub open spec fn adopts<O>(c: CoordinatorView<O>, block: BlockView) -> bool {
    block.is_valid && block.cumulative_weight > c.latest_block.cumulative_weight
}

/// The message that announces a block.
pub open spec fn announcement(block: BlockView) -> MessageView {
    MessageView::UnconfirmedBlock(block.height, block.hash, DataView::Buffer(block.bytes))
}

/// What is left to do about a request.
pub open spec fn action<C, S, O>(
    env: Environment,
    c: CoordinatorView<O>,
    request: RequestView<C, S, O>,
) -> ActionView<C, S> {
    match request {
        RequestView::Connect(ip, result) => ActionView::Dial(
            ip,
            env.connection_timeout_in_millis,
            result,
        ),
        RequestView::Connecting(stream, ip) => if c.connected_peers.len()
            >= env.maximum_number_of_peers {
            ActionView::Refuse(ip, Refusal::MaximumPeersReached)
        } else if c.connected_peers.contains_key(ip) {
            ActionView::Refuse(ip, Refusal::AlreadyConnected)
        } else {
            ActionView::Accept(stream, ip)
        },
        RequestView::Connected(_, _, _) => ActionView::Nothing,
        RequestView::Disconnected(_) => ActionView::Nothing,
        RequestView::MessageSend(ip, message) => if c.connected_peers.contains_key(ip) {
            ActionView::Deliver(ip, message)
        } else {
            ActionView::NotConnected(ip)
        },
        RequestView::Failure(ip, failure) => ActionView::ReportFailure(ip, failure),
        RequestView::UnconfirmedBlock(ip, _, block) => if !block.is_valid {
            ActionView::InvalidBlock(block.height, block.hash)
        } else if block.cumulative_weight <= c.latest_block.cumulative_weight {
            ActionView::StaleBlock(block.height, block.hash, block.cumulative_weight, ip)
        } else {
            ActionView::Propagate(c.connected_peers.dom().remove(ip), announcement(block))
        },
    }
}

/// The message as it is propagated: the block of an `UnconfirmedBlock` is serialized.
pub open spec fn with_serialized_block(message: MessageView) -> MessageView {
    match message {
        MessageView::UnconfirmedBlock(height, hash, block) => MessageView::UnconfirmedBlock(
            height,
            hash,
            DataView::Buffer(Data::<Block>::serialized(block)),
        ),
        _ => message,
    }
}

/// The requests that disconnect a peer.
pub open spec fn disconnect_requests<C, S, O>(ip: SocketAddr) -> Seq<RequestView<C, S, O>> {
    seq![
        RequestView::MessageSend(ip, MessageView::Disconnect),
        RequestView::Disconnected(ip),
    ]
}

/// The requests that disconnect peers, one after the other.
pub open spec fn all_disconnect_requests<C, S, O>(ips: Seq<SocketAddr>) -> Seq<
    RequestView<C, S, O>,
>
    decreases ips.len(),
{
    if ips.len() == 0 {
        Seq::empty()
    } else {
        all_disconnect_requests(ips.drop_last()) + disconnect_requests(ips.last())
    }
}

/// What requests ask for, one after the other.
pub open spec fn request_views<C, S, O>(requests: Seq<CoordinatorRequest<C, S, O>>) -> Seq<
    RequestView<C, S, O>,
> {
    requests.map_values(|request: CoordinatorRequest<C, S, O>| request@)
}

/// The filter that every peer passes.
fn every_peer(_ip: &SocketAddr, _node_type: &NodeType) -> (r: bool)
    ensures
        r,
{
    true
}

/// A coordinator for a specific network.
pub struct Coordinator<O> {
    local_ip: SocketAddr,
    connected_peers: PeerTable<O>,
    latest_block: Block,
}

impl<O> View for Coordinator<O> {
    type V = CoordinatorView<O>;

    closed spec fn view(&self) -> CoordinatorView<O> {
        CoordinatorView {
            local_ip: self.local_ip,
            connected_peers: self.connected_peers@,
            latest_block: self.latest_block@,
        }
    }
}

impl<O> Coordinator<O> {
    /// Makes a coordinator without peers, whose latest block is the genesis block.
    pub fn new(local_ip: SocketAddr, genesis_block: Block) -> (r: Self)
        ensures
            r@ == (CoordinatorView {
                local_ip,
                connected_peers: Map::<SocketAddr, (NodeType, O)>::empty(),
                latest_block: genesis_block@,
            }),
    {
        Coordinator { local_ip, connected_peers: PeerTable::new(), latest_block: genesis_block }
    }

    /// The address of this node.
    pub fn local_ip(&self) -> (r: SocketAddr)
        ensures
            r == self@.local_ip,
    {
        self.local_ip
    }

    /// Whether the node is connected to an address.
    pub fn is_connected_to(&self, ip: SocketAddr) -> (r: bool)
        ensures
            r == self@.connected_peers.contains_key(ip),
    {
        self.connected_peers.contains_key(ip)
    }

    /// The connected peers, once each.
    pub fn connected_peers(&self) -> (r: Vec<SocketAddr>)
        ensures
            r@.no_duplicates(),
            r@.to_set() == self@.connected_peers.dom(),
    {
        self.connected_peers.keys()
    }

    /// The number of connected peers.
    pub fn number_of_connected_peers(&self) -> (r: usize)
        ensures
            self@.connected_peers.dom().finite(),
            r == self@.connected_peers.len(),
    {
        self.connected_peers.len()
    }

    /// The latest block.
    pub fn latest_block(&self) -> (r: &Block)
        ensures
            r@ == self@.latest_block,
    {
        &self.latest_block
    }

    /// Where messages to a peer are handed, if it is connected.
    pub fn outbound(&self, ip: SocketAddr) -> (r: Option<&O>)
        ensures
            r is Some <==> self@.connected_peers.contains_key(ip),
            r matches Some(outbound) ==> *outbound == self@.connected_peers[ip].1,
    {
        match self.connected_peers.get(ip) {
            Some((_, outbound)) => Some(outbound),
            None => None,
        }
    }

    /// Decides how a message is sent to a peer.
    pub fn send<C, S>(&self, peer: SocketAddr, message: Message) -> (r: Action<C, S>)
        ensures
            r@ == (if self@.connected_peers.contains_key(peer) {
                ActionView::<C, S>::Deliver(peer, message@)
            } else {
                ActionView::<C, S>::NotConnected(peer)
            }),
    {
        if self.connected_peers.contains_key(peer) {
            Action::Deliver { peer_ip: peer, message }
        } else {
            Action::NotConnected { peer_ip: peer }
        }
    }

    /// Forgets a peer to which a message could not be handed.
    pub fn delivery_failed(&mut self, peer: SocketAddr)
        ensures
            final(self)@ == (CoordinatorView {
                connected_peers: old(self)@.connected_peers.remove(peer),
                ..old(self)@
            }),
    {
        self.connected_peers.remove(peer);
    }

    /// Decides to which peers a message is propagated: to every connected peer but
    /// the sender that passes the filter. A block in the message is serialized once for all.
    pub fn propagate<F: Fn(&SocketAddr, &NodeType) -> bool>(
        &self,
        sender: SocketAddr,
        message: Message,
        filter: F,
    ) -> (r: (Vec<SocketAddr>, Message))
        requires
            forall|ip: SocketAddr|
                self@.connected_peers.contains_key(ip) ==> #[trigger] filter.requires(
                    (&ip, &self@.connected_peers[ip].0),
                ),
        ensures
            r.0@.no_duplicates(),
            forall|ip: SocketAddr| #[trigger]
                r.0@.contains(ip) ==> {
                    &&& ip != sender
                    &&& self@.connected_peers.contains_key(ip)
                    &&& filter.ensures((&ip, &self@.connected_peers[ip].0), true)
                },
            forall|ip: SocketAddr|
                #![trigger self@.connected_peers.contains_key(ip)]
                ip != sender && self@.connected_peers.contains_key(ip) && !r.0@.contains(ip)
                    ==> filter.ensures((&ip, &self@.connected_peers[ip].0), false),
            r.1@ == with_serialized_block(message@),
    {
        let message = match message {
            Message::UnconfirmedBlock(height, hash, block) => Message::UnconfirmedBlock(
                height,
                hash,
                Data::Buffer(block.serialize()),
            ),
            message => message,
        };
        let peers: Vec<SocketAddr> = self.connected_peers.keys();
        let mut targets: Vec<SocketAddr> = Vec::new();
        let ghost table = self@.connected_peers;
        let ghost mut from: Seq<int> = Seq::empty();
        for i in 0..peers.len()
            invariant
                table == self@.connected_peers,
                peers@.no_duplicates(),
                peers@.to_set() == table.dom(),
                forall|ip: SocketAddr|
                    table.contains_key(ip) ==> #[trigger] filter.requires((&ip, &table[ip].0)),
                from.len() == targets@.len(),
                forall|j: int|
                    0 <= j < targets@.len() ==> {
                        let ip = #[trigger] targets@[j];
                        &&& peers@[from[j]] == ip
                        &&& ip != sender
                        &&& filter.ensures((&ip, &table[ip].0), true)
                    },
                forall|j: int| 0 <= j < from.len() ==> 0 <= #[trigger] from[j] < i,
                forall|j: int, k: int| 0 <= j < k < from.len() ==> from[j] < from[k],
                forall|j: int|
                    0 <= j < i ==> {
                        let ip = #[trigger] peers@[j];
                        ip == sender || targets@.contains(ip) || filter.ensures(
                            (&ip, &table[ip].0),
                            false,
                        )
                    },
        {
            let ip: SocketAddr = peers[i];
            let ghost before = targets@;
            proof {
                assert(peers@.to_set().contains(ip));
            }
            match self.connected_peers.get(ip) {
                Some((node_type, _)) => {
                    if ip != sender && filter(&ip, &node_type) {
                        targets.push(ip);
                        proof {
                            from = from.push(i as int);
                            assert(targets@.last() == ip);
                            assert forall|other: SocketAddr| before.contains(
                                other,
                            ) implies targets@.contains(other) by {
                                let j = choose|j: int| 0 <= j < before.len() && before[j] == other;
                                assert(targets@[j] == other);
                            }
                        }
                    }
                },
                None => {},
            }
        }
        proof {
            assert forall|j: int, k: int| 0 <= j < k < targets@.len() implies targets@[j]
                != targets@[k] by {
                assert(from[j] < from[k]);
                assert(peers@[from[j]] == targets@[j] && peers@[from[k]] == targets@[k]);
            }
            assert forall|ip: SocketAddr| targets@.contains(ip) implies table.contains_key(ip) by {
                let j = choose|j: int| 0 <= j < targets@.len() && targets@[j] == ip;
                assert(peers@.to_set().contains(peers@[from[j]]));
            }
            assert forall|ip: SocketAddr|
                ip != sender && #[trigger] table.contains_key(ip) && !targets@.contains(
                    ip,
                ) implies filter.ensures((&ip, &table[ip].0), false) by {
                assert(peers@.to_set().contains(ip));
                let j = choose|j: int| 0 <= j < peers@.len() && peers@[j] == ip;
                assert(peers@[j] == ip);
            }
        }
        (targets, message)
    }

    /// Performs a request: updates the coordinator and says what is left to do.
    /// All requests go through here, so that a unified view is preserved.
    pub fn update<C, S>(
        &mut self,
        env: &Environment,
        request: CoordinatorRequest<C, S, O>,
    ) -> (r: Action<C, S>)
        ensures
            final(self)@ == updated(old(self)@, request@),
            r@ == action(*env, old(self)@, request@),
            r matches Action::Propagate { targets, .. } ==> targets@.no_duplicates(),
    {
        match request {
            CoordinatorRequest::Connect(peer_ip, connection_result) => Action::Dial {
                peer_ip,
                timeout_in_millis: env.connection_timeout_in_millis,
                connection_result,
            },
            CoordinatorRequest::Connecting(stream, peer_ip) => {
                // Ensure the node does not surpass the maximum number of peer connections.
                if self.number_of_connected_peers() >= env.maximum_number_of_peers {
                    return Action::Refuse { peer_ip, refusal: Refusal::MaximumPeersReached };
                }
                // Ensure the node is not already connected to this peer.
                if self.is_connected_to(peer_ip) {
                    return Action::Refuse { peer_ip, refusal: Refusal::AlreadyConnected };
                }
                Action::Accept { stream, peer_ip }
            },
            CoordinatorRequest::Connected(peer_ip, node_type, outbound) => {
                self.connected_peers.insert(peer_ip, node_type, outbound);
                Action::Nothing
            },
            CoordinatorRequest::Disconnected(peer_ip) => {
                self.connected_peers.remove(peer_ip);
                Action::Nothing
            },
            CoordinatorRequest::MessageSend(peer_ip, message) => self.send(peer_ip, message),
            CoordinatorRequest::Failure(peer_ip, failure) => Action::ReportFailure {
                peer_ip,
                failure,
            },
            CoordinatorRequest::UnconfirmedBlock(peer_ip, _, block) => {
                if !block.is_valid {
                    return Action::InvalidBlock { height: block.height, hash: block.hash };
                }
                if block.cumulative_weight <= self.latest_block.cumulative_weight {
                    return Action::StaleBlock {
                        height: block.height,
                        hash: block.hash,
                        cumulative_weight: block.cumulative_weight,
                        peer_ip,
                    };
                }
                self.latest_block = block.clone();
                let (targets, message) = self.propagate(
                    peer_ip,
                    Message::UnconfirmedBlock(block.height, block.hash, Data::Object(block)),
                    every_peer,
                );
                proof {
                    assert forall|ip: SocketAddr| targets@.to_set().contains(ip)
                        <==> self@.connected_peers.dom().remove(peer_ip).contains(ip) by {}
                    assert(targets@.to_set() =~= self@.connected_peers.dom().remove(peer_ip));
                }
                Action::Propagate { targets, message }
            },
        }
    }

    /// The requests that disconnect a peer: a `Disconnect` message to it, then its removal.
    pub fn disconnect<C, S>(peer_ip: SocketAddr) -> (r: Vec<CoordinatorRequest<C, S, O>>)
        ensures
            request_views(r@) == disconnect_requests::<C, S, O>(peer_ip),
    {
        let mut requests: Vec<CoordinatorRequest<C, S, O>> = Vec::new();
        requests.push(CoordinatorRequest::MessageSend(peer_ip, Message::Disconnect));
        requests.push(CoordinatorRequest::Disconnected(peer_ip));
        assert(request_views(requests@) =~= disconnect_requests::<C, S, O>(peer_ip));
        requests
    }

    /// The requests that disconnect all connected peers, in some order of the peers.
    pub fn shut_down<C, S>(&self) -> (r: Vec<CoordinatorRequest<C, S, O>>)
        ensures
            exists|ips: Seq<SocketAddr>|
                {
                    &&& ips.no_duplicates()
                    &&& ips.to_set() == self@.connected_peers.dom()
                    &&& request_views(r@) == #[trigger] all_disconnect_requests::<C, S, O>(ips)
                },
    {
        let peers: Vec<SocketAddr> = self.connected_peers.keys();
        let mut requests: Vec<CoordinatorRequest<C, S, O>> = Vec::new();
        assert(request_views(requests@) =~= all_disconnect_requests::<C, S, O>(peers@.take(0)));
        for i in 0..peers.len()
            invariant
                request_views(requests@) == all_disconnect_requests::<C, S, O>(
                    peers@.take(i as int),
                ),
        {
            let ghost before = requests@;
            let mut two: Vec<CoordinatorRequest<C, S, O>> = Self::disconnect(peers[i]);
            let ghost added = two@;
            requests.append(&mut two);
            proof {
                assert(peers@.take(i + 1).drop_last() =~= peers@.take(i as int));
                assert(request_views(requests@) =~= request_views(before) + request_views(added));
            }
        }
        assert(peers@.take(peers@.len() as int) =~= peers@);
        requests
    }
}

} // verus!
