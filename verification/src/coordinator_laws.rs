//! What holds of a coordinator over several requests.

use vstd::prelude::*;

use crate::block::{Block, BlockHash, BlockView};
use crate::coordinated_peer::{
    peer_after, received, request_for, sent, verdict, Decoded, PeerView,
};
use crate::coordinator::{
    action, adopts, all_disconnect_requests, announcement, disconnect_requests, request_views,
    updated, with_serialized_block, Action, ActionView, CoordinatorRequest, CoordinatorView,
    Environment, Refusal, RequestView,
};
use crate::message::{Data, Message, MessageView, NodeType, SocketAddr};

verus! {

/// What a coordinator knows after requests, one after the other.
pub open spec fn run<C, S, O>(
    c: CoordinatorView<O>,
    requests: Seq<RequestView<C, S, O>>,
) -> CoordinatorView<O>
    decreases requests.len(),
{
    if requests.len() == 0 {
        c
    } else {
        updated(run(c, requests.drop_last()), requests.last())
    }
}

/// Whatever is requested, the latest block only gives way to a valid block that
/// is heavier, and the local address stays.
pub proof fn law_latest_block_only_gets_heavier<C, S, O>(
    c: CoordinatorView<O>,
    requests: Seq<RequestView<C, S, O>>,
)
    ensures
        ({
            let after = run(c, requests);
            &&& after.local_ip == c.local_ip
            &&& after.latest_block.cumulative_weight >= c.latest_block.cumulative_weight
            &&& after.latest_block != c.latest_block ==> after.latest_block.is_valid
                && after.latest_block.cumulative_weight > c.latest_block.cumulative_weight
        }),
    decreases requests.len(),
{
    if requests.len() > 0 {
        law_latest_block_only_gets_heavier(c, requests.drop_last());
    }
}

/// Of the valid blocks that were announced, none is heavier than the latest block.
pub proof fn law_latest_block_is_heaviest<C, S, O>(
    c: CoordinatorView<O>,
    requests: Seq<RequestView<C, S, O>>,
    i: int,
)
    requires
        0 <= i < requests.len(),
    ensures
        requests[i] matches RequestView::UnconfirmedBlock(_, _, block) ==> block.is_valid
            ==> block.cumulative_weight <= run(c, requests).latest_block.cumulative_weight,
    decreases requests.len(),
{
    let rest = requests.drop_last();
    if i < rest.len() {
        law_latest_block_is_heaviest(c, rest, i);
        assert(rest[i] == requests[i]);
    }
}

/// A block that was announced is not propagated again, by whomever and after
/// whatever requests it is announced once more.
pub proof fn law_block_is_propagated_once<C, S, O>(
    env: Environment,
    c: CoordinatorView<O>,
    first: RequestView<C, S, O>,
    between: Seq<RequestView<C, S, O>>,
    peer_ip: SocketAddr,
    node_type: NodeType,
    block: BlockView,
)
    requires
        first matches RequestView::UnconfirmedBlock(_, _, b) && b == block,
    ensures
        ({
            let then = run(updated(c, first), between);
            let again = RequestView::<C, S, O>::UnconfirmedBlock(peer_ip, node_type, block);
            &&& updated(then, again) == then
            &&& !(action::<C, S, O>(env, then, again) is Propagate)
        }),
{
    law_latest_block_only_gets_heavier(updated(c, first), between);
}

/// A block is propagated exactly if it becomes the latest one; then every connected
/// peer but its sender is served, and only those.
pub proof fn law_adopted_blocks_are_propagated<C, S, O>(
    env: Environment,
    c: CoordinatorView<O>,
    sender: SocketAddr,
    node_type: NodeType,
    block: BlockView,
)
    ensures
        ({
            let request = RequestView::<C, S, O>::UnconfirmedBlock(sender, node_type, block);
            let act = action::<C, S, O>(env, c, request);
            &&& act is Propagate <==> adopts(c, block)
            &&& act matches ActionView::Propagate(targets, message) ==> {
                &&& updated(c, request).latest_block == block
                &&& message == announcement(block)
                &&& !targets.contains(sender)
                &&& forall|ip: SocketAddr|
                    ip != sender ==> (#[trigger] targets.contains(ip)
                        <==> c.connected_peers.contains_key(ip))
            }
        }),
{
}

/// A block is propagated exactly if it is valid and heavier than the latest block; whatever
/// its height. Then it becomes the latest one, and every connected peer but its sender is
/// sent the height, the hash and the serialized form of the block. Of the other blocks, the
/// coordinator learns nothing: an invalid one is reported as such, whatever its weight, and a
/// valid one that is not heavier as stale.
pub proof fn law_blocks_go_by_weight<C, S, O>(
    env: Environment,
    c: CoordinatorView<O>,
    sender: SocketAddr,
    node_type: NodeType,
    block: Block,
    act: Action<C, S>,
)
    requires
        act@ == action::<C, S, O>(
            env,
            c,
            CoordinatorRequest::<C, S, O>::UnconfirmedBlock(sender, node_type, block)@,
        ),
    ensures
        ({
            let after = updated(
                c,
                CoordinatorRequest::<C, S, O>::UnconfirmedBlock(sender, node_type, block)@,
            );
            &&& act is Propagate <==> block.is_valid && block.cumulative_weight
                > c.latest_block.cumulative_weight
            &&& after.latest_block == (if block.is_valid && block.cumulative_weight
                > c.latest_block.cumulative_weight {
                block@
            } else {
                c.latest_block
            })
            &&& after.connected_peers == c.connected_peers
            &&& after.local_ip == c.local_ip
            &&& act matches Action::Propagate { targets, message } ==> {
                &&& forall|ip: SocketAddr| #[trigger]
                    targets@.contains(ip) <==> ip != sender && c.connected_peers.contains_key(ip)
                &&& message matches Message::UnconfirmedBlock(height, hash, Data::Buffer(bytes))
                    && height == block.height && hash == block.hash && bytes@ == block.bytes@
            }
            &&& block.is_valid && block.cumulative_weight <= c.latest_block.cumulative_weight
                ==> act == (Action::<C, S>::StaleBlock {
                height: block.height,
                hash: block.hash,
                cumulative_weight: block.cumulative_weight,
                peer_ip: sender,
            })
            &&& !block.is_valid ==> act == (Action::<C, S>::InvalidBlock {
                height: block.height,
                hash: block.hash,
            })
        }),
{
    if let Action::Propagate { targets, .. } = act {
        assert forall|ip: SocketAddr| #[trigger]
            targets@.contains(ip) <==> ip != sender && c.connected_peers.contains_key(ip) by {
            assert(targets@.to_set().contains(ip) <==> targets@.contains(ip));
        }
    }
}

/// Whatever is requested: where the latest block changes, a block is propagated; and where a
/// block is propagated, it is the latest block from then on.
pub proof fn law_new_latest_block_is_propagated<C, S, O>(
    env: Environment,
    c: CoordinatorView<O>,
    request: RequestView<C, S, O>,
)
    ensures
        updated(c, request).latest_block != c.latest_block ==> action::<C, S, O>(
            env,
            c,
            request,
        ) is Propagate,
        action::<C, S, O>(env, c, request) is Propagate ==> {
            &&& request matches RequestView::UnconfirmedBlock(_, _, block)
            &&& updated(c, request).latest_block == block
            &&& updated(c, request).latest_block.cumulative_weight
                > c.latest_block.cumulative_weight
        },
{
}

/// A request to connect is dialled within the timeout of the environment, with its place to
/// report to, whoever is connected; what the coordinator knows stays.
pub proof fn law_connect<C, S, O>(
    env: Environment,
    c: CoordinatorView<O>,
    ip: SocketAddr,
    connection_result: C,
    act: Action<C, S>,
)
    requires
        act@ == action::<C, S, O>(
            env,
            c,
            CoordinatorRequest::<C, S, O>::Connect(ip, connection_result)@,
        ),
    ensures
        act == (Action::<C, S>::Dial {
            peer_ip: ip,
            timeout_in_millis: env.connection_timeout_in_millis,
            connection_result,
        }),
        updated(c, CoordinatorRequest::<C, S, O>::Connect(ip, connection_result)@) == c,
{
}

/// A peer that connects is known from then on, with its kind and the way to reach it,
/// also where it was known before; a peer that disconnects is not. Of the other peers, and of the
/// latest block, nothing changes, and nothing is left to do.
pub proof fn law_connected_and_disconnected<C, S, O>(
    env: Environment,
    c: CoordinatorView<O>,
    ip: SocketAddr,
    node_type: NodeType,
    outbound: O,
    other: SocketAddr,
)
    ensures
        ({
            let connected = CoordinatorRequest::<C, S, O>::Connected(ip, node_type, outbound)@;
            let disconnected = CoordinatorRequest::<C, S, O>::Disconnected(ip)@;
            let joined = updated(c, connected);
            let left = updated(c, disconnected);
            &&& joined.connected_peers.contains_key(ip)
            &&& joined.connected_peers[ip] == (node_type, outbound)
            &&& !left.connected_peers.contains_key(ip)
            &&& other != ip ==> {
                &&& joined.connected_peers.contains_key(other)
                    <==> c.connected_peers.contains_key(other)
                &&& joined.connected_peers[other] == c.connected_peers[other]
                &&& left.connected_peers.contains_key(other)
                    <==> c.connected_peers.contains_key(other)
                &&& left.connected_peers[other] == c.connected_peers[other]
            }
            &&& joined.latest_block == c.latest_block && left.latest_block == c.latest_block
            &&& joined.local_ip == c.local_ip && left.local_ip == c.local_ip
            &&& action::<C, S, O>(env, c, connected) is Nothing
            &&& action::<C, S, O>(env, c, disconnected) is Nothing
        }),
{
}

/// A message is delivered as it is exactly to a peer that is connected; for another one, that
/// it is not connected is reported. A failure is reported as it is. What the coordinator
/// knows stays.
pub proof fn law_messages_and_failures<C, S, O>(
    env: Environment,
    c: CoordinatorView<O>,
    ip: SocketAddr,
    message: Message,
    failure: String,
    sending: Action<C, S>,
    failing: Action<C, S>,
)
    requires
        sending@ == action::<C, S, O>(
            env,
            c,
            CoordinatorRequest::<C, S, O>::MessageSend(ip, message)@,
        ),
        failing@ == action::<C, S, O>(
            env,
            c,
            CoordinatorRequest::<C, S, O>::Failure(ip, failure)@,
        ),
    ensures
        c.connected_peers.contains_key(ip) ==> (sending matches Action::Deliver {
            peer_ip,
            message: delivered,
        } && peer_ip == ip && delivered@ == message@),
        !c.connected_peers.contains_key(ip) ==> sending == (Action::<C, S>::NotConnected {
            peer_ip: ip,
        }),
        failing matches Action::ReportFailure { peer_ip, failure: reported } && peer_ip == ip
            && reported@ == failure@,
        updated(c, CoordinatorRequest::<C, S, O>::MessageSend(ip, message)@) == c,
        updated(c, CoordinatorRequest::<C, S, O>::Failure(ip, failure)@) == c,
{
}

/// A connection of a peer is accepted, on its stream, exactly if fewer peers are connected
/// than the maximum and this one is not. Where the maximum is reached it is refused for that,
/// also if the peer is connected, and else because the peer is connected.
pub proof fn law_connections_are_refused<C, S, O>(
    env: Environment,
    c: CoordinatorView<O>,
    stream: S,
    ip: SocketAddr,
    act: Action<C, S>,
)
    requires
        act@ == action::<C, S, O>(env, c, CoordinatorRequest::<C, S, O>::Connecting(stream, ip)@),
    ensures
        act == (Action::<C, S>::Accept { stream, peer_ip: ip }) <==> c.connected_peers.len()
            < env.maximum_number_of_peers && !c.connected_peers.contains_key(ip),
        act == (Action::<C, S>::Refuse { peer_ip: ip, refusal: Refusal::MaximumPeersReached })
            <==> c.connected_peers.len() >= env.maximum_number_of_peers,
        act == (Action::<C, S>::Refuse { peer_ip: ip, refusal: Refusal::AlreadyConnected })
            <==> c.connected_peers.len() < env.maximum_number_of_peers
            && c.connected_peers.contains_key(ip),
        updated(c, CoordinatorRequest::<C, S, O>::Connecting(stream, ip)@) == c,
{
}

/// A message is propagated unchanged, but for the block of an unconfirmed block: it is
/// propagated in its serialized form.
pub proof fn law_blocks_are_propagated_serialized(message: Message, propagated: Message)
    requires
        propagated@ == with_serialized_block(message@),
    ensures
        match message {
            Message::UnconfirmedBlock(height, hash, block) => {
                &&& propagated matches Message::UnconfirmedBlock(h, b, Data::Buffer(bytes))
                &&& h == height && b == hash
                &&& bytes@ == (match block {
                    Data::Object(value) => value.bytes@,
                    Data::Buffer(buffer) => buffer@,
                })
            },
            _ => propagated@ == message@,
        },
{
}

/// Each of the peers is disconnected by two requests, in the order of the peers: a
/// `Disconnect` message to it, then its removal; and there are no other requests.
pub proof fn law_disconnect_requests<C, S, O>(
    ips: Seq<SocketAddr>,
    requests: Seq<CoordinatorRequest<C, S, O>>,
    i: int,
)
    requires
        request_views(requests) == all_disconnect_requests::<C, S, O>(ips),
    ensures
        requests.len() == 2 * ips.len(),
        0 <= i < ips.len() ==> {
            &&& requests[2 * i] matches CoordinatorRequest::MessageSend(ip, Message::Disconnect)
                && ip == ips[i]
            &&& requests[2 * i + 1] matches CoordinatorRequest::Disconnected(ip) && ip == ips[i]
        },
{
    lemma_disconnect_requests_at::<C, S, O>(ips, i);
    let views = request_views(requests);
    assert(views.len() == requests.len());
    if 0 <= i < ips.len() {
        assert(views[2 * i] == requests[2 * i]@);
        assert(views[2 * i + 1] == requests[2 * i + 1]@);
    }
}

proof fn lemma_disconnect_requests_at<C, S, O>(ips: Seq<SocketAddr>, i: int)
    ensures
        ({
            let requests = all_disconnect_requests::<C, S, O>(ips);
            &&& requests.len() == 2 * ips.len()
            &&& 0 <= i < ips.len() ==> requests[2 * i] == RequestView::<C, S, O>::MessageSend(
                ips[i],
                MessageView::Disconnect,
            ) && requests[2 * i + 1] == RequestView::<C, S, O>::Disconnected(ips[i])
        }),
    decreases ips.len(),
{
    if ips.len() > 0 {
        let rest = ips.drop_last();
        lemma_disconnect_requests_at::<C, S, O>(rest, i);
        assert(all_disconnect_requests::<C, S, O>(ips) == all_disconnect_requests::<C, S, O>(rest)
            + disconnect_requests::<C, S, O>(ips.last()));
    }
}

/// One peer is disconnected by a `Disconnect` message to it, then its removal.
pub proof fn law_disconnect<C, S, O>(
    peer_ip: SocketAddr,
    requests: Seq<CoordinatorRequest<C, S, O>>,
)
    requires
        request_views(requests) == disconnect_requests::<C, S, O>(peer_ip),
    ensures
        requests.len() == 2,
        requests[0] matches CoordinatorRequest::MessageSend(ip, Message::Disconnect) && ip
            == peer_ip,
        requests[1] matches CoordinatorRequest::Disconnected(ip) && ip == peer_ip,
{
    let views = request_views(requests);
    assert(views.len() == requests.len());
    assert(views[0] == requests[0]@ && views[1] == requests[1]@);
}

/// A connection attempt of a peer is accepted only while there is room, and never
/// changes what the coordinator knows.
pub proof fn law_connecting<C, S, O>(
    env: Environment,
    c: CoordinatorView<O>,
    stream: S,
    ip: SocketAddr,
)
    ensures
        ({
            let request = RequestView::<C, S, O>::Connecting(stream, ip);
            let act = action::<C, S, O>(env, c, request);
            &&& updated(c, request) == c
            &&& act is Accept <==> c.connected_peers.len() < env.maximum_number_of_peers
                && !c.connected_peers.contains_key(ip)
            &&& act !is Accept ==> act is Refuse
        }),
{
}

/// A peer is connected exactly from `Connected` on until `Disconnected`, whatever is
/// requested of other peers in between; and it is then served messages.
pub proof fn law_connected_until_disconnected<C, S, O>(
    env: Environment,
    c: CoordinatorView<O>,
    ip: SocketAddr,
    node_type: NodeType,
    outbound: O,
    between: Seq<RequestView<C, S, O>>,
    message: MessageView,
)
    requires
        forall|i: int|
            0 <= i < between.len() ==> {
                &&& #[trigger] between[i] != RequestView::<C, S, O>::Disconnected(ip)
                &&& !(between[i] matches RequestView::Connected(other, _, _) && other == ip)
            },
    ensures
        ({
            let joined = run(
                updated(c, RequestView::<C, S, O>::Connected(ip, node_type, outbound)),
                between,
            );
            let left = updated(joined, RequestView::<C, S, O>::Disconnected(ip));
            let send = RequestView::<C, S, O>::MessageSend(ip, message);
            &&& joined.connected_peers.contains_key(ip)
            &&& joined.connected_peers[ip] == (node_type, outbound)
            &&& action::<C, S, O>(env, joined, send) == ActionView::<C, S>::Deliver(ip, message)
            &&& !left.connected_peers.contains_key(ip)
            &&& action::<C, S, O>(env, left, send) == ActionView::<C, S>::NotConnected(ip)
        }),
    decreases between.len(),
{
    if between.len() > 0 {
        let rest = between.drop_last();
        assert forall|i: int| 0 <= i < rest.len() implies ({
            &&& #[trigger] rest[i] != RequestView::<C, S, O>::Disconnected(ip)
            &&& !(rest[i] matches RequestView::Connected(other, _, _) && other == ip)
        }) by {
            assert(rest[i] == between[i]);
        }
        law_connected_until_disconnected(env, c, ip, node_type, outbound, rest, message);
        assert(between.last() == between[between.len() - 1]);
    }
}

/// An address that nothing connects does not become connected.
proof fn lemma_stays_disconnected<C, S, O>(
    c: CoordinatorView<O>,
    requests: Seq<RequestView<C, S, O>>,
    ip: SocketAddr,
)
    requires
        forall|i: int| 0 <= i < requests.len() ==> !(#[trigger] requests[i] is Connected),
        !c.connected_peers.contains_key(ip) || exists|i: int|
            0 <= i < requests.len() && requests[i] == RequestView::<C, S, O>::Disconnected(ip),
    ensures
        !run(c, requests).connected_peers.contains_key(ip),
    decreases requests.len(),
{
    if requests.len() > 0 {
        let rest = requests.drop_last();
        let gone = RequestView::<C, S, O>::Disconnected(ip);
        assert forall|i: int| 0 <= i < rest.len() implies !(#[trigger] rest[i] is Connected) by {
            assert(rest[i] == requests[i]);
        }
        assert(!(requests[requests.len() - 1] is Connected));
        if requests.last() != gone {
            if c.connected_peers.contains_key(ip) {
                let i = choose|i: int| 0 <= i < requests.len() && requests[i] == gone;
                assert(rest[i] == gone);
            }
            lemma_stays_disconnected(c, rest, ip);
        }
    }
}

/// Once each connected peer was disconnected, in whatever order and among whatever
/// other requests, no peer is connected, as long as none was connected meanwhile.
pub proof fn law_all_disconnected<C, S, O>(
    c: CoordinatorView<O>,
    requests: Seq<RequestView<C, S, O>>,
)
    requires
        forall|i: int| 0 <= i < requests.len() ==> !(#[trigger] requests[i] is Connected),
        forall|ip: SocketAddr| #[trigger]
            c.connected_peers.contains_key(ip) ==> requests.contains(
                RequestView::<C, S, O>::Disconnected(ip),
            ),
    ensures
        run(c, requests).connected_peers == Map::<SocketAddr, (NodeType, O)>::empty(),
{
    let after = run(c, requests).connected_peers;
    assert forall|ip: SocketAddr| !after.contains_key(ip) by {
        lemma_stays_disconnected(c, requests, ip);
    }
    assert(after =~= Map::<SocketAddr, (NodeType, O)>::empty());
}

proof fn lemma_all_disconnect_requests<C, S, O>(ips: Seq<SocketAddr>)
    ensures
        ({
            let requests = all_disconnect_requests::<C, S, O>(ips);
            &&& forall|i: int| 0 <= i < requests.len() ==> !(#[trigger] requests[i] is Connected)
            &&& forall|ip: SocketAddr| #[trigger]
                ips.contains(ip) ==> requests.contains(RequestView::<C, S, O>::Disconnected(ip))
        }),
    decreases ips.len(),
{
    if ips.len() > 0 {
        let rest = ips.drop_last();
        lemma_all_disconnect_requests::<C, S, O>(rest);
        let before = all_disconnect_requests::<C, S, O>(rest);
        let two = disconnect_requests::<C, S, O>(ips.last());
        let requests = all_disconnect_requests::<C, S, O>(ips);
        assert(requests == before + two);
        assert forall|ip: SocketAddr| #[trigger] ips.contains(ip) implies requests.contains(
            RequestView::<C, S, O>::Disconnected(ip),
        ) by {
            let gone = RequestView::<C, S, O>::Disconnected(ip);
            if ip == ips.last() {
                assert(requests[before.len() as int + 1] == gone);
            } else {
                let i = choose|i: int| 0 <= i < ips.len() && ips[i] == ip;
                assert(rest[i] == ip);
                assert(rest.contains(ip));
                assert(before.contains(gone));
                let j = choose|j: int| 0 <= j < before.len() && before[j] == gone;
                assert(requests[j] == gone);
            }
        }
    }
}

/// After the requests of a shut down, no peer is connected.
pub proof fn law_shut_down_disconnects_all<C, S, O>(
    c: CoordinatorView<O>,
    ips: Seq<SocketAddr>,
)
    requires
        ips.to_set() == c.connected_peers.dom(),
    ensures
        run(c, all_disconnect_requests::<C, S, O>(ips)).connected_peers == Map::<
            SocketAddr,
            (NodeType, O),
        >::empty(),
{
    lemma_all_disconnect_requests::<C, S, O>(ips);
    assert forall|ip: SocketAddr| #[trigger] c.connected_peers.contains_key(ip) implies ips.contains(
        ip,
    ) by {
        assert(ips.to_set().contains(ip));
    }
    law_all_disconnected(c, all_disconnect_requests::<C, S, O>(ips));
}

/// A peer keeps its address, and a peer that is dropped is left as it was.
pub proof fn law_peer_keeps_its_address(env: Environment, peer: PeerView, decoded: Decoded)
    ensures
        peer_after(env, peer, decoded).peer_ip == peer.peer_ip,
        verdict(env, decoded) is Err ==> peer_after(env, peer, decoded) == peer,
{
}

/// What is routed for a message of a peer names that peer, and is a block that the
/// peer sent or a failure; of a peer that is dropped nothing is routed.
pub proof fn law_requests_name_the_peer<C, S, O>(
    env: Environment,
    peer: PeerView,
    decoded: Decoded,
)
    ensures
        request_for::<C, S, O>(env, peer, decoded) matches Some(request) ==> {
            &&& verdict(env, decoded) is Ok
            &&& match request {
                RequestView::UnconfirmedBlock(ip, node_type, _) => ip == peer.peer_ip && node_type
                    == peer.node_type,
                RequestView::Failure(ip, _) => ip == peer.peer_ip,
                _ => false,
            }
        },
{
}

/// What is propagated to a peer is sent to it as it is: the block is serialized once.
pub proof fn law_propagated_messages_are_sent_unchanged(message: MessageView)
    requires
        message is UnconfirmedBlock,
    ensures
        sent(with_serialized_block(message)) == Some(with_serialized_block(message)),
{
}

/// A block that is announced matches its announcement: a node that decodes it from
/// the announcement routes the block itself, and no failure.
pub proof fn law_announcements_match_their_block<C, S, O>(
    env: Environment,
    peer: PeerView,
    block: Block,
    height: u32,
    hash: BlockHash,
)
    requires
        announcement(block@) matches MessageView::UnconfirmedBlock(h, b, _) && h == height && b
            == hash,
    ensures
        request_for::<C, S, O>(env, peer, Decoded::UnconfirmedBlock(height, hash, Ok(block)))
            == Some(
            RequestView::<C, S, O>::UnconfirmedBlock(peer.peer_ip, peer.node_type, block@),
        ),
{
}

/// The `Ping` of a node passes the checks of another node of the same network and version.
pub proof fn law_own_ping_is_accepted(env: Environment, message: Message)
    requires
        message matches Message::Ping(version, fork_depth, _, _, _, _) && version
            == env.message_version && fork_depth == env.maximum_fork_depth,
    ensures
        received(env, message) is Deferred,
{
}

} // verus!
