//! What holds of the handler of a peer, message by message.

use vstd::prelude::*;

use crate::block::{Block, BlockHash, BlockHeader};
use crate::block_locators::{BlockLocators, LocatorView};
use crate::coordinated_peer::{
    decodes, is_latest, latest_header, optional_view, peer_after, peer_error_text, ping_for,
    reaction, received, request_for, sent, verdict, Decoded, Deferred, Inbound, Peer, PeerError,
    PeerView, Reaction, Received,
};
use crate::coordinator::{CoordinatorRequest, Environment};
use crate::message::{Data, Message, NodeType, State};
use crate::text::{digits, number_text};

verus! {

/// A `Ping` is deferred exactly if its version is not below that of the node and its fork
/// depth is that of the network. A lower version is outdated, whatever the fork depth; of the
/// other ones, every other fork depth, smaller or greater, is incorrect.
pub proof fn law_pings_are_checked(
    env: Environment,
    version: u32,
    fork_depth: u32,
    node_type: NodeType,
    status: State,
    hash: BlockHash,
    header: Data<BlockHeader>,
)
    ensures
        ({
            let r = received(
                env,
                Message::Ping(version, fork_depth, node_type, status, hash, header),
            );
            &&& r is Deferred <==> version >= env.message_version && fork_depth
                == env.maximum_fork_depth
            &&& r is Deferred ==> r == Received::Deferred(
                Deferred::Ping(version, node_type, status, header),
            )
            &&& r == Received::Rejected(PeerError::OutdatedVersion(version)) <==> version
                < env.message_version
            &&& r == Received::Rejected(PeerError::IncorrectForkDepth(fork_depth)) <==> version
                >= env.message_version && fork_depth != env.maximum_fork_depth
        }),
{
}

/// Every `Pong`, block response and unconfirmed block has its part decoded, in every
/// environment, and the claims of an unconfirmed block go with it.
pub proof fn law_parts_are_decoded(
    env: Environment,
    is_fork: Option<bool>,
    locators: Data<BlockLocators>,
    height: u32,
    hash: BlockHash,
    block: Data<Block>,
)
    ensures
        received(env, Message::Pong(is_fork, locators)) == Received::Deferred(
            Deferred::Pong(locators),
        ),
        received(env, Message::BlockResponse(block)) == Received::Deferred(
            Deferred::BlockResponse(block),
        ),
        received(env, Message::UnconfirmedBlock(height, hash, block)) == Received::Deferred(
            Deferred::UnconfirmedBlock(height, hash, block),
        ),
{
}

/// A message is ignored exactly if it is one of the others. One that is out of place
/// rejects the peer for that, and a `Disconnect` because the peer disconnected.
pub proof fn law_messages_out_of_place(env: Environment, message: Message)
    ensures
        received(env, message) is Ignored <==> message is Other,
        received(env, message) == Received::Rejected(PeerError::Disconnected) <==> message
            is Disconnect,
        received(env, message) == Received::Rejected(PeerError::NotFollowingProtocol) <==> (message
            is ChallengeRequest || message is ChallengeResponse || message is Unused),
        received(env, message) != Received::Rejected(PeerError::NotV12Compliant),
        received(env, message) is Deferred ==> message is Ping || message is Pong || message
            is BlockResponse || message is UnconfirmedBlock,
{
}

/// The handler stops exactly at the end of the stream or at a message that rejects the
/// peer, for that reason; it goes on at what is not a message and at a message that is ignored;
/// and it has the part of every other message decoded.
pub proof fn law_handler_stops(
    env: Environment,
    message: Message,
    error: PeerError,
    deferred: Deferred,
)
    ensures
        reaction(env, Inbound::Closed) == Reaction::Stop(None),
        reaction(env, Inbound::Unreadable) == Reaction::Continue,
        reaction(env, Inbound::Message(message)) is Continue <==> message is Other,
        reaction(env, Inbound::Message(message)) == Reaction::Stop(Some(error)) <==> received(
            env,
            message,
        ) == Received::Rejected(error),
        reaction(env, Inbound::Message(message)) == Reaction::Decode(deferred) <==> received(
            env,
            message,
        ) == Received::Deferred(deferred),
        reaction(env, Inbound::Message(message)) != Reaction::Stop(None),
{
}

/// A peer is dropped for its ledger exactly if it sent, on the second testnet, a readable
/// header in a `Ping` or a readable block in a block response that is above the height of the
/// upgrade and has a hiding proof.
pub proof fn law_hiding_proofs_after_the_upgrade(env: Environment, decoded: Decoded)
    ensures
        verdict(env, decoded) == Err::<(), PeerError>(PeerError::NotV12Compliant) <==> {
            ||| decoded matches Decoded::Ping(_, _, _, Ok(header)) && env.network_id == 2
                && header.height > 100_000 && header.is_hiding
            ||| decoded matches Decoded::BlockResponse(Ok(block)) && env.network_id == 2
                && block.height > 100_000 && block.is_hiding
        },
        verdict(env, decoded) is Ok || verdict(env, decoded) == Err::<(), PeerError>(
            PeerError::NotV12Compliant,
        ),
{
}

/// A readable block of a block response is routed as an unconfirmed block of the peer, unless
/// it has a hiding proof after the upgrade on the second testnet: then nothing is routed. One
/// that is not hiding is always routed. An unreadable one is routed as a failure, with the
/// reason.
pub proof fn law_block_responses_are_routed<C, S, O>(
    env: Environment,
    peer: PeerView,
    block: Block,
    error: String,
    for_block: Option<CoordinatorRequest<C, S, O>>,
    for_error: Option<CoordinatorRequest<C, S, O>>,
)
    requires
        optional_view(for_block) == request_for::<C, S, O>(
            env,
            peer,
            Decoded::BlockResponse(Ok(block)),
        ),
        optional_view(for_error) == request_for::<C, S, O>(
            env,
            peer,
            Decoded::BlockResponse(Err(error)),
        ),
    ensures
        !block.is_hiding || block.height <= 100_000 || env.network_id != 2 ==> {
            &&& for_block matches Some(CoordinatorRequest::UnconfirmedBlock(ip, node_type, routed))
            &&& ip == peer.peer_ip
            &&& node_type == peer.node_type
            &&& routed@ == block@
            &&& verdict(env, Decoded::BlockResponse(Ok(block))) is Ok
        },
        block.is_hiding && block.height > 100_000 && env.network_id == 2 ==> for_block is None,
        for_error matches Some(CoordinatorRequest::Failure(ip, failure)) && ip == peer.peer_ip
            && failure@ == error@,
        verdict(env, Decoded::BlockResponse(Err(error))) is Ok,
        peer_after(env, peer, Decoded::BlockResponse(Ok(block))) == peer,
        peer_after(env, peer, Decoded::BlockResponse(Err(error))) == peer,
{
}

/// A readable unconfirmed block is routed as one of the peer exactly if it has the height and
/// the hash that the peer claims, whatever its proof; otherwise the message is malformed. An
/// unreadable one is routed as a failure, with the reason. The peer is kept as it is.
pub proof fn law_unconfirmed_blocks_match_their_claim<C, S, O>(
    env: Environment,
    peer: PeerView,
    height: u32,
    hash: BlockHash,
    block: Block,
    error: String,
    for_block: Option<CoordinatorRequest<C, S, O>>,
    for_error: Option<CoordinatorRequest<C, S, O>>,
)
    requires
        optional_view(for_block) == request_for::<C, S, O>(
            env,
            peer,
            Decoded::UnconfirmedBlock(height, hash, Ok(block)),
        ),
        optional_view(for_error) == request_for::<C, S, O>(
            env,
            peer,
            Decoded::UnconfirmedBlock(height, hash, Err(error)),
        ),
    ensures
        height == block.height && hash == block.hash ==> {
            &&& for_block matches Some(CoordinatorRequest::UnconfirmedBlock(ip, node_type, routed))
            &&& ip == peer.peer_ip
            &&& node_type == peer.node_type
            &&& routed@ == block@
        },
        height != block.height || hash != block.hash ==> {
            &&& for_block matches Some(CoordinatorRequest::Failure(ip, failure))
            &&& ip == peer.peer_ip
            &&& failure@ == "Malformed UnconfirmedBlock message"@
        },
        for_error matches Some(CoordinatorRequest::Failure(ip, failure)) && ip == peer.peer_ip
            && failure@ == error@,
        verdict(env, Decoded::UnconfirmedBlock(height, hash, Ok(block))) is Ok,
        verdict(env, Decoded::UnconfirmedBlock(height, hash, Err(error))) is Ok,
        peer_after(env, peer, Decoded::UnconfirmedBlock(height, hash, Ok(block))) == peer,
        peer_after(env, peer, Decoded::UnconfirmedBlock(height, hash, Err(error))) == peer,
{
}

/// After a `Ping` of a peer that is kept, the version, the kind and the status of the peer are
/// those of the `Ping`, also where its header could not be read; the header is that of the `Ping`
/// where it could be read, and the one before where not. A peer that is dropped stays as it was.
/// Nothing is routed.
pub proof fn law_pings_update_the_peer<C, S, O>(
    env: Environment,
    before: Peer,
    after: Peer,
    version: u32,
    node_type: NodeType,
    status: State,
    header: Result<BlockHeader, String>,
    routed: Option<CoordinatorRequest<C, S, O>>,
)
    requires
        after@ == peer_after(env, before@, Decoded::Ping(version, node_type, status, header)),
        optional_view(routed) == request_for::<C, S, O>(
            env,
            before@,
            Decoded::Ping(version, node_type, status, header),
        ),
    ensures
        routed is None,
        after.peer_ip == before.peer_ip,
        header matches Ok(h) ==> !(env.network_id == 2 && h.height > 100_000 && h.is_hiding) ==> {
            &&& after.version == version
            &&& after.node_type == node_type
            &&& after.status == status
            &&& after.block_header.height == h.height
            &&& after.block_header.cumulative_weight == h.cumulative_weight
            &&& after.block_header@ == h@
        },
        header matches Ok(h) ==> env.network_id == 2 && h.height > 100_000 && h.is_hiding ==> {
            &&& after.version == before.version
            &&& after.node_type == before.node_type
            &&& after.status == before.status
            &&& after.block_header@ == before.block_header@
        },
        header is Err ==> {
            &&& after.version == version
            &&& after.node_type == node_type
            &&& after.status == status
            &&& after.block_header@ == before.block_header@
        },
{
}

/// The header that a `Pong` tells is the one at a height that is located and that no located
/// height exceeds, if a header is located there; where nothing is located, there is none.
pub proof fn law_latest_header(m: Map<u32, LocatorView>, height: u32)
    ensures
        m.contains_key(height) && (forall|other: u32| #[trigger]
            m.contains_key(other) ==> other <= height) ==> latest_header(m) == m[height].header,
        (forall|other: u32| !#[trigger] m.contains_key(other)) ==> latest_header(m) is None,
{
    if m.contains_key(height) && (forall|other: u32| #[trigger]
        m.contains_key(other) ==> other <= height) {
        assert(is_latest(m, height));
        let found = choose|h: u32| is_latest(m, h);
        assert(is_latest(m, found));
        assert(found <= height && height <= found);
    }
}

/// After a `Pong` that could be read, the peer has the header at the greatest located height,
/// if one is located there, and is else as before: nothing else of it changes, and nothing is
/// routed. After one that could not be read, the peer is as before, and the reason is routed
/// as a failure. Either way the peer is kept.
pub proof fn law_pongs_update_the_header<C, S, O>(
    env: Environment,
    before: Peer,
    after: Peer,
    locators: BlockLocators,
    height: u32,
    error: String,
    for_locators: Option<CoordinatorRequest<C, S, O>>,
    for_error: Option<CoordinatorRequest<C, S, O>>,
)
    requires
        after@ == peer_after(env, before@, Decoded::Pong(Ok(locators))),
        optional_view(for_locators) == request_for::<C, S, O>(
            env,
            before@,
            Decoded::Pong(Ok(locators)),
        ),
        optional_view(for_error) == request_for::<C, S, O>(
            env,
            before@,
            Decoded::Pong(Err(error)),
        ),
        locators@.contains_key(height),
        forall|other: u32| #[trigger] locators@.contains_key(other) ==> other <= height,
    ensures
        after.block_header@ == (match locators@[height].header {
            Some(header) => header,
            None => before.block_header@,
        }),
        after.peer_ip == before.peer_ip,
        after.version == before.version,
        after.node_type == before.node_type,
        after.status == before.status,
        for_locators is None,
        for_error matches Some(CoordinatorRequest::Failure(ip, failure)) && ip == before.peer_ip
            && failure@ == error@,
        peer_after(env, before@, Decoded::Pong(Err(error))) == before@,
        verdict(env, Decoded::Pong(Ok(locators))) is Ok,
        verdict(env, Decoded::Pong(Err(error))) is Ok,
{
    law_latest_header(locators@, height);
}

/// A `Pong` that locates nothing leaves the peer as it was, and nothing is routed.
pub proof fn law_empty_pongs<C, S, O>(env: Environment, peer: PeerView, locators: BlockLocators)
    requires
        forall|other: u32| !#[trigger] locators@.contains_key(other),
    ensures
        peer_after(env, peer, Decoded::Pong(Ok(locators))) == peer,
        request_for::<C, S, O>(env, peer, Decoded::Pong(Ok(locators))) is None,
        verdict(env, Decoded::Pong(Ok(locators))) is Ok,
{
    law_latest_header(locators@, 0);
}

/// The peer is sent a `Ping` after the sleep of the environment exactly if it sent
/// a `Pong`, whether that could be read or not; and every `Pong` comes to that.
pub proof fn law_pongs_are_answered_with_pings(
    env: Environment,
    decoded: Decoded,
    is_fork: Option<bool>,
    locators: Data<BlockLocators>,
    result: Result<BlockLocators, String>,
)
    ensures
        ping_for(env, decoded) is Some <==> decoded is Pong,
        ping_for(env, decoded) matches Some(seconds) ==> seconds == env.ping_sleep_in_secs,
        received(env, Message::Pong(is_fork, locators)) == Received::Deferred(
            Deferred::Pong(locators),
        ),
        ping_for(env, Decoded::Pong(result)) == Some(env.ping_sleep_in_secs),
{
}

/// A message is sent to a peer exactly if it is a `Ping` or an unconfirmed block. It is
/// sent with its part serialized, and is otherwise unchanged.
pub proof fn law_only_pings_and_blocks_are_sent(message: Message, ready: Message)
    ensures
        sent(message@) is Some <==> message is Ping || message is UnconfirmedBlock,
        sent(message@) == Some(ready@) ==> match message {
            Message::Ping(version, fork_depth, node_type, status, hash, header) => {
                &&& ready matches Message::Ping(v, f, n, s, h, Data::Buffer(bytes))
                &&& v == version && f == fork_depth && n == node_type && s == status && h == hash
                &&& bytes@ == (match header {
                    Data::Object(value) => value.bytes@,
                    Data::Buffer(buffer) => buffer@,
                })
            },
            Message::UnconfirmedBlock(height, hash, block) => {
                &&& ready matches Message::UnconfirmedBlock(h, b, Data::Buffer(bytes))
                &&& h == height && b == hash
                &&& bytes@ == (match block {
                    Data::Object(value) => value.bytes@,
                    Data::Buffer(buffer) => buffer@,
                })
            },
            _ => false,
        },
{
}

/// The text of an error names the peer and says why it is dropped; a number in it is
/// written in decimal notation.
pub proof fn law_error_texts(peer_ip: Seq<char>, number: u32)
    ensures
        peer_error_text(PeerError::OutdatedVersion(number), peer_ip) == "Dropping "@ + peer_ip
            + " on version "@ + digits(number as nat) + " (outdated)"@,
        peer_error_text(PeerError::IncorrectForkDepth(number), peer_ip) == "Dropping "@ + peer_ip
            + " for an incorrect maximum fork depth of "@ + digits(number as nat),
        peer_error_text(PeerError::NotV12Compliant, peer_ip) == "Peer "@ + peer_ip
            + " is not V12-compliant, proceeding to disconnect"@,
        peer_error_text(PeerError::NotFollowingProtocol, peer_ip) == "Peer "@ + peer_ip
            + " is not following the protocol"@,
        peer_error_text(PeerError::Disconnected, peer_ip) == "Peer "@ + peer_ip + " disconnected"@,
        number_text(number as int) == digits(number as nat),
{
}

/// A part that is not serialized is decoded to itself, and never fails; a serialized one
/// is decoded to what decoding its bytes comes to.
pub proof fn law_parts_decode<T, F: FnOnce(Vec<u8>) -> Result<T, String>>(
    decode: F,
    value: T,
    bytes: Vec<u8>,
    result: Result<T, String>,
)
    ensures
        decodes(decode, Data::Object(value), result) <==> result == Ok::<T, String>(value),
        decodes(decode, Data::<T>::Buffer(bytes), result) <==> decode.ensures((bytes,), result),
{
}

} // verus!
