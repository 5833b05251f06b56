//! What the values that functions take and give stand for: each part of a value is told, and
//! none is changed.

use vstd::prelude::*;

use crate::block::{Block, BlockHash, BlockHeader};
use crate::block_locators::{
    entries_view, locators_view, raw_of, raw_views, raws_of, LocatorView, RawLocator,
};
use crate::coordinated_peer::{optional_view, Peer};
use crate::coordinator::{request_views, Action, ActionView, CoordinatorRequest, RequestView};
use crate::json::optional_text;
use crate::message::{Data, DataView, Message, MessageView, SocketAddr};
use crate::rpc::{
    ascii_text, id_view, is_header_text, texts, Argument, ArgumentView, Id, IdView, Params,
    ParamsView, Plan, PlanView, Request, Response, RpcError, Step, StepView,
};

verus! {

/// A block hash is told by its bytes, and a block or header by each of its fields.
pub proof fn law_blocks_are_told_by_their_fields(hash: BlockHash, header: BlockHeader, block: Block)
    ensures
        hash@ == hash.bytes@,
        header@.height == header.height,
        header@.cumulative_weight == header.cumulative_weight,
        header@.is_hiding == header.is_hiding,
        header@.bytes == header.bytes@,
        header@.wf() <==> header.bytes@.len() == 903,
        block@.height == block.height,
        block@.hash == block.hash,
        block@.cumulative_weight == block.cumulative_weight,
        block@.is_hiding == block.is_hiding,
        block@.is_valid == block.is_valid,
        block@.bytes == block.bytes@,
{
}

/// The part of a message is told by its value or its bytes.
pub proof fn law_parts_are_told<T: View>(part: Data<T>)
    ensures
        match part {
            Data::Object(value) => part@ == DataView::Object(value@),
            Data::Buffer(bytes) => part@ == DataView::<T::V>::Buffer(bytes@),
        },
{
}

/// Serializing gives the bytes of the value, or the bytes that are there.
pub proof fn law_serialized_form(header: Data<BlockHeader>, block: Data<Block>)
    ensures
        header matches Data::Object(value) ==> Data::<BlockHeader>::serialized(header@)
            == value.bytes@,
        header matches Data::Buffer(bytes) ==> Data::<BlockHeader>::serialized(header@) == bytes@,
        block matches Data::Object(value) ==> Data::<Block>::serialized(block@) == value.bytes@,
        block matches Data::Buffer(bytes) ==> Data::<Block>::serialized(block@) == bytes@,
{
}

/// A message is told by its kind and each of its fields.
pub proof fn law_messages_are_told(message: Message)
    ensures
        match message {
            Message::BlockResponse(block) => message@ == MessageView::BlockResponse(block@),
            Message::ChallengeRequest => message@ == MessageView::ChallengeRequest,
            Message::ChallengeResponse => message@ == MessageView::ChallengeResponse,
            Message::Disconnect => message@ == MessageView::Disconnect,
            Message::Ping(version, fork_depth, node_type, status, hash, header) => message@
                == MessageView::Ping(version, fork_depth, node_type, status, hash, header@),
            Message::Pong(is_fork, locators) => message@ == MessageView::Pong(is_fork, locators@),
            Message::UnconfirmedBlock(height, hash, block) => message@
                == MessageView::UnconfirmedBlock(height, hash, block@),
            Message::Unused => message@ == MessageView::Unused,
            Message::Other => message@ == MessageView::Other,
        },
{
}

/// A peer is told by each of its fields.
pub proof fn law_peers_are_told(peer: Peer)
    ensures
        peer@.peer_ip == peer.peer_ip,
        peer@.version == peer.version,
        peer@.node_type == peer.node_type,
        peer@.status == peer.status,
        peer@.block_header == peer.block_header@,
{
}

/// A request to the coordinator is told by its kind and each of its fields.
pub proof fn law_requests_are_told<C, S, O>(
    request: CoordinatorRequest<C, S, O>,
    requests: Seq<CoordinatorRequest<C, S, O>>,
    i: int,
)
    ensures
        match request {
            CoordinatorRequest::Connect(ip, result) => request@ == RequestView::<C, S, O>::Connect(
                ip,
                result,
            ),
            CoordinatorRequest::Connecting(stream, ip) => request@ == RequestView::<
                C,
                S,
                O,
            >::Connecting(stream, ip),
            CoordinatorRequest::Connected(ip, node_type, outbound) => request@ == RequestView::<
                C,
                S,
                O,
            >::Connected(ip, node_type, outbound),
            CoordinatorRequest::Disconnected(ip) => request@ == RequestView::<
                C,
                S,
                O,
            >::Disconnected(ip),
            CoordinatorRequest::MessageSend(ip, message) => request@ == RequestView::<
                C,
                S,
                O,
            >::MessageSend(ip, message@),
            CoordinatorRequest::Failure(ip, failure) => request@ == RequestView::<C, S, O>::Failure(
                ip,
                failure@,
            ),
            CoordinatorRequest::UnconfirmedBlock(ip, node_type, block) => request@ == RequestView::<
                C,
                S,
                O,
            >::UnconfirmedBlock(ip, node_type, block@),
        },
        optional_view(Some(request)) == Some(request@),
        optional_view(None::<CoordinatorRequest<C, S, O>>) == None::<RequestView<C, S, O>>,
        request_views(requests).len() == requests.len(),
        0 <= i < requests.len() ==> request_views(requests)[i] == requests[i]@,
{
}

/// An action is told by its kind and each of its fields; of the peers that a message is
/// propagated to, by which they are.
pub proof fn law_actions_are_told<C, S>(action: Action<C, S>, ip: SocketAddr)
    ensures
        match action {
            Action::Nothing => action@ == ActionView::<C, S>::Nothing,
            Action::Dial { peer_ip, timeout_in_millis, connection_result } => action@
                == ActionView::<C, S>::Dial(peer_ip, timeout_in_millis, connection_result),
            Action::Accept { stream, peer_ip } => action@ == ActionView::<C, S>::Accept(
                stream,
                peer_ip,
            ),
            Action::Refuse { peer_ip, refusal } => action@ == ActionView::<C, S>::Refuse(
                peer_ip,
                refusal,
            ),
            Action::Deliver { peer_ip, message } => action@ == ActionView::<C, S>::Deliver(
                peer_ip,
                message@,
            ),
            Action::NotConnected { peer_ip } => action@ == ActionView::<C, S>::NotConnected(
                peer_ip,
            ),
            Action::ReportFailure { peer_ip, failure } => action@ == ActionView::<
                C,
                S,
            >::ReportFailure(peer_ip, failure@),
            Action::InvalidBlock { height, hash } => action@ == ActionView::<C, S>::InvalidBlock(
                height,
                hash,
            ),
            Action::StaleBlock { height, hash, cumulative_weight, peer_ip } => action@
                == ActionView::<C, S>::StaleBlock(height, hash, cumulative_weight, peer_ip),
            Action::Propagate { targets, message } => action@ matches ActionView::Propagate(
                served,
                told,
            ) && told == message@ && (served.contains(ip) <==> targets@.contains(ip)),
        },
{
}

/// What block locators hold is told by the map that they are made of, height by height.
pub proof fn law_locators_are_told(
    map: Map<u32, (BlockHash, Option<BlockHeader>)>,
    height: u32,
    entries: Seq<(u32, BlockHash, Option<BlockHeader>)>,
    i: int,
)
    ensures
        locators_view(map).contains_key(height) <==> map.contains_key(height),
        map.contains_key(height) ==> {
            let located = locators_view(map)[height];
            &&& located.hash == map[height].0.bytes@
            &&& match map[height].1 {
                Some(header) => located.header == Some(header@),
                None => located.header is None,
            }
        },
        entries_view(entries).len() == entries.len(),
        0 <= i < entries.len() ==> {
            let located = entries_view(entries)[i];
            &&& located.0 == entries[i].0
            &&& located.1.hash == entries[i].1.bytes@
            &&& match entries[i].2 {
                Some(header) => located.1.header == Some(header@),
                None => located.1.header is None,
            }
        },
{
}

/// Entries that are read are told by height, hash and the bytes of the header; what is read of
/// an entry that was written has the same height, hash and bytes.
pub proof fn law_raw_locators_are_told(
    raw: RawLocator,
    raws: Seq<RawLocator>,
    written: Seq<(u32, LocatorView)>,
    i: int,
)
    ensures
        raw@.height == raw.height,
        raw@.hash == raw.hash.bytes@,
        match raw.header {
            Some(bytes) => raw@.header == Some(bytes@),
            None => raw@.header is None,
        },
        raw_views(raws).len() == raws.len(),
        0 <= i < raws.len() ==> raw_views(raws)[i] == raws[i]@,
        raws_of(written).len() == written.len(),
        0 <= i < written.len() ==> {
            let read = raws_of(written)[i];
            &&& read == raw_of(written[i].0, written[i].1)
            &&& read.height == written[i].0
            &&& read.hash == written[i].1.hash
            &&& match written[i].1.header {
                Some(header) => read.header == Some(header.bytes),
                None => read.header is None,
            }
        },
{
}

/// A request to the endpoint is told by its method, parameters and identifier.
pub proof fn law_rpc_requests_are_told(request: Request, params: Params, id: Id, i: int)
    ensures
        request@.method == request.method@,
        match request.params {
            Some(p) => request@.params == Some(p@),
            None => request@.params is None,
        },
        request@.id == id_view(request.id),
        match params {
            Params::Absent => params@ == ParamsView::Absent,
            Params::List(values) => params@ matches ParamsView::List(list) && list.len()
                == values@.len() && (0 <= i < list.len() ==> list[i] == values@[i]@),
            Params::Object(object) => params@ == ParamsView::Object(object@),
        },
        id_view(Some(id)) == Some(id@),
        id_view(None) == None::<IdView>,
        match id {
            Id::Num(number) => id@ == IdView::Num(number),
            Id::Str(text) => id@ == IdView::Str(text@),
        },
{
}

/// Texts are told one by one, in their order.
pub proof fn law_texts_are_told(strings: Seq<String>, text: String, i: int)
    ensures
        texts(strings).len() == strings.len(),
        0 <= i < strings.len() ==> texts(strings)[i] == strings[i]@,
        optional_text(Some(text)) == Some(text@),
        optional_text(None) == None::<Seq<char>>,
{
}

/// An answer is told by its version, its result or error, and its identifier.
pub proof fn law_responses_are_told(response: Response, error: RpcError)
    ensures
        response@.jsonrpc == response.jsonrpc,
        match response.payload {
            Ok(result) => response@.payload matches Ok(text) && text == result@,
            Err(e) => response@.payload matches Err(told) && told == e@,
        },
        response@.id == id_view(response.id),
        error@.code == error.code,
        error@.message == error.message@,
        match error.data {
            Some(data) => error@.data == Some(data@),
            None => error@.data is None,
        },
{
}

/// A plan and a step are told by their kind and each of their fields.
pub proof fn law_plans_are_told(plan: Plan, step: Step, argument: Argument)
    ensures
        match plan {
            Plan::Answer(response) => plan@ == PlanView::Answer(response@),
            Plan::Call { id, method, argument } => plan@ == PlanView::Call(
                id_view(id),
                method,
                argument@,
            ),
        },
        match step {
            Step::Respond(bytes) => step@ == StepView::Respond(bytes@),
            Step::Call { id, method, argument } => step@ == StepView::Call(
                id_view(id),
                method,
                argument@,
            ),
            Step::MissingParameter => step@ == StepView::MissingParameter,
        },
        match argument {
            Argument::Nothing => argument@ == ArgumentView::Nothing,
            Argument::Height(height) => argument@ == ArgumentView::Height(height),
            Argument::Heights(first, last) => argument@ == ArgumentView::Heights(first, last),
            Argument::Value(value) => argument@ == ArgumentView::Value(value@),
            Argument::Text(text) => argument@ == ArgumentView::Text(text@),
        },
{
}

/// A header value is a text exactly if each of its bytes is a visible ASCII character, a space or
/// a tab, and the text has these characters in their order.
pub proof fn law_header_texts(byte: u8, bytes: Seq<u8>, i: int)
    ensures
        is_header_text(byte) <==> 32 <= byte < 127 || byte == 9,
        ascii_text(bytes).len() == bytes.len(),
        0 <= i < bytes.len() ==> ascii_text(bytes)[i] == bytes[i] as char,
{
}

} // verus!
