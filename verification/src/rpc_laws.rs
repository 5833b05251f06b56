//! What holds of the answers of the RPC endpoint.

use vstd::prelude::*;
use vstd::utf8::encode_utf8;

use crate::json::{json_string, json_u32};
use crate::rpc::{
    argument_of, core_description, crate_error, decoded_request, encoded_response, error_response,
    error_text, expected, expects_params, has_enough_params, id_text, id_wf,
    law_method_names_differ, method_name, method_named, outcome_response, parse_error, planned,
    read_params_of, standard_error, step_for, ArgumentView, Body, ErrorView, Expected, IdView,
    Method, ParamsView, PlanView, ResponseView, RpcRequestView, StepView, Version, INVALID_PARAMS,
    METHOD_NOT_FOUND,
};
use crate::text::{digits, number_text, quoted};

verus! {

/// A method is found by its name, and by no other text.
pub proof fn law_methods_are_found_by_name(method: Method, name: Seq<char>)
    ensures
        method_named(name) == Some(method) <==> name == method_name(method),
{
    let found = choose|m: Method| method_name(m) == name;
    if name == method_name(method) {
        assert(method_name(found) == name);
        law_method_names_differ(found, method);
    }
}

/// The methods that expect parameters are those that take something from them.
pub proof fn law_methods_expecting_params(name: Seq<char>)
    ensures
        expects_params(name) <==> (method_named(name) matches Some(method) && expected(method)
            != Expected::Nothing),
{
    if expects_params(name) {
        let method = choose|m: Method| method_name(m) == name && expected(m) != Expected::Nothing;
        law_methods_are_found_by_name(method, name);
    }
    if let Some(method) = method_named(name) {
        law_methods_are_found_by_name(method, name);
    }
}

/// Whatever is done about a request, its identifier goes with it, and an answer
/// that is given at once is an error.
pub proof fn law_identifier_goes_with_the_request(request: RpcRequestView)
    ensures
        match planned(request) {
            PlanView::Answer(response) => response.id == request.id && response.payload is Err,
            PlanView::Call(id, _, _) => id == request.id,
        },
{
}

/// The answer to a call carries the version and the identifier that went with the
/// call. It is a result exactly if the method gave one: the text of the result, or `null` where
/// it has none.
pub proof fn law_outcome_carries_the_identifier(
    result: Result<Option<Seq<char>>, Seq<char>>,
    id: Option<IdView>,
)
    ensures
        ({
            let response = outcome_response(result, id);
            &&& response.jsonrpc == Version::V2
            &&& response.id == id
            &&& response.payload is Ok <==> result is Ok
            &&& result matches Ok(Some(text)) ==> response.payload == Ok::<Seq<char>, ErrorView>(
                text,
            )
            &&& result matches Ok(None) ==> response.payload == Ok::<Seq<char>, ErrorView>("null"@)
        }),
{
}

/// A request for an unknown method is answered with the error for that, whatever its parameters.
pub proof fn law_unknown_method(request: RpcRequestView)
    requires
        method_named(request.method) is None,
    ensures
        planned(request) == PlanView::Answer(
            error_response(standard_error(METHOD_NOT_FOUND), request.id),
        ),
{
    law_methods_expecting_params(request.method);
}

/// A request for a method that expects parameters is answered with the error for
/// that exactly if it does not have a list of them that is not empty.
pub proof fn law_missing_params(request: RpcRequestView)
    requires
        expects_params(request.method),
    ensures
        planned(request) == PlanView::Answer(
            error_response(standard_error(INVALID_PARAMS), request.id),
        ) <==> !(request.params matches Some(ParamsView::List(values)) && values.len() > 0),
{
    assert(standard_error(INVALID_PARAMS).code != standard_error(METHOD_NOT_FOUND).code);
    assert(standard_error(INVALID_PARAMS).code != parse_error(
        "Invalid block height!"@,
        None,
    ).code);
}

/// A method that takes nothing is called whatever the parameters are.
pub proof fn law_params_are_ignored(request: RpcRequestView, method: Method)
    requires
        request.method == method_name(method),
        expected(method) == Expected::Nothing,
    ensures
        has_enough_params(request),
        planned(request) == PlanView::Call(request.id, method, ArgumentView::Nothing),
{
    law_methods_are_found_by_name(method, request.method);
    law_methods_expecting_params(request.method);
}

/// A method that takes something is called with what it takes from the parameters, or
/// the request is answered with the error for an invalid block height; parameters
/// past those that the method takes make no difference.
pub proof fn law_params_are_taken(request: RpcRequestView, method: Method, values: Seq<Seq<char>>)
    requires
        request.method == method_name(method),
        expected(method) != Expected::Nothing,
        request.params == Some(ParamsView::List(values)),
        values.len() >= 1,
        expected(method) == Expected::Heights ==> values.len() >= 2,
    ensures
        has_enough_params(request),
        planned(request) == match argument_of(method, values) {
            Some(argument) => PlanView::Call(request.id, method, argument),
            None => PlanView::Answer(
                error_response(parse_error("Invalid block height!"@, None), request.id),
            ),
        },
        argument_of(method, values) == argument_of(
            method,
            values.take(
                if expected(method) == Expected::Heights {
                    2
                } else {
                    1
                },
            ),
        ),
{
    law_methods_are_found_by_name(method, request.method);
    law_methods_expecting_params(request.method);
}

/// A request that is refused is answered with the text of its error and of its identifier.
pub proof fn law_refusals_to_the_letter(request: RpcRequestView)
    ensures
        planned(request) matches PlanView::Answer(response) ==> response.payload matches Err(error)
            && encoded_response(response) == encode_utf8(
            "{\"jsonrpc\":"@ + "\"2.0\""@ + (",\"error\":"@ + error_text(error)) + ",\"id\":"@
                + id_text(request.id) + "}"@,
        ),
{
}

/// A body that is not a request, or of which nothing could be read, is answered with
/// the text of the error for that, and with no identifier.
pub proof fn law_no_request_to_the_letter(data: Vec<u8>)
    ensures
        decoded_request(data@) is None ==> step_for(Body::Data(data)) == StepView::Respond(
            encode_utf8(
                "{\"jsonrpc\":"@ + "\"2.0\""@ + (",\"error\":"@ + error_text(
                    parse_error("Couldn't parse the RPC body"@, None),
                )) + ",\"id\":"@ + "null"@ + "}"@,
            ),
        ),
        step_for(Body::Empty) == StepView::Respond(
            encode_utf8(
                "{\"jsonrpc\":"@ + "\"2.0\""@ + (",\"error\":"@ + error_text(
                    parse_error("Couldn't read the RPC body"@, None),
                )) + ",\"id\":"@ + "null"@ + "}"@,
            ),
        ),
{
}

/// A call is answered with the text of its result, or of what went wrong, and of its identifier.
pub proof fn law_outcomes_to_the_letter(
    result: Result<Option<Seq<char>>, Seq<char>>,
    id: Option<IdView>,
)
    ensures
        encoded_response(outcome_response(result, id)) == encode_utf8(
            "{\"jsonrpc\":"@ + "\"2.0\""@ + (match result {
                Ok(Some(text)) => ",\"result\":"@ + text,
                Ok(None) => ",\"result\":"@ + "null"@,
                Err(text) => ",\"error\":"@ + error_text(crate_error(text)),
            }) + ",\"id\":"@ + id_text(id) + "}"@,
        ),
{
}

/// Each method is found by its own name.
pub proof fn law_methods_by_their_names(name: Seq<char>)
    ensures
        method_named(name) == Some(Method::LatestBlock) <==> name == "latestblock"@,
        method_named(name) == Some(Method::LatestBlockHeight) <==> name == "latestblockheight"@,
        method_named(name) == Some(Method::LatestCumulativeWeight) <==> name
            == "latestcumulativeweight"@,
        method_named(name) == Some(Method::LatestBlockHash) <==> name == "latestblockhash"@,
        method_named(name) == Some(Method::LatestBlockHeader) <==> name == "latestblockheader"@,
        method_named(name) == Some(Method::LatestBlockTransactions) <==> name
            == "latestblocktransactions"@,
        method_named(name) == Some(Method::LatestLedgerRoot) <==> name == "latestledgerroot"@,
        method_named(name) == Some(Method::GetBlock) <==> name == "getblock"@,
        method_named(name) == Some(Method::GetBlocks) <==> name == "getblocks"@,
        method_named(name) == Some(Method::GetBlockHeight) <==> name == "getblockheight"@,
        method_named(name) == Some(Method::GetBlockHash) <==> name == "getblockhash"@,
        method_named(name) == Some(Method::GetBlockHashes) <==> name == "getblockhashes"@,
        method_named(name) == Some(Method::GetBlockHeader) <==> name == "getblockheader"@,
        method_named(name) == Some(Method::GetBlockTemplate) <==> name == "getblocktemplate"@,
        method_named(name) == Some(Method::GetBlockTransactions) <==> name
            == "getblocktransactions"@,
        method_named(name) == Some(Method::GetCiphertext) <==> name == "getciphertext"@,
        method_named(name) == Some(Method::GetLedgerProof) <==> name == "getledgerproof"@,
        method_named(name) == Some(Method::GetMemoryPool) <==> name == "getmemorypool"@,
        method_named(name) == Some(Method::GetTransaction) <==> name == "gettransaction"@,
        method_named(name) == Some(Method::GetTransition) <==> name == "gettransition"@,
        method_named(name) == Some(Method::GetConnectedPeers) <==> name == "getconnectedpeers"@,
        method_named(name) == Some(Method::GetNodeState) <==> name == "getnodestate"@,
        method_named(name) == Some(Method::SendTransaction) <==> name == "sendtransaction"@,
{
    law_methods_are_found_by_name(Method::LatestBlock, name);
    law_methods_are_found_by_name(Method::LatestBlockHeight, name);
    law_methods_are_found_by_name(Method::LatestCumulativeWeight, name);
    law_methods_are_found_by_name(Method::LatestBlockHash, name);
    law_methods_are_found_by_name(Method::LatestBlockHeader, name);
    law_methods_are_found_by_name(Method::LatestBlockTransactions, name);
    law_methods_are_found_by_name(Method::LatestLedgerRoot, name);
    law_methods_are_found_by_name(Method::GetBlock, name);
    law_methods_are_found_by_name(Method::GetBlocks, name);
    law_methods_are_found_by_name(Method::GetBlockHeight, name);
    law_methods_are_found_by_name(Method::GetBlockHash, name);
    law_methods_are_found_by_name(Method::GetBlockHashes, name);
    law_methods_are_found_by_name(Method::GetBlockHeader, name);
    law_methods_are_found_by_name(Method::GetBlockTemplate, name);
    law_methods_are_found_by_name(Method::GetBlockTransactions, name);
    law_methods_are_found_by_name(Method::GetCiphertext, name);
    law_methods_are_found_by_name(Method::GetLedgerProof, name);
    law_methods_are_found_by_name(Method::GetMemoryPool, name);
    law_methods_are_found_by_name(Method::GetTransaction, name);
    law_methods_are_found_by_name(Method::GetTransition, name);
    law_methods_are_found_by_name(Method::GetConnectedPeers, name);
    law_methods_are_found_by_name(Method::GetNodeState, name);
    law_methods_are_found_by_name(Method::SendTransaction, name);
}

/// Each method that takes nothing is called by its own name, whatever the parameters, with the
/// identifier of the request.
pub proof fn law_calls_without_parameters(request: RpcRequestView)
    ensures
        request.method == "latestblock"@ ==> planned(request) == PlanView::Call(
            request.id,
            Method::LatestBlock,
            ArgumentView::Nothing,
        ),
        request.method == "latestblockheight"@ ==> planned(request) == PlanView::Call(
            request.id,
            Method::LatestBlockHeight,
            ArgumentView::Nothing,
        ),
        request.method == "latestcumulativeweight"@ ==> planned(request) == PlanView::Call(
            request.id,
            Method::LatestCumulativeWeight,
            ArgumentView::Nothing,
        ),
        request.method == "latestblockhash"@ ==> planned(request) == PlanView::Call(
            request.id,
            Method::LatestBlockHash,
            ArgumentView::Nothing,
        ),
        request.method == "latestblockheader"@ ==> planned(request) == PlanView::Call(
            request.id,
            Method::LatestBlockHeader,
            ArgumentView::Nothing,
        ),
        request.method == "latestblocktransactions"@ ==> planned(request) == PlanView::Call(
            request.id,
            Method::LatestBlockTransactions,
            ArgumentView::Nothing,
        ),
        request.method == "latestledgerroot"@ ==> planned(request) == PlanView::Call(
            request.id,
            Method::LatestLedgerRoot,
            ArgumentView::Nothing,
        ),
        request.method == "getblocktemplate"@ ==> planned(request) == PlanView::Call(
            request.id,
            Method::GetBlockTemplate,
            ArgumentView::Nothing,
        ),
        request.method == "getmemorypool"@ ==> planned(request) == PlanView::Call(
            request.id,
            Method::GetMemoryPool,
            ArgumentView::Nothing,
        ),
        request.method == "getconnectedpeers"@ ==> planned(request) == PlanView::Call(
            request.id,
            Method::GetConnectedPeers,
            ArgumentView::Nothing,
        ),
        request.method == "getnodestate"@ ==> planned(request) == PlanView::Call(
            request.id,
            Method::GetNodeState,
            ArgumentView::Nothing,
        ),
{
    law_methods_by_their_names(request.method);
    law_methods_expecting_params(request.method);
}

/// Each method that takes a block height is called by its own name with the number that the first
/// parameter denotes; where it denotes none, the request is answered with an error for that.
pub proof fn law_calls_with_a_height(request: RpcRequestView, values: Seq<Seq<char>>)
    requires
        request.params == Some(ParamsView::List(values)),
        values.len() >= 1,
    ensures
        json_u32(values[0]) matches Some(height) ==> {
            &&& request.method == "getblock"@ ==> planned(request) == PlanView::Call(
                request.id,
                Method::GetBlock,
                ArgumentView::Height(height),
            )
            &&& request.method == "getblockhash"@ ==> planned(request) == PlanView::Call(
                request.id,
                Method::GetBlockHash,
                ArgumentView::Height(height),
            )
            &&& request.method == "getblockheader"@ ==> planned(request) == PlanView::Call(
                request.id,
                Method::GetBlockHeader,
                ArgumentView::Height(height),
            )
            &&& request.method == "getblocktransactions"@ ==> planned(request) == PlanView::Call(
                request.id,
                Method::GetBlockTransactions,
                ArgumentView::Height(height),
            )
        },
        json_u32(values[0]) is None && (request.method == "getblock"@
            || request.method == "getblockhash"@
            || request.method == "getblockheader"@
            || request.method == "getblocktransactions"@) ==> answers(
            planned(request),
            -32700,
            "Invalid block height!"@,
            None,
            request.id,
        ),
{
    law_methods_by_their_names(request.method);
    law_methods_expecting_params(request.method);
}

/// Each method that takes two block heights is called by its own name with the numbers that
/// the first two parameters denote, in their order; where one of them denotes none, the
/// request is answered with an error for that.
pub proof fn law_calls_with_two_heights(request: RpcRequestView, values: Seq<Seq<char>>)
    requires
        request.params == Some(ParamsView::List(values)),
        values.len() >= 2,
    ensures
        json_u32(values[0]) matches Some(first) ==> json_u32(values[1]) matches Some(last) ==> {
            &&& request.method == "getblocks"@ ==> planned(request) == PlanView::Call(
                request.id,
                Method::GetBlocks,
                ArgumentView::Heights(first, last),
            )
            &&& request.method == "getblockhashes"@ ==> planned(request) == PlanView::Call(
                request.id,
                Method::GetBlockHashes,
                ArgumentView::Heights(first, last),
            )
        },
        (json_u32(values[0]) is None || json_u32(values[1]) is None) && (request.method
            == "getblocks"@ || request.method
            == "getblockhashes"@) ==> answers(
            planned(request),
            -32700,
            "Invalid block height!"@,
            None,
            request.id,
        ),
{
    law_methods_by_their_names(request.method);
    law_methods_expecting_params(request.method);
}

/// Each method that takes any value is called by its own name with the first parameter as it
/// is, and a transaction is sent as the string that the first parameter denotes, or as an
/// empty one.
pub proof fn law_calls_with_a_value(request: RpcRequestView, values: Seq<Seq<char>>)
    requires
        request.params == Some(ParamsView::List(values)),
        values.len() >= 1,
    ensures
        request.method == "getblockheight"@ ==> planned(request) == PlanView::Call(
            request.id,
            Method::GetBlockHeight,
            ArgumentView::Value(values[0]),
        ),
        request.method == "getciphertext"@ ==> planned(request) == PlanView::Call(
            request.id,
            Method::GetCiphertext,
            ArgumentView::Value(values[0]),
        ),
        request.method == "getledgerproof"@ ==> planned(request) == PlanView::Call(
            request.id,
            Method::GetLedgerProof,
            ArgumentView::Value(values[0]),
        ),
        request.method == "gettransaction"@ ==> planned(request) == PlanView::Call(
            request.id,
            Method::GetTransaction,
            ArgumentView::Value(values[0]),
        ),
        request.method == "gettransition"@ ==> planned(request) == PlanView::Call(
            request.id,
            Method::GetTransition,
            ArgumentView::Value(values[0]),
        ),
        request.method == "sendtransaction"@ ==> {
            &&& json_string(values[0]) matches Some(text) ==> planned(request) == PlanView::Call(
                request.id,
                Method::SendTransaction,
                ArgumentView::Text(text),
            )
            &&& json_string(values[0]) is None ==> planned(request) == PlanView::Call(
                request.id,
                Method::SendTransaction,
                ArgumentView::Text(Seq::empty()),
            )
        },
{
    law_methods_by_their_names(request.method);
    law_methods_expecting_params(request.method);
}

/// Whether a text is one of the names of the methods that expect parameters.
pub open spec fn is_name_with_params(name: Seq<char>) -> bool {
    ||| name == "getblock"@
    ||| name == "getblocks"@
    ||| name == "getblockheight"@
    ||| name == "getblockhash"@
    ||| name == "getblockhashes"@
    ||| name == "getblockheader"@
    ||| name == "getblocktransactions"@
    ||| name == "getciphertext"@
    ||| name == "getledgerproof"@
    ||| name == "gettransaction"@
    ||| name == "gettransition"@
    ||| name == "sendtransaction"@
}

/// Whether a text is one of the names of the methods that take no parameters.
pub open spec fn is_name_without_params(name: Seq<char>) -> bool {
    ||| name == "latestblock"@
    ||| name == "latestblockheight"@
    ||| name == "latestcumulativeweight"@
    ||| name == "latestblockhash"@
    ||| name == "latestblockheader"@
    ||| name == "latestblocktransactions"@
    ||| name == "latestledgerroot"@
    ||| name == "getblocktemplate"@
    ||| name == "getmemorypool"@
    ||| name == "getconnectedpeers"@
    ||| name == "getnodestate"@
}

/// Whether a plan is to answer with an error, given by its code, its message and its data,
/// and an identifier.
pub open spec fn answers(
    plan: PlanView,
    code: int,
    message: Seq<char>,
    data: Option<Seq<char>>,
    id: Option<IdView>,
) -> bool {
    &&& plan matches PlanView::Answer(response)
    &&& response.jsonrpc == Version::V2
    &&& response.id == id
    &&& response.payload matches Err(error)
    &&& error.code == code
    &&& error.message == message
    &&& error.data == data
}

/// A request for a method that expects parameters is answered with an error for invalid
/// parameters exactly if it has no list of them that is not empty. Parameters are read
/// exactly for these methods.
pub proof fn law_parameters_are_expected(request: RpcRequestView)
    ensures
        is_name_with_params(request.method) ==> (answers(
            planned(request),
            -32602,
            "Invalid params"@,
            None,
            request.id,
        ) <==> !(request.params matches Some(ParamsView::List(values)) && values.len() > 0)),
        match read_params_of(request) {
            Ok(params) => if is_name_with_params(request.method) {
                request.params == Some(ParamsView::List(params)) && params.len() > 0
            } else {
                params.len() == 0
            },
            Err(error) => is_name_with_params(request.method) && !(request.params matches Some(
                ParamsView::List(values),
            ) && values.len() > 0) && error.code == -32602 && error.message == "Invalid params"@
                && error.data is None,
        },
{
    law_methods_by_their_names(request.method);
    law_methods_expecting_params(request.method);
    if let Some(method) = method_named(request.method) {
        law_methods_are_found_by_name(method, request.method);
    }
}

/// A request is answered with an error for an unknown method exactly if its method is none of
/// the names.
pub proof fn law_unknown_names(request: RpcRequestView)
    ensures
        answers(planned(request), -32601, "Method not found"@, None, request.id)
            <==> !is_name_with_params(request.method) && !is_name_without_params(request.method),
        method_named(request.method) is None <==> !is_name_with_params(request.method)
            && !is_name_without_params(request.method),
{
    law_methods_by_their_names(request.method);
    law_methods_expecting_params(request.method);
    if let Some(method) = method_named(request.method) {
        law_methods_are_found_by_name(method, request.method);
    }
}

/// A request lacks a parameter exactly if it is for several blocks or hashes and has a list of
/// one parameter.
pub proof fn law_lacking_parameters(request: RpcRequestView)
    ensures
        has_enough_params(request) <==> !((request.method == "getblocks"@ || request.method
            == "getblockhashes"@) && (request.params matches Some(ParamsView::List(values))
            && values.len() == 1)),
{
    law_methods_by_their_names(request.method);
    law_methods_expecting_params(request.method);
    if let Some(method) = method_named(request.method) {
        law_methods_are_found_by_name(method, request.method);
    }
}

/// Of a body: one that could not be read is answered with the reason, one that is not a
/// request with an error for that, both without identifier; a request that lacks a parameter
/// is not answered; and a request that does not is answered or called as it is planned.
pub proof fn law_bodies(data: Vec<u8>, reason: String)
    ensures
        step_for(Body::Failed(reason)) == StepView::Respond(
            encoded_response(
                ResponseView {
                    jsonrpc: Version::V2,
                    payload: Err(
                        ErrorView {
                            code: (-32700) as i64,
                            message: "Couldn't read the RPC body"@,
                            data: Some(reason@),
                        },
                    ),
                    id: None,
                },
            ),
        ),
        step_for(Body::Empty) == StepView::Respond(
            encoded_response(
                ResponseView {
                    jsonrpc: Version::V2,
                    payload: Err(
                        ErrorView {
                            code: (-32700) as i64,
                            message: "Couldn't read the RPC body"@,
                            data: None,
                        },
                    ),
                    id: None,
                },
            ),
        ),
        match decoded_request(data@) {
            None => step_for(Body::Data(data)) == StepView::Respond(
                encoded_response(
                    ResponseView {
                        jsonrpc: Version::V2,
                        payload: Err(
                            ErrorView {
                                code: (-32700) as i64,
                                message: "Couldn't parse the RPC body"@,
                                data: None,
                            },
                        ),
                        id: None,
                    },
                ),
            ),
            Some(request) => {
                &&& step_for(Body::Data(data)) is MissingParameter <==> !has_enough_params(request)
                &&& has_enough_params(request) ==> match planned(request) {
                    PlanView::Answer(response) => step_for(Body::Data(data)) == StepView::Respond(
                        encoded_response(response),
                    ),
                    PlanView::Call(id, method, argument) => step_for(Body::Data(data))
                        == StepView::Call(id, method, argument),
                }
            },
        },
{
}

/// An answer is the object of the version, the result or the error, and the identifier, in
/// this order. An error is the object of its code, its message and, if it has some, its data. An
/// identifier is a number, a string or `null`.
pub proof fn law_answers_in_text(
    result: Seq<char>,
    code: i64,
    message: Seq<char>,
    data: Seq<char>,
    id: Option<IdView>,
    number: u64,
    name: Seq<char>,
)
    ensures
        ({
            let answer = ResponseView { jsonrpc: Version::V2, payload: Ok(result), id };
            encoded_response(answer) == encode_utf8(
                "{\"jsonrpc\":"@ + "\"2.0\""@ + (",\"result\":"@ + result) + ",\"id\":"@ + id_text(id)
                    + "}"@,
            )
        }),
        ({
            let error = ErrorView { code, message, data: None };
            let answer = ResponseView { jsonrpc: Version::V2, payload: Err(error), id };
            encoded_response(answer) == encode_utf8(
                "{\"jsonrpc\":"@ + "\"2.0\""@ + (",\"error\":"@ + ("{\"code\":"@ + number_text(
                    code as int,
                ) + ",\"message\":"@ + quoted(message) + Seq::empty() + "}"@)) + ",\"id\":"@
                    + id_text(id) + "}"@,
            )
        }),
        ({
            let error = ErrorView { code, message, data: Some(data) };
            let answer = ResponseView { jsonrpc: Version::V2, payload: Err(error), id };
            encoded_response(answer) == encode_utf8(
                "{\"jsonrpc\":"@ + "\"2.0\""@ + (",\"error\":"@ + ("{\"code\":"@ + number_text(
                    code as int,
                ) + ",\"message\":"@ + quoted(message) + (",\"data\":"@ + quoted(data)) + "}"@))
                    + ",\"id\":"@ + id_text(id) + "}"@,
            )
        }),
        id_text(None) == "null"@,
        id_text(Some(IdView::Num(number))) == digits(number as nat),
        id_text(Some(IdView::Str(name))) == quoted(name),
        code < 0 ==> number_text(code as int) == "-"@ + digits((-code) as nat),
        code >= 0 ==> number_text(code as int) == digits(code as nat),
{
}

/// What went wrong in a method is the data of an internal error of this server, and the
/// request is answered with that.
pub proof fn law_failed_calls(text: Seq<char>, id: Option<IdView>)
    ensures
        answers(
            PlanView::Answer(outcome_response(Err(text), id)),
            -32000,
            "internal error"@,
            Some(text),
            id,
        ),
        crate_error(text).code == -32000,
        crate_error(text).message == "internal error"@,
        crate_error(text).data == Some(text),
{
}

/// An identifier of a request is a number or a string of at most 36 bytes.
pub proof fn law_identifiers(id: Option<IdView>)
    ensures
        id_wf(id) <==> !(id matches Some(IdView::Str(text)) && encode_utf8(text).len() > 36),
{
}

/// A method takes a height, two heights, any value or a string exactly if it is one of these.
pub proof fn law_what_methods_take(method: Method)
    ensures
        expected(method) == Expected::Height <==> (method == Method::GetBlock || method
            == Method::GetBlockHash || method == Method::GetBlockHeader || method
            == Method::GetBlockTransactions),
        expected(method) == Expected::Heights <==> (method == Method::GetBlocks || method
            == Method::GetBlockHashes),
        expected(method) == Expected::Value <==> (method == Method::GetBlockHeight || method
            == Method::GetCiphertext || method == Method::GetLedgerProof || method
            == Method::GetTransaction || method == Method::GetTransition),
        expected(method) == Expected::Text <==> method == Method::SendTransaction,
{
}

/// The message of each code of the protocol.
pub proof fn law_messages_of_codes(code: i64)
    ensures
        code == -32700 ==> standard_error(code).message == "Parse error"@,
        code == -32600 ==> standard_error(code).message == "Invalid Request"@,
        code == -32601 ==> standard_error(code).message == "Method not found"@,
        code == -32602 ==> standard_error(code).message == "Invalid params"@,
        code == -32603 ==> standard_error(code).message == "Internal error"@,
        code != -32700 && !(-32603 <= code <= -32600) ==> standard_error(code).message
            == "Server error"@,
        code == -32600 ==> core_description(code) == "Invalid request"@,
        code != -32600 ==> core_description(code) == standard_error(code).message,
        standard_error(code).code == code,
        standard_error(code).data is None,
{
}

} // verus!
