//! The RPC endpoint.

use snarkos::rpc::{
    convert_core_err, convert_crate_err, handle_request, handle_rpc, is_expecting_params, read_params, respond,
    result_text, result_to_response, takes_enough_params, Argument, Body, Expected, Id, Meta, Method, Params, Plan, Request,
    Response, RpcCredentials, RpcError, Step, Version,
};

const METHODS: [Method; 23] = [
    Method::LatestBlock,
    Method::LatestBlockHeight,
    Method::LatestCumulativeWeight,
    Method::LatestBlockHash,
    Method::LatestBlockHeader,
    Method::LatestBlockTransactions,
    Method::LatestLedgerRoot,
    Method::GetBlock,
    Method::GetBlocks,
    Method::GetBlockHeight,
    Method::GetBlockHash,
    Method::GetBlockHashes,
    Method::GetBlockHeader,
    Method::GetBlockTemplate,
    Method::GetBlockTransactions,
    Method::GetCiphertext,
    Method::GetLedgerProof,
    Method::GetMemoryPool,
    Method::GetTransaction,
    Method::GetTransition,
    Method::GetConnectedPeers,
    Method::GetNodeState,
    Method::SendTransaction,
];

fn step(body: &str) -> Step {
    handle_rpc(Body::Data(body.as_bytes().to_vec()))
}

fn answer(body: &str) -> String {
    match step(body) {
        Step::Respond(bytes) => String::from_utf8(bytes).unwrap(),
        other => panic!("{:?}", other),
    }
}

fn call(body: &str) -> (Option<Id>, Method, Argument) {
    match step(body) {
        Step::Call { id, method, argument } => (id, method, argument),
        other => panic!("{:?}", other),
    }
}

fn list(values: &[&str]) -> Option<Params> {
    Some(Params::List(values.iter().map(|value| value.to_string()).collect()))
}

fn request(method: &str, params: Option<Params>) -> Request {
    Request { method: method.to_string(), params, id: Some(Id::Num(7)) }
}

#[test]
fn an_empty_body_is_answered() {
    match handle_rpc(Body::Empty) {
        Step::Respond(bytes) => assert_eq!(
            r#"{"jsonrpc":"2.0","error":{"code":-32700,"message":"Couldn't read the RPC body"},"id":null}"#,
            String::from_utf8(bytes).unwrap()
        ),
        other => panic!("{:?}", other),
    }
}

#[test]
fn a_body_that_cannot_be_read_is_answered_with_the_reason() {
    match handle_rpc(Body::Failed("reset".to_string())) {
        Step::Respond(bytes) => assert_eq!(
            r#"{"jsonrpc":"2.0","error":{"code":-32700,"message":"Couldn't read the RPC body","data":"reset"},"id":null}"#,
            String::from_utf8(bytes).unwrap()
        ),
        other => panic!("{:?}", other),
    }
}

#[test]
fn a_body_that_is_no_request_is_answered() {
    let expected = r#"{"jsonrpc":"2.0","error":{"code":-32700,"message":"Couldn't parse the RPC body"},"id":null}"#;
    assert_eq!(expected, answer(""));
    assert_eq!(expected, answer("getblock"));
    assert_eq!(expected, answer(r#"{"jsonrpc":"2.0","id":1}"#));
    // An identifier of more than 36 bytes is refused.
    let long = format!(r#"{{"jsonrpc":"2.0","id":"{}","method":"latestblock"}}"#, "x".repeat(37));
    assert_eq!(expected, answer(&long));
}

#[test]
fn an_unknown_method_is_answered() {
    assert_eq!(
        r#"{"jsonrpc":"2.0","error":{"code":-32601,"message":"Method not found"},"id":"1"}"#,
        answer(r#"{"jsonrpc":"2.0","id":"1","method":"getnothing","params":[1]}"#)
    );
    assert_eq!(
        r#"{"jsonrpc":"2.0","error":{"code":-32601,"message":"Method not found"},"id":null}"#,
        answer(r#"{"jsonrpc":"2.0","method":"getblocK"}"#)
    );
}

#[test]
fn missing_params_are_answered() {
    let expected = r#"{"jsonrpc":"2.0","error":{"code":-32602,"message":"Invalid params"},"id":5}"#;
    assert_eq!(expected, answer(r#"{"jsonrpc":"2.0","id":5,"method":"getblock"}"#));
    assert_eq!(expected, answer(r#"{"jsonrpc":"2.0","id":5,"method":"getblock","params":[]}"#));
    assert_eq!(expected, answer(r#"{"jsonrpc":"2.0","id":5,"method":"getblock","params":{"height":1}}"#));
    assert_eq!(expected, answer(r#"{"jsonrpc":"2.0","id":5,"method":"sendtransaction","params":null}"#));
}

#[test]
fn an_invalid_height_is_answered() {
    let expected = r#"{"jsonrpc":"2.0","error":{"code":-32700,"message":"Invalid block height!"},"id":5}"#;
    for value in ["-1", "1.0", "\"1\"", "4294967296", "null", "[1]", "1e2"] {
        let body = format!(r#"{{"jsonrpc":"2.0","id":5,"method":"getblock","params":[{}]}}"#, value);
        assert_eq!(expected, answer(&body));
        let body = format!(r#"{{"jsonrpc":"2.0","id":5,"method":"getblocks","params":[1,{}]}}"#, value);
        assert_eq!(expected, answer(&body));
        let body = format!(r#"{{"jsonrpc":"2.0","id":5,"method":"getblockhashes","params":[{},1]}}"#, value);
        assert_eq!(expected, answer(&body));
    }
}

#[test]
fn methods_without_params_are_called() {
    let body = r#"{
	"jsonrpc":"2.0",
	"id": "1",
	"method": "latestblock"
}"#;
    assert_eq!((Some(Id::Str("1".to_string())), Method::LatestBlock, Argument::Nothing), call(body));
    // Parameters are ignored.
    let body = r#"{"jsonrpc":"2.0","id":"1","method":"getnodestate","params":{"a":1}}"#;
    assert_eq!((Some(Id::Str("1".to_string())), Method::GetNodeState, Argument::Nothing), call(body));
}

#[test]
fn methods_with_heights_are_called() {
    let body = r#"{
	"jsonrpc":"2.0",
	"id": "1",
	"method": "getblock",
	"params": [
        0
    ]
}"#;
    assert_eq!((Some(Id::Str("1".to_string())), Method::GetBlock, Argument::Height(0)), call(body));
    let body = r#"{"id":2,"method":"getblockhashes","params":[0,4294967295,"more"]}"#;
    assert_eq!((Some(Id::Num(2)), Method::GetBlockHashes, Argument::Heights(0, 4294967295)), call(body));
    let body = r#"{"id":2,"method":"getblockheader","params":[17]}"#;
    assert_eq!((Some(Id::Num(2)), Method::GetBlockHeader, Argument::Height(17)), call(body));
}

#[test]
fn methods_with_values_are_called() {
    let body = r#"{"method":"gettransaction","params":[{"b":[1,  2.5]}]}"#;
    assert_eq!((None, Method::GetTransaction, Argument::Value(r#"{"b":[1,2.5]}"#.to_string())), call(body));
    let body = r#"{"method":"getblockheight","params":["abc"]}"#;
    assert_eq!((None, Method::GetBlockHeight, Argument::Value(r#""abc""#.to_string())), call(body));
}

#[test]
fn a_transaction_is_sent_as_a_string() {
    let body = r#"{"method":"sendtransaction","params":["0aÿ\n"]}"#;
    assert_eq!((None, Method::SendTransaction, Argument::Text("0a\u{ff}\n".to_string())), call(body));
    let body = r#"{"method":"sendtransaction","params":["plain"]}"#;
    assert_eq!((None, Method::SendTransaction, Argument::Text("plain".to_string())), call(body));
    // What is not a string counts as an empty one.
    let body = r#"{"method":"sendtransaction","params":[12]}"#;
    assert_eq!((None, Method::SendTransaction, Argument::Text(String::new())), call(body));
}

#[test]
fn a_second_height_may_be_missing() {
    for method in ["getblocks", "getblockhashes"] {
        let body = format!(r#"{{"id":2,"method":"{}","params":[1]}}"#, method);
        assert_eq!(Step::MissingParameter, step(&body));
        assert!(!takes_enough_params(&request(method, list(&["1"]))));
        assert!(takes_enough_params(&request(method, list(&["1", "2"]))));
        // Without any parameters the request is answered.
        assert!(takes_enough_params(&request(method, None)));
    }
    assert!(takes_enough_params(&request("getblock", list(&["1"]))));
    assert!(takes_enough_params(&request("unknown", list(&["1"]))));
}

#[test]
fn requests_are_planned() {
    assert_eq!(
        Plan::Call { id: Some(Id::Num(7)), method: Method::GetBlocks, argument: Argument::Heights(3, 5) },
        handle_request(&request("getblocks", list(&["3", " 5 "])))
    );
    assert_eq!(
        Plan::Answer(Response {
            jsonrpc: Version::V2,
            payload: Err(RpcError {
                code: -32700,
                message: "Invalid block height!".to_string(),
                data: None
            }),
            id: Some(Id::Num(7)),
        }),
        handle_request(&request("getblocks", list(&["3", "05"])))
    );
    assert_eq!(
        Plan::Answer(Response {
            jsonrpc: Version::V2,
            payload: Err(RpcError { code: -32601, message: "Method not found".to_string(), data: None }),
            id: Some(Id::Num(7)),
        }),
        handle_request(&request("", None))
    );
}

#[test]
fn params_are_read_where_they_are_expected() {
    assert_eq!(Ok(vec!["1".to_string(), "2".to_string()]), read_params(&request("getblock", list(&["1", "2"]))));
    assert_eq!(Ok(vec![]), read_params(&request("latestblock", list(&["1"]))));
    let error = Err(RpcError { code: -32602, message: "Invalid params".to_string(), data: None });
    assert_eq!(error, read_params(&request("getblock", None)));
    assert_eq!(error, read_params(&request("getblock", list(&[]))));
    assert_eq!(error, read_params(&request("getblock", Some(Params::Absent))));
    assert_eq!(error, read_params(&request("getblock", Some(Params::Object("{}".to_string())))));
}

#[test]
fn methods_are_found_by_name() {
    for method in METHODS {
        assert_eq!(Some(method), Method::named(method.name()));
        assert_eq!(method.expected() != Expected::Nothing, is_expecting_params(method.name()));
    }
    assert_eq!(12, METHODS.iter().filter(|method| is_expecting_params(method.name())).count());
    assert_eq!(None, Method::named("createaccount"));
    assert_eq!(None, Method::named("getblock "));
    assert!(!is_expecting_params("connect"));
}

fn respond_text(id: Option<Id>, result: Result<Option<String>, String>) -> String {
    String::from_utf8(respond(id, result)).unwrap()
}

#[test]
fn outcomes_are_answered() {
    assert_eq!(
        r#"{"jsonrpc":"2.0","result":{"height":1},"id":"1"}"#,
        respond_text(Some(Id::Str("1".to_string())), Ok(Some(r#"{"height":1}"#.to_string())))
    );
    assert_eq!(r#"{"jsonrpc":"2.0","result":17,"id":null}"#, respond_text(None, Ok(Some("17".to_string()))));
    assert_eq!(
        r#"{"jsonrpc":"2.0","error":{"code":-32000,"message":"internal error","data":"no such block"},"id":3}"#,
        respond_text(Some(Id::Num(3)), Err("no such block".to_string()))
    );
    // An identifier may have 36 bytes.
    let id = "x".repeat(36);
    assert_eq!(
        format!(r#"{{"jsonrpc":"2.0","result":true,"id":"{}"}}"#, id),
        respond_text(Some(Id::Str(id.clone())), Ok(Some("true".to_string())))
    );
}

#[test]
fn results_are_answered_as_they_are() {
    // No digit of a number is lost, and no depth is too great.
    let float = serde_json::to_string(&0.10000000000000007f64).unwrap();
    assert_eq!("0.10000000000000007", float);
    let deep = format!("{}{}", "[".repeat(500), "]".repeat(500));
    for text in [float, deep] {
        assert_eq!(
            format!(r#"{{"jsonrpc":"2.0","result":{},"id":1}}"#, text),
            respond_text(Some(Id::Num(1)), Ok(Some(text.clone())))
        );
    }
}

#[test]
fn a_result_without_text_is_answered_as_null() {
    assert_eq!("null", result_text(None));
    assert_eq!("5", result_text(Some("5".to_string())));
    // A number of more than 64 bits is no JSON value.
    let text = serde_json::to_value(u128::MAX).ok().map(|value| value.to_string());
    assert_eq!(None, text);
    assert_eq!(r#"{"jsonrpc":"2.0","result":null,"id":1}"#, respond_text(Some(Id::Num(1)), Ok(text)));
}

#[test]
fn answers_are_those_of_the_protocol() {
    let all: String = (0u8..128).map(|byte| byte as char).chain("\u{e9}\u{1f600}".chars()).collect();
    for (id, other) in [
        (None, None),
        (Some(Id::Num(u64::MAX)), Some(json_rpc_types::Id::Num(u64::MAX))),
        (
            Some(Id::Str("\"\\\n\u{1}\u{7f}".to_string())),
            Some(json_rpc_types::Id::Str(json_rpc_types::str_buf::StrBuf::from_str("\"\\\n\u{1}\u{7f}"))),
        ),
    ] {
        let expected = json_rpc_types::Response {
            jsonrpc: json_rpc_types::Version::V2,
            payload: Err::<(), json_rpc_types::Error<String>>(
                json_rpc_types::Error::with_custom_msg(json_rpc_types::ErrorCode::ServerError(-32000), "internal error")
                    .set_data(all.clone()),
            ),
            id: other.clone(),
        };
        assert_eq!(serde_json::to_vec(&expected).unwrap(), respond(id.clone(), Err(all.clone())));

        let value = serde_json::Value::Array(vec![serde_json::Value::from(all.clone()), serde_json::Value::from(-2.5)]);
        let expected = json_rpc_types::Response {
            jsonrpc: json_rpc_types::Version::V2,
            payload: Ok::<serde_json::Value, json_rpc_types::Error<String>>(value.clone()),
            id: other,
        };
        assert_eq!(serde_json::to_vec(&expected).unwrap(), respond(id, Ok(Some(value.to_string()))));
    }
}

#[test]
fn errors_are_converted() {
    assert_eq!(
        RpcError { code: -32000, message: "internal error".to_string(), data: Some("why".to_string()) },
        convert_crate_err("why".to_string())
    );
    for (code, description) in [
        (-32700, "Parse error"),
        (-32600, "Invalid request"),
        (-32601, "Method not found"),
        (-32602, "Invalid params"),
        (-32603, "Internal error"),
        (-32000, "Server error"),
        (1, "Server error"),
    ] {
        assert_eq!(
            RpcError {
                code: -32603,
                message: "JSONRPC server error".to_string(),
                data: Some(format!("{}: why", description)),
            },
            convert_core_err(code, "why")
        );
    }
}

#[test]
fn results_become_responses() {
    let id = Some(Id::Num(1));
    assert_eq!(
        Response { jsonrpc: Version::V2, payload: Ok("5".to_string()), id: Some(Id::Num(1)) },
        result_to_response(id.clone(), Ok(Some("5".to_string())))
    );
    assert_eq!(
        Response { jsonrpc: Version::V2, payload: Ok("null".to_string()), id: None },
        result_to_response(None, Ok(None))
    );
    let error = convert_crate_err("why".to_string());
    assert_eq!(
        Response {
            jsonrpc: Version::V2,
            payload: Err(convert_crate_err("why".to_string())),
            id: Some(Id::Num(1))
        },
        result_to_response(id, Err(error))
    );
}

#[test]
fn authorization_is_read_of_the_header() {
    assert_eq!(None, Meta::from_header(None).auth);
    assert_eq!(None, Meta::default().auth);
    assert_eq!(Some("Basic abc ~\t!".to_string()), Meta::from_header(Some(b"Basic abc ~\t!")).auth);
    assert_eq!(Some(String::new()), Meta::from_header(Some(b"")).auth);
    // A value that is not a text counts as an empty one.
    for bytes in [&b"a\x7f"[..], &b"a\x80"[..], &b"a\n"[..], "\u{e9}".as_bytes()] {
        assert_eq!(Some(String::new()), Meta::from_header(Some(bytes)).auth);
    }
    let meta = Meta::from_header(Some(b"x"));
    assert_eq!(meta.auth, meta.clone().auth);
}

#[test]
fn credentials_are_compared_and_cloned() {
    let credentials = RpcCredentials { username: "root".to_string(), password: "pass".to_string() };
    assert_eq!(credentials, credentials.clone());
    let other = RpcCredentials { username: "root".to_string(), password: "other".to_string() };
    assert_ne!(credentials, other);
}
