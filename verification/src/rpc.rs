//! The RPC endpoint: what a request asks for, and how it is answered.

use vstd::prelude::*;
use vstd::string::StringExecFns;
use vstd::utf8::encode_utf8;

use crate::bytes::{append_bytes, same_text};
use crate::json::{json_string, json_to_str, json_to_u32, json_u32, optional_text};
use crate::text::{number_text, quoted};

verus! {

/// The code of an error while parsing.
pub const PARSE_ERROR: i64 = -32700;

/// The code of an error for an unknown method.
pub const METHOD_NOT_FOUND: i64 = -32601;

/// The code of an error for invalid parameters.
pub const INVALID_PARAMS: i64 = -32602;

/// The code of an internal error of the protocol.
pub const INTERNAL_ERROR: i64 = -32603;

/// The code of an error of this server.
pub const SERVER_ERROR: i64 = -32000;

/// Defines the authentication format for accessing private endpoints on the RPC server.
#[derive(Debug, Eq, PartialEq)]
pub struct RpcCredentials {
    /// The username in the credential
    pub username: String,
    /// The password in the credential
    pub password: String,
}

impl Clone for RpcCredentials {
    fn clone(&self) -> (r: Self)
        ensures
            r == *self,
    {
        RpcCredentials { username: self.username.clone(), password: self.password.clone() }
    }
}

/// RPC metadata for encoding authentication.
#[derive(Debug)]
pub struct Meta {
    /// An optional authentication string for protected RPC functions.
    pub auth: Option<String>,
}

/// Whether a byte of a header value may stand in a text.
pub open spec fn is_header_text(b: u8) -> bool {
    32 <= b <= 126 || b == 9
}

/// The text that bytes spell, a character each.
pub open spec fn ascii_text(bytes: Seq<u8>) -> Seq<char> {
    bytes.map_values(|b: u8| b as char)
}

/// Calls `to_str` on the `hyper::header::HeaderValue` that `from_bytes` makes of the
/// bytes. It gives the text exactly if all bytes are visible ASCII characters, spaces or tabs.
#[verifier::external_body]
fn header_to_str(bytes: &[u8]) -> (r: Option<String>)
    ensures
        r is Some <==> forall|i: int| 0 <= i < bytes@.len() ==> is_header_text(#[trigger] bytes@[i]),
        r matches Some(text) ==> text@ == ascii_text(bytes@),
{
    let value = hyper::header::HeaderValue::from_bytes(bytes).ok()?;
    value.to_str().ok().map(|text| text.to_owned())
}

impl Meta {
    /// Makes the metadata of a request from the value of its authorization header, if it has one.
    /// A value that is not a text counts as an empty one.
    pub fn from_header(authorization: Option<&[u8]>) -> (r: Self)
        ensures
            match authorization {
                None => r.auth is None,
                Some(bytes) => r.auth matches Some(auth) && auth@ == (if forall|i: int|
                    0 <= i < bytes@.len() ==> is_header_text(#[trigger] bytes@[i]) {
                    ascii_text(bytes@)
                } else {
                    Seq::empty()
                }),
            },
    {
        let auth = match authorization {
            None => None,
            Some(bytes) => match header_to_str(bytes) {
                Some(text) => Some(text),
                None => {
                    proof {
                        reveal_strlit("");
                    }
                    Some("".to_owned())
                },
            },
        };
        Meta { auth }
    }
}

impl Clone for Meta {
    fn clone(&self) -> (r: Self)
        ensures
            r == *self,
    {
        match &self.auth {
            Some(auth) => Meta { auth: Some(auth.clone()) },
            None => Meta { auth: None },
        }
    }
}

impl Default for Meta {
    fn default() -> (r: Self)
        ensures
            r.auth is None,
    {
        Meta { auth: None }
    }
}

/// The identifier that a client gave to a request.
#[derive(Debug, PartialEq, Eq)]
pub enum Id {
    /// A number.
    Num(u64),
    /// A string of at most 36 bytes.
    Str(String),
}

/// What an identifier is.
pub enum IdView {
    Num(u64),
    Str(Seq<char>),
}

impl View for Id {
    type V = IdView;

    open spec fn view(&self) -> IdView {
        match *self {
            Id::Num(number) => IdView::Num(number),
            Id::Str(text) => IdView::Str(text@),
        }
    }
}

impl Clone for Id {
    fn clone(&self) -> (r: Self)
        ensures
            r@ == self@,
    {
        match self {
            Id::Num(number) => Id::Num(*number),
            Id::Str(text) => Id::Str(text.clone()),
        }
    }
}

/// What an optional identifier is.
pub open spec fn id_view(id: Option<Id>) -> Option<IdView> {
    match id {
        Some(id) => Some(id@),
        None => None,
    }
}

/// Whether an optional identifier is one that a request can have.
pub open spec fn id_wf(id: Option<IdView>) -> bool {
    id matches Some(IdView::Str(text)) ==> encode_utf8(text).len() <= 36
}

/// The parameters of a request: JSON values, each as a text.
#[derive(Debug, PartialEq, Eq)]
pub enum Params {
    /// No parameters.
    Absent,
    /// A list of values.
    List(Vec<String>),
    /// An object.
    Object(String),
}

/// What parameters are.
pub enum ParamsView {
    Absent,
    List(Seq<Seq<char>>),
    Object(Seq<char>),
}

/// The characters of texts.
pub open spec fn texts(strings: Seq<String>) -> Seq<Seq<char>> {
    strings.map_values(|string: String| string@)
}

impl View for Params {
    type V = ParamsView;

    open spec fn view(&self) -> ParamsView {
        match *self {
            Params::Absent => ParamsView::Absent,
            Params::List(values) => ParamsView::List(texts(values@)),
            Params::Object(object) => ParamsView::Object(object@),
        }
    }
}

/// A request.
#[derive(Debug, PartialEq, Eq)]
pub struct Request {
    /// The method that is called.
    pub method: String,
    /// The parameters.
    pub params: Option<Params>,
    /// The identifier of the request.
    pub id: Option<Id>,
}

/// What a request is.
pub struct RpcRequestView {
    pub method: Seq<char>,
    pub params: Option<ParamsView>,
    pub id: Option<IdView>,
}

impl View for Request {
    type V = RpcRequestView;

    open spec fn view(&self) -> RpcRequestView {
        RpcRequestView {
            method: self.method@,
            params: match self.params {
                Some(params) => Some(params@),
                None => None,
            },
            id: id_view(self.id),
        }
    }
}

/// An error that a request is answered with.
#[derive(Debug, PartialEq, Eq)]
pub struct RpcError {
    pub code: i64,
    pub message: String,
    pub data: Option<String>,
}

/// What an error is.
pub struct ErrorView {
    pub code: i64,
    pub message: Seq<char>,
    pub data: Option<Seq<char>>,
}

impl View for RpcError {
    type V = ErrorView;

    open spec fn view(&self) -> ErrorView {
        ErrorView {
            code: self.code,
            message: self.message@,
            data: optional_text(self.data),
        }
    }
}

/// A version of the protocol.
#[derive(Clone, Copy, Debug, PartialEq, Eq, Structural)]
pub enum Version {
    V2,
}

/// The answer to a request: a JSON value as a text, or an error.
#[derive(Debug, PartialEq, Eq)]
pub struct Response {
    pub jsonrpc: Version,
    pub payload: Result<String, RpcError>,
    pub id: Option<Id>,
}

/// What an answer is.
pub struct ResponseView {
    pub jsonrpc: Version,
    pub payload: Result<Seq<char>, ErrorView>,
    pub id: Option<IdView>,
}

impl View for Response {
    type V = ResponseView;

    open spec fn view(&self) -> ResponseView {
        ResponseView {
            jsonrpc: self.jsonrpc,
            payload: match self.payload {
                Ok(result) => Ok(result@),
                Err(error) => Err(error@),
            },
            id: id_view(self.id),
        }
    }
}

/// The request that bytes encode, if they encode one.
pub uninterp spec fn decoded_request(data: Seq<u8>) -> Option<RpcRequestView>;

/// Calls `serde_json::from_slice` for a `json_rpc_types::Request` with the
/// parameters of `jsonrpc_core`, and writes each JSON value of the parameters as a text.
/// The result depends on the bytes alone. An identifier that is a string
/// is held in a buffer of 36 bytes, so a longer one is refused.
#[verifier::external_body]
fn decode_request(data: &[u8]) -> (r: Option<Request>)
    ensures
        (match r {
            Some(request) => Some(request@),
            None => None,
        }) == decoded_request(data@),
        r matches Some(request) ==> id_wf(id_view(request.id)),
{
    let request: json_rpc_types::Request<jsonrpc_core::Params> = serde_json::from_slice(data).ok()?;
    let params = request.params.map(|params| match params {
        jsonrpc_core::Params::None => Params::Absent,
        jsonrpc_core::Params::Array(values) => Params::List(values.iter().map(|value| value.to_string()).collect()),
        jsonrpc_core::Params::Map(map) => Params::Object(serde_json::Value::Object(map).to_string()),
    });
    let id = request.id.map(|id| match id {
        json_rpc_types::Id::Num(number) => Id::Num(number),
        json_rpc_types::Id::Str(text) => Id::Str(text.to_string()),
    });
    Some(Request { method: request.method.to_string(), params, id })
}

/// An error as a JSON text.
pub open spec fn error_text(error: ErrorView) -> Seq<char> {
    "{\"code\":"@ + number_text(error.code as int) + ",\"message\":"@ + quoted(error.message) + (
    match error.data {
        Some(data) => ",\"data\":"@ + quoted(data),
        None => Seq::empty(),
    }) + "}"@
}

/// An identifier as a JSON text.
pub open spec fn id_text(id: Option<IdView>) -> Seq<char> {
    match id {
        None => "null"@,
        Some(IdView::Num(number)) => number_text(number as int),
        Some(IdView::Str(text)) => quoted(text),
    }
}

/// A version of the protocol as a JSON text.
pub open spec fn version_text(version: Version) -> Seq<char> {
    match version {
        Version::V2 => "\"2.0\""@,
    }
}

/// An answer as a JSON text: the version, the result or the error, and the identifier.
pub open spec fn response_text(response: ResponseView) -> Seq<char> {
    "{\"jsonrpc\":"@ + version_text(response.jsonrpc) + (match response.payload {
        Ok(result) => ",\"result\":"@ + result,
        Err(error) => ",\"error\":"@ + error_text(error),
    }) + ",\"id\":"@ + id_text(response.id) + "}"@
}

/// The bytes that encode an answer.
pub open spec fn encoded_response(response: ResponseView) -> Seq<u8> {
    encode_utf8(response_text(response))
}

/// Calls `serde_json::to_string` on a `json_rpc_types::Error`. It writes an object
/// with the code, the message and, if there is one, the data, in this order and without
/// spaces. Strings are written in quotes: quotes, backslashes and control characters are escaped,
/// the latter by a letter where JSON has one and else by four hexadecimal digits.
#[verifier::external_body]
fn encode_error(error: &RpcError) -> (r: String)
    ensures
        r@ == error_text(error@),
{
    let code = json_rpc_types::ErrorCode::from_code(error.code);
    let (message, data) = (error.message.as_str(), error.data.as_deref());
    serde_json::to_string(&json_rpc_types::Error { code, message, data }).unwrap_or_default()
}

/// Calls `serde_json::to_string` on an optional `json_rpc_types::Id`. It writes
/// a number in decimal notation, a string in quotes as above, and `null` where there is none.
/// The identifier holds a string in a buffer of 36 bytes, and a longer one panics.
#[verifier::external_body]
fn encode_id(id: &Option<Id>) -> (r: String)
    requires
        id_wf(id_view(*id)),
    ensures
        r@ == id_text(id_view(*id)),
{
    let id = id.as_ref().map(|id| match id {
        Id::Num(number) => json_rpc_types::Id::Num(*number),
        Id::Str(text) => json_rpc_types::Id::Str(json_rpc_types::str_buf::StrBuf::from_str(text)),
    });
    serde_json::to_string(&id).unwrap_or_default()
}

/// Encodes an answer.
fn encode_response(response: Response) -> (r: Vec<u8>)
    requires
        id_wf(response@.id),
    ensures
        r@ == encoded_response(response@),
{
    let mut text: String = "{\"jsonrpc\":".to_owned();
    match response.jsonrpc {
        Version::V2 => text.append("\"2.0\""),
    }
    let ghost head = text@;
    match &response.payload {
        Ok(result) => {
            text.append(",\"result\":");
            text.append(result.as_str());
            assert(text@ =~= head + (",\"result\":"@ + result@));
        },
        Err(error) => {
            let error: String = encode_error(error);
            text.append(",\"error\":");
            text.append(error.as_str());
            assert(text@ =~= head + (",\"error\":"@ + error@));
        },
    }
    text.append(",\"id\":");
    let id: String = encode_id(&response.id);
    text.append(id.as_str());
    text.append("}");
    let mut bytes: Vec<u8> = Vec::new();
    append_bytes(&mut bytes, text.as_str().as_bytes());
    bytes
}

/// A method of the endpoint.
#[derive(Clone, Copy, Debug, PartialEq, Eq, Structural)]
pub enum Method {
    LatestBlock,
    LatestBlockHeight,
    LatestCumulativeWeight,
    LatestBlockHash,
    LatestBlockHeader,
    LatestBlockTransactions,
    LatestLedgerRoot,
    GetBlock,
    GetBlocks,
    GetBlockHeight,
    GetBlockHash,
    GetBlockHashes,
    GetBlockHeader,
    GetBlockTemplate,
    GetBlockTransactions,
    GetCiphertext,
    GetLedgerProof,
    GetMemoryPool,
    GetTransaction,
    GetTransition,
    GetConnectedPeers,
    GetNodeState,
    SendTransaction,
}

/// The name by which a method is called.
pub open spec fn method_name(method: Method) -> Seq<char> {
    match method {
        Method::LatestBlock => "latestblock"@,
        Method::LatestBlockHeight => "latestblockheight"@,
        Method::LatestCumulativeWeight => "latestcumulativeweight"@,
        Method::LatestBlockHash => "latestblockhash"@,
        Method::LatestBlockHeader => "latestblockheader"@,
        Method::LatestBlockTransactions => "latestblocktransactions"@,
        Method::LatestLedgerRoot => "latestledgerroot"@,
        Method::GetBlock => "getblock"@,
        Method::GetBlocks => "getblocks"@,
        Method::GetBlockHeight => "getblockheight"@,
        Method::GetBlockHash => "getblockhash"@,
        Method::GetBlockHashes => "getblockhashes"@,
        Method::GetBlockHeader => "getblockheader"@,
        Method::GetBlockTemplate => "getblocktemplate"@,
        Method::GetBlockTransactions => "getblocktransactions"@,
        Method::GetCiphertext => "getciphertext"@,
        Method::GetLedgerProof => "getledgerproof"@,
        Method::GetMemoryPool => "getmemorypool"@,
        Method::GetTransaction => "gettransaction"@,
        Method::GetTransition => "gettransition"@,
        Method::GetConnectedPeers => "getconnectedpeers"@,
        Method::GetNodeState => "getnodestate"@,
        Method::SendTransaction => "sendtransaction"@,
    }
}

/// What a method takes from the parameters.
#[derive(Clone, Copy, Debug, PartialEq, Eq, Structural)]
pub enum Expected {
    /// Nothing.
    Nothing,
    /// A block height.
    Height,
    /// A first and a last block height.
    Heights,
    /// Any value.
    Value,
    /// A string; any other value counts as an empty one.
    Text,
}

/// What a method takes from the parameters.
pub open spec fn expected(method: Method) -> Expected {
    if method is GetBlock
        || method is GetBlockHash
        || method is GetBlockHeader
        || method is GetBlockTransactions {
        Expected::Height
    } else if method is GetBlocks || method is GetBlockHashes {
        Expected::Heights
    } else if method is GetBlockHeight
        || method is GetCiphertext
        || method is GetLedgerProof
        || method is GetTransaction
        || method is GetTransition {
        Expected::Value
    } else if method is SendTransaction {
        Expected::Text
    } else {
        Expected::Nothing
    }
}

/// The method of a name, if there is one.
pub open spec fn method_named(name: Seq<char>) -> Option<Method> {
    if exists|method: Method| method_name(method) == name {
        Some(choose|method: Method| method_name(method) == name)
    } else {
        None
    }
}

/// Whether a text is the name of a method that expects parameters: of one that takes something from them.
pub open spec fn expects_params(name: Seq<char>) -> bool {
    exists|method: Method| method_name(method) == name && expected(method) != Expected::Nothing
}

/// No two methods have the same name.
pub proof fn law_method_names_differ(a: Method, b: Method)
    ensures
        method_name(a) == method_name(b) <==> a == b,
{
    reveal_strlit("latestblock");
    reveal_strlit("latestblockheight");
    reveal_strlit("latestcumulativeweight");
    reveal_strlit("latestblockhash");
    reveal_strlit("latestblockheader");
    reveal_strlit("latestblocktransactions");
    reveal_strlit("latestledgerroot");
    reveal_strlit("getblock");
    reveal_strlit("getblocks");
    reveal_strlit("getblockheight");
    reveal_strlit("getblockhash");
    reveal_strlit("getblockhashes");
    reveal_strlit("getblockheader");
    reveal_strlit("getblocktemplate");
    reveal_strlit("getblocktransactions");
    reveal_strlit("getciphertext");
    reveal_strlit("getledgerproof");
    reveal_strlit("getmemorypool");
    reveal_strlit("gettransaction");
    reveal_strlit("gettransition");
    reveal_strlit("getconnectedpeers");
    reveal_strlit("getnodestate");
    reveal_strlit("sendtransaction");
    assert("latestblock"@.len() == 11);
    assert("latestblockheight"@.len() == 17
        && "latestblockheight"@[0] == 'l'
        && "latestblockheight"@[13] == 'i');
    assert("latestcumulativeweight"@.len() == 22);
    assert("latestblockhash"@.len() == 15 && "latestblockhash"@[0] == 'l');
    assert("latestblockheader"@.len() == 17
        && "latestblockheader"@[0] == 'l'
        && "latestblockheader"@[13] == 'a');
    assert("latestblocktransactions"@.len() == 23);
    assert("latestledgerroot"@.len() == 16 && "latestledgerroot"@[0] == 'l');
    assert("getblock"@.len() == 8);
    assert("getblocks"@.len() == 9);
    assert("getblockheight"@.len() == 14
        && "getblockheight"@[3] == 'b'
        && "getblockheight"@[9] == 'e'
        && "getblockheight"@[10] == 'i');
    assert("getblockhash"@.len() == 12 && "getblockhash"@[3] == 'b');
    assert("getblockhashes"@.len() == 14
        && "getblockhashes"@[3] == 'b'
        && "getblockhashes"@[9] == 'a');
    assert("getblockheader"@.len() == 14
        && "getblockheader"@[3] == 'b'
        && "getblockheader"@[9] == 'e'
        && "getblockheader"@[10] == 'a');
    assert("getblocktemplate"@.len() == 16 && "getblocktemplate"@[0] == 'g');
    assert("getblocktransactions"@.len() == 20);
    assert("getciphertext"@.len() == 13 && "getciphertext"@[3] == 'c');
    assert("getledgerproof"@.len() == 14 && "getledgerproof"@[3] == 'l');
    assert("getmemorypool"@.len() == 13 && "getmemorypool"@[3] == 'm');
    assert("gettransaction"@.len() == 14 && "gettransaction"@[3] == 't');
    assert("gettransition"@.len() == 13 && "gettransition"@[3] == 't');
    assert("getconnectedpeers"@.len() == 17 && "getconnectedpeers"@[0] == 'g');
    assert("getnodestate"@.len() == 12 && "getnodestate"@[3] == 'n');
    assert("sendtransaction"@.len() == 15 && "sendtransaction"@[0] == 's');
}

impl Method {
    /// The name by which the method is called.
    pub fn name(&self) -> (r: &'static str)
        ensures
            r@ == method_name(*self),
    {
        match self {
            Method::LatestBlock => "latestblock",
            Method::LatestBlockHeight => "latestblockheight",
            Method::LatestCumulativeWeight => "latestcumulativeweight",
            Method::LatestBlockHash => "latestblockhash",
            Method::LatestBlockHeader => "latestblockheader",
            Method::LatestBlockTransactions => "latestblocktransactions",
            Method::LatestLedgerRoot => "latestledgerroot",
            Method::GetBlock => "getblock",
            Method::GetBlocks => "getblocks",
            Method::GetBlockHeight => "getblockheight",
            Method::GetBlockHash => "getblockhash",
            Method::GetBlockHashes => "getblockhashes",
            Method::GetBlockHeader => "getblockheader",
            Method::GetBlockTemplate => "getblocktemplate",
            Method::GetBlockTransactions => "getblocktransactions",
            Method::GetCiphertext => "getciphertext",
            Method::GetLedgerProof => "getledgerproof",
            Method::GetMemoryPool => "getmemorypool",
            Method::GetTransaction => "gettransaction",
            Method::GetTransition => "gettransition",
            Method::GetConnectedPeers => "getconnectedpeers",
            Method::GetNodeState => "getnodestate",
            Method::SendTransaction => "sendtransaction",
        }
    }

    /// The method of a name, if there is one.
    pub fn named(name: &str) -> (r: Option<Method>)
        ensures
            match r {
                Some(method) => name@ == method_name(method),
                None => forall|method: Method| name@ != #[trigger] method_name(method),
            },
            r == method_named(name@),
    {
        let r = if same_text(name, "latestblock") {
            Some(Method::LatestBlock)
        } else if same_text(name, "latestblockheight") {
            Some(Method::LatestBlockHeight)
        } else if same_text(name, "latestcumulativeweight") {
            Some(Method::LatestCumulativeWeight)
        } else if same_text(name, "latestblockhash") {
            Some(Method::LatestBlockHash)
        } else if same_text(name, "latestblockheader") {
            Some(Method::LatestBlockHeader)
        } else if same_text(name, "latestblocktransactions") {
            Some(Method::LatestBlockTransactions)
        } else if same_text(name, "latestledgerroot") {
            Some(Method::LatestLedgerRoot)
        } else if same_text(name, "getblock") {
            Some(Method::GetBlock)
        } else if same_text(name, "getblocks") {
            Some(Method::GetBlocks)
        } else if same_text(name, "getblockheight") {
            Some(Method::GetBlockHeight)
        } else if same_text(name, "getblockhash") {
            Some(Method::GetBlockHash)
        } else if same_text(name, "getblockhashes") {
            Some(Method::GetBlockHashes)
        } else if same_text(name, "getblockheader") {
            Some(Method::GetBlockHeader)
        } else if same_text(name, "getblocktemplate") {
            Some(Method::GetBlockTemplate)
        } else if same_text(name, "getblocktransactions") {
            Some(Method::GetBlockTransactions)
        } else if same_text(name, "getciphertext") {
            Some(Method::GetCiphertext)
        } else if same_text(name, "getledgerproof") {
            Some(Method::GetLedgerProof)
        } else if same_text(name, "getmemorypool") {
            Some(Method::GetMemoryPool)
        } else if same_text(name, "gettransaction") {
            Some(Method::GetTransaction)
        } else if same_text(name, "gettransition") {
            Some(Method::GetTransition)
        } else if same_text(name, "getconnectedpeers") {
            Some(Method::GetConnectedPeers)
        } else if same_text(name, "getnodestate") {
            Some(Method::GetNodeState)
        } else if same_text(name, "sendtransaction") {
            Some(Method::SendTransaction)
        } else {
            None
        };
        proof {
            if let Some(method) = r {
                assert(method_name(method) == name@);
                law_method_names_differ(method, choose|m: Method| method_name(m) == name@);
            }
        }
        r
    }

    /// What the method takes from the parameters.
    pub fn expected(&self) -> (r: Expected)
        ensures
            r == expected(*self),
    {
        match self {
            Method::LatestBlock => Expected::Nothing,
            Method::LatestBlockHeight => Expected::Nothing,
            Method::LatestCumulativeWeight => Expected::Nothing,
            Method::LatestBlockHash => Expected::Nothing,
            Method::LatestBlockHeader => Expected::Nothing,
            Method::LatestBlockTransactions => Expected::Nothing,
            Method::LatestLedgerRoot => Expected::Nothing,
            Method::GetBlock => Expected::Height,
            Method::GetBlocks => Expected::Heights,
            Method::GetBlockHeight => Expected::Value,
            Method::GetBlockHash => Expected::Height,
            Method::GetBlockHashes => Expected::Heights,
            Method::GetBlockHeader => Expected::Height,
            Method::GetBlockTemplate => Expected::Nothing,
            Method::GetBlockTransactions => Expected::Height,
            Method::GetCiphertext => Expected::Value,
            Method::GetLedgerProof => Expected::Value,
            Method::GetMemoryPool => Expected::Nothing,
            Method::GetTransaction => Expected::Value,
            Method::GetTransition => Expected::Value,
            Method::GetConnectedPeers => Expected::Nothing,
            Method::GetNodeState => Expected::Nothing,
            Method::SendTransaction => Expected::Text,
        }
    }
}

/// Whether a text is the name of a method that expects parameters.
pub fn is_expecting_params(name: &str) -> (r: bool)
    ensures
        r == expects_params(name@),
{
    match Method::named(name) {
        Some(method) => {
            proof {
                lemma_expects_params(method);
            }
            method.expected() != Expected::Nothing
        },
        None => false,
    }
}

/// The name of a method is one that expects parameters exactly if the method takes something.
proof fn lemma_expects_params(method: Method)
    ensures
        expects_params(method_name(method)) <==> expected(method) != Expected::Nothing,
{
    assert forall|other: Method| method_name(other) == method_name(method) implies other
        == method by {
        law_method_names_differ(other, method);
    }
}

/// The message that goes with a code.
pub open spec fn standard_message(code: i64) -> Seq<char> {
    if code == -32700 {
        "Parse error"@
    } else if code == -32600 {
        "Invalid Request"@
    } else if code == -32601 {
        "Method not found"@
    } else if code == -32602 {
        "Invalid params"@
    } else if code == -32603 {
        "Internal error"@
    } else {
        "Server error"@
    }
}

/// Calls `json_rpc_types::Error::from_code`, which takes the message that goes with the code.
#[verifier::external_body]
fn error_from_code(code: i64) -> (r: RpcError)
    ensures
        r@ == (ErrorView { code, message: standard_message(code), data: None }),
{
    let error = json_rpc_types::Error::<String>::from_code(json_rpc_types::ErrorCode::from_code(code));
    RpcError { code: error.code.code(), message: error.message.to_string(), data: error.data }
}

/// Calls `json_rpc_types::Error::with_custom_msg`, which copies the message into a
/// buffer of 31 bytes: it panics on a longer message, and on an empty one.
#[verifier::external_body]
fn error_with_custom_msg(code: i64, message: &str) -> (r: RpcError)
    requires
        1 <= encode_utf8(message@).len() <= 31,
    ensures
        r@ == (ErrorView { code, message: message@, data: None }),
{
    let code = json_rpc_types::ErrorCode::from_code(code);
    let error = json_rpc_types::Error::<String>::with_custom_msg(code, message);
    RpcError { code: error.code.code(), message: error.message.to_string(), data: error.data }
}

/// How `jsonrpc_core` describes a code.
pub open spec fn core_description(code: i64) -> Seq<char> {
    if code == -32700 {
        "Parse error"@
    } else if code == -32600 {
        "Invalid request"@
    } else if code == -32601 {
        "Method not found"@
    } else if code == -32602 {
        "Invalid params"@
    } else if code == -32603 {
        "Internal error"@
    } else {
        "Server error"@
    }
}

/// Calls `to_string` on a `jsonrpc_core::Error`: the description of its code, a
/// colon and a space, and its message.
#[verifier::external_body]
fn core_error_to_string(code: i64, message: &str) -> (r: String)
    ensures
        r@ == core_description(code) + ": "@ + message@,
{
    let code = jsonrpc_core::ErrorCode::from(code);
    jsonrpc_core::Error { code, message: message.to_owned(), data: None }.to_string()
}

/// An error of the server itself, with what went wrong as its data.
pub open spec fn crate_error(text: Seq<char>) -> ErrorView {
    ErrorView { code: SERVER_ERROR, message: "internal error"@, data: Some(text) }
}

/// Converts what went wrong in a method into an error.
pub fn convert_crate_err(text: String) -> (r: RpcError)
    ensures
        r@ == crate_error(text@),
{
    proof {
        lemma_ascii_literals();
    }
    let mut error = error_with_custom_msg(SERVER_ERROR, "internal error");
    error.data = Some(text);
    error
}

/// Converts an error of `jsonrpc_core`, given by its code and its message.
pub fn convert_core_err(code: i64, message: &str) -> (r: RpcError)
    ensures
        r@ == (ErrorView {
            code: INTERNAL_ERROR,
            message: "JSONRPC server error"@,
            data: Some(core_description(code) + ": "@ + message@),
        }),
{
    proof {
        lemma_ascii_literals();
    }
    let mut error = error_with_custom_msg(INTERNAL_ERROR, "JSONRPC server error");
    error.data = Some(core_error_to_string(code, message));
    error
}

/// The custom messages fit the buffer of an error.
proof fn lemma_ascii_literals()
    ensures
        1 <= encode_utf8("internal error"@).len() <= 31,
        1 <= encode_utf8("JSONRPC server error"@).len() <= 31,
        1 <= encode_utf8("Couldn't read the RPC body"@).len() <= 31,
        1 <= encode_utf8("Couldn't parse the RPC body"@).len() <= 31,
        1 <= encode_utf8("Invalid block height!"@).len() <= 31,
{
    reveal_strlit("internal error");
    reveal_strlit("JSONRPC server error");
    reveal_strlit("Couldn't read the RPC body");
    reveal_strlit("Couldn't parse the RPC body");
    reveal_strlit("Invalid block height!");
    vstd::utf8::is_ascii_chars_encode_utf8("internal error"@);
    vstd::utf8::is_ascii_chars_encode_utf8("JSONRPC server error"@);
    vstd::utf8::is_ascii_chars_encode_utf8("Couldn't read the RPC body"@);
    vstd::utf8::is_ascii_chars_encode_utf8("Couldn't parse the RPC body"@);
    vstd::utf8::is_ascii_chars_encode_utf8("Invalid block height!"@);
}

/// What a method is called with.
#[derive(Debug, PartialEq, Eq)]
pub enum Argument {
    /// Nothing.
    Nothing,
    /// A block height.
    Height(u32),
    /// A first and a last block height.
    Heights(u32, u32),
    /// A JSON value as a text.
    Value(String),
    /// A string.
    Text(String),
}

/// What an argument is.
pub enum ArgumentView {
    Nothing,
    Height(u32),
    Heights(u32, u32),
    Value(Seq<char>),
    Text(Seq<char>),
}

impl View for Argument {
    type V = ArgumentView;

    open spec fn view(&self) -> ArgumentView {
        match *self {
            Argument::Nothing => ArgumentView::Nothing,
            Argument::Height(height) => ArgumentView::Height(height),
            Argument::Heights(first, last) => ArgumentView::Heights(first, last),
            Argument::Value(value) => ArgumentView::Value(value@),
            Argument::Text(text) => ArgumentView::Text(text@),
        }
    }
}

/// What is done about a request: it is answered at once, or a method is called.
#[derive(Debug, PartialEq, Eq)]
pub enum Plan {
    Answer(Response),
    Call { id: Option<Id>, method: Method, argument: Argument },
}

/// What a plan is.
pub enum PlanView {
    Answer(ResponseView),
    Call(Option<IdView>, Method, ArgumentView),
}

impl View for Plan {
    type V = PlanView;

    open spec fn view(&self) -> PlanView {
        match *self {
            Plan::Answer(response) => PlanView::Answer(response@),
            Plan::Call { id, method, argument } => PlanView::Call(id_view(id), method, argument@),
        }
    }
}

/// The standard error of a code.
pub open spec fn standard_error(code: i64) -> ErrorView {
    ErrorView { code, message: standard_message(code), data: None }
}

/// A parse error with a message of its own.
pub open spec fn parse_error(message: Seq<char>, data: Option<Seq<char>>) -> ErrorView {
    ErrorView { code: PARSE_ERROR, message, data }
}

/// The answer that an error is.
pub open spec fn error_response(error: ErrorView, id: Option<IdView>) -> ResponseView {
    ResponseView { jsonrpc: Version::V2, payload: Err(error), id }
}

/// The parameters that a request's method goes by: a list that is not empty, where
/// the method expects parameters, and none otherwise.
pub open spec fn read_params_of(request: RpcRequestView) -> Result<Seq<Seq<char>>, ErrorView> {
    if expects_params(request.method) {
        match request.params {
            Some(ParamsView::List(values)) => if values.len() > 0 {
                Ok(values)
            } else {
                Err(standard_error(INVALID_PARAMS))
            },
            _ => Err(standard_error(INVALID_PARAMS)),
        }
    } else {
        Ok(Seq::empty())
    }
}

/// Whether a request has as many parameters as its method takes, if it has any.
pub open spec fn has_enough_params(request: RpcRequestView) -> bool {
    match (method_named(request.method), read_params_of(request)) {
        (Some(method), Ok(params)) => expected(method) == Expected::Heights ==> params.len() >= 2,
        _ => true,
    }
}

/// What a method is called with, if the parameters give that.
pub open spec fn argument_of(method: Method, params: Seq<Seq<char>>) -> Option<ArgumentView> {
    match expected(method) {
        Expected::Nothing => Some(ArgumentView::Nothing),
        Expected::Height => match json_u32(params[0]) {
            Some(height) => Some(ArgumentView::Height(height)),
            None => None,
        },
        Expected::Heights => match (json_u32(params[0]), json_u32(params[1])) {
            (Some(first), Some(last)) => Some(ArgumentView::Heights(first, last)),
            _ => None,
        },
        Expected::Value => Some(ArgumentView::Value(params[0])),
        Expected::Text => Some(
            ArgumentView::Text(
                match json_string(params[0]) {
                    Some(text) => text,
                    None => Seq::empty(),
                },
            ),
        ),
    }
}

/// What is done about a request.
pub open spec fn planned(request: RpcRequestView) -> PlanView {
    match read_params_of(request) {
        Err(error) => PlanView::Answer(error_response(error, request.id)),
        Ok(params) => match method_named(request.method) {
            None => PlanView::Answer(error_response(standard_error(METHOD_NOT_FOUND), request.id)),
            Some(method) => match argument_of(method, params) {
                Some(argument) => PlanView::Call(request.id, method, argument),
                None => PlanView::Answer(
                    error_response(parse_error("Invalid block height!"@, None), request.id),
                ),
            },
        },
    }
}

/// The name of a method that takes something is that of a method that expects parameters.
proof fn lemma_taking_methods_expect_params(name: Seq<char>)
    ensures
        method_named(name) matches Some(method) ==> expected(method) != Expected::Nothing
            ==> expects_params(name),
{
    if let Some(method) = method_named(name) {
        assert(method_name(method) == name);
    }
}

/// Reads the parameters of a request, and ensures that there are some where the method expects them.
pub fn read_params(request: &Request) -> (r: Result<Vec<String>, RpcError>)
    ensures
        match r {
            Ok(params) => read_params_of(request@) == Ok::<Seq<Seq<char>>, ErrorView>(
                texts(params@),
            ),
            Err(error) => read_params_of(request@) == Err::<Seq<Seq<char>>, ErrorView>(error@),
        },
{
    if is_expecting_params(request.method.as_str()) {
        match &request.params {
            Some(Params::List(values)) => {
                if values.len() == 0 {
                    return Err(error_from_code(INVALID_PARAMS));
                }
                let mut params: Vec<String> = Vec::new();
                for i in 0..values.len()
                    invariant
                        params@ == values@.take(i as int),
                {
                    params.push(values[i].clone());
                    assert(params@ =~= values@.take(i + 1));
                }
                assert(values@.take(values@.len() as int) =~= values@);
                Ok(params)
            },
            _ => Err(error_from_code(INVALID_PARAMS)),
        }
    } else {
        let params: Vec<String> = Vec::new();
        assert(texts(params@) =~= Seq::empty());
        Ok(params)
    }
}

/// Copies an optional identifier.
fn copy_id(id: &Option<Id>) -> (r: Option<Id>)
    ensures
        id_view(r) == id_view(*id),
{
    match id {
        Some(id) => Some(id.clone()),
        None => None,
    }
}

/// The answer that an error is.
fn answer_error(error: RpcError, id: Option<Id>) -> (r: Response)
    ensures
        r@ == error_response(error@, id_view(id)),
{
    Response { jsonrpc: Version::V2, payload: Err(error), id }
}

/// The argument of a method, if the parameters give it.
fn read_argument(method: Method, mut params: Vec<String>) -> (r: Option<Argument>)
    requires
        expected(method) != Expected::Nothing ==> params@.len() >= 1,
        expected(method) == Expected::Heights ==> params@.len() >= 2,
    ensures
        (match r {
            Some(argument) => Some(argument@),
            None => None,
        }) == argument_of(method, texts(params@)),
{
    match method.expected() {
        Expected::Nothing => Some(Argument::Nothing),
        Expected::Height => match json_to_u32(params.remove(0).as_str()) {
            Some(height) => Some(Argument::Height(height)),
            None => None,
        },
        Expected::Heights => {
            let first = json_to_u32(params.remove(0).as_str());
            let last = json_to_u32(params.remove(0).as_str());
            match (first, last) {
                (Some(first), Some(last)) => Some(Argument::Heights(first, last)),
                _ => None,
            }
        },
        Expected::Value => Some(Argument::Value(params.remove(0))),
        Expected::Text => match json_to_str(params[0].as_str()) {
            Some(text) => Some(Argument::Text(text)),
            None => {
                proof {
                    reveal_strlit("");
                    assert(""@ =~= Seq::empty());
                }
                Some(Argument::Text("".to_owned()))
            },
        },
    }
}

/// Decides what is done about a request.
pub fn handle_request(request: &Request) -> (r: Plan)
    requires
        has_enough_params(request@),
    ensures
        r@ == planned(request@),
{
    let id = copy_id(&request.id);
    // Read the request params.
    let params = match read_params(request) {
        Ok(params) => params,
        Err(error) => {
            return Plan::Answer(answer_error(error, id));
        },
    };
    // Handle the request method.
    match Method::named(request.method.as_str()) {
        Some(method) => {
            proof {
                lemma_taking_methods_expect_params(request.method@);
                assert(texts(params@).len() == params@.len());
            }
            match read_argument(method, params) {
                Some(argument) => Plan::Call { id, method, argument },
                None => {
                    proof {
                        lemma_ascii_literals();
                    }
                    let error = error_with_custom_msg(PARSE_ERROR, "Invalid block height!");
                    Plan::Answer(answer_error(error, id))
                },
            }
        },
        None => Plan::Answer(answer_error(error_from_code(METHOD_NOT_FOUND), id)),
    }
}

/// Whether a request has as many parameters as its method takes, if it has any.
pub fn takes_enough_params(request: &Request) -> (r: bool)
    ensures
        r == has_enough_params(request@),
{
    match (Method::named(request.method.as_str()), read_params(request)) {
        (Some(method), Ok(params)) => {
            assert(texts(params@).len() == params@.len());
            method.expected() != Expected::Heights || params.len() >= 2
        },
        _ => true,
    }
}

/// The text of a result: `null` where the result has no JSON text.
pub open spec fn text_of_result(text: Option<Seq<char>>) -> Seq<char> {
    match text {
        Some(text) => text,
        None => "null"@,
    }
}

/// The answer to a request whose method gave a result, as a JSON text if it has one, or went wrong.
pub open spec fn outcome_response(
    result: Result<Option<Seq<char>>, Seq<char>>,
    id: Option<IdView>,
) -> ResponseView {
    ResponseView {
        jsonrpc: Version::V2,
        payload: match result {
            Ok(text) => Ok(text_of_result(text)),
            Err(text) => Err(crate_error(text)),
        },
        id,
    }
}

/// Takes the JSON text of a result, or `null` where the result has none.
pub fn result_text(text: Option<String>) -> (r: String)
    ensures
        r@ == text_of_result(optional_text(text)),
{
    match text {
        Some(text) => text,
        None => "null".to_owned(),
    }
}

/// Makes the answer to a request of the result of its method, which is a JSON text
/// where the result can be written as one.
pub fn result_to_response(
    id: Option<Id>,
    result: Result<Option<String>, RpcError>,
) -> (r: Response)
    ensures
        r@ == (ResponseView {
            jsonrpc: Version::V2,
            payload: match result {
                Ok(text) => Ok(text_of_result(optional_text(text))),
                Err(error) => Err(error@),
            },
            id: id_view(id),
        }),
{
    match result {
        Ok(text) => Response { jsonrpc: Version::V2, payload: Ok(result_text(text)), id },
        Err(error) => Response { jsonrpc: Version::V2, payload: Err(error), id },
    }
}

/// The body of a request, as it was read.
#[derive(Debug, PartialEq, Eq)]
pub enum Body {
    /// The bytes of the body.
    Data(Vec<u8>),
    /// Reading failed, for a reason.
    Failed(String),
    /// There is no body.
    Empty,
}

/// What is done about the body of a request.
#[derive(Debug, PartialEq, Eq)]
pub enum Step {
    /// It is answered with these bytes.
    Respond(Vec<u8>),
    /// A method is called, and the request is answered with what it comes to.
    Call { id: Option<Id>, method: Method, argument: Argument },
    /// The method takes a second parameter, and there is none: the request is not answered.
    MissingParameter,
}

/// What a step is.
pub enum StepView {
    Respond(Seq<u8>),
    Call(Option<IdView>, Method, ArgumentView),
    MissingParameter,
}

impl View for Step {
    type V = StepView;

    open spec fn view(&self) -> StepView {
        match *self {
            Step::Respond(bytes) => StepView::Respond(bytes@),
            Step::Call { id, method, argument } => StepView::Call(id_view(id), method, argument@),
            Step::MissingParameter => StepView::MissingParameter,
        }
    }
}

/// The answer to a body that could not be read.
pub open spec fn unreadable_response(reason: Option<Seq<char>>) -> ResponseView {
    error_response(parse_error("Couldn't read the RPC body"@, reason), None)
}

/// The answer to a body that is not a request.
pub open spec fn unparsable_response() -> ResponseView {
    error_response(parse_error("Couldn't parse the RPC body"@, None), None)
}

/// What is done about the body of a request.
pub open spec fn step_for(body: Body) -> StepView {
    match body {
        Body::Failed(reason) => StepView::Respond(
            encoded_response(unreadable_response(Some(reason@))),
        ),
        Body::Empty => StepView::Respond(encoded_response(unreadable_response(None))),
        Body::Data(data) => match decoded_request(data@) {
            None => StepView::Respond(encoded_response(unparsable_response())),
            Some(request) => if !has_enough_params(request) {
                StepView::MissingParameter
            } else {
                match planned(request) {
                    PlanView::Answer(response) => StepView::Respond(encoded_response(response)),
                    PlanView::Call(id, method, argument) => StepView::Call(id, method, argument),
                }
            },
        },
    }
}

/// Decides what is done about the body of a request.
pub fn handle_rpc(body: Body) -> (r: Step)
    ensures
        r@ == step_for(body),
        r matches Step::Call { id, .. } ==> id_wf(id_view(id)),
{
    proof {
        lemma_ascii_literals();
    }
    // Ready the body of the request.
    let data = match body {
        Body::Data(data) => data,
        Body::Failed(reason) => {
            let mut error = error_with_custom_msg(PARSE_ERROR, "Couldn't read the RPC body");
            error.data = Some(reason);
            return Step::Respond(encode_response(answer_error(error, None)));
        },
        Body::Empty => {
            let error = error_with_custom_msg(PARSE_ERROR, "Couldn't read the RPC body");
            return Step::Respond(encode_response(answer_error(error, None)));
        },
    };
    // Deserialize the JSON-RPC request.
    let request = match decode_request(data.as_slice()) {
        Some(request) => request,
        None => {
            let error = error_with_custom_msg(PARSE_ERROR, "Couldn't parse the RPC body");
            return Step::Respond(encode_response(answer_error(error, None)));
        },
    };
    if !takes_enough_params(&request) {
        return Step::MissingParameter;
    }
    match handle_request(&request) {
        Plan::Answer(response) => Step::Respond(encode_response(response)),
        Plan::Call { id, method, argument } => Step::Call { id, method, argument },
    }
}

/// Answers a request with what its method came to: a result, as a JSON text if it has one, or
/// what went wrong.
pub fn respond(id: Option<Id>, result: Result<Option<String>, String>) -> (r: Vec<u8>)
    requires
        id_wf(id_view(id)),
    ensures
        r@ == encoded_response(
            outcome_response(
                match result {
                    Ok(text) => Ok(optional_text(text)),
                    Err(text) => Err(text@),
                },
                id_view(id),
            ),
        ),
{
    let result = match result {
        Ok(text) => Ok(text),
        Err(text) => Err(convert_crate_err(text)),
    };
    encode_response(result_to_response(id, result))
}

} // verus!
