//! The JSON-RPC client: what is sent to the chain endpoint, and how its
//! answer is read.

use crate::error::{text_outcome, WalletError};
use crate::http::{HttpHeader, HttpResponse};
use crate::json::JsonValue;
use vstd::prelude::*;
use vstd::string::StringExecFns;
use vstd::utf8::{decode_utf8, valid_utf8};

verus! {

/// The call id of every request.
pub const RPC_CALL_ID: u64 = 1;

/// The largest response, in bytes, that is accepted from the endpoint.
pub const MAX_RESPONSE_BYTES: u64 = 2000;

/// The fee, in cycles, that accompanies every outbound HTTP request.
pub const HTTP_CYCLES: u64 = 25_000_000_000;

/// How many base units make one display unit.
pub const LAMPORTS_PER_GOR: u64 = 1_000_000_000;

/// The protocol version that every envelope names.
pub open spec fn rpc_version() -> Seq<char> {
    "2.0"@
}

/// The endpoint of the chain.
pub open spec fn chain_endpoint() -> Seq<char> {
    "https://gorchain.wstf.io"@
}

/// The name under which the host knows the sanitization hook.
pub open spec fn transform_hook() -> Seq<char> {
    "transform"@
}

/// The context that is handed to the sanitization hook: the JSON text
/// `null`.
pub open spec fn transform_context() -> Seq<u8> {
    seq![110u8, 117u8, 108u8, 108u8]
}

/// A JSON-RPC 2.0 request.
#[derive(Debug, PartialEq, Eq)]
pub struct JsonRpcRequest {
    pub jsonrpc: String,
    pub id: u64,
    pub method: String,
    pub params: Vec<JsonValue>,
}

/// A JSON-RPC 2.0 response.
#[derive(Debug, PartialEq, Eq)]
pub struct JsonRpcResponse {
    pub jsonrpc: String,
    pub id: u64,
    /// The `result` member, unless it is missing or null.
    pub result: Option<JsonValue>,
    /// The `error` member as JSON text, unless it is missing or null.
    pub error: Option<String>,
}

/// The methods of an outbound HTTP request.
#[derive(Clone, Copy, Debug, PartialEq, Eq, Structural)]
pub enum HttpMethod {
    GET,
    POST,
    HEAD,
}

/// The sanitization hook that every replica applies to a response, and
/// the context that is handed to it.
#[derive(Debug, PartialEq, Eq)]
pub struct TransformContext {
    pub function: String,
    pub context: Vec<u8>,
}

/// An outbound HTTP request, as the host's HTTP service takes it, and the
/// fee in cycles that goes with it.
#[derive(Debug, PartialEq, Eq)]
pub struct HttpRequest {
    pub url: String,
    pub method: HttpMethod,
    pub body: Option<Vec<u8>>,
    pub max_response_bytes: Option<u64>,
    pub transform: Option<TransformContext>,
    pub headers: Vec<HttpHeader>,
    pub cycles: u64,
}

/// An amount in display units: `whole` units and `nanos` billionths.
#[derive(Clone, Copy, Debug, PartialEq, Eq, Structural)]
pub struct GorAmount {
    pub whole: u64,
    pub nanos: u64,
}

/// A balance, in base units and in display units.
#[derive(Clone, Copy, Debug, PartialEq, Eq, Structural)]
pub struct BalanceResponse {
    pub balance_lamports: u64,
    pub balance_gor: GorAmount,
}

impl JsonRpcRequest {
    /// Whether this is the request that calls `method` with `params`.
    pub open spec fn calls(&self, method: Seq<char>, params: Seq<JsonValue>) -> bool {
        &&& self.jsonrpc@ == rpc_version()
        &&& self.id == RPC_CALL_ID
        &&& self.method@ == method
        &&& self.params@ == params
    }
}

impl HttpRequest {
    /// Whether this posts `body` as JSON to `url`, with the response bounded
    /// and sanitized.
    pub open spec fn posts(&self, url: Seq<char>, body: Seq<u8>) -> bool {
        &&& self.url@ == url
        &&& self.method == HttpMethod::POST
        &&& self.body matches Some(bytes) && bytes@ == body
        &&& self.max_response_bytes == Some(MAX_RESPONSE_BYTES)
        &&& self.transform matches Some(hook) && hook.function@ == transform_hook()
            && hook.context@ == transform_context()
        &&& self.headers@.len() == 1
        &&& self.headers@[0].name@ == "Content-Type"@
        &&& self.headers@[0].value@ == "application/json"@
        &&& self.cycles == HTTP_CYCLES
    }
}

/// The balance that `lamports` base units make: each display unit is a
/// billion of them.
pub open spec fn balance_of(lamports: u64) -> BalanceResponse {
    BalanceResponse {
        balance_lamports: lamports,
        balance_gor: GorAmount {
            whole: lamports / LAMPORTS_PER_GOR,
            nanos: lamports % LAMPORTS_PER_GOR,
        },
    }
}

/// The balance that a result holds: the `value` member where the result is
/// an object with one, else the result itself; in either place an unsigned
/// integer.
pub open spec fn result_balance(result: JsonValue) -> Option<u64> {
    match result.member("value"@) {
        Some(value) => value.unsigned(),
        None => result.unsigned(),
    }
}

/// What a balance query comes to, given the envelope that the response
/// body parsed to, if it parsed to one.
pub open spec fn balance_outcome(envelope: Option<JsonRpcResponse>) -> Result<
    BalanceResponse,
    WalletError,
> {
    match envelope {
        None => Err(WalletError::MalformedResponse),
        Some(response) => match response.error {
            Some(message) => Err(WalletError::RpcError(message)),
            None => match response.result {
                None => Err(WalletError::UnexpectedResultShape),
                Some(result) => match result_balance(result) {
                    Some(lamports) => Ok(balance_of(lamports)),
                    None => Err(WalletError::UnexpectedResultShape),
                },
            },
        },
    }
}

/// What the text of a reply is: the response body decoded as UTF-8; a
/// transport failure is reported as it came.
pub open spec fn reply_text(reply: Result<HttpResponse, String>) -> Result<
    Seq<char>,
    WalletError,
> {
    match reply {
        Err(message) => Err(WalletError::RpcError(message)),
        Ok(response) => if valid_utf8(response.body@) {
            Ok(decode_utf8(response.body@))
        } else {
            Err(WalletError::InvalidEncoding)
        },
    }
}

/// `String::from_utf8`: the text that the bytes encode, if they are valid
/// UTF-8.
#[verifier::external_body]
fn utf8_text(bytes: Vec<u8>) -> (text: Option<String>)
    ensures
        match text {
            Some(decoded) => valid_utf8(bytes@) && decoded@ == decode_utf8(bytes@),
            None => !valid_utf8(bytes@),
        },
{
    String::from_utf8(bytes).ok()
}

/// The request that calls `method` with `params`.
pub fn json_rpc_request(method: String, params: Vec<JsonValue>) -> (request: JsonRpcRequest)
    ensures
        request.calls(method@, params@),
{
    JsonRpcRequest { jsonrpc: String::from_str("2.0"), id: RPC_CALL_ID, method, params }
}

/// The request for the balance of `address`: `getBalance` with the address
/// as its one parameter.
pub fn balance_request(address: String) -> (request: JsonRpcRequest)
    ensures
        request.calls("getBalance"@, seq![JsonValue::Text(address)]),
{
    let mut params: Vec<JsonValue> = Vec::new();
    params.push(JsonValue::Text(address));
    assert(params@ =~= seq![JsonValue::Text(address)]);
    json_rpc_request(String::from_str("getBalance"), params)
}

/// The HTTP request that posts a serialized JSON-RPC request to `url`.
pub fn rpc_http_request(url: String, body: Vec<u8>) -> (request: HttpRequest)
    ensures
        request.posts(url@, body@),
{
    let mut headers: Vec<HttpHeader> = Vec::new();
    headers.push(
        HttpHeader {
            name: String::from_str("Content-Type"),
            value: String::from_str("application/json"),
        },
    );
    let context: Vec<u8> = vec![110u8, 117u8, 108u8, 108u8];
    assert(context@ =~= transform_context());
    HttpRequest {
        url,
        method: HttpMethod::POST,
        body: Some(body),
        max_response_bytes: Some(MAX_RESPONSE_BYTES),
        transform: Some(TransformContext { function: String::from_str("transform"), context }),
        headers,
        cycles: HTTP_CYCLES,
    }
}

/// The HTTP request that posts a serialized balance request to the chain
/// endpoint.
pub fn balance_http_request(body: Vec<u8>) -> (request: HttpRequest)
    ensures
        request.posts(chain_endpoint(), body@),
{
    rpc_http_request(String::from_str("https://gorchain.wstf.io"), body)
}

/// The text of a reply: its body as UTF-8.
pub fn response_text(reply: Result<HttpResponse, String>) -> (text: Result<String, WalletError>)
    ensures
        text_outcome(text) == reply_text(reply),
{
    match reply {
        Err(message) => Err(WalletError::RpcError(message)),
        Ok(response) => match utf8_text(response.body) {
            Some(text) => Ok(text),
            None => Err(WalletError::InvalidEncoding),
        },
    }
}

/// The balance that `lamports` base units make.
pub fn balance_from_lamports(lamports: u64) -> (balance: BalanceResponse)
    ensures
        balance == balance_of(lamports),
{
    BalanceResponse {
        balance_lamports: lamports,
        balance_gor: GorAmount {
            whole: lamports / LAMPORTS_PER_GOR,
            nanos: lamports % LAMPORTS_PER_GOR,
        },
    }
}

/// Reads the balance out of the envelope that a response body parsed to;
/// `None` stands for a body that is no envelope.
pub fn balance_from_envelope(envelope: Option<JsonRpcResponse>) -> (balance: Result<
    BalanceResponse,
    WalletError,
>)
    ensures
        balance == balance_outcome(envelope),
{
    let response = match envelope {
        Some(response) => response,
        None => {
            return Err(WalletError::MalformedResponse);
        },
    };
    if let Some(message) = response.error {
        return Err(WalletError::RpcError(message));
    }
    let result = match response.result {
        Some(result) => result,
        None => {
            return Err(WalletError::UnexpectedResultShape);
        },
    };
    let lamports = match result.get("value") {
        Some(value) => value.as_u64(),
        None => result.as_u64(),
    };
    match lamports {
        Some(lamports) => Ok(balance_from_lamports(lamports)),
        None => Err(WalletError::UnexpectedResultShape),
    }
}

} // verus!
