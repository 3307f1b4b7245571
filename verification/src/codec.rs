//! The JSON-RPC 2.0 envelope: how a call is written as a request, and how an
//! answer is read as a result or an error.

use crate::json::{
    array_value, copy_of, documents, json_of, lemma_documents_push, member_of, members_of,
    null_value, object_value, parse_value, parsed, string_value, unsigned_value, Json,
};
use serde_json::Value;
use vstd::prelude::*;

verus! {

/// The protocol version that every request carries.
pub const JSONRPC_VERSION: &'static str = "2.0";

/// One call: the method, its positional parameters, and the id that tells
/// this call from the client's others.
#[derive(Debug, Clone, PartialEq)]
pub struct Request {
    pub id: u64,
    pub method: String,
    pub params: Vec<Value>,
}

/// A [`Request`] as a mathematical value.
pub struct RequestView {
    pub id: u64,
    pub method: Seq<char>,
    pub params: Seq<Json>,
}

impl View for Request {
    type V = RequestView;

    open spec fn view(&self) -> RequestView {
        RequestView { id: self.id, method: self.method@, params: documents(self.params@) }
    }
}

impl RequestView {
    /// The request on the wire: an object with the members `jsonrpc`, `id`,
    /// `method` and `params`.
    pub open spec fn wire(self) -> Json {
        Json::Object(
            Map::<Seq<char>, Json>::empty().insert(
                "jsonrpc"@,
                Json::String(JSONRPC_VERSION@),
            ).insert("id"@, Json::Integer(self.id as int)).insert(
                "method"@,
                Json::String(self.method),
            ).insert("params"@, Json::Array(self.params)),
        )
    }
}

/// The error that a node reports in place of a result.
#[derive(Debug, Clone, PartialEq, Eq)]
pub struct RpcError {
    pub code: i64,
    pub message: String,
}

/// An [`RpcError`] as a mathematical value.
pub struct RpcErrorView {
    pub code: i64,
    pub message: Seq<char>,
}

impl View for RpcError {
    type V = RpcErrorView;

    open spec fn view(&self) -> RpcErrorView {
        RpcErrorView { code: self.code, message: self.message@ }
    }
}

/// Why a call gave no result.
#[derive(Debug, Clone, PartialEq, Eq)]
pub enum ClientError {
    /// No answer came back. The text is the cause as the transport gave it.
    TransportError(String),
    /// The answer is not JSON, or not an answer of the protocol.
    DecodeError,
    /// The node answered with an error of its own.
    RemoteError(RpcError),
}

/// A [`ClientError`] as a mathematical value.
pub enum ClientErrorView {
    TransportError(Seq<char>),
    DecodeError,
    RemoteError(RpcErrorView),
}

impl View for ClientError {
    type V = ClientErrorView;

    open spec fn view(&self) -> ClientErrorView {
        match *self {
            ClientError::TransportError(cause) => ClientErrorView::TransportError(cause@),
            ClientError::DecodeError => ClientErrorView::DecodeError,
            ClientError::RemoteError(error) => ClientErrorView::RemoteError(error@),
        }
    }
}

/// The outcome of a call as a mathematical value.
pub open spec fn outcome_view(outcome: Result<Value, ClientError>) -> Result<
    Json,
    ClientErrorView,
> {
    match outcome {
        Ok(value) => Ok(json_of(value)),
        Err(error) => Err(error@),
    }
}

/// The error object of an answer read as code and message: `None` unless
/// `code` is an integer that fits `i64` and `message` is a string.
pub open spec fn remote_error(error: Json) -> Option<RpcErrorView> {
    match (error.member("code"@), error.member("message"@)) {
        (Some(code), Some(message)) => match (code.integer(), message.text()) {
            (Some(code), Some(message)) => Some(RpcErrorView { code, message }),
            _ => None,
        },
        _ => None,
    }
}

/// What an answer means.
///
/// An answer is an object. Its member `error`, unless absent or null, decides:
/// the call failed, with the node's code and message where the member holds
/// them. Otherwise the call succeeded with the member `result`, or with null
/// where there is none.
pub open spec fn decoded(envelope: Json) -> Result<Json, ClientErrorView> {
    if !(envelope is Object) {
        Err(ClientErrorView::DecodeError)
    } else if envelope.member("error"@) is Some && !(envelope.member("error"@).unwrap() is Null) {
        match remote_error(envelope.member("error"@).unwrap()) {
            Some(error) => Err(ClientErrorView::RemoteError(error)),
            None => Err(ClientErrorView::DecodeError),
        }
    } else {
        match envelope.member("result"@) {
            Some(result) => Ok(result),
            None => Ok(Json::Null),
        }
    }
}

/// What the body of an answer means: a body that is not JSON is a decode
/// error, any other means what its document means.
pub open spec fn decoded_body(body: Seq<u8>) -> Result<Json, ClientErrorView> {
    match parsed(body) {
        Some(envelope) => decoded(envelope),
        None => Err(ClientErrorView::DecodeError),
    }
}

/// An exchange with the node as a mathematical value: the body of the answer,
/// or the cause of the failure to get one.
pub open spec fn exchange_view(exchange: Result<Vec<u8>, String>) -> Result<Seq<u8>, Seq<char>> {
    match exchange {
        Ok(body) => Ok(body@),
        Err(cause) => Err(cause@),
    }
}

/// What an exchange with the node means: a transport failure keeps its cause,
/// an answer means what its body means.
pub open spec fn concluded(exchange: Result<Seq<u8>, Seq<char>>) -> Result<
    Json,
    ClientErrorView,
> {
    match exchange {
        Ok(body) => decoded_body(body),
        Err(cause) => Err(ClientErrorView::TransportError(cause)),
    }
}

/// Builds the request for one call.
pub fn encode(method: &str, params: Vec<Value>, id: u64) -> (request: Request)
    ensures
        request@ == (RequestView { id, method: method@, params: documents(params@) }),
{
    Request { id, method: method.to_owned(), params }
}

impl Request {
    /// The request as the JSON value that goes on the wire.
    pub fn to_json(&self) -> (body: Value)
        ensures
            json_of(body) == self@.wire(),
    {
        let mut params: Vec<Value> = Vec::new();
        let mut i: usize = 0;
        while i < self.params.len()
            invariant
                i <= self.params.len(),
                documents(params@) == documents(self.params@).take(i as int),
            decreases self.params.len() - i,
        {
            let copy = copy_of(&self.params[i]);
            proof {
                lemma_documents_push(params@, copy);
                assert(documents(self.params@).take(i + 1) =~= documents(self.params@).take(
                    i as int,
                ).push(json_of(self.params@[i as int])));
            }
            params.push(copy);
            i += 1;
        }
        assert(documents(self.params@).take(i as int) =~= documents(self.params@));
        let mut members: Vec<(String, Value)> = Vec::new();
        members.push(("jsonrpc".to_owned(), string_value(JSONRPC_VERSION.to_owned())));
        members.push(("id".to_owned(), unsigned_value(self.id)));
        members.push(("method".to_owned(), string_value(self.method.clone())));
        members.push(("params".to_owned(), array_value(params)));
        proof {
            lemma_member_names_differ();
            reveal_with_fuel(members_of, 5);
            assert(members_of(members@) == self@.wire()->Object_0);
        }
        object_value(members)
    }
}

/// The four member names of a request differ from one another.
proof fn lemma_member_names_differ()
    ensures
        "jsonrpc"@ != "id"@,
        "jsonrpc"@ != "method"@,
        "jsonrpc"@ != "params"@,
        "id"@ != "method"@,
        "id"@ != "params"@,
        "method"@ != "params"@,
{
    reveal_strlit("jsonrpc");
    reveal_strlit("id");
    reveal_strlit("method");
    reveal_strlit("params");
    assert("jsonrpc"@.len() == 7 && "id"@.len() == 2 && "method"@.len() == 6);
    assert("method"@[0] != "params"@[0]);
}

/// Reads the error object of an answer.
fn read_error(error: &Value) -> (found: Option<RpcError>)
    ensures
        found matches Some(reported) ==> remote_error(json_of(*error)) == Some(reported@),
        found is None ==> remote_error(json_of(*error)) is None,
{
    let code = match member_of(error, "code") {
        Some(code) => code.as_i64(),
        None => None,
    };
    let message = match member_of(error, "message") {
        Some(message) => message.as_str(),
        None => None,
    };
    match (code, message) {
        (Some(code), Some(message)) => Some(RpcError { code, message: message.to_owned() }),
        _ => None,
    }
}

/// Reads an answer that has been parsed.
///
/// The error of an answer is the outcome whatever its result member holds,
/// and an answer with neither member is a success with null.
pub fn decode(envelope: &Value) -> (outcome: Result<Value, ClientError>)
    ensures
        outcome_view(outcome) == decoded(json_of(*envelope)),
        json_of(*envelope).member("error"@) matches Some(error) ==> (!(error is Null)
            ==> outcome is Err),
        json_of(*envelope).member("error"@) matches Some(error) ==> (remote_error(error)
            matches Some(reported) ==> (outcome matches Err(ClientError::RemoteError(failure))
            && failure@ == reported)),
        json_of(*envelope) is Object && json_of(*envelope).member("error"@) is None && json_of(
            *envelope,
        ).member("result"@) is None ==> (outcome matches Ok(value) && json_of(value)
            == Json::Null),
{
    if !envelope.is_object() {
        return Err(ClientError::DecodeError);
    }
    match member_of(envelope, "error") {
        Some(error) => {
            if !error.is_null() {
                return match read_error(error) {
                    Some(e) => Err(ClientError::RemoteError(e)),
                    None => Err(ClientError::DecodeError),
                };
            }
        },
        None => {},
    }
    match member_of(envelope, "result") {
        Some(result) => Ok(copy_of(result)),
        None => Ok(null_value()),
    }
}

/// Reads the body of an answer.
pub fn decode_body(body: &[u8]) -> (outcome: Result<Value, ClientError>)
    ensures
        outcome_view(outcome) == decoded_body(body@),
{
    match parse_value(body) {
        Ok(envelope) => decode(&envelope),
        Err(_) => Err(ClientError::DecodeError),
    }
}

/// Ends a call: takes what the exchange with the node gave, the body of the
/// answer or the cause of a failure to get one, and gives the call's outcome.
pub fn conclude(exchange: Result<Vec<u8>, String>) -> (outcome: Result<Value, ClientError>)
    ensures
        outcome_view(outcome) == concluded(exchange_view(exchange)),
{
    match exchange {
        Ok(body) => decode_body(body.as_slice()),
        Err(cause) => Err(ClientError::TransportError(cause)),
    }
}

} // verus!
