//! The JSON-RPC 2.0 message types.
use vstd::prelude::*;

use crate::codes::ErrorCode;
use crate::json::JsonValue;

verus! {

/// The value of a message's `jsonrpc` member.
#[derive(Debug, PartialEq, Clone)]
pub enum Version {
    V2,
    Other(String),
}

/// A request identifier.
#[derive(Debug, PartialEq, Clone, Hash, Eq)]
pub enum Id {
    Null,
    Number(i64),
    String(String),
}

/// Structured request parameters: by position or by name.
#[derive(Debug, PartialEq, Clone)]
pub enum Params {
    Array(Vec<serde_json::Value>),
    Object(serde_json::Map<String, serde_json::Value>),
}

#[derive(Debug, PartialEq, Clone)]
pub struct Request {
    pub jsonrpc: Option<Version>,
    pub method: String,
    pub params: Option<Params>,
    pub id: Id,
}

#[derive(Debug, PartialEq, Clone)]
pub struct Notification {
    pub jsonrpc: Option<Version>,
    pub method: String,
    pub params: Option<Params>,
}

#[derive(Debug, PartialEq, Clone)]
pub enum Response {
    Success(SuccessResponse),
    Error(ErrorResponse),
}

#[derive(Debug, PartialEq, Clone)]
pub struct SuccessResponse {
    pub jsonrpc: Option<Version>,
    pub result: serde_json::Value,
    pub id: Id,
}

#[derive(Debug, PartialEq, Clone)]
pub struct ErrorResponse {
    pub jsonrpc: Option<Version>,
    pub error: Error,
    pub id: Id,
}

/// The error object of an error response.
#[derive(Debug, PartialEq, Clone)]
pub struct Error {
    pub code: ErrorCode,
    pub message: String,
    pub data: Option<serde_json::Value>,
}

/// Any message of the protocol.
#[derive(Debug, PartialEq, Clone)]
pub enum Message {
    Request(Request),
    Notification(Notification),
    Response(Response),
}

impl Response {
    /// The identifier that the response answers.
    pub open spec fn spec_id(&self) -> Id {
        match self {
            Response::Success(r) => r.id,
            Response::Error(r) => r.id,
        }
    }

    pub fn id(&self) -> (id: &Id)
        ensures
            *id == self.spec_id(),
    {
        match self {
            Response::Success(success_response) => &success_response.id,
            Response::Error(error_response) => &error_response.id,
        }
    }
}

impl Error {
    /// The error object that stands for a failure of the server itself, with
    /// the failure's description as message.
    pub fn internal(message: String) -> (e: Error)
        ensures
            e.code == ErrorCode::InternalError,
            e.message == message,
            e.data is None,
    {
        Error { code: ErrorCode::InternalError, message, data: None }
    }
}

/// The JSON value that a handler's parameters are decoded from: the
/// parameters as an array or object, or `null` when the message has none.
pub open spec fn spec_params_value(params: Option<Params>) -> JsonValue {
    match params {
        None => JsonValue::Null,
        Some(Params::Array(items)) => JsonValue::Array(items),
        Some(Params::Object(members)) => JsonValue::Object(members),
    }
}

impl vstd::std_specs::convert::FromSpecImpl<Params> for JsonValue {
    open spec fn obeys_from_spec() -> bool {
        true
    }

    open spec fn from_spec(params: Params) -> JsonValue {
        spec_params_value(Some(params))
    }
}

impl From<Params> for JsonValue {
    fn from(params: Params) -> (v: JsonValue) {
        match params {
            Params::Array(items) => JsonValue::Array(items),
            Params::Object(members) => JsonValue::Object(members),
        }
    }
}

pub fn params_value(params: Option<Params>) -> (v: JsonValue)
    ensures
        v == spec_params_value(params),
{
    match params {
        Some(p) => JsonValue::from(p),
        None => JsonValue::Null,
    }
}

} // verus!
