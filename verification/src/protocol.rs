//! The protocol's fixed answers and the shaping of what goes in and out of
//! client calls and method handlers.
use vstd::prelude::*;

use serde_json::Error as JsonError;

use crate::codes::ErrorCode;
use crate::errors::{ChannelError, ClientError, ProtocolError, SerializationError};
use crate::json::JsonValue;
use crate::types::{Error, ErrorResponse, Id, Notification, Params, Response, SuccessResponse, Version};

verus! {

/// The error response of protocol version 2.0 that answers `id` with `code`
/// and `message` and carries no data.
pub open spec fn spec_error_response(code: ErrorCode, message: String, id: Id) -> Response {
    Response::Error(ErrorResponse {
        jsonrpc: Some(Version::V2),
        error: Error { code, message, data: None },
        id,
    })
}

/// `r` is an error response of protocol version 2.0 that answers `id` with
/// `code` and `message` and carries no data.
pub open spec fn is_error_response(r: Response, code: ErrorCode, message: Seq<char>, id: Id) -> bool {
    match r {
        Response::Error(e) => {
            &&& e.jsonrpc == Some(Version::V2)
            &&& e.error.code == code
            &&& e.error.message@ == message
            &&& e.error.data is None
            &&& e.id == id
        },
        Response::Success(_) => false,
    }
}

fn error_response(code: ErrorCode, message: String, id: Id) -> (r: Response)
    ensures
        r == spec_error_response(code, message, id),
        is_error_response(r, code, message@, id),
{
    Response::Error(ErrorResponse {
        jsonrpc: Some(Version::V2),
        error: Error { code, message, data: None },
        id,
    })
}

/// The answer to a line that is not JSON.
pub fn parse_error_response() -> (r: Response)
    ensures
        is_error_response(r, ErrorCode::ParseError, "Parse error"@, Id::Null),
{
    error_response(ErrorCode::ParseError, String::from_str("Parse error"), Id::Null)
}

/// The answer to a value that is not a message, and to an empty batch.
pub fn invalid_request_response() -> (r: Response)
    ensures
        is_error_response(r, ErrorCode::InvalidRequest, "Invalid Request"@, Id::Null),
{
    error_response(ErrorCode::InvalidRequest, String::from_str("Invalid Request"), Id::Null)
}

/// The answer to a request for a method that has no handler.
pub fn method_not_found_response(id: Id) -> (r: Response)
    ensures
        is_error_response(r, ErrorCode::MethodNotFound, "Method not found"@, id),
{
    error_response(ErrorCode::MethodNotFound, String::from_str("Method not found"), id)
}

/// The answer to a request whose parameters the handler cannot take.
pub fn invalid_params_response(id: Id, message: String) -> (r: Response)
    ensures
        r == spec_error_response(ErrorCode::InvalidParams, message, id),
        is_error_response(r, ErrorCode::InvalidParams, message@, id),
{
    error_response(ErrorCode::InvalidParams, message, id)
}

/// The answer to a request whose handler's result cannot be turned into JSON.
pub fn internal_error_response(id: Id, message: String) -> (r: Response)
    ensures
        r == spec_error_response(ErrorCode::InternalError, message, id),
        is_error_response(r, ErrorCode::InternalError, message@, id),
{
    error_response(ErrorCode::InternalError, message, id)
}

/// What became of a request once its handler was given the request's parameters.
pub enum HandlerOutcome {
    /// The parameters could not be decoded into what the handler takes.
    RejectedParams(String),
    /// The handler succeeded with this result.
    Returned(serde_json::Value),
    /// The handler succeeded, but its result could not be turned into JSON.
    Unserializable(String),
    /// The handler failed with this error.
    Failed(Error),
}

pub open spec fn spec_method_reply(id: Id, outcome: HandlerOutcome) -> Response {
    match outcome {
        HandlerOutcome::RejectedParams(m) => spec_error_response(ErrorCode::InvalidParams, m, id),
        HandlerOutcome::Returned(v) => Response::Success(
            SuccessResponse { jsonrpc: Some(Version::V2), result: v, id },
        ),
        HandlerOutcome::Unserializable(m) => spec_error_response(ErrorCode::InternalError, m, id),
        HandlerOutcome::Failed(e) => Response::Error(
            ErrorResponse { jsonrpc: Some(Version::V2), error: e, id },
        ),
    }
}

/// The response that answers request `id`, given what its handler did.
pub fn method_reply(id: Id, outcome: HandlerOutcome) -> (r: Response)
    ensures
        r == spec_method_reply(id, outcome),
        r.spec_id() == id,
{
    match outcome {
        HandlerOutcome::RejectedParams(message) => invalid_params_response(id, message),
        HandlerOutcome::Returned(result) => Response::Success(
            SuccessResponse { jsonrpc: Some(Version::V2), result, id },
        ),
        HandlerOutcome::Unserializable(message) => internal_error_response(id, message),
        HandlerOutcome::Failed(error) => Response::Error(
            ErrorResponse { jsonrpc: Some(Version::V2), error, id },
        ),
    }
}

/// The parameters that a JSON value stands for: an array or an object is
/// passed as it is, `null` stands for no parameters, and anything else is
/// refused.
pub open spec fn spec_serialize_params(value: Result<JsonValue, JsonError>) -> Result<
    Option<Params>,
    ClientError,
> {
    match value {
        Err(e) => Err(ClientError::Serialization(SerializationError::SerializeParams(e))),
        Ok(JsonValue::Array(items)) => Ok(Some(Params::Array(items))),
        Ok(JsonValue::Object(members)) => Ok(Some(Params::Object(members))),
        Ok(JsonValue::Null) => Ok(None),
        Ok(_) => Err(ClientError::Protocol(ProtocolError::InvalidParamsShape)),
    }
}

/// Shapes the JSON form of a call's parameters, or the failure to produce
/// it, into the parameters of an outgoing message.
pub fn serialize_params(value: Result<JsonValue, JsonError>) -> (r: Result<
    Option<Params>,
    ClientError,
>)
    ensures
        r == spec_serialize_params(value),
{
    match value {
        Err(err) => Err(ClientError::Serialization(SerializationError::SerializeParams(err))),
        Ok(JsonValue::Array(items)) => Ok(Some(Params::Array(items))),
        Ok(JsonValue::Object(members)) => Ok(Some(Params::Object(members))),
        Ok(JsonValue::Null) => Ok(None),
        Ok(_) => Err(ClientError::Protocol(ProtocolError::InvalidParamsShape)),
    }
}

/// The notification for `method` with the parameters shaped from `params`.
pub open spec fn spec_notification(method: String, params: Result<JsonValue, JsonError>) -> Result<
    Notification,
    ClientError,
> {
    match spec_serialize_params(params) {
        Ok(p) => Ok(Notification { jsonrpc: Some(Version::V2), method, params: p }),
        Err(e) => Err(e),
    }
}

/// The notification that a client sends for `method` with the given
/// parameters, or why it cannot be sent.
pub fn notification(method: String, params: Result<JsonValue, JsonError>) -> (r: Result<
    Notification,
    ClientError,
>)
    ensures
        r == spec_notification(method, params),
        match spec_serialize_params(params) {
            Ok(p) => r == Ok::<Notification, ClientError>(
                Notification { jsonrpc: Some(Version::V2), method, params: p },
            ),
            Err(e) => r == Err::<Notification, ClientError>(e),
        },
{
    let params = match serialize_params(params) {
        Ok(p) => p,
        Err(e) => {
            return Err(e);
        },
    };
    Ok(Notification { jsonrpc: Some(Version::V2), method, params })
}

/// The outcome of handing a message to the run loop's channel.
pub fn sent(delivered: bool) -> (r: Result<(), ClientError>)
    ensures
        delivered ==> r == Ok::<(), ClientError>(()),
        !delivered ==> r == Err::<(), ClientError>(ClientError::Channel(ChannelError::SendFailed)),
{
    if delivered {
        Ok(())
    } else {
        Err(ClientError::Channel(ChannelError::SendFailed))
    }
}

/// What a client's request comes to, given its answer or the lack of one.
pub open spec fn spec_request_result(answer: Option<Response>) -> Result<serde_json::Value, ClientError> {
    match answer {
        None => Err(ClientError::Channel(ChannelError::ResponseChannelClosed)),
        Some(Response::Success(s)) => Ok(s.result),
        Some(Response::Error(e)) => Err(ClientError::Protocol(ProtocolError::Remote(e.error))),
    }
}

/// What a client's request comes to once its answer arrived, or did not: the
/// result of a success response, the error of an error response, or a closed
/// channel when the run loop dropped the request.
pub fn request_result(answer: Option<Response>) -> (r: Result<serde_json::Value, ClientError>)
    ensures
        r == spec_request_result(answer),
        match answer {
            None => r == Err::<serde_json::Value, ClientError>(
                ClientError::Channel(ChannelError::ResponseChannelClosed),
            ),
            Some(Response::Success(s)) => r == Ok::<serde_json::Value, ClientError>(s.result),
            Some(Response::Error(e)) => r == Err::<serde_json::Value, ClientError>(
                ClientError::Protocol(ProtocolError::Remote(e.error)),
            ),
        },
{
    match answer {
        None => Err(ClientError::Channel(ChannelError::ResponseChannelClosed)),
        Some(Response::Success(success_response)) => Ok(success_response.result),
        Some(Response::Error(error_response)) => Err(
            ClientError::Protocol(ProtocolError::Remote(error_response.error)),
        ),
    }
}

/// The typed result of a request, given the decoding of its JSON result.
pub fn decoded_result<R>(decoded: Result<R, JsonError>) -> (r: Result<R, ClientError>)
    ensures
        match decoded {
            Ok(v) => r == Ok::<R, ClientError>(v),
            Err(e) => r == Err::<R, ClientError>(
                ClientError::Serialization(SerializationError::DeserializeResult(e)),
            ),
        },
{
    match decoded {
        Ok(v) => Ok(v),
        Err(err) => Err(ClientError::Serialization(SerializationError::DeserializeResult(err))),
    }
}

/// Shaping the parameters that a message carries into a JSON value and back
/// gives the same parameters.
pub proof fn lemma_params_round_trip(params: Option<Params>)
    ensures
        spec_serialize_params(Ok(crate::types::spec_params_value(params))) == Ok::<
            Option<Params>,
            ClientError,
        >(params),
{
}

/// Every handler outcome is answered under the request's own identifier,
/// and only a returned result makes a success response.
pub proof fn lemma_method_reply_answers_request(id: Id, outcome: HandlerOutcome)
    ensures
        spec_method_reply(id, outcome).spec_id() == id,
        spec_method_reply(id, outcome) is Success <==> outcome is Returned,
{
}

/// A failing handler's error object is sent back unchanged, whatever its
/// code, message and data; a returned result is sent back as the success
/// result; undecodable parameters and an unencodable result are answered
/// with an invalid-params and an internal error carrying the failure's text.
/// Every answer is of version 2.0 and names the request.
pub proof fn lemma_handler_outcomes_are_answered_faithfully(id: Id, outcome: HandlerOutcome)
    ensures
        outcome is Failed ==> (spec_method_reply(id, outcome) matches Response::Error(r) && r.error
            == outcome->Failed_0 && r.id == id && r.jsonrpc == Some(Version::V2)),
        outcome is Returned ==> (spec_method_reply(id, outcome) matches Response::Success(r)
            && r.result == outcome->Returned_0 && r.id == id && r.jsonrpc == Some(Version::V2)),
        outcome is RejectedParams ==> (spec_method_reply(id, outcome) matches Response::Error(r)
            && r.error.code == ErrorCode::InvalidParams && r.error.message
            == outcome->RejectedParams_0 && r.error.data is None && r.id == id && r.jsonrpc == Some(
            Version::V2,
        )),
        outcome is Unserializable ==> (spec_method_reply(id, outcome) matches Response::Error(r)
            && r.error.code == ErrorCode::InternalError && r.error.message
            == outcome->Unserializable_0 && r.error.data is None && r.id == id && r.jsonrpc == Some(
            Version::V2,
        )),
{
}

/// Parameters are passed on exactly when they are an array or an object
/// (unchanged) or absent (`null`); any other JSON value is refused, and a
/// value that could not be produced is reported as such.
pub proof fn lemma_only_structured_params_pass(value: Result<JsonValue, JsonError>)
    ensures
        value is Ok && value->Ok_0 is Array ==> spec_serialize_params(value) == Ok::<
            Option<Params>,
            ClientError,
        >(Some(Params::Array(value->Ok_0->Array_0))),
        value is Ok && value->Ok_0 is Object ==> spec_serialize_params(value) == Ok::<
            Option<Params>,
            ClientError,
        >(Some(Params::Object(value->Ok_0->Object_0))),
        value is Ok && value->Ok_0 is Null ==> spec_serialize_params(value) == Ok::<
            Option<Params>,
            ClientError,
        >(None),
        value is Ok && (value->Ok_0 is Bool || value->Ok_0 is Number || value->Ok_0 is String)
            ==> spec_serialize_params(value) == Err::<Option<Params>, ClientError>(
            ClientError::Protocol(ProtocolError::InvalidParamsShape),
        ),
        value is Err ==> spec_serialize_params(value) == Err::<Option<Params>, ClientError>(
            ClientError::Serialization(SerializationError::SerializeParams(value->Err_0)),
        ),
{
}

/// A client's request returns the result of a success answer, or the error
/// object of an error answer unchanged; with no answer at all it fails with a
/// closed channel, never with a made-up result.
pub proof fn lemma_answer_reaches_the_caller(answer: Option<Response>)
    ensures
        answer is None ==> spec_request_result(answer) == Err::<serde_json::Value, ClientError>(
            ClientError::Channel(ChannelError::ResponseChannelClosed),
        ),
        answer is Some && answer->0 is Success ==> spec_request_result(answer) == Ok::<
            serde_json::Value,
            ClientError,
        >(answer->0->Success_0.result),
        answer is Some && answer->0 is Error ==> (spec_request_result(answer) matches Err(
            ClientError::Protocol(ProtocolError::Remote(e)),
        ) && e == answer->0->Error_0.error),
        spec_request_result(answer) is Ok <==> (answer is Some && answer->0 is Success),
{
}

/// A notification is sent for the method asked for, with version 2.0 and the
/// parameters shaped as for any call; when the parameters cannot be shaped,
/// nothing is sent and the shaping error is returned.
pub proof fn lemma_notification_carries_the_call(
    method: String,
    params: Result<JsonValue, JsonError>,
)
    ensures
        spec_serialize_params(params) is Ok ==> (spec_notification(method, params) matches Ok(n)
            && n.method == method && n.jsonrpc == Some(Version::V2) && n.params
            == spec_serialize_params(params)->Ok_0),
        spec_serialize_params(params) is Err ==> spec_notification(method, params) == Err::<
            Notification,
            ClientError,
        >(spec_serialize_params(params)->Err_0),
{
}

} // verus!
