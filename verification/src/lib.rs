//! A typed JSON-RPC 2.0 protocol core: message types, error codes, canned
//! error responses, parameter shaping and the dispatch engine that decides,
//! for every line read from the transport and every message queued by a
//! client handle, what is answered, which handler runs and which waiting
//! request is completed.

pub mod codes;
pub mod engine;
pub mod errors;
pub mod json;
pub mod laws;
pub mod protocol;
pub mod registry;
pub mod types;

pub use codes::ErrorCode;
pub use engine::{
    dispatch, frame, on_read, on_write, outbound, plan_line, read_line, request_message, Action,
    ChannelMessage, LinePlan, ReadStep, Router, Session,
};
pub use errors::{
    ChannelError, ClientError, ProtocolError, RuntimeError, SerializationError, TransportError,
};
pub use json::{JsonValue, ParsedLine};
pub use protocol::{
    decoded_result, internal_error_response, invalid_params_response, invalid_request_response,
    method_not_found_response, method_reply, notification, parse_error_response, request_result,
    sent, serialize_params, HandlerOutcome,
};
pub use registry::Registry;
pub use types::{
    Error, ErrorResponse, Id, Message, Notification, Params, Request, Response, SuccessResponse,
    Version,
};
