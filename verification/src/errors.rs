//! The errors that client handles and the run loop report, and the text that
//! describes each.
use vstd::prelude::*;

use serde_json::Error as JsonError;
use crate::types::Error;

use std::io::Error as IoError;

verus! {

#[verifier::external_type_specification]
#[verifier::external_body]
pub struct ExIoError(IoError);

/// A failure of the in-process channels between client handles and the run loop.
#[derive(Debug, Clone, Copy, PartialEq, Eq, Structural)]
pub enum ChannelError {
    SendFailed,
    ResponseChannelClosed,
    MessageChannelClosed,
}

/// A failure to turn values into JSON or back.
#[derive(Debug)]
pub enum SerializationError {
    SerializeParams(JsonError),
    DeserializeResult(JsonError),
    SerializeMessage(JsonError),
}

/// A failure at the level of the protocol: parameters that are neither an
/// array, an object nor absent, or an error response from the peer.
#[derive(Debug)]
pub enum ProtocolError {
    InvalidParamsShape,
    Remote(Error),
}

/// What a client request or notification can fail with.
#[derive(Debug)]
pub enum ClientError {
    Serialization(SerializationError),
    Protocol(ProtocolError),
    Channel(ChannelError),
}

/// A failure to read from or write to the transport.
#[derive(Debug)]
pub enum TransportError {
    Read(IoError),
    Write(IoError),
}

/// What the run loop can stop with.
#[derive(Debug)]
pub enum RuntimeError {
    Transport(TransportError),
    Serialization(SerializationError),
    Channel(ChannelError),
}

impl ChannelError {
    pub open spec fn spec_description(self) -> Seq<char> {
        match self {
            ChannelError::SendFailed => "message channel send failed"@,
            ChannelError::ResponseChannelClosed => "response channel closed"@,
            ChannelError::MessageChannelClosed => "message channel closed"@,
        }
    }

    /// The text that describes the error.
    pub fn description(&self) -> (s: String)
        ensures
            s@ == self.spec_description(),
    {
        match self {
            ChannelError::SendFailed => String::from_str("message channel send failed"),
            ChannelError::ResponseChannelClosed => String::from_str("response channel closed"),
            ChannelError::MessageChannelClosed => String::from_str("message channel closed"),
        }
    }
}

impl SerializationError {
    pub open spec fn spec_description(&self) -> Seq<char> {
        match self {
            SerializationError::SerializeParams(_) => "failed to serialize params"@,
            SerializationError::DeserializeResult(_) => "failed to deserialize response result"@,
            SerializationError::SerializeMessage(_) => "failed to serialize message"@,
        }
    }

    /// The text that describes the error.
    pub fn description(&self) -> (s: String)
        ensures
            s@ == self.spec_description(),
    {
        match self {
            SerializationError::SerializeParams(_) => String::from_str(
                "failed to serialize params",
            ),
            SerializationError::DeserializeResult(_) => String::from_str(
                "failed to deserialize response result",
            ),
            SerializationError::SerializeMessage(_) => String::from_str(
                "failed to serialize message",
            ),
        }
    }
}

impl ProtocolError {
    pub open spec fn spec_description(&self) -> Seq<char> {
        match self {
            ProtocolError::InvalidParamsShape => "invalid params shape, expected object, array, or null"@,
            ProtocolError::Remote(err) => "remote error: "@ + err.message@,
        }
    }

    /// The text that describes the error; for a remote error it carries the
    /// peer's message.
    pub fn description(&self) -> (s: String)
        ensures
            s@ == self.spec_description(),
    {
        match self {
            ProtocolError::InvalidParamsShape => String::from_str(
                "invalid params shape, expected object, array, or null",
            ),
            ProtocolError::Remote(err) => {
                let mut s = String::from_str("remote error: ");
                s.append(err.message.as_str());
                s
            },
        }
    }
}

impl ClientError {
    pub open spec fn spec_description(&self) -> Seq<char> {
        match self {
            ClientError::Serialization(err) => err.spec_description(),
            ClientError::Protocol(err) => err.spec_description(),
            ClientError::Channel(err) => err.spec_description(),
        }
    }

    /// The text that describes the error: that of the error it wraps.
    pub fn description(&self) -> (s: String)
        ensures
            s@ == self.spec_description(),
    {
        match self {
            ClientError::Serialization(err) => err.description(),
            ClientError::Protocol(err) => err.description(),
            ClientError::Channel(err) => err.description(),
        }
    }
}

impl TransportError {
    pub open spec fn spec_description(&self) -> Seq<char> {
        match self {
            TransportError::Read(_) => "failed to read from transport"@,
            TransportError::Write(_) => "failed to write to transport"@,
        }
    }

    /// The text that describes the error.
    pub fn description(&self) -> (s: String)
        ensures
            s@ == self.spec_description(),
    {
        match self {
            TransportError::Read(_) => String::from_str("failed to read from transport"),
            TransportError::Write(_) => String::from_str("failed to write to transport"),
        }
    }
}

impl RuntimeError {
    pub open spec fn spec_description(&self) -> Seq<char> {
        match self {
            RuntimeError::Transport(err) => err.spec_description(),
            RuntimeError::Serialization(err) => err.spec_description(),
            RuntimeError::Channel(err) => err.spec_description(),
        }
    }

    /// The text that describes the error: that of the error it wraps.
    pub fn description(&self) -> (s: String)
        ensures
            s@ == self.spec_description(),
    {
        match self {
            RuntimeError::Transport(err) => err.description(),
            RuntimeError::Serialization(err) => err.description(),
            RuntimeError::Channel(err) => err.description(),
        }
    }
}

impl vstd::std_specs::convert::FromSpecImpl<SerializationError> for ClientError {
    open spec fn obeys_from_spec() -> bool {
        true
    }

    open spec fn from_spec(value: SerializationError) -> ClientError {
        ClientError::Serialization(value)
    }
}

impl From<SerializationError> for ClientError {
    fn from(value: SerializationError) -> (e: ClientError) {
        ClientError::Serialization(value)
    }
}

impl vstd::std_specs::convert::FromSpecImpl<ProtocolError> for ClientError {
    open spec fn obeys_from_spec() -> bool {
        true
    }

    open spec fn from_spec(value: ProtocolError) -> ClientError {
        ClientError::Protocol(value)
    }
}

impl From<ProtocolError> for ClientError {
    fn from(value: ProtocolError) -> (e: ClientError) {
        ClientError::Protocol(value)
    }
}

impl vstd::std_specs::convert::FromSpecImpl<ChannelError> for ClientError {
    open spec fn obeys_from_spec() -> bool {
        true
    }

    open spec fn from_spec(value: ChannelError) -> ClientError {
        ClientError::Channel(value)
    }
}

impl From<ChannelError> for ClientError {
    fn from(value: ChannelError) -> (e: ClientError) {
        ClientError::Channel(value)
    }
}

impl vstd::std_specs::convert::FromSpecImpl<SerializationError> for RuntimeError {
    open spec fn obeys_from_spec() -> bool {
        true
    }

    open spec fn from_spec(value: SerializationError) -> RuntimeError {
        RuntimeError::Serialization(value)
    }
}

impl From<SerializationError> for RuntimeError {
    fn from(value: SerializationError) -> (e: RuntimeError) {
        RuntimeError::Serialization(value)
    }
}

impl vstd::std_specs::convert::FromSpecImpl<ChannelError> for RuntimeError {
    open spec fn obeys_from_spec() -> bool {
        true
    }

    open spec fn from_spec(value: ChannelError) -> RuntimeError {
        RuntimeError::Channel(value)
    }
}

impl From<ChannelError> for RuntimeError {
    fn from(value: ChannelError) -> (e: RuntimeError) {
        RuntimeError::Channel(value)
    }
}

} // verus!
