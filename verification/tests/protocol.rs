use serde_json::Value;
use tokio_jrpc::types::params_value;
use tokio_jrpc::{
    decoded_result, internal_error_response, invalid_params_response, invalid_request_response,
    method_not_found_response, method_reply, notification, parse_error_response, request_result,
    sent, serialize_params, ChannelError, ClientError, Error, ErrorCode, ErrorResponse,
    HandlerOutcome, Id, JsonValue, Params, ProtocolError, Response, SerializationError,
    SuccessResponse, Version,
};

fn error_fields(r: &Response) -> (i32, String, Id) {
    match r {
        Response::Error(e) => {
            assert_eq!(e.jsonrpc, Some(Version::V2));
            assert_eq!(e.error.data, None);
            (i32::from(e.error.code.clone()), e.error.message.clone(), e.id.clone())
        }
        Response::Success(_) => panic!("expected an error response"),
    }
}

fn json_error() -> serde_json::Error {
    serde_json::from_str::<Value>("{").unwrap_err()
}

#[test]
fn canned_responses() {
    assert_eq!(error_fields(&parse_error_response()), (-32700, "Parse error".to_string(), Id::Null));
    assert_eq!(
        error_fields(&invalid_request_response()),
        (-32600, "Invalid Request".to_string(), Id::Null)
    );
    assert_eq!(
        error_fields(&method_not_found_response(Id::Number(3))),
        (-32601, "Method not found".to_string(), Id::Number(3))
    );
    assert_eq!(
        error_fields(&invalid_params_response(Id::String("a".to_string()), "bad".to_string())),
        (-32602, "bad".to_string(), Id::String("a".to_string()))
    );
    assert_eq!(
        error_fields(&internal_error_response(Id::Null, "boom".to_string())),
        (-32603, "boom".to_string(), Id::Null)
    );
}

#[test]
fn response_id_of_each_kind() {
    let ok = Response::Success(SuccessResponse {
        jsonrpc: Some(Version::V2),
        result: Value::Bool(true),
        id: Id::Number(5),
    });
    assert_eq!(ok.id(), &Id::Number(5));
    let err = method_not_found_response(Id::String("x".to_string()));
    assert_eq!(err.id(), &Id::String("x".to_string()));
}

#[test]
fn internal_error_object() {
    let e = Error::internal("disk full".to_string());
    assert_eq!(e.code, ErrorCode::InternalError);
    assert_eq!(e.message, "disk full");
    assert_eq!(e.data, None);
}

#[test]
fn serialize_params_shapes() {
    let items = vec![Value::from(1), Value::from(2)];
    assert_eq!(
        serialize_params(Ok(JsonValue::Array(items.clone()))).unwrap(),
        Some(Params::Array(items))
    );
    let mut members = serde_json::Map::new();
    members.insert("a".to_string(), Value::from(1));
    assert_eq!(
        serialize_params(Ok(JsonValue::Object(members.clone()))).unwrap(),
        Some(Params::Object(members))
    );
    assert_eq!(serialize_params(Ok(JsonValue::Null)).unwrap(), None);
    for scalar in [
        JsonValue::Bool(true),
        JsonValue::Number(serde_json::Number::from(1)),
        JsonValue::String("s".to_string()),
    ] {
        assert!(matches!(
            serialize_params(Ok(scalar)),
            Err(ClientError::Protocol(ProtocolError::InvalidParamsShape))
        ));
    }
    assert!(matches!(
        serialize_params(Err(json_error())),
        Err(ClientError::Serialization(SerializationError::SerializeParams(_)))
    ));
}

#[test]
fn params_round_trip() {
    let mut members = serde_json::Map::new();
    members.insert("value".to_string(), Value::from("x"));
    let all = [
        None,
        Some(Params::Array(vec![Value::Null])),
        Some(Params::Object(members)),
    ];
    for params in all {
        assert_eq!(serialize_params(Ok(params_value(params.clone()))).unwrap(), params);
    }
    assert_eq!(params_value(None), JsonValue::Null);
    assert_eq!(
        JsonValue::from(Params::Array(vec![Value::from(3)])),
        JsonValue::Array(vec![Value::from(3)])
    );
}

#[test]
fn notification_carries_version_method_and_params() {
    let n = notification("log".to_string(), Ok(JsonValue::Array(vec![Value::from("hi")]))).unwrap();
    assert_eq!(n.jsonrpc, Some(Version::V2));
    assert_eq!(n.method, "log");
    assert_eq!(n.params, Some(Params::Array(vec![Value::from("hi")])));
    assert!(matches!(
        notification("log".to_string(), Ok(JsonValue::Bool(false))),
        Err(ClientError::Protocol(ProtocolError::InvalidParamsShape))
    ));
}

#[test]
fn send_outcome() {
    assert!(sent(true).is_ok());
    assert!(matches!(sent(false), Err(ClientError::Channel(ChannelError::SendFailed))));
}

#[test]
fn request_results() {
    let ok = Response::Success(SuccessResponse {
        jsonrpc: Some(Version::V2),
        result: Value::from(3),
        id: Id::Number(1),
    });
    assert_eq!(request_result(Some(ok)).unwrap(), Value::from(3));
    let remote = Error { code: ErrorCode::Other(9), message: "no".to_string(), data: None };
    let err = Response::Error(ErrorResponse {
        jsonrpc: Some(Version::V2),
        error: remote.clone(),
        id: Id::Number(1),
    });
    match request_result(Some(err)) {
        Err(ClientError::Protocol(ProtocolError::Remote(e))) => assert_eq!(e, remote),
        other => panic!("unexpected {other:?}"),
    }
    assert!(matches!(
        request_result(None),
        Err(ClientError::Channel(ChannelError::ResponseChannelClosed))
    ));
    assert_eq!(decoded_result::<i64>(Ok(4)).unwrap(), 4);
    assert!(matches!(
        decoded_result::<i64>(Err(json_error())),
        Err(ClientError::Serialization(SerializationError::DeserializeResult(_)))
    ));
}

#[test]
fn method_replies() {
    let id = Id::String("r".to_string());
    match method_reply(id.clone(), HandlerOutcome::Returned(Value::from("ok"))) {
        Response::Success(s) => {
            assert_eq!(s.jsonrpc, Some(Version::V2));
            assert_eq!(s.result, Value::from("ok"));
            assert_eq!(s.id, id);
        }
        other => panic!("unexpected {other:?}"),
    }
    assert_eq!(
        error_fields(&method_reply(id.clone(), HandlerOutcome::RejectedParams("p".to_string()))),
        (-32602, "p".to_string(), id.clone())
    );
    assert_eq!(
        error_fields(&method_reply(id.clone(), HandlerOutcome::Unserializable("u".to_string()))),
        (-32603, "u".to_string(), id.clone())
    );
    let failure = Error { code: ErrorCode::ServerError(-32001), message: "f".to_string(), data: Some(Value::from(1)) };
    match method_reply(id.clone(), HandlerOutcome::Failed(failure.clone())) {
        Response::Error(e) => {
            assert_eq!(e.error, failure);
            assert_eq!(e.id, id);
            assert_eq!(e.jsonrpc, Some(Version::V2));
        }
        other => panic!("unexpected {other:?}"),
    }
}
