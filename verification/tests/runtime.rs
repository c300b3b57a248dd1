use serde_json::Value;
use tokio_jrpc::types::params_value;
use tokio_jrpc::{
    dispatch, method_reply, notification, on_read, read_line, sent, serialize_params, Action,
    ChannelError, ClientError, HandlerOutcome, Id, JsonValue, LinePlan, Message, Params,
    ProtocolError, ReadStep, Request, Response, Router, Session, Version,
};

fn error_fields(r: &Response) -> (i32, String, Id) {
    match r {
        Response::Error(e) => (i32::from(e.error.code.clone()), e.error.message.clone(), e.id.clone()),
        Response::Success(_) => panic!("expected an error response"),
    }
}

#[test]
fn returns_parse_error_for_invalid_json() {
    match on_read(Ok(Some("{".to_string()))) {
        ReadStep::Line(LinePlan::Reply(response)) => {
            let (code, message, id) = error_fields(&response);
            assert_eq!(code, -32700);
            assert_eq!(message, "Parse error");
            assert_eq!(id, Id::Null);
        }
        _ => panic!("expected a reply"),
    }
    assert!(matches!(on_read(Ok(None)), ReadStep::Stop(Ok(()))));
}

#[test]
fn returns_invalid_request_for_empty_batch() {
    match read_line("[]") {
        LinePlan::Reply(response) => {
            let (code, message, id) = error_fields(&response);
            assert_eq!(code, -32600);
            assert_eq!(message, "Invalid Request");
            assert_eq!(id, Id::Null);
        }
        LinePlan::Decode(_) => panic!("expected a reply"),
    }
    assert!(matches!(on_read(Ok(None)), ReadStep::Stop(Ok(()))));
}

#[test]
fn returns_method_not_found_with_message() {
    let line = "{\"jsonrpc\":\"2.0\",\"id\":12,\"method\":\"missing_method\",\"params\":{}}";
    assert!(matches!(read_line(line), LinePlan::Decode(ref v) if v.len() == 1));
    let request = Request {
        jsonrpc: Some(Version::V2),
        method: "missing_method".to_string(),
        params: Some(Params::Object(serde_json::Map::new())),
        id: Id::Number(12),
    };
    let router: Router<(), ()> = Router::new();
    let mut session: Session<()> = Session::new();
    let actions = dispatch(&router, &mut session, vec![Some(Message::Request(request))]);
    match &actions[0] {
        Action::Reply(response) => {
            let (code, message, id) = error_fields(response);
            assert_eq!(code, -32601);
            assert_eq!(message, "Method not found");
            assert_eq!(id, Id::Number(12));
        }
        _ => panic!("expected a reply"),
    }
}

#[test]
fn returns_invalid_params_when_request_params_missing() {
    let mut router: Router<&str, ()> = Router::new();
    router.add_method("echo".to_string(), "echo");
    let request = Request {
        jsonrpc: Some(Version::V2),
        method: "echo".to_string(),
        params: None,
        id: Id::String("req-1".to_string()),
    };
    let mut session: Session<()> = Session::new();
    let actions = dispatch(&router, &mut session, vec![Some(Message::Request(request))]);
    let (id, params) = match &actions[0] {
        Action::CallMethod(_, r) => (r.id.clone(), r.params.clone()),
        _ => panic!("expected a call"),
    };
    assert_eq!(params_value(params), JsonValue::Null);
    let decode_error = serde_json::from_value::<String>(Value::Null).unwrap_err();
    let response = method_reply(id, HandlerOutcome::RejectedParams(decode_error.to_string()));
    let (code, _, id) = error_fields(&response);
    assert_eq!(code, -32602);
    assert_eq!(id, Id::String("req-1".to_string()));
}

#[test]
fn client_returns_typed_errors() {
    let invalid_shape = serialize_params(Ok(JsonValue::Number(serde_json::Number::from(1)))).unwrap_err();
    assert!(matches!(invalid_shape, ClientError::Protocol(ProtocolError::InvalidParamsShape)));

    assert!(notification("method".to_string(), Ok(JsonValue::Object(serde_json::Map::new()))).is_ok());
    let send_failed = sent(false).unwrap_err();
    assert!(matches!(send_failed, ClientError::Channel(ChannelError::SendFailed)));
}

#[test]
fn run_returns_typed_write_error() {
    let run_result = tokio_jrpc::on_write(Err(std::io::Error::other("write failed")));
    assert!(matches!(
        run_result,
        Err(tokio_jrpc::RuntimeError::Transport(tokio_jrpc::TransportError::Write(_)))
    ));
    assert!(tokio_jrpc::on_write(Ok(())).is_ok());
}
