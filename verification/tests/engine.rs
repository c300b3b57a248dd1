use std::io;

use serde_json::Value;
use tokio_jrpc::engine::LINE_FEED;
use tokio_jrpc::{
    dispatch, frame, on_read, outbound, plan_line, read_line, request_message, Action,
    ChannelError, ChannelMessage, ClientError, ErrorCode, Id, JsonValue, LinePlan, Message,
    Notification, Params, ParsedLine, ProtocolError, ReadStep, Request, Response, Router,
    RuntimeError, SerializationError, Session, SuccessResponse, TransportError, Version,
};

fn error_fields(r: &Response) -> (i32, String, Id) {
    match r {
        Response::Error(e) => (i32::from(e.error.code.clone()), e.error.message.clone(), e.id.clone()),
        Response::Success(_) => panic!("expected an error response"),
    }
}

fn answer(id: Id, value: i64) -> Response {
    Response::Success(SuccessResponse { jsonrpc: Some(Version::V2), result: Value::from(value), id })
}

fn request(method: &str, id: Id) -> Request {
    Request { jsonrpc: Some(Version::V2), method: method.to_string(), params: None, id }
}

fn note(method: &str) -> Notification {
    Notification { jsonrpc: Some(Version::V2), method: method.to_string(), params: None }
}

#[test]
fn lines_are_planned_by_shape() {
    match read_line("not json") {
        LinePlan::Reply(r) => assert_eq!(error_fields(&r), (-32700, "Parse error".to_string(), Id::Null)),
        LinePlan::Decode(_) => panic!("expected a reply"),
    }
    match read_line("[]") {
        LinePlan::Reply(r) => assert_eq!(error_fields(&r), (-32600, "Invalid Request".to_string(), Id::Null)),
        LinePlan::Decode(_) => panic!("expected a reply"),
    }
    match read_line("[1, {\"a\": 2}, null]") {
        LinePlan::Decode(values) => {
            assert_eq!(values.len(), 3);
            assert_eq!(values[0], Value::from(1));
            assert_eq!(values[2], Value::Null);
        }
        LinePlan::Reply(_) => panic!("expected values"),
    }
    match read_line("{\"method\": \"m\"}") {
        LinePlan::Decode(values) => {
            assert_eq!(values.len(), 1);
            assert!(values[0].is_object());
        }
        LinePlan::Reply(_) => panic!("expected values"),
    }
}

#[test]
fn plan_of_parsed_lines() {
    assert!(matches!(plan_line(ParsedLine::Malformed), LinePlan::Reply(_)));
    assert!(matches!(plan_line(ParsedLine::Batch(vec![])), LinePlan::Reply(_)));
    match plan_line(ParsedLine::Single(Value::from(7))) {
        LinePlan::Decode(v) => assert_eq!(v, vec![Value::from(7)]),
        LinePlan::Reply(_) => panic!("expected values"),
    }
    match plan_line(ParsedLine::Batch(vec![Value::from(1), Value::from(2)])) {
        LinePlan::Decode(v) => assert_eq!(v, vec![Value::from(1), Value::from(2)]),
        LinePlan::Reply(_) => panic!("expected values"),
    }
}

#[test]
fn read_steps() {
    assert!(matches!(on_read(Ok(None)), ReadStep::Stop(Ok(()))));
    assert!(matches!(
        on_read(Err(io::Error::other("gone"))),
        ReadStep::Stop(Err(RuntimeError::Transport(TransportError::Read(_))))
    ));
    assert!(matches!(on_read(Ok(Some("{".to_string()))), ReadStep::Line(LinePlan::Reply(_))));
    assert!(matches!(on_read(Ok(Some("5".to_string()))), ReadStep::Line(LinePlan::Decode(_))));
}

#[test]
fn requests_get_fresh_increasing_ids() {
    let mut session: Session<&str> = Session::new();
    assert_eq!(session.next_request_id(), 1);
    let first = session.issue("a".to_string(), None, "w1");
    let second = session.issue("b".to_string(), Some(Params::Array(vec![])), "w2");
    assert_eq!(first.id, Id::Number(1));
    assert_eq!(second.id, Id::Number(2));
    assert_eq!(first.jsonrpc, Some(Version::V2));
    assert_eq!(second.method, "b");
    assert_eq!(session.next_request_id(), 3);
}

#[test]
fn answer_reaches_its_waiter_once() {
    let router: Router<u8, u8> = Router::new();
    let mut session: Session<&str> = Session::new();
    let issued = session.issue("a".to_string(), None, "waiter-1");
    let actions = dispatch(
        &router,
        &mut session,
        vec![Some(Message::Response(answer(issued.id.clone(), 10))), Some(Message::Response(answer(issued.id.clone(), 11)))],
    );
    assert_eq!(actions.len(), 2);
    match &actions[0] {
        Action::Deliver(w, r) => {
            assert_eq!(*w, "waiter-1");
            assert_eq!(r.id(), &Id::Number(1));
        }
        _ => panic!("expected a delivery"),
    }
    assert!(matches!(actions[1], Action::Ignore));
    assert!(session.take_waiter(&Id::Number(1)).is_none());
}

#[test]
fn answers_with_unknown_ids_are_ignored() {
    let router: Router<u8, u8> = Router::new();
    let mut session: Session<&str> = Session::new();
    session.issue("a".to_string(), None, "w");
    let actions = dispatch(
        &router,
        &mut session,
        vec![
            Some(Message::Response(answer(Id::Number(2), 0))),
            Some(Message::Response(answer(Id::String("1".to_string()), 0))),
            Some(Message::Response(answer(Id::Null, 0))),
        ],
    );
    assert!(actions.iter().all(|a| matches!(a, Action::Ignore)));
    assert_eq!(session.take_waiter(&Id::Number(1)), Some("w"));
}

#[test]
fn batch_is_routed_in_order() {
    let mut router: Router<&str, &str> = Router::new();
    router.add_method("add".to_string(), "add-handler");
    router.add_notification("log".to_string(), "log-handler");
    let mut session: Session<u8> = Session::new();
    let actions = dispatch(
        &router,
        &mut session,
        vec![
            Some(Message::Request(request("add", Id::Number(1)))),
            None,
            Some(Message::Notification(note("log"))),
            Some(Message::Notification(note("unknown"))),
            Some(Message::Request(request("sub", Id::Number(2)))),
        ],
    );
    assert_eq!(actions.len(), 5);
    match &actions[0] {
        Action::CallMethod(h, r) => {
            assert_eq!(**h, "add-handler");
            assert_eq!(r.id, Id::Number(1));
        }
        _ => panic!("expected a call"),
    }
    match &actions[1] {
        Action::Reply(r) => assert_eq!(error_fields(r), (-32600, "Invalid Request".to_string(), Id::Null)),
        _ => panic!("expected a reply"),
    }
    match &actions[2] {
        Action::CallNotification(h, n) => {
            assert_eq!(**h, "log-handler");
            assert_eq!(n.method, "log");
        }
        _ => panic!("expected a notification call"),
    }
    assert!(matches!(actions[3], Action::Ignore));
    match &actions[4] {
        Action::Reply(r) => assert_eq!(error_fields(r), (-32601, "Method not found".to_string(), Id::Number(2))),
        _ => panic!("expected a reply"),
    }
}

#[test]
fn later_registration_replaces_earlier() {
    let mut router: Router<&str, &str> = Router::new();
    router.add_method("m".to_string(), "first");
    router.add_method("m".to_string(), "second");
    let mut session: Session<u8> = Session::new();
    let actions = dispatch(&router, &mut session, vec![Some(Message::Request(request("m", Id::Null)))]);
    match &actions[0] {
        Action::CallMethod(h, _) => assert_eq!(**h, "second"),
        _ => panic!("expected a call"),
    }
}

#[test]
fn outbound_messages() {
    let mut session: Session<&str> = Session::new();
    match outbound(&mut session, Some(ChannelMessage::Request { method: "m".to_string(), params: None, waiter: "w" })) {
        Ok(Message::Request(r)) => {
            assert_eq!(r.id, Id::Number(1));
            assert_eq!(r.method, "m");
        }
        _ => panic!("expected a request"),
    }
    assert_eq!(session.next_request_id(), 2);
    assert!(matches!(
        outbound(&mut session, Some(ChannelMessage::Notification(note("n")))),
        Ok(Message::Notification(_))
    ));
    assert!(matches!(
        outbound(&mut session, Some(ChannelMessage::Response(answer(Id::Number(9), 1)))),
        Ok(Message::Response(_))
    ));
    assert!(matches!(
        outbound(&mut session, None),
        Err(RuntimeError::Channel(ChannelError::MessageChannelClosed))
    ));
    assert_eq!(session.next_request_id(), 2);
    assert_eq!(session.take_waiter(&Id::Number(1)), Some("w"));
}

#[test]
fn request_messages() {
    let mut members = serde_json::Map::new();
    members.insert("id".to_string(), Value::from(1));
    match request_message("get".to_string(), Ok(JsonValue::Object(members.clone())), 5u8) {
        Ok(ChannelMessage::Request { method, params, waiter }) => {
            assert_eq!(method, "get");
            assert_eq!(params, Some(Params::Object(members)));
            assert_eq!(waiter, 5);
        }
        _ => panic!("expected a request"),
    }
    assert!(matches!(
        request_message("get".to_string(), Ok(JsonValue::Number(serde_json::Number::from(1))), 5u8),
        Err(ClientError::Protocol(ProtocolError::InvalidParamsShape))
    ));
}

#[test]
fn framing_appends_line_feed() {
    assert_eq!(frame(Ok(b"{}".to_vec())).unwrap(), b"{}\n".to_vec());
    assert_eq!(LINE_FEED, b'\n');
    let err = serde_json::from_str::<Value>("x").unwrap_err();
    assert!(matches!(
        frame(Err(err)),
        Err(RuntimeError::Serialization(SerializationError::SerializeMessage(_)))
    ));
}

#[test]
fn error_code_of_replies() {
    match read_line("{") {
        LinePlan::Reply(Response::Error(e)) => assert_eq!(e.error.code, ErrorCode::ParseError),
        _ => panic!("expected a parse error"),
    }
}
