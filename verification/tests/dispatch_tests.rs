use rpcx_protocol::{Message, MessageType, RpcxMessage, SERVICE_ERROR};
use rpcx_server::{
    not_found_message, not_found_reply, Action, ConnState, Connection, Envelope, Event, Registry,
    SerializeFormat, ServerError,
};

type Handler = fn(&[u8], SerializeFormat) -> Result<Vec<u8>, ServerError>;

fn echo(payload: &[u8], _: SerializeFormat) -> Result<Vec<u8>, ServerError> {
    Ok(payload.to_vec())
}

fn request(path: &str, method: &str, seq: u64, payload: &[u8]) -> Envelope {
    let mut header = [0u8; 12];
    header[0] = 8;
    header[3] = 1 << 4;
    header[4..].copy_from_slice(&seq.to_be_bytes());
    Envelope {
        header,
        service_path: path.to_string(),
        service_method: method.to_string(),
        metadata: vec![("__ID".to_string(), "42".to_string())],
        payload: payload.to_vec(),
    }
}

fn decode(frame: &[u8]) -> Message {
    let mut msg = Message::new();
    let mut data = frame;
    msg.decode(&mut data).unwrap();
    msg
}

fn calc() -> Registry<Handler> {
    let mut services: Registry<Handler> = Registry::new();
    services.register("Calc", "Echo", echo);
    services
}

#[test]
fn not_found_message_names_the_key() {
    assert_eq!(
        not_found_message("Calc.MissingMethod"),
        "service Calc.MissingMethod not found"
    );
    assert_eq!(not_found_message(""), "service  not found");
}

#[test]
fn a_new_connection_is_reading() {
    let conn = Connection::new();
    assert_eq!(conn.state(), ConnState::Reading);
    assert!(!conn.is_closed());
}

#[test]
fn request_for_an_unregistered_key_is_answered_with_not_found() {
    let services = calc();
    let mut conn = Connection::new();
    let req = request("Calc", "MissingMethod", 77, b"{\"A\":1}");
    let action = conn.on_event(&services, Event::Request(req));
    let frame = match action {
        Action::Reply { frame } => frame,
        other => panic!("expected a reply, got {:?}", other),
    };
    let reply = decode(&frame);
    assert_eq!(
        reply.metadata.borrow().get(SERVICE_ERROR).unwrap(),
        "service Calc.MissingMethod not found"
    );
    assert_eq!(reply.metadata.borrow().len(), 1);
    assert!(reply.payload.is_empty());
    assert_eq!(reply.service_path, "Calc");
    assert_eq!(reply.service_method, "MissingMethod");
    assert_eq!(reply.get_seq(), 77);
    assert_eq!(reply.get_message_type(), Some(MessageType::Response));
    assert_eq!(conn.state(), ConnState::Reading);
}

#[test]
fn not_found_reply_is_the_reply_that_a_miss_sends() {
    let services = calc();
    let mut conn = Connection::new();
    let req = request("Calc", "MissingMethod", 5, b"abc");
    let reply = not_found_reply(&req).unwrap();
    assert_eq!(
        reply.metadata,
        vec![(
            "__rpcx_error__".to_string(),
            "service Calc.MissingMethod not found".to_string()
        )]
    );
    assert!(reply.payload.is_empty());
    let action = conn.on_event(&services, Event::Request(req));
    assert_eq!(action, Action::Reply { frame: reply.encode().unwrap() });
}

#[test]
fn request_for_a_registered_key_becomes_a_job() {
    let services = calc();
    let mut conn = Connection::new();
    let req = request("Calc", "Echo", 9, b"hello");
    let action = conn.on_event(&services, Event::Request(req.clone()));
    match action {
        Action::Execute { handler, request } => {
            assert_eq!(request, req);
            assert_eq!(handler(b"xyz", SerializeFormat::JSON).unwrap(), b"xyz".to_vec());
        }
        other => panic!("expected a job, got {:?}", other),
    }
    assert_eq!(conn.state(), ConnState::Reading);
}

#[test]
fn a_frame_that_does_not_decode_closes_the_connection_without_a_reply() {
    let services = calc();
    let mut conn = Connection::new();
    let action = conn.on_event(&services, Event::DecodeFailed);
    assert_eq!(action, Action::Shutdown);
    assert!(conn.is_closed());
    assert_eq!(conn.state(), ConnState::Closed);
}

#[test]
fn a_closed_connection_answers_nothing() {
    let services = calc();
    let mut conn = Connection::new();
    conn.on_event(&services, Event::DecodeFailed);
    let hit = conn.on_event(&services, Event::Request(request("Calc", "Echo", 1, b"a")));
    assert_eq!(hit, Action::Idle);
    let miss = conn.on_event(&services, Event::Request(request("Calc", "Nope", 2, b"a")));
    assert_eq!(miss, Action::Idle);
    let again = conn.on_event(&services, Event::DecodeFailed);
    assert_eq!(again, Action::Idle);
    assert!(conn.is_closed());
}

#[test]
fn other_connections_are_not_affected_by_a_closed_one() {
    let services = calc();
    let mut broken = Connection::new();
    broken.on_event(&services, Event::DecodeFailed);
    let mut next = Connection::new();
    let action = next.on_event(&services, Event::Request(request("Calc", "Echo", 3, b"ok")));
    assert!(matches!(action, Action::Execute { .. }));
    assert!(!next.is_closed());
    assert_eq!(services.len(), 1);
}

#[test]
fn a_request_that_cannot_be_answered_closes_the_connection() {
    let services = calc();
    let mut conn = Connection::new();
    let mut req = request("Calc", "Echo", 1, b"a");
    req.header[3] = 9 << 4;
    let action = conn.on_event(&services, Event::Request(req));
    assert_eq!(action, Action::Shutdown);
    assert!(conn.is_closed());

    let mut conn = Connection::new();
    let mut req = request("Calc", "Nope", 1, b"a");
    req.header[2] = 3 << 2;
    let action = conn.on_event(&services, Event::Request(req));
    assert_eq!(action, Action::Shutdown);
    assert!(conn.is_closed());
}

#[test]
fn a_miss_does_not_close_the_connection() {
    let services = calc();
    let mut conn = Connection::new();
    let first = conn.on_event(&services, Event::Request(request("Calc", "Nope", 1, b"a")));
    assert!(matches!(first, Action::Reply { .. }));
    let second = conn.on_event(&services, Event::Request(request("Calc", "Echo", 2, b"b")));
    assert!(matches!(second, Action::Execute { .. }));
    let third = conn.on_event(&services, Event::Request(request("Nope", "Echo", 3, b"c")));
    assert!(matches!(third, Action::Reply { .. }));
    assert!(!conn.is_closed());
}

#[test]
fn not_found_reply_of_an_unanswerable_request_is_none() {
    let mut req = request("Calc", "Nope", 1, b"a");
    req.header[3] = 0xF0;
    assert_eq!(not_found_reply(&req), None);
}
