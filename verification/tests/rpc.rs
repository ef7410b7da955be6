use lavish::rpc::{
    call_outcome, decode_header, on_message, response_to, DecodeError, Element, Error, Header,
    InFlightRequest, Inbound, Message, Queue,
};

type Msg = Message<u32, (), String>;

#[test]
fn queue_numbers_requests_from_zero() {
    let mut q: Queue<()> = Queue::new();
    assert_eq!(q.next_id(), 0);
    assert_eq!(q.next_id(), 1);
    assert_eq!(q.next_id(), 2);
}

#[test]
fn queue_remembers_requests_in_flight() {
    let mut q: Queue<u8> = Queue::new();
    q.insert_in_flight(7, InFlightRequest { method: "session.login", tx: 1 });
    assert_eq!(q.get_pending(7), Some("session.login"));
    assert_eq!(q.get_pending(8), None);
    let taken = q.take_in_flight(7).unwrap();
    assert_eq!(taken.method, "session.login");
    assert_eq!(taken.tx, 1);
    assert_eq!(q.get_pending(7), None);
    assert!(q.take_in_flight(7).is_none());
}

fn double_even(x: String) -> Option<usize> {
    if x.len() % 2 == 0 {
        Some(x.len() * 2)
    } else {
        None
    }
}

#[test]
fn call_outcomes() {
    let ok: Result<Msg, String> = Ok(Message::response(1, None, Some("four".to_string())));
    assert_eq!(call_outcome(ok, double_even).unwrap(), 8);

    let wrong: Result<Msg, String> = Ok(Message::response(1, None, Some("odd".to_string())));
    assert!(matches!(call_outcome(wrong, double_even), Err(Error::WrongResults)));

    let remote: Result<Msg, String> =
        Ok(Message::response(1, Some("boom".to_string()), Some("four".to_string())));
    match call_outcome(remote, double_even) {
        Err(Error::RemoteError(e)) => assert_eq!(e, "boom"),
        _ => panic!("expected a remote error"),
    }

    let missing: Result<Msg, String> = Ok(Message::response(1, None, None));
    assert!(matches!(call_outcome(missing, double_even), Err(Error::MissingResults)));

    let request: Result<Msg, String> = Ok(Message::request(1, 5));
    assert!(matches!(call_outcome(request, double_even), Err(Error::WrongMessageType)));

    let transport: Result<Msg, String> = Err("connection reset".to_string());
    match call_outcome(transport, double_even) {
        Err(Error::TransportError(e)) => assert_eq!(e, "connection reset"),
        _ => panic!("expected a transport error"),
    }
}

#[test]
fn responses_to_requests() {
    let ok: Msg = response_to(3, Ok("done".to_string()));
    match ok {
        Message::Response { id, error, results } => {
            assert_eq!(id, 3);
            assert!(error.is_none());
            assert_eq!(results.unwrap(), "done");
        }
        _ => panic!("expected a response"),
    }
    let failed: Msg = response_to(4, Err(Error::MissingResults));
    match failed {
        Message::Response { id, error, results } => {
            assert_eq!(id, 4);
            assert!(results.is_none());
            assert_eq!(error.unwrap(), "internal error: MissingResults");
        }
        _ => panic!("expected a response"),
    }
}

#[test]
fn incoming_messages() {
    let mut q: Queue<&str> = Queue::new();
    q.insert_in_flight(9, InFlightRequest { method: "ping", tx: "waiter" });

    let req: Msg = Message::request(2, 41);
    match on_message(&mut q, req) {
        Inbound::Handle { id, params } => {
            assert_eq!(id, 2);
            assert_eq!(params, 41);
        }
        _ => panic!("a request is handled"),
    }

    let resp: Msg = Message::response(9, None, Some("pong".to_string()));
    match on_message(&mut q, resp) {
        Inbound::Deliver { request, id, error, results } => {
            assert_eq!(request.tx, "waiter");
            assert_eq!(id, 9);
            assert!(error.is_none());
            assert_eq!(results.unwrap(), "pong");
        }
        _ => panic!("a response to a request in flight is delivered"),
    }
    assert_eq!(q.get_pending(9), None);

    let stray: Msg = Message::response(9, None, None);
    assert!(matches!(on_message(&mut q, stray), Inbound::Drop));
}

#[test]
fn errors_print_as_pretty_debug() {
    let all = vec![
        Error::WrongResults,
        Error::MissingResults,
        Error::WrongMessageType,
        Error::RemoteError("no \"such\" thing".to_string()),
        Error::TransportError("reset".to_string()),
    ];
    for e in &all {
        assert_eq!(e.pretty(), format!("{:#?}", e));
    }
    assert_eq!(Error::RemoteError("x".to_string()).pretty(), "RemoteError(\n    \"x\",\n)");
    let failed: Msg = response_to(5, Err(Error::RemoteError("x".to_string())));
    match failed {
        Message::Response { error, .. } => {
            assert_eq!(error.unwrap(), "internal error: RemoteError(\n    \"x\",\n)")
        }
        _ => panic!("expected a response"),
    }
}

fn missing(r: Result<Header, DecodeError>) -> String {
    match r {
        Err(e) => e.message().unwrap(),
        Ok(h) => panic!("expected a missing element, got {:?}", h),
    }
}

#[test]
fn decoding_a_request_header() {
    let q: Queue<()> = Queue::new();
    let es = vec![Element::UInt(0), Element::UInt(5), Element::Text("session.login".to_string()), Element::Other];
    match decode_header(&es, &q) {
        Ok(Header::Request { id, method }) => {
            assert_eq!(id, 5);
            assert_eq!(method, "session.login");
        }
        other => panic!("unexpected {:?}", other),
    }
    assert_eq!(missing(decode_header(&vec![], &q)), "invalid msgpack-RPC message: missing type");
    assert_eq!(missing(decode_header(&vec![Element::UInt(0)], &q)), "invalid msgpack-RPC message: missing id");
    assert_eq!(
        missing(decode_header(&vec![Element::UInt(0), Element::UInt(1)], &q)),
        "invalid msgpack-RPC message: missing method"
    );
    assert_eq!(
        missing(decode_header(&vec![Element::UInt(0), Element::UInt(1), Element::Text("m".to_string())], &q)),
        "invalid msgpack-RPC message: missing params"
    );
    assert!(matches!(
        decode_header(&vec![Element::Text("x".to_string())], &q),
        Err(DecodeError::WrongType)
    ));
    assert!(DecodeError::WrongType.message().is_none());
}

#[test]
fn decoding_a_response_header() {
    let mut q: Queue<u8> = Queue::new();
    q.insert_in_flight(3, InFlightRequest { method: "cookies.get", tx: 0 });
    let es = vec![Element::UInt(1), Element::UInt(3), Element::Nil, Element::Other];
    match decode_header(&es, &q) {
        Ok(Header::Response { id, error, method }) => {
            assert_eq!(id, 3);
            assert_eq!(error, None);
            assert_eq!(method, "cookies.get");
        }
        other => panic!("unexpected {:?}", other),
    }
    let es = vec![Element::UInt(1), Element::UInt(3), Element::Text("boom".to_string()), Element::Other];
    assert!(matches!(decode_header(&es, &q), Ok(Header::Response { error: Some(ref e), .. }) if e == "boom"));
    assert_eq!(
        missing(decode_header(&vec![Element::UInt(1), Element::UInt(4), Element::Nil, Element::Other], &q)),
        "invalid msgpack-RPC message: missing no such pending request"
    );
    assert_eq!(
        missing(decode_header(&vec![Element::UInt(1), Element::UInt(3)], &q)),
        "invalid msgpack-RPC message: missing error"
    );
    assert_eq!(
        missing(decode_header(&vec![Element::UInt(1), Element::UInt(3), Element::Nil], &q)),
        "invalid msgpack-RPC message: missing results"
    );
}

#[derive(Debug)]
struct ExecutorError {
    _hidden: (),
}

#[derive(Debug)]
enum WithExecutorError {
    SpawnError(ExecutorError),
}

#[test]
fn spawn_error_prints_the_executor_error_as_debug_does() {
    let inner = ExecutorError { _hidden: () };
    let e = Error::SpawnError(format!("{:#?}", inner));
    let expected = format!("{:#?}", WithExecutorError::SpawnError(ExecutorError { _hidden: () }));
    assert_eq!(e.pretty(), expected);
    assert_eq!(e.pretty(), "SpawnError(\n    ExecutorError {\n        _hidden: (),\n    },\n)");
    assert_eq!(Error::SpawnError("shut down".to_string()).pretty(), "SpawnError(\n    shut down,\n)");
    let failed: Msg = response_to(7, Err(Error::SpawnError(String::from("x\n\ny"))));
    match failed {
        Message::Response { error, .. } => {
            assert_eq!(error.unwrap(), "internal error: SpawnError(\n    x\n    \n    y,\n)")
        }
        _ => panic!("expected a response"),
    }
}
