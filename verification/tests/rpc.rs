use vstd::seq::Seq;
use sota::jsonrpc::{ErrResponse, ErrorCode, OkResponse, Request};
use sota::rvi::{route_message, Message, RVIMessage, Route, RpcEnvelope, ServiceEdge, ServiceHandler};

fn env(is_object: bool, id: Option<u64>, method: Option<&str>, service: Option<&str>) -> RpcEnvelope {
    RpcEnvelope {
        is_object,
        id,
        method: method.map(|m| m.to_string()),
        service_name: service.map(|s| s.to_string()),
    }
}

fn err_of(r: Route) -> (u64, i32, String) {
    match r {
        Route::Reply(Err(e)) => {
            assert_eq!(e.jsonrpc, "2.0");
            (e.id, e.error.code, e.error.message)
        }
        other => panic!("expected an error reply, got {:?}", other),
    }
}

#[test]
fn constructors() {
    let ok = OkResponse::new(5, Some(1));
    assert_eq!((ok.jsonrpc.as_str(), ok.id, ok.result), ("2.0", 5, Some(1)));
    let e = ErrResponse::new(9, ErrorCode::new(-1, "m".to_string()));
    assert_eq!((e.jsonrpc.as_str(), e.id, e.error.code, e.error.message.as_str()), ("2.0", 9, -1, "m"));
    let e = ErrResponse::invalid_request(3);
    assert_eq!((e.id, e.error.code, e.error.message.as_str()), (3, -32600, "Invalid Request"));
    let e = ErrResponse::method_not_found(4);
    assert_eq!((e.id, e.error.code, e.error.message.as_str()), (4, -32601, "Method not found"));
    let e = ErrResponse::invalid_params(6);
    assert_eq!((e.id, e.error.code, e.error.message.as_str()), (6, -32602, "Invalid params"));
    let e = ErrResponse::unspecified(7);
    assert_eq!((e.id, e.error.code, e.error.message.as_str()), (7, -32100, "Couldn't handle request"));
    let e = ErrResponse::parse_error();
    assert_eq!((e.id, e.error.code, e.error.message.as_str()), (0, -32700, "Parse error"));
    let r = Request::new("message", 12);
    assert_eq!((r.jsonrpc.as_str(), r.method.as_str(), r.params), ("2.0", "message", 12));
}

#[test]
fn rvi_messages() {
    let m = RVIMessage::new("svc", vec![1, 2], 90);
    assert_eq!(m.service_name, "svc");
    assert_eq!(m.parameters, vec![1, 2]);
    assert!(m.timeout > 90);
    let incoming = Message { service_name: "x".to_string(), parameters: vec![3] };
    assert_eq!(incoming.parameters.len(), 1);
}

#[test]
fn routing() {
    assert_eq!(err_of(route_message(&env(false, Some(1), Some("message"), None))), (0, -32700, "Parse error".to_string()));
    assert_eq!(err_of(route_message(&env(true, None, Some("message"), None))), (0, -32700, "Parse error".to_string()));
    assert_eq!(err_of(route_message(&env(true, Some(4), None, None))), (4, -32600, "Invalid Request".to_string()));
    assert_eq!(err_of(route_message(&env(true, Some(4), Some("other"), None))), (4, -32601, "Method not found".to_string()));
    assert_eq!(err_of(route_message(&env(true, Some(4), Some("message"), None))), (4, -32600, "Invalid Request".to_string()));
    match route_message(&env(true, Some(8), Some("services_available"), None)) {
        Route::Reply(Ok(ok)) => assert_eq!((ok.id, ok.result), (8, None)),
        other => panic!("unexpected {:?}", other),
    }
    match route_message(&env(true, Some(8), Some("message"), Some("/sota/chunk"))) {
        Route::Dispatch { id, service } => assert_eq!((id, service.as_str()), (8, "/sota/chunk")),
        other => panic!("unexpected {:?}", other),
    }
}

struct Echo;

impl ServiceHandler for Echo {
    fn handled(&self, _id: u64, _service: Seq<char>, _message: Seq<char>, _r: Result<OkResponse, ErrResponse>) -> bool {
        true
    }

    fn handle_service(&self, id: u64, service: &str, message: &str) -> Result<OkResponse, ErrResponse> {
        Ok(OkResponse::new(id, Some((service.len() * 1000 + message.len()) as i32)))
    }
}

fn edge() -> ServiceEdge<Echo> {
    ServiceEdge::new("http://rvi".to_string(), "0.0.0.0:9080".to_string(), Echo)
}

fn edge_error(message: &str) -> (u64, i32, String) {
    let e = edge().handle_message(message).unwrap_err();
    assert_eq!(e.jsonrpc, "2.0");
    (e.id, e.error.code, e.error.message)
}

#[test]
fn edge_dispatches_service_calls() {
    let edge = edge();
    assert_eq!(edge.rvi_url, "http://rvi");
    let msg = r#"{"jsonrpc":"2.0","id":2,"method":"message","params":{"service_name":"abc"}}"#;
    let r = edge.handle_message(msg).unwrap();
    assert_eq!((r.id, r.result), (2, Some((3000 + msg.len()) as i32)));
}

#[test]
fn edge_answers_requests_it_does_not_dispatch() {
    assert_eq!(edge_error("not json"), (0, -32700, "Parse error".to_string()));
    assert_eq!(edge_error(r#"{"method":"message"}"#), (0, -32700, "Parse error".to_string()));
    assert_eq!(edge_error("[1,2]"), (0, -32700, "Parse error".to_string()));
    assert_eq!(edge_error(r#"{"id":7}"#), (7, -32600, "Invalid Request".to_string()));
    assert_eq!(edge_error(r#"{"id":7,"method":"foo"}"#), (7, -32601, "Method not found".to_string()));
    assert_eq!(edge_error(r#"{"id":7,"method":"message","params":{}}"#), (7, -32600, "Invalid Request".to_string()));
    let ok = edge().handle_message(r#"{"jsonrpc":"2.0","id":7,"method":"services_available"}"#).unwrap();
    assert_eq!((ok.jsonrpc.as_str(), ok.id, ok.result), ("2.0", 7, None));
}
