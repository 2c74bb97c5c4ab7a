use vstd::seq::Seq;
use sota::error::Error;
use sota::http::{
    client_credentials_grant, AccessToken, Auth, Authorization, ClientId, ClientSecret, ContentType, HttpRequest,
    Method,
};
use sota::http_client::{framing, relocate_request, send_outcome, AuthHandler, BodyWrite, ResponseStep};
use sota::http_server::{Next, ReadOutcome, Server, ServerHandler, WriteOutcome};

fn credentials() -> Auth {
    Auth::Credentials(ClientId { get: "client".to_string() }, ClientSecret { get: "secret".to_string() })
}

fn token(t: &str) -> Auth {
    let mut tok = AccessToken::empty();
    tok.access_token = t.to_string();
    Auth::Token(tok)
}

fn request(method: Method, body: Option<&[u8]>) -> HttpRequest {
    HttpRequest { method, url: "http://server/api".to_string(), body: body.map(|b| b.to_vec()) }
}

#[derive(Default)]
struct Recorder {
    line: Option<(String, String)>,
    bodies: Vec<Vec<u8>>,
    reply: Option<Vec<u8>>,
}

impl Server for Recorder {
    fn told(&self, _next: &Self, _method: Seq<char>, _uri: Seq<char>) -> bool {
        true
    }

    fn given(&self, _next: &Self, _body: Seq<u8>) -> bool {
        true
    }

    fn answered(&self, _next: &Self, _status: u16, _body: Option<Seq<u8>>) -> bool {
        true
    }

    fn headers(&mut self, method: String, uri: String) {
        self.line = Some((method, uri));
    }

    fn request(&mut self, body: Vec<u8>) {
        self.bodies.push(body);
    }

    fn response(&mut self) -> (u16, Option<Vec<u8>>) {
        (200, self.reply.clone())
    }
}

#[test]
fn server_collects_the_request_body() {
    let mut h = ServerHandler::new(Recorder::default());
    assert_eq!(h.on_request("POST".to_string(), "/cmd".to_string()), Next::Read);
    assert_eq!(h.on_request_readable(ReadOutcome::Data(b"{\"a\":".to_vec())), Next::Read);
    assert_eq!(h.on_request_readable(ReadOutcome::WouldBlock), Next::Read);
    assert_eq!(h.on_request_readable(ReadOutcome::Data(b"1}".to_vec())), Next::Read);
    assert_eq!(h.on_request_readable(ReadOutcome::Data(Vec::new())), Next::WriteWithin(20));
    assert_eq!(h.server().line, Some(("POST".to_string(), "/cmd".to_string())));
    assert_eq!(h.server().bodies, vec![b"{\"a\":1}".to_vec()]);
    assert_eq!(h.on_request_readable(ReadOutcome::Failed), Next::Remove);
}

#[test]
fn server_writes_the_response_until_done() {
    let server = Recorder { reply: Some(b"[1,2,3]".to_vec()), ..Recorder::default() };
    let mut h = ServerHandler::new(server);
    let head = h.on_response();
    assert_eq!((head.status, head.content_type, head.content_length, head.next), (200, ContentType::Json, Some(7), Next::Write));
    assert_eq!(h.unwritten(), b"[1,2,3]".to_vec());
    assert_eq!(h.on_response_writable(WriteOutcome::Wrote(3)), Next::Write);
    assert_eq!(h.unwritten(), b"2,3]".to_vec());
    assert_eq!(h.on_response_writable(WriteOutcome::WouldBlock), Next::Write);
    assert_eq!(h.on_response_writable(WriteOutcome::Wrote(4)), Next::Write);
    assert_eq!(h.written(), 7);
    assert!(h.unwritten().is_empty());
    assert_eq!(h.on_response_writable(WriteOutcome::Wrote(0)), Next::End);
    assert_eq!(h.on_response_writable(WriteOutcome::Failed), Next::Remove);
}

#[test]
fn server_response_without_body_ends() {
    let mut h = ServerHandler::new(Recorder::default());
    let head = h.on_response();
    assert_eq!((head.status, head.content_length, head.next), (200, None, Next::End));
    let head = h.respond(500, None);
    assert_eq!((head.status, head.content_type, head.next), (500, ContentType::Json, Next::End));
}

#[test]
fn anonymous_requests_are_json() {
    let mut h = AuthHandler::new(Auth::Anonymous, request(Method::Get, None));
    let head = h.on_request();
    assert_eq!(head.method, Method::Get);
    assert_eq!(head.authorization, None);
    assert_eq!(head.content_type, ContentType::Json);
    assert_eq!((head.content_length, head.next), (None, Next::ReadWithin(20)));
    assert!(h.started.is_some());
}

#[test]
fn credentials_send_the_grant() {
    let mut h = AuthHandler::new(credentials(), request(Method::Post, None));
    let head = h.on_request();
    assert_eq!(
        head.authorization,
        Some(Authorization::Basic { username: "client".to_string(), password: "secret".to_string() })
    );
    assert_eq!(head.content_type, ContentType::FormUrlEncoded);
    assert_eq!(h.req.body, Some(b"grant_type=client_credentials".to_vec()));
    assert_eq!(client_credentials_grant(), b"grant_type=client_credentials".to_vec());
    assert_eq!((head.content_length, head.next), (Some(29), Next::Write));
    assert_eq!(h.on_request_writable(BodyWrite::Done), Next::ReadWithin(20));
    assert_eq!(h.on_request_writable(BodyWrite::WouldBlock), Next::Write);
    assert_eq!(h.on_request_writable(BodyWrite::Failed), Next::Remove);
}

#[test]
fn tokens_are_bearers() {
    let mut h = AuthHandler::new(token("abc"), request(Method::Put, Some(b"[]")));
    let head = h.on_request();
    assert_eq!(head.method, Method::Put);
    assert_eq!(head.authorization, Some(Authorization::Bearer { token: "abc".to_string() }));
    assert_eq!(head.content_type, ContentType::Json);
    assert_eq!((head.content_length, head.next), (Some(2), Next::Write));
    assert_eq!(h.req.body, Some(b"[]".to_vec()));
}

#[test]
fn response_statuses() {
    let h = AuthHandler::new(Auth::Anonymous, request(Method::Get, None));
    assert!(matches!(h.on_response(200, "200 OK"), ResponseStep::Read));
    assert!(matches!(h.on_response(204, "204 No Content"), ResponseStep::Read));
    assert!(matches!(h.on_response(302, "302 Found"), ResponseStep::Redirect));
    match h.on_response(404, "404 Not Found") {
        ResponseStep::Fail(e) => assert_eq!(e, Error::Client("failed response status: 404 Not Found".to_string())),
        _ => panic!("a 404 fails"),
    }
    assert!(matches!(h.on_response(100, "100 Continue"), ResponseStep::Fail(_)));
}

#[test]
fn redirects_drop_the_authentication() {
    let h = AuthHandler::new(token("abc"), request(Method::Post, Some(b"x")));
    let next = h.redirect_request(Some("http://other/api".to_string())).unwrap();
    assert_eq!(next.auth, Auth::Anonymous);
    assert_eq!(next.req, HttpRequest { method: Method::Post, url: "http://other/api".to_string(), body: Some(b"x".to_vec()) });
    assert_eq!((next.timeout, next.started), (20, None));
    assert_eq!(
        h.redirect_request(None).unwrap_err(),
        Error::Client("redirection without Location header".to_string())
    );
}

#[test]
fn blocking_client_framing() {
    let f = framing(&Auth::Anonymous, &None);
    assert_eq!((f.authorization, f.content_type, f.body), (None, None, String::new()));
    let f = framing(&credentials(), &None);
    assert_eq!(f.content_type, Some(ContentType::FormUrlEncoded));
    assert_eq!(f.body, "grant_type=client_credentials");
    let f = framing(&token("t"), &Some("{\"k\":1}".to_string()));
    assert_eq!(f.authorization, Some(Authorization::Bearer { token: "t".to_string() }));
    assert_eq!((f.content_type, f.body.as_str()), (Some(ContentType::Json), "{\"k\":1}"));
    let f = framing(&token("t"), &None);
    assert_eq!((f.content_type, f.body.as_str()), (None, ""));
}

#[test]
fn blocking_client_outcomes() {
    assert!(matches!(send_outcome(201, "201 Created", ""), ResponseStep::Read));
    assert!(matches!(send_outcome(301, "301 Moved Permanently", ""), ResponseStep::Redirect));
    match send_outcome(500, "500 Internal Server Error", "oops") {
        ResponseStep::Fail(e) => assert_eq!(
            e,
            Error::Client("Request errored with status 500 Internal Server Error, body: oops".to_string())
        ),
        _ => panic!("a 500 fails"),
    }
    let (auth, next) = relocate_request(&request(Method::Get, None), Some("http://new".to_string())).unwrap();
    assert_eq!(auth, Auth::Anonymous);
    assert_eq!(next, HttpRequest { method: Method::Get, url: "http://new".to_string(), body: None });
    assert_eq!(
        relocate_request(&request(Method::Get, None), None).unwrap_err(),
        Error::Client("Redirect with no Location header".to_string())
    );
}
