//! The client side of an HTTP exchange: how a request is framed for the
//! way it authenticates, and what follows from the response status.

use vstd::prelude::*;
use crate::error::Error;
use crate::http::{
    client_credentials_grant, grant_body, is_redirection, is_success, Auth, Authorization, ContentType, HttpRequest,
    Method,
};
use crate::http_server::Next;
use crate::jsonrpc::precise_time_ns;

verus! {

/// How long a request waits for its response, in seconds.
pub const REQUEST_TIMEOUT_SECS: u64 = 20;

/// The head of a request.
#[derive(Debug)]
pub struct RequestHead {
    pub method: Method,
    pub authorization: Option<Authorization>,
    pub content_type: ContentType,
    /// Set when the request has a body.
    pub content_length: Option<u64>,
    pub next: Next,
}

/// What writing the whole request body did.
#[derive(Debug, Clone, Copy, PartialEq, Eq, Structural)]
pub enum BodyWrite {
    Done,
    WouldBlock,
    Failed,
}

/// What follows a response status.
#[derive(Debug)]
pub enum ResponseStep {
    /// Read the body.
    Read,
    /// Follow the redirection.
    Redirect,
    /// Give up with the error.
    Fail(Error),
}

/// The `Authorization` header that `auth` gives, by the views of its parts.
pub open spec fn authorizes(auth: Auth, header: Option<Authorization>) -> bool {
    match auth {
        Auth::Anonymous => header is None,
        Auth::Credentials(id, secret) => header matches Some(Authorization::Basic { username, password })
            && username@ == id.get@ && password@ == secret.get@,
        Auth::Token(token) => header matches Some(Authorization::Bearer { token: t }) && t@
            == token.access_token@,
    }
}

/// A copy of `s`.
fn copy_string(s: &String) -> (r: String)
    ensures
        r@ == s@,
{
    String::from_str(s.as_str())
}

/// A copy of `b`.
fn copy_bytes(b: &Option<Vec<u8>>) -> (r: Option<Vec<u8>>)
    ensures
        match b {
            Some(v) => r matches Some(w) && w@ == v@,
            None => r is None,
        },
{
    match b {
        Some(v) => {
            let mut w: Vec<u8> = Vec::new();
            let mut i: usize = 0;
            while i < v.len()
                invariant
                    i <= v.len(),
                    w@ == v@.take(i as int),
                decreases v.len() - i,
            {
                w.push(v[i]);
                i = i + 1;
                assert(w@ =~= v@.take(i as int));
            }
            assert(v@.take(v.len() as int) =~= v@);
            Some(w)
        },
        None => None,
    }
}

/// Sends one request with the authentication it was given.
#[derive(Debug)]
pub struct AuthHandler {
    pub auth: Auth,
    pub req: HttpRequest,
    /// How long the response is awaited, in seconds.
    pub timeout: u64,
    /// The clock reading when the request went out.
    pub started: Option<u64>,
}

impl AuthHandler {
    /// A handler for `req` that has not started.
    pub fn new(auth: Auth, req: HttpRequest) -> (h: AuthHandler)
        ensures
            h.auth == auth,
            h.req == req,
            h.timeout == REQUEST_TIMEOUT_SECS,
            h.started is None,
    {
        AuthHandler { auth, req, timeout: REQUEST_TIMEOUT_SECS, started: None }
    }

    /// The head of the request: without authentication it is JSON; with
    /// client credentials it authenticates as the client and its body
    /// becomes the client-credentials grant; with a token it carries the
    /// token and is JSON. A request with a body writes it next, one without
    /// awaits the response. The start time is recorded.
    pub fn on_request(&mut self) -> (h: RequestHead)
        requires
            !(old(self).auth is Credentials && old(self).req.body is Some),
        ensures
            h.method == old(self).req.method,
            authorizes(old(self).auth, h.authorization),
            h.content_type == (if old(self).auth is Credentials {
                ContentType::FormUrlEncoded
            } else {
                ContentType::Json
            }),
            old(self).auth is Credentials ==> (final(self).req.body matches Some(b) && b@ == grant_body()),
            !(old(self).auth is Credentials) ==> final(self).req.body == old(self).req.body,
            match final(self).req.body {
                Some(b) => h.content_length == Some(b@.len() as u64) && h.next == Next::Write,
                None => h.content_length is None && h.next == Next::ReadWithin(old(self).timeout),
            },
            final(self).started is Some,
            final(self).auth == old(self).auth,
            final(self).req.method == old(self).req.method,
            final(self).req.url == old(self).req.url,
            final(self).timeout == old(self).timeout,
    {
        let (authorization, content_type, grant) = match &self.auth {
            Auth::Anonymous => (None, ContentType::Json, false),
            Auth::Credentials(id, secret) => (
                Some(Authorization::Basic { username: copy_string(&id.get), password: copy_string(&secret.get) }),
                ContentType::FormUrlEncoded,
                true,
            ),
            Auth::Token(token) => (
                Some(Authorization::Bearer { token: copy_string(&token.access_token) }),
                ContentType::Json,
                false,
            ),
        };
        if grant {
            self.req.body = Some(client_credentials_grant());
        }
        let (content_length, next) = match &self.req.body {
            Some(b) => {
                let n: usize = b.len();
                (Some(n as u64), Next::Write)
            },
            None => (None, Next::ReadWithin(self.timeout)),
        };
        self.started = Some(precise_time_ns());
        RequestHead { method: self.req.method, authorization, content_type, content_length, next }
    }

    /// The body was written: the response is awaited; a write that would
    /// block is retried; a failed write drops the request.
    pub fn on_request_writable(&self, wrote: BodyWrite) -> (n: Next)
        requires
            self.req.body is Some,
        ensures
            match wrote {
                BodyWrite::Done => n == Next::ReadWithin(self.timeout),
                BodyWrite::WouldBlock => n == Next::Write,
                BodyWrite::Failed => n == Next::Remove,
            },
    {
        match wrote {
            BodyWrite::Done => Next::ReadWithin(self.timeout),
            BodyWrite::WouldBlock => Next::Write,
            BodyWrite::Failed => Next::Remove,
        }
    }

    /// A successful response is read, a redirection followed; any other
    /// status fails naming it (`status` is the code with its reason).
    pub fn on_response(&self, code: u16, status: &str) -> (r: ResponseStep)
        ensures
            is_success(code) ==> r is Read,
            is_redirection(code) ==> r is Redirect,
            !is_success(code) && !is_redirection(code) ==> (r matches ResponseStep::Fail(Error::Client(m)) && m@
                == "failed response status: "@ + status@),
            code / 100 == 2 ==> r is Read,
            code / 100 == 3 ==> r is Redirect,
            code / 100 != 2 && code / 100 != 3 ==> r is Fail,
    {
        if 200 <= code && code < 300 {
            ResponseStep::Read
        } else if 300 <= code && code < 400 {
            ResponseStep::Redirect
        } else {
            ResponseStep::Fail(Error::Client(String::from_str("failed response status: ").concat(status)))
        }
    }

    /// The request that follows a redirection to `location` (the Location
    /// header resolved against the request's URL): the same method and body,
    /// sent without authentication. Without a location the redirection
    /// fails.
    pub fn redirect_request(&self, location: Option<String>) -> (r: Result<AuthHandler, Error>)
        ensures
            match location {
                Some(url) => r matches Ok(h) && h.auth == Auth::Anonymous && h.req.url == url && h.req.method
                    == self.req.method && h.timeout == REQUEST_TIMEOUT_SECS && h.started is None && match self.req.body {
                    Some(b) => h.req.body matches Some(c) && c@ == b@,
                    None => h.req.body is None,
                },
                None => r matches Err(Error::Client(m)) && m@ == "redirection without Location header"@,
            },
    {
        match location {
            Some(url) => Ok(
                AuthHandler::new(
                    Auth::Anonymous,
                    HttpRequest { method: self.req.method, url, body: copy_bytes(&self.req.body) },
                ),
            ),
            None => Err(Error::Client(String::from_str("redirection without Location header"))),
        }
    }
}

/// What a blocking client sends for a request: its `Authorization` header,
/// its `Content-Type` and its body.
#[derive(Debug)]
pub struct Framing {
    pub authorization: Option<Authorization>,
    pub content_type: Option<ContentType>,
    pub body: String,
}

/// A request may carry a body only when it sends a token.
pub open spec fn framing_defined(auth: Auth, body: Option<String>) -> bool {
    auth is Token || body is None
}

/// How a blocking client frames a request: without authentication nothing
/// is added; client credentials authenticate the client and send the grant
/// as a form; a token is sent as bearer, with the JSON body if there is one.
pub fn framing(auth: &Auth, body: &Option<String>) -> (f: Framing)
    requires
        framing_defined(*auth, *body),
    ensures
        authorizes(*auth, f.authorization),
        match auth {
            Auth::Anonymous => f.content_type is None && f.body@.len() == 0,
            Auth::Credentials(_, _) => f.content_type == Some(ContentType::FormUrlEncoded) && f.body@
                == "grant_type=client_credentials"@,
            Auth::Token(_) => match body {
                Some(json) => f.content_type == Some(ContentType::Json) && f.body@ == json@,
                None => f.content_type is None && f.body@.len() == 0,
            },
        },
{
    match auth {
        Auth::Anonymous => Framing { authorization: None, content_type: None, body: String::new() },
        Auth::Credentials(id, secret) => Framing {
            authorization: Some(
                Authorization::Basic { username: copy_string(&id.get), password: copy_string(&secret.get) },
            ),
            content_type: Some(ContentType::FormUrlEncoded),
            body: String::from_str("grant_type=client_credentials"),
        },
        Auth::Token(token) => {
            let authorization = Some(Authorization::Bearer { token: copy_string(&token.access_token) });
            match body {
                Some(json) => Framing {
                    authorization,
                    content_type: Some(ContentType::Json),
                    body: copy_string(json),
                },
                None => Framing { authorization, content_type: None, body: String::new() },
            }
        },
    }
}

/// What a blocking client does with a response: a success delivers the
/// body, a redirection is followed, any other status fails with the status
/// (its code and reason) and the body text.
pub fn send_outcome(code: u16, status: &str, body: &str) -> (r: ResponseStep)
    ensures
        is_success(code) ==> r is Read,
        is_redirection(code) ==> r is Redirect,
        !is_success(code) && !is_redirection(code) ==> (r matches ResponseStep::Fail(Error::Client(m)) && m@
            == "Request errored with status "@ + status@ + ", body: "@ + body@),
        code / 100 == 2 ==> r is Read,
        code / 100 == 3 ==> r is Redirect,
        code / 100 != 2 && code / 100 != 3 ==> r is Fail,
{
    if 200 <= code && code < 300 {
        ResponseStep::Read
    } else if 300 <= code && code < 400 {
        ResponseStep::Redirect
    } else {
        ResponseStep::Fail(
            Error::Client(String::from_str("Request errored with status ").concat(status).concat(", body: ").concat(body)),
        )
    }
}

/// The request that follows a redirection of `req` to `location` (the
/// Location header resolved against the request's URL): the same method and
/// body, without authentication. Without a location it fails.
pub fn relocate_request(req: &HttpRequest, location: Option<String>) -> (r: Result<(Auth, HttpRequest), Error>)
    ensures
        match location {
            Some(url) => r matches Ok((auth, next)) && auth == Auth::Anonymous && next.url == url && next.method
                == req.method && match req.body {
                Some(b) => next.body matches Some(c) && c@ == b@,
                None => next.body is None,
            },
            None => r matches Err(Error::Client(m)) && m@ == "Redirect with no Location header"@,
        },
{
    match location {
        Some(url) => Ok((Auth::Anonymous, HttpRequest { method: req.method, url, body: copy_bytes(&req.body) })),
        None => Err(Error::Client(String::from_str("Redirect with no Location header"))),
    }
}

} // verus!
