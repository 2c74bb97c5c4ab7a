//! Plain HTTP data and the client test doubles that answer requests from a
//! list of canned replies.

use vstd::prelude::*;
use crate::error::Error;

verus! {

/// The HTTP methods the client uses.
#[derive(Debug, Clone, Copy, PartialEq, Eq, Structural)]
pub enum Method {
    Get,
    Post,
    Put,
}

/// The name of a method as sent on the wire.
pub open spec fn method_name(m: Method) -> Seq<char> {
    match m {
        Method::Get => "GET"@,
        Method::Post => "POST"@,
        Method::Put => "PUT"@,
    }
}

impl Method {
    /// `GET`, `POST` or `PUT`.
    pub fn to_string(&self) -> (s: String)
        ensures
            s@ == method_name(*self),
    {
        match self {
            Method::Get => String::from_str("GET"),
            Method::Post => String::from_str("POST"),
            Method::Put => String::from_str("PUT"),
        }
    }
}

/// An OAuth2 client id.
#[derive(Debug, PartialEq, Eq)]
pub struct ClientId {
    pub get: String,
}

/// An OAuth2 client secret.
#[derive(Debug, PartialEq, Eq)]
pub struct ClientSecret {
    pub get: String,
}

/// An OAuth2 client id with its secret.
#[derive(Debug, PartialEq, Eq)]
pub struct ClientCredentials {
    pub id: ClientId,
    pub secret: ClientSecret,
}

/// An OAuth2 access token as the server grants it.
#[derive(Debug, PartialEq, Eq)]
pub struct AccessToken {
    pub access_token: String,
    pub token_type: String,
    pub expires_in: i32,
    pub scope: Vec<String>,
}

impl AccessToken {
    /// The empty token.
    pub fn empty() -> (t: AccessToken)
        ensures
            t.access_token@ == Seq::<char>::empty(),
            t.token_type@ == Seq::<char>::empty(),
            t.expires_in == 0,
            t.scope@ == Seq::<String>::empty(),
    {
        AccessToken { access_token: String::new(), token_type: String::new(), expires_in: 0, scope: Vec::new() }
    }
}

/// How requests authenticate with the server.
#[derive(Debug, PartialEq, Eq)]
pub enum Auth {
    /// No authentication.
    Anonymous,
    Credentials(ClientId, ClientSecret),
    Token(AccessToken),
}

/// The `Authorization` header of a request.
#[derive(Debug, PartialEq, Eq)]
pub enum Authorization {
    /// Basic authentication with a user name and password.
    Basic { username: String, password: String },
    /// A bearer token.
    Bearer { token: String },
}

/// The `Content-Type` header of a request or response; both are sent with
/// the UTF-8 charset.
#[derive(Debug, Clone, Copy, PartialEq, Eq, Structural)]
pub enum ContentType {
    /// `application/json`
    Json,
    /// `application/x-www-form-urlencoded`
    FormUrlEncoded,
}

/// The body an OAuth2 client-credentials grant sends.
pub open spec fn grant_body() -> Seq<u8> {
    vstd::utf8::encode_utf8("grant_type=client_credentials"@)
}

/// The form body of a client-credentials grant.
pub fn client_credentials_grant() -> (b: Vec<u8>)
    ensures
        b@ == grant_body(),
{
    "grant_type=client_credentials".as_bytes_vec()
}

/// The status classes of HTTP: 2xx is a success, 3xx a redirection.
pub open spec fn is_success(code: u16) -> bool {
    200 <= code < 300
}

pub open spec fn is_redirection(code: u16) -> bool {
    300 <= code < 400
}

/// A status's class is its hundreds digit, as HTTP defines it: the 2xx
/// statuses, all of them, are the successes and the 3xx statuses, all of
/// them (301, 302, 303, 307, 308 and the rest), the redirections; no status
/// is both.
pub proof fn status_class_by_hundreds(code: u16)
    ensures
        is_success(code) <==> code / 100 == 2,
        is_redirection(code) <==> code / 100 == 3,
        !(is_success(code) && is_redirection(code)),
{
}

/// The status code and body of an HTTP response.
#[derive(Debug, PartialEq, Eq)]
pub struct ResponseData {
    pub code: u16,
    pub body: Vec<u8>,
}

/// A request as the HTTP clients take it.
#[derive(Debug, PartialEq, Eq)]
pub struct HttpRequest {
    pub method: Method,
    pub url: String,
    pub body: Option<Vec<u8>>,
}

impl HttpRequest {
    /// `"<METHOD> <url>"`.
    pub open spec fn describe_view(&self) -> Seq<char> {
        method_name(self.method) + " "@ + self.url@
    }

    /// The request as `"<METHOD> <url>"`.
    pub fn describe(&self) -> (s: String)
        ensures
            s@ == self.describe_view(),
    {
        self.method.to_string().concat(" ").concat(self.url.as_str())
    }
}

/// An HTTP client for tests: answers each request with the last of its
/// remaining replies, and fails once none is left.
#[derive(Debug)]
pub struct TestHttpClient {
    pub replies: Vec<Vec<u8>>,
}

impl TestHttpClient {
    /// A client without replies.
    pub fn new() -> (c: TestHttpClient)
        ensures
            c.replies@.len() == 0,
    {
        TestHttpClient { replies: Vec::new() }
    }

    /// A client answering with `replies`, last first.
    pub fn from(replies: Vec<Vec<u8>>) -> (c: TestHttpClient)
        ensures
            c.replies == replies,
    {
        TestHttpClient { replies }
    }

    /// The answer to `req`: the last remaining reply, which is used up; with
    /// none left, a client error naming the request.
    pub fn send_request(&mut self, req: &HttpRequest) -> (r: Result<Vec<u8>, Error>)
        ensures
            old(self).replies@.len() > 0 ==> r == Ok::<Vec<u8>, Error>(old(self).replies@.last())
                && final(self).replies@ == old(self).replies@.drop_last(),
            old(self).replies@.len() == 0 ==> (r matches Err(Error::Client(m)) && m@ == req.describe_view())
                && final(self).replies@.len() == 0,
    {
        match self.replies.pop() {
            Some(body) => Ok(body),
            None => Err(Error::Client(req.describe())),
        }
    }
}

/// An HTTP client for tests answering with text replies, last first; with
/// none left the request fails naming its URL.
#[derive(Debug)]
pub struct TestClient {
    pub responses: Vec<String>,
}

impl TestClient {
    /// A client without replies.
    pub fn new() -> (c: TestClient)
        ensures
            c.responses@.len() == 0,
    {
        TestClient { responses: Vec::new() }
    }

    /// A client answering with `responses`, last first.
    pub fn from(responses: Vec<String>) -> (c: TestClient)
        ensures
            c.responses == responses,
    {
        TestClient { responses }
    }

    /// The answer to `req`: the bytes of the last remaining reply, which is
    /// used up; with none left, a client error naming the URL.
    pub fn send_request(&mut self, req: &HttpRequest) -> (r: Result<Vec<u8>, Error>)
        ensures
            old(self).responses@.len() > 0 ==> (r matches Ok(b) && b@ == vstd::utf8::encode_utf8(old(self).responses@.last()@))
                && final(self).responses@ == old(self).responses@.drop_last(),
            old(self).responses@.len() == 0 ==> (r matches Err(Error::Client(m)) && m@ == req.url@)
                && final(self).responses@.len() == 0,
    {
        match self.responses.pop() {
            Some(body) => Ok(body.as_str().as_bytes_vec()),
            None => Err(Error::Client(req.url.clone())),
        }
    }
}

/// Values that can be read from a line of text.
pub trait Parse: Sized {
    fn parse(s: String) -> Option<Self>;
}

/// Values that can be shown to a person.
pub trait Print: Sized {
    fn pretty_print(&self) -> String;
}

} // verus!
