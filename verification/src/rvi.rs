//! Messages exchanged with the remote vehicle interaction (RVI) node and the
//! service edge that answers its JSON-RPC calls.

use rustc_serialize::json::Json;
use vstd::prelude::*;
use crate::jsonrpc::{ErrResponse, OkResponse, is_error};
use crate::text::str_eq;

verus! {

/// The largest number of seconds `time::Duration::seconds` accepts.
pub const MAX_DELTA_SECONDS: i64 = 9223372036854775;

/// Calls `time::get_time()` and adds `time::Duration::seconds(tdelta)`,
/// giving the UNIX time in seconds `tdelta` seconds from now. Nothing is known
/// of the clock. `Duration::seconds` panics outside the bounds required here;
/// the sum in `time` could only overflow for clock readings hundreds of
/// millions of years from now.
#[verifier::external_body]
fn seconds_from_now(tdelta: i64) -> i64
    requires
        -MAX_DELTA_SECONDS <= tdelta <= MAX_DELTA_SECONDS,
{
    (time::get_time() + time::Duration::seconds(tdelta)).sec
}

/// A generic incoming message.
#[derive(Debug)]
pub struct Message<T> {
    /// The service that got called.
    pub service_name: String,
    /// The parameters of the service call.
    pub parameters: Vec<T>,
}

/// A generic outgoing message.
#[derive(Debug)]
pub struct RVIMessage<T> {
    /// The service to call.
    pub service_name: String,
    /// The UNIX time (seconds) at which the message expires.
    pub timeout: i64,
    /// The parameters of the service call.
    pub parameters: Vec<T>,
}

impl<T> RVIMessage<T> {
    /// A call of `service` with `parameters` that expires `tdelta` seconds
    /// from now.
    pub fn new(service: &str, parameters: Vec<T>, tdelta: i64) -> (m: RVIMessage<T>)
        requires
            -MAX_DELTA_SECONDS <= tdelta <= MAX_DELTA_SECONDS,
        ensures
            m.service_name@ == service@,
            m.parameters == parameters,
    {
        RVIMessage {
            timeout: seconds_from_now(tdelta),
            service_name: String::from_str(service),
            parameters,
        }
    }
}

/// A registration of a service at the RVI node.
#[derive(Debug)]
pub struct RegisterServiceRequest {
    /// The network address where the service can be reached.
    pub network_address: String,
    /// The short name of the service.
    pub service: String,
}

/// The answer to a registration.
#[derive(Debug)]
pub struct RegisterServiceResponse {
    /// The status reported by RVI.
    pub status: i32,
    /// The full service name RVI assigned.
    pub service: String,
}

/// Handles the service calls that the edge receives.
pub trait ServiceHandler {
    /// Whether `r` is the handler's answer to a call of `service` carried by
    /// request `id` whose whole text is `message`.
    spec fn handled(&self, id: u64, service: Seq<char>, message: Seq<char>, r: Result<OkResponse, ErrResponse>) -> bool;

    /// Answers a call of `service` carried by request `id`; `message` is the
    /// whole request text.
    fn handle_service(&self, id: u64, service: &str, message: &str) -> (r: Result<OkResponse, ErrResponse>)
        ensures
            self.handled(id, service@, message@, r),
    ;
}

/// The fields that decide how a JSON-RPC request text is handled, as
/// `rustc_serialize` reads the text: whether it is a JSON object, its `id`
/// member as an unsigned integer, its `method` member as a string, and the
/// `service_name` member of its `params` object as a string.
pub uninterp spec fn json_envelope(message: Seq<char>) -> (bool, Option<u64>, Option<Seq<char>>, Option<Seq<char>>);

/// Reads the deciding fields of a request text with `Json::from_str` of
/// `rustc_serialize` and its accessors `as_object`, `get`, `as_u64` and
/// `as_string`; text that is no JSON reads as no object. The fields are
/// `json_envelope` of the text.
#[verifier::external_body]
fn parse_envelope(message: &str) -> (e: RpcEnvelope)
    ensures
        (e.is_object, e.id, opt_view(e.method), opt_view(e.service_name)) == json_envelope(message@),
{
    let data = Json::from_str(message).ok();
    let obj = data.as_ref().and_then(|d| d.as_object());
    let member = |k: &str| obj.and_then(|o| o.get(k));
    RpcEnvelope {
        is_object: obj.is_some(),
        id: member("id").and_then(|x| x.as_u64()),
        method: member("method").and_then(|x| x.as_string()).map(String::from),
        service_name: member("params").and_then(|x| x.as_object()).and_then(|p| p.get("service_name"))
            .and_then(|x| x.as_string()).map(String::from),
    }
}

/// The fields of an incoming JSON-RPC request that decide how it is handled.
#[derive(Debug)]
pub struct RpcEnvelope {
    /// The request text is a JSON object.
    pub is_object: bool,
    /// The `id` member, when it is an unsigned integer.
    pub id: Option<u64>,
    /// The `method` member, when it is a string.
    pub method: Option<String>,
    /// The `params.service_name` member, when it is a string.
    pub service_name: Option<String>,
}

/// How an incoming request is handled.
#[derive(Debug)]
pub enum Route {
    /// Answer at once.
    Reply(Result<OkResponse, ErrResponse>),
    /// Hand request `id` to the handler of `service`.
    Dispatch { id: u64, service: String },
}

/// The receiving side of the RVI connection.
pub struct ServiceEdge<H: ServiceHandler> {
    /// The full URL where RVI can be reached.
    pub rvi_url: String,
    /// The `host:port` to listen on for RVI calls.
    pub edge_url: String,
    pub hdlr: H,
}

impl<H: ServiceHandler> ServiceEdge<H> {
    /// An edge reaching RVI at `r`, listening on `e`, handing calls to `h`.
    pub fn new(r: String, e: String, h: H) -> (s: ServiceEdge<H>)
        ensures
            s.rvi_url == r,
            s.edge_url == e,
            s.hdlr == h,
    {
        ServiceEdge { rvi_url: r, edge_url: e, hdlr: h }
    }

    /// Answers a request text: it is read, then routed by `route_message`;
    /// a service call goes to the handler with the unchanged text and its
    /// answer is returned.
    pub fn handle_message(&self, message: &str) -> (r: Result<OkResponse, ErrResponse>)
        ensures
            message_route(message@).0 != 1 ==> reply_is(r, message_route(message@).0, message_route(message@).1),
            message_route(message@).0 == 1 ==> self.hdlr.handled(
                message_route(message@).1,
                message_route(message@).2,
                message@,
                r,
            ),
    {
        let env = parse_envelope(message);
        match route_message(&env) {
            Route::Reply(r) => r,
            Route::Dispatch { id, service } => self.hdlr.handle_service(id, service.as_str(), message),
        }
    }
}

/// How a request is routed: no JSON object or no numeric id is a parse
/// error; no method an invalid request; `services_available` is
/// acknowledged; any method but `message` is not found; a `message` without
/// a service name is an invalid request; otherwise the call goes to the
/// handler of the named service.
pub open spec fn spec_route(is_object: bool, id: Option<u64>, method: Option<Seq<char>>, service: Option<
    Seq<char>,
>) -> (int, u64, Seq<char>) {
    if !is_object || id is None {
        (-32700, 0, Seq::empty())
    } else if method is None {
        (-32600, id->0, Seq::empty())
    } else if method->0 == "services_available"@ {
        (0, id->0, Seq::empty())
    } else if method->0 != "message"@ {
        (-32601, id->0, Seq::empty())
    } else if service is None {
        (-32600, id->0, Seq::empty())
    } else {
        (1, id->0, service->0)
    }
}

/// The route of a request text.
pub open spec fn message_route(message: Seq<char>) -> (int, u64, Seq<char>) {
    let e = json_envelope(message);
    spec_route(e.0, e.1, e.2, e.3)
}

/// The message of a JSON-RPC error code.
pub open spec fn error_message(code: int) -> Seq<char> {
    if code == -32700 {
        "Parse error"@
    } else if code == -32600 {
        "Invalid Request"@
    } else if code == -32601 {
        "Method not found"@
    } else {
        Seq::empty()
    }
}

/// `r` is the reply of `code` to request `id`: code 0 is the
/// acknowledgement without result, any other the error of that code.
pub open spec fn reply_is(r: Result<OkResponse, ErrResponse>, code: int, id: u64) -> bool {
    match r {
        Ok(ok) => code == 0 && ok.jsonrpc@ == "2.0"@ && ok.id == id && ok.result is None,
        Err(e) => code != 0 && is_error(e, id, code, error_message(code)),
    }
}

/// `r` is the route `expected` gives: a dispatch of code 1, a reply of any
/// other code.
pub open spec fn route_is(r: Route, expected: (int, u64, Seq<char>)) -> bool {
    match r {
        Route::Reply(rep) => expected.0 != 1 && reply_is(rep, expected.0, expected.1),
        Route::Dispatch { id, service } => expected.0 == 1 && id == expected.1 && service@ == expected.2,
    }
}

/// The option of a string as plain value.
pub open spec fn opt_view(o: Option<String>) -> Option<Seq<char>> {
    match o {
        Some(s) => Some(s@),
        None => None,
    }
}

/// Decides how a request is handled.
pub fn route_message(env: &RpcEnvelope) -> (r: Route)
    ensures
        route_is(r, spec_route(env.is_object, env.id, opt_view(env.method), opt_view(env.service_name))),
{
    if !env.is_object {
        return Route::Reply(Err(ErrResponse::parse_error()));
    }
    let id = match env.id {
        Some(id) => id,
        None => {
            return Route::Reply(Err(ErrResponse::parse_error()));
        },
    };
    let method = match &env.method {
        Some(m) => m,
        None => {
            return Route::Reply(Err(ErrResponse::invalid_request(id)));
        },
    };
    if str_eq(method.as_str(), "services_available") {
        Route::Reply(Ok(OkResponse::new(id, None)))
    } else if !str_eq(method.as_str(), "message") {
        Route::Reply(Err(ErrResponse::method_not_found(id)))
    } else {
        match &env.service_name {
            Some(s) => Route::Dispatch { id, service: String::from_str(s.as_str()) },
            None => Route::Reply(Err(ErrResponse::invalid_request(id))),
        }
    }
}

} // verus!
