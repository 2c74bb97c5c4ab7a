//! JSON-RPC 2.0 requests and responses exchanged with the RVI node.

use vstd::prelude::*;

verus! {

/// Calls `time::precise_time_ns`, a monotonic clock reading in nanoseconds;
/// nothing is known of the value.
#[verifier::external_body]
pub(crate) fn precise_time_ns() -> u64 {
    time::precise_time_ns()
}

/// A JSON-RPC request.
#[derive(Debug)]
pub struct Request<T> {
    pub jsonrpc: String,
    pub id: u64,
    pub method: String,
    pub params: T,
}

impl<T> Request<T> {
    /// A version 2.0 request of `method` with `params`; its id is taken from
    /// the clock.
    pub fn new(method: &str, params: T) -> (r: Request<T>)
        ensures
            r.jsonrpc@ == "2.0"@,
            r.method@ == method@,
            r.params == params,
    {
        Request {
            jsonrpc: String::from_str("2.0"),
            id: precise_time_ns(),
            method: String::from_str(method),
            params,
        }
    }
}

/// A successful JSON-RPC response.
#[derive(Debug)]
pub struct OkResponse {
    pub jsonrpc: String,
    pub id: u64,
    pub result: Option<i32>,
}

impl OkResponse {
    /// A version 2.0 success response to request `id`.
    pub fn new(id: u64, result: Option<i32>) -> (r: OkResponse)
        ensures
            r.jsonrpc@ == "2.0"@,
            r.id == id,
            r.result == result,
    {
        OkResponse { jsonrpc: String::from_str("2.0"), id, result }
    }
}

/// A JSON-RPC error object.
#[derive(Debug)]
pub struct ErrorCode {
    pub code: i32,
    pub message: String,
}

impl ErrorCode {
    /// The error `code` with `msg`.
    pub fn new(code: i32, msg: String) -> (e: ErrorCode)
        ensures
            e.code == code,
            e.message == msg,
    {
        ErrorCode { code, message: msg }
    }
}

/// A failed JSON-RPC response.
#[derive(Debug)]
pub struct ErrResponse {
    pub jsonrpc: String,
    pub id: u64,
    pub error: ErrorCode,
}

/// The code and message of a standard error response.
pub open spec fn is_error(r: ErrResponse, id: u64, code: int, message: Seq<char>) -> bool {
    &&& r.jsonrpc@ == "2.0"@
    &&& r.id == id
    &&& r.error.code == code
    &&& r.error.message@ == message
}

impl ErrResponse {
    /// A version 2.0 error response to request `id`.
    pub fn new(id: u64, error: ErrorCode) -> (r: ErrResponse)
        ensures
            r.jsonrpc@ == "2.0"@,
            r.id == id,
            r.error == error,
    {
        ErrResponse { jsonrpc: String::from_str("2.0"), id, error }
    }

    /// The request is no valid request object (code -32600).
    pub fn invalid_request(id: u64) -> (r: ErrResponse)
        ensures
            is_error(r, id, -32600, "Invalid Request"@),
    {
        ErrResponse::new(id, ErrorCode { code: -32600, message: String::from_str("Invalid Request") })
    }

    /// The method does not exist (code -32601).
    pub fn method_not_found(id: u64) -> (r: ErrResponse)
        ensures
            is_error(r, id, -32601, "Method not found"@),
    {
        ErrResponse::new(id, ErrorCode { code: -32601, message: String::from_str("Method not found") })
    }

    /// The parameters of the method are invalid (code -32602).
    pub fn invalid_params(id: u64) -> (r: ErrResponse)
        ensures
            is_error(r, id, -32602, "Invalid params"@),
    {
        ErrResponse::new(id, ErrorCode { code: -32602, message: String::from_str("Invalid params") })
    }

    /// The request was understood but could not be handled (code -32100).
    pub fn unspecified(id: u64) -> (r: ErrResponse)
        ensures
            is_error(r, id, -32100, "Couldn't handle request"@),
    {
        ErrResponse::new(
            id,
            ErrorCode { code: -32100, message: String::from_str("Couldn't handle request") },
        )
    }

    /// The request is no JSON; answered with id 0 (code -32700).
    pub fn parse_error() -> (r: ErrResponse)
        ensures
            is_error(r, 0, -32700, "Parse error"@),
    {
        ErrResponse::new(0, ErrorCode { code: -32700, message: String::from_str("Parse error") })
    }
}

} // verus!
