//! The server side of an HTTP exchange, driven by an event loop: the handler
//! collects the request body, hands it to the server, and writes the
//! server's response back; after each event it says what the loop does next.

use vstd::prelude::*;
use crate::http::ContentType;

verus! {

/// What the event loop does next with a connection.
#[derive(Debug, Clone, Copy, PartialEq, Eq, Structural)]
pub enum Next {
    /// Wait until the connection can be read.
    Read,
    /// Wait at most this many seconds until the connection can be read.
    ReadWithin(u64),
    /// Wait until the connection can be written.
    Write,
    /// Wait at most this many seconds until the connection can be written.
    WriteWithin(u64),
    /// The exchange is over.
    End,
    /// Drop the connection.
    Remove,
}

/// What one read from a connection gave: the bytes read (none at the end of
/// the body), or that the read would block, or failed.
#[derive(Debug)]
pub enum ReadOutcome {
    Data(Vec<u8>),
    WouldBlock,
    Failed,
}

/// What one write to a connection did: how many bytes went out, or that the
/// write would block, or failed.
#[derive(Debug, Clone, Copy, PartialEq, Eq, Structural)]
pub enum WriteOutcome {
    Wrote(usize),
    WouldBlock,
    Failed,
}

/// What answers requests: told the request line, then given the body, it
/// produces a status code and an optional body. Each of its steps is
/// described by a spec function relating the server before the step to the
/// server after it.
pub trait Server {
    /// `next` is this server once told of a request of `method` for `uri`.
    spec fn told(&self, next: &Self, method: Seq<char>, uri: Seq<char>) -> bool;

    /// `next` is this server once given the request body `body`.
    spec fn given(&self, next: &Self, body: Seq<u8>) -> bool;

    /// `next` is this server after answering with `status` and `body`.
    spec fn answered(&self, next: &Self, status: u16, body: Option<Seq<u8>>) -> bool;

    fn headers(&mut self, method: String, uri: String)
        ensures
            old(self).told(&*final(self), method@, uri@),
    ;

    fn request(&mut self, body: Vec<u8>)
        ensures
            old(self).given(&*final(self), body@),
    ;

    fn response(&mut self) -> (r: (u16, Option<Vec<u8>>))
        ensures
            old(self).answered(&*final(self), r.0, bytes_option(r.1)),
    ;
}

/// The bytes of an optional body.
pub open spec fn bytes_option(b: Option<Vec<u8>>) -> Option<Seq<u8>> {
    match b {
        Some(v) => Some(v@),
        None => None,
    }
}

/// The head of a response.
#[derive(Debug, Clone, Copy, PartialEq, Eq, Structural)]
pub struct ResponseHead {
    pub status: u16,
    pub content_type: ContentType,
    /// Set when the response has a body.
    pub content_length: Option<u64>,
    pub next: Next,
}

/// How long the handler waits for a response to become writable once the
/// request body has been read, in seconds.
pub const RESPONSE_TIMEOUT_SECS: u64 = 20;

/// Drives one exchange for a `Server`.
pub struct ServerHandler<S: Server> {
    server: S,
    req_body: Vec<u8>,
    resp_body: Vec<u8>,
    written: usize,
}

impl<S: Server> ServerHandler<S> {
    /// The server the handler drives.
    pub closed spec fn current_server(&self) -> S {
        self.server
    }

    /// The request bytes read so far.
    pub closed spec fn request_body(&self) -> Seq<u8> {
        self.req_body@
    }

    /// The response body.
    pub closed spec fn response_body(&self) -> Seq<u8> {
        self.resp_body@
    }

    /// How many bytes of the response body went out.
    pub closed spec fn written_count(&self) -> nat {
        self.written as nat
    }

    /// No more of the response has gone out than it holds.
    pub open spec fn wf(&self) -> bool {
        self.written_count() <= self.response_body().len()
    }

    /// A handler for `server` that has read and written nothing.
    pub fn new(server: S) -> (h: Self)
        ensures
            h.wf(),
            h.request_body().len() == 0,
            h.response_body().len() == 0,
            h.written_count() == 0,
            h.current_server() == server,
    {
        ServerHandler { server, req_body: Vec::new(), resp_body: Vec::new(), written: 0 }
    }

    /// The server.
    pub fn server(&self) -> (r: &S)
        ensures
            *r == self.current_server(),
    {
        &self.server
    }

    /// How many bytes of the response body went out.
    pub fn written(&self) -> (n: usize)
        ensures
            n == self.written_count(),
    {
        self.written
    }

    /// The request line arrived: the server is told, and the body is read.
    pub fn on_request(&mut self, method: String, uri: String) -> (n: Next)
        ensures
            n == Next::Read,
            old(self).current_server().told(&final(self).current_server(), method@, uri@),
            final(self).request_body() == old(self).request_body(),
            final(self).response_body() == old(self).response_body(),
            final(self).written_count() == old(self).written_count(),
    {
        self.server.headers(method, uri);
        Next::Read
    }

    /// Request bytes arrived: they are kept until the body ends, when the
    /// whole body goes to the server and the response is awaited for
    /// `RESPONSE_TIMEOUT_SECS`. A read that would block is retried; a
    /// failed read drops the connection.
    pub fn on_request_readable(&mut self, read: ReadOutcome) -> (n: Next)
        ensures
            final(self).response_body() == old(self).response_body(),
            final(self).written_count() == old(self).written_count(),
            match read {
                ReadOutcome::Data(bytes) => if bytes@.len() == 0 {
                    n == Next::WriteWithin(RESPONSE_TIMEOUT_SECS) && final(self).request_body().len() == 0
                        && old(self).current_server().given(
                        &final(self).current_server(),
                        old(self).request_body(),
                    )
                } else {
                    n == Next::Read && final(self).request_body() == old(self).request_body() + bytes@
                        && final(self).current_server() == old(self).current_server()
                },
                ReadOutcome::WouldBlock => n == Next::Read && final(self).request_body()
                    == old(self).request_body() && final(self).current_server() == old(self).current_server(),
                ReadOutcome::Failed => n == Next::Remove && final(self).request_body()
                    == old(self).request_body() && final(self).current_server() == old(self).current_server(),
            },
    {
        match read {
            ReadOutcome::Data(mut bytes) => {
                if bytes.len() == 0 {
                    let mut body: Vec<u8> = Vec::new();
                    std::mem::swap(&mut body, &mut self.req_body);
                    self.server.request(body);
                    Next::WriteWithin(RESPONSE_TIMEOUT_SECS)
                } else {
                    self.req_body.append(&mut bytes);
                    Next::Read
                }
            },
            ReadOutcome::WouldBlock => Next::Read,
            ReadOutcome::Failed => Next::Remove,
        }
    }

    /// The response can be sent: asks the server for it.
    pub fn on_response(&mut self) -> (h: ResponseHead)
        ensures
            h.content_type == ContentType::Json,
            final(self).written_count() == old(self).written_count(),
            h.next == Next::Write || h.next == Next::End,
            h.next == Next::Write <==> h.content_length is Some,
            h.content_length matches Some(len) ==> len == final(self).response_body().len(),
            h.next == Next::End ==> final(self).response_body() == old(self).response_body(),
            h.next == Next::Write ==> old(self).current_server().answered(
                &final(self).current_server(),
                h.status,
                Some(final(self).response_body()),
            ),
            h.next == Next::End ==> old(self).current_server().answered(&final(self).current_server(), h.status, None),
    {
        let (status, body) = self.server.response();
        self.respond(status, body)
    }

    /// The head of a response with `status` and `body`, always JSON; a body
    /// is kept to be written, without one the exchange ends.
    pub fn respond(&mut self, status: u16, body: Option<Vec<u8>>) -> (h: ResponseHead)
        ensures
            h.status == status,
            h.content_type == ContentType::Json,
            final(self).request_body() == old(self).request_body(),
            final(self).written_count() == old(self).written_count(),
            final(self).current_server() == old(self).current_server(),
            match body {
                Some(b) => h.content_length == Some(b@.len() as u64) && h.next == Next::Write
                    && final(self).response_body() == b@ && b@.len() as u64 == b@.len(),
                None => h.content_length is None && h.next == Next::End && final(self).response_body()
                    == old(self).response_body(),
            },
    {
        match body {
            Some(b) => {
                let n: usize = b.len();
                let len = n as u64;
                self.resp_body = b;
                ResponseHead { status, content_type: ContentType::Json, content_length: Some(len), next: Next::Write }
            },
            None => ResponseHead { status, content_type: ContentType::Json, content_length: None, next: Next::End },
        }
    }

    /// The part of the response body that has not gone out yet.
    pub fn unwritten(&self) -> (r: Vec<u8>)
        requires
            self.wf(),
        ensures
            r@ == self.response_body().skip(self.written_count() as int),
    {
        let mut r: Vec<u8> = Vec::new();
        let mut i: usize = self.written;
        while i < self.resp_body.len()
            invariant
                self.written <= i <= self.resp_body.len(),
                r@ == self.resp_body@.subrange(self.written as int, i as int),
            decreases self.resp_body.len() - i,
        {
            r.push(self.resp_body[i]);
            i = i + 1;
        }
        assert(self.resp_body@.subrange(self.written as int, self.resp_body.len() as int)
            =~= self.resp_body@.skip(self.written as int));
        r
    }

    /// Some of the response went out: writing goes on until a write sends
    /// nothing, which ends the exchange. A write that would block is retried;
    /// a failed write drops the connection.
    pub fn on_response_writable(&mut self, wrote: WriteOutcome) -> (n: Next)
        requires
            old(self).wf(),
            wrote matches WriteOutcome::Wrote(k) ==> k <= old(self).response_body().len()
                - old(self).written_count(),
        ensures
            final(self).wf(),
            final(self).request_body() == old(self).request_body(),
            final(self).response_body() == old(self).response_body(),
            final(self).current_server() == old(self).current_server(),
            match wrote {
                WriteOutcome::Wrote(k) => if k == 0 {
                    n == Next::End && final(self).written_count() == old(self).written_count()
                } else {
                    n == Next::Write && final(self).written_count() == old(self).written_count() + k
                },
                WriteOutcome::WouldBlock => n == Next::Write && final(self).written_count()
                    == old(self).written_count(),
                WriteOutcome::Failed => n == Next::Remove && final(self).written_count()
                    == old(self).written_count(),
            },
    {
        match wrote {
            WriteOutcome::Wrote(k) => {
                if k == 0 {
                    Next::End
                } else {
                    assert(self.written + k <= self.resp_body@.len());
                    assert(self.resp_body@.len() == self.resp_body.len());
                    self.written = self.written + k;
                    Next::Write
                }
            },
            WriteOutcome::WouldBlock => Next::Write,
            WriteOutcome::Failed => Next::Remove,
        }
    }
}

} // verus!
