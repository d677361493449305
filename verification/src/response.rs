//! Assembling the responses of the placeholder branch.

use vstd::prelude::*;
use crate::error::PipelineError;
use crate::text::{append, ascii, ascii_bytes, char_bytes, decimal, decimal_digits};

verus! {

/// How long a placeholder stays cached, and how long clients may keep it: one year.
pub const CACHE_TTL_SECS: u64 = 31_536_000;

/// Whether the placeholder came out of the cache.
#[derive(Clone, Copy, Debug, PartialEq, Eq, Structural)]
pub enum CacheStatus {
    Hit,
    Miss,
}

/// One response header.
#[derive(Debug, PartialEq, Eq)]
pub struct Header {
    pub name: Vec<u8>,
    pub value: Vec<u8>,
}

impl View for Header {
    type V = (Seq<u8>, Seq<u8>);

    open spec fn view(&self) -> (Seq<u8>, Seq<u8>) {
        (self.name@, self.value@)
    }
}

/// A response: status, headers in order, body.
#[derive(Debug, PartialEq, Eq)]
pub struct Response {
    pub status: u16,
    pub headers: Vec<Header>,
    pub body: Vec<u8>,
}

/// The content of a response.
pub struct ResponseModel {
    pub status: u16,
    pub headers: Seq<(Seq<u8>, Seq<u8>)>,
    pub body: Seq<u8>,
}

impl View for Response {
    type V = ResponseModel;

    open spec fn view(&self) -> ResponseModel {
        ResponseModel {
            status: self.status,
            headers: Seq::new(self.headers@.len(), |i: int| self.headers@[i]@),
            body: self.body@,
        }
    }
}

/// The value of the `Cache-Control` header for a lifetime in seconds:
/// `public, max-age=<ttl>, immutable`.
pub open spec fn cache_control_value(ttl_secs: nat) -> Seq<u8> {
    ascii("public, max-age=") + decimal_digits(ttl_secs) + ascii(", immutable")
}

/// The value of the cache-status header.
pub open spec fn cache_status_value(status: CacheStatus) -> Seq<u8> {
    match status {
        CacheStatus::Hit => ascii("HIT"),
        CacheStatus::Miss => ascii("MISS"),
    }
}

/// The response that carries a placeholder: status 200, the content type of
/// a binary payload, the long-lived cache directive, the cache status, and
/// the placeholder as body.
pub open spec fn placeholder_response_of(payload: Seq<u8>, status: CacheStatus) -> ResponseModel {
    ResponseModel {
        status: 200,
        headers: seq![
            (ascii("Content-Type"), ascii("application/octet-stream")),
            (ascii("Cache-Control"), cache_control_value(CACHE_TTL_SECS as nat)),
            (ascii("X-Cache"), cache_status_value(status)),
        ],
        body: payload,
    }
}

/// The response that reports a failed request: status 500, no headers, the
/// error's text as body.
pub open spec fn error_response_of(error: PipelineError) -> ResponseModel {
    ResponseModel { status: 500, headers: Seq::empty(), body: char_bytes(error.text()) }
}

/// The response to a request that no rule matches: status 404, nothing else.
pub open spec fn not_found_response_of() -> ResponseModel {
    ResponseModel { status: 404, headers: Seq::empty(), body: Seq::empty() }
}

/// Builds the `Cache-Control` value for a lifetime in seconds.
pub fn cache_control(ttl_secs: u64) -> (value: Vec<u8>)
    ensures
        value@ == cache_control_value(ttl_secs as nat),
{
    proof {
        reveal_strlit("public, max-age=");
        reveal_strlit(", immutable");
    }
    let mut value = ascii_bytes("public, max-age=");
    let digits = decimal(ttl_secs);
    append(&mut value, digits.as_slice());
    let tail = ascii_bytes(", immutable");
    append(&mut value, tail.as_slice());
    value
}

/// Builds one header from an ASCII name and a value.
fn header(name: &str, value: Vec<u8>) -> (h: Header)
    requires
        name.is_ascii(),
    ensures
        h@ == (ascii(name), value@),
{
    Header { name: ascii_bytes(name), value }
}

/// Wraps a placeholder into its response.
pub fn placeholder_response(payload: Vec<u8>, status: CacheStatus) -> (resp: Response)
    ensures
        resp@ == placeholder_response_of(payload@, status),
{
    proof {
        reveal_strlit("Content-Type");
        reveal_strlit("application/octet-stream");
        reveal_strlit("Cache-Control");
        reveal_strlit("X-Cache");
        reveal_strlit("HIT");
        reveal_strlit("MISS");
    }
    let status_value = match status {
        CacheStatus::Hit => ascii_bytes("HIT"),
        CacheStatus::Miss => ascii_bytes("MISS"),
    };
    let mut headers: Vec<Header> = Vec::new();
    headers.push(header("Content-Type", ascii_bytes("application/octet-stream")));
    headers.push(header("Cache-Control", cache_control(CACHE_TTL_SECS)));
    headers.push(header("X-Cache", status_value));
    let resp = Response { status: 200, headers, body: payload };
    assert(resp@.headers =~= placeholder_response_of(payload@, status).headers);
    resp
}

/// Builds the server-error response for a failed request.
pub fn error_response(error: PipelineError) -> (resp: Response)
    ensures
        resp@ == error_response_of(error),
{
    let body = ascii_bytes(error.describe());
    let resp = Response { status: 500, headers: Vec::new(), body };
    assert(resp@.headers =~= Seq::empty());
    resp
}

/// Builds the response to a request that no rule matches.
pub fn not_found_response() -> (resp: Response)
    ensures
        resp@ == not_found_response_of(),
{
    let resp = Response { status: 404, headers: Vec::new(), body: Vec::new() };
    assert(resp@.headers =~= Seq::empty());
    resp
}

} // verus!
