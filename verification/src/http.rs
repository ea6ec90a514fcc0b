//! What the engine reads of an HTTP answer, and what it writes of a request.

use vstd::prelude::*;
use crate::decimal::{decimal, decimal_digits, parse_decimal, parsed_decimal};
use crate::text::joined;

verus! {

/// The parts of an HTTP response that the engine decides on. The caller copies
/// them out of the response that its HTTP client received.
#[derive(Clone, Debug, PartialEq, Eq)]
pub struct HttpResponse {
    /// The status code.
    pub status: u16,
    /// The text of the `content-length` header, if the response has one.
    pub content_length: Option<String>,
    /// The text of the `retry-after` header, if the response has one.
    pub retry_after: Option<String>,
    /// The length of the body as the transport reports it, if it knows.
    pub body_length: Option<u64>,
}

/// How a request ended.
#[derive(Clone, Debug, PartialEq, Eq)]
pub enum HttpReply {
    /// The server answered.
    Response(HttpResponse),
    /// No answer was received; the text says why.
    Failure(String),
}

/// The status `429 Too Many Requests`.
pub open spec fn is_throttled(status: u16) -> bool {
    status == 429
}

/// A status that reports success.
pub open spec fn is_success(status: u16) -> bool {
    200 <= status <= 299
}

/// The number that an optional header text writes.
pub open spec fn header_number(text: Option<String>) -> Option<u64> {
    match text {
        Some(t) => parsed_decimal(t@),
        None => None,
    }
}

impl HttpResponse {
    /// The length that a size probe takes from the response: the number that
    /// the `content-length` header writes, else the length of the body as the
    /// transport reports it, else 0 for "unknown". A header that writes no
    /// number declares no length.
    pub open spec fn spec_probed_length(&self) -> u64 {
        match header_number(self.content_length) {
            Some(n) => n,
            None => match self.body_length {
                Some(n) => n,
                None => 0,
            },
        }
    }

    /// The length that a fetch takes from the response: the number that the
    /// `content-length` header writes, else 0 for "unknown".
    pub open spec fn spec_declared_length(&self) -> u64 {
        match header_number(self.content_length) {
            Some(n) => n,
            None => 0,
        }
    }

    /// The pause that a throttled response asks for, in milliseconds, or
    /// `fallback` where it names none.
    pub open spec fn spec_retry_delay(&self, fallback: u64) -> u64 {
        match header_number(self.retry_after) {
            Some(n) => n,
            None => fallback,
        }
    }

    /// The length that a size probe takes from the response.
    #[verifier::when_used_as_spec(spec_probed_length)]
    pub fn probed_length(&self) -> (out: u64)
        ensures
            out == self.spec_probed_length(),
    {
        match read_header_number(&self.content_length) {
            Some(n) => n,
            None => match self.body_length {
                Some(n) => n,
                None => 0,
            },
        }
    }

    /// The length that a fetch takes from the response.
    #[verifier::when_used_as_spec(spec_declared_length)]
    pub fn declared_length(&self) -> (out: u64)
        ensures
            out == self.spec_declared_length(),
    {
        match read_header_number(&self.content_length) {
            Some(n) => n,
            None => 0,
        }
    }

    /// The pause that a throttled response asks for, in milliseconds, or
    /// `fallback` where it names none.
    #[verifier::when_used_as_spec(spec_retry_delay)]
    pub fn retry_delay(&self, fallback: u64) -> (out: u64)
        ensures
            out == self.spec_retry_delay(fallback),
    {
        match read_header_number(&self.retry_after) {
            Some(n) => n,
            None => fallback,
        }
    }
}

/// Whether `status` is `429 Too Many Requests`.
pub fn throttled(status: u16) -> (out: bool)
    ensures
        out == is_throttled(status),
{
    status == 429
}

/// Whether `status` reports success.
pub fn success(status: u16) -> (out: bool)
    ensures
        out == is_success(status),
{
    200 <= status && status <= 299
}

/// Reads the number that an optional header text writes.
pub fn read_header_number(text: &Option<String>) -> (out: Option<u64>)
    ensures
        out == header_number(*text),
{
    match text {
        Some(t) => parse_decimal(t.as_str()),
        None => None,
    }
}

/// The value of the `Range` header that asks for everything from byte
/// `offset` on.
pub open spec fn range_from(offset: u64) -> Seq<char> {
    "bytes="@ + decimal_digits(offset as nat) + "-"@
}

/// The value of the `Range` header that asks for everything from byte
/// `offset` on: `bytes=<offset>-`.
pub fn range_header(offset: u64) -> (out: String)
    ensures
        out@ == range_from(offset),
{
    let digits = decimal(offset);
    let mut out = joined("bytes=", digits.as_str());
    out.append("-");
    out
}

} // verus!
