//! The plain form of what goes over HTTP: a response with its status.

use vstd::prelude::*;
use vstd::slice::slice_to_vec;
use vstd::utf8::{
    decode_utf8_encode_utf8, encode_utf8, partial_valid_utf8_extend_ascii_block, valid_utf8,
};
use crate::text::string_from_utf8;

verus! {

pub const OK: u16 = 200;

pub const FORBIDDEN: u16 = 403;

pub const METHOD_NOT_ALLOWED: u16 = 405;

pub const PAYLOAD_TOO_LARGE: u16 = 413;

pub const INTERNAL_SERVER_ERROR: u16 = 500;

pub const SERVICE_UNAVAILABLE: u16 = 503;

/// Whether a status says that the request succeeded: 200 to 299.
pub open spec fn spec_is_success(status: u16) -> bool {
    200 <= status <= 299
}

/// Whether a status says that the request succeeded: 200 to 299.
pub fn is_success(status: u16) -> (r: bool)
    ensures
        r == spec_is_success(status),
{
    200 <= status && status <= 299
}

/// The standard reason phrase of a status code, where it has one.
pub uninterp spec fn reason_phrase(code: u16) -> Option<Seq<char>>;

/// The standard reason phrase of a status code, where it has one.
///
/// Trusted: calls `hyper::StatusCode::from_u16`, which accepts every code
/// from 100 to 999, and then `canonical_reason`, whose answer is a fixed
/// table of the code alone; the contract gives that answer its name.
#[verifier::external_body]
pub(crate) fn canonical_reason(code: u16) -> (r: Option<String>)
    requires
        100 <= code <= 999,
    ensures
        r is Some <==> reason_phrase(code) is Some,
        r matches Some(s) ==> reason_phrase(code) == Some(s@),
{
    hyper::StatusCode::from_u16(code).ok()?.canonical_reason().map(|s| s.to_string())
}

/// A header: its name and its value.
pub struct Header {
    pub name: String,
    pub value: String,
}

impl Header {
    /// A header of this name and value.
    pub fn new(name: &str, value: &str) -> (h: Self)
        ensures
            h.name@ == name@,
            h.value@ == value@,
    {
        Header { name: name.to_owned(), value: value.to_owned() }
    }
}

impl Clone for Header {
    fn clone(&self) -> (r: Self)
        ensures
            r == *self,
    {
        Header { name: self.name.clone(), value: self.value.clone() }
    }
}

/// A header of a request: its name, and its value as the bytes that came.
pub struct RequestHeader {
    pub name: String,
    pub value: Vec<u8>,
}

impl RequestHeader {
    /// A header of this name and value.
    pub fn new(name: &str, value: &[u8]) -> (h: Self)
        ensures
            h.name@ == name@,
            h.value@ == value@,
    {
        RequestHeader { name: name.to_owned(), value: slice_to_vec(value) }
    }
}

/// Whether a byte is a visible ASCII character, a space or a tab.
pub open spec fn is_visible_ascii(b: u8) -> bool {
    32 <= b < 127 || b == 9
}

/// Whether every byte is a visible ASCII character, a space or a tab.
pub open spec fn all_visible(bytes: Seq<u8>) -> bool {
    forall|i: int| 0 <= i < bytes.len() ==> is_visible_ascii(#[trigger] bytes[i])
}

/// The value of a header as text: the text whose bytes the value is,
/// where every byte of it is a visible ASCII character, a space or a tab;
/// else `None`.
pub fn visible_text(value: &Vec<u8>) -> (text: Option<String>)
    ensures
        text is Some <==> all_visible(value@),
        text matches Some(s) ==> encode_utf8(s@) == value@,
{
    let mut i: usize = 0;
    while i < value.len()
        invariant
            i <= value@.len(),
            forall|j: int| 0 <= j < i ==> is_visible_ascii(#[trigger] value@[j]),
        decreases value.len() - i,
    {
        let b = value[i];
        if !(32 <= b && b < 127 || b == 9) {
            return None;
        }
        i += 1;
    }
    proof {
        let b = value@;
        assert(b.subrange(0, 0) =~= Seq::<u8>::empty());
        assert(valid_utf8(b.subrange(0, 0)));
        partial_valid_utf8_extend_ascii_block(b, 0, b.len() as int);
        assert(b.subrange(0, b.len() as int) =~= b);
        decode_utf8_encode_utf8(b);
    }
    string_from_utf8(slice_to_vec(value.as_slice()))
}

/// A response: its status, its headers in order, and its body.
pub struct Response {
    pub status: u16,
    pub headers: Vec<Header>,
    pub body: String,
}

impl Response {
    /// The response that only states `status`: its body is `reason`, or
    /// empty where there is none, and it has no headers.
    pub fn with_reason(status: u16, reason: Option<String>) -> (r: Self)
        ensures
            r.status == status,
            r.headers@.len() == 0,
            r.body@ == match reason {
                Some(text) => text@,
                None => Seq::<char>::empty(),
            },
    {
        let body = match reason {
            Some(text) => text,
            None => String::new(),
        };
        Response { status, headers: Vec::new(), body }
    }

    /// The body of the response that only states `status`: the standard
    /// reason phrase of the status, or nothing where it has none or is no
    /// status code at all.
    pub open spec fn reason_body(status: u16) -> Seq<char> {
        if 100 <= status <= 999 {
            match reason_phrase(status) {
                Some(text) => text,
                None => Seq::<char>::empty(),
            }
        } else {
            Seq::<char>::empty()
        }
    }

    /// The response that only states `status`: its body is the standard
    /// reason phrase of the status, and it has no headers.
    pub fn status(status: u16) -> (r: Self)
        ensures
            r.status == status,
            r.headers@.len() == 0,
            r.body@ == Self::reason_body(status),
    {
        let reason = if 100 <= status && status <= 999 {
            canonical_reason(status)
        } else {
            None
        };
        Self::with_reason(status, reason)
    }
}

} // verus!
