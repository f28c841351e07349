//! The uniform response envelope: every handler result, success or failure,
//! is one of three body kinds and serializes with the same three CORS
//! headers, a matching `Content-Type`, and the exact body bytes.

use vstd::prelude::*;
use vstd::string::StrSliceExecFns;
use vstd::string::StringExecFns;
use vstd::string::StringSliceAdditionalSpecFns;
use vstd::utf8::encode_utf8;

verus! {

/// The three response body kinds the relay ever produces.
pub enum CorsResponse {
    Json { status: u16, body: String },
    PlainText { status: u16, message: String },
    Binary { status: u16, content_type: String, body: Vec<u8> },
}

/// One HTTP header, name and value.
pub struct HeaderPair {
    pub name: String,
    pub value: String,
}

/// A fully serialized response: status code, headers in order, body bytes.
/// The body's length is its exact content length.
pub struct RenderedResponse {
    pub status: u16,
    pub headers: Vec<HeaderPair>,
    pub body: Vec<u8>,
}

/// The status code a response carries, whatever its kind.
pub open spec fn spec_status(r: CorsResponse) -> u16 {
    match r {
        CorsResponse::Json { status, .. } => status,
        CorsResponse::PlainText { status, .. } => status,
        CorsResponse::Binary { status, .. } => status,
    }
}

/// The `Content-Type` value a response serializes with: fixed for the JSON
/// and plain-text kinds, caller-supplied for the binary kind.
pub open spec fn spec_content_type(r: CorsResponse) -> Seq<char> {
    match r {
        CorsResponse::Json { .. } => "application/json"@,
        CorsResponse::PlainText { .. } => "text/plain"@,
        CorsResponse::Binary { content_type, .. } => content_type@,
    }
}

/// The exact body bytes a response serializes to: UTF-8 of the text kinds,
/// the bytes themselves for the binary kind. Nothing is re-encoded.
pub open spec fn spec_body_bytes(r: CorsResponse) -> Seq<u8> {
    match r {
        CorsResponse::Json { body, .. } => encode_utf8(body@),
        CorsResponse::PlainText { message, .. } => encode_utf8(message@),
        CorsResponse::Binary { body, .. } => body@,
    }
}

/// `r` is a plain-text response with exactly this status and message.
pub open spec fn spec_plain(r: CorsResponse, status: u16, msg: Seq<char>) -> bool {
    &&& r matches CorsResponse::PlainText { status: s, message: m } && s == status && m@ == msg
}

/// A header has exactly this name and value.
pub open spec fn header_is(h: HeaderPair, name: Seq<char>, value: Seq<char>) -> bool {
    h.name@ == name && h.value@ == value
}

/// The serialized header list carries the three fixed CORS headers with
/// their exact values. This holds of every rendered response, successes
/// and failures alike.
pub open spec fn has_cors_headers(hs: Seq<HeaderPair>) -> bool {
    &&& exists|i: int|
        0 <= i < hs.len() && header_is(hs[i], "Access-Control-Allow-Origin"@, "*"@)
    &&& exists|i: int|
        0 <= i < hs.len() && header_is(hs[i], "Access-Control-Allow-Methods"@, "GET, OPTIONS"@)
    &&& exists|i: int|
        0 <= i < hs.len() && header_is(hs[i], "Access-Control-Allow-Headers"@, "Content-Type"@)
}

impl CorsResponse {
    /// Serialize the response: the three fixed CORS headers, then a
    /// `Content-Type` matching the kind, with the body forwarded unmodified.
    pub fn respond_to(self) -> (r: RenderedResponse)
        ensures
            r.status == spec_status(self),
            r.headers@.len() == 4,
            header_is(r.headers@[0], "Access-Control-Allow-Origin"@, "*"@),
            header_is(r.headers@[1], "Access-Control-Allow-Methods"@, "GET, OPTIONS"@),
            header_is(r.headers@[2], "Access-Control-Allow-Headers"@, "Content-Type"@),
            header_is(r.headers@[3], "Content-Type"@, spec_content_type(self)),
            has_cors_headers(r.headers@),
            r.body@ == spec_body_bytes(self),
    {
        let mut headers: Vec<HeaderPair> = Vec::new();
        headers.push(HeaderPair {
            name: String::from_str("Access-Control-Allow-Origin"),
            value: String::from_str("*"),
        });
        headers.push(HeaderPair {
            name: String::from_str("Access-Control-Allow-Methods"),
            value: String::from_str("GET, OPTIONS"),
        });
        headers.push(HeaderPair {
            name: String::from_str("Access-Control-Allow-Headers"),
            value: String::from_str("Content-Type"),
        });
        let (status, content_type, body): (u16, String, Vec<u8>) = match self {
            CorsResponse::Json { status, body } => {
                let bytes = body.as_str().as_bytes_vec();
                (status, String::from_str("application/json"), bytes)
            },
            CorsResponse::PlainText { status, message } => {
                let bytes = message.as_str().as_bytes_vec();
                (status, String::from_str("text/plain"), bytes)
            },
            CorsResponse::Binary { status, content_type, body } => {
                (status, content_type, body)
            },
        };
        headers.push(HeaderPair { name: String::from_str("Content-Type"), value: content_type });
        let r = RenderedResponse { status, headers, body };
        proof {
            assert(header_is(r.headers@[0], "Access-Control-Allow-Origin"@, "*"@));
            assert(header_is(r.headers@[1], "Access-Control-Allow-Methods"@, "GET, OPTIONS"@));
            assert(header_is(r.headers@[2], "Access-Control-Allow-Headers"@, "Content-Type"@));
        }
        r
    }
}

} // verus!
