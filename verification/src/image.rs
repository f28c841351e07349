//! Image relay: validate the `url` query parameter against a fixed literal
//! HTTPS prefix, then forward the fetched bytes and content type verbatim.
//!
//! The allow-list check is a literal character-prefix comparison, on
//! purpose: only text that starts with exactly this one prefix is ever
//! fetched. The fetch itself happens outside the library; its outcome is
//! handed in as plain values.

use crate::envelope::CorsResponse;
use crate::envelope::spec_body_bytes;
use crate::envelope::spec_content_type;
use crate::envelope::spec_plain;
use crate::envelope::spec_status;
use crate::text::is_prefix_of;
use crate::text::str_starts_with;
use vstd::prelude::*;
use vstd::string::StringExecFns;

verus! {

/// The one accepted URL prefix.
pub open spec fn image_url_prefix() -> Seq<char> {
    "https://cdn.myanimelist.net/images/anime/"@
}

/// The URL passes the allow-list: it starts, character for character, with
/// the fixed prefix.
pub open spec fn spec_allowed_image_url(u: Seq<char>) -> bool {
    is_prefix_of(image_url_prefix(), u)
}

/// What the relay decides on a request: fetch this URL, or answer at once.
pub enum ImageDecision {
    Fetch { url: String },
    Respond { response: CorsResponse },
}

/// The relay's decision for every request: a missing parameter and a URL
/// off the allow-list each map to their one 400 response; an allowed URL is
/// fetched unchanged.
pub open spec fn spec_image_decision(url: Option<&str>, r: ImageDecision) -> bool {
    match url {
        None => {
            &&& r matches ImageDecision::Respond { response }
            &&& spec_plain(response, 400, "Missing 'url' query parameter"@)
        },
        Some(u) => if spec_allowed_image_url(u@) {
            &&& r matches ImageDecision::Fetch { url: fu }
            &&& fu@ == u@
        } else {
            &&& r matches ImageDecision::Respond { response }
            &&& spec_plain(response, 400, "Invalid URL"@)
        },
    }
}

/// Validate the request, exactly as [`spec_image_decision`] says.
pub fn relay_image_request(url: Option<&str>) -> (r: ImageDecision)
    ensures
        spec_image_decision(url, r),
{
    match url {
        None => ImageDecision::Respond {
            response: CorsResponse::PlainText {
                status: 400,
                message: String::from_str("Missing 'url' query parameter"),
            },
        },
        Some(u) => {
            if str_starts_with(u, "https://cdn.myanimelist.net/images/anime/") {
                ImageDecision::Fetch { url: String::from_str(u) }
            } else {
                ImageDecision::Respond {
                    response: CorsResponse::PlainText {
                        status: 400,
                        message: String::from_str("Invalid URL"),
                    },
                }
            }
        },
    }
}

/// The outcome of the outbound image fetch, as the caller observed it: the
/// fetch failed, the body could not be read, or the bytes arrived together
/// with the `Content-Type` header value if one was present and readable.
pub enum ImageFetchOutcome {
    FetchFailed,
    ReadFailed,
    Fetched { content_type: Option<String>, body: Vec<u8> },
}

/// The final response for each fetch outcome: fetched bytes are forwarded
/// unmodified under the upstream content type, or under "image/jpeg" when
/// none was readable; each failure maps to its one status and message.
pub open spec fn spec_image_response(outcome: ImageFetchOutcome, r: CorsResponse) -> bool {
    match outcome {
        ImageFetchOutcome::FetchFailed => spec_plain(r, 500, "Failed to fetch image"@),
        ImageFetchOutcome::ReadFailed => spec_plain(r, 500, "Failed to read image data"@),
        ImageFetchOutcome::Fetched { content_type, body } => {
            &&& r matches CorsResponse::Binary { status, content_type: ct, body: b }
            &&& status == 200
            &&& b@ == body@
            &&& ct@ == match content_type {
                Some(c) => c@,
                None => "image/jpeg"@,
            }
        },
    }
}

/// Turn the image-fetch outcome into the final response, exactly as
/// [`spec_image_response`] says.
pub fn relay_image_outcome(outcome: ImageFetchOutcome) -> (r: CorsResponse)
    ensures
        spec_image_response(outcome, r),
{
    match outcome {
        ImageFetchOutcome::FetchFailed => CorsResponse::PlainText {
            status: 500,
            message: String::from_str("Failed to fetch image"),
        },
        ImageFetchOutcome::ReadFailed => CorsResponse::PlainText {
            status: 500,
            message: String::from_str("Failed to read image data"),
        },
        ImageFetchOutcome::Fetched { content_type, body } => {
            let ct = match content_type {
                Some(c) => c,
                None => String::from_str("image/jpeg"),
            };
            CorsResponse::Binary { status: 200, content_type: ct, body }
        },
    }
}

/// Repeating the same relay call against an unchanged upstream outcome
/// yields an identical response: any two responses the contracts admit for
/// equal request-and-outcome pairs agree in status, content type, and body
/// bytes, so they serialize byte-identically.
pub proof fn lemma_relay_image_idempotent(
    url: Option<&str>,
    d1: ImageDecision,
    d2: ImageDecision,
    outcome: ImageFetchOutcome,
    r1: CorsResponse,
    r2: CorsResponse,
)
    requires
        spec_image_decision(url, d1),
        spec_image_decision(url, d2),
        spec_image_response(outcome, r1),
        spec_image_response(outcome, r2),
    ensures
        d1 matches ImageDecision::Fetch { url: u1 } ==> (d2 matches ImageDecision::Fetch {
            url: u2,
        } && u1@ == u2@),
        spec_status(r1) == spec_status(r2),
        spec_content_type(r1) == spec_content_type(r2),
        spec_body_bytes(r1) == spec_body_bytes(r2),
{
}

} // verus!
