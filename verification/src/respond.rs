//! Synthesized error responses. Every failure of the pipeline becomes one of
//! these values at the request boundary; none escapes the handler.

use vstd::prelude::*;
use vstd::string::StringExecFns;

verus! {

/// A response built by the proxy itself, never taken from the upstream: a
/// status code and a plain-text body.
#[derive(Debug)]
pub struct ErrorResponse {
    pub status: u16,
    pub message: String,
}

/// The response for a request whose body could not be fully read.
pub fn body_read_failed_response() -> (r: ErrorResponse)
    ensures
        r.status == 400,
        r.message@ == "Failed to receive request body"@,
        r.message@.len() > 0,
{
    proof {
        reveal_strlit("Failed to receive request body");
    }
    ErrorResponse { status: 400, message: String::from_str("Failed to receive request body") }
}

/// The response for a request whose extracted token cannot be carried as a
/// header value.
pub fn bad_token_response() -> (r: ErrorResponse)
    ensures
        r.status == 400,
        r.message@ == "Auth token is not a valid header value"@,
        r.message@.len() > 0,
{
    proof {
        reveal_strlit("Auth token is not a valid header value");
    }
    ErrorResponse { status: 400, message: String::from_str("Auth token is not a valid header value") }
}

/// The response for a request whose upstream call failed: status 502 and a
/// body that names the failure.
pub fn upstream_error_response(reason: &str) -> (r: ErrorResponse)
    ensures
        r.status == 502,
        r.message@ == "Upstream failed to respond: "@ + reason@,
        r.message@.len() > 0,
{
    proof {
        reveal_strlit("Upstream failed to respond: ");
    }
    let message = String::from_str("Upstream failed to respond: ").concat(reason);
    ErrorResponse { status: 502, message }
}

} // verus!
