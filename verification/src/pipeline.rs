//! The request-interception pipeline: deciding where the legacy auth token
//! comes from — existing header, query parameter, or JSON body, in that strict
//! precedence — and rewriting the outgoing header set accordingly.

use vstd::prelude::*;
use vstd::string::StringExecFns;
use crate::body_auth::{json_auth_of, try_extract_auth_from_body};
use crate::headers::{spec_first_value, spec_has_name, Headers};
use crate::query::{extract_auth_from_query, spec_query_auth};
use crate::respond::{bad_token_response, ErrorResponse};
use crate::text::{check_header_value, contains_seq, str_contains, valid_header_value};

verus! {

/// The declared content type signals JSON: the value of the first
/// `Content-Type` entry contains the substring `application/json`.
pub open spec fn spec_is_json(hs: Seq<(Seq<char>, Seq<char>)>) -> bool {
    match spec_first_value(hs, "Content-Type"@) {
        Some(ct) => contains_seq(ct, "application/json"@),
        None => false,
    }
}

/// Where the auth token for a request comes from, before any body is read:
/// nowhere (pure passthrough), the query string, or — only when the declared
/// content type signals JSON — the body, which must then be buffered.
pub enum TokenDecision {
    Pass,
    UseToken(Seq<char>),
    InspectBody,
}

/// The decision the pipeline owes a request, by the stated precedence: an
/// existing `Authorization` header wins and nothing else is consulted; else
/// the first `auth` query parameter; else the body is inspected if and only
/// if the content type signals JSON.
pub open spec fn spec_token_decision(
    query: Option<Seq<char>>,
    hs: Seq<(Seq<char>, Seq<char>)>,
) -> TokenDecision {
    if spec_has_name(hs, "Authorization"@) {
        TokenDecision::Pass
    } else {
        match spec_query_auth(query) {
            Some(t) => TokenDecision::UseToken(t),
            None => if spec_is_json(hs) {
                TokenDecision::InspectBody
            } else {
                TokenDecision::Pass
            },
        }
    }
}

/// The header value that carries a token: `Bearer ` followed by the raw token.
pub open spec fn spec_bearer(t: Seq<char>) -> Seq<char> {
    "Bearer "@ + t
}

/// The outgoing header set: the original entries, in order, with an
/// `Authorization` bearer entry appended at the end when a token was found,
/// and nothing else changed.
pub open spec fn spec_rewrite(
    hs: Seq<(Seq<char>, Seq<char>)>,
    token: Option<Seq<char>>,
) -> Seq<(Seq<char>, Seq<char>)> {
    match token {
        None => hs,
        Some(t) => hs.push(("Authorization"@, spec_bearer(t))),
    }
}

/// Converts a plain auth token to a bearer header value.
pub fn auth_token_to_bearer(auth: &str) -> (r: String)
    ensures
        r@ == spec_bearer(auth@),
{
    String::from_str("Bearer ").concat(auth)
}

/// Whether the declared content type of the request signals JSON, so that the
/// body must be buffered and inspected.
pub fn body_is_json(headers: &Headers) -> (r: bool)
    ensures
        r == spec_is_json(headers@),
{
    match headers.first_value("Content-Type") {
        Some(ct) => str_contains(ct.as_str(), "application/json"),
        None => false,
    }
}

/// Builds the outgoing header set from the original one and the token, if
/// any: append semantics, no other entry touched. A token that cannot stand
/// as a header value is a request-level error, never a crash.
pub fn rewrite_headers(headers: Headers, token: Option<String>) -> (r: Result<
    Headers,
    ErrorResponse,
>)
    ensures
        ({
            match token.deep_view() {
                None => r matches Ok(h) && h@ == headers@,
                Some(t) => (r matches Ok(h) && (valid_header_value(t) && h@ == spec_rewrite(
                    headers@,
                    Some(t),
                ))) || (r matches Err(e) && (!valid_header_value(t) && e.status == 400
                    && e.message@.len() > 0)),
            }
        }),
{
    match token {
        None => Ok(headers),
        Some(t) => {
            if check_header_value(t.as_str()) {
                let value = auth_token_to_bearer(t.as_str());
                let mut out = headers;
                out.append(String::from_str("Authorization"), value);
                Ok(out)
            } else {
                Err(bad_token_response())
            }
        },
    }
}

/// What the pipeline asks of the caller before the upstream call: forward
/// with these headers and the body untouched; or buffer the body and finish
/// with `try_inject_auth_header_with_body`; or return the error response.
pub enum InjectOutcome {
    Forward(Headers),
    NeedsBody(Headers),
    Rejected(ErrorResponse),
}

/// Decides, from the query string and the headers alone, whether a token is
/// already settled — and rewrites the headers — or whether the body must be
/// buffered first. The body is asked for if and only if no `Authorization`
/// header exists, no `auth` query parameter exists, and the content type
/// signals JSON.
pub fn try_inject_auth_header(query: Option<&str>, headers: Headers) -> (r: InjectOutcome)
    ensures
        ({
            let d = spec_token_decision(query.deep_view(), headers@);
            match r {
                InjectOutcome::Forward(h) => (d == TokenDecision::Pass && h@ == headers@) || (
                d matches TokenDecision::UseToken(t) && valid_header_value(t) && h@
                    == spec_rewrite(headers@, Some(t))),
                InjectOutcome::NeedsBody(h) => d == TokenDecision::InspectBody && h@ == headers@,
                InjectOutcome::Rejected(e) => (d matches TokenDecision::UseToken(t)
                    && !valid_header_value(t)) && e.status == 400 && e.message@.len() > 0,
            }
        }),
{
    if headers.has_name("Authorization") {
        InjectOutcome::Forward(headers)
    } else {
        match extract_auth_from_query(query) {
            Some(token) => match rewrite_headers(headers, Some(token)) {
                Ok(h) => InjectOutcome::Forward(h),
                Err(e) => InjectOutcome::Rejected(e),
            },
            None => {
                if body_is_json(&headers) {
                    InjectOutcome::NeedsBody(headers)
                } else {
                    InjectOutcome::Forward(headers)
                }
            },
        }
    }
}

/// Finishes the pipeline for a request whose body was buffered: extracts the
/// token from the bytes, rewrites the headers, and hands back bytes equal to
/// the original ones for forwarding.
pub fn try_inject_auth_header_with_body(headers: Headers, body: Vec<u8>) -> (r: Result<
    (Headers, Vec<u8>),
    ErrorResponse,
>)
    ensures
        ({
            let tok = json_auth_of(body@);
            match r {
                Ok(p) => p.1@ == body@ && ((tok is None && p.0@ == headers@) || (
                tok matches Some(t) && valid_header_value(t) && p.0@ == spec_rewrite(
                    headers@,
                    Some(t),
                ))),
                Err(e) => (tok matches Some(t) && !valid_header_value(t)) && e.status == 400
                    && e.message@.len() > 0,
            }
        }),
{
    let (body, token) = try_extract_auth_from_body(body);
    match rewrite_headers(headers, token) {
        Ok(h) => Ok((h, body)),
        Err(e) => Err(e),
    }
}

/// Law: a request that already carries an `Authorization` header is a pure
/// passthrough — the decision is `Pass`, so the headers go out equal to the
/// ones that came in and the body is never asked for, whatever the query
/// string says.
pub proof fn lemma_authorized_passthrough(
    query: Option<Seq<char>>,
    hs: Seq<(Seq<char>, Seq<char>)>,
)
    requires
        spec_has_name(hs, "Authorization"@),
    ensures
        spec_token_decision(query, hs) == TokenDecision::Pass,
{
}

} // verus!
