//! Extraction of the legacy `auth` token from a buffered JSON request body.
//! The UTF-8 decoding and JSON parsing are done by outside code; everything
//! around them — when the body is inspected at all, and that the bytes handed
//! on downstream are exactly the bytes that came in — is verified here.

use vstd::prelude::*;

verus! {

/// The token that a request body carries: the value of the top-level
/// string-valued `auth` member, if the bytes decode as UTF-8 text that parses
/// as a JSON object with such a member; `None` for every other body.
pub uninterp spec fn json_auth_of(body: Seq<u8>) -> Option<Seq<char>>;

/// Relies on str::from_utf8, json::parse, the indexing of a json::JsonValue
/// by member name, and json::JsonValue::as_str: together they yield the
/// top-level string-valued `auth` member of a JSON object body, and `None`
/// for bytes that are not UTF-8, not JSON, not an object, or whose `auth`
/// member is missing or not a string. The result depends on the bytes alone.
#[verifier::external_body]
fn json_auth_field(body: &Vec<u8>) -> (r: Option<String>)
    ensures
        r.deep_view() == json_auth_of(body@),
{
    match core::str::from_utf8(body.as_slice()) {
        Ok(text) => match json::parse(text) {
            Ok(value) => value["auth"].as_str().map(|token| token.to_owned()),
            Err(_) => None,
        },
        Err(_) => None,
    }
}

/// What extracting from a buffered body yields: the bytes to hand on
/// downstream — exactly the bytes that came in — and the token, if any.
pub open spec fn spec_body_extract(body: Seq<u8>) -> (Seq<u8>, Option<Seq<char>>) {
    (body, json_auth_of(body))
}

/// Reads the `auth` member out of a buffered body and reconstructs the body
/// for forwarding: the returned bytes equal the original bytes.
pub fn try_extract_auth_from_body(body: Vec<u8>) -> (r: (Vec<u8>, Option<String>))
    ensures
        r.0@ == spec_body_extract(body@).0,
        r.1.deep_view() == spec_body_extract(body@).1,
{
    let token = json_auth_field(&body);
    (body, token)
}

/// Law: extraction is idempotent. Running the extractor again on the body it
/// reconstructed yields the same token and the same bytes as the first run —
/// the reconstruction is exact, not approximate.
pub proof fn lemma_extract_idempotent(body: Seq<u8>)
    ensures
        spec_body_extract(spec_body_extract(body).0) == spec_body_extract(body),
{
}

} // verus!
