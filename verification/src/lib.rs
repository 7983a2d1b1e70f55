pub mod body_auth;
pub mod headers;
pub mod pipeline;
pub mod query;
pub mod respond;
pub mod text;

use vstd::prelude::*;
use vstd::string::StringExecFns;

verus! {

/// Immutable process-wide settings: the upstream authority (`host:port`)
/// that every request is forwarded to.
pub struct Config {
    pub upstream: String,
}

impl Config {
    pub fn new(upstream: String) -> (c: Config)
        ensures
            c.upstream@ == upstream@,
    {
        Config { upstream }
    }
}

/// The target of the outbound request: scheme `http`, the configured upstream
/// authority, and the original path and query taken verbatim — an `auth`
/// query parameter, if present, is forwarded unchanged.
pub fn upstream_uri(upstream: &str, path_and_query: &str) -> (r: String)
    ensures
        r@ == "http://"@ + upstream@ + path_and_query@,
{
    String::from_str("http://").concat(upstream).concat(path_and_query)
}

} // verus!
