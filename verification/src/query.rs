//! Extraction of the legacy `auth` token from a URL query string. The
//! form-urlencoded decoding itself is done by the `url` crate; the scan for
//! the first pair named `auth` is verified here.

use vstd::prelude::*;
use vstd::string::StringExecFns;

verus! {

/// The name/value pairs that form-urlencoded decoding yields for a query
/// string, in input order, percent-decoded.
pub uninterp spec fn parsed_query_of(q: Seq<char>) -> Seq<(Seq<char>, Seq<char>)>;

/// Relies on url::form_urlencoded::parse: decodes a query string into its
/// name/value pairs, in input order; the result depends on the input alone.
#[verifier::external_body]
fn parse_query_pairs(query: &str) -> (r: Vec<(String, String)>)
    ensures
        r.deep_view() == parsed_query_of(query@),
{
    url::form_urlencoded::parse(query.as_bytes()).into_owned().collect()
}

/// The value of the first pair named `auth`, if one exists.
pub open spec fn spec_first_auth(pairs: Seq<(Seq<char>, Seq<char>)>) -> Option<Seq<char>>
    decreases pairs.len(),
{
    if pairs.len() == 0 {
        None
    } else if pairs[0].0 == "auth"@ {
        Some(pairs[0].1)
    } else {
        spec_first_auth(pairs.drop_first())
    }
}

/// The token that the query string carries: the value of its first
/// form-urlencoded pair named `auth`, if the request has a query string and
/// such a pair exists.
pub open spec fn spec_query_auth(query: Option<Seq<char>>) -> Option<Seq<char>> {
    match query {
        Some(q) => spec_first_auth(parsed_query_of(q)),
        None => None,
    }
}

proof fn lemma_first_auth_skip(pairs: Seq<(Seq<char>, Seq<char>)>, i: int)
    requires
        0 <= i < pairs.len(),
        pairs[i].0 != "auth"@,
    ensures
        spec_first_auth(pairs.skip(i)) == spec_first_auth(pairs.skip(i + 1)),
{
    assert(pairs.skip(i)[0] == pairs[i]);
    assert(pairs.skip(i).drop_first() =~= pairs.skip(i + 1));
}

proof fn lemma_first_auth_found(pairs: Seq<(Seq<char>, Seq<char>)>, i: int)
    requires
        0 <= i < pairs.len(),
        pairs[i].0 == "auth"@,
    ensures
        spec_first_auth(pairs.skip(i)) == Some(pairs[i].1),
{
    assert(pairs.skip(i)[0] == pairs[i]);
}

/// Scans the query string, if any, for its first `auth` parameter and returns
/// that parameter's value.
pub fn extract_auth_from_query(query: Option<&str>) -> (r: Option<String>)
    ensures
        r.deep_view() == spec_query_auth(query.deep_view()),
{
    let q = match query {
        Some(q) => q,
        None => {
            return None;
        },
    };
    let pairs = parse_query_pairs(q);
    let key = String::from_str("auth");
    let ghost gpairs = pairs.deep_view();
    let n = pairs.len();
    let mut i: usize = 0;
    assert(gpairs.skip(0) =~= gpairs);
    while i < n
        invariant
            n == pairs@.len(),
            gpairs == pairs.deep_view(),
            gpairs.len() == n,
            i <= n,
            key@ == "auth"@,
            query.deep_view() == Some(q@),
            gpairs == parsed_query_of(q@),
            spec_first_auth(gpairs) == spec_first_auth(gpairs.skip(i as int)),
        decreases n - i,
    {
        let e = &pairs[i];
        assert(gpairs[i as int] == (e.0@, e.1@));
        if e.0 == key {
            proof {
                lemma_first_auth_found(gpairs, i as int);
            }
            return Some(e.1.clone());
        }
        proof {
            lemma_first_auth_skip(gpairs, i as int);
        }
        i = i + 1;
    }
    assert(gpairs.skip(n as int) =~= Seq::<(Seq<char>, Seq<char>)>::empty());
    None
}

} // verus!
