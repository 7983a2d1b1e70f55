use auth_proxy::body_auth::try_extract_auth_from_body;
use auth_proxy::headers::Headers;
use auth_proxy::pipeline::{
    auth_token_to_bearer, body_is_json, rewrite_headers, try_inject_auth_header,
    try_inject_auth_header_with_body, InjectOutcome,
};
use auth_proxy::query::extract_auth_from_query;
use auth_proxy::respond::{body_read_failed_response, upstream_error_response};
use auth_proxy::upstream_uri;

fn headers_of(pairs: &[(&str, &str)]) -> Headers {
    let entries: Vec<(String, String)> = pairs
        .iter()
        .map(|(n, v)| (n.to_string(), v.to_string()))
        .collect();
    Headers::from_entries(entries)
}

fn entries_of(h: &Headers) -> Vec<(String, String)> {
    let mut out = Vec::new();
    let mut i = 0;
    while i < h.len() {
        out.push((h.name_at(i).clone(), h.value_at(i).clone()));
        i += 1;
    }
    out
}

#[test]
fn authorization_header_is_pure_passthrough() {
    let headers = headers_of(&[("Authorization", "Bearer already"), ("X-Other", "v")]);
    let r = try_inject_auth_header(Some("auth=evil"), headers);
    match r {
        InjectOutcome::Forward(h) => {
            assert_eq!(
                entries_of(&h),
                vec![
                    ("Authorization".to_string(), "Bearer already".to_string()),
                    ("X-Other".to_string(), "v".to_string()),
                ]
            );
        }
        _ => panic!("expected passthrough"),
    }
}

#[test]
fn query_token_becomes_bearer_header() {
    let headers = headers_of(&[("Accept", "*/*")]);
    let r = try_inject_auth_header(Some("auth=TOKEN"), headers);
    match r {
        InjectOutcome::Forward(h) => {
            assert_eq!(
                entries_of(&h),
                vec![
                    ("Accept".to_string(), "*/*".to_string()),
                    ("Authorization".to_string(), "Bearer TOKEN".to_string()),
                ]
            );
        }
        _ => panic!("expected forward with injected header"),
    }
}

#[test]
fn forwarded_target_keeps_path_and_query() {
    let uri = upstream_uri("127.0.0.1:8536", "/x?auth=TOKEN");
    assert_eq!(uri, "http://127.0.0.1:8536/x?auth=TOKEN");
}

#[test]
fn json_body_token_becomes_bearer_header() {
    let headers = headers_of(&[("Content-Type", "application/json")]);
    let headers = match try_inject_auth_header(None, headers) {
        InjectOutcome::NeedsBody(h) => h,
        _ => panic!("expected the body to be asked for"),
    };
    let body = b"{\"auth\":\"abc123\"}".to_vec();
    let (h, out) = try_inject_auth_header_with_body(headers, body.clone())
        .expect("valid token must be injected");
    assert_eq!(out, body);
    assert_eq!(
        entries_of(&h),
        vec![
            ("Content-Type".to_string(), "application/json".to_string()),
            ("Authorization".to_string(), "Bearer abc123".to_string()),
        ]
    );
}

#[test]
fn invalid_json_body_is_replayed_untouched() {
    let headers = headers_of(&[("Content-Type", "application/json")]);
    let body = b"not valid json".to_vec();
    let (h, out) = try_inject_auth_header_with_body(headers, body.clone()).expect("no error");
    assert_eq!(out, body);
    assert_eq!(
        entries_of(&h),
        vec![("Content-Type".to_string(), "application/json".to_string())]
    );
}

#[test]
fn json_body_without_auth_field_adds_nothing() {
    let headers = headers_of(&[("Content-Type", "application/json")]);
    let body = b"{\"other\":\"value\"}".to_vec();
    let (h, out) = try_inject_auth_header_with_body(headers, body.clone()).expect("no error");
    assert_eq!(out, body);
    assert_eq!(
        entries_of(&h),
        vec![("Content-Type".to_string(), "application/json".to_string())]
    );
}

#[test]
fn json_body_with_non_string_auth_adds_nothing() {
    let headers = headers_of(&[("Content-Type", "application/json")]);
    let body = b"{\"auth\":5}".to_vec();
    let (h, out) = try_inject_auth_header_with_body(headers, body.clone()).expect("no error");
    assert_eq!(out, body);
    assert_eq!(h.len(), 1);
}

#[test]
fn nested_auth_field_is_not_top_level() {
    let headers = headers_of(&[("Content-Type", "application/json")]);
    let body = b"{\"x\":{\"auth\":\"y\"}}".to_vec();
    let (h, out) = try_inject_auth_header_with_body(headers, body.clone()).expect("no error");
    assert_eq!(out, body);
    assert_eq!(h.len(), 1);
}

#[test]
fn body_read_failure_yields_400_with_text() {
    let r = body_read_failed_response();
    assert_eq!(r.status, 400);
    assert!(!r.message.is_empty());
}

#[test]
fn upstream_failure_yields_502_naming_the_failure() {
    let r = upstream_error_response("connection refused");
    assert_eq!(r.status, 502);
    assert!(!r.message.is_empty());
    assert!(r.message.contains("connection refused"));
}

#[test]
fn extractor_is_idempotent() {
    let body = b"{\"auth\":\"abc123\"}".to_vec();
    let (first_body, first_token) = try_extract_auth_from_body(body);
    let (second_body, second_token) = try_extract_auth_from_body(first_body.clone());
    assert_eq!(first_body, second_body);
    assert_eq!(first_token, second_token);
    assert_eq!(first_token, Some("abc123".to_string()));
}

#[test]
fn extractor_is_idempotent_on_non_json() {
    let body = b"not valid json".to_vec();
    let (first_body, first_token) = try_extract_auth_from_body(body.clone());
    let (second_body, second_token) = try_extract_auth_from_body(first_body.clone());
    assert_eq!(first_body, body);
    assert_eq!(first_body, second_body);
    assert_eq!(first_token, None);
    assert_eq!(first_token, second_token);
}

#[test]
fn first_auth_query_parameter_wins() {
    assert_eq!(
        extract_auth_from_query(Some("auth=a&auth=b")),
        Some("a".to_string())
    );
}

#[test]
fn query_decoding_handles_percent_and_plus() {
    assert_eq!(
        extract_auth_from_query(Some("auth=a%20b")),
        Some("a b".to_string())
    );
    assert_eq!(
        extract_auth_from_query(Some("auth=a+b")),
        Some("a b".to_string())
    );
}

#[test]
fn missing_or_empty_query_has_no_token() {
    assert_eq!(extract_auth_from_query(None), None);
    assert_eq!(extract_auth_from_query(Some("")), None);
    assert_eq!(extract_auth_from_query(Some("other=x")), None);
}

#[test]
fn query_token_precedes_body_token() {
    let headers = headers_of(&[("Content-Type", "application/json")]);
    let r = try_inject_auth_header(Some("auth=fromquery"), headers);
    match r {
        InjectOutcome::Forward(h) => {
            assert_eq!(
                h.value_at(1),
                &"Bearer fromquery".to_string(),
                "query token must win without reading the body"
            );
        }
        _ => panic!("body must not be asked for when the query carries the token"),
    }
}

#[test]
fn header_names_compare_case_insensitively() {
    let headers = headers_of(&[("authorization", "x")]);
    match try_inject_auth_header(Some("auth=t"), headers) {
        InjectOutcome::Forward(h) => assert_eq!(h.len(), 1),
        _ => panic!("lower-case authorization header must be seen"),
    }
    let headers = headers_of(&[("CONTENT-TYPE", "application/json")]);
    assert!(body_is_json(&headers));
}

#[test]
fn content_type_with_charset_still_signals_json() {
    let headers = headers_of(&[("Content-Type", "application/json; charset=utf-8")]);
    assert!(body_is_json(&headers));
}

#[test]
fn non_json_content_type_is_not_buffered() {
    let headers = headers_of(&[("Content-Type", "text/plain")]);
    match try_inject_auth_header(None, headers) {
        InjectOutcome::Forward(h) => assert_eq!(h.len(), 1),
        _ => panic!("a non-JSON body must pass through unread"),
    }
}

#[test]
fn control_character_in_token_is_rejected() {
    let headers = headers_of(&[]);
    match try_inject_auth_header(Some("auth=%01bad"), headers) {
        InjectOutcome::Rejected(e) => {
            assert_eq!(e.status, 400);
            assert!(!e.message.is_empty());
        }
        _ => panic!("a token with a control character must be rejected"),
    }
}

#[test]
fn rewrite_appends_and_keeps_duplicates() {
    let headers = headers_of(&[("Authorization", "one"), ("Authorization", "two")]);
    let h = rewrite_headers(headers, Some("t".to_string())).expect("valid token");
    assert_eq!(
        entries_of(&h),
        vec![
            ("Authorization".to_string(), "one".to_string()),
            ("Authorization".to_string(), "two".to_string()),
            ("Authorization".to_string(), "Bearer t".to_string()),
        ]
    );
}

#[test]
fn bearer_value_format() {
    assert_eq!(auth_token_to_bearer("tok"), "Bearer tok");
}
