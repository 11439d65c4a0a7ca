use admin_console::helpers::{htmx_target_is, is_htmx_request};
use axum::http::{HeaderMap, HeaderName, HeaderValue};

fn partial_update(target: &'static str) -> HeaderMap {
    let mut headers = HeaderMap::new();
    headers.insert("hx-request", HeaderValue::from_static("true"));
    headers.insert("hx-target", HeaderValue::from_static(target));
    headers
}

#[test]
fn partial_update_with_matching_target() {
    let headers = partial_update("users-table");
    assert!(is_htmx_request(&headers));
    assert!(htmx_target_is(&headers, "users-table"));
}

#[test]
fn partial_update_with_other_target() {
    let headers = partial_update("other");
    assert!(is_htmx_request(&headers));
    assert!(!htmx_target_is(&headers, "users-table"));
    assert!(htmx_target_is(&headers, "other"));
}

#[test]
fn plain_request_is_no_partial_update() {
    let headers = HeaderMap::new();
    assert!(!is_htmx_request(&headers));
    assert!(!htmx_target_is(&headers, "users-table"));
    assert!(!htmx_target_is(&headers, ""));
}

#[test]
fn unrelated_headers_do_not_count() {
    let mut headers = HeaderMap::new();
    headers.insert("accept", HeaderValue::from_static("text/html"));
    headers.insert("x-hx-request", HeaderValue::from_static("true"));
    assert!(!is_htmx_request(&headers));
    assert!(!htmx_target_is(&headers, "text/html"));
}

#[test]
fn presence_decides_not_the_value() {
    let mut headers = HeaderMap::new();
    headers.insert("hx-request", HeaderValue::from_static("false"));
    assert!(is_htmx_request(&headers));
    let mut empty = HeaderMap::new();
    empty.insert("hx-request", HeaderValue::from_static(""));
    assert!(is_htmx_request(&empty));
}

#[test]
fn target_without_the_marker_still_names_its_region() {
    let mut headers = HeaderMap::new();
    headers.insert("hx-target", HeaderValue::from_static("users-table"));
    assert!(!is_htmx_request(&headers));
    assert!(htmx_target_is(&headers, "users-table"));
}

#[test]
fn target_must_match_exactly() {
    let headers = partial_update("users-table");
    assert!(!htmx_target_is(&headers, "users-tabl"));
    assert!(!htmx_target_is(&headers, "users-table "));
    assert!(!htmx_target_is(&headers, "Users-Table"));
    assert!(!htmx_target_is(&headers, ""));
}

#[test]
fn empty_target_matches_only_the_empty_name() {
    let headers = partial_update("");
    assert!(htmx_target_is(&headers, ""));
    assert!(!htmx_target_is(&headers, "users-table"));
}

#[test]
fn header_names_are_matched_without_regard_to_case() {
    let mut headers = HeaderMap::new();
    headers.insert(
        HeaderName::from_bytes(b"HX-Request").unwrap(),
        HeaderValue::from_static("true"),
    );
    headers.insert(
        HeaderName::from_bytes(b"HX-Target").unwrap(),
        HeaderValue::from_static("users-table"),
    );
    assert!(is_htmx_request(&headers));
    assert!(htmx_target_is(&headers, "users-table"));
}

#[test]
fn first_of_several_targets_counts() {
    let mut headers = HeaderMap::new();
    headers.append("hx-target", HeaderValue::from_static("users-table"));
    headers.append("hx-target", HeaderValue::from_static("other"));
    assert!(htmx_target_is(&headers, "users-table"));
    assert!(!htmx_target_is(&headers, "other"));
}

#[test]
fn target_that_is_not_visible_ascii_matches_nothing() {
    let mut headers = HeaderMap::new();
    headers.insert("hx-target", HeaderValue::from_bytes("caf\u{e9}".as_bytes()).unwrap());
    assert!(!htmx_target_is(&headers, "caf\u{e9}"));
    assert!(!htmx_target_is(&headers, "cafe"));
}

#[test]
fn target_with_a_tab_is_text() {
    let mut headers = HeaderMap::new();
    headers.insert("hx-target", HeaderValue::from_bytes(b"a\tb").unwrap());
    assert!(htmx_target_is(&headers, "a\tb"));
    assert!(!htmx_target_is(&headers, "a b"));
}
