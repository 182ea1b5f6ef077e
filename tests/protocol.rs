use wry::protocol::{
    content_type_header, navigation_url, request_filter, resolver_path, resource_response,
    synthetic_prefix, ResourceError,
};

#[test]
fn custom_scheme_round_trip() {
    let custom = Some("foo".to_string());
    let nav = navigation_url("foo://path/x", "foo", &custom);
    assert_eq!(nav, "file://custom-protocol-foopath/x");
    assert!(nav.starts_with(&synthetic_prefix("foo")));
    assert_eq!(resolver_path(&nav, "foo"), "foo://path/x");
}

#[test]
fn request_filter_covers_synthetic_prefix() {
    assert_eq!(request_filter("foo"), "file://custom-protocol-foo*");
}

#[test]
fn other_schemes_are_not_rewritten() {
    let custom = Some("foo".to_string());
    assert_eq!(navigation_url("https://example.com/", "https", &custom), "https://example.com/");
    assert_eq!(navigation_url("foo://a", "foo", &None), "foo://a");
}

#[test]
fn unrelated_uri_reaches_resolver_unchanged() {
    assert_eq!(resolver_path("https://example.com/a", "foo"), "https://example.com/a");
    assert_eq!(resolver_path("file://custom-protocol-bar/x", "foo"), "file://custom-protocol-bar/x");
}

#[test]
fn resolved_content_is_served_with_its_mime_type() {
    let resolved: Result<Vec<u8>, String> = Ok(b"<html></html>".to_vec());
    let r = resource_response(resolved, "text/html").unwrap();
    assert_eq!(r.status, 200);
    assert_eq!(r.reason, "OK");
    assert_eq!(r.headers, "Content-Type: text/html");
    assert_eq!(r.body, b"<html></html>".to_vec());
    assert_eq!(content_type_header("image/png"), "Content-Type: image/png");
}

#[test]
fn resolver_failure_gives_no_partial_response() {
    let resolved: Result<Vec<u8>, String> = Err("missing".to_string());
    assert!(matches!(resource_response(resolved, "text/html"), Err(ResourceError::LoadFailed)));
}
