use axum::http::{HeaderMap, HeaderValue};
use zeroclaw_gateway::version::A2AVersion;

#[test]
fn test_version_detection_from_header() {
    let mut headers = HeaderMap::new();
    headers.insert("a2a-protocol-version", HeaderValue::from_static("0.2.1"));
    assert_eq!(A2AVersion::detect(&headers, None), A2AVersion::V0);

    let mut headers = HeaderMap::new();
    headers.insert("a2a-protocol-version", HeaderValue::from_static("1.0.0-rc"));
    assert_eq!(A2AVersion::detect(&headers, None), A2AVersion::V1);

    let mut headers = HeaderMap::new();
    headers.insert("a2a-protocol-version", HeaderValue::from_static("1.0.0"));
    assert_eq!(A2AVersion::detect(&headers, None), A2AVersion::V1);
}

#[test]
fn test_version_detection_from_method() {
    let headers = HeaderMap::new();

    // v0 methods
    assert_eq!(
        A2AVersion::detect(&headers, Some("message/send")),
        A2AVersion::V0
    );
    assert_eq!(
        A2AVersion::detect(&headers, Some("tasks/get")),
        A2AVersion::V0
    );
    assert_eq!(
        A2AVersion::detect(&headers, Some("tasks/cancel")),
        A2AVersion::V0
    );

    // v1 methods
    assert_eq!(
        A2AVersion::detect(&headers, Some("SendMessage")),
        A2AVersion::V1
    );
    assert_eq!(
        A2AVersion::detect(&headers, Some("GetTask")),
        A2AVersion::V1
    );
    assert_eq!(
        A2AVersion::detect(&headers, Some("CancelTask")),
        A2AVersion::V1
    );
    assert_eq!(
        A2AVersion::detect(&headers, Some("ListTasks")),
        A2AVersion::V1
    );
}

#[test]
fn test_version_detection_header_takes_priority() {
    let mut headers = HeaderMap::new();
    headers.insert("a2a-protocol-version", HeaderValue::from_static("0.2.1"));
    // Even with a v1 method name, header wins
    assert_eq!(
        A2AVersion::detect(&headers, Some("SendMessage")),
        A2AVersion::V0
    );
}

#[test]
fn test_version_detection_defaults_to_v1() {
    let headers = HeaderMap::new();
    assert_eq!(A2AVersion::detect(&headers, None), A2AVersion::V1);
    assert_eq!(
        A2AVersion::detect(&headers, Some("UnknownMethod")),
        A2AVersion::V1
    );
}

// ── Further scenarios ───────────────────────────────────────────

#[test]
fn version_strings_are_trimmed() {
    assert_eq!(A2AVersion::from_version_string("  0.2.1 "), A2AVersion::V0);
    assert_eq!(A2AVersion::from_version_string("\t0.3"), A2AVersion::V0);
    assert_eq!(A2AVersion::from_version_string("\u{3000}0.1"), A2AVersion::V0);
    assert_eq!(A2AVersion::from_version_string("0"), A2AVersion::V1);
    assert_eq!(A2AVersion::from_version_string("0 .1"), A2AVersion::V1);
    assert_eq!(A2AVersion::from_version_string(""), A2AVersion::V1);
    assert_eq!(A2AVersion::from_version_string("2.0"), A2AVersion::V1);
}

#[test]
fn header_name_is_case_insensitive_and_unreadable_values_fall_back() {
    let mut headers = HeaderMap::new();
    headers.insert("A2A-Protocol-Version", HeaderValue::from_static("0.2.0"));
    assert_eq!(A2AVersion::detect(&headers, Some("GetTask")), A2AVersion::V0);

    // A value that is not visible ASCII cannot be read as text: the method decides.
    let mut headers = HeaderMap::new();
    headers.insert(
        "a2a-protocol-version",
        HeaderValue::from_bytes(b"0.\xff").unwrap(),
    );
    assert_eq!(A2AVersion::detect(&headers, Some("tasks/get")), A2AVersion::V0);
    assert_eq!(A2AVersion::detect(&headers, Some("GetTask")), A2AVersion::V1);
    assert_eq!(A2AVersion::detect(&headers, None), A2AVersion::V1);
}

#[test]
fn method_names_decide_without_header() {
    assert_eq!(A2AVersion::from_method_name("tasks/get"), A2AVersion::V0);
    assert_eq!(A2AVersion::from_method_name("Tasks/Get"), A2AVersion::V1);
    assert_eq!(A2AVersion::from_method_name(""), A2AVersion::V1);
}
