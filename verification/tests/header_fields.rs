use axum::http::header::{HeaderMap, HeaderName, HeaderValue};
use axum::http::response::Builder;
use axum::http::StatusCode;
use bytes::Bytes;
use proxy_response::error::ProxyError;
use proxy_response::headers::{
    copy_headers, hop_by_hop, is_sse_content_type, is_sse_headers, is_sse_response, strips_header,
};
use proxy_response::response::{build_buffered_json_response, Inspection};
use serde_json::Value;

/// The most names that a header map holds.
const FULL: usize = 24576;

fn fields(list: &[(&str, &str)]) -> HeaderMap {
    let mut headers = HeaderMap::new();
    for (name, value) in list {
        headers.append(
            HeaderName::from_bytes(name.as_bytes()).expect("a header name"),
            HeaderValue::from_str(value).expect("a header value"),
        );
    }
    headers
}

fn started() -> Builder {
    axum::http::Response::builder().status(StatusCode::OK)
}

fn copied(headers: &HeaderMap, force: bool, strip: bool) -> HeaderMap {
    let mut builder = started();
    copy_headers(&mut builder, headers, force, strip);
    let response = builder.body(()).expect("a response");
    assert_eq!(response.status(), StatusCode::OK);
    response.headers().clone()
}

fn values(headers: &HeaderMap, name: &str) -> Vec<Vec<u8>> {
    headers
        .get_all(name)
        .iter()
        .map(|value| value.as_bytes().to_vec())
        .collect()
}

fn full_map() -> HeaderMap {
    let mut headers = HeaderMap::new();
    for i in 0..FULL {
        headers.insert(
            HeaderName::from_bytes(format!("x-{i}").as_bytes()).expect("a header name"),
            HeaderValue::from_static("v"),
        );
    }
    headers
}

#[test]
fn hop_by_hop_names() {
    for name in [
        "connection",
        "keep-alive",
        "proxy-authenticate",
        "proxy-authorization",
        "proxy-connection",
        "te",
        "trailer",
        "trailers",
        "transfer-encoding",
        "upgrade",
    ] {
        assert!(hop_by_hop(name));
    }
    for name in ["", "t", "tee", "Connection", "content-length", "content-type"] {
        assert!(!hop_by_hop(name));
    }
}

#[test]
fn stripping_goes_by_the_lower_case_name() {
    let listed = vec!["x-one".to_string(), "x-two".to_string()];
    assert!(strips_header("Content-Length", &listed, false, false));
    assert!(strips_header("TE", &listed, false, false));
    assert!(strips_header("X-Two", &listed, false, false));
    assert!(!strips_header("x-three", &listed, true, true));
    assert!(strips_header("Content-Encoding", &listed, false, true));
    assert!(!strips_header("content-encoding", &listed, true, false));
    assert!(strips_header("Content-Type", &listed, true, false));
    assert!(!strips_header("content-type", &listed, false, true));
}

#[test]
fn all_connection_fields_are_read_as_lists() {
    let mut headers = fields(&[
        ("connection", " X-A ,,\tx-b\t, "),
        ("connection", "X-C"),
        ("x-a", "1"),
        ("x-b", "2"),
        ("x-c", "3"),
        ("x-d", "4"),
    ]);
    headers.append(
        "connection",
        HeaderValue::from_bytes(b"x-d\xff").expect("an opaque value"),
    );
    let sent = copied(&headers, false, false);
    assert_eq!(sent.len(), 1);
    assert_eq!(values(&sent, "x-d"), vec![b"4".to_vec()]);
}

#[test]
fn other_fields_keep_all_their_values_in_order() {
    let mut headers = fields(&[("set-cookie", "a=1"), ("x-y", "z"), ("set-cookie", "b=2")]);
    headers.append(
        "x-y",
        HeaderValue::from_bytes(b"\xe9").expect("an opaque value"),
    );
    let sent = copied(&headers, false, true);
    assert_eq!(sent.len(), 4);
    assert_eq!(
        values(&sent, "set-cookie"),
        vec![b"a=1".to_vec(), b"b=2".to_vec()]
    );
    assert_eq!(values(&sent, "x-y"), vec![b"z".to_vec(), b"\xe9".to_vec()]);
}

#[test]
fn forced_content_type_replaces_that_of_upstream() {
    let headers = fields(&[
        ("content-type", "application/json"),
        ("content-type", "text/html"),
        ("content-encoding", "br"),
        ("content-length", "3"),
        ("x-kept", "yes"),
    ]);
    let sent = copied(&headers, true, true);
    assert_eq!(
        values(&sent, "content-type"),
        vec![b"text/event-stream".to_vec()]
    );
    assert!(!sent.contains_key("content-encoding"));
    assert!(!sent.contains_key("content-length"));
    assert_eq!(values(&sent, "x-kept"), vec![b"yes".to_vec()]);
    assert!(is_sse_headers(&sent));
}

#[test]
fn copying_what_was_copied_changes_nothing() {
    let headers = fields(&[
        ("connection", "x-hop"),
        ("x-hop", "1"),
        ("x-kept", "2"),
        ("x-kept", "3"),
        ("content-type", "text/plain"),
    ]);
    for (force, strip) in [(false, false), (false, true), (true, false), (true, true)] {
        let once = copied(&headers, force, strip);
        assert!(!once.contains_key("x-hop"));
        assert_eq!(copied(&once, force, strip), once);
    }
}

#[test]
fn copied_fields_come_after_those_of_the_builder() {
    let mut builder = started().header("x-a", "first");
    copy_headers(&mut builder, &fields(&[("x-a", "second")]), false, false);
    let response = builder.body(()).expect("a response");
    assert_eq!(
        values(response.headers(), "x-a"),
        vec![b"first".to_vec(), b"second".to_vec()]
    );
}

#[test]
fn failed_builder_stays_failed() {
    let mut builder = started().header("not a name", "v");
    copy_headers(&mut builder, &fields(&[("x-a", "1")]), true, true);
    let error = builder.body(()).expect_err("an error");
    assert_eq!(error.to_string(), "invalid HTTP header name");
}

#[test]
fn head_without_room_fails() {
    let headers = full_map();
    let mut builder = started().header("y", "v");
    copy_headers(&mut builder, &headers, false, false);
    let error = builder.body(()).expect_err("an error");
    assert_eq!(error.to_string(), "max size reached");

    let inspection = Inspection {
        summarize_body: |_: &Bytes| None,
        summarize_json: |_: &Value| None,
        estimate_tokens: |_: &Bytes| 0,
    };
    match build_buffered_json_response(
        StatusCode::OK,
        &headers,
        Bytes::from_static(b"{}"),
        Ok,
        &inspection,
    ) {
        Err(ProxyError::RequestFailed(message)) => assert_eq!(
            message,
            "build transformed response failed: max size reached"
        ),
        _ => panic!("there is no room for a content type"),
    }
}

#[test]
fn event_streams_are_told_by_the_content_type() {
    assert!(is_sse_content_type("text/event-stream"));
    assert!(is_sse_content_type("text/event-stream; charset=utf-8"));
    assert!(is_sse_content_type("xtext/event-streamx"));
    assert!(!is_sse_content_type("text/event-strea"));
    assert!(!is_sse_content_type("Text/Event-Stream"));
    assert!(!is_sse_content_type(""));

    assert!(is_sse_headers(&fields(&[("content-type", "text/event-stream")])));
    assert!(!is_sse_headers(&fields(&[("accept", "text/event-stream")])));
    assert!(!is_sse_headers(&fields(&[
        ("content-type", "text/plain"),
        ("content-type", "text/event-stream"),
    ])));
    let mut opaque = HeaderMap::new();
    opaque.insert(
        "content-type",
        HeaderValue::from_bytes(b"text/event-stream\xff").expect("an opaque value"),
    );
    assert!(!is_sse_headers(&opaque));
}

#[test]
fn upstream_event_streams_are_told_by_their_head() {
    let response = |content_type: &str| {
        reqwest::Response::from(
            axum::http::Response::builder()
                .header("content-type", content_type)
                .body("data: 1\n\n")
                .expect("a response"),
        )
    };
    assert!(is_sse_response(&response("text/event-stream; charset=utf-8")));
    assert!(!is_sse_response(&response("application/json")));
}
