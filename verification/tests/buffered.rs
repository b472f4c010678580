use axum::body::to_bytes;
use axum::http::header::{HeaderMap, HeaderName, HeaderValue};
use axum::http::StatusCode;
use axum::response::Response;
use bytes::Bytes;
use futures::executor::block_on;
use proxy_response::encoding::decode_buffered_response_body;
use proxy_response::error::ProxyError;
use proxy_response::response::{
    build_buffered_json_response, build_buffered_passthrough_response,
    build_transformed_json_response, build_written_json_response, Inspection,
};
use reqwest::header::CONTENT_TYPE;
use serde_json::Value;
use std::io::Write;

type Plain = Inspection<
    fn(&Bytes) -> Option<String>,
    fn(&Value) -> Option<String>,
    fn(&Bytes) -> u64,
>;

/// Sums up a body by its length and a document by its `message`, and counts bytes as tokens.
fn inspection() -> Plain {
    Inspection {
        summarize_body: |body: &Bytes| Some(format!("{} bytes", body.len())),
        summarize_json: |value: &Value| {
            value.get("message").and_then(Value::as_str).map(str::to_string)
        },
        estimate_tokens: |body: &Bytes| body.len() as u64,
    }
}

fn document(text: &str) -> Value {
    serde_json::from_str(text).expect("a JSON document")
}

fn buffered_body(response: Response) -> Bytes {
    block_on(to_bytes(response.into_body(), usize::MAX)).expect("read buffered response body")
}

fn text_of<'a>(headers: &'a HeaderMap, name: &str) -> Option<&'a str> {
    headers.get(name).and_then(|value| value.to_str().ok())
}

#[test]
fn decode_buffered_response_body_decompresses_gzip_and_strips_entity_headers() {
    let payload = br#"{"ok":true}"#;
    let mut encoder = flate2::write::GzEncoder::new(Vec::new(), flate2::Compression::default());
    encoder.write_all(payload).expect("write gzip payload");
    let compressed = encoder.finish().expect("finish gzip payload");
    let mut headers = HeaderMap::new();
    headers.insert(
        reqwest::header::CONTENT_ENCODING,
        HeaderValue::from_static("gzip"),
    );
    headers.insert(
        reqwest::header::CONTENT_LENGTH,
        HeaderValue::from_static("999"),
    );
    headers.insert(
        reqwest::header::TRANSFER_ENCODING,
        HeaderValue::from_static("chunked"),
    );
    headers.insert(CONTENT_TYPE, HeaderValue::from_static("application/json"));

    let body = decode_buffered_response_body(&mut headers, Bytes::from(compressed));

    assert_eq!(body, Bytes::from_static(payload));
    assert!(!headers.contains_key(reqwest::header::CONTENT_ENCODING));
    assert!(!headers.contains_key(reqwest::header::CONTENT_LENGTH));
    assert!(!headers.contains_key(reqwest::header::TRANSFER_ENCODING));
    assert_eq!(
        headers
            .get(CONTENT_TYPE)
            .and_then(|value| value.to_str().ok()),
        Some("application/json")
    );
}

#[test]
fn non_success_parse_failures_fall_back_to_upstream_response() {
    let mut headers = HeaderMap::new();
    headers.insert(CONTENT_TYPE, HeaderValue::from_static("application/json"));

    let prepared = build_buffered_json_response(
        reqwest::StatusCode::BAD_REQUEST,
        &headers,
        Bytes::from_static(br#"{not-json"#),
        |_| Ok(document(r#"{"type": "error"}"#)),
        &inspection(),
    )
    .expect("fallback to raw upstream response");

    assert_eq!(prepared.response.status(), StatusCode::BAD_REQUEST);
    assert_eq!(
        prepared
            .response
            .headers()
            .get(CONTENT_TYPE)
            .and_then(|value| value.to_str().ok()),
        Some("application/json")
    );
    assert_eq!(
        prepared.upstream_error_summary.as_deref(),
        Some("9 bytes")
    );
    assert_eq!(
        buffered_body(prepared.response),
        Bytes::from_static(br#"{not-json"#)
    );
}

#[test]
fn non_success_transform_failures_fall_back_to_upstream_response() {
    let mut headers = HeaderMap::new();
    headers.insert(CONTENT_TYPE, HeaderValue::from_static("application/json"));

    let prepared = build_buffered_json_response(
        reqwest::StatusCode::BAD_REQUEST,
        &headers,
        Bytes::from_static(br#"{"message":"upstream rejected the request"}"#),
        |_| {
            Err(ProxyError::TransformError(
                "missing error envelope".to_string(),
            ))
        },
        &inspection(),
    )
    .expect("fallback to raw upstream response");

    assert_eq!(prepared.response.status(), StatusCode::BAD_REQUEST);
    assert_eq!(
        buffered_body(prepared.response),
        Bytes::from_static(br#"{"message":"upstream rejected the request"}"#)
    );
}

#[test]
fn non_success_non_transform_failures_preserve_original_proxy_error() {
    let headers = HeaderMap::new();
    let result = build_buffered_json_response(
        reqwest::StatusCode::BAD_REQUEST,
        &headers,
        Bytes::from_static(br#"{"message":"upstream rejected the request"}"#),
        |_| {
            Err(ProxyError::Timeout(
                "proxy transform pipeline broke".to_string(),
            ))
        },
        &inspection(),
    );

    match result {
        Ok(_) => panic!("non-transform errors must not fall back to upstream passthrough"),
        Err(ProxyError::Timeout(message)) => {
            assert_eq!(message, "proxy transform pipeline broke");
        }
        Err(other) => panic!("expected original proxy error, got {other:?}"),
    }
}

#[test]
fn success_parse_failures_use_proxy_request_failed_errors() {
    let headers = HeaderMap::new();
    let result = build_buffered_json_response(
        reqwest::StatusCode::OK,
        &headers,
        Bytes::from_static(br#"{not-json"#),
        |_| Ok(document(r#"{"type": "message"}"#)),
        &inspection(),
    );

    match result {
        Ok(_) => panic!("success responses should still fail on malformed upstream json"),
        Err(ProxyError::RequestFailed(message)) => {
            assert!(message.contains("parse upstream json failed"));
        }
        Err(other) => panic!("expected request failed error, got {other:?}"),
    }
}

#[test]
fn success_transform_failures_use_proxy_request_failed_errors() {
    let headers = HeaderMap::new();
    let result = build_buffered_json_response(
        reqwest::StatusCode::OK,
        &headers,
        Bytes::from_static(br#"{"message":"upstream accepted the request"}"#),
        |_| {
            Err(ProxyError::TransformError(
                "missing success envelope".to_string(),
            ))
        },
        &inspection(),
    );

    match result {
        Ok(_) => panic!("success responses must surface transform failures as proxy errors"),
        Err(ProxyError::RequestFailed(message)) => {
            assert!(message.contains("transform upstream json failed"));
            assert!(message.contains("missing success envelope"));
        }
        Err(other) => panic!("expected request failed error, got {other:?}"),
    }
}

#[test]
fn non_success_standard_json_errors_can_still_transform() {
    let mut headers = HeaderMap::new();
    headers.insert(CONTENT_TYPE, HeaderValue::from_static("application/json"));

    let prepared = build_buffered_json_response(
        reqwest::StatusCode::BAD_REQUEST,
        &headers,
        Bytes::from_static(
            br#"{"error":{"message":"upstream rejected the request","type":"invalid_request_error"}}"#,
        ),
        |body| {
            assert_eq!(
                body,
                document(
                    r#"{
                        "error": {
                            "message": "upstream rejected the request",
                            "type": "invalid_request_error"
                        }
                    }"#
                )
            );
            Ok(document(
                r#"{
                    "type": "error",
                    "error": {
                        "type": "invalid_request_error",
                        "message": "upstream rejected the request"
                    }
                }"#,
            ))
        },
        &inspection(),
    )
    .expect("standard upstream json errors should still transform");

    assert_eq!(prepared.response.status(), StatusCode::BAD_REQUEST);
    let body: serde_json::Value =
        serde_json::from_slice(&buffered_body(prepared.response)).expect("response json");
    assert_eq!(
        body,
        document(
            r#"{
                "type": "error",
                "error": {
                    "type": "invalid_request_error",
                    "message": "upstream rejected the request"
                }
            }"#
        )
    );
}

#[test]
fn buffered_passthrough_strips_hop_by_hop_headers() {
    let mut headers = HeaderMap::new();
    headers.insert(CONTENT_TYPE, HeaderValue::from_static("application/json"));
    headers.insert(
        reqwest::header::CONNECTION,
        HeaderValue::from_static("x-trace-hop, upgrade"),
    );
    headers.insert(
        HeaderName::from_static("x-trace-hop"),
        HeaderValue::from_static("trace"),
    );
    headers.insert(
        HeaderName::from_static("proxy-connection"),
        HeaderValue::from_static("keep-alive"),
    );
    headers.insert(
        reqwest::header::UPGRADE,
        HeaderValue::from_static("websocket"),
    );
    headers.insert(
        reqwest::header::CONTENT_ENCODING,
        HeaderValue::from_static("gzip"),
    );
    headers.insert("x-stable-header", HeaderValue::from_static("kept"));

    let prepared = build_buffered_passthrough_response(
        reqwest::StatusCode::OK,
        &headers,
        Bytes::from_static(br#"{"ok":true}"#),
        &inspection(),
    )
    .expect("build passthrough response");

    let response_headers = prepared.response.headers();
    assert!(!response_headers.contains_key(reqwest::header::CONNECTION));
    assert!(!response_headers.contains_key("x-trace-hop"));
    assert!(!response_headers.contains_key("proxy-connection"));
    assert!(!response_headers.contains_key(reqwest::header::UPGRADE));
    assert_eq!(
        response_headers
            .get(reqwest::header::CONTENT_ENCODING)
            .and_then(|value| value.to_str().ok()),
        Some("gzip")
    );
    assert_eq!(
        response_headers
            .get("x-stable-header")
            .and_then(|value| value.to_str().ok()),
        Some("kept")
    );
}

#[test]
fn passthrough_keeps_the_bytes_and_notes_them() {
    let prepared = build_buffered_passthrough_response(
        StatusCode::IM_A_TEAPOT,
        &HeaderMap::new(),
        Bytes::from_static(b"short and stout"),
        &inspection(),
    )
    .expect("build passthrough response");

    assert_eq!(prepared.response.status().as_u16(), 418);
    assert!(prepared.stream_completion.is_none());
    assert_eq!(prepared.estimated_output_tokens, 15);
    assert_eq!(prepared.upstream_error_summary.as_deref(), Some("15 bytes"));
    assert_eq!(
        prepared.body_bytes,
        Some(Bytes::from_static(b"short and stout"))
    );
    assert_eq!(
        buffered_body(prepared.response),
        Bytes::from_static(b"short and stout")
    );
}

#[test]
fn success_is_not_summed_up() {
    for status in [200u16, 204, 299] {
        let prepared = build_buffered_passthrough_response(
            StatusCode::from_u16(status).expect("a status"),
            &HeaderMap::new(),
            Bytes::from_static(b"fine"),
            &inspection(),
        )
        .expect("build passthrough response");
        assert_eq!(prepared.upstream_error_summary, None);
    }
    for status in [199u16, 300, 404] {
        let prepared = build_buffered_passthrough_response(
            StatusCode::from_u16(status).expect("a status"),
            &HeaderMap::new(),
            Bytes::from_static(b"fine"),
            &inspection(),
        )
        .expect("build passthrough response");
        assert_eq!(prepared.upstream_error_summary.as_deref(), Some("4 bytes"));
    }
}

#[test]
fn transformed_body_is_sent_as_compact_json() {
    let mut headers = HeaderMap::new();
    headers.insert("content-encoding", HeaderValue::from_static("gzip"));
    headers.insert("content-length", HeaderValue::from_static("7"));
    headers.insert("x-kept", HeaderValue::from_static("yes"));
    let prepared = build_buffered_json_response(
        StatusCode::OK,
        &headers,
        Bytes::from_static(br#"{ "b" : 1 }"#),
        |mut body| {
            body["a"] = Value::from("x");
            Ok(body)
        },
        &inspection(),
    )
    .expect("transformed response");

    let sent = prepared.response.headers();
    assert!(!sent.contains_key("content-encoding"));
    assert!(!sent.contains_key("content-length"));
    assert_eq!(text_of(sent, "x-kept"), Some("yes"));
    assert_eq!(text_of(sent, "content-type"), Some("application/json"));
    assert_eq!(sent.get_all("content-type").iter().count(), 1);
    assert_eq!(prepared.upstream_error_summary, None);
    assert_eq!(prepared.estimated_output_tokens, 15);
    assert_eq!(
        buffered_body(prepared.response),
        Bytes::from_static(br#"{"a":"x","b":1}"#)
    );
}

#[test]
fn json_content_type_comes_after_that_of_upstream() {
    let mut headers = HeaderMap::new();
    headers.insert("content-type", HeaderValue::from_static("text/plain"));
    let prepared = build_buffered_json_response(
        StatusCode::OK,
        &headers,
        Bytes::from_static(b"null"),
        Ok,
        &inspection(),
    )
    .expect("transformed response");
    let types: Vec<&str> = prepared
        .response
        .headers()
        .get_all("content-type")
        .iter()
        .filter_map(|value| value.to_str().ok())
        .collect();
    assert_eq!(types, vec!["text/plain", "application/json"]);
}

#[test]
fn upstream_error_document_is_summed_up_before_it_is_transformed() {
    let prepared = build_buffered_json_response(
        StatusCode::BAD_REQUEST,
        &HeaderMap::new(),
        Bytes::from_static(br#"{"message":"no"}"#),
        |_| Ok(Value::from("done")),
        &inspection(),
    )
    .expect("transformed response");
    assert_eq!(prepared.upstream_error_summary.as_deref(), Some("no"));
    assert_eq!(prepared.response.status(), StatusCode::BAD_REQUEST);
    assert_eq!(
        buffered_body(prepared.response),
        Bytes::from_static(br#""done""#)
    );
}

#[test]
fn outcome_of_a_transformation_decides_the_answer() {
    let body = Bytes::from_static(b"[1]");
    let failed = |status: u16, error: ProxyError| {
        build_transformed_json_response(
            StatusCode::from_u16(status).expect("a status"),
            &HeaderMap::new(),
            body.clone(),
            None,
            Err(error),
            &inspection(),
        )
    };
    match failed(200, ProxyError::Internal("broken".to_string())) {
        Err(ProxyError::RequestFailed(message)) => {
            assert_eq!(message, "transform upstream json failed: broken");
        }
        _ => panic!("a failed transformation of a success is a failed request"),
    }
    match failed(500, ProxyError::Internal("broken".to_string())) {
        Err(ProxyError::Internal(message)) => assert_eq!(message, "broken"),
        _ => panic!("the failure is the result"),
    }
    match failed(500, ProxyError::TransformError("odd".to_string())) {
        Ok(prepared) => assert_eq!(buffered_body(prepared.response), body),
        Err(_) => panic!("the upstream response is handed on"),
    }
}

#[test]
fn written_body_is_sent_and_a_failure_to_write_is_reported() {
    let sent = build_written_json_response(
        StatusCode::CREATED,
        &HeaderMap::new(),
        Some("noted".to_string()),
        Ok(b"[]".to_vec()),
        "write: ",
        "build: ",
        &inspection(),
    )
    .expect("written response");
    assert_eq!(sent.upstream_error_summary.as_deref(), Some("noted"));
    assert_eq!(sent.estimated_output_tokens, 2);
    assert_eq!(buffered_body(sent.response), Bytes::from_static(b"[]"));

    let error = serde_json::from_str::<Value>("x").expect_err("no JSON");
    let text = error.to_string();
    match build_written_json_response(
        StatusCode::CREATED,
        &HeaderMap::new(),
        None,
        Err(error),
        "write: ",
        "build: ",
        &inspection(),
    ) {
        Err(ProxyError::RequestFailed(message)) => assert_eq!(message, format!("write: {text}")),
        _ => panic!("expected a failed request"),
    }
}
