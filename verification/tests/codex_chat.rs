use axum::body::to_bytes;
use axum::http::header::{HeaderMap, HeaderName, HeaderValue};
use axum::http::StatusCode;
use axum::response::Response;
use bytes::Bytes;
use futures::executor::block_on;
use proxy_response::codex::{
    accept_converted_chat, build_buffered_codex_chat_response_with_context,
    convert_codex_chat_body, parse_codex_chat_error_body, shorten, ConvertedChat,
    MAX_RAW_ERROR_BYTES,
};
use proxy_response::encoding::EncodingTrouble;
use proxy_response::error::ProxyError;
use proxy_response::response::{Inspection, PreparedResponse};
use proxy_response::upstream::{build_codex_chat_response_with_context, BodyRead};
use reqwest::header::CONTENT_TYPE;
use serde_json::Value;

type Plain = Inspection<
    fn(&Bytes) -> Option<String>,
    fn(&Value) -> Option<String>,
    fn(&Bytes) -> u64,
>;

fn inspection() -> Plain {
    Inspection {
        summarize_body: |body: &Bytes| Some(format!("{} bytes", body.len())),
        summarize_json: |_: &Value| None,
        estimate_tokens: |body: &Bytes| body.len() as u64,
    }
}

fn buffered_body(response: Response) -> Bytes {
    block_on(to_bytes(response.into_body(), usize::MAX)).expect("read buffered response body")
}

/// An error in the shape of the Responses API, from a body that is plain text.
fn upstream_error(value: &Value) -> Value {
    let mut error = serde_json::Map::new();
    error.insert("message".to_string(), value.clone());
    error.insert("type".to_string(), Value::from("upstream_error"));
    let mut body = serde_json::Map::new();
    body.insert("error".to_string(), Value::from(error));
    Value::from(body)
}

fn answered(status: StatusCode, headers: &HeaderMap, body: Bytes) -> PreparedResponse {
    let converted = convert_codex_chat_body(status, &body, Ok, upstream_error)
        .expect("convert Chat response");
    build_buffered_codex_chat_response_with_context(
        status,
        headers,
        &body,
        &converted.body,
        &inspection(),
    )
    .expect("build Chat response")
}

fn failed(result: Result<ConvertedChat, ProxyError>) -> String {
    match result {
        Err(ProxyError::RequestFailed(message)) => message,
        _ => panic!("expected a failed request"),
    }
}

#[test]
fn codex_chat_buffered_transform_strips_hop_by_hop_headers() {
    let mut headers = HeaderMap::new();
    headers.insert(CONTENT_TYPE, HeaderValue::from_static("application/json"));
    headers.insert(
        reqwest::header::CONNECTION,
        HeaderValue::from_static("x-trace-hop, keep-alive"),
    );
    headers.insert(
        HeaderName::from_static("x-trace-hop"),
        HeaderValue::from_static("trace"),
    );
    headers.insert(
        HeaderName::from_static("keep-alive"),
        HeaderValue::from_static("timeout=5"),
    );
    headers.insert(
        HeaderName::from_static("proxy-connection"),
        HeaderValue::from_static("keep-alive"),
    );
    headers.insert(
        reqwest::header::UPGRADE,
        HeaderValue::from_static("websocket"),
    );
    headers.insert(
        reqwest::header::CONTENT_ENCODING,
        HeaderValue::from_static("gzip"),
    );
    headers.insert("x-stable-header", HeaderValue::from_static("kept"));

    let prepared = answered(
        reqwest::StatusCode::OK,
        &headers,
        Bytes::from_static(
            br#"{"id":"chatcmpl_123","object":"chat.completion","created":1710000000,"model":"deepseek-chat","choices":[{"index":0,"message":{"role":"assistant","content":"hello"},"finish_reason":"stop"}]}"#,
        ),
    );

    let response_headers = prepared.response.headers();
    assert!(!response_headers.contains_key(reqwest::header::CONNECTION));
    assert!(!response_headers.contains_key("x-trace-hop"));
    assert!(!response_headers.contains_key("keep-alive"));
    assert!(!response_headers.contains_key("proxy-connection"));
    assert!(!response_headers.contains_key(reqwest::header::UPGRADE));
    assert!(!response_headers.contains_key(reqwest::header::CONTENT_ENCODING));
    assert_eq!(
        response_headers
            .get("x-stable-header")
            .and_then(|value| value.to_str().ok()),
        Some("kept")
    );
}

#[test]
fn codex_chat_buffered_error_converts_non_json_body_to_responses_error() {
    let mut headers = HeaderMap::new();
    headers.insert(CONTENT_TYPE, HeaderValue::from_static("text/plain"));

    let prepared = answered(
        reqwest::StatusCode::BAD_GATEWAY,
        &headers,
        Bytes::from_static(b"upstream unavailable"),
    );

    assert_eq!(prepared.response.status(), StatusCode::BAD_GATEWAY);
    assert_eq!(
        prepared
            .response
            .headers()
            .get(CONTENT_TYPE)
            .and_then(|value| value.to_str().ok()),
        Some("application/json")
    );
    let body: serde_json::Value =
        serde_json::from_slice(&buffered_body(prepared.response)).expect("response json");
    assert_eq!(body["error"]["message"], "upstream unavailable");
    assert_eq!(body["error"]["type"], "upstream_error");
}

#[test]
fn chat_answer_has_one_content_type() {
    let mut headers = HeaderMap::new();
    headers.append("content-type", HeaderValue::from_static("text/plain"));
    headers.append("content-type", HeaderValue::from_static("text/html"));
    let prepared = answered(StatusCode::BAD_GATEWAY, &headers, Bytes::from_static(b"down"));
    let sent = prepared.response.headers();
    assert_eq!(sent.get_all("content-type").iter().count(), 1);
    assert_eq!(sent["content-type"], "application/json");
    assert_eq!(headers.len(), 2);
    assert_eq!(prepared.upstream_error_summary.as_deref(), Some("4 bytes"));
    let written = br#"{"error":{"message":"down","type":"upstream_error"}}"#;
    assert_eq!(prepared.body_bytes, Some(Bytes::from_static(written)));
    assert_eq!(prepared.estimated_output_tokens, written.len() as u64);
}

#[test]
fn completions_are_recorded_and_errors_are_not() {
    let body = Bytes::from_static(br#"{"id":1}"#);
    let success = convert_codex_chat_body(
        StatusCode::OK,
        &body,
        |value| Ok(value["id"].clone()),
        |_| panic!("no error to explain"),
    )
    .expect("a converted completion");
    assert!(success.record);
    assert_eq!(success.body, Value::from(1));

    let error = convert_codex_chat_body(
        StatusCode::INTERNAL_SERVER_ERROR,
        &body,
        |_| panic!("no completion to convert"),
        |value| value["id"].clone(),
    )
    .expect("an explained error");
    assert!(!error.record);
    assert_eq!(error.body, Value::from(1));
}

#[test]
fn completions_that_cannot_be_converted_are_failed_requests() {
    let explain = |_: &Value| Value::Null;
    let parse = failed(convert_codex_chat_body(
        StatusCode::OK,
        &Bytes::from_static(b"{not-json"),
        Ok,
        explain,
    ));
    let text = serde_json::from_str::<Value>("{not-json")
        .expect_err("no JSON")
        .to_string();
    assert_eq!(parse, format!("parse upstream chat json failed: {text}"));

    let transform = failed(convert_codex_chat_body(
        StatusCode::OK,
        &Bytes::from_static(b"{}"),
        |_| Err(ProxyError::TransformError("no choices".to_string())),
        explain,
    ));
    assert_eq!(
        transform,
        "transform upstream chat json failed: no choices"
    );
    let refused = failed(accept_converted_chat(Err(ProxyError::Internal(
        "broken".to_string(),
    ))));
    assert_eq!(refused, "transform upstream chat json failed: broken");
    let accepted = accept_converted_chat(Ok(Value::from(3))).expect("accepted");
    assert!(accepted.record);
    assert_eq!(accepted.body, Value::from(3));
}

#[test]
fn chat_is_converted_from_the_decoded_body() {
    let mut headers = HeaderMap::new();
    headers.insert("content-encoding", HeaderValue::from_static("unknown"));
    headers.insert("x-kept", HeaderValue::from_static("yes"));
    let mut trouble = None;
    let chat = build_codex_chat_response_with_context(
        StatusCode::OK,
        &headers,
        BodyRead::Complete(Bytes::from_static(b"[2]")),
        &mut trouble,
        |value| Ok(value[0].clone()),
        upstream_error,
    )
    .ok()
    .expect("a converted completion");
    assert!(matches!(trouble, Some(EncodingTrouble::Unknown(_))));
    assert!(chat.answer.record);
    assert_eq!(chat.answer.body, Value::from(2));
    assert_eq!(chat.body, Bytes::from_static(b"[2]"));
    assert_eq!(chat.headers.len(), 1);

    match build_codex_chat_response_with_context(
        StatusCode::OK,
        &headers,
        BodyRead::Failed("reset".to_string()),
        &mut trouble,
        Ok,
        upstream_error,
    ) {
        Err(ProxyError::RequestFailed(message)) => {
            assert_eq!(message, "read response body failed: reset");
        }
        _ => panic!("expected a failed request"),
    }
}

#[test]
fn error_bodies_are_documents_or_text() {
    assert_eq!(parse_codex_chat_error_body(b"[1]"), {
        serde_json::from_str::<Value>("[1]").expect("JSON")
    });
    assert_eq!(parse_codex_chat_error_body(b"down"), Value::from("down"));
    assert_eq!(parse_codex_chat_error_body(b""), Value::from(""));
    assert_eq!(
        parse_codex_chat_error_body("zu sp\u{e4}t \u{20ac}".as_bytes()),
        Value::from("zu sp\u{e4}t \u{20ac}")
    );
    assert_eq!(
        parse_codex_chat_error_body(b"a\xffb"),
        Value::from("a\u{fffd}b")
    );
}

#[test]
fn long_texts_are_cut_at_a_character() {
    let fits = "x".repeat(MAX_RAW_ERROR_BYTES);
    assert_eq!(shorten(fits.clone()), fits);
    assert_eq!(
        shorten(format!("{fits}y")),
        format!("{fits}...(truncated)")
    );

    // The euro sign takes three bytes: 341 of them take 1023, and one more does not fit.
    let euros = "\u{20ac}".repeat(342);
    assert_eq!(
        shorten(euros),
        format!("{}...(truncated)", "\u{20ac}".repeat(341))
    );
    let shifted = format!("x{}", "\u{20ac}".repeat(342));
    assert_eq!(
        shorten(shifted),
        format!("x{}...(truncated)", "\u{20ac}".repeat(341))
    );
    assert_eq!(
        parse_codex_chat_error_body("y".repeat(2000).as_bytes()),
        Value::from(format!("{}...(truncated)", "y".repeat(1024)))
    );
}
