use axum::body::{to_bytes, Body};
use axum::http::header::HeaderMap;
use axum::http::StatusCode;
use bytes::Bytes;
use futures::executor::block_on;
use proxy_response::completion::StreamCompletion;
use proxy_response::encoding::EncodingTrouble;
use proxy_response::error::{
    proxy_error_message, should_passthrough_transform_failure, ProxyError,
};
use proxy_response::response::{Inspection, PreparedResponse};
use proxy_response::stream::{
    next_chunk_with_timeout, with_stream_timeouts, ChunkWait, StreamAction, StreamError,
    StreamTimeoutPhase,
};
use proxy_response::upstream::{
    anthropic_source, build_anthropic_stream_response,
    build_codex_chat_stream_response_with_context, build_json_response,
    build_passthrough_response, plan_passthrough_response, prepare_stream, read_buffered_body,
    read_decoded_buffered_response, AnthropicSource, BodyRead, PassthroughPlan, StreamKind,
};
use serde_json::Value;
use std::time::Duration;

type Plain = Inspection<
    fn(&Bytes) -> Option<String>,
    fn(&Value) -> Option<String>,
    fn(&Bytes) -> u64,
>;

fn inspection() -> Plain {
    Inspection {
        summarize_body: |_: &Bytes| Some("bad".to_string()),
        summarize_json: |_: &Value| None,
        estimate_tokens: |body: &Bytes| body.len() as u64,
    }
}

fn upstream(status: u16, fields: &[(&str, &str)]) -> reqwest::Response {
    let mut builder = axum::http::Response::builder().status(status);
    for (name, value) in fields {
        builder = builder.header(*name, *value);
    }
    reqwest::Response::from(builder.body("data: 1\n\n").expect("a response"))
}

fn chunk(text: &'static str) -> Option<Result<Bytes, StreamError>> {
    Some(Ok(Bytes::from_static(text.as_bytes())))
}

fn failure(message: &str) -> Option<Result<Bytes, StreamError>> {
    Some(Err(StreamError { timed_out: false, message: message.to_string() }))
}

fn delivered(action: StreamAction) -> Option<Bytes> {
    match action {
        StreamAction::Deliver(bytes) => Some(bytes),
        _ => None,
    }
}

fn message_of(result: Result<PreparedResponse, ProxyError>) -> String {
    match result {
        Ok(_) => panic!("expected a failure"),
        Err(error) => proxy_error_message(error),
    }
}

#[test]
fn timeout_messages_name_whole_seconds() {
    let first = |timeout| StreamTimeoutPhase::FirstByte.error_message(timeout);
    let idle = |timeout| StreamTimeoutPhase::Idle.error_message(timeout);
    assert_eq!(first(Duration::from_secs(30)), "stream timeout after 30s");
    assert_eq!(idle(Duration::from_secs(90)), "stream idle timeout after 90s");
    assert_eq!(first(Duration::ZERO), "stream timeout after 0s");
    assert_eq!(first(Duration::from_nanos(1)), "stream timeout after 1s");
    assert_eq!(idle(Duration::from_millis(999)), "stream idle timeout after 1s");
    assert_eq!(idle(Duration::from_millis(1999)), "stream idle timeout after 1s");
    assert_eq!(
        first(Duration::from_secs(u64::MAX)),
        "stream timeout after 18446744073709551615s"
    );
}

#[test]
fn first_recorded_outcome_stays() {
    let mut completion = StreamCompletion::default();
    assert_eq!(completion.outcome(), None);
    completion.record_error("broken".to_string());
    completion.record_success();
    completion.record_error("again".to_string());
    assert_eq!(completion.outcome(), Some(Err("broken".to_string())));

    let mut other = StreamCompletion::default();
    other.record_success();
    other.record_error("late".to_string());
    assert_eq!(other.outcome(), Some(Ok(())));
}

#[test]
fn waits_become_items() {
    match next_chunk_with_timeout(
        StreamTimeoutPhase::Idle,
        ChunkWait::TimedOut(Duration::from_secs(2)),
    ) {
        Some(Err(error)) => {
            assert!(error.timed_out);
            assert_eq!(error.message, "stream idle timeout after 2s");
        }
        _ => panic!("a time limit that passed is a failure"),
    }
    match next_chunk_with_timeout(
        StreamTimeoutPhase::FirstByte,
        ChunkWait::Arrived(Some(Err("reset".to_string()))),
    ) {
        Some(Err(error)) => {
            assert!(!error.timed_out);
            assert_eq!(error.message, "reset");
        }
        _ => panic!("a failure of upstream is a failure"),
    }
    match next_chunk_with_timeout(
        StreamTimeoutPhase::FirstByte,
        ChunkWait::Arrived(Some(Ok(Bytes::from_static(b"x")))),
    ) {
        Some(Ok(bytes)) => assert_eq!(bytes, Bytes::from_static(b"x")),
        _ => panic!("a chunk is a chunk"),
    }
    assert!(
        next_chunk_with_timeout(StreamTimeoutPhase::Idle, ChunkWait::Arrived(None)).is_none()
    );
}

#[test]
fn chunks_are_relayed_until_the_end() {
    let first = Some(Duration::from_secs(1));
    let idle = Some(Duration::from_secs(2));
    let mut completion = StreamCompletion::default();
    let mut relay = with_stream_timeouts(first, idle);

    let (limit, phase) = relay.next_wait();
    assert_eq!(limit, first);
    assert!(matches!(phase, StreamTimeoutPhase::FirstByte));
    assert_eq!(
        delivered(relay.step(chunk("a"), Some(&mut completion))),
        Some(Bytes::from_static(b"a"))
    );
    let (limit, phase) = relay.next_wait();
    assert_eq!(limit, idle);
    assert!(matches!(phase, StreamTimeoutPhase::Idle));
    assert_eq!(
        delivered(relay.step(chunk("b"), Some(&mut completion))),
        Some(Bytes::from_static(b"b"))
    );
    assert_eq!(completion.outcome(), None);
    assert!(matches!(
        relay.step(None, Some(&mut completion)),
        StreamAction::Finish
    ));
    assert_eq!(completion.outcome(), Some(Ok(())));
}

#[test]
fn failure_ends_the_relay() {
    let mut completion = StreamCompletion::default();
    let mut relay = with_stream_timeouts(None, None);
    match relay.step(failure("reset"), Some(&mut completion)) {
        StreamAction::Fail(error) => assert_eq!(error.message, "reset"),
        _ => panic!("the failure is handed over"),
    }
    assert_eq!(completion.outcome(), Some(Err("reset".to_string())));
    assert!(matches!(
        relay.step(chunk("late"), Some(&mut completion)),
        StreamAction::Finish
    ));
    assert!(matches!(
        relay.step(None, Some(&mut completion)),
        StreamAction::Finish
    ));
    assert_eq!(completion.outcome(), Some(Err("reset".to_string())));
}

#[test]
fn relay_runs_without_anyone_keeping_track() {
    let mut relay = with_stream_timeouts(None, None);
    assert_eq!(
        delivered(relay.step(chunk("a"), None)),
        Some(Bytes::from_static(b"a"))
    );
    assert!(matches!(relay.step(failure("x"), None), StreamAction::Fail(_)));
    assert!(matches!(relay.step(None, None), StreamAction::Finish));
}

#[test]
fn body_that_did_not_come_in_is_a_failure() {
    assert_eq!(
        read_buffered_body(BodyRead::Complete(Bytes::from_static(b"x"))).expect("the body"),
        Bytes::from_static(b"x")
    );
    match read_buffered_body(BodyRead::Failed("reset".to_string())) {
        Err(ProxyError::RequestFailed(message)) => {
            assert_eq!(message, "read response body failed: reset");
        }
        _ => panic!("expected a failed request"),
    }
    match read_buffered_body(BodyRead::TimedOut(Duration::from_secs(7))) {
        Err(ProxyError::Timeout(message)) => assert_eq!(message, "stream timeout after 7s"),
        _ => panic!("expected a timeout"),
    }
}

#[test]
fn body_that_came_in_is_decoded_and_handed_on() {
    let mut headers = HeaderMap::new();
    headers.insert("content-encoding", "unknown".parse().expect("a value"));
    headers.insert("x-kept", "yes".parse().expect("a value"));
    let mut trouble = None;
    let (decoded, body) = read_decoded_buffered_response(
        &headers,
        BodyRead::Complete(Bytes::from_static(b"{}")),
        &mut trouble,
    )
    .expect("the message");
    match trouble.take() {
        Some(EncodingTrouble::Unknown(encoding)) => assert_eq!(encoding, "unknown"),
        other => panic!("the encoding is unknown, got {other:?}"),
    }
    assert_eq!(body, Bytes::from_static(b"{}"));
    assert_eq!(decoded.len(), 1);
    assert_eq!(headers.len(), 2);

    let passed = build_passthrough_response(
        StatusCode::NOT_FOUND,
        &headers,
        BodyRead::Complete(Bytes::from_static(b"{}")),
        &mut trouble,
        &inspection(),
    )
    .expect("the answer");
    assert!(!passed.response.headers().contains_key("content-encoding"));
    assert!(passed.response.headers().contains_key("x-kept"));
    assert_eq!(passed.upstream_error_summary.as_deref(), Some("bad"));
    assert_eq!(passed.body_bytes, Some(Bytes::from_static(b"{}")));

    let transformed = build_json_response(
        StatusCode::OK,
        &headers,
        BodyRead::Complete(Bytes::from_static(b"{}")),
        &mut trouble,
        |_| Ok(Value::from(7)),
        &inspection(),
    )
    .expect("the answer");
    assert_eq!(transformed.body_bytes, Some(Bytes::from_static(b"7")));

    let failed = build_passthrough_response(
        StatusCode::OK,
        &headers,
        BodyRead::Failed("reset".to_string()),
        &mut trouble,
        &inspection(),
    );
    assert!(trouble.is_none());
    assert_eq!(message_of(failed), "read response body failed: reset");
    let late = build_json_response(
        StatusCode::OK,
        &headers,
        BodyRead::TimedOut(Duration::from_millis(1)),
        &mut trouble,
        Ok,
        &inspection(),
    );
    assert_eq!(message_of(late), "stream timeout after 1s");
}

#[test]
fn event_streams_are_streamed_and_the_rest_is_buffered() {
    let plain = upstream(200, &[("content-type", "application/json")]);
    assert!(matches!(
        plan_passthrough_response(&plain),
        PassthroughPlan::Buffer
    ));
    let events = upstream(
        206,
        &[
            ("content-type", "text/event-stream; charset=utf-8"),
            ("content-encoding", "gzip"),
            ("keep-alive", "timeout=5"),
        ],
    );
    match plan_passthrough_response(&events) {
        PassthroughPlan::Stream(builder) => {
            let mut completion = StreamCompletion::default();
            completion.record_success();
            let prepared = prepare_stream(
                StreamKind::Passthrough,
                builder,
                Body::from("data: 1\n\n"),
                completion,
            )
            .expect("a streamed answer");
            assert_eq!(prepared.response.status().as_u16(), 206);
            let sent = prepared.response.headers();
            assert_eq!(sent["content-type"], "text/event-stream; charset=utf-8");
            assert_eq!(sent["content-encoding"], "gzip");
            assert!(!sent.contains_key("keep-alive"));
            assert_eq!(prepared.estimated_output_tokens, 0);
            assert_eq!(prepared.upstream_error_summary, None);
            assert_eq!(prepared.body_bytes, None);
            assert_eq!(
                prepared.stream_completion.map(|c| c.outcome()),
                Some(Some(Ok(())))
            );
            let body = block_on(to_bytes(prepared.response.into_body(), usize::MAX));
            assert_eq!(body.expect("a body"), Bytes::from_static(b"data: 1\n\n"));
        }
        PassthroughPlan::Buffer => panic!("an event stream is streamed"),
    }
}

#[test]
fn rebuilt_streams_are_event_streams() {
    let response = upstream(
        200,
        &[
            ("content-type", "application/json"),
            ("content-encoding", "br"),
            ("x-kept", "yes"),
        ],
    );
    let (builder, source) = build_anthropic_stream_response(&response, "gemini_native");
    assert!(matches!(source, AnthropicSource::Gemini));
    let chat = build_codex_chat_stream_response_with_context(&response);
    for builder in [builder, chat] {
        let built = builder.body(()).expect("a response");
        assert_eq!(built.headers()["content-type"], "text/event-stream");
        assert_eq!(built.headers().get_all("content-type").iter().count(), 1);
        assert!(!built.headers().contains_key("content-encoding"));
        assert_eq!(built.headers()["x-kept"], "yes");
    }
}

#[test]
fn api_format_tells_the_source() {
    assert!(matches!(
        anthropic_source("openai_responses"),
        AnthropicSource::Responses
    ));
    assert!(matches!(
        anthropic_source("gemini_native"),
        AnthropicSource::Gemini
    ));
    for format in ["openai_chat", "", "Gemini_Native", "openai_responses2"] {
        assert!(matches!(
            anthropic_source(format),
            AnthropicSource::ChatCompletions
        ));
    }
}

#[test]
fn gemini_conversion_is_not_handed_the_outcome() {
    assert!(!anthropic_source("gemini_native").conversion_records());
    for format in ["openai_responses", "openai_chat", "", "Gemini_Native"] {
        assert!(anthropic_source(format).conversion_records());
    }
    let response = upstream(200, &[]);
    let (_, source) = build_anthropic_stream_response(&response, "gemini_native");
    assert!(!source.conversion_records());
    assert!(!StreamKind::Anthropic.relay_records());
}

#[test]
fn conversion_to_anthropic_messages_records_the_end_itself() {
    assert!(StreamKind::Passthrough.relay_records());
    assert!(StreamKind::CodexChat.relay_records());
    assert!(!StreamKind::Anthropic.relay_records());
}

#[test]
fn streams_that_cannot_be_built_are_failed_requests() {
    let broken = || axum::http::Response::builder().header("not a name", "v");
    let text = |kind| {
        message_of(prepare_stream(
            kind,
            broken(),
            Body::empty(),
            StreamCompletion::default(),
        ))
    };
    assert_eq!(
        text(StreamKind::Passthrough),
        "build streaming response failed: invalid HTTP header name"
    );
    assert_eq!(
        text(StreamKind::Anthropic),
        "build anthropic stream response failed: invalid HTTP header name"
    );
    assert_eq!(
        text(StreamKind::CodexChat),
        "build Codex Chat stream response failed: invalid HTTP header name"
    );
}

#[test]
fn failures_carry_their_message() {
    let errors = vec![
        ProxyError::ConfigError("m".to_string()),
        ProxyError::AuthError("m".to_string()),
        ProxyError::RequestFailed("m".to_string()),
        ProxyError::TransformError("m".to_string()),
        ProxyError::ForwardFailed("m".to_string()),
        ProxyError::BindFailed("m".to_string()),
        ProxyError::StopFailed("m".to_string()),
        ProxyError::ProviderUnhealthy("m".to_string()),
        ProxyError::DatabaseError("m".to_string()),
        ProxyError::InvalidRequest("m".to_string()),
        ProxyError::Timeout("m".to_string()),
        ProxyError::Internal("m".to_string()),
        ProxyError::Other("m".to_string()),
    ];
    for error in errors {
        let transform = matches!(error, ProxyError::TransformError(_));
        assert!(!should_passthrough_transform_failure(StatusCode::OK, &error));
        assert_eq!(
            should_passthrough_transform_failure(StatusCode::BAD_GATEWAY, &error),
            transform
        );
        assert_eq!(proxy_error_message(error), "m");
    }
}
