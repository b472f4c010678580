//! Responses of the proxy that are built from an upstream response as it comes in.

use axum::body::Body;
use axum::http::header::HeaderMap;
use axum::http::response::Builder;
use axum::http::StatusCode;
use bytes::Bytes;
use serde_json::Value;
use std::time::Duration;
use vstd::prelude::*;

use crate::codex::{convert_codex_chat_body, converts_body, ConvertedChat};
use crate::encoding::{
    decode_noting_trouble, decoded, decoded_message, encoding_of, tells, Decoding, EncodingTrouble,
};
use crate::error::{error_text, is_request_failed, request_failed, ProxyError};
use crate::headers::{copy_headers, forwarded, is_sse, is_sse_response};
use crate::message::{
    builder_draft, bytes_content, clone_fields, crowded, finish_response, header_values,
    http_error_string, response_body, response_head, start_response, upstream_fields,
    upstream_head, upstream_status, Draft, Head, Headers,
};
use crate::response::{
    build_buffered_json_response, build_buffered_passthrough_response, Inspection,
    PreparedResponse,
};
use crate::stream::{duration_nanos, timeout_text, StreamTimeoutPhase};
use crate::text::same;

verus! {

/// What reading a whole body came to.
pub enum BodyRead {
    /// The body came in.
    Complete(Bytes),
    /// Upstream failed; the text says how.
    Failed(String),
    /// The time limit passed first.
    TimedOut(Duration),
}

/// The failure that a body which did not come in leads to.
pub open spec fn is_read_failure(read: BodyRead, error: ProxyError) -> bool {
    match read {
        BodyRead::Complete(_) => false,
        BodyRead::Failed(text) => is_request_failed(error, "read response body failed: "@ + text@),
        BodyRead::TimedOut(timeout) => error is Timeout && error_text(error) == timeout_text(
            StreamTimeoutPhase::FirstByte,
            duration_nanos(timeout),
        ),
    }
}

/// Takes what reading a body came to.
pub fn read_buffered_body(read: BodyRead) -> (result: Result<Bytes, ProxyError>)
    ensures
        match result {
            Ok(body) => read == BodyRead::Complete(body),
            Err(error) => is_read_failure(read, error),
        },
{
    match read {
        BodyRead::Complete(body) => Ok(body),
        BodyRead::Failed(text) => Err(request_failed("read response body failed: ", text.as_str())),
        BodyRead::TimedOut(timeout) => Err(
            ProxyError::Timeout(StreamTimeoutPhase::FirstByte.error_message(timeout)),
        ),
    }
}

/// `trouble` is what stood in the way of decoding the body that was read, if one was.
pub open spec fn read_tells(
    trouble: Option<EncodingTrouble>,
    headers: Headers,
    read: BodyRead,
) -> bool {
    match read {
        BodyRead::Complete(raw_body) => tells(trouble, headers, bytes_content(raw_body)),
        _ => trouble is None,
    }
}

/// Takes what reading a body came to, and decodes it. What stood in the way goes to `trouble`.
pub fn read_decoded_buffered_response(
    headers: &HeaderMap,
    read: BodyRead,
    trouble: &mut Option<EncodingTrouble>,
) -> (result: Result<(HeaderMap, Bytes), ProxyError>)
    ensures
        read_tells(*final(trouble), header_values(*headers), read),
        match result {
            Ok((decoded_headers, body)) => read is Complete && decoded_message(
                header_values(*headers),
                bytes_content(read->Complete_0),
            ) == (header_values(decoded_headers), bytes_content(body)),
            Err(error) => is_read_failure(read, error),
        },
{
    let mut decoded_headers = clone_fields(headers);
    match read_buffered_body(read) {
        Ok(raw_body) => {
            let (body, found) = decode_noting_trouble(&mut decoded_headers, raw_body);
            *trouble = found;
            Ok((decoded_headers, body))
        },
        Err(error) => {
            *trouble = None;
            Err(error)
        },
    }
}

/// Hands on an upstream response whose body was read whole: decoded where that is possible, and
/// otherwise as it is.
pub fn build_passthrough_response<
    B: Fn(&Bytes) -> Option<String>,
    J: Fn(&Value) -> Option<String>,
    T: Fn(&Bytes) -> u64,
>(
    status: StatusCode,
    headers: &HeaderMap,
    read: BodyRead,
    trouble: &mut Option<EncodingTrouble>,
    inspection: &Inspection<B, J, T>,
) -> (result: Result<PreparedResponse, ProxyError>)
    requires
        inspection.is_total(),
    ensures
        read_tells(*final(trouble), header_values(*headers), read),
        match read {
            BodyRead::Complete(raw_body) => {
                let message = decoded_message(header_values(*headers), bytes_content(raw_body));
                inspection.passes_through(status, message.0, message.1, result)
            },
            _ => result is Err && is_read_failure(read, result->Err_0),
        },
{
    match read_decoded_buffered_response(headers, read, trouble) {
        Ok((decoded_headers, body)) => build_buffered_passthrough_response(
            status,
            &decoded_headers,
            body,
            inspection,
        ),
        Err(error) => Err(error),
    }
}

/// Answers with what `transform` makes of an upstream response whose body was read whole.
pub fn build_json_response<
    F: FnOnce(Value) -> Result<Value, ProxyError>,
    B: Fn(&Bytes) -> Option<String>,
    J: Fn(&Value) -> Option<String>,
    T: Fn(&Bytes) -> u64,
>(
    status: StatusCode,
    headers: &HeaderMap,
    read: BodyRead,
    trouble: &mut Option<EncodingTrouble>,
    transform: F,
    inspection: &Inspection<B, J, T>,
) -> (result: Result<PreparedResponse, ProxyError>)
    requires
        inspection.is_total(),
        forall|value: Value| #[trigger] transform.requires((value,)),
    ensures
        read_tells(*final(trouble), header_values(*headers), read),
        match read {
            BodyRead::Complete(raw_body) => {
                let message = decoded_message(header_values(*headers), bytes_content(raw_body));
                inspection.answers_json(status, message.0, message.1, transform, result)
            },
            _ => result is Err && is_read_failure(read, result->Err_0),
        },
{
    match read_decoded_buffered_response(headers, read, trouble) {
        Ok((decoded_headers, body)) => build_buffered_json_response(
            status,
            &decoded_headers,
            body,
            transform,
            inspection,
        ),
        Err(error) => Err(error),
    }
}

/// A chat completion that was read whole and converted, with the message that it was converted
/// from.
pub struct ReadChat {
    pub headers: HeaderMap,
    pub body: Bytes,
    pub answer: ConvertedChat,
}

/// Converts an upstream chat completion whose body was read whole. Once the history has what
/// belongs there, the answer is ready to be sent.
pub fn build_codex_chat_response_with_context<
    C: FnOnce(Value) -> Result<Value, ProxyError>,
    E: FnOnce(&Value) -> Value,
>(
    status: StatusCode,
    headers: &HeaderMap,
    read: BodyRead,
    trouble: &mut Option<EncodingTrouble>,
    convert: C,
    explain: E,
) -> (result: Result<ReadChat, ProxyError>)
    requires
        forall|value: Value| #[trigger] convert.requires((value,)),
        forall|value: &Value| #[trigger] explain.requires((value,)),
    ensures
        read_tells(*final(trouble), header_values(*headers), read),
        match read {
            BodyRead::Complete(raw_body) => {
                let message = decoded_message(header_values(*headers), bytes_content(raw_body));
                match result {
                    Ok(chat) => {
                        &&& (header_values(chat.headers), bytes_content(chat.body)) == message
                        &&& converts_body(status, message.1, convert, explain, Ok(chat.answer))
                    },
                    Err(error) => converts_body(status, message.1, convert, explain, Err(error)),
                }
            },
            _ => result is Err && is_read_failure(read, result->Err_0),
        },
{
    match read_decoded_buffered_response(headers, read, trouble) {
        Ok((decoded_headers, body)) => match convert_codex_chat_body(
            status,
            &body,
            convert,
            explain,
        ) {
            Ok(answer) => Ok(ReadChat { headers: decoded_headers, body, answer }),
            Err(error) => Err(error),
        },
        Err(error) => Err(error),
    }
}

/// The kinds of streams that the proxy answers with.
pub enum StreamKind {
    /// The upstream stream as it is.
    Passthrough,
    /// A stream of Anthropic messages.
    Anthropic,
    /// A stream of the Responses API.
    CodexChat,
}

impl StreamKind {
    /// The relay of the upstream stream records how it ended. A stream of Anthropic messages
    /// leaves that to the conversion.
    pub open spec fn relay_reports(self) -> bool {
        !(self is Anthropic)
    }

    /// Whether the relay of the upstream stream records how it ended.
    pub fn relay_records(&self) -> (records: bool)
        ensures
            records == self.relay_reports(),
    {
        !matches!(self, StreamKind::Anthropic)
    }
}

/// What a failure to build a stream of that kind is called.
pub open spec fn stream_failure(kind: StreamKind) -> Seq<char> {
    match kind {
        StreamKind::Passthrough => "build streaming response failed: "@,
        StreamKind::Anthropic => "build anthropic stream response failed: "@,
        StreamKind::CodexChat => "build Codex Chat stream response failed: "@,
    }
}

/// The builder holds the upstream status and the fields that are handed on, or failed over very
/// many of them.
pub open spec fn starts_stream(upstream: Head, rebuilt: bool, draft: Draft) -> bool {
    ||| draft == Draft::Ready(
        Head {
            status: upstream.status,
            headers: forwarded(upstream.headers, rebuilt, rebuilt),
        },
    )
    ||| upstream.headers.dom().len() >= crowded() && draft == Draft::Failed("max size reached"@)
}

/// The head of a streamed answer. A stream that is handed on keeps its header fields; one that is
/// rebuilt is an event stream of its own.
fn start_stream(response: &reqwest::Response, rebuilt: bool) -> (builder: Builder)
    ensures
        starts_stream(upstream_head(*response), rebuilt, builder_draft(builder)),
{
    let mut builder = start_response(upstream_status(response));
    copy_headers(&mut builder, upstream_fields(response), rebuilt, rebuilt);
    builder
}

/// How an upstream response is handed on.
pub enum PassthroughPlan {
    /// As a stream, with that head.
    Stream(Builder),
    /// After its body has been read whole.
    Buffer,
}

/// Decides how an upstream response is handed on: event streams are streamed, and everything else
/// is read whole first.
pub fn plan_passthrough_response(response: &reqwest::Response) -> (plan: PassthroughPlan)
    ensures
        match plan {
            PassthroughPlan::Stream(builder) => is_sse(upstream_head(*response).headers)
                && starts_stream(upstream_head(*response), false, builder_draft(builder)),
            PassthroughPlan::Buffer => !is_sse(upstream_head(*response).headers),
        },
{
    if is_sse_response(response) {
        PassthroughPlan::Stream(start_stream(response, false))
    } else {
        PassthroughPlan::Buffer
    }
}

/// What an upstream stream is made of, by the API format that it was requested in.
pub enum AnthropicSource {
    /// Events of the Responses API.
    Responses,
    /// Chunks of the Gemini API.
    Gemini,
    /// Chunks of chat completions.
    ChatCompletions,
}

impl AnthropicSource {
    /// The conversion to Anthropic messages is handed the outcome and records how the stream
    /// ended. That of Gemini chunks is not.
    pub open spec fn conversion_reports(self) -> bool {
        !(self is Gemini)
    }

    /// Whether the conversion to Anthropic messages is handed the outcome to record.
    pub fn conversion_records(&self) -> (records: bool)
        ensures
            records == self.conversion_reports(),
    {
        !matches!(self, AnthropicSource::Gemini)
    }
}

/// What an upstream stream in that API format is made of.
pub open spec fn source_of(api_format: Seq<char>) -> AnthropicSource {
    if api_format == "openai_responses"@ {
        AnthropicSource::Responses
    } else if api_format == "gemini_native"@ {
        AnthropicSource::Gemini
    } else {
        AnthropicSource::ChatCompletions
    }
}

/// What an upstream stream in that API format is made of.
pub fn anthropic_source(api_format: &str) -> (source: AnthropicSource)
    ensures
        source == source_of(api_format@),
{
    if same(api_format, "openai_responses") {
        AnthropicSource::Responses
    } else if same(api_format, "gemini_native") {
        AnthropicSource::Gemini
    } else {
        AnthropicSource::ChatCompletions
    }
}

/// Starts the answer to a request for a stream of Anthropic messages: its head, and what the
/// upstream stream has to be converted from.
pub fn build_anthropic_stream_response(response: &reqwest::Response, api_format: &str) -> (start: (
    Builder,
    AnthropicSource,
))
    ensures
        starts_stream(upstream_head(*response), true, builder_draft(start.0)),
        start.1 == source_of(api_format@),
        start.1.conversion_reports() == (api_format@ != "gemini_native"@),
{
    proof {
        only_gemini_leaves_the_outcome_open(api_format@);
    }
    (start_stream(response, true), anthropic_source(api_format))
}

/// Starts the answer to a request for a stream of the Responses API.
pub fn build_codex_chat_stream_response_with_context(response: &reqwest::Response) -> (builder:
    Builder)
    ensures
        starts_stream(upstream_head(*response), true, builder_draft(builder)),
{
    start_stream(response, true)
}

/// Attaches the body to a streamed answer that was started, and keeps the handle on how the stream
/// will end.
pub fn prepare_stream<C>(
    kind: StreamKind,
    builder: Builder,
    body: Body,
    stream_completion: C,
) -> (result: Result<PreparedResponse<C>, ProxyError>)
    ensures
        match builder_draft(builder) {
            Draft::Ready(head) => {
                &&& result is Ok
                &&& response_head(result->Ok_0.response) == head
                &&& response_body(result->Ok_0.response) == body
                &&& result->Ok_0.stream_completion == Some(stream_completion)
                &&& result->Ok_0.estimated_output_tokens == 0
                &&& result->Ok_0.upstream_error_summary is None
                &&& result->Ok_0.body_bytes is None
            },
            Draft::Failed(text) => result is Err && is_request_failed(
                result->Err_0,
                stream_failure(kind) + text,
            ),
        },
{
    match finish_response(builder, body) {
        Ok(response) => Ok(PreparedResponse::streaming(response, stream_completion)),
        Err(error) => {
            let what = match kind {
                StreamKind::Passthrough => "build streaming response failed: ",
                StreamKind::Anthropic => "build anthropic stream response failed: ",
                StreamKind::CodexChat => "build Codex Chat stream response failed: ",
            };
            Err(request_failed(what, http_error_string(&error).as_str()))
        },
    }
}

/// Of the streams of Anthropic messages, exactly those in the Gemini format have nobody who records
/// how they ended: the relay records none of them, and the conversion all others.
pub proof fn only_gemini_leaves_the_outcome_open(api_format: Seq<char>)
    ensures
        !StreamKind::Anthropic.relay_reports(),
        source_of(api_format).conversion_reports() <==> api_format != "gemini_native"@,
{
    reveal_strlit("openai_responses");
    reveal_strlit("gemini_native");
    assert("openai_responses"@.len() != "gemini_native"@.len());
}

/// A body that was decoded reaches the client in its plain form, and no header field says anything
/// else of it.
pub proof fn decoded_body_is_handed_on_plain(headers: Headers, body: Seq<u8>, plain: Seq<u8>)
    requires
        encoding_of(headers) is Some,
        decoded(encoding_of(headers)->Some_0, body) == Decoding::Plain(plain),
    ensures
        ({
            let message = decoded_message(headers, body);
            let sent = forwarded(message.0, false, false);
            &&& message.1 == plain
            &&& !sent.contains_key("content-encoding"@)
            &&& !sent.contains_key("content-length"@)
            &&& !sent.contains_key("transfer-encoding"@)
        }),
{
}

} // verus!
