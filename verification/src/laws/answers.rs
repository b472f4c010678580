//! What the proxy answers with.

use axum::body::Body;
use axum::http::header::HeaderMap;
use axum::http::response::Builder;
use axum::http::StatusCode;
use bytes::Bytes;
use serde_json::Value;
use vstd::prelude::*;

use crate::encoding::{decode_noting_trouble, EncodingTrouble};
use crate::error::{
    error_text, proxy_error_message, should_passthrough_transform_failure, ProxyError,
};
use crate::headers::copy_headers;
use crate::json::{json, json_error_text, read_slice, write_vec, Json, Reading, Writing};
use crate::laws::bodies::same_trouble;
use crate::laws::fields::{announces_events, lemma_announces};
use crate::laws::wording::spells;
use crate::message::{
    body_content, builder_draft, bytes_content, header_values, response_body, response_head,
    status_code, upstream_head, Draft, Head,
};
use crate::response::{
    build_buffered_json_response, build_buffered_passthrough_response,
    build_transformed_json_response, build_written_json_response, Inspection, PreparedResponse,
};
use crate::stream::{duration_nanos, timeout_text, StreamTimeoutPhase};
use crate::upstream::{
    anthropic_source, build_anthropic_stream_response,
    build_codex_chat_stream_response_with_context, build_json_response,
    build_passthrough_response, plan_passthrough_response, prepare_stream, AnthropicSource,
    BodyRead, PassthroughPlan, StreamKind,
};

verus! {

/// A failure carries the message that it was made with, whatever kind of failure it is.
pub proof fn failures_carry_their_own_message(error: ProxyError, message: String)
    requires
        proxy_error_message.ensures((error,), message),
    ensures
        message@ == error_text(error),
        match error {
            ProxyError::ConfigError(own) => message@ == own@,
            ProxyError::AuthError(own) => message@ == own@,
            ProxyError::RequestFailed(own) => message@ == own@,
            ProxyError::TransformError(own) => message@ == own@,
            ProxyError::ForwardFailed(own) => message@ == own@,
            ProxyError::BindFailed(own) => message@ == own@,
            ProxyError::StopFailed(own) => message@ == own@,
            ProxyError::ProviderUnhealthy(own) => message@ == own@,
            ProxyError::DatabaseError(own) => message@ == own@,
            ProxyError::InvalidRequest(own) => message@ == own@,
            ProxyError::Timeout(own) => message@ == own@,
            ProxyError::Internal(own) => message@ == own@,
            ProxyError::Other(own) => message@ == own@,
        },
{
}

/// Only an upstream error that could not be transformed is handed on as it is.
pub proof fn only_untransformed_errors_are_handed_on(
    status: StatusCode,
    error: &ProxyError,
    yes: bool,
)
    requires
        should_passthrough_transform_failure.ensures((status, error), yes),
    ensures
        yes <==> !(200 <= status_code(status) <= 299) && *error is TransformError,
{
}

/// The result is a failed request with that message.
pub open spec fn fails_saying(
    result: Result<PreparedResponse, ProxyError>,
    message: Seq<char>,
) -> bool {
    &&& result is Err
    &&& result->Err_0 is RequestFailed
    &&& result->Err_0->RequestFailed_0@ == message
}

/// The response was built with that head and exactly those bytes, which the proxy keeps too and
/// estimates the tokens from.
pub open spec fn is_sent<
    B: Fn(&Bytes) -> Option<String>,
    J: Fn(&Value) -> Option<String>,
    T: Fn(&Bytes) -> u64,
>(
    inspection: Inspection<B, J, T>,
    prepared: PreparedResponse,
    head: Head,
    body: Seq<u8>,
) -> bool {
    &&& response_head(prepared.response) == head
    &&& body_content(response_body(prepared.response)) == body
    &&& prepared.stream_completion is None
    &&& prepared.body_bytes is Some
    &&& bytes_content(prepared.body_bytes->Some_0) == body
    &&& inspection.estimate_tokens.ensures(
        (&prepared.body_bytes->Some_0,),
        prepared.estimated_output_tokens,
    )
}

/// `sent` is `copied` with one content type more, at the end, which reads `application/json`.
pub open spec fn is_json_head(copied: Head, sent: Head) -> bool {
    &&& sent.status == copied.status
    &&& sent.headers.contains_key("content-type"@)
    &&& sent.headers["content-type"@].len() > 0
    &&& spells(sent.headers["content-type"@].last(), "application/json"@)
    &&& copied.headers.contains_key("content-type"@) ==> sent.headers["content-type"@].drop_last()
        == copied.headers["content-type"@]
    &&& !copied.headers.contains_key("content-type"@) ==> sent.headers["content-type"@].len() == 1
    &&& forall|name: Seq<char>|
        name != "content-type"@ ==> (#[trigger] sent.headers.contains_key(name)
            <==> copied.headers.contains_key(name)) && (copied.headers.contains_key(name)
            ==> sent.headers[name] == copied.headers[name])
}

/// The upstream response is handed on with the head that was copied and its own bytes. An error is
/// summed up from its body, and a success is not. Only a head with 6554 names or more can fail.
pub open spec fn is_handed_on<
    B: Fn(&Bytes) -> Option<String>,
    J: Fn(&Value) -> Option<String>,
    T: Fn(&Bytes) -> u64,
>(
    inspection: Inspection<B, J, T>,
    names: nat,
    copied: Head,
    body: Seq<u8>,
    result: Result<PreparedResponse, ProxyError>,
) -> bool {
    &&& names < 6554 ==> result is Ok
    &&& result is Err ==> fails_saying(
        result,
        "build passthrough response failed: "@ + "max size reached"@,
    )
    &&& result is Ok ==> is_sent(inspection, result->Ok_0, copied, body)
    &&& result is Ok && 200 <= copied.status <= 299 ==> result->Ok_0.upstream_error_summary is None
    &&& result is Ok && !(200 <= copied.status <= 299) ==> inspection.summarize_body.ensures(
        (&result->Ok_0.body_bytes->Some_0,),
        result->Ok_0.upstream_error_summary,
    )
}

/// A body that was written anew is sent as JSON, with those bytes and that summary. Only a head
/// with 6554 names or more can fail.
pub open spec fn is_sent_as_json<
    B: Fn(&Bytes) -> Option<String>,
    J: Fn(&Value) -> Option<String>,
    T: Fn(&Bytes) -> u64,
>(
    inspection: Inspection<B, J, T>,
    names: nat,
    copied: Head,
    bytes: Seq<u8>,
    failure: Seq<char>,
    result: Result<PreparedResponse, ProxyError>,
) -> bool {
    &&& names < 6554 ==> result is Ok
    &&& result is Err ==> fails_saying(result, failure + "max size reached"@)
    &&& result is Ok ==> is_json_head(copied, response_head(result->Ok_0.response))
    &&& result is Ok ==> is_sent(
        inspection,
        result->Ok_0,
        response_head(result->Ok_0.response),
        bytes,
    )
}

/// A buffered response is handed on with its own status and bytes, and with the fields that
/// `copy_headers` copies to a fresh answer.
pub proof fn buffered_response_is_handed_on<
    B: Fn(&Bytes) -> Option<String>,
    J: Fn(&Value) -> Option<String>,
    T: Fn(&Bytes) -> u64,
>(
    status: StatusCode,
    headers: &HeaderMap,
    body: Bytes,
    inspection: &Inspection<B, J, T>,
    result: Result<PreparedResponse, ProxyError>,
    fresh: &mut Builder,
    copied: Head,
)
    requires
        build_buffered_passthrough_response::<B, J, T>.ensures(
            (status, headers, body, inspection),
            result,
        ),
        builder_draft(*old(fresh)) == Draft::Ready(
            Head { status: status_code(status), headers: Map::empty() },
        ),
        copy_headers.ensures((fresh, headers, false, false), ()),
        builder_draft(*final(fresh)) == Draft::Ready(copied),
    ensures
        copied.status == status_code(status),
        is_handed_on(
            *inspection,
            header_values(*headers).dom().len(),
            copied,
            bytes_content(body),
            result,
        ),
{
}

pub(crate) proof fn lemma_json_head(copied: Head, sent: Head)
    requires
        sent.status == copied.status,
        sent.headers == crate::message::with_field(
            copied.headers,
            "content-type"@,
            crate::message::ascii_bytes("application/json"@),
        ),
    ensures
        is_json_head(copied, sent),
{
    if copied.headers.contains_key("content-type"@) {
        assert(sent.headers["content-type"@].drop_last() =~= copied.headers["content-type"@]);
    }
}

/// Bytes that were written are sent as JSON, with the summary that was noted; a failure to write
/// them is reported.
pub proof fn written_bytes_are_sent<
    B: Fn(&Bytes) -> Option<String>,
    J: Fn(&Value) -> Option<String>,
    T: Fn(&Bytes) -> u64,
>(
    status: StatusCode,
    headers: &HeaderMap,
    summary: Option<String>,
    written: Result<Vec<u8>, serde_json::Error>,
    write_failure: &str,
    build_failure: &str,
    inspection: &Inspection<B, J, T>,
    result: Result<PreparedResponse, ProxyError>,
    fresh: &mut Builder,
    copied: Head,
)
    requires
        build_written_json_response::<B, J, T>.ensures(
            (status, headers, summary, written, write_failure, build_failure, inspection),
            result,
        ),
        builder_draft(*old(fresh)) == Draft::Ready(
            Head { status: status_code(status), headers: Map::empty() },
        ),
        copy_headers.ensures((fresh, headers, false, true), ()),
        builder_draft(*final(fresh)) == Draft::Ready(copied),
    ensures
        copied.status == status_code(status),
        written is Ok ==> is_sent_as_json(
            *inspection,
            header_values(*headers).dom().len(),
            copied,
            written->Ok_0@,
            build_failure@,
            result,
        ),
        written is Ok && result is Ok ==> result->Ok_0.upstream_error_summary == summary,
        written is Err ==> fails_saying(result, write_failure@ + json_error_text(written->Err_0)),
{
    if written is Ok && result is Ok {
        lemma_json_head(copied, response_head(result->Ok_0.response));
    }
}

/// What a transformation made of a body is sent. A transformation of a success that failed is a
/// failed request; of an error, the upstream response is handed on if it could not be transformed,
/// and any other failure is the result.
pub proof fn outcome_of_a_transformation_decides<
    B: Fn(&Bytes) -> Option<String>,
    J: Fn(&Value) -> Option<String>,
    T: Fn(&Bytes) -> u64,
>(
    status: StatusCode,
    headers: &HeaderMap,
    body: Bytes,
    summary: Option<String>,
    outcome: Result<Value, ProxyError>,
    inspection: &Inspection<B, J, T>,
    result: Result<PreparedResponse, ProxyError>,
    fresh: &mut Builder,
    copied: Head,
    anew: &mut Builder,
    rebuilt: Head,
)
    requires
        build_transformed_json_response::<B, J, T>.ensures(
            (status, headers, body, summary, outcome, inspection),
            result,
        ),
        builder_draft(*old(fresh)) == Draft::Ready(
            Head { status: status_code(status), headers: Map::empty() },
        ),
        copy_headers.ensures((fresh, headers, false, false), ()),
        builder_draft(*final(fresh)) == Draft::Ready(copied),
        builder_draft(*old(anew)) == Draft::Ready(
            Head { status: status_code(status), headers: Map::empty() },
        ),
        copy_headers.ensures((anew, headers, false, true), ()),
        builder_draft(*final(anew)) == Draft::Ready(rebuilt),
    ensures
        match outcome {
            Ok(value) => match write_vec(json(value)) {
                Writing::Written(bytes) => {
                    &&& is_sent_as_json(
                        *inspection,
                        header_values(*headers).dom().len(),
                        rebuilt,
                        bytes,
                        "build transformed response failed: "@,
                        result,
                    )
                    &&& result is Ok ==> result->Ok_0.upstream_error_summary == summary
                },
                Writing::Failed(text) => fails_saying(
                    result,
                    "serialize transformed json failed: "@ + text,
                ),
            },
            Err(error) => if 200 <= status_code(status) <= 299 {
                fails_saying(result, "transform upstream json failed: "@ + error_text(error))
            } else if error is TransformError {
                is_handed_on(
                    *inspection,
                    header_values(*headers).dom().len(),
                    copied,
                    bytes_content(body),
                    result,
                )
            } else {
                result == Err::<PreparedResponse, ProxyError>(error)
            },
        },
{
    if outcome is Ok && write_vec(json(outcome->Ok_0)) is Written && result is Ok {
        lemma_json_head(rebuilt, response_head(result->Ok_0.response));
    }
}

/// Whatever `transform` makes of that document, it is the document `made`.
pub open spec fn always_makes<F: FnOnce(Value) -> Result<Value, ProxyError>>(
    transform: F,
    document: Json,
    made: Json,
) -> bool {
    forall|value: Value, outcome: Result<Value, ProxyError>|
        json(value) == document && #[trigger] transform.ensures((value,), outcome) ==> outcome is Ok
            && json(outcome->Ok_0) == made
}

/// `transform` never transforms that document: it always fails, saying `text`.
pub open spec fn always_fails<F: FnOnce(Value) -> Result<Value, ProxyError>>(
    transform: F,
    document: Json,
    text: Seq<char>,
) -> bool {
    forall|value: Value, outcome: Result<Value, ProxyError>|
        json(value) == document && #[trigger] transform.ensures((value,), outcome)
            ==> outcome is Err && error_text(outcome->Err_0) == text
}

/// `transform` always says of that document that it cannot be transformed.
pub open spec fn always_declines<F: FnOnce(Value) -> Result<Value, ProxyError>>(
    transform: F,
    document: Json,
) -> bool {
    forall|value: Value, outcome: Result<Value, ProxyError>|
        json(value) == document && #[trigger] transform.ensures((value,), outcome)
            ==> outcome is Err && outcome->Err_0 is TransformError
}

/// `transform` always fails on that document, and never because it cannot be transformed.
pub open spec fn always_breaks<F: FnOnce(Value) -> Result<Value, ProxyError>>(
    transform: F,
    document: Json,
) -> bool {
    forall|value: Value, outcome: Result<Value, ProxyError>|
        json(value) == document && #[trigger] transform.ensures((value,), outcome)
            ==> outcome is Err && !(outcome->Err_0 is TransformError)
}

/// The answer to a JSON body, by what `transform` makes of the document that it holds:
/// - where it always makes `made`, that is what the client gets, whatever the status and whatever
///   the document holds;
/// - where it always fails, a success is a failed request; an error is handed on as it is if it
///   cannot be transformed, and otherwise the failure is the result.
///
/// A body that is no JSON is handed on if it is an error, and a failed request if it is not. Only
/// errors are summed up.
pub open spec fn is_answered<
    F: FnOnce(Value) -> Result<Value, ProxyError>,
    B: Fn(&Bytes) -> Option<String>,
    J: Fn(&Value) -> Option<String>,
    T: Fn(&Bytes) -> u64,
>(
    inspection: Inspection<B, J, T>,
    names: nat,
    copied: Head,
    rebuilt: Head,
    body: Seq<u8>,
    transform: F,
    result: Result<PreparedResponse, ProxyError>,
) -> bool {
    let success = 200 <= copied.status <= 299;
    match read_slice(body) {
        Reading::Document(document) => {
            &&& forall|made: Json| #[trigger]
                always_makes(transform, document, made) ==> match write_vec(made) {
                    Writing::Written(bytes) => is_sent_as_json(
                        inspection,
                        names,
                        rebuilt,
                        bytes,
                        "build transformed response failed: "@,
                        result,
                    ),
                    Writing::Failed(text) => fails_saying(
                        result,
                        "serialize transformed json failed: "@ + text,
                    ),
                }
            &&& forall|text: Seq<char>| #[trigger]
                always_fails(transform, document, text) && success ==> fails_saying(
                    result,
                    "transform upstream json failed: "@ + text,
                )
            &&& always_declines(transform, document) && !success ==> is_handed_on(
                inspection,
                names,
                copied,
                body,
                result,
            )
            &&& always_breaks(transform, document) && !success ==> result is Err && exists|
                value: Value,
            | #[trigger]
                json(value) == document && transform.ensures(
                    (value,),
                    Err::<Value, ProxyError>(result->Err_0),
                )
            &&& success && result is Ok ==> result->Ok_0.upstream_error_summary is None
            &&& forall|made: Json| #[trigger]
                always_makes(transform, document, made) && !success && result is Ok ==> exists|
                    value: Value,
                | #[trigger]
                    json(value) == document && inspection.summarize_json.ensures(
                        (&value,),
                        result->Ok_0.upstream_error_summary,
                    )
        },
        Reading::Malformed(text) => if success {
            fails_saying(result, "parse upstream json failed: "@ + text)
        } else {
            is_handed_on(inspection, names, copied, body, result)
        },
    }
}

proof fn lemma_answered<
    F: FnOnce(Value) -> Result<Value, ProxyError>,
    B: Fn(&Bytes) -> Option<String>,
    J: Fn(&Value) -> Option<String>,
    T: Fn(&Bytes) -> u64,
>(
    inspection: Inspection<B, J, T>,
    status: StatusCode,
    headers: crate::message::Headers,
    copied: Head,
    rebuilt: Head,
    body: Seq<u8>,
    transform: F,
    result: Result<PreparedResponse, ProxyError>,
)
    requires
        inspection.answers_json(status, headers, body, transform, result),
        copied == (Head {
            status: status_code(status),
            headers: crate::headers::forwarded(headers, false, false),
        }),
        rebuilt == (Head {
            status: status_code(status),
            headers: crate::headers::forwarded(headers, false, true),
        }),
    ensures
        is_answered(
            inspection,
            headers.dom().len(),
            copied,
            rebuilt,
            body,
            transform,
            result,
        ),
{
    if let Reading::Document(document) = read_slice(body) {
        let (value, summary, outcome) = choose|
            value: Value,
            summary: Option<String>,
            outcome: Result<Value, ProxyError>,
        |
            {
                &&& json(value) == document
                &&& #[trigger] inspection.notes_json(status, value, summary)
                &&& #[trigger] transform.ensures((value,), outcome)
                &&& inspection.answers_transformed(
                    status,
                    headers,
                    body,
                    summary,
                    outcome,
                    result,
                )
            };
        if outcome is Ok && write_vec(json(outcome->Ok_0)) is Written && result is Ok {
            lemma_json_head(rebuilt, response_head(result->Ok_0.response));
        }
        assert(json(value) == document);
    }
}

/// The answer to a buffered JSON response is what `transform` makes of it, with the fallbacks that
/// `is_answered` lists.
pub proof fn buffered_json_is_answered_with_its_transformed_form<
    F: FnOnce(Value) -> Result<Value, ProxyError>,
    B: Fn(&Bytes) -> Option<String>,
    J: Fn(&Value) -> Option<String>,
    T: Fn(&Bytes) -> u64,
>(
    status: StatusCode,
    headers: &HeaderMap,
    body: Bytes,
    transform: F,
    inspection: &Inspection<B, J, T>,
    result: Result<PreparedResponse, ProxyError>,
    fresh: &mut Builder,
    copied: Head,
    anew: &mut Builder,
    rebuilt: Head,
)
    requires
        build_buffered_json_response::<F, B, J, T>.ensures(
            (status, headers, body, transform, inspection),
            result,
        ),
        builder_draft(*old(fresh)) == Draft::Ready(
            Head { status: status_code(status), headers: Map::empty() },
        ),
        copy_headers.ensures((fresh, headers, false, false), ()),
        builder_draft(*final(fresh)) == Draft::Ready(copied),
        builder_draft(*old(anew)) == Draft::Ready(
            Head { status: status_code(status), headers: Map::empty() },
        ),
        copy_headers.ensures((anew, headers, false, true), ()),
        builder_draft(*final(anew)) == Draft::Ready(rebuilt),
    ensures
        copied.status == status_code(status),
        is_answered(
            *inspection,
            header_values(*headers).dom().len(),
            copied,
            rebuilt,
            bytes_content(body),
            transform,
            result,
        ),
{
    lemma_answered(
        *inspection,
        status,
        header_values(*headers),
        copied,
        rebuilt,
        bytes_content(body),
        transform,
        result,
    );
}

/// Where `transform` can only make `made` of the document, the client gets exactly the bytes that
/// are written for it, whatever else the document holds and whatever the status is.
pub proof fn transformed_document_is_what_the_client_gets<
    F: FnOnce(Value) -> Result<Value, ProxyError>,
    B: Fn(&Bytes) -> Option<String>,
    J: Fn(&Value) -> Option<String>,
    T: Fn(&Bytes) -> u64,
>(
    status: StatusCode,
    headers: &HeaderMap,
    body: Bytes,
    transform: F,
    inspection: &Inspection<B, J, T>,
    result: Result<PreparedResponse, ProxyError>,
    document: Json,
    made: Json,
    bytes: Seq<u8>,
)
    requires
        build_buffered_json_response::<F, B, J, T>.ensures(
            (status, headers, body, transform, inspection),
            result,
        ),
        read_slice(bytes_content(body)) == Reading::Document(document),
        forall|value: Value, outcome: Result<Value, ProxyError>|
            json(value) == document && #[trigger] transform.ensures((value,), outcome)
                ==> outcome is Ok && json(outcome->Ok_0) == made,
        write_vec(made) == Writing::Written(bytes),
    ensures
        header_values(*headers).dom().len() < 6554 ==> result is Ok,
        result is Ok ==> response_head(result->Ok_0.response).status == status_code(status)
            && body_content(response_body(result->Ok_0.response)) == bytes
            && result->Ok_0.body_bytes is Some && bytes_content(result->Ok_0.body_bytes->Some_0)
            == bytes,
{
}

/// A response that was read whole is decoded and handed on.
pub proof fn read_response_is_decoded_and_handed_on<
    B: Fn(&Bytes) -> Option<String>,
    J: Fn(&Value) -> Option<String>,
    T: Fn(&Bytes) -> u64,
>(
    status: StatusCode,
    headers: &HeaderMap,
    read: BodyRead,
    trouble: &mut Option<EncodingTrouble>,
    inspection: &Inspection<B, J, T>,
    result: Result<PreparedResponse, ProxyError>,
    fields: &mut HeaderMap,
    raw_body: Bytes,
    plain: Bytes,
    found: Option<EncodingTrouble>,
    fresh: &mut Builder,
    copied: Head,
)
    requires
        build_passthrough_response::<B, J, T>.ensures(
            (status, headers, read, trouble, inspection),
            result,
        ),
        read is Complete ==> bytes_content(raw_body) == bytes_content(read->Complete_0),
        header_values(*old(fields)) == header_values(*headers),
        decode_noting_trouble.ensures((fields, raw_body), (plain, found)),
        builder_draft(*old(fresh)) == Draft::Ready(
            Head { status: status_code(status), headers: Map::empty() },
        ),
        copy_headers.ensures((fresh, &*final(fields), false, false), ()),
        builder_draft(*final(fresh)) == Draft::Ready(copied),
    ensures
        copied.status == status_code(status),
        read is Complete ==> is_handed_on(
            *inspection,
            header_values(*final(fields)).dom().len(),
            copied,
            bytes_content(plain),
            result,
        ),
        read is Failed ==> fails_saying(result, "read response body failed: "@ + read->Failed_0@),
        read is TimedOut ==> result is Err && result->Err_0 is Timeout
            && result->Err_0->Timeout_0@ == timeout_text(
            StreamTimeoutPhase::FirstByte,
            duration_nanos(read->TimedOut_0),
        ),
        read is Complete ==> same_trouble(*final(trouble), found),
        !(read is Complete) ==> *final(trouble) is None,
{
}

/// A response that was read whole is decoded and answered with its transformed form.
pub proof fn read_json_is_decoded_and_answered<
    F: FnOnce(Value) -> Result<Value, ProxyError>,
    B: Fn(&Bytes) -> Option<String>,
    J: Fn(&Value) -> Option<String>,
    T: Fn(&Bytes) -> u64,
>(
    status: StatusCode,
    headers: &HeaderMap,
    read: BodyRead,
    trouble: &mut Option<EncodingTrouble>,
    transform: F,
    inspection: &Inspection<B, J, T>,
    result: Result<PreparedResponse, ProxyError>,
    fields: &mut HeaderMap,
    raw_body: Bytes,
    plain: Bytes,
    found: Option<EncodingTrouble>,
    fresh: &mut Builder,
    copied: Head,
    anew: &mut Builder,
    rebuilt: Head,
)
    requires
        build_json_response::<F, B, J, T>.ensures(
            (status, headers, read, trouble, transform, inspection),
            result,
        ),
        read is Complete ==> bytes_content(raw_body) == bytes_content(read->Complete_0),
        header_values(*old(fields)) == header_values(*headers),
        decode_noting_trouble.ensures((fields, raw_body), (plain, found)),
        builder_draft(*old(fresh)) == Draft::Ready(
            Head { status: status_code(status), headers: Map::empty() },
        ),
        copy_headers.ensures((fresh, &*final(fields), false, false), ()),
        builder_draft(*final(fresh)) == Draft::Ready(copied),
        builder_draft(*old(anew)) == Draft::Ready(
            Head { status: status_code(status), headers: Map::empty() },
        ),
        copy_headers.ensures((anew, &*final(fields), false, true), ()),
        builder_draft(*final(anew)) == Draft::Ready(rebuilt),
    ensures
        copied.status == status_code(status),
        read is Complete ==> is_answered(
            *inspection,
            header_values(*final(fields)).dom().len(),
            copied,
            rebuilt,
            bytes_content(plain),
            transform,
            result,
        ),
        read is Failed ==> fails_saying(result, "read response body failed: "@ + read->Failed_0@),
        read is TimedOut ==> result is Err && result->Err_0 is Timeout
            && result->Err_0->Timeout_0@ == timeout_text(
            StreamTimeoutPhase::FirstByte,
            duration_nanos(read->TimedOut_0),
        ),
        read is Complete ==> same_trouble(*final(trouble), found),
        !(read is Complete) ==> *final(trouble) is None,
{
    if read is Complete {
        lemma_answered(
            *inspection,
            status,
            header_values(*final(fields)),
            copied,
            rebuilt,
            bytes_content(plain),
            transform,
            result,
        );
    }
}

/// A buffered answer holds what it was made of and has no stream, and a streamed one holds its
/// handle and nothing of a body.
pub proof fn answers_hold_what_they_were_made_of<C>(
    response: axum::response::Response,
    tokens: u64,
    summary: Option<String>,
    body: Bytes,
    completion: C,
    buffered: PreparedResponse<C>,
    streaming: PreparedResponse<C>,
)
    requires
        PreparedResponse::<C>::buffered.ensures((response, tokens, summary, body), buffered),
        PreparedResponse::<C>::streaming.ensures((response, completion), streaming),
    ensures
        buffered == (PreparedResponse::<C> {
            response,
            stream_completion: None,
            estimated_output_tokens: tokens,
            upstream_error_summary: summary,
            body_bytes: Some(body),
        }),
        streaming == (PreparedResponse::<C> {
            response,
            stream_completion: Some(completion),
            estimated_output_tokens: 0,
            upstream_error_summary: None,
            body_bytes: None,
        }),
{
}

/// The head of an answer that was started holds the upstream status and what `copy_headers` copies
/// of the upstream fields to a fresh answer. Only with 6554 names or more can it have failed.
pub open spec fn has_started(names: nat, copied: Head, draft: Draft) -> bool {
    match draft {
        Draft::Ready(head) => head == copied,
        Draft::Failed(text) => names >= 6554 && text == "max size reached"@,
    }
}

/// Event streams are streamed with their own fields, and everything else is buffered.
pub proof fn event_streams_alone_are_streamed(
    response: &reqwest::Response,
    plan: PassthroughPlan,
    headers: &HeaderMap,
    fresh: &mut Builder,
    copied: Head,
)
    requires
        plan_passthrough_response.ensures((response,), plan),
        header_values(*headers) == upstream_head(*response).headers,
        builder_draft(*old(fresh)) == Draft::Ready(
            Head { status: upstream_head(*response).status, headers: Map::empty() },
        ),
        copy_headers.ensures((fresh, headers, false, false), ()),
        builder_draft(*final(fresh)) == Draft::Ready(copied),
    ensures
        plan is Stream <==> announces_events(upstream_head(*response).headers),
        plan is Stream ==> has_started(
            upstream_head(*response).headers.dom().len(),
            copied,
            builder_draft(plan->Stream_0),
        ),
{
    lemma_announces(upstream_head(*response).headers);
}

/// Streams that are rebuilt start as event streams of their own, and the API format tells what a
/// stream of Anthropic messages is converted from, and whether its conversion records the end.
pub proof fn rebuilt_streams_start_as_event_streams(
    response: &reqwest::Response,
    api_format: &str,
    anthropic: (Builder, AnthropicSource),
    source: AnthropicSource,
    source_records: bool,
    codex: Builder,
    headers: &HeaderMap,
    fresh: &mut Builder,
    copied: Head,
)
    requires
        build_anthropic_stream_response.ensures((response, api_format), anthropic),
        anthropic_source.ensures((api_format,), source),
        AnthropicSource::conversion_records.ensures((&source,), source_records),
        build_codex_chat_stream_response_with_context.ensures((response,), codex),
        header_values(*headers) == upstream_head(*response).headers,
        builder_draft(*old(fresh)) == Draft::Ready(
            Head { status: upstream_head(*response).status, headers: Map::empty() },
        ),
        copy_headers.ensures((fresh, headers, true, true), ()),
        builder_draft(*final(fresh)) == Draft::Ready(copied),
    ensures
        has_started(
            upstream_head(*response).headers.dom().len(),
            copied,
            builder_draft(anthropic.0),
        ),
        has_started(upstream_head(*response).headers.dom().len(), copied, builder_draft(codex)),
        anthropic.1 == source,
        source is Responses <==> api_format@ == "openai_responses"@,
        source is Gemini <==> api_format@ == "gemini_native"@,
        source is ChatCompletions <==> api_format@ != "openai_responses"@ && api_format@
            != "gemini_native"@,
        source_records <==> api_format@ != "gemini_native"@,
{
    reveal_strlit("openai_responses");
    reveal_strlit("gemini_native");
    assert("openai_responses"@.len() != "gemini_native"@.len());
}

/// The relay records how a stream ended, except where it is converted to Anthropic messages.
pub proof fn relay_records_all_but_anthropic_streams(kind: StreamKind, records: bool)
    requires
        StreamKind::relay_records.ensures((&kind,), records),
    ensures
        kind is Passthrough || kind is CodexChat ==> records,
        kind is Anthropic ==> !records,
{
}

/// A streamed answer has the head that it was started with, the body that it was given and the
/// handle on how it will end, and nothing is noted of it yet. One that could not be started is a
/// failed request that says what kind of stream it was.
pub proof fn streamed_answer_is_what_was_started<C>(
    kind: StreamKind,
    builder: Builder,
    body: Body,
    completion: C,
    result: Result<PreparedResponse<C>, ProxyError>,
)
    requires
        prepare_stream::<C>.ensures((kind, builder, body, completion), result),
    ensures
        match builder_draft(builder) {
            Draft::Ready(head) => {
                &&& result is Ok
                &&& response_head(result->Ok_0.response) == head
                &&& response_body(result->Ok_0.response) == body
                &&& result->Ok_0.stream_completion == Some(completion)
                &&& result->Ok_0.estimated_output_tokens == 0
                &&& result->Ok_0.upstream_error_summary is None
                &&& result->Ok_0.body_bytes is None
            },
            Draft::Failed(text) => {
                &&& result is Err
                &&& result->Err_0 is RequestFailed
                &&& kind is Passthrough ==> result->Err_0->RequestFailed_0@
                    == "build streaming response failed: "@ + text
                &&& kind is Anthropic ==> result->Err_0->RequestFailed_0@
                    == "build anthropic stream response failed: "@ + text
                &&& kind is CodexChat ==> result->Err_0->RequestFailed_0@
                    == "build Codex Chat stream response failed: "@ + text
            },
        },
{
}

} // verus!
