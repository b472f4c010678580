//! Responses of the proxy that are built from a buffered upstream response.

use axum::http::header::HeaderMap;
use axum::http::response::Builder;
use axum::http::StatusCode;
use axum::response::Response;
use bytes::Bytes;
use serde_json::Value;
use vstd::prelude::*;

use crate::completion::StreamCompletion;
use crate::error::{
    error_text, is_request_failed, proxy_error_message, request_failed,
    should_passthrough_transform_failure, ProxyError,
};
use crate::headers::{copy_headers, forwarded, lemma_forwarded_names};
use crate::json::{
    from_slice, json, json_error_string, json_error_text, read_slice, to_vec, write_vec, Reading,
    Writing,
};
use crate::message::{
    add_text_field, ascii_bytes, body_content, builder_draft, bytes_content, bytes_from,
    clone_bytes, crowded, finish_response, full_body, header_values, http_error_string,
    is_success_code, response_body, response_head, slice_of, start_response, status_code,
    with_field, Draft, Head, Headers,
};

verus! {

/// A response that is ready to be sent, with what the proxy notes about it. `C` is the handle on
/// how a stream ended.
pub struct PreparedResponse<C = StreamCompletion> {
    pub response: Response,
    pub stream_completion: Option<C>,
    pub estimated_output_tokens: u64,
    pub upstream_error_summary: Option<String>,
    pub body_bytes: Option<Bytes>,
}

impl<C> PreparedResponse<C> {
    /// A response with a buffered body.
    pub fn buffered(
        response: Response,
        estimated_output_tokens: u64,
        upstream_error_summary: Option<String>,
        body_bytes: Bytes,
    ) -> (prepared: Self)
        ensures
            prepared.response == response,
            prepared.stream_completion is None,
            prepared.estimated_output_tokens == estimated_output_tokens,
            prepared.upstream_error_summary == upstream_error_summary,
            prepared.body_bytes == Some(body_bytes),
    {
        PreparedResponse {
            response,
            stream_completion: None,
            estimated_output_tokens,
            upstream_error_summary,
            body_bytes: Some(body_bytes),
        }
    }

    /// A response whose body is still being streamed: there is nothing to note about it yet but
    /// how it will end.
    pub fn streaming(response: Response, stream_completion: C) -> (prepared: Self)
        ensures
            prepared.response == response,
            prepared.stream_completion == Some(stream_completion),
            prepared.estimated_output_tokens == 0,
            prepared.upstream_error_summary is None,
            prepared.body_bytes is None,
    {
        PreparedResponse {
            response,
            stream_completion: Some(stream_completion),
            estimated_output_tokens: 0,
            upstream_error_summary: None,
            body_bytes: None,
        }
    }
}

/// How the proxy looks into a body: it sums up what an error says, and estimates the number of
/// tokens.
pub struct Inspection<B, J, T> {
    pub summarize_body: B,
    pub summarize_json: J,
    pub estimate_tokens: T,
}

impl<
    B: Fn(&Bytes) -> Option<String>,
    J: Fn(&Value) -> Option<String>,
    T: Fn(&Bytes) -> u64,
> Inspection<B, J, T> {
    /// Any body can be looked into.
    pub open spec fn is_total(self) -> bool {
        &&& forall|body: &Bytes| #[trigger] self.summarize_body.requires((body,))
        &&& forall|value: &Value| #[trigger] self.summarize_json.requires((value,))
        &&& forall|body: &Bytes| #[trigger] self.estimate_tokens.requires((body,))
    }

    /// `summary` is noted for an upstream response with that status and body: errors are summed
    /// up, and nothing else is.
    pub open spec fn notes_body(
        self,
        status: StatusCode,
        body: Bytes,
        summary: Option<String>,
    ) -> bool {
        if is_success_code(status_code(status)) {
            summary is None
        } else {
            self.summarize_body.ensures((&body,), summary)
        }
    }

    /// `summary` is noted for an upstream response with that status and JSON document.
    pub open spec fn notes_json(
        self,
        status: StatusCode,
        value: Value,
        summary: Option<String>,
    ) -> bool {
        if is_success_code(status_code(status)) {
            summary is None
        } else {
            self.summarize_json.ensures((&value,), summary)
        }
    }

    /// The response was built with that head, that body and that summary, and its tokens were
    /// estimated from that body.
    pub open spec fn prepares(
        self,
        prepared: PreparedResponse,
        head: Head,
        body: Seq<u8>,
        summary: Option<String>,
    ) -> bool {
        &&& response_head(prepared.response) == head
        &&& body_content(response_body(prepared.response)) == body
        &&& prepared.stream_completion is None
        &&& prepared.upstream_error_summary == summary
        &&& prepared.body_bytes is Some
        &&& bytes_content(prepared.body_bytes->Some_0) == body
        &&& self.estimate_tokens.ensures(
            (&prepared.body_bytes->Some_0,),
            prepared.estimated_output_tokens,
        )
    }

    /// The upstream response is handed on: its status, its body as it is, and the header fields
    /// that concern the client. Only a head with very many fields can fail.
    pub open spec fn passes_through(
        self,
        status: StatusCode,
        headers: Headers,
        body: Seq<u8>,
        result: Result<PreparedResponse, ProxyError>,
    ) -> bool {
        match result {
            Ok(prepared) => {
                &&& self.prepares(
                    prepared,
                    Head {
                        status: status_code(status),
                        headers: forwarded(headers, false, false),
                    },
                    body,
                    prepared.upstream_error_summary,
                )
                &&& self.notes_body(
                    status,
                    prepared.body_bytes->Some_0,
                    prepared.upstream_error_summary,
                )
            },
            Err(error) => {
                &&& headers.dom().len() >= crowded()
                &&& is_request_failed(
                    error,
                    "build passthrough response failed: "@ + "max size reached"@,
                )
            },
        }
    }

    /// A body that was written anew is sent as JSON, with the upstream status and the header
    /// fields that still apply.
    pub open spec fn sends_json(
        self,
        status: StatusCode,
        headers: Headers,
        summary: Option<String>,
        body: Seq<u8>,
        failure: Seq<char>,
        result: Result<PreparedResponse, ProxyError>,
    ) -> bool {
        match result {
            Ok(prepared) => self.prepares(
                prepared,
                Head { status: status_code(status), headers: json_headers(headers) },
                body,
                summary,
            ),
            Err(error) => {
                &&& headers.dom().len() >= crowded()
                &&& is_request_failed(error, failure + "max size reached"@)
            },
        }
    }

    /// What becomes of a JSON body that has gone through a transformation with that outcome.
    pub open spec fn answers_transformed(
        self,
        status: StatusCode,
        headers: Headers,
        body: Seq<u8>,
        summary: Option<String>,
        outcome: Result<Value, ProxyError>,
        result: Result<PreparedResponse, ProxyError>,
    ) -> bool {
        match outcome {
            Ok(value) => match write_vec(json(value)) {
                Writing::Written(bytes) => self.sends_json(
                    status,
                    headers,
                    summary,
                    bytes,
                    "build transformed response failed: "@,
                    result,
                ),
                Writing::Failed(text) => result is Err && is_request_failed(
                    result->Err_0,
                    "serialize transformed json failed: "@ + text,
                ),
            },
            Err(error) => if is_success_code(status_code(status)) {
                result is Err && is_request_failed(
                    result->Err_0,
                    "transform upstream json failed: "@ + error_text(error),
                )
            } else if error is TransformError {
                self.passes_through(status, headers, body, result)
            } else {
                result is Err && result->Err_0 == error
            },
        }
    }

    /// What becomes of a JSON body that `transform` is to transform.
    pub open spec fn answers_json<F: FnOnce(Value) -> Result<Value, ProxyError>>(
        self,
        status: StatusCode,
        headers: Headers,
        body: Seq<u8>,
        transform: F,
        result: Result<PreparedResponse, ProxyError>,
    ) -> bool {
        match read_slice(body) {
            Reading::Document(document) => exists|
                value: Value,
                summary: Option<String>,
                outcome: Result<Value, ProxyError>,
            |
                {
                    &&& json(value) == document
                    &&& #[trigger] self.notes_json(status, value, summary)
                    &&& #[trigger] transform.ensures((value,), outcome)
                    &&& self.answers_transformed(status, headers, body, summary, outcome, result)
                },
            Reading::Malformed(text) => if is_success_code(status_code(status)) {
                result is Err && is_request_failed(
                    result->Err_0,
                    "parse upstream json failed: "@ + text,
                )
            } else {
                self.passes_through(status, headers, body, result)
            },
        }
    }
}

/// The header fields of a rebuilt JSON response. The content type comes after any that upstream
/// sent.
pub open spec fn json_headers(headers: Headers) -> Headers {
    with_field(forwarded(headers, false, true), "content-type"@, ascii_bytes("application/json"@))
}

/// Hands a buffered upstream response on to the client.
pub fn build_buffered_passthrough_response<
    B: Fn(&Bytes) -> Option<String>,
    J: Fn(&Value) -> Option<String>,
    T: Fn(&Bytes) -> u64,
>(
    status: StatusCode,
    headers: &HeaderMap,
    body: Bytes,
    inspection: &Inspection<B, J, T>,
) -> (result: Result<PreparedResponse, ProxyError>)
    requires
        inspection.is_total(),
    ensures
        inspection.passes_through(status, header_values(*headers), bytes_content(body), result),
{
    let upstream_error_summary = if !status.is_success() {
        (inspection.summarize_body)(&body)
    } else {
        None
    };
    let estimated_output_tokens: u64 = (inspection.estimate_tokens)(&body);
    let mut builder = start_response(status);
    copy_headers(&mut builder, headers, false, false);
    match finish_response(builder, full_body(clone_bytes(&body))) {
        Ok(response) => Ok(
            PreparedResponse::buffered(
                response,
                estimated_output_tokens,
                upstream_error_summary,
                body,
            ),
        ),
        Err(error) => Err(
            request_failed(
                "build passthrough response failed: ",
                http_error_string(&error).as_str(),
            ),
        ),
    }
}

/// The head of a rebuilt JSON response.
fn start_json_response(status: StatusCode, headers: &HeaderMap) -> (builder: Builder)
    ensures
        ({
            ||| builder_draft(builder) == Draft::Ready(
                Head {
                    status: status_code(status),
                    headers: json_headers(header_values(*headers)),
                },
            )
            ||| {
                &&& header_values(*headers).dom().len() >= crowded()
                &&& builder_draft(builder) == Draft::Failed("max size reached"@)
            }
        }),
{
    let mut builder = start_response(status);
    copy_headers(&mut builder, headers, false, true);
    proof {
        reveal_strlit("content-type");
        reveal_strlit("application/json");
        lemma_forwarded_names(header_values(*headers), true);
    }
    add_text_field(&mut builder, "content-type", "application/json");
    builder
}

/// Sends a JSON body that was written anew, or says why it could not be written.
pub fn build_written_json_response<
    B: Fn(&Bytes) -> Option<String>,
    J: Fn(&Value) -> Option<String>,
    T: Fn(&Bytes) -> u64,
>(
    status: StatusCode,
    headers: &HeaderMap,
    upstream_error_summary: Option<String>,
    written: Result<Vec<u8>, serde_json::Error>,
    write_failure: &str,
    build_failure: &str,
    inspection: &Inspection<B, J, T>,
) -> (result: Result<PreparedResponse, ProxyError>)
    requires
        inspection.is_total(),
    ensures
        match written {
            Ok(bytes) => inspection.sends_json(
                status,
                header_values(*headers),
                upstream_error_summary,
                bytes@,
                build_failure@,
                result,
            ),
            Err(error) => result is Err && is_request_failed(
                result->Err_0,
                write_failure@ + json_error_text(error),
            ),
        },
{
    let response_bytes = match written {
        Ok(bytes) => bytes_from(bytes),
        Err(error) => {
            return Err(request_failed(write_failure, json_error_string(&error).as_str()));
        },
    };
    let estimated_output_tokens: u64 = (inspection.estimate_tokens)(&response_bytes);
    let builder = start_json_response(status, headers);
    match finish_response(builder, full_body(clone_bytes(&response_bytes))) {
        Ok(response) => Ok(
            PreparedResponse::buffered(
                response,
                estimated_output_tokens,
                upstream_error_summary,
                response_bytes,
            ),
        ),
        Err(error) => Err(request_failed(build_failure, http_error_string(&error).as_str())),
    }
}

/// Answers with what a transformation made of a JSON body. Where upstream reported an error that
/// could not be transformed, the upstream response is handed on.
pub fn build_transformed_json_response<
    B: Fn(&Bytes) -> Option<String>,
    J: Fn(&Value) -> Option<String>,
    T: Fn(&Bytes) -> u64,
>(
    status: StatusCode,
    headers: &HeaderMap,
    body: Bytes,
    upstream_error_summary: Option<String>,
    outcome: Result<Value, ProxyError>,
    inspection: &Inspection<B, J, T>,
) -> (result: Result<PreparedResponse, ProxyError>)
    requires
        inspection.is_total(),
    ensures
        inspection.answers_transformed(
            status,
            header_values(*headers),
            bytes_content(body),
            upstream_error_summary,
            outcome,
            result,
        ),
{
    match outcome {
        Ok(value) => build_written_json_response(
            status,
            headers,
            upstream_error_summary,
            to_vec(&value),
            "serialize transformed json failed: ",
            "build transformed response failed: ",
            inspection,
        ),
        Err(error) => if should_passthrough_transform_failure(status, &error) {
            build_buffered_passthrough_response(status, headers, body, inspection)
        } else if !status.is_success() {
            Err(error)
        } else {
            Err(
                request_failed(
                    "transform upstream json failed: ",
                    proxy_error_message(error).as_str(),
                ),
            )
        },
    }
}

/// Answers with what `transform` makes of a buffered JSON body.
///
/// Where upstream reported an error, a body that is no JSON is handed on as it is, and so is one
/// that `transform` cannot transform; any other failure of `transform` is the result. Where
/// upstream reported success, every such failure is one of the request.
pub fn build_buffered_json_response<
    F: FnOnce(Value) -> Result<Value, ProxyError>,
    B: Fn(&Bytes) -> Option<String>,
    J: Fn(&Value) -> Option<String>,
    T: Fn(&Bytes) -> u64,
>(
    status: StatusCode,
    headers: &HeaderMap,
    body: Bytes,
    transform: F,
    inspection: &Inspection<B, J, T>,
) -> (result: Result<PreparedResponse, ProxyError>)
    requires
        inspection.is_total(),
        forall|value: Value| #[trigger] transform.requires((value,)),
    ensures
        inspection.answers_json(
            status,
            header_values(*headers),
            bytes_content(body),
            transform,
            result,
        ),
{
    match from_slice(slice_of(&body)) {
        Ok(upstream_body) => {
            let upstream_error_summary = if !status.is_success() {
                (inspection.summarize_json)(&upstream_body)
            } else {
                None
            };
            let ghost value = upstream_body;
            let ghost summary = upstream_error_summary;
            let outcome = transform(upstream_body);
            assert(inspection.notes_json(status, value, summary));
            build_transformed_json_response(
                status,
                headers,
                body,
                upstream_error_summary,
                outcome,
                inspection,
            )
        },
        Err(error) => if !status.is_success() {
            build_buffered_passthrough_response(status, headers, body, inspection)
        } else {
            Err(request_failed("parse upstream json failed: ", json_error_string(&error).as_str()))
        },
    }
}

/// Whatever becomes of a JSON body, the client gets the status that upstream sent, the proxy keeps
/// exactly the bytes that the client gets, and only an upstream error is summed up.
pub proof fn answers_keep_the_upstream_status<
    F: FnOnce(Value) -> Result<Value, ProxyError>,
    B: Fn(&Bytes) -> Option<String>,
    J: Fn(&Value) -> Option<String>,
    T: Fn(&Bytes) -> u64,
>(
    inspection: Inspection<B, J, T>,
    status: StatusCode,
    headers: Headers,
    body: Seq<u8>,
    transform: F,
    result: Result<PreparedResponse, ProxyError>,
)
    requires
        inspection.answers_json(status, headers, body, transform, result),
        result is Ok,
    ensures
        response_head(result->Ok_0.response).status == status_code(status),
        result->Ok_0.body_bytes is Some,
        bytes_content(result->Ok_0.body_bytes->Some_0) == body_content(
            response_body(result->Ok_0.response),
        ),
        is_success_code(status_code(status)) ==> result->Ok_0.upstream_error_summary is None,
{
}

/// An upstream error whose body is no JSON reaches the client byte for byte, with its status and
/// the header fields that concern the client, unless its head has very many fields.
pub proof fn unreadable_errors_reach_the_client<
    F: FnOnce(Value) -> Result<Value, ProxyError>,
    B: Fn(&Bytes) -> Option<String>,
    J: Fn(&Value) -> Option<String>,
    T: Fn(&Bytes) -> u64,
>(
    inspection: Inspection<B, J, T>,
    status: StatusCode,
    headers: Headers,
    body: Seq<u8>,
    transform: F,
    result: Result<PreparedResponse, ProxyError>,
)
    requires
        inspection.answers_json(status, headers, body, transform, result),
        !is_success_code(status_code(status)),
        read_slice(body) is Malformed,
        headers.dom().len() < crowded(),
    ensures
        result is Ok,
        body_content(response_body(result->Ok_0.response)) == body,
        response_head(result->Ok_0.response) == (Head {
            status: status_code(status),
            headers: forwarded(headers, false, false),
        }),
{
}

/// A rebuilt JSON response says last that its content type is JSON; where upstream named no
/// content type, it says nothing else.
pub proof fn rebuilt_response_is_json(headers: Headers)
    ensures
        json_headers(headers).contains_key("content-type"@),
        json_headers(headers)["content-type"@].last() == ascii_bytes("application/json"@),
        !headers.contains_key("content-type"@) ==> json_headers(headers)["content-type"@] == seq![
            ascii_bytes("application/json"@),
        ],
{
    if !headers.contains_key("content-type"@) {
        assert(!forwarded(headers, false, true).contains_key("content-type"@));
        assert(Seq::<Seq<u8>>::empty().push(ascii_bytes("application/json"@)) =~= seq![
            ascii_bytes("application/json"@),
        ]);
    }
}

} // verus!
