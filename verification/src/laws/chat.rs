//! How chat completions are answered in the shape of the Responses API.

use axum::http::header::HeaderMap;
use axum::http::response::Builder;
use axum::http::StatusCode;
use bytes::Bytes;
use serde_json::Value;
use vstd::prelude::*;
use vstd::utf8::{decode_utf8, encode_utf8, valid_utf8};

use crate::codex::{
    accept_converted_chat, build_buffered_codex_chat_response_with_context, chars_within,
    convert_codex_chat_body, converts, converts_body, error_document, explains,
    kept_characters_are_as_many_as_fit, parse_codex_chat_error_body, shorten, shortened,
    utf8_lossy, ConvertedChat,
};
use crate::encoding::{decode_noting_trouble, EncodingTrouble};
use crate::error::{error_text, ProxyError};
use crate::headers::copy_headers;
use crate::json::{json, read_slice, write_vec, Json, Reading, Writing};
use crate::laws::answers::{
    always_fails, always_makes, fails_saying, is_sent_as_json, lemma_json_head,
};
use crate::laws::bodies::same_trouble;
use crate::laws::wording::spells;
use crate::message::{
    builder_draft, bytes_content, header_values, response_head, status_code, Draft, Head,
};
use crate::response::{Inspection, PreparedResponse};
use crate::stream::{duration_nanos, timeout_text, StreamTimeoutPhase};
use crate::upstream::{build_codex_chat_response_with_context, BodyRead, ReadChat};

verus! {

/// A text of at most 1024 bytes is kept as it is. Of a longer one, as many characters are kept as
/// fit in 1024 bytes, and a mark says that it was cut.
pub open spec fn is_kept_short(text: Seq<char>, short: Seq<char>) -> bool {
    if encode_utf8(text).len() <= 1024 {
        short == text
    } else {
        exists|count: int|
            0 <= count < text.len() && encode_utf8(#[trigger] text.take(count)).len() <= 1024
                && encode_utf8(text.take(count + 1)).len() > 1024 && short == text.take(count)
                + "...(truncated)"@
    }
}

proof fn lemma_kept_short(text: Seq<char>)
    ensures
        is_kept_short(text, shortened(text)),
{
    if encode_utf8(text).len() > 1024 {
        kept_characters_are_as_many_as_fit(text, 1024);
        let count = chars_within(text, 1024) as int;
        if count == text.len() {
            assert(text.take(count) =~= text);
        }
        assert(encode_utf8(text.take(count)).len() <= 1024);
    }
}

/// Shortening keeps what fits in 1024 bytes.
pub proof fn short_text_is_what_fits(text: String, short: String)
    requires
        shorten.ensures((text,), short),
    ensures
        is_kept_short(text@, short@),
{
    lemma_kept_short(text@);
}

/// The document that an error body stands for: the JSON that it holds, whatever that is, and
/// otherwise its text, kept short.
pub open spec fn stands_for(body: Seq<u8>, document: Json) -> bool {
    match read_slice(body) {
        Reading::Document(held) => document == held,
        Reading::Malformed(_) => {
            &&& document is Text
            &&& is_kept_short(utf8_lossy(body), document->Text_0)
            &&& valid_utf8(body) ==> is_kept_short(decode_utf8(body), document->Text_0)
        },
    }
}

/// An error body that holds JSON is that document itself, and any other is its text.
pub proof fn error_body_is_its_document_or_its_text(body: &[u8], value: Value)
    requires
        parse_codex_chat_error_body.ensures((body,), value),
    ensures
        stands_for(body@, json(value)),
{
    lemma_kept_short(utf8_lossy(body@));
    lemma_kept_short(decode_utf8(body@));
}

/// A failed request with that message.
pub open spec fn refuses_saying(
    result: Result<ConvertedChat, ProxyError>,
    message: Seq<char>,
) -> bool {
    &&& result is Err
    &&& result->Err_0 is RequestFailed
    &&& result->Err_0->RequestFailed_0@ == message
}

/// A completion that was converted is the answer and belongs in the history; one that could not be
/// is a failed request.
pub proof fn converted_completion_is_the_answer(
    outcome: Result<Value, ProxyError>,
    result: Result<ConvertedChat, ProxyError>,
)
    requires
        accept_converted_chat.ensures((outcome,), result),
    ensures
        outcome is Ok ==> result is Ok && result->Ok_0.body == outcome->Ok_0
            && result->Ok_0.record,
        outcome is Err ==> refuses_saying(
            result,
            "transform upstream chat json failed: "@ + error_text(outcome->Err_0),
        ),
{
}

/// What becomes of a chat body:
/// - of a success, the answer is what `convert` makes of the document, and it is recorded; a body
///   that is no JSON, or that `convert` fails on, is a failed request;
/// - of an error, the answer is what `explain` makes of the document that the body stands for, and
///   it is not recorded.
pub open spec fn is_converted<
    C: FnOnce(Value) -> Result<Value, ProxyError>,
    E: FnOnce(&Value) -> Value,
>(
    status: u16,
    body: Seq<u8>,
    convert: C,
    explain: E,
    result: Result<ConvertedChat, ProxyError>,
) -> bool {
    if 200 <= status <= 299 {
        match read_slice(body) {
            Reading::Document(document) => {
                &&& forall|made: Json| #[trigger]
                    always_makes(convert, document, made) ==> result is Ok && result->Ok_0.record
                        && json(result->Ok_0.body) == made
                &&& forall|text: Seq<char>| #[trigger]
                    always_fails(convert, document, text) ==> refuses_saying(
                        result,
                        "transform upstream chat json failed: "@ + text,
                    )
                &&& result is Ok ==> result->Ok_0.record && exists|value: Value| #[trigger]
                    json(value) == document && convert.ensures(
                        (value,),
                        Ok::<Value, ProxyError>(result->Ok_0.body),
                    )
            },
            Reading::Malformed(text) => refuses_saying(
                result,
                "parse upstream chat json failed: "@ + text,
            ),
        }
    } else {
        &&& result is Ok
        &&& !result->Ok_0.record
        &&& exists|value: Value|
            stands_for(body, #[trigger] json(value)) && explain.ensures(
                (&value,),
                result->Ok_0.body,
            )
    }
}

proof fn lemma_converted<
    C: FnOnce(Value) -> Result<Value, ProxyError>,
    E: FnOnce(&Value) -> Value,
>(
    status: StatusCode,
    body: Seq<u8>,
    convert: C,
    explain: E,
    result: Result<ConvertedChat, ProxyError>,
)
    requires
        converts_body(status, body, convert, explain, result),
    ensures
        is_converted(status_code(status), body, convert, explain, result),
{
    if 200 <= status_code(status) <= 299 {
        if let Reading::Document(document) = read_slice(body) {
            let (value, outcome) = choose|value: Value, outcome: Result<Value, ProxyError>|
                json(value) == document && #[trigger] convert.ensures((value,), outcome)
                    && converts(outcome, result);
            assert(json(value) == document);
            if result is Ok {
                assert(outcome == Ok::<Value, ProxyError>(result->Ok_0.body));
            }
        }
    } else {
        lemma_kept_short(utf8_lossy(body));
        lemma_kept_short(decode_utf8(body));
        assert(explains(explain, error_document(body), result->Ok_0.body));
        let value = choose|value: Value| #[trigger]
            json(value) == error_document(body) && explain.ensures((&value,), result->Ok_0.body);
        assert(stands_for(body, json(value)));
    }
}

/// A buffered chat body is converted: a success by `convert`, an error by `explain`.
pub proof fn chat_body_is_converted_by_its_status<
    C: FnOnce(Value) -> Result<Value, ProxyError>,
    E: FnOnce(&Value) -> Value,
>(
    status: StatusCode,
    body: &Bytes,
    convert: C,
    explain: E,
    result: Result<ConvertedChat, ProxyError>,
)
    requires
        convert_codex_chat_body::<C, E>.ensures((status, body, convert, explain), result),
    ensures
        is_converted(status_code(status), bytes_content(*body), convert, explain, result),
{
    lemma_converted(status, bytes_content(*body), convert, explain, result);
}

/// A chat response that was read whole is decoded and converted, and the decoded message is kept
/// for the answer.
pub proof fn read_chat_is_decoded_and_converted<
    C: FnOnce(Value) -> Result<Value, ProxyError>,
    E: FnOnce(&Value) -> Value,
>(
    status: StatusCode,
    headers: &HeaderMap,
    read: BodyRead,
    trouble: &mut Option<EncodingTrouble>,
    convert: C,
    explain: E,
    result: Result<ReadChat, ProxyError>,
    fields: &mut HeaderMap,
    raw_body: Bytes,
    plain: Bytes,
    found: Option<EncodingTrouble>,
)
    requires
        build_codex_chat_response_with_context::<C, E>.ensures(
            (status, headers, read, trouble, convert, explain),
            result,
        ),
        read is Complete ==> bytes_content(raw_body) == bytes_content(read->Complete_0),
        header_values(*old(fields)) == header_values(*headers),
        decode_noting_trouble.ensures((fields, raw_body), (plain, found)),
    ensures
        read is Complete && result is Ok ==> header_values(result->Ok_0.headers) == header_values(
            *final(fields),
        ) && bytes_content(result->Ok_0.body) == bytes_content(plain),
        read is Complete ==> is_converted(
            status_code(status),
            bytes_content(plain),
            convert,
            explain,
            match result {
                Ok(chat) => Ok(chat.answer),
                Err(error) => Err(error),
            },
        ),
        read is Failed ==> result is Err && result->Err_0 is RequestFailed
            && result->Err_0->RequestFailed_0@ == "read response body failed: "@ + read->Failed_0@,
        read is TimedOut ==> result is Err && result->Err_0 is Timeout
            && result->Err_0->Timeout_0@ == timeout_text(
            StreamTimeoutPhase::FirstByte,
            duration_nanos(read->TimedOut_0),
        ),
        read is Complete ==> same_trouble(*final(trouble), found),
        !(read is Complete) ==> *final(trouble) is None,
{
    if read is Complete {
        let converted: Result<ConvertedChat, ProxyError> = match result {
            Ok(chat) => Ok(chat.answer),
            Err(error) => Err(error),
        };
        lemma_converted(status, bytes_content(plain), convert, explain, converted);
    }
}

/// The answer to a chat completion is sent as JSON and as nothing else: its bytes are those written
/// for it, its one content type is JSON, and the other fields are those that are copied. An
/// upstream error is summed up from the upstream body.
pub proof fn chat_answer_is_sent_as_json<
    B: Fn(&Bytes) -> Option<String>,
    J: Fn(&Value) -> Option<String>,
    T: Fn(&Bytes) -> u64,
>(
    status: StatusCode,
    headers: &HeaderMap,
    body: &Bytes,
    answer: &Value,
    inspection: &Inspection<B, J, T>,
    result: Result<PreparedResponse, ProxyError>,
    others: &HeaderMap,
    fresh: &mut Builder,
    copied: Head,
)
    requires
        build_buffered_codex_chat_response_with_context::<B, J, T>.ensures(
            (status, headers, body, answer, inspection),
            result,
        ),
        header_values(*others) == header_values(*headers).remove("content-type"@),
        builder_draft(*old(fresh)) == Draft::Ready(
            Head { status: status_code(status), headers: Map::empty() },
        ),
        copy_headers.ensures((fresh, others, false, true), ()),
        builder_draft(*final(fresh)) == Draft::Ready(copied),
    ensures
        copied.status == status_code(status),
        match write_vec(json(*answer)) {
            Writing::Written(bytes) => {
                &&& is_sent_as_json(
                    *inspection,
                    header_values(*others).dom().len(),
                    copied,
                    bytes,
                    "build Codex Responses response failed: "@,
                    result,
                )
                &&& result is Ok ==> response_head(
                    result->Ok_0.response,
                ).headers["content-type"@].len() == 1 && spells(
                    response_head(result->Ok_0.response).headers["content-type"@][0],
                    "application/json"@,
                )
                &&& result is Ok && 200 <= status_code(status) <= 299
                    ==> result->Ok_0.upstream_error_summary is None
                &&& result is Ok && !(200 <= status_code(status) <= 299)
                    ==> inspection.summarize_body.ensures(
                    (body,),
                    result->Ok_0.upstream_error_summary,
                )
            },
            Writing::Failed(text) => fails_saying(
                result,
                "serialize Codex Responses json failed: "@ + text,
            ),
        },
{
    if write_vec(json(*answer)) is Written && result is Ok {
        let sent = response_head(result->Ok_0.response);
        assert(!copied.headers.contains_key("content-type"@));
        lemma_json_head(copied, sent);
        assert(sent.headers["content-type"@].last() == sent.headers["content-type"@][0]);
    }
}

} // verus!
