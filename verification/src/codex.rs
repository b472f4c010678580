//! Chat completions answered in the shape of the Responses API.

use axum::http::header::HeaderMap;
use axum::http::StatusCode;
use bytes::Bytes;
use serde_json::Value;
use vstd::prelude::*;
use vstd::string::{StringExecFns, StringSliceAdditionalSpecFns};
use vstd::utf8::{
    decode_utf8, encode_scalar, encode_utf8, encode_utf8_decode_utf8, encode_utf8_first_scalar,
    encode_utf8_valid_utf8, is_char_boundary, pop_first_scalar, valid_utf8,
};

use crate::error::{
    error_text, is_request_failed, proxy_error_message, request_failed, ProxyError,
};
use crate::json::{
    from_slice, json, json_error_string, read_slice, text_from, to_vec, write_vec, Json, Reading,
    Writing,
};
use crate::message::{
    ascii_bytes, bytes_content, clone_fields, header_values, is_success_code, remove_field,
    slice_of, status_code, Headers,
};
use crate::response::{
    build_written_json_response, json_headers, rebuilt_response_is_json, Inspection,
    PreparedResponse,
};

verus! {

/// How many bytes of an error body that is no JSON are kept.
pub const MAX_RAW_ERROR_BYTES: usize = 1024;

/// How many characters at the start of `s` are encoded in at most `room` bytes.
pub open spec fn chars_within(s: Seq<char>, room: int) -> nat
    decreases s.len(),
{
    if s.len() == 0 || encode_scalar(s[0] as u32).len() > room {
        0
    } else {
        1 + chars_within(s.drop_first(), room - encode_scalar(s[0] as u32).len())
    }
}

/// A text that is cut off after the last whole character within the first bytes that are kept.
pub open spec fn shortened(s: Seq<char>) -> Seq<char> {
    if encode_utf8(s).len() <= MAX_RAW_ERROR_BYTES {
        s
    } else {
        s.take(chars_within(s, MAX_RAW_ERROR_BYTES as int) as int) + "...(truncated)"@
    }
}

/// The text that bytes stand for in UTF-8, where what is not UTF-8 is replaced.
pub uninterp spec fn utf8_lossy(bytes: Seq<u8>) -> Seq<char>;

/// The document that an error body stands for: the JSON it holds, or else its text, shortened.
pub open spec fn error_document(body: Seq<u8>) -> Json {
    match read_slice(body) {
        Reading::Document(document) => document,
        Reading::Malformed(_) => Json::Text(shortened(utf8_lossy(body))),
    }
}

/// A body that is UTF-8 but no JSON stands for its own text, shortened.
pub open spec fn plain_text_is_kept(body: Seq<u8>) -> bool {
    read_slice(body) is Malformed && valid_utf8(body) ==> error_document(body) == Json::Text(
        shortened(decode_utf8(body)),
    )
}

/// `String::from_utf8_lossy`: of valid UTF-8 it is the text that the bytes encode.
#[verifier::external_body]
fn lossy_text(bytes: &[u8]) -> (text: String)
    ensures
        text@ == utf8_lossy(bytes@),
        valid_utf8(bytes@) ==> text@ == decode_utf8(bytes@),
{
    String::from_utf8_lossy(bytes).into_owned()
}

/// The characters within `room` bytes are a prefix of the text.
proof fn lemma_chars_within(s: Seq<char>, room: int)
    ensures
        chars_within(s, room) <= s.len(),
    decreases s.len(),
{
    if s.len() > 0 && encode_scalar(s[0] as u32).len() <= room {
        lemma_chars_within(s.drop_first(), room - encode_scalar(s[0] as u32).len());
    }
}

/// Cutting the encoding of a text at the last character boundary within `room` bytes cuts the
/// text after the characters that fit.
proof fn lemma_cut(s: Seq<char>, room: int, end: int)
    requires
        0 <= end <= room,
        is_char_boundary(encode_utf8(s), end),
        forall|k: int|
            end < k <= room && k <= encode_utf8(s).len() ==> !is_char_boundary(encode_utf8(s), k),
    ensures
        end <= encode_utf8(s).len(),
        encode_utf8(s).subrange(0, end) == encode_utf8(s.take(chars_within(s, room) as int)),
    decreases s.len(),
{
    let bytes = encode_utf8(s);
    encode_utf8_valid_utf8(s);
    lemma_chars_within(s, room);
    if s.len() == 0 {
        assert(end == 0);
        assert(bytes.subrange(0, 0) =~= encode_utf8(s.take(0)));
    } else {
        let first = encode_scalar(s[0] as u32);
        let rest = s.drop_first();
        encode_utf8_first_scalar(s);
        encode_utf8_valid_utf8(rest);
        assert(pop_first_scalar(bytes) =~= encode_utf8(rest));
        assert(forall|k: int|
            k > 0 && k <= bytes.len() ==> is_char_boundary(bytes, k) == is_char_boundary(
                encode_utf8(rest),
                k - first.len(),
            ));
        if first.len() > room {
            if end > 0 {
                assert(!is_char_boundary(encode_utf8(rest), end - first.len()));
            }
            assert(s.take(0) =~= Seq::<char>::empty());
            assert(bytes.subrange(0, 0) =~= encode_utf8(s.take(0)));
        } else {
            assert(is_char_boundary(bytes, first.len() as int)) by {
                assert(is_char_boundary(encode_utf8(rest), 0));
            }
            assert(end >= first.len());
            let n = chars_within(rest, room - first.len());
            assert forall|k: int|
                end - first.len() < k <= room - first.len() && k <= encode_utf8(
                    rest,
                ).len() implies !is_char_boundary(encode_utf8(rest), k) by {
                assert(!is_char_boundary(bytes, k + first.len()));
            }
            lemma_cut(rest, room - first.len(), end - first.len());
            lemma_chars_within(rest, room - first.len());
            let taken = s.take(chars_within(s, room) as int);
            assert(taken.drop_first() =~= rest.take(n as int));
            assert(bytes.subrange(0, end) =~= first + encode_utf8(rest).subrange(
                0,
                end - first.len(),
            ));
        }
    }
}

/// Shortens a text that takes too many bytes.
pub fn shorten(text: String) -> (short: String)
    ensures
        short@ == shortened(text@),
{
    let s = text.as_str();
    let bytes = s.as_bytes();
    if bytes.len() <= MAX_RAW_ERROR_BYTES {
        return text;
    }
    proof {
        encode_utf8_valid_utf8(text@);
    }
    let mut end: usize = MAX_RAW_ERROR_BYTES;
    while end > 0 && !s.is_char_boundary(end)
        invariant
            s@ == text@,
            end <= MAX_RAW_ERROR_BYTES,
            forall|k: int|
                end < k <= MAX_RAW_ERROR_BYTES ==> !is_char_boundary(encode_utf8(text@), k),
        decreases end,
    {
        end = end - 1;
    }
    let (head, _) = s.split_at(end);
    proof {
        lemma_cut(text@, MAX_RAW_ERROR_BYTES as int, end as int);
        encode_utf8_decode_utf8(head@);
        encode_utf8_decode_utf8(
            text@.take(chars_within(text@, MAX_RAW_ERROR_BYTES as int) as int),
        );
    }
    let mut short = head.to_owned();
    short.append("...(truncated)");
    short
}

/// The document that an error body stands for: the JSON it holds, or else its text, shortened.
pub fn parse_codex_chat_error_body(body: &[u8]) -> (value: Value)
    ensures
        json(value) == error_document(body@),
        read_slice(body@) matches Reading::Document(document) ==> json(value) == document,
        read_slice(body@) is Malformed && valid_utf8(body@) ==> json(value) == Json::Text(
            shortened(decode_utf8(body@)),
        ),
{
    match from_slice(body) {
        Ok(value) => value,
        Err(_) => text_from(shorten(lossy_text(body))),
    }
}

/// What the answer to a chat completion holds, and whether it belongs in the history of
/// responses.
pub struct ConvertedChat {
    pub body: Value,
    pub record: bool,
}

/// A converted completion is sent and recorded; one that could not be converted is a failed
/// request.
pub open spec fn converts(
    outcome: Result<Value, ProxyError>,
    result: Result<ConvertedChat, ProxyError>,
) -> bool {
    match outcome {
        Ok(value) => result is Ok && result->Ok_0.body == value && result->Ok_0.record,
        Err(error) => result is Err && is_request_failed(
            result->Err_0,
            "transform upstream chat json failed: "@ + error_text(error),
        ),
    }
}

/// `explain`, given that document, may answer with `answer`.
pub open spec fn explains<E: FnOnce(&Value) -> Value>(
    explain: E,
    document: Json,
    answer: Value,
) -> bool {
    exists|value: Value| #[trigger]
        json(value) == document && explain.ensures((&value,), answer)
}

/// What becomes of the body of a chat completion, where `convert` converts a completion and
/// `explain` an error.
pub open spec fn converts_body<
    C: FnOnce(Value) -> Result<Value, ProxyError>,
    E: FnOnce(&Value) -> Value,
>(
    status: StatusCode,
    body: Seq<u8>,
    convert: C,
    explain: E,
    result: Result<ConvertedChat, ProxyError>,
) -> bool {
    if is_success_code(status_code(status)) {
        match read_slice(body) {
            Reading::Document(document) => exists|
                value: Value,
                outcome: Result<Value, ProxyError>,
            |
                json(value) == document && #[trigger] convert.ensures((value,), outcome)
                    && converts(outcome, result),
            Reading::Malformed(text) => result is Err && is_request_failed(
                result->Err_0,
                "parse upstream chat json failed: "@ + text,
            ),
        }
    } else {
        &&& result is Ok
        &&& !result->Ok_0.record
        &&& explains(explain, error_document(body), result->Ok_0.body)
        &&& plain_text_is_kept(body)
    }
}

/// Takes the outcome of a conversion: what was converted belongs in the history.
pub fn accept_converted_chat(outcome: Result<Value, ProxyError>) -> (result: Result<
    ConvertedChat,
    ProxyError,
>)
    ensures
        converts(outcome, result),
{
    match outcome {
        Ok(value) => Ok(ConvertedChat { body: value, record: true }),
        Err(error) => Err(
            request_failed(
                "transform upstream chat json failed: ",
                proxy_error_message(error).as_str(),
            ),
        ),
    }
}

/// Converts the body of a chat completion.
///
/// Where upstream reported success, `convert` makes the answer, which belongs in the history.
/// Where upstream reported an error, `explain` makes the answer, whatever the body is, and the
/// history does not hear of it.
pub fn convert_codex_chat_body<
    C: FnOnce(Value) -> Result<Value, ProxyError>,
    E: FnOnce(&Value) -> Value,
>(status: StatusCode, body: &Bytes, convert: C, explain: E) -> (result: Result<
    ConvertedChat,
    ProxyError,
>)
    requires
        forall|value: Value| #[trigger] convert.requires((value,)),
        forall|value: &Value| #[trigger] explain.requires((value,)),
    ensures
        converts_body(status, bytes_content(*body), convert, explain, result),
        !is_success_code(status_code(status)) ==> (read_slice(
            bytes_content(*body),
        ) matches Reading::Document(document) ==> explains(explain, document, result->Ok_0.body)),
{
    if status.is_success() {
        match from_slice(slice_of(body)) {
            Ok(upstream_body) => {
                let ghost value = upstream_body;
                let outcome = convert(upstream_body);
                assert(convert.ensures((value,), outcome));
                accept_converted_chat(outcome)
            },
            Err(error) => Err(
                request_failed(
                    "parse upstream chat json failed: ",
                    json_error_string(&error).as_str(),
                ),
            ),
        }
    } else {
        let parsed_value = parse_codex_chat_error_body(slice_of(body));
        let answer = ConvertedChat { body: explain(&parsed_value), record: false };
        assert(explains(explain, json(parsed_value), answer.body));
        Ok(answer)
    }
}

/// Sends the answer to a chat completion as JSON. The summary is one of the upstream body, and the
/// content type is that of the answer alone.
pub fn build_buffered_codex_chat_response_with_context<
    B: Fn(&Bytes) -> Option<String>,
    J: Fn(&Value) -> Option<String>,
    T: Fn(&Bytes) -> u64,
>(
    status: StatusCode,
    headers: &HeaderMap,
    body: &Bytes,
    response_body: &Value,
    inspection: &Inspection<B, J, T>,
) -> (result: Result<PreparedResponse, ProxyError>)
    requires
        inspection.is_total(),
    ensures
        match write_vec(json(*response_body)) {
            Writing::Written(bytes) => exists|summary: Option<String>| #[trigger]
                inspection.notes_body(status, *body, summary) && inspection.sends_json(
                    status,
                    header_values(*headers).remove("content-type"@),
                    summary,
                    bytes,
                    "build Codex Responses response failed: "@,
                    result,
                ),
            Writing::Failed(text) => result is Err && is_request_failed(
                result->Err_0,
                "serialize Codex Responses json failed: "@ + text,
            ),
        },
{
    let upstream_error_summary = if !status.is_success() {
        (inspection.summarize_body)(body)
    } else {
        None
    };
    assert(inspection.notes_body(status, *body, upstream_error_summary));
    let mut response_headers = clone_fields(headers);
    proof {
        reveal_strlit("content-type");
    }
    remove_field(&mut response_headers, "content-type");
    build_written_json_response(
        status,
        &response_headers,
        upstream_error_summary,
        to_vec(response_body),
        "serialize Codex Responses json failed: ",
        "build Codex Responses response failed: ",
        inspection,
    )
}

/// The answer to a chat completion has one content type, JSON, whatever upstream named.
pub proof fn chat_answer_is_json_alone(headers: Headers)
    ensures
        json_headers(headers.remove("content-type"@))["content-type"@] == seq![
            ascii_bytes("application/json"@),
        ],
{
    rebuilt_response_is_json(headers.remove("content-type"@));
}

/// What is kept of a text within a number of bytes fits, and not one character more would.
pub proof fn kept_characters_are_as_many_as_fit(s: Seq<char>, room: int)
    requires
        room >= 0,
    ensures
        chars_within(s, room) <= s.len(),
        encode_utf8(s.take(chars_within(s, room) as int)).len() <= room,
        chars_within(s, room) < s.len() ==> encode_utf8(
            s.take(chars_within(s, room) as int + 1),
        ).len() > room,
    decreases s.len(),
{
    let n = chars_within(s, room);
    if s.len() == 0 {
    } else {
        let first = encode_scalar(s[0] as u32);
        let rest = s.drop_first();
        if first.len() > room {
            assert(s.take(0) =~= Seq::<char>::empty());
            assert(s.take(1)[0] == s[0]);
            assert(encode_utf8(s.take(1)).len() >= first.len());
        } else {
            kept_characters_are_as_many_as_fit(rest, room - first.len());
            assert(s.take(n as int).drop_first() =~= rest.take(n - 1));
            if n < s.len() {
                assert(s.take(n as int + 1).drop_first() =~= rest.take(n as int));
            }
        }
    }
}

/// An error text within the limit is kept whole, and a longer one takes at most the limit and the
/// mark that says it was cut.
pub proof fn shortened_text_is_bounded(s: Seq<char>)
    ensures
        encode_utf8(s).len() <= MAX_RAW_ERROR_BYTES ==> shortened(s) == s,
        encode_utf8(shortened(s)).len() <= MAX_RAW_ERROR_BYTES + encode_utf8(
            "...(truncated)"@,
        ).len(),
{
    let n = chars_within(s, MAX_RAW_ERROR_BYTES as int) as int;
    kept_characters_are_as_many_as_fit(s, MAX_RAW_ERROR_BYTES as int);
    lemma_encode_concat(s.take(n), "...(truncated)"@);
}

/// The encoding of two texts in a row is the two encodings in a row.
proof fn lemma_encode_concat(a: Seq<char>, b: Seq<char>)
    ensures
        encode_utf8(a + b) == encode_utf8(a) + encode_utf8(b),
    decreases a.len(),
{
    if a.len() == 0 {
        assert(a + b =~= b);
        assert(encode_utf8(a) + encode_utf8(b) =~= encode_utf8(b));
    } else {
        lemma_encode_concat(a.drop_first(), b);
        assert((a + b).drop_first() =~= a.drop_first() + b);
        assert(encode_utf8(a + b) =~= encode_utf8(a) + encode_utf8(b));
    }
}

} // verus!
