//! How the bodies of upstream responses are read and decoded.

use axum::http::header::HeaderMap;
use bytes::Bytes;
use vstd::prelude::*;

use crate::encoding::{
    content_encoding, decode_buffered_response_body, decode_noting_trouble, decompress_body,
    encoding_in, encoding_name, gunzipped, inflated, io_error_text, knows_encoding,
    replace_decoded_body, unbrotlied, Decoding, EncodingTrouble,
};
use crate::error::ProxyError;
use crate::laws::wording::{
    is_padded, is_readable, is_small_form, lemma_small_form, lemma_trim, lemma_value_chars,
    value_chars,
};
use crate::message::{bytes_content, header_values, Headers};
use crate::stream::{duration_nanos, StreamTimeoutPhase};
use crate::upstream::{read_buffered_body, read_decoded_buffered_response, BodyRead};

verus! {

/// What a decoder found is what comes back: the plain form, or its own error.
pub open spec fn hands_on(found: Decoding, result: Result<Vec<u8>, std::io::Error>) -> bool {
    match found {
        Decoding::Plain(plain) => result is Ok && result->Ok_0@ == plain,
        Decoding::Damaged(text) => result is Err && io_error_text(result->Err_0) == text,
    }
}

/// Each content encoding goes to its own decoder, and what that decoder finds comes back. A body in
/// any other encoding comes back as it is.
pub proof fn each_encoding_has_its_decoder(
    encoding: &str,
    body: &[u8],
    result: Result<Vec<u8>, std::io::Error>,
)
    requires
        decompress_body.ensures((encoding, body), result),
    ensures
        encoding@ == "gzip"@ || encoding@ == "x-gzip"@ ==> hands_on(gunzipped(body@), result),
        encoding@ == "deflate"@ ==> hands_on(inflated(body@), result),
        encoding@ == "br"@ ==> hands_on(unbrotlied(body@), result),
        encoding@ != "gzip"@ && encoding@ != "x-gzip"@ && encoding@ != "deflate"@ && encoding@
            != "br"@ ==> result is Ok && result->Ok_0@ == body@,
{
    reveal_strlit("gzip");
    reveal_strlit("x-gzip");
    reveal_strlit("deflate");
    reveal_strlit("br");
    assert("gzip"@.len() == 4 && "x-gzip"@.len() == 6 && "deflate"@.len() == 7 && "br"@.len() == 2);
}

/// Four encodings are known.
pub proof fn four_encodings_are_known(encoding: &str, known: bool)
    requires
        knows_encoding.ensures((encoding,), known),
    ensures
        known <==> (encoding@ == "gzip"@ || encoding@ == "x-gzip"@ || encoding@ == "deflate"@
            || encoding@ == "br"@),
{
}

/// A header value names what stands between the blanks at either end, in small letters. Nothing
/// but blanks names no encoding, and neither does `identity`.
pub proof fn encoding_is_what_stands_between_blanks(
    value: &str,
    from: int,
    to: int,
    encoding: Option<String>,
)
    requires
        encoding_name.ensures((value,), encoding),
        is_padded(value@, 0, from, to, value@.len() as int),
    ensures
        match encoding {
            Some(name) => from < to && is_small_form(name@, value@.subrange(from, to)) && name@
                != "identity"@,
            None => from == to || is_small_form("identity"@, value@.subrange(from, to)),
        },
{
    lemma_encoding_in(value@, from, to);
    if encoding is Some {
        lemma_small_form(encoding->Some_0@, value@.subrange(from, to));
    }
}

proof fn lemma_encoding_in(text: Seq<char>, from: int, to: int)
    requires
        is_padded(text, 0, from, to, text.len() as int),
    ensures
        match encoding_in(text) {
            Some(name) => from < to && is_small_form(name, text.subrange(from, to)) && name
                != "identity"@,
            None => from == to || is_small_form("identity"@, text.subrange(from, to)),
        },
{
    lemma_trim(text, 0, from, to, text.len() as int);
    assert(text.subrange(0, text.len() as int) =~= text);
    let name = crate::text::lower(text.subrange(from, to));
    lemma_small_form(name, text.subrange(from, to));
}

/// The content encoding of a message is what the first value of its field names, if that value is
/// readable; otherwise it has none.
pub proof fn first_readable_value_names_the_encoding(
    headers: &HeaderMap,
    from: int,
    to: int,
    encoding: Option<String>,
)
    requires
        content_encoding.ensures((headers,), encoding),
    ensures
        ({
            let fields = header_values(*headers);
            let named = fields.contains_key("content-encoding"@)
                && fields["content-encoding"@].len() > 0 && is_readable(
                fields["content-encoding"@][0],
            );
            let text = value_chars(fields["content-encoding"@][0]);
            if !named {
                encoding is None
            } else {
                is_padded(text, 0, from, to, text.len() as int) ==> match encoding {
                    Some(name) => from < to && is_small_form(name@, text.subrange(from, to))
                        && name@ != "identity"@,
                    None => from == to || is_small_form("identity"@, text.subrange(from, to)),
                }
            }
        }),
{
    let fields = header_values(*headers);
    if fields.contains_key("content-encoding"@) && fields["content-encoding"@].len() > 0 {
        let value = fields["content-encoding"@][0];
        lemma_value_chars(value);
        let text = value_chars(value);
        if is_padded(text, 0, from, to, text.len() as int) {
            lemma_encoding_in(text, from, to);
        }
    }
}

/// Two sets of fields differ in the content encoding, the content length and the transfer encoding
/// alone, which the second does not have.
pub open spec fn lost_entity_fields(before: Headers, after: Headers) -> bool {
    &&& !after.contains_key("content-encoding"@)
    &&& !after.contains_key("content-length"@)
    &&& !after.contains_key("transfer-encoding"@)
    &&& forall|name: Seq<char>|
        name != "content-encoding"@ && name != "content-length"@ && name != "transfer-encoding"@
            ==> (#[trigger] after.contains_key(name) <==> before.contains_key(name)) && (
        before.contains_key(name) ==> after[name] == before[name])
}

/// Decoding a message gives the plain form and drops the entity fields exactly where the body was
/// decompressed; a message without an encoding, or with a damaged body, stays as it is, to the last
/// byte and field.
pub proof fn decoding_is_decompressing_what_the_fields_name(
    headers: &mut HeaderMap,
    raw_body: Bytes,
    body: Bytes,
    named: &HeaderMap,
    encoding: Option<String>,
    name: &str,
    raw: &[u8],
    decompressed: Result<Vec<u8>, std::io::Error>,
)
    requires
        decode_buffered_response_body.ensures((headers, raw_body), body),
        header_values(*named) == header_values(*old(headers)),
        content_encoding.ensures((named,), encoding),
        encoding is Some ==> name@ == encoding->Some_0@,
        raw@ == bytes_content(raw_body),
        decompress_body.ensures((name, raw), decompressed),
    ensures
        encoding is Some && decompressed is Ok ==> bytes_content(body) == decompressed->Ok_0@
            && lost_entity_fields(header_values(*old(headers)), header_values(*final(headers))),
        encoding is None || decompressed is Err ==> bytes_content(body) == bytes_content(raw_body)
            && header_values(*final(headers)) == header_values(*old(headers)),
{
}

/// A message is decoded in the same way where trouble is noted, and the trouble is told: an unknown
/// encoding by its name, and a damaged body by its encoding and what the decoder says.
pub proof fn trouble_is_what_stands_in_the_way(
    headers: &mut HeaderMap,
    raw_body: Bytes,
    body: Bytes,
    trouble: Option<EncodingTrouble>,
    other: &mut HeaderMap,
    same_body: Bytes,
    plain: Bytes,
    named: &HeaderMap,
    encoding: Option<String>,
    name: &str,
    known: bool,
    raw: &[u8],
    decompressed: Result<Vec<u8>, std::io::Error>,
)
    requires
        decode_noting_trouble.ensures((headers, raw_body), (body, trouble)),
        header_values(*old(other)) == header_values(*old(headers)),
        bytes_content(same_body) == bytes_content(raw_body),
        decode_buffered_response_body.ensures((other, same_body), plain),
        header_values(*named) == header_values(*old(headers)),
        content_encoding.ensures((named,), encoding),
        encoding is Some ==> name@ == encoding->Some_0@,
        knows_encoding.ensures((name,), known),
        raw@ == bytes_content(raw_body),
        decompress_body.ensures((name, raw), decompressed),
    ensures
        bytes_content(body) == bytes_content(plain),
        header_values(*final(headers)) == header_values(*final(other)),
        encoding is None ==> trouble is None,
        encoding is Some && !known ==> trouble is Some && trouble->Some_0 is Unknown
            && trouble->Some_0->Unknown_0@ == name@,
        encoding is Some && known && decompressed is Ok ==> trouble is None,
        encoding is Some && known && decompressed is Err ==> trouble is Some
            && trouble->Some_0 is Damaged && trouble->Some_0->Damaged_0@ == name@
            && trouble->Some_0->Damaged_1@ == io_error_text(decompressed->Err_0),
{
}

/// A decompressed body takes the place of the raw one, and the entity fields go; without one
/// nothing changes.
pub proof fn decompressed_body_takes_the_place(
    headers: &mut HeaderMap,
    raw_body: Bytes,
    decompressed: Option<Vec<u8>>,
    body: Bytes,
)
    requires
        replace_decoded_body.ensures((headers, raw_body, decompressed), body),
    ensures
        decompressed is Some ==> bytes_content(body) == decompressed->Some_0@
            && lost_entity_fields(header_values(*old(headers)), header_values(*final(headers))),
        decompressed is None ==> bytes_content(body) == bytes_content(raw_body) && header_values(
            *final(headers),
        ) == header_values(*old(headers)),
{
}

/// A body that came in is the result. A failure is a failed request that says so, and a time limit
/// that passed is a timeout with the message for the first byte.
pub proof fn body_is_taken_as_it_came(
    read: BodyRead,
    result: Result<Bytes, ProxyError>,
    phase: StreamTimeoutPhase,
    limit: std::time::Duration,
    message: String,
)
    requires
        read_buffered_body.ensures((read,), result),
        phase is FirstByte,
        read is TimedOut ==> duration_nanos(limit) == duration_nanos(read->TimedOut_0),
        StreamTimeoutPhase::error_message.ensures((phase, limit), message),
    ensures
        match read {
            BodyRead::Complete(body) => result == Ok::<Bytes, ProxyError>(body),
            BodyRead::Failed(text) => result is Err && result->Err_0 is RequestFailed
                && result->Err_0->RequestFailed_0@ == "read response body failed: "@ + text@,
            BodyRead::TimedOut(_) => result is Err && result->Err_0 is Timeout
                && result->Err_0->Timeout_0@ == message@,
        },
{
}

/// The same trouble, or none, is told twice.
pub open spec fn same_trouble(a: Option<EncodingTrouble>, b: Option<EncodingTrouble>) -> bool {
    match (a, b) {
        (None, None) => true,
        (
            Some(EncodingTrouble::Unknown(name)),
            Some(EncodingTrouble::Unknown(other)),
        ) => name@ == other@,
        (
            Some(EncodingTrouble::Damaged(name, message)),
            Some(EncodingTrouble::Damaged(other, text)),
        ) => name@ == other@ && message@ == text@,
        _ => false,
    }
}

/// A body that came in is decoded, with the header fields that came with it, and what stood in the
/// way is told. A body that did not come in fails as the reading of it does.
pub proof fn body_that_came_in_is_decoded(
    headers: &HeaderMap,
    read: BodyRead,
    trouble: &mut Option<EncodingTrouble>,
    result: Result<(HeaderMap, Bytes), ProxyError>,
    fields: &mut HeaderMap,
    raw_body: Bytes,
    body: Bytes,
    found: Option<EncodingTrouble>,
)
    requires
        read_decoded_buffered_response.ensures((headers, read, trouble), result),
        header_values(*old(fields)) == header_values(*headers),
        read is Complete ==> bytes_content(raw_body) == bytes_content(read->Complete_0),
        decode_noting_trouble.ensures((fields, raw_body), (body, found)),
    ensures
        result is Ok <==> read is Complete,
        result is Ok ==> header_values(result->Ok_0.0) == header_values(*final(fields)),
        result is Ok ==> bytes_content(result->Ok_0.1) == bytes_content(body),
        read is Failed ==> result->Err_0 is RequestFailed && result->Err_0->RequestFailed_0@
            == "read response body failed: "@ + read->Failed_0@,
        read is TimedOut ==> result->Err_0 is Timeout,
        !(read is Complete) ==> *final(trouble) is None,
        read is Complete ==> same_trouble(*final(trouble), found),
{
}

} // verus!
