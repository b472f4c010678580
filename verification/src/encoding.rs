//! Content encodings of upstream responses, and how a buffered body is decoded.

use axum::http::header::HeaderMap;
use bytes::Bytes;
use std::io::Read;
use vstd::prelude::*;

use crate::message::{
    ascii_text, bytes_content, bytes_from, first_value, header_values, is_visible_text,
    remove_field, slice_of, value_text, Headers,
};
use crate::text::{lower, lower_trimmed, same, trim};

verus! {

#[verifier::external_type_specification]
#[verifier::external_body]
pub struct ExIoError(std::io::Error);

/// What decoding a body gives: its plain form, or the text of the error that the decoder reports.
pub enum Decoding {
    Plain(Seq<u8>),
    Damaged(Seq<char>),
}

/// The text that an `io::Error` displays.
pub uninterp spec fn io_error_text(error: std::io::Error) -> Seq<char>;

/// What the decoder makes of the first member of a gzip file.
pub uninterp spec fn gunzipped(body: Seq<u8>) -> Decoding;

/// What the decoder makes of a raw deflate stream.
pub uninterp spec fn inflated(body: Seq<u8>) -> Decoding;

/// What the decoder makes of a brotli stream.
pub uninterp spec fn unbrotlied(body: Seq<u8>) -> Decoding;

/// A content encoding that can be decoded.
pub open spec fn is_known_encoding(encoding: Seq<char>) -> bool {
    encoding == "gzip"@ || encoding == "x-gzip"@ || encoding == "deflate"@ || encoding == "br"@
}

/// What a body in that content encoding decodes to. A body in an encoding that is not known is
/// taken as it is.
pub open spec fn decoded(encoding: Seq<char>, body: Seq<u8>) -> Decoding {
    if encoding == "gzip"@ || encoding == "x-gzip"@ {
        gunzipped(body)
    } else if encoding == "deflate"@ {
        inflated(body)
    } else if encoding == "br"@ {
        unbrotlied(body)
    } else {
        Decoding::Plain(body)
    }
}

/// The content encoding that a header value names, without blanks around it and in lower case.
/// `identity` and an empty value name none.
pub open spec fn encoding_in(value: Seq<char>) -> Option<Seq<char>> {
    let name = lower(trim(value));
    if name.len() > 0 && name != "identity"@ {
        Some(name)
    } else {
        None
    }
}

/// The content encoding that the header fields name: what the first value names, if that value is
/// readable.
pub open spec fn encoding_of(headers: Headers) -> Option<Seq<char>> {
    if headers.contains_key("content-encoding"@) && headers["content-encoding"@].len() > 0
        && is_visible_text(headers["content-encoding"@][0]) {
        encoding_in(ascii_text(headers["content-encoding"@][0]))
    } else {
        None
    }
}

/// The header fields without those that describe the encoded form of a body.
pub open spec fn without_entity_fields(headers: Headers) -> Headers {
    headers.remove("content-encoding"@).remove("content-length"@).remove("transfer-encoding"@)
}

/// A message with its body decoded. Where there is nothing to decode, and where the body is
/// damaged, the message stays as it is.
pub open spec fn decoded_message(headers: Headers, body: Seq<u8>) -> (Headers, Seq<u8>) {
    match encoding_of(headers) {
        Some(encoding) => match decoded(encoding, body) {
            Decoding::Plain(plain) => (without_entity_fields(headers), plain),
            Decoding::Damaged(_) => (headers, body),
        },
        None => (headers, body),
    }
}

/// Why a body was not decoded, though its header fields name a content encoding.
#[derive(Debug)]
pub enum EncodingTrouble {
    /// The encoding is not known.
    Unknown(String),
    /// The body is damaged: the encoding, and what the decoder says.
    Damaged(String, String),
}

/// `trouble` is what stands in the way of decoding a message, if anything does.
pub open spec fn tells(trouble: Option<EncodingTrouble>, headers: Headers, body: Seq<u8>) -> bool {
    match encoding_of(headers) {
        None => trouble is None,
        Some(encoding) => if is_known_encoding(encoding) {
            match decoded(encoding, body) {
                Decoding::Plain(_) => trouble is None,
                Decoding::Damaged(text) => {
                    &&& trouble matches Some(EncodingTrouble::Damaged(name, message))
                    &&& name@ == encoding
                    &&& message@ == text
                },
            }
        } else {
            trouble matches Some(EncodingTrouble::Unknown(name)) && name@ == encoding
        },
    }
}

/// `ToString::to_string` of an `io::Error`.
#[verifier::external_body]
fn io_error_string(error: &std::io::Error) -> (text: String)
    ensures
        text@ == io_error_text(*error),
{
    error.to_string()
}

/// `flate2::read::GzDecoder`, read to the end.
#[verifier::external_body]
fn gunzip(body: &[u8]) -> (result: Result<Vec<u8>, std::io::Error>)
    ensures
        match result {
            Ok(plain) => gunzipped(body@) == Decoding::Plain(plain@),
            Err(error) => gunzipped(body@) == Decoding::Damaged(io_error_text(error)),
        },
{
    let mut plain = Vec::new();
    flate2::read::GzDecoder::new(body).read_to_end(&mut plain)?;
    Ok(plain)
}

/// `flate2::read::DeflateDecoder`, read to the end.
#[verifier::external_body]
fn inflate(body: &[u8]) -> (result: Result<Vec<u8>, std::io::Error>)
    ensures
        match result {
            Ok(plain) => inflated(body@) == Decoding::Plain(plain@),
            Err(error) => inflated(body@) == Decoding::Damaged(io_error_text(error)),
        },
{
    let mut plain = Vec::new();
    flate2::read::DeflateDecoder::new(body).read_to_end(&mut plain)?;
    Ok(plain)
}

/// `brotli::BrotliDecompress` into a vector.
#[verifier::external_body]
fn unbrotli(body: &[u8]) -> (result: Result<Vec<u8>, std::io::Error>)
    ensures
        match result {
            Ok(plain) => unbrotlied(body@) == Decoding::Plain(plain@),
            Err(error) => unbrotlied(body@) == Decoding::Damaged(io_error_text(error)),
        },
{
    let mut plain = Vec::new();
    brotli::BrotliDecompress(&mut std::io::Cursor::new(body), &mut plain)?;
    Ok(plain)
}

/// Whether bodies in the content encoding of that name can be decoded.
pub fn knows_encoding(content_encoding: &str) -> (known: bool)
    ensures
        known == is_known_encoding(content_encoding@),
        !known ==> forall|body: Seq<u8>| #[trigger]
            decoded(content_encoding@, body) == Decoding::Plain(body),
{
    same(content_encoding, "gzip") || same(content_encoding, "x-gzip") || same(
        content_encoding,
        "deflate",
    ) || same(content_encoding, "br")
}

/// Decodes a body in the content encoding of that name.
pub fn decompress_body(content_encoding: &str, body: &[u8]) -> (result: Result<
    Vec<u8>,
    std::io::Error,
>)
    ensures
        match result {
            Ok(plain) => decoded(content_encoding@, body@) == Decoding::Plain(plain@),
            Err(error) => decoded(content_encoding@, body@) == Decoding::Damaged(
                io_error_text(error),
            ),
        },
{
    if same(content_encoding, "gzip") || same(content_encoding, "x-gzip") {
        gunzip(body)
    } else if same(content_encoding, "deflate") {
        inflate(body)
    } else if same(content_encoding, "br") {
        unbrotli(body)
    } else {
        Ok(vstd::slice::slice_to_vec(body))
    }
}

/// The content encoding that a header value names, if any.
pub fn encoding_name(value: &str) -> (encoding: Option<String>)
    ensures
        match encoding {
            Some(name) => encoding_in(value@) == Some(name@),
            None => encoding_in(value@) is None,
        },
{
    let name = lower_trimmed(value);
    if !name.as_str().is_empty() && !same(name.as_str(), "identity") {
        Some(name)
    } else {
        None
    }
}

/// The content encoding that the header fields name, if any.
pub fn content_encoding(headers: &HeaderMap) -> (encoding: Option<String>)
    ensures
        match encoding {
            Some(name) => encoding_of(header_values(*headers)) == Some(name@),
            None => encoding_of(header_values(*headers)) is None,
        },
{
    proof {
        reveal_strlit("content-encoding");
    }
    match first_value(headers, "content-encoding") {
        Some(value) => match value_text(value) {
            Some(text) => encoding_name(text),
            None => None,
        },
        None => None,
    }
}

/// Puts a decompressed body in the place of the one that came, and takes out of the header fields
/// what described the encoded form. Without a decompressed body the message stays as it is.
pub fn replace_decoded_body(
    headers: &mut HeaderMap,
    raw_body: Bytes,
    decompressed: Option<Vec<u8>>,
) -> (body: Bytes)
    ensures
        match decompressed {
            Some(plain) => {
                &&& bytes_content(body) == plain@
                &&& header_values(*final(headers)) == without_entity_fields(
                    header_values(*old(headers)),
                )
            },
            None => {
                &&& bytes_content(body) == bytes_content(raw_body)
                &&& header_values(*final(headers)) == header_values(*old(headers))
            },
        },
{
    match decompressed {
        Some(plain) => {
            proof {
                reveal_strlit("content-encoding");
                reveal_strlit("content-length");
                reveal_strlit("transfer-encoding");
            }
            remove_field(headers, "content-encoding");
            remove_field(headers, "content-length");
            remove_field(headers, "transfer-encoding");
            bytes_from(plain)
        },
        None => raw_body,
    }
}

/// Decodes a buffered body as `decode_buffered_response_body` does, and tells what stood in the way.
pub fn decode_noting_trouble(headers: &mut HeaderMap, raw_body: Bytes) -> (outcome: (
    Bytes,
    Option<EncodingTrouble>,
))
    ensures
        decoded_message(header_values(*old(headers)), bytes_content(raw_body)) == (
            header_values(*final(headers)),
            bytes_content(outcome.0),
        ),
        tells(outcome.1, header_values(*old(headers)), bytes_content(raw_body)),
{
    let (decompressed, trouble) = match content_encoding(headers) {
        Some(encoding) => match decompress_body(encoding.as_str(), slice_of(&raw_body)) {
            Ok(plain) => {
                let trouble = if knows_encoding(encoding.as_str()) {
                    None
                } else {
                    Some(EncodingTrouble::Unknown(encoding))
                };
                (Some(plain), trouble)
            },
            Err(error) => (
                None,
                Some(EncodingTrouble::Damaged(encoding, io_error_string(&error))),
            ),
        },
        None => (None, None),
    };
    (replace_decoded_body(headers, raw_body, decompressed), trouble)
}

/// Decodes a buffered body, and takes out of the header fields what described its encoded form.
/// A body that cannot be decoded is handed back as it came, with all its header fields.
pub fn decode_buffered_response_body(headers: &mut HeaderMap, raw_body: Bytes) -> (body: Bytes)
    ensures
        decoded_message(header_values(*old(headers)), bytes_content(raw_body)) == (
            header_values(*final(headers)),
            bytes_content(body),
        ),
{
    let (body, _) = decode_noting_trouble(headers, raw_body);
    body
}

/// Decoding a message a second time changes nothing: what was decoded says so no more.
pub proof fn decoding_twice_is_decoding_once(headers: Headers, body: Seq<u8>)
    ensures
        ({
            let once = decoded_message(headers, body);
            decoded_message(once.0, once.1) == once
        }),
{
}

/// Decoding changes the header fields only where the body was decoded, and then it takes out the
/// content encoding, the content length and the transfer encoding and nothing else.
pub proof fn decoding_keeps_other_fields(headers: Headers, body: Seq<u8>, name: Seq<char>)
    ensures
        ({
            let after = decoded_message(headers, body).0;
            let decoding = encoding_of(headers) is Some && decoded(
                encoding_of(headers)->Some_0,
                body,
            ) is Plain;
            let entity = name == "content-encoding"@ || name == "content-length"@ || name
                == "transfer-encoding"@;
            &&& after.contains_key(name) <==> headers.contains_key(name) && !(decoding && entity)
            &&& after.contains_key(name) ==> after[name] == headers[name]
        }),
{
}

} // verus!
