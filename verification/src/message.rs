//! HTTP messages: their mathematical model, and the calls into `http`, `axum`, `bytes` and
//! `reqwest` that read and build them.

use axum::body::Body;
use axum::http::header::{HeaderMap, HeaderName, HeaderValue};
use axum::http::response::Builder;
use axum::http::StatusCode;
use axum::response::Response;
use bytes::Bytes;
use vstd::prelude::*;

verus! {

/// Header fields: each name with its values, in the order in which they were added. Between
/// different names there is no order.
pub type Headers = Map<Seq<char>, Seq<Seq<u8>>>;

/// What stands before the body of a response.
pub struct Head {
    pub status: u16,
    pub headers: Headers,
}

/// What a response builder has collected: the head so far, or the text of the error that made it
/// give up.
pub enum Draft {
    Ready(Head),
    Failed(Seq<char>),
}

#[verifier::external_type_specification]
#[verifier::external_body]
#[verifier::reject_recursive_types(T)]
pub struct ExHeaderMap<T>(HeaderMap<T>);

#[verifier::external_type_specification]
#[verifier::external_body]
pub struct ExHeaderName(HeaderName);

#[verifier::external_type_specification]
#[verifier::external_body]
pub struct ExHeaderValue(HeaderValue);

#[verifier::external_type_specification]
#[verifier::external_body]
pub struct ExStatusCode(StatusCode);

#[verifier::external_type_specification]
#[verifier::external_body]
pub struct ExBuilder(Builder);

#[verifier::external_type_specification]
#[verifier::external_body]
#[verifier::reject_recursive_types(T)]
pub struct ExResponse<T>(axum::http::Response<T>);

#[verifier::external_type_specification]
#[verifier::external_body]
pub struct ExBody(Body);

#[verifier::external_type_specification]
#[verifier::external_body]
pub struct ExHttpError(axum::http::Error);

#[verifier::external_type_specification]
#[verifier::external_body]
pub struct ExBytes(Bytes);

#[verifier::external_type_specification]
#[verifier::external_body]
pub struct ExUpstreamResponse(reqwest::Response);

/// The fields that a `HeaderMap` holds.
pub uninterp spec fn header_values(headers: HeaderMap) -> Headers;

/// The text of a `HeaderName`.
pub uninterp spec fn header_name_text(name: HeaderName) -> Seq<char>;

/// The bytes of a `HeaderValue`.
pub uninterp spec fn header_value_bytes(value: HeaderValue) -> Seq<u8>;

/// The number of a `StatusCode`.
pub uninterp spec fn status_code(status: StatusCode) -> u16;

/// What a response `Builder` has collected.
pub uninterp spec fn builder_draft(builder: Builder) -> Draft;

/// The head of a built response.
pub uninterp spec fn response_head(response: Response) -> Head;

/// The body of a built response.
pub uninterp spec fn response_body(response: Response) -> Body;

/// The bytes of a `Body` that holds them all from the start.
pub uninterp spec fn body_content(body: Body) -> Seq<u8>;

/// The text that an `http::Error` displays.
pub uninterp spec fn http_error_text(error: axum::http::Error) -> Seq<char>;

/// The bytes that a `Bytes` holds.
pub uninterp spec fn bytes_content(bytes: Bytes) -> Seq<u8>;

/// The head of a response that came from upstream.
pub uninterp spec fn upstream_head(response: reqwest::Response) -> Head;

/// The status says that the request succeeded.
pub open spec fn is_success_code(status: u16) -> bool {
    200 <= status < 300
}

/// The fields with one more value at the end of those that `name` has.
pub open spec fn with_field(headers: Headers, name: Seq<char>, value: Seq<u8>) -> Headers {
    let before = if headers.contains_key(name) {
        headers[name]
    } else {
        seq![]
    };
    headers.insert(name, before.push(value))
}

/// The fields that a list of names and values makes up.
pub open spec fn gather(list: Seq<(Seq<char>, Seq<u8>)>) -> Headers
    decreases list.len(),
{
    if list.len() == 0 {
        Map::empty()
    } else {
        with_field(gather(list.drop_last()), list.last().0, list.last().1)
    }
}

/// The texts and bytes of a list of names and values.
pub open spec fn field_list(list: Seq<(&HeaderName, &HeaderValue)>) -> Seq<(Seq<char>, Seq<u8>)> {
    list.map_values(
        |f: (&HeaderName, &HeaderValue)| (header_name_text(*f.0), header_value_bytes(*f.1)),
    )
}

/// A byte that a header value may show as text: printable ASCII or a tab.
pub open spec fn is_visible(b: u8) -> bool {
    32 <= b < 127 || b == 9
}

/// A header value that can be read as text.
pub open spec fn is_visible_text(value: Seq<u8>) -> bool {
    forall|i: int| 0 <= i < value.len() ==> is_visible(#[trigger] value[i])
}

/// The text of a header value whose bytes are ASCII.
pub open spec fn ascii_text(value: Seq<u8>) -> Seq<char> {
    value.map_values(|b: u8| b as char)
}

/// The bytes of a text whose characters are ASCII.
pub open spec fn ascii_bytes(text: Seq<char>) -> Seq<u8> {
    text.map_values(|c: char| c as u8)
}

/// A text of printable ASCII characters.
pub open spec fn is_printable(text: Seq<char>) -> bool {
    forall|i: int| 0 <= i < text.len() ==> ' ' <= #[trigger] text[i] && text[i] <= '~'
}

/// A text of lower-case letters and hyphens, as the header names of this library are.
pub open spec fn is_plain_name(name: Seq<char>) -> bool {
    &&& 0 < name.len() < 64
    &&& forall|i: int|
        0 <= i < name.len() ==> ('a' <= #[trigger] name[i] && name[i] <= 'z') || name[i] == '-'
}

/// With fewer names than this, a `HeaderMap` always takes another.
pub open spec fn crowded() -> nat {
    6554
}

/// `StatusCode::is_success`: the number is one of 200 to 299.
pub assume_specification[ StatusCode::is_success ](status: &StatusCode) -> (success: bool)
    ensures
        success == is_success_code(status_code(*status)),
;

/// `HeaderMap::get` with a lower-case name: the first value of that name.
#[verifier::external_body]
pub(crate) fn first_value<'a>(headers: &'a HeaderMap, name: &str) -> (found: Option<
    &'a HeaderValue,
>)
    requires
        is_plain_name(name@),
    ensures
        match found {
            Some(value) => {
                &&& header_values(*headers).contains_key(name@)
                &&& header_values(*headers)[name@].len() > 0
                &&& header_value_bytes(*value) == header_values(*headers)[name@][0]
            },
            None => !header_values(*headers).contains_key(name@),
        },
{
    headers.get(name)
}

/// `HeaderMap::get_all` with a lower-case name: every value of that name, in order.
#[verifier::external_body]
pub(crate) fn all_values<'a>(headers: &'a HeaderMap, name: &str) -> (found: Vec<&'a HeaderValue>)
    requires
        is_plain_name(name@),
    ensures
        found@.map_values(|v: &HeaderValue| header_value_bytes(*v)) == (if header_values(
            *headers,
        ).contains_key(name@) {
            header_values(*headers)[name@]
        } else {
            seq![]
        }),
{
    headers.get_all(name).iter().collect()
}

/// `HeaderMap::iter`: each name with each of its values, the values of one name in order.
#[verifier::external_body]
pub(crate) fn all_fields<'a>(headers: &'a HeaderMap) -> (list: Vec<
    (&'a HeaderName, &'a HeaderValue),
>)
    ensures
        gather(field_list(list@)) == header_values(*headers),
{
    headers.iter().collect()
}

/// `HeaderMap::remove` with a lower-case name: all values of that name go.
#[verifier::external_body]
pub(crate) fn remove_field(headers: &mut HeaderMap, name: &str)
    requires
        is_plain_name(name@),
    ensures
        header_values(*final(headers)) == header_values(*old(headers)).remove(name@),
{
    headers.remove(name);
}

/// `HeaderMap::clone`: the same fields.
#[verifier::external_body]
pub(crate) fn clone_fields(headers: &HeaderMap) -> (copy: HeaderMap)
    ensures
        header_values(copy) == header_values(*headers),
{
    headers.clone()
}

/// `HeaderName::as_str`: the text of the name.
#[verifier::external_body]
pub(crate) fn name_text(name: &HeaderName) -> (text: &str)
    ensures
        text@ == header_name_text(*name),
{
    name.as_str()
}

/// `HeaderValue::to_str`: the value as text, if every byte of it is visible.
#[verifier::external_body]
pub(crate) fn value_text(value: &HeaderValue) -> (text: Option<&str>)
    ensures
        match text {
            Some(t) => is_visible_text(header_value_bytes(*value)) && t@ == ascii_text(
                header_value_bytes(*value),
            ),
            None => !is_visible_text(header_value_bytes(*value)),
        },
{
    value.to_str().ok()
}

/// `Response::builder` and `Builder::status`: a head with that status and no fields.
#[verifier::external_body]
pub(crate) fn start_response(status: StatusCode) -> (builder: Builder)
    ensures
        builder_draft(builder) == Draft::Ready(
            Head { status: status_code(status), headers: Map::empty() },
        ),
{
    axum::http::Response::builder().status(status)
}

/// What adding one field makes of the head that a builder has collected: the field comes last
/// among those of its name, or, in a head that is crowded already, the builder may carry an error
/// from then on. An error stays.
pub open spec fn adds_field(
    before: Draft,
    name: Seq<char>,
    value: Seq<u8>,
    after: Draft,
) -> bool {
    match before {
        Draft::Ready(head) => {
            ||| after == Draft::Ready(
                Head { status: head.status, headers: with_field(head.headers, name, value) },
            )
            ||| {
                &&& head.headers.dom().len() >= crowded()
                &&& after == Draft::Failed("max size reached"@)
            }
        },
        Draft::Failed(text) => after == Draft::Failed(text),
    }
}

/// `Builder::header` with a name and a value that a `HeaderMap` holds.
#[verifier::external_body]
pub(crate) fn add_field(builder: &mut Builder, name: &HeaderName, value: &HeaderValue)
    ensures
        adds_field(
            builder_draft(*old(builder)),
            header_name_text(*name),
            header_value_bytes(*value),
            builder_draft(*final(builder)),
        ),
{
    *builder = std::mem::take(builder).header(name, value);
}

/// `Builder::header` with a lower-case name and a printable value.
#[verifier::external_body]
pub(crate) fn add_text_field(builder: &mut Builder, name: &str, value: &str)
    requires
        is_plain_name(name@),
        is_printable(value@),
    ensures
        adds_field(
            builder_draft(*old(builder)),
            name@,
            ascii_bytes(value@),
            builder_draft(*final(builder)),
        ),
{
    *builder = std::mem::take(builder).header(name, value);
}

/// `Body::from` bytes: a body that holds those bytes.
#[verifier::external_body]
pub(crate) fn full_body(bytes: Bytes) -> (body: Body)
    ensures
        body_content(body) == bytes_content(bytes),
{
    Body::from(bytes)
}

/// `Builder::body`: the response with that body, or the error that the builder carries.
#[verifier::external_body]
pub(crate) fn finish_response(builder: Builder, body: Body) -> (built: Result<
    Response,
    axum::http::Error,
>)
    ensures
        match built {
            Ok(response) => {
                &&& builder_draft(builder) == Draft::Ready(response_head(response))
                &&& response_body(response) == body
            },
            Err(error) => builder_draft(builder) == Draft::Failed(http_error_text(error)),
        },
{
    builder.body(body)
}

/// `ToString::to_string` of an `http::Error`.
#[verifier::external_body]
pub(crate) fn http_error_string(error: &axum::http::Error) -> (text: String)
    ensures
        text@ == http_error_text(*error),
{
    error.to_string()
}

/// `Bytes::clone`: the same bytes.
#[verifier::external_body]
pub(crate) fn clone_bytes(bytes: &Bytes) -> (copy: Bytes)
    ensures
        bytes_content(copy) == bytes_content(*bytes),
{
    bytes.clone()
}

/// `Bytes::from` a vector: the bytes of the vector.
#[verifier::external_body]
pub(crate) fn bytes_from(vec: Vec<u8>) -> (bytes: Bytes)
    ensures
        bytes_content(bytes) == vec@,
{
    Bytes::from(vec)
}

/// `Bytes::as_ref`: the bytes as a slice.
#[verifier::external_body]
pub(crate) fn slice_of(bytes: &Bytes) -> (slice: &[u8])
    ensures
        slice@ == bytes_content(*bytes),
{
    bytes.as_ref()
}

/// `reqwest::Response::headers`: the fields of the response.
#[verifier::external_body]
pub(crate) fn upstream_fields(response: &reqwest::Response) -> (headers: &HeaderMap)
    ensures
        header_values(*headers) == upstream_head(*response).headers,
{
    response.headers()
}

/// `reqwest::Response::status`: the status of the response.
#[verifier::external_body]
pub(crate) fn upstream_status(response: &reqwest::Response) -> (status: StatusCode)
    ensures
        status_code(status) == upstream_head(*response).status,
{
    response.status()
}

} // verus!
