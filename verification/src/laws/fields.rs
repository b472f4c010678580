//! Which header fields reach the client.

use axum::http::header::HeaderMap;
use axum::http::response::Builder;
use vstd::prelude::*;

use crate::headers::{
    copy_headers, hop_by_hop, is_sse_content_type, is_sse_headers, is_sse_response, is_stripped,
    kept, strips_header, values_of,
};
use crate::laws::wording::{
    connection_names, is_readable, is_small_form, lemma_connection_names, lemma_small_form,
    lemma_value_chars, spells, value_chars,
};
use crate::message::{
    builder_draft, header_values, upstream_head, Draft, Head, Headers,
};
use crate::text::{has_part, holds, lower, part_at};

verus! {

/// The hop-by-hop fields are the ten that are listed here, and no others.
pub proof fn ten_fields_are_hop_by_hop(name: &str, found: bool)
    requires
        hop_by_hop.ensures((name,), found),
    ensures
        found <==> (name@ == "connection"@ || name@ == "keep-alive"@ || name@
            == "proxy-authenticate"@ || name@ == "proxy-authorization"@ || name@
            == "proxy-connection"@ || name@ == "te"@ || name@ == "trailer"@ || name@ == "trailers"@
            || name@ == "transfer-encoding"@ || name@ == "upgrade"@),
{
}

/// A field stays behind exactly if its name, in small letters, is one of those listed here, or one
/// that `connection` lists, or, where the body was rebuilt, the content encoding or the content
/// type.
pub proof fn fields_stay_behind_by_name(
    name: &str,
    low: Seq<char>,
    listed: &Vec<String>,
    force_sse_content_type: bool,
    strip_rebuilt_entity_headers: bool,
    stripped: bool,
)
    requires
        strips_header.ensures(
            (name, listed, force_sse_content_type, strip_rebuilt_entity_headers),
            stripped,
        ),
        is_small_form(low, name@),
    ensures
        stripped <==> (low == "content-length"@ || low == "connection"@ || low == "keep-alive"@
            || low == "proxy-authenticate"@ || low == "proxy-authorization"@ || low
            == "proxy-connection"@ || low == "te"@ || low == "trailer"@ || low == "trailers"@ || low
            == "transfer-encoding"@ || low == "upgrade"@ || (exists|k: int|
            0 <= k < listed@.len() && #[trigger] listed@[k]@ == low) || (
        strip_rebuilt_entity_headers && low == "content-encoding"@) || (force_sse_content_type
            && low == "content-type"@)),
{
    lemma_small_form(low, name@);
    assert(holds(listed@, low) <==> exists|k: int|
        0 <= k < listed@.len() && #[trigger] listed@[k]@ == low);
}

proof fn lemma_content_type_is_small()
    ensures
        lower("content-type"@) == "content-type"@,
{
    reveal_strlit("content-type");
    assert(lower("content-type"@) =~= "content-type"@);
}

/// Every field that is none of those named here, and that `connection` does not list, reaches the
/// client with all its values, in order and after those that the answer has already. Nothing else
/// is added under its name, and the status stays.
pub proof fn other_fields_are_copied(
    builder: &mut Builder,
    headers: &HeaderMap,
    force_sse_content_type: bool,
    strip_rebuilt_entity_headers: bool,
    before: Head,
    after: Head,
    name: Seq<char>,
    low: Seq<char>,
)
    requires
        copy_headers.ensures(
            (builder, headers, force_sse_content_type, strip_rebuilt_entity_headers),
            (),
        ),
        builder_draft(*old(builder)) == Draft::Ready(before),
        builder_draft(*final(builder)) == Draft::Ready(after),
        is_small_form(low, name),
        low != "connection"@,
        low != "keep-alive"@,
        low != "proxy-authenticate"@,
        low != "proxy-authorization"@,
        low != "proxy-connection"@,
        low != "te"@,
        low != "trailer"@,
        low != "trailers"@,
        low != "transfer-encoding"@,
        low != "upgrade"@,
        low != "content-length"@,
        strip_rebuilt_entity_headers ==> low != "content-encoding"@,
        force_sse_content_type ==> low != "content-type"@,
        !connection_names(header_values(*headers), low),
    ensures
        after.status == before.status,
        after.headers.contains_key(name) <==> before.headers.contains_key(name) || header_values(
            *headers,
        ).contains_key(name),
        before.headers.contains_key(name) && header_values(*headers).contains_key(name)
            ==> after.headers[name] == before.headers[name] + header_values(*headers)[name],
        before.headers.contains_key(name) && !header_values(*headers).contains_key(name)
            ==> after.headers[name] == before.headers[name],
        !before.headers.contains_key(name) && header_values(*headers).contains_key(name)
            ==> after.headers[name] == header_values(*headers)[name],
{
    let source = header_values(*headers);
    lemma_small_form(low, name);
    lemma_connection_names(source, low);
    lemma_content_type_is_small();
    let fields = kept(source, source, force_sse_content_type, strip_rebuilt_entity_headers);
    assert(!is_stripped(source, name, force_sse_content_type, strip_rebuilt_entity_headers));
    assert(values_of(before.headers, name) + Seq::<Seq<u8>>::empty() =~= values_of(
        before.headers,
        name,
    ));
    assert(Seq::<Seq<u8>>::empty() + values_of(fields, name) =~= values_of(fields, name));
}

/// The fields that are named here, and those that `connection` lists, are not copied: under such a
/// name the answer has what it had before. The one exception is the content type of a forced event
/// stream.
pub proof fn connection_fields_are_not_copied(
    builder: &mut Builder,
    headers: &HeaderMap,
    force_sse_content_type: bool,
    strip_rebuilt_entity_headers: bool,
    before: Head,
    after: Head,
    name: Seq<char>,
    low: Seq<char>,
)
    requires
        copy_headers.ensures(
            (builder, headers, force_sse_content_type, strip_rebuilt_entity_headers),
            (),
        ),
        builder_draft(*old(builder)) == Draft::Ready(before),
        builder_draft(*final(builder)) == Draft::Ready(after),
        is_small_form(low, name),
        low == "connection"@ || low == "keep-alive"@ || low == "proxy-authenticate"@ || low
            == "proxy-authorization"@ || low == "proxy-connection"@ || low == "te"@ || low
            == "trailer"@ || low == "trailers"@ || low == "transfer-encoding"@ || low == "upgrade"@
            || low == "content-length"@ || (strip_rebuilt_entity_headers && low
            == "content-encoding"@) || (force_sse_content_type && low == "content-type"@)
            || connection_names(header_values(*headers), low),
        !(force_sse_content_type && name == "content-type"@),
    ensures
        after.headers.contains_key(name) <==> before.headers.contains_key(name),
        before.headers.contains_key(name) ==> after.headers[name] == before.headers[name],
{
    let source = header_values(*headers);
    lemma_small_form(low, name);
    lemma_connection_names(source, low);
    assert(is_stripped(source, name, force_sse_content_type, strip_rebuilt_entity_headers));
    assert(values_of(before.headers, name) + Seq::<Seq<u8>>::empty() =~= values_of(
        before.headers,
        name,
    ));
}

/// A forced event stream has exactly one content type more than the answer had, at the end, and it
/// reads `text/event-stream`.
pub proof fn forced_content_type_is_the_last(
    builder: &mut Builder,
    headers: &HeaderMap,
    strip_rebuilt_entity_headers: bool,
    before: Head,
    after: Head,
)
    requires
        copy_headers.ensures((builder, headers, true, strip_rebuilt_entity_headers), ()),
        builder_draft(*old(builder)) == Draft::Ready(before),
        builder_draft(*final(builder)) == Draft::Ready(after),
    ensures
        after.headers.contains_key("content-type"@),
        after.headers["content-type"@].len() > 0,
        spells(after.headers["content-type"@].last(), "text/event-stream"@),
        before.headers.contains_key("content-type"@)
            ==> after.headers["content-type"@].drop_last() == before.headers["content-type"@],
        !before.headers.contains_key("content-type"@) ==> after.headers["content-type"@].len() == 1,
{
    let source = header_values(*headers);
    lemma_content_type_is_small();
    assert(is_stripped(source, "content-type"@, true, strip_rebuilt_entity_headers));
    assert(values_of(before.headers, "content-type"@) + Seq::<Seq<u8>>::empty() =~= values_of(
        before.headers,
        "content-type"@,
    ));
    if before.headers.contains_key("content-type"@) {
        assert(after.headers["content-type"@].drop_last() =~= before.headers["content-type"@]);
    }
}

/// Where both heads together have fewer than 6554 names, copying does not fail. A builder that had
/// failed stays as it is, and one that fails says so.
pub proof fn copying_fails_only_for_want_of_room(
    builder: &mut Builder,
    headers: &HeaderMap,
    force_sse_content_type: bool,
    strip_rebuilt_entity_headers: bool,
)
    requires
        copy_headers.ensures(
            (builder, headers, force_sse_content_type, strip_rebuilt_entity_headers),
            (),
        ),
    ensures
        match builder_draft(*old(builder)) {
            Draft::Ready(before) => match builder_draft(*final(builder)) {
                Draft::Ready(_) => true,
                Draft::Failed(text) => {
                    &&& text == "max size reached"@
                    &&& before.headers.dom().finite() ==> before.headers.dom().len()
                        + header_values(*headers).dom().len() >= 6554
                },
            },
            Draft::Failed(text) => builder_draft(*final(builder)) == Draft::Failed(text),
        },
{
}

/// A content type is that of an event stream exactly if `text/event-stream` stands somewhere in
/// it, letter for letter.
pub proof fn event_stream_type_is_told_by_its_letters(text: &str, sse: bool)
    requires
        is_sse_content_type.ensures((text,), sse),
    ensures
        sse <==> exists|at: int|
            0 <= at && at + "text/event-stream"@.len() <= text@.len() && #[trigger] text@.subrange(
                at,
                at + "text/event-stream"@.len(),
            ) == "text/event-stream"@,
{
    lemma_part(text@, "text/event-stream"@);
}

proof fn lemma_part(text: Seq<char>, part: Seq<char>)
    ensures
        has_part(text, part) <==> exists|at: int|
            0 <= at && at + part.len() <= text.len() && #[trigger] text.subrange(
                at,
                at + part.len(),
            ) == part,
{
    if has_part(text, part) {
        let at = choose|at: int| part_at(text, part, at);
        assert(text.subrange(at, at + part.len()) == part);
    }
    if exists|at: int|
        0 <= at && at + part.len() <= text.len() && #[trigger] text.subrange(at, at + part.len())
            == part {
        let at = choose|at: int|
            0 <= at && at + part.len() <= text.len() && #[trigger] text.subrange(
                at,
                at + part.len(),
            ) == part;
        assert(part_at(text, part, at));
    }
}

/// The fields announce an event stream: there is a content type, its first value is readable, and
/// `text/event-stream` stands in it.
pub open spec fn announces_events(headers: Headers) -> bool {
    &&& headers.contains_key("content-type"@)
    &&& headers["content-type"@].len() > 0
    &&& is_readable(headers["content-type"@][0])
    &&& exists|at: int|
        0 <= at && at + "text/event-stream"@.len() <= headers["content-type"@][0].len()
            && #[trigger] value_chars(headers["content-type"@][0]).subrange(
            at,
            at + "text/event-stream"@.len(),
        ) == "text/event-stream"@
}

/// Responses are told to be event streams by the first content type, and by nothing else.
pub proof fn event_streams_are_told_by_the_content_type(
    headers: &HeaderMap,
    of_headers: bool,
    response: &reqwest::Response,
    of_response: bool,
)
    requires
        is_sse_headers.ensures((headers,), of_headers),
        is_sse_response.ensures((response,), of_response),
    ensures
        of_headers == announces_events(header_values(*headers)),
        of_response == announces_events(upstream_head(*response).headers),
{
    lemma_announces(header_values(*headers));
    lemma_announces(upstream_head(*response).headers);
}

pub(crate) proof fn lemma_announces(headers: Headers)
    ensures
        announces_events(headers) == crate::headers::is_sse(headers),
{
    if headers.contains_key("content-type"@) && headers["content-type"@].len() > 0 {
        let value = headers["content-type"@][0];
        lemma_value_chars(value);
        lemma_part(value_chars(value), "text/event-stream"@);
    }
}

} // verus!
