//! Which header fields of an upstream response reach the client.

use axum::http::header::{HeaderMap, HeaderValue};
use axum::http::response::Builder;
use vstd::prelude::*;

use crate::message::{
    add_field, add_text_field, all_fields, all_values, ascii_bytes, ascii_text,
    builder_draft, crowded, field_list, first_value, gather, header_value_bytes, header_values,
    is_visible_text, name_text, upstream_fields, upstream_head, value_text, with_field, Draft,
    Head, Headers,
};
use crate::text::{
    contains_part, has_part, holds, lemma_holds_push, listed_names, lists, lower, lowered, same,
};

verus! {

/// The names of fields that concern one connection only and that a proxy does not hand on.
pub open spec fn is_hop_by_hop(name: Seq<char>) -> bool {
    ||| name == "connection"@
    ||| name == "keep-alive"@
    ||| name == "proxy-authenticate"@
    ||| name == "proxy-authorization"@
    ||| name == "proxy-connection"@
    ||| name == "te"@
    ||| name == "trailer"@
    ||| name == "trailers"@
    ||| name == "transfer-encoding"@
    ||| name == "upgrade"@
}

/// A readable `connection` field lists `name` as one that concerns this connection only.
pub open spec fn connection_lists(headers: Headers, name: Seq<char>) -> bool {
    headers.contains_key("connection"@) && values_list(headers["connection"@], name)
}

/// One of the readable values is a list that holds `name`.
pub open spec fn values_list(values: Seq<Seq<u8>>, name: Seq<char>) -> bool {
    exists|k: int|
        0 <= k < values.len() && is_visible_text(#[trigger] values[k]) && lists(
            ascii_text(values[k]),
            name,
        )
}

/// A field with that lower-case name is not handed on; `listed` says whether `connection` lists
/// it. Two rules apply to rebuilt bodies only: an event stream has its own content type, and a
/// body that was decoded has no content encoding.
pub open spec fn stays_behind(
    name: Seq<char>,
    listed: bool,
    force_sse_content_type: bool,
    strip_rebuilt_entity_headers: bool,
) -> bool {
    ||| name == "content-length"@
    ||| is_hop_by_hop(name)
    ||| listed
    ||| strip_rebuilt_entity_headers && name == "content-encoding"@
    ||| force_sse_content_type && name == "content-type"@
}

/// The field of that name, in whatever letter case, is not handed on.
pub open spec fn is_stripped(
    headers: Headers,
    name: Seq<char>,
    force_sse_content_type: bool,
    strip_rebuilt_entity_headers: bool,
) -> bool {
    stays_behind(
        lower(name),
        connection_lists(headers, lower(name)),
        force_sse_content_type,
        strip_rebuilt_entity_headers,
    )
}

/// Those of `fields` that the rules for a response with `headers` hand on.
pub open spec fn kept(
    headers: Headers,
    fields: Headers,
    force_sse_content_type: bool,
    strip_rebuilt_entity_headers: bool,
) -> Headers {
    fields.remove_keys(
        Set::new(
            |n: Seq<char>|
                is_stripped(headers, n, force_sse_content_type, strip_rebuilt_entity_headers),
        ),
    )
}

/// The values of a name, none if the name does not occur.
pub open spec fn values_of(headers: Headers, name: Seq<char>) -> Seq<Seq<u8>> {
    if headers.contains_key(name) {
        headers[name]
    } else {
        seq![]
    }
}

/// The fields of `base`, and after them those of `more`.
pub open spec fn joined(base: Headers, more: Headers) -> Headers {
    Map::new(
        |n: Seq<char>| base.contains_key(n) || more.contains_key(n),
        |n: Seq<char>| values_of(base, n) + values_of(more, n),
    )
}

/// The fields of `base` after those of an upstream response have been handed on to it.
pub open spec fn handed_on(
    base: Headers,
    headers: Headers,
    force_sse_content_type: bool,
    strip_rebuilt_entity_headers: bool,
) -> Headers {
    let copied = joined(
        base,
        kept(headers, headers, force_sse_content_type, strip_rebuilt_entity_headers),
    );
    if force_sse_content_type {
        with_field(copied, "content-type"@, ascii_bytes("text/event-stream"@))
    } else {
        copied
    }
}

/// The fields of a fresh response to which those of an upstream response have been handed on.
pub open spec fn forwarded(
    headers: Headers,
    force_sse_content_type: bool,
    strip_rebuilt_entity_headers: bool,
) -> Headers {
    handed_on(Map::empty(), headers, force_sse_content_type, strip_rebuilt_entity_headers)
}

/// The response is a stream of server-sent events.
pub open spec fn is_sse(headers: Headers) -> bool {
    &&& headers.contains_key("content-type"@)
    &&& headers["content-type"@].len() > 0
    &&& is_visible_text(headers["content-type"@][0])
    &&& has_part(ascii_text(headers["content-type"@][0]), "text/event-stream"@)
}

/// There is certainly room for both sets of fields in one head.
pub open spec fn fits(base: Headers, headers: Headers) -> bool {
    base.dom().finite() && base.dom().len() + headers.dom().len() < crowded()
}

/// Whether a lower-case name is that of a hop-by-hop field.
pub fn hop_by_hop(name: &str) -> (found: bool)
    ensures
        found == is_hop_by_hop(name@),
{
    same(name, "connection") || same(name, "keep-alive") || same(name, "proxy-authenticate")
        || same(name, "proxy-authorization") || same(name, "proxy-connection") || same(name, "te")
        || same(name, "trailer") || same(name, "trailers") || same(name, "transfer-encoding")
        || same(name, "upgrade")
}

/// The names that the readable `connection` fields list.
fn connection_listed_headers(headers: &HeaderMap) -> (names: Vec<String>)
    ensures
        forall|n: Seq<char>| #[trigger]
            holds(names@, n) <==> connection_lists(header_values(*headers), n),
{
    proof {
        reveal_strlit("connection");
    }
    let values = all_values(headers, "connection");
    let ghost all = values@.map_values(|v: &HeaderValue| header_value_bytes(*v));
    let mut names: Vec<String> = Vec::new();
    for i in 0..values.len()
        invariant
            all == values@.map_values(|v: &HeaderValue| header_value_bytes(*v)),
            forall|n: Seq<char>| #[trigger]
                holds(names@, n) <==> values_list(all.take(i as int), n),
    {
        let ghost before = names@;
        let ghost seen = all.take(i as int);
        if let Some(text) = value_text(values[i]) {
            let mut more = listed_names(text);
            let ghost added = more@;
            names.append(&mut more);
            assert forall|n: Seq<char>| #[trigger] holds(names@, n) <==> holds(before, n) || holds(
                added,
                n,
            ) by {
                lemma_holds_append(before, added, n);
            }
        }
        assert(all.take(i + 1) == seen.push(all[i as int]));
        assert forall|n: Seq<char>| #[trigger] holds(names@, n) <==> values_list(
            all.take(i + 1),
            n,
        ) by {
            lemma_values_list_push(seen, all[i as int], n);
        }
    }
    assert(all.take(values@.len() as int) == all);
    names
}

proof fn lemma_holds_append(a: Seq<String>, b: Seq<String>, name: Seq<char>)
    ensures
        holds(a + b, name) <==> holds(a, name) || holds(b, name),
    decreases b.len(),
{
    if b.len() == 0 {
        assert(a + b == a);
    } else {
        lemma_holds_append(a, b.drop_last(), name);
        lemma_holds_push(a + b.drop_last(), b.last(), name);
        lemma_holds_push(b.drop_last(), b.last(), name);
        assert((a + b.drop_last()).push(b.last()) == a + b);
        assert(b.drop_last().push(b.last()) == b);
    }
}

proof fn lemma_values_list_push(values: Seq<Seq<u8>>, last: Seq<u8>, name: Seq<char>)
    ensures
        values_list(values.push(last), name) <==> values_list(values, name) || (is_visible_text(
            last,
        ) && lists(ascii_text(last), name)),
{
    let longer = values.push(last);
    if values_list(values, name) {
        let k = choose|k: int|
            0 <= k < values.len() && is_visible_text(#[trigger] values[k]) && lists(
                ascii_text(values[k]),
                name,
            );
        assert(longer[k] == values[k]);
    }
    if is_visible_text(last) && lists(ascii_text(last), name) {
        assert(longer[values.len() as int] == last);
    }
    if values_list(longer, name) {
        let k = choose|k: int|
            0 <= k < longer.len() && is_visible_text(#[trigger] longer[k]) && lists(
                ascii_text(longer[k]),
                name,
            );
        if k < values.len() {
            assert(values[k] == longer[k]);
        }
    }
}

/// Whether `names` holds the text `name`.
fn any_same(names: &Vec<String>, name: &str) -> (found: bool)
    ensures
        found == holds(names@, name@),
{
    for i in 0..names.len()
        invariant
            forall|k: int| 0 <= k < i ==> names@[k]@ != name@,
    {
        if same(names[i].as_str(), name) {
            assert(names@[i as int]@ == name@);
            return true;
        }
    }
    false
}

/// Whether a field of that name stays behind, where `connection` lists the names in `listed`.
pub fn strips_header(
    name: &str,
    listed: &Vec<String>,
    force_sse_content_type: bool,
    strip_rebuilt_entity_headers: bool,
) -> (stripped: bool)
    ensures
        stripped == stays_behind(
            lower(name@),
            holds(listed@, lower(name@)),
            force_sse_content_type,
            strip_rebuilt_entity_headers,
        ),
{
    let text = lowered(name);
    let lower_name = text.as_str();
    same(lower_name, "content-length") || hop_by_hop(lower_name) || any_same(listed, lower_name)
        || (strip_rebuilt_entity_headers && same(lower_name, "content-encoding")) || (
    force_sse_content_type && same(lower_name, "content-type"))
}

/// A list with one more entry makes up the fields with one more value.
proof fn lemma_gather_next(list: Seq<(Seq<char>, Seq<u8>)>, i: int)
    requires
        0 <= i < list.len(),
    ensures
        gather(list.take(i + 1)) == with_field(gather(list.take(i)), list[i].0, list[i].1),
{
    assert(list.take(i + 1).drop_last() == list.take(i));
}

/// A list makes up finitely many fields, and a prefix of it makes up no other names.
proof fn lemma_gather_names(list: Seq<(Seq<char>, Seq<u8>)>, i: int)
    requires
        0 <= i <= list.len(),
    ensures
        gather(list).dom().finite(),
        gather(list.take(i)).dom().subset_of(gather(list).dom()),
    decreases list.len(),
{
    if list.len() > 0 {
        if i == list.len() {
            lemma_gather_names(list.drop_last(), i - 1);
            assert(list.take(i) == list);
        } else {
            lemma_gather_names(list.drop_last(), i);
            assert(list.drop_last().take(i) == list.take(i));
        }
    } else {
        assert(list.take(i) == list);
    }
}

/// A field that is handed on comes last among those of its name.
proof fn lemma_keep_field(
    base: Headers,
    headers: Headers,
    fields: Headers,
    name: Seq<char>,
    value: Seq<u8>,
    force: bool,
    strip: bool,
)
    requires
        !is_stripped(headers, name, force, strip),
    ensures
        joined(base, kept(headers, with_field(fields, name, value), force, strip)) == with_field(
            joined(base, kept(headers, fields, force, strip)),
            name,
            value,
        ),
{
    let more = kept(headers, with_field(fields, name, value), force, strip);
    let left = joined(base, more);
    let before = kept(headers, fields, force, strip);
    let right = with_field(joined(base, before), name, value);
    assert forall|n: Seq<char>| left.contains_key(n) implies left[n] == right[n] by {
        if n == name {
            assert(values_of(more, n) == values_of(before, n).push(value));
        } else {
            assert(values_of(more, n) == values_of(before, n));
        }
    }
    assert(left =~= right);
}

/// A field that is not handed on changes nothing.
proof fn lemma_strip_field(
    headers: Headers,
    fields: Headers,
    name: Seq<char>,
    value: Seq<u8>,
    force: bool,
    strip: bool,
)
    requires
        is_stripped(headers, name, force, strip),
    ensures
        kept(headers, with_field(fields, name, value), force, strip) == kept(
            headers,
            fields,
            force,
            strip,
        ),
{
    assert(kept(headers, with_field(fields, name, value), force, strip) =~= kept(
        headers,
        fields,
        force,
        strip,
    ));
}

/// Handing on a part of the fields leaves a head that is no more crowded than both together.
proof fn lemma_room(base: Headers, headers: Headers, fields: Headers, force: bool, strip: bool)
    requires
        fits(base, headers),
        headers.dom().finite(),
        fields.dom().subset_of(headers.dom()),
    ensures
        joined(base, kept(headers, fields, force, strip)).dom().len() < crowded(),
{
    let result = joined(base, kept(headers, fields, force, strip));
    let both = base.dom().union(headers.dom());
    vstd::set_lib::lemma_len_union(base.dom(), headers.dom());
    assert(result.dom().subset_of(both));
    vstd::set_lib::lemma_len_subset(result.dom(), both);
}

/// What handing on the fields of an upstream response makes of a builder: all that the rules hand
/// on come after what it holds already. In a head with room for both, nothing can fail.
pub open spec fn copies_headers(
    before: Draft,
    headers: Headers,
    force_sse_content_type: bool,
    strip_rebuilt_entity_headers: bool,
    after: Draft,
) -> bool {
    match before {
        Draft::Ready(head) => {
            ||| after == Draft::Ready(
                Head {
                    status: head.status,
                    headers: handed_on(
                        head.headers,
                        headers,
                        force_sse_content_type,
                        strip_rebuilt_entity_headers,
                    ),
                },
            )
            ||| !fits(head.headers, headers) && after == Draft::Failed("max size reached"@)
        },
        Draft::Failed(text) => after == Draft::Failed(text),
    }
}

/// Hands the fields of an upstream response on to a response that is being built.
///
/// Hop-by-hop fields, the fields that `connection` lists and `content-length` stay behind. With
/// `strip_rebuilt_entity_headers` so does `content-encoding`, and with `force_sse_content_type`
/// the content type becomes that of an event stream.
pub fn copy_headers(
    builder: &mut Builder,
    headers: &HeaderMap,
    force_sse_content_type: bool,
    strip_rebuilt_entity_headers: bool,
)
    ensures
        copies_headers(
            builder_draft(*old(builder)),
            header_values(*headers),
            force_sse_content_type,
            strip_rebuilt_entity_headers,
            builder_draft(*final(builder)),
        ),
        header_values(*headers).dom().finite(),
{
    let ghost start = builder_draft(*builder);
    let ghost source = header_values(*headers);
    let ghost force = force_sse_content_type;
    let ghost strip = strip_rebuilt_entity_headers;
    let listed = connection_listed_headers(headers);
    let fields = all_fields(headers);
    let ghost list = field_list(fields@);
    proof {
        lemma_gather_names(list, 0);
        assert(list.take(0) == Seq::<(Seq<char>, Seq<u8>)>::empty());
        if let Draft::Ready(head) = start {
            assert(joined(head.headers, kept(source, Map::empty(), force, strip))
                =~= head.headers) by {
                assert forall|n: Seq<char>| head.headers.contains_key(n) implies values_of(
                    head.headers,
                    n,
                ) + Seq::<Seq<u8>>::empty() == head.headers[n] by {}
            }
        }
    }
    for i in 0..fields.len()
        invariant
            list == field_list(fields@),
            gather(list) == source,
            source == header_values(*headers),
            source.dom().finite(),
            force == force_sse_content_type,
            strip == strip_rebuilt_entity_headers,
            forall|n: Seq<char>| #[trigger] holds(listed@, n) <==> connection_lists(source, n),
            copied_part(
                start,
                source,
                gather(list.take(i as int)),
                force,
                strip,
                builder_draft(*builder),
            ),
    {
        let (key, value) = fields[i];
        let ghost before = gather(list.take(i as int));
        proof {
            lemma_gather_next(list, i as int);
            lemma_gather_names(list, i as int);
        }
        if strips_header(
            name_text(key),
            &listed,
            force_sse_content_type,
            strip_rebuilt_entity_headers,
        ) {
            proof {
                lemma_strip_field(source, before, list[i as int].0, list[i as int].1, force, strip);
            }
        } else {
            add_field(builder, key, value);
            proof {
                if let Draft::Ready(head) = start {
                    lemma_keep_field(
                        head.headers,
                        source,
                        before,
                        list[i as int].0,
                        list[i as int].1,
                        force,
                        strip,
                    );
                    if fits(head.headers, source) {
                        lemma_room(head.headers, source, before, force, strip);
                    }
                }
            }
        }
    }
    assert(list.take(fields@.len() as int) == list);
    if force_sse_content_type {
        proof {
            reveal_strlit("content-type");
            reveal_strlit("text/event-stream");
            if let Draft::Ready(head) = start {
                if fits(head.headers, source) {
                    lemma_room(head.headers, source, source, force, strip);
                }
            }
        }
        add_text_field(builder, "content-type", "text/event-stream");
    }
}

/// What a builder holds after `fields`, a part of the upstream fields, have been gone through.
spec fn copied_part(
    start: Draft,
    headers: Headers,
    fields: Headers,
    force: bool,
    strip: bool,
    now: Draft,
) -> bool {
    match start {
        Draft::Ready(head) => {
            ||| now == Draft::Ready(
                Head {
                    status: head.status,
                    headers: joined(head.headers, kept(headers, fields, force, strip)),
                },
            )
            ||| !fits(head.headers, headers) && now == Draft::Failed("max size reached"@)
        },
        Draft::Failed(text) => now == Draft::Failed(text),
    }
}

/// Whether a content type is that of a stream of server-sent events.
pub fn is_sse_content_type(text: &str) -> (sse: bool)
    ensures
        sse == has_part(text@, "text/event-stream"@),
{
    contains_part(text, "text/event-stream")
}

/// Whether the header fields announce a stream of server-sent events.
pub fn is_sse_headers(headers: &HeaderMap) -> (sse: bool)
    ensures
        sse == is_sse(header_values(*headers)),
{
    proof {
        reveal_strlit("content-type");
    }
    match first_value(headers, "content-type") {
        Some(value) => match value_text(value) {
            Some(text) => is_sse_content_type(text),
            None => false,
        },
        None => false,
    }
}

/// Whether an upstream response is a stream of server-sent events.
pub fn is_sse_response(response: &reqwest::Response) -> (sse: bool)
    ensures
        sse == is_sse(upstream_head(*response).headers),
{
    is_sse_headers(upstream_fields(response))
}

/// In a fresh response, what is handed on is what the rules keep.
proof fn lemma_forwarded(headers: Headers, force: bool, strip: bool)
    ensures
        forwarded(headers, force, strip) == (if force {
            kept(headers, headers, force, strip).insert(
                "content-type"@,
                seq![ascii_bytes("text/event-stream"@)],
            )
        } else {
            kept(headers, headers, force, strip)
        }),
{
    let k = kept(headers, headers, force, strip);
    let j = joined(Map::empty(), k);
    assert forall|n: Seq<char>| k.contains_key(n) implies j[n] == k[n] by {
        assert(values_of(Map::empty(), n) + values_of(k, n) =~= k[n]);
    }
    assert(j =~= k);
    if force {
        lemma_plain_names_are_lower();
        assert(!k.contains_key("content-type"@));
        assert(Seq::<Seq<u8>>::empty().push(ascii_bytes("text/event-stream"@)) =~= seq![
            ascii_bytes("text/event-stream"@),
        ]);
    }
}

/// No more names are handed on than upstream sent, where the content type is not forced.
pub(crate) proof fn lemma_forwarded_names(headers: Headers, strip: bool)
    requires
        headers.dom().finite(),
    ensures
        forwarded(headers, false, strip).dom().finite(),
        forwarded(headers, false, strip).dom().len() <= headers.dom().len(),
{
    lemma_forwarded(headers, false, strip);
    vstd::set_lib::lemma_len_subset(forwarded(headers, false, strip).dom(), headers.dom());
}

/// The names that the rules for content types and connections mention are different, and in lower
/// case.
proof fn lemma_plain_names_are_lower()
    ensures
        lower("content-type"@) == "content-type"@,
        lower("connection"@) == "connection"@,
        "content-type"@ != "connection"@,
{
    reveal_strlit("content-type");
    reveal_strlit("connection");
    assert(lower("content-type"@) =~= "content-type"@);
    assert(lower("connection"@) =~= "connection"@);
    assert("content-type"@.len() != "connection"@.len());
}

/// Hop-by-hop fields, the fields that `connection` lists and `content-length` never reach the
/// client, whatever their letter case; and where the body was rebuilt, neither does
/// `content-encoding`. The one content type of a forced event stream is the proxy's own.
pub proof fn stripped_fields_stay_behind(
    headers: Headers,
    name: Seq<char>,
    force_sse_content_type: bool,
    strip_rebuilt_entity_headers: bool,
)
    requires
        is_stripped(headers, name, force_sse_content_type, strip_rebuilt_entity_headers),
        !(force_sse_content_type && name == "content-type"@),
    ensures
        !forwarded(headers, force_sse_content_type, strip_rebuilt_entity_headers).contains_key(
            name,
        ),
{
    lemma_forwarded(headers, force_sse_content_type, strip_rebuilt_entity_headers);
}

/// Every other field reaches the client with all its values, in order and unchanged, and no field
/// reaches the client that upstream did not send, save the content type of a forced event stream.
pub proof fn other_fields_reach_the_client(
    headers: Headers,
    name: Seq<char>,
    force_sse_content_type: bool,
    strip_rebuilt_entity_headers: bool,
)
    requires
        !is_stripped(headers, name, force_sse_content_type, strip_rebuilt_entity_headers),
    ensures
        forwarded(headers, force_sse_content_type, strip_rebuilt_entity_headers).contains_key(name)
            <==> headers.contains_key(name),
        headers.contains_key(name) ==> forwarded(
            headers,
            force_sse_content_type,
            strip_rebuilt_entity_headers,
        )[name] == headers[name],
{
    lemma_forwarded(headers, force_sse_content_type, strip_rebuilt_entity_headers);
    lemma_plain_names_are_lower();
}

/// A response whose content type is forced has that content type alone, and is recognised as a
/// stream of server-sent events.
pub proof fn forced_stream_is_sse(headers: Headers, strip_rebuilt_entity_headers: bool)
    ensures
        forwarded(headers, true, strip_rebuilt_entity_headers)["content-type"@] == seq![
            ascii_bytes("text/event-stream"@),
        ],
        is_sse(forwarded(headers, true, strip_rebuilt_entity_headers)),
{
    lemma_forwarded(headers, true, strip_rebuilt_entity_headers);
    reveal_strlit("text/event-stream");
    let text = "text/event-stream"@;
    let value = ascii_bytes(text);
    assert(ascii_text(value) =~= text);
    assert(text.subrange(0, text.len() as int) =~= text);
    assert(crate::text::part_at(ascii_text(value), text, 0));
}

/// Handing on what was handed on already changes nothing.
pub proof fn forwarding_twice_is_forwarding_once(
    headers: Headers,
    force_sse_content_type: bool,
    strip_rebuilt_entity_headers: bool,
)
    ensures
        forwarded(
            forwarded(headers, force_sse_content_type, strip_rebuilt_entity_headers),
            force_sse_content_type,
            strip_rebuilt_entity_headers,
        ) == forwarded(headers, force_sse_content_type, strip_rebuilt_entity_headers),
{
    let force = force_sse_content_type;
    let strip = strip_rebuilt_entity_headers;
    let once = forwarded(headers, force, strip);
    lemma_forwarded(headers, force, strip);
    lemma_forwarded(once, force, strip);
    lemma_plain_names_are_lower();
    let twice = forwarded(once, force, strip);
    assert(!once.contains_key("connection"@)) by {
        assert(is_hop_by_hop(lower("connection"@)));
    }
    assert forall|n: Seq<char>| once.contains_key(n) implies twice.contains_key(n) && twice[n]
        == once[n] by {
        if !(force && n == "content-type"@) {
            assert(!is_stripped(headers, n, force, strip));
            assert(!is_stripped(once, n, force, strip));
        }
    }
    assert(twice =~= once);
}

} // verus!
