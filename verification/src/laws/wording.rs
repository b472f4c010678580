//! The words that the laws use: letter case, readable bytes, and lists of names.

use vstd::prelude::*;

use crate::headers::{connection_lists, values_list};
use crate::message::{ascii_text, is_visible_text, Headers};
use crate::text::{
    is_blank, is_field, lemma_trim_end, lemma_trim_start, lists, lower, trim,
};

verus! {

/// `low` is `text` with each of the letters A to Z replaced by its small form.
pub open spec fn is_small_form(low: Seq<char>, text: Seq<char>) -> bool {
    &&& low.len() == text.len()
    &&& forall|i: int|
        0 <= i < text.len() ==> #[trigger] low[i] == (if 'A' <= text[i] && text[i] <= 'Z' {
            (text[i] as u32 + 32) as char
        } else {
            text[i]
        })
}

/// The bytes of `value` are the characters of `text`, one by one.
pub open spec fn spells(value: Seq<u8>, text: Seq<char>) -> bool {
    &&& value.len() == text.len()
    &&& forall|i: int| 0 <= i < text.len() ==> #[trigger] value[i] == text[i] as u8
}

/// Every byte of a header value is printable ASCII or a tab.
pub open spec fn is_readable(value: Seq<u8>) -> bool {
    forall|i: int| 0 <= i < value.len() ==> (32 <= #[trigger] value[i] <= 126 || value[i] == 9)
}

/// From `start` to `end`, `text` has blanks up to `from`, then something that neither begins nor
/// ends with a blank, and blanks again from `to` on.
pub open spec fn is_padded(text: Seq<char>, start: int, from: int, to: int, end: int) -> bool {
    &&& 0 <= start <= from <= to <= end <= text.len()
    &&& forall|k: int|
        start <= k < from || to <= k < end ==> (#[trigger] text[k] == ' ' || ('\t' <= text[k]
            && text[k] <= '\r'))
    &&& from < to ==> text[from] != ' ' && !('\t' <= text[from] && text[from] <= '\r')
    &&& from < to ==> text[to - 1] != ' ' && !('\t' <= text[to - 1] && text[to - 1] <= '\r')
}

/// Between two commas, or the ends of the text, `text` holds `low` in some letter case, from
/// `from` to `to`, with nothing but blanks around it.
pub open spec fn is_list_item(
    text: Seq<char>,
    start: int,
    from: int,
    to: int,
    end: int,
    low: Seq<char>,
) -> bool {
    &&& is_padded(text, start, from, to, end)
    &&& from < to
    &&& start == 0 || text[start - 1] == ','
    &&& end == text.len() || text[end] == ','
    &&& forall|k: int| start <= k < end ==> #[trigger] text[k] != ','
    &&& is_small_form(low, text.subrange(from, to))
}

/// The text of a header value.
pub open spec fn value_chars(value: Seq<u8>) -> Seq<char> {
    Seq::new(value.len(), |i: int| value[i] as char)
}

/// Some readable `connection` field lists the name `low`.
pub open spec fn connection_names(headers: Headers, low: Seq<char>) -> bool {
    headers.contains_key("connection"@) && exists|
        n: int,
        start: int,
        from: int,
        to: int,
        end: int,
    |
        0 <= n < headers["connection"@].len() && is_readable(headers["connection"@][n])
            && #[trigger] is_list_item(
            value_chars(headers["connection"@][n]),
            start,
            from,
            to,
            end,
            low,
        )
}

/// The small form of a text is what `lower` gives, and nothing else.
pub(crate) proof fn lemma_small_form(low: Seq<char>, text: Seq<char>)
    ensures
        is_small_form(low, text) <==> low == lower(text),
{
    if is_small_form(low, text) {
        assert(low =~= lower(text));
    }
}

/// The two ways to read a header value agree.
pub(crate) proof fn lemma_value_chars(value: Seq<u8>)
    ensures
        value_chars(value) == ascii_text(value),
        is_readable(value) == is_visible_text(value),
{
    assert(value_chars(value) =~= ascii_text(value));
}

/// Trimming leaves what stands between the blanks at either end.
pub(crate) proof fn lemma_trim(text: Seq<char>, start: int, from: int, to: int, end: int)
    requires
        is_padded(text, start, from, to, end),
    ensures
        trim(text.subrange(start, end)) == text.subrange(from, to),
{
    let field = text.subrange(start, end);
    if from < to {
        assert forall|k: int| 0 <= k < from - start implies is_blank(#[trigger] field[k]) by {
            assert(field[k] == text[start + k]);
        }
        lemma_trim_start(field, from - start);
        let rest = field.skip(from - start);
        assert forall|k: int| to - from <= k < rest.len() implies is_blank(#[trigger] rest[k]) by {
            assert(rest[k] == text[from + k]);
        }
        lemma_trim_end(rest, to - from);
        assert(rest.take(to - from) =~= text.subrange(from, to));
    } else {
        assert forall|k: int| 0 <= k < field.len() implies is_blank(#[trigger] field[k]) by {
            assert(field[k] == text[start + k]);
        }
        lemma_trim_start(field, field.len() as int);
        assert(field.skip(field.len() as int) =~= Seq::<char>::empty());
        assert(trim(field) =~= text.subrange(from, to));
    }
}

/// Every part of a text has blanks at either end, if only none.
pub(crate) proof fn lemma_padding(text: Seq<char>, start: int, end: int) -> (bounds: (int, int))
    requires
        0 <= start <= end <= text.len(),
    ensures
        is_padded(text, start, bounds.0, bounds.1, end),
    decreases end - start,
{
    if start == end {
        (start, end)
    } else if is_blank(text[start]) {
        let inner = lemma_padding(text, start + 1, end);
        inner
    } else if is_blank(text[end - 1]) {
        let inner = lemma_padding(text, start, end - 1);
        assert(inner.0 == start) by {
            if inner.0 > start {
                assert(text[start] == ' ' || ('\t' <= text[start] && text[start] <= '\r'));
            }
        }
        inner
    } else {
        (start, end)
    }
}

/// The two ways to say that `connection` lists a name agree.
pub(crate) proof fn lemma_connection_names(headers: Headers, low: Seq<char>)
    ensures
        connection_names(headers, low) <==> connection_lists(headers, low),
{
    if headers.contains_key("connection"@) {
        let values = headers["connection"@];
        if connection_names(headers, low) {
            let (n, start, from, to, end) = choose|
                n: int,
                start: int,
                from: int,
                to: int,
                end: int,
            |
                0 <= n < values.len() && is_readable(values[n]) && #[trigger] is_list_item(
                    value_chars(values[n]),
                    start,
                    from,
                    to,
                    end,
                    low,
                );
            let text = value_chars(values[n]);
            lemma_value_chars(values[n]);
            lemma_trim(text, start, from, to, end);
            lemma_small_form(low, text.subrange(from, to));
            assert(is_field(text, start, end));
            assert(lists(text, low));
            assert(values_list(values, low));
        }
        if connection_lists(headers, low) {
            let n = choose|n: int|
                0 <= n < values.len() && is_visible_text(#[trigger] values[n]) && lists(
                    ascii_text(values[n]),
                    low,
                );
            let text = value_chars(values[n]);
            lemma_value_chars(values[n]);
            let (start, end) = choose|start: int, end: int| #[trigger]
                is_field(text, start, end) && lower(trim(text.subrange(start, end))) == low;
            let bounds = lemma_padding(text, start, end);
            lemma_trim(text, start, bounds.0, bounds.1, end);
            lemma_small_form(low, text.subrange(bounds.0, bounds.1));
            assert(is_list_item(text, start, bounds.0, bounds.1, end, low));
        }
    }
}

} // verus!
