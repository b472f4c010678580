//! Small facts about text: letter case, blanks, comma-separated lists, and decimal numbers.

use vstd::prelude::*;
use vstd::utf8::{encode_utf8, encode_utf8_decode_utf8};

verus! {

/// An ASCII letter in lower case; every other character stands for itself.
pub open spec fn lower_char(c: char) -> char {
    if 'A' <= c && c <= 'Z' {
        ((c as u32) + 32) as char
    } else {
        c
    }
}

/// The text with its ASCII letters in lower case.
pub open spec fn lower(s: Seq<char>) -> Seq<char> {
    s.map_values(|c: char| lower_char(c))
}

/// An ASCII blank: a space, or one of the controls from tab to carriage return.
pub open spec fn is_blank(c: char) -> bool {
    c == ' ' || ('\t' <= c && c <= '\r')
}

/// The text without the blanks it begins with.
pub open spec fn trim_start(s: Seq<char>) -> Seq<char>
    decreases s.len(),
{
    if s.len() > 0 && is_blank(s.first()) {
        trim_start(s.drop_first())
    } else {
        s
    }
}

/// The text without the blanks it ends with.
pub open spec fn trim_end(s: Seq<char>) -> Seq<char>
    decreases s.len(),
{
    if s.len() > 0 && is_blank(s.last()) {
        trim_end(s.drop_last())
    } else {
        s
    }
}

/// The text without the blanks at either end.
pub open spec fn trim(s: Seq<char>) -> Seq<char> {
    trim_end(trim_start(s))
}

/// `part` stands somewhere in `s`.
pub open spec fn has_part(s: Seq<char>, part: Seq<char>) -> bool {
    exists|i: int| part_at(s, part, i)
}

/// `part` stands in `s` at position `i`.
pub open spec fn part_at(s: Seq<char>, part: Seq<char>, i: int) -> bool {
    0 <= i && i + part.len() <= s.len() && s.subrange(i, i + part.len()) == part
}

/// Positions `i` to `j` of `s` hold one field of a comma-separated list.
pub open spec fn is_field(s: Seq<char>, i: int, j: int) -> bool {
    &&& 0 <= i <= j <= s.len()
    &&& i == 0 || s[i - 1] == ','
    &&& j == s.len() || s[j] == ','
    &&& forall|k: int| i <= k < j ==> s[k] != ','
}

/// A field of the comma-separated list `s` is `name`, up to blanks around it and letter case.
/// Empty fields name nothing.
pub open spec fn lists(s: Seq<char>, name: Seq<char>) -> bool {
    name.len() > 0 && exists|i: int, j: int|
        #[trigger] is_field(s, i, j) && lower(trim(s.subrange(i, j))) == name
}

/// The decimal digit for a value below ten.
pub open spec fn digit(d: nat) -> char {
    (48 + d) as char
}

/// A number in decimal, without leading zeros.
pub open spec fn decimal(n: nat) -> Seq<char>
    decreases n,
{
    if n < 10 {
        seq![digit(n)]
    } else {
        decimal(n / 10).push(digit(n % 10))
    }
}

/// `String::push` adds one character at the end.
pub assume_specification[ String::push ](s: &mut String, c: char)
    ensures
        final(s)@ == old(s)@.push(c),
;

/// A number in decimal.
pub(crate) fn decimal_text(n: u64) -> (text: String)
    ensures
        text@ == decimal(n as nat),
    decreases n,
{
    let mut text = if n < 10 {
        String::new()
    } else {
        decimal_text(n / 10)
    };
    let last: u8 = (n % 10) as u8;
    text.push((48 + last) as char);
    text
}

/// The characters of a text, one by one.
pub(crate) fn chars_of(s: &str) -> (chars: Vec<char>)
    ensures
        chars@ == s@,
{
    let mut chars: Vec<char> = Vec::new();
    for c in it: s.chars()
        invariant
            it.seq() == s@,
            chars@ == s@.take(it.index() as int),
    {
        chars.push(c);
    }
    chars
}

/// Whether two texts are the same.
pub(crate) fn same(a: &str, b: &str) -> (equal: bool)
    ensures
        equal == (a@ == b@),
{
    let x = a.as_bytes();
    let y = b.as_bytes();
    proof {
        encode_utf8_decode_utf8(a@);
        encode_utf8_decode_utf8(b@);
    }
    if x.len() != y.len() {
        return false;
    }
    for i in 0..x.len()
        invariant
            x@ == encode_utf8(a@),
            y@ == encode_utf8(b@),
            x@.len() == y@.len(),
            forall|k: int| 0 <= k < i ==> x@[k] == y@[k],
    {
        if x[i] != y[i] {
            return false;
        }
    }
    assert(x@ == y@);
    true
}

/// Skipping blanks at the front does not change what is left after trimming.
pub(crate) proof fn lemma_trim_start(s: Seq<char>, from: int)
    requires
        0 <= from <= s.len(),
        forall|k: int| 0 <= k < from ==> is_blank(#[trigger] s[k]),
        from < s.len() ==> !is_blank(s[from]),
    ensures
        trim_start(s) == s.skip(from),
    decreases from,
{
    if from > 0 {
        assert(is_blank(s[0]));
        assert forall|k: int| 0 <= k < from - 1 implies is_blank(#[trigger] s.drop_first()[k]) by {
            assert(is_blank(s[k + 1]));
        }
        lemma_trim_start(s.drop_first(), from - 1);
        assert(s.drop_first().skip(from - 1) == s.skip(from));
    } else {
        assert(s.skip(0) == s);
    }
}

/// Dropping blanks at the back does not change what is left after trimming.
pub(crate) proof fn lemma_trim_end(s: Seq<char>, to: int)
    requires
        0 <= to <= s.len(),
        forall|k: int| to <= k < s.len() ==> is_blank(#[trigger] s[k]),
        to > 0 ==> !is_blank(s[to - 1]),
    ensures
        trim_end(s) == s.take(to),
    decreases s.len() - to,
{
    if to < s.len() {
        assert(is_blank(s[s.len() - 1]));
        assert forall|k: int| to <= k < s.drop_last().len() implies is_blank(
            #[trigger] s.drop_last()[k],
        ) by {
            assert(is_blank(s[k]));
        }
        lemma_trim_end(s.drop_last(), to);
        assert(s.drop_last().take(to) == s.take(to));
    } else {
        assert(s.take(to) == s);
    }
}

/// One ASCII letter in lower case.
fn to_lower_char(c: char) -> (r: char)
    ensures
        r == lower_char(c),
{
    if 'A' <= c && c <= 'Z' {
        let code: u8 = c as u8;
        (code + 32) as char
    } else {
        c
    }
}

/// Whether a character is an ASCII blank.
fn blank(c: char) -> (r: bool)
    ensures
        r == is_blank(c),
{
    c == ' ' || ('\t' <= c && c <= '\r')
}

/// The characters from `from` to `to`, without blanks around them and in lower case.
fn lower_trimmed_range(chars: &Vec<char>, from: usize, to: usize) -> (text: String)
    requires
        from <= to <= chars@.len(),
    ensures
        text@ == lower(trim(chars@.subrange(from as int, to as int))),
{
    let ghost whole = chars@.subrange(from as int, to as int);
    let mut start: usize = from;
    while start < to && blank(chars[start])
        invariant
            from <= start <= to <= chars@.len(),
            forall|k: int| from <= k < start ==> is_blank(#[trigger] chars@[k]),
        decreases to - start,
    {
        start = start + 1;
    }
    let mut end: usize = to;
    while start < end && blank(chars[end - 1])
        invariant
            from <= start <= end <= to <= chars@.len(),
            forall|k: int| end <= k < to ==> is_blank(#[trigger] chars@[k]),
        decreases end,
    {
        end = end - 1;
    }
    let ghost kept = chars@.subrange(start as int, end as int);
    proof {
        assert forall|k: int| 0 <= k < start - from implies is_blank(#[trigger] whole[k]) by {
            assert(is_blank(chars@[k + from]));
        }
        lemma_trim_start(whole, start - from);
        let rest = whole.skip(start - from);
        assert(rest == chars@.subrange(start as int, to as int));
        assert forall|k: int| end - start <= k < rest.len() implies is_blank(
            #[trigger] rest[k],
        ) by {
            assert(is_blank(chars@[k + start]));
        }
        lemma_trim_end(rest, end - start);
        assert(rest.take(end - start) == kept);
    }
    let mut text = String::new();
    let mut i: usize = start;
    while i < end
        invariant
            start <= i <= end <= chars@.len(),
            kept == chars@.subrange(start as int, end as int),
            text@ == lower(kept.take(i - start)),
        decreases end - i,
    {
        text.push(to_lower_char(chars[i]));
        i = i + 1;
        assert(kept.take(i - start) == kept.take(i - start - 1).push(kept[i - start - 1]));
        assert(text@ == lower(kept.take(i - start)));
    }
    assert(kept.take(end - start) == kept);
    text
}

/// The text without blanks around it and in lower case.
pub(crate) fn lower_trimmed(s: &str) -> (text: String)
    ensures
        text@ == lower(trim(s@)),
{
    let chars = chars_of(s);
    assert(chars@.subrange(0, chars@.len() as int) == s@);
    lower_trimmed_range(&chars, 0, chars.len())
}

/// The text in lower case.
pub(crate) fn lowered(s: &str) -> (text: String)
    ensures
        text@ == lower(s@),
{
    let chars = chars_of(s);
    let mut text = String::new();
    for i in 0..chars.len()
        invariant
            chars@ == s@,
            text@ == lower(s@.take(i as int)),
    {
        text.push(to_lower_char(chars[i]));
        assert(s@.take(i + 1) == s@.take(i as int).push(s@[i as int]));
        assert(text@ == lower(s@.take(i + 1)));
    }
    assert(s@.take(s@.len() as int) == s@);
    text
}

/// Whether `part` stands somewhere in `s`.
pub(crate) fn contains_part(s: &str, part: &str) -> (found: bool)
    ensures
        found == has_part(s@, part@),
{
    let text = chars_of(s);
    let wanted = chars_of(part);
    if wanted.len() == 0 {
        assert(s@.subrange(0, 0) == part@);
        assert(part_at(s@, part@, 0));
        return true;
    }
    let mut i: usize = 0;
    while wanted.len() <= text.len() - i
        invariant
            text@ == s@,
            wanted@ == part@,
            wanted.len() > 0,
            i <= text.len(),
            forall|k: int| 0 <= k < i ==> !part_at(s@, part@, k),
        decreases text.len() - i,
    {
        let mut j: usize = 0;
        while j < wanted.len() && text[i + j] == wanted[j]
            invariant
                text@ == s@,
                wanted@ == part@,
                i + wanted.len() <= text.len(),
                j <= wanted.len(),
                forall|k: int| 0 <= k < j ==> text@[i + k] == wanted@[k],
            decreases wanted.len() - j,
        {
            j = j + 1;
        }
        if j == wanted.len() {
            assert(s@.subrange(i as int, i + part@.len()) == part@);
            assert(part_at(s@, part@, i as int));
            return true;
        }
        proof {
            if part_at(s@, part@, i as int) {
                assert(s@.subrange(i as int, i + part@.len())[j as int] == part@[j as int]);
            }
        }
        i = i + 1;
    }
    false
}

/// A field of `s` that ends before `end` is `name`.
spec fn lists_until(s: Seq<char>, name: Seq<char>, end: int) -> bool {
    name.len() > 0 && exists|i: int, j: int|
        #[trigger] is_field(s, i, j) && j < end && lower(trim(s.subrange(i, j))) == name
}

/// `names` holds exactly the texts that the fields of `s` ending before `end` list.
spec fn holds_listed(names: Seq<String>, s: Seq<char>, end: int) -> bool {
    forall|name: Seq<char>| #[trigger]
        holds(names, name) <==> lists_until(s, name, end)
}

/// One of `names` is the text `name`.
pub open spec fn holds(names: Seq<String>, name: Seq<char>) -> bool {
    exists|k: int| 0 <= k < names.len() && #[trigger] names[k]@ == name
}

/// A text one longer holds one more name.
pub(crate) proof fn lemma_holds_push(names: Seq<String>, last: String, name: Seq<char>)
    ensures
        holds(names.push(last), name) <==> holds(names, name) || last@ == name,
{
    let longer = names.push(last);
    if holds(names, name) {
        let k = choose|k: int| 0 <= k < names.len() && #[trigger] names[k]@ == name;
        assert(longer[k]@ == name);
    }
    if last@ == name {
        assert(longer[names.len() as int]@ == name);
    }
    if holds(longer, name) {
        let k = choose|k: int| 0 <= k < longer.len() && #[trigger] longer[k]@ == name;
        if k < names.len() {
            assert(names[k]@ == name);
        }
    }
}

/// Adds the field from `start` to `at` to the names of the fields before it.
fn add_field(chars: &Vec<char>, start: usize, at: usize, names: &mut Vec<String>)
    requires
        is_field(chars@, start as int, at as int),
        holds_listed(old(names)@, chars@, start as int),
    ensures
        holds_listed(final(names)@, chars@, at + 1),
{
    let ghost before = names@;
    let ghost text = chars@;
    let field = lower_trimmed_range(chars, start, at);
    let ghost found = field@;
    let ghost string = field;
    if !field.as_str().is_empty() {
        names.push(field);
    }
    proof {
        assert forall|name: Seq<char>| #[trigger] holds(names@, name) <==> lists_until(
            text,
            name,
            at + 1,
        ) by {
            if found.len() > 0 {
                lemma_holds_push(before, string, name);
            }
            assert(holds(before, name) <==> lists_until(text, name, start as int));
            if lists_until(text, name, at + 1) {
                let (i, j) = choose|i: int, j: int| #[trigger]
                    is_field(text, i, j) && j < at + 1 && lower(trim(text.subrange(i, j))) == name;
                if j >= start {
                    assert(i == start && j == at) by {
                        if i > start {
                            assert(text[i - 1] == ',');
                        }
                        if i < start {
                            assert(text[start - 1] != ',');
                        }
                        if j < at {
                            assert(text[j] == ',');
                        }
                    }
                    assert(name == found);
                }
            }
        }
    }
}

/// The names that a comma-separated list holds, without blanks around them, in lower case, and
/// without the empty ones.
pub(crate) fn listed_names(s: &str) -> (names: Vec<String>)
    ensures
        forall|name: Seq<char>| #[trigger] holds(names@, name) <==> lists(s@, name),
{
    let chars = chars_of(s);
    let mut names: Vec<String> = Vec::new();
    let mut start: usize = 0;
    for at in 0..chars.len()
        invariant
            chars@ == s@,
            start <= at <= chars@.len(),
            start == 0 || chars@[start - 1] == ',',
            forall|k: int| start <= k < at ==> chars@[k] != ',',
            holds_listed(names@, chars@, start as int),
    {
        if chars[at] == ',' {
            add_field(&chars, start, at, &mut names);
            start = at + 1;
        }
    }
    add_field(&chars, start, chars.len(), &mut names);
    assert forall|name: Seq<char>| #[trigger] holds(names@, name) <==> lists(s@, name) by {
        assert(lists_until(s@, name, chars.len() + 1) <==> lists(s@, name));
    }
    names
}

} // verus!
