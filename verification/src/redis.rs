//! Text of Redis values and of the Redis browser's labels.
use vstd::prelude::*;
use crate::text::{owned, push_char, push_str, push_decimal, push_zero_padded, decimal, zero_padded, text_lines};
use ratatui::text::Line;

verus! {

broadcast use vstd::string::group_string_axioms;

/// Type of a Redis key.
#[derive(Clone, Copy, Debug, PartialEq, Eq, Structural)]
pub enum RedisType {
    String,
    List,
    UnorderedSet,
    SortedSet,
    Hash,
    Stream,
}

/// Time to live of a Redis key.
#[derive(Clone, Copy, Debug, PartialEq, Eq, Structural)]
pub enum TtlState {
    Missing,
    Persistent,
    ExpiresIn { millis: u64 },
    Unavailable,
}

/// What is known of a key besides its value.
#[derive(Clone, Copy, Debug, PartialEq, Eq, Structural)]
pub struct RedisKeyMetadata {
    pub value_type: RedisType,
    pub ttl: TtlState,
}

/// One page of a Redis value, by type.
#[derive(Clone, Debug)]
pub enum RedisPageValue {
    String(Vec<u8>),
    Hash(Vec<(Vec<u8>, Vec<u8>)>),
    List(Vec<(u64, Vec<u8>)>),
    UnorderedSet(Vec<Vec<u8>>),
    SortedSet(Vec<(Vec<u8>, Vec<u8>)>),
    Stream(Vec<(Vec<u8>, Vec<(Vec<u8>, Vec<u8>)>)>),
}

/// A page of a Redis value with its metadata.
#[derive(Clone, Debug)]
pub struct RedisValuePage {
    pub metadata: RedisKeyMetadata,
    pub value: RedisPageValue,
    pub truncated: bool,
    pub raw_bytes: u64,
}

/// The `Debug` name of a Redis type.
pub open spec fn type_label(t: RedisType) -> Seq<char> {
    match t {
        RedisType::String => "String"@,
        RedisType::List => "List"@,
        RedisType::UnorderedSet => "Set"@,
        RedisType::SortedSet => "SortedSet"@,
        RedisType::Hash => "Hash"@,
        RedisType::Stream => "Stream"@,
    }
}

fn push_type_label(out: &mut String, t: RedisType)
    ensures
        final(out)@ == old(out)@ + type_label(t),
{
    match t {
        RedisType::String => push_str(out, "String"),
        RedisType::List => push_str(out, "List"),
        RedisType::UnorderedSet => push_str(out, "Set"),
        RedisType::SortedSet => push_str(out, "SortedSet"),
        RedisType::Hash => push_str(out, "Hash"),
        RedisType::Stream => push_str(out, "Stream"),
    }
}

/// How a TTL is shown: `missing`, `persistent`, `<n>ms` or `unavailable`.
pub open spec fn ttl_words(ttl: TtlState) -> Seq<char> {
    match ttl {
        TtlState::Missing => "missing"@,
        TtlState::Persistent => "persistent"@,
        TtlState::ExpiresIn { millis } => decimal(millis as nat) + "ms"@,
        TtlState::Unavailable => "unavailable"@,
    }
}

/// The text of a TTL.
pub fn ttl_text(ttl: &TtlState) -> (out: String)
    ensures
        out@ == ttl_words(*ttl),
{
    match ttl {
        TtlState::Missing => owned("missing"),
        TtlState::Persistent => owned("persistent"),
        TtlState::ExpiresIn { millis } => {
            let mut out = String::new();
            push_decimal(&mut out, *millis);
            push_str(&mut out, "ms");
            assert(out@ =~= ttl_words(*ttl));
            out
        },
        TtlState::Unavailable => owned("unavailable"),
    }
}

/// A byte that prints as itself: visible ASCII or ASCII whitespace.
pub open spec fn printable(b: u8) -> bool {
    (0x21 <= b <= 0x7E) || b == 0x20 || b == 0x09 || b == 0x0A || b == 0x0C || b == 0x0D
}

pub open spec fn hex_digit(d: nat) -> char {
    if d < 10 { crate::text::digit_char(d) } else if d == 10 { 'a' } else if d == 11 { 'b' }
    else if d == 12 { 'c' } else if d == 13 { 'd' } else if d == 14 { 'e' } else { 'f' }
}

/// `\xNN` for each byte, two lowercase hex digits.
pub open spec fn escaped(v: Seq<u8>) -> Seq<char>
    decreases v.len(),
{
    if v.len() == 0 {
        seq![]
    } else {
        let b = v.last();
        escaped(v.drop_last()) + seq!['\\', 'x', hex_digit((b / 16) as nat), hex_digit((b % 16) as nat)]
    }
}

/// Bytes as text: the characters themselves when every byte prints as itself,
/// otherwise every byte escaped.
pub open spec fn bytes_text(v: Seq<u8>) -> Seq<char> {
    if forall|i: int| 0 <= i < v.len() ==> #[trigger] printable(v[i]) {
        Seq::new(v.len(), |i: int| v[i] as char)
    } else {
        escaped(v)
    }
}

pub(crate) fn hex(d: u8) -> (c: char)
    requires
        d < 16,
    ensures
        c == hex_digit(d as nat),
{
    if d == 0 { '0' } else if d == 1 { '1' } else if d == 2 { '2' } else if d == 3 { '3' }
    else if d == 4 { '4' } else if d == 5 { '5' } else if d == 6 { '6' } else if d == 7 { '7' }
    else if d == 8 { '8' } else if d == 9 { '9' } else if d == 10 { 'a' } else if d == 11 { 'b' }
    else if d == 12 { 'c' } else if d == 13 { 'd' } else if d == 14 { 'e' } else { 'f' }
}

/// Appends the text of a byte string.
pub fn push_bytes(out: &mut String, value: &[u8])
    ensures
        final(out)@ == old(out)@ + bytes_text(value@),
{
    let ghost start = out@;
    let mut all = true;
    let mut i: usize = 0;
    while i < value.len()
        invariant
            i <= value@.len(),
            all == forall|k: int| 0 <= k < i ==> #[trigger] printable(value@[k]),
        decreases value@.len() - i,
    {
        let b = value[i];
        let ok = (b >= 0x21 && b <= 0x7E) || b == 0x20 || b == 0x09 || b == 0x0A || b == 0x0C || b == 0x0D;
        assert(ok == printable(value@[i as int]));
        let ghost before = all;
        all = all && ok;
        proof {
            if !ok {
                assert(!printable(value@[i as int]));
            }
            if all {
                assert forall|k: int| 0 <= k < i + 1 implies #[trigger] printable(value@[k]) by {
                    if k < i {
                        assert(before);
                    }
                }
            }
        }
        i = i + 1;
    }
    let mut j: usize = 0;
    if all {
        while j < value.len()
            invariant
                j <= value@.len(),
                out@ == start + Seq::new(j as nat, |k: int| value@[k] as char),
            decreases value@.len() - j,
        {
            push_char(out, value[j] as char);
            j = j + 1;
            assert(out@ =~= start + Seq::new(j as nat, |k: int| value@[k] as char));
        }
        assert(Seq::new(j as nat, |k: int| value@[k] as char) =~= Seq::new(value@.len(), |k: int| value@[k] as char));
    } else {
        while j < value.len()
            invariant
                j <= value@.len(),
                out@ == start + escaped(value@.take(j as int)),
            decreases value@.len() - j,
        {
            let b = value[j];
            push_char(out, '\\');
            push_char(out, 'x');
            push_char(out, hex(b / 16));
            push_char(out, hex(b % 16));
            assert(value@.take(j as int + 1).drop_last() =~= value@.take(j as int));
            j = j + 1;
            assert(out@ =~= start + escaped(value@.take(j as int)));
        }
        assert(value@.take(j as int) =~= value@);
    }
}

/// The text of a byte string (what `display_bytes` shows).
pub fn display_bytes(value: &[u8]) -> (out: String)
    ensures
        out@ == bytes_text(value@),
{
    let mut out = String::new();
    push_bytes(&mut out, value);
    assert(out@ =~= bytes_text(value@));
    out
}

/// The lines of a value page before styling: a header with type, TTL and raw size,
/// one line per element, then `<page truncated>` when the page is partial.
pub open spec fn page_line_texts(page: RedisValuePage) -> Seq<Seq<char>> {
    let header = "type="@ + type_label(page.metadata.value_type) + " ttl="@ + ttl_words(page.metadata.ttl)
        + " raw="@ + decimal(page.raw_bytes as nat) + "B"@;
    let body = match page.value {
        RedisPageValue::String(v) => seq![bytes_text(v@)],
        RedisPageValue::Hash(v) => Seq::new(v@.len(), |i: int| bytes_text(v@[i].0@) + "\t"@ + bytes_text(v@[i].1@)),
        RedisPageValue::List(v) => Seq::new(v@.len(), |i: int| decimal(v@[i].0 as nat) + "\t"@ + bytes_text(v@[i].1@)),
        RedisPageValue::UnorderedSet(v) => Seq::new(v@.len(), |i: int| bytes_text(v@[i]@)),
        RedisPageValue::SortedSet(v) => Seq::new(v@.len(), |i: int| bytes_text(v@[i].0@) + "\t"@ + bytes_text(v@[i].1@)),
        RedisPageValue::Stream(v) => Seq::new(v@.len(), |i: int| bytes_text(v@[i].0@) + "\t"@ + decimal(v@[i].1@.len()) + " fields"@),
    };
    let lines = seq![header] + body;
    if page.truncated { lines.push("<page truncated>"@) } else { lines }
}

/// The raw text of each line of a value page.
pub fn page_lines(page: &RedisValuePage) -> (out: Vec<String>)
    ensures
        out@.len() == page_line_texts(*page).len(),
        forall|i: int| 0 <= i < out@.len() ==> #[trigger] out@[i]@ == page_line_texts(*page)[i],
{
    let mut lines: Vec<String> = Vec::new();
    let mut header = owned("type=");
    push_type_label(&mut header, page.metadata.value_type);
    push_str(&mut header, " ttl=");
    let ttl = ttl_text(&page.metadata.ttl);
    push_str(&mut header, ttl.as_str());
    push_str(&mut header, " raw=");
    push_decimal(&mut header, page.raw_bytes);
    push_str(&mut header, "B");
    lines.push(header);
    let ghost expected = page_line_texts(*page);
    assert(lines@[0]@ =~= expected[0]);
    match &page.value {
        RedisPageValue::String(v) => {
            lines.push(display_bytes(v.as_slice()));
        },
        RedisPageValue::Hash(v) => {
            let mut i: usize = 0;
            while i < v.len()
                invariant
                    i <= v@.len(),
                    lines@.len() == i + 1,
                    lines@[0]@ == expected[0],
                    forall|k: int| 1 <= k <= i ==> #[trigger] lines@[k]@ == bytes_text(v@[k - 1].0@) + "\t"@ + bytes_text(v@[k - 1].1@),
                decreases v@.len() - i,
            {
                let mut line = String::new();
                push_bytes(&mut line, v[i].0.as_slice());
                push_str(&mut line, "\t");
                push_bytes(&mut line, v[i].1.as_slice());
                assert(line@ =~= bytes_text(v@[i as int].0@) + "\t"@ + bytes_text(v@[i as int].1@));
                lines.push(line);
                i = i + 1;
            }
        },
        RedisPageValue::List(v) => {
            let mut i: usize = 0;
            while i < v.len()
                invariant
                    i <= v@.len(),
                    lines@.len() == i + 1,
                    lines@[0]@ == expected[0],
                    forall|k: int| 1 <= k <= i ==> #[trigger] lines@[k]@ == decimal(v@[k - 1].0 as nat) + "\t"@ + bytes_text(v@[k - 1].1@),
                decreases v@.len() - i,
            {
                let mut line = String::new();
                push_decimal(&mut line, v[i].0);
                push_str(&mut line, "\t");
                push_bytes(&mut line, v[i].1.as_slice());
                assert(line@ =~= decimal(v@[i as int].0 as nat) + "\t"@ + bytes_text(v@[i as int].1@));
                lines.push(line);
                i = i + 1;
            }
        },
        RedisPageValue::UnorderedSet(v) => {
            let mut i: usize = 0;
            while i < v.len()
                invariant
                    i <= v@.len(),
                    lines@.len() == i + 1,
                    lines@[0]@ == expected[0],
                    forall|k: int| 1 <= k <= i ==> #[trigger] lines@[k]@ == bytes_text(v@[k - 1]@),
                decreases v@.len() - i,
            {
                lines.push(display_bytes(v[i].as_slice()));
                i = i + 1;
            }
        },
        RedisPageValue::SortedSet(v) => {
            let mut i: usize = 0;
            while i < v.len()
                invariant
                    i <= v@.len(),
                    lines@.len() == i + 1,
                    lines@[0]@ == expected[0],
                    forall|k: int| 1 <= k <= i ==> #[trigger] lines@[k]@ == bytes_text(v@[k - 1].0@) + "\t"@ + bytes_text(v@[k - 1].1@),
                decreases v@.len() - i,
            {
                let mut line = String::new();
                push_bytes(&mut line, v[i].0.as_slice());
                push_str(&mut line, "\t");
                push_bytes(&mut line, v[i].1.as_slice());
                assert(line@ =~= bytes_text(v@[i as int].0@) + "\t"@ + bytes_text(v@[i as int].1@));
                lines.push(line);
                i = i + 1;
            }
        },
        RedisPageValue::Stream(v) => {
            let mut i: usize = 0;
            while i < v.len()
                invariant
                    i <= v@.len(),
                    lines@.len() == i + 1,
                    lines@[0]@ == expected[0],
                    forall|k: int| 1 <= k <= i ==> #[trigger] lines@[k]@ == bytes_text(v@[k - 1].0@) + "\t"@ + decimal(v@[k - 1].1@.len()) + " fields"@,
                decreases v@.len() - i,
            {
                let mut line = String::new();
                push_bytes(&mut line, v[i].0.as_slice());
                push_str(&mut line, "\t");
                push_decimal(&mut line, v[i].1.len() as u64);
                push_str(&mut line, " fields");
                assert(line@ =~= bytes_text(v@[i as int].0@) + "\t"@ + decimal(v@[i as int].1@.len()) + " fields"@);
                lines.push(line);
                i = i + 1;
            }
        },
    }
    if page.truncated {
        lines.push(owned("<page truncated>"));
    }
    assert(lines@.len() == expected.len());
    assert forall|i: int| 0 <= i < lines@.len() implies #[trigger] lines@[i]@ == expected[i] by {
    }
    lines
}

/// Lines joined with `\n` between them.
pub open spec fn joined(lines: Seq<Seq<char>>) -> Seq<char>
    decreases lines.len(),
{
    if lines.len() == 0 {
        seq![]
    } else if lines.len() == 1 {
        lines[0]
    } else {
        joined(lines.drop_last()) + seq!['\n'] + lines.last()
    }
}

/// What a line of text shows: its content with line breaks removed.
pub open spec fn shown(s: Seq<char>) -> Seq<char> {
    text_lines(s).flatten()
}

/// `Line::from(text).to_string()`: a `ratatui` line keeps the pieces of `text`
/// between line breaks and drops the breaks.
#[verifier::external_body]
fn line_display(text: String) -> (out: String)
    ensures
        out@ == shown(text@),
{
    Line::from(text).to_string()
}

/// The whole value page as plain text: the shown lines joined with `\n`.
pub fn page_text(page: &RedisValuePage) -> (out: String)
    ensures
        out@ == joined(page_line_texts(*page).map_values(|l: Seq<char>| shown(l))),
{
    let lines = page_lines(page);
    let ghost expected = page_line_texts(*page).map_values(|l: Seq<char>| shown(l));
    let mut out = String::new();
    let mut i: usize = 0;
    while i < lines.len()
        invariant
            i <= lines@.len(),
            lines@.len() == expected.len(),
            forall|k: int| 0 <= k < lines@.len() ==> #[trigger] shown(lines@[k]@) == expected[k],
            out@ == joined(expected.take(i as int)),
        decreases lines@.len() - i,
    {
        let text = line_display(lines[i].clone());
        assert(text@ == expected[i as int]);
        let ghost prev = out@;
        if i > 0 {
            push_char(&mut out, '\n');
        }
        push_str(&mut out, text.as_str());
        let ghost next = expected.take(i as int + 1);
        assert(next.drop_last() =~= expected.take(i as int));
        assert(next.last() == expected[i as int]);
        if i == 0 {
            assert(next.len() == 1);
            assert(out@ =~= next[0]);
        } else {
            assert(out@ =~= prev + seq!['\n'] + next.last());
        }
        i = i + 1;
        assert(out@ =~= joined(expected.take(i as int)));
    }
    assert(expected.take(i as int) =~= expected);
    out
}

/// How many elements a page holds (a string is one).
pub open spec fn element_count(value: RedisPageValue) -> nat {
    match value {
        RedisPageValue::String(_) => 1,
        RedisPageValue::Hash(v) => v@.len(),
        RedisPageValue::List(v) => v@.len(),
        RedisPageValue::UnorderedSet(v) => v@.len(),
        RedisPageValue::SortedSet(v) => v@.len(),
        RedisPageValue::Stream(v) => v@.len(),
    }
}

/// A value page shows a header naming the value's type, its TTL and its raw
/// size, then one line per element in page order, then the truncation note
/// when the page is partial. The line of a hash field or of a sorted-set
/// member shows both halves of the pair: the first (field or member) as text,
/// a tab, then the second (its value or its score). A list element's line
/// shows its index, a tab, then its value; a stream entry's its id, a tab and
/// how many fields it has.
pub proof fn law_page_lines_show_every_element(page: RedisValuePage, i: int)
    requires
        0 <= i < element_count(page.value),
    ensures
        page_line_texts(page).len() == 1 + element_count(page.value) + (if page.truncated { 1int } else { 0int }),
        page.truncated ==> page_line_texts(page).last() == "<page truncated>"@,
        page_line_texts(page)[0] == "type="@
            + (match page.metadata.value_type {
                RedisType::String => "String"@,
                RedisType::List => "List"@,
                RedisType::UnorderedSet => "Set"@,
                RedisType::SortedSet => "SortedSet"@,
                RedisType::Hash => "Hash"@,
                RedisType::Stream => "Stream"@,
            })
            + " ttl="@
            + (match page.metadata.ttl {
                TtlState::Missing => "missing"@,
                TtlState::Persistent => "persistent"@,
                TtlState::ExpiresIn { millis } => decimal(millis as nat) + "ms"@,
                TtlState::Unavailable => "unavailable"@,
            })
            + " raw="@ + decimal(page.raw_bytes as nat) + "B"@,
        match page.value {
            RedisPageValue::Hash(v) =>
                page_line_texts(page)[i + 1] == bytes_text(v@[i].0@) + "\t"@ + bytes_text(v@[i].1@),
            RedisPageValue::SortedSet(v) =>
                page_line_texts(page)[i + 1] == bytes_text(v@[i].0@) + "\t"@ + bytes_text(v@[i].1@),
            RedisPageValue::List(v) =>
                page_line_texts(page)[i + 1] == decimal(v@[i].0 as nat) + "\t"@ + bytes_text(v@[i].1@),
            RedisPageValue::UnorderedSet(v) => page_line_texts(page)[i + 1] == bytes_text(v@[i]@),
            RedisPageValue::String(v) => page_line_texts(page)[1] == bytes_text(v@),
            RedisPageValue::Stream(v) =>
                page_line_texts(page)[i + 1] == bytes_text(v@[i].0@) + "\t"@ + decimal(v@[i].1@.len()) + " fields"@,
        },
{
}

/// Bytes that all print as themselves are shown as those characters; any other
/// byte string is shown with every byte as `\x` and two lowercase hex digits,
/// high digit first.
pub proof fn law_bytes_text_shows_or_escapes_each_byte(v: Seq<u8>)
    ensures
        (forall|k: int| 0 <= k < v.len() ==> #[trigger] printable(v[k])) ==> {
            &&& bytes_text(v).len() == v.len()
            &&& forall|k: int| 0 <= k < v.len() ==> bytes_text(v)[k] == #[trigger] v[k] as char
        },
        !(forall|k: int| 0 <= k < v.len() ==> #[trigger] printable(v[k])) ==> {
            &&& bytes_text(v).len() == 4 * v.len()
            &&& forall|k: int| 0 <= k < v.len() ==> bytes_text(v).subrange(4 * k, 4 * k + 4)
                == seq!['\\', 'x', "0123456789abcdef"@[(#[trigger] v[k]) as int / 16], "0123456789abcdef"@[v[k] as int % 16]]
        },
        forall|b: u8| #[trigger] printable(b) <==> (0x20 <= b <= 0x7E || b == 0x09 || b == 0x0A || b == 0x0C || b == 0x0D),
{
    lemma_escaped(v);
}

proof fn lemma_escaped(v: Seq<u8>)
    ensures
        escaped(v).len() == 4 * v.len(),
        forall|k: int| 0 <= k < v.len() ==> escaped(v).subrange(4 * k, 4 * k + 4)
            == seq!['\\', 'x', "0123456789abcdef"@[(#[trigger] v[k]) as int / 16], "0123456789abcdef"@[v[k] as int % 16]],
    decreases v.len(),
{
    reveal_strlit("0123456789abcdef");
    if v.len() > 0 {
        let w = v.drop_last();
        lemma_escaped(w);
        let b = v.last();
        let tail = seq!['\\', 'x', hex_digit((b / 16) as nat), hex_digit((b % 16) as nat)];
        let e = escaped(v);
        assert(e == escaped(w) + tail);
        assert(hex_digit((b / 16) as nat) == "0123456789abcdef"@[b as int / 16]);
        assert(hex_digit((b % 16) as nat) == "0123456789abcdef"@[b as int % 16]);
        assert forall|k: int| 0 <= k < v.len() implies e.subrange(4 * k, 4 * k + 4)
            == seq!['\\', 'x', "0123456789abcdef"@[(#[trigger] v[k]) as int / 16], "0123456789abcdef"@[v[k] as int % 16]] by {
            if k < w.len() {
                assert(v[k] == w[k]);
                assert(e.subrange(4 * k, 4 * k + 4) =~= escaped(w).subrange(4 * k, 4 * k + 4));
            } else {
                assert(v[k] == b);
                assert(e.subrange(4 * k, 4 * k + 4) =~= tail);
            }
        }
    }
}

} // verus!
