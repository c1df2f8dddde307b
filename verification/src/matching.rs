//! Splitting a text into the pieces a search matched and the pieces around them.
use vstd::prelude::*;
use crate::text::{chars_of, byte_offset, find_offset, char_offsets, find_char, lemma_find_offset_bound};

verus! {

broadcast use vstd::string::group_string_axioms;

/// A piece of text and whether the search matched it.
pub type Piece = (Seq<char>, bool);

pub open spec fn pieces_view(v: Seq<(String, bool)>) -> Seq<Piece> {
    Seq::new(v.len(), |i: int| (v[i].0@, v[i].1))
}

/// The characters of `chars` between byte offsets `a` and `b`, both of which
/// start a character (or are the end).
pub open spec fn between(chars: Seq<char>, a: int, b: int) -> Seq<char> {
    chars.subrange(find_offset(chars, a, 0)->0, find_offset(chars, b, 0)->0)
}

/// `p` is a byte offset where a character of `chars` starts, or the end.
pub open spec fn at_char(chars: Seq<char>, p: int) -> bool {
    find_offset(chars, p, 0) is Some
}

/// Each range is ordered and its ends fall between characters.
pub open spec fn ranges_fit(chars: Seq<char>, ranges: Seq<(usize, usize)>) -> bool {
    forall|i: int| 0 <= i < ranges.len() ==> {
        &&& (#[trigger] ranges[i]).0 <= ranges[i].1
        &&& at_char(chars, ranges[i].0 as int)
        &&& at_char(chars, ranges[i].1 as int)
    }
}

/// The pieces for the first `n` ranges, from byte `cursor` on, and where the
/// cursor ends: the text before a range (when the cursor is before it), then
/// the range itself, matched.
pub open spec fn range_pieces(chars: Seq<char>, ranges: Seq<(usize, usize)>, n: int) -> (Seq<Piece>, int)
    decreases n,
{
    if n <= 0 {
        (seq![], 0)
    } else {
        let (pieces, cursor) = range_pieces(chars, ranges, n - 1);
        let (start, end) = ranges[n - 1];
        let pieces = if cursor < start { pieces.push((between(chars, cursor, start as int), false)) } else { pieces };
        (pieces.push((between(chars, start as int, end as int), true)), end as int)
    }
}

/// The pieces of `text` for the matched byte ranges: unmatched text between them
/// and after the last one; the whole text, unmatched, without ranges.
pub open spec fn match_pieces(chars: Seq<char>, ranges: Seq<(usize, usize)>) -> Seq<Piece> {
    if ranges.len() == 0 {
        seq![(chars, false)]
    } else {
        let (pieces, cursor) = range_pieces(chars, ranges, ranges.len() as int);
        let total = byte_offset(chars, chars.len() as int);
        if cursor < total { pieces.push((between(chars, cursor, total), false)) } else { pieces }
    }
}

fn sub_string(chars: &Vec<char>, from: usize, to: usize) -> (out: String)
    requires
        from <= to <= chars@.len(),
    ensures
        out@ == chars@.subrange(from as int, to as int),
{
    let mut out = String::new();
    let mut i = from;
    while i < to
        invariant
            from <= i <= to <= chars@.len(),
            out@ == chars@.subrange(from as int, i as int),
        decreases to - i,
    {
        crate::text::push_char(&mut out, chars[i]);
        i = i + 1;
        assert(out@ =~= chars@.subrange(from as int, i as int));
    }
    out
}

proof fn lemma_offsets_increase(chars: Seq<char>, i: int, j: int)
    requires
        0 <= i <= j <= chars.len(),
    ensures
        byte_offset(chars, i) + (j - i) <= byte_offset(chars, j),
    decreases j - i,
{
    if i < j {
        lemma_offsets_increase(chars, i, j - 1);
    }
}

proof fn lemma_find_exact(chars: Seq<char>, p: int, i: int)
    requires
        find_offset(chars, p, 0) == Some(i),
    ensures
        0 <= i <= chars.len(),
        byte_offset(chars, i) == p,
{
    lemma_find_offset_bound(chars, p, 0);
    lemma_find_at(chars, p, 0);
}

proof fn lemma_find_at(chars: Seq<char>, p: int, k: int)
    ensures
        find_offset(chars, p, k) matches Some(i) ==> byte_offset(chars, i) == p,
    decreases chars.len() + 1 - k,
{
    if 0 <= k <= chars.len() && byte_offset(chars, k) != p {
        lemma_find_at(chars, p, k + 1);
    }
}

/// Ordered offsets between characters select ordered characters.
proof fn lemma_order(chars: Seq<char>, a: int, b: int)
    requires
        a <= b,
        at_char(chars, a),
        at_char(chars, b),
    ensures
        find_offset(chars, a, 0)->0 <= find_offset(chars, b, 0)->0,
{
    let i = find_offset(chars, a, 0)->0;
    let j = find_offset(chars, b, 0)->0;
    lemma_find_exact(chars, a, i);
    lemma_find_exact(chars, b, j);
    if j < i {
        lemma_offsets_increase(chars, j + 1, i);
        lemma_offsets_increase(chars, j, j + 1);
        assert(byte_offset(chars, j + 1) == byte_offset(chars, j) + crate::text::utf8_len(chars[j]));
    }
}

/// Splits `text` at the matched byte ranges.
pub fn match_segments(text: &str, ranges: &[(usize, usize)]) -> (out: Vec<(String, bool)>)
    requires
        ranges_fit(text@, ranges@),
    ensures
        pieces_view(out@) == match_pieces(text@, ranges@),
{
    let chars = chars_of(text);
    let mut out: Vec<(String, bool)> = Vec::new();
    if ranges.len() == 0 {
        out.push((string_of(&chars), false));
        assert(pieces_view(out@) =~= match_pieces(text@, ranges@));
        return out;
    }
    let offsets = char_offsets(&chars);
    let mut cursor: usize = 0;
    let mut k: usize = 0;
    assert(find_offset(chars@, 0, 0) == Some(0int));
    assert(pieces_view(out@) =~= Seq::<Piece>::empty());
    while k < ranges.len()
        invariant
            chars@ == text@,
            k <= ranges@.len(),
            ranges_fit(text@, ranges@),
            offsets@.len() == chars@.len() + 1,
            forall|i: int| 0 <= i <= chars@.len() ==> offsets@[i] == byte_offset(chars@, i),
            at_char(chars@, cursor as int),
            range_pieces(text@, ranges@, k as int) == (pieces_view(out@), cursor as int),
        decreases ranges@.len() - k,
    {
        let (start, end) = ranges[k];
        assert(ranges@[k as int].0 <= ranges@[k as int].1);
        let start_index = find_char(&offsets, Ghost(chars@), start).unwrap();
        let end_index = find_char(&offsets, Ghost(chars@), end).unwrap();
        proof {
            lemma_order(chars@, start as int, end as int);
            lemma_find_offset_bound(chars@, end as int, 0);
        }
        let ghost before = out@;
        if cursor < start {
            let cursor_index = find_char(&offsets, Ghost(chars@), cursor).unwrap();
            proof { lemma_order(chars@, cursor as int, start as int); }
            out.push((sub_string(&chars, cursor_index, start_index), false));
        }
        out.push((sub_string(&chars, start_index, end_index), true));
        assert(pieces_view(out@) =~= range_pieces(text@, ranges@, k as int + 1).0);
        cursor = end;
        k = k + 1;
    }
    let total = offsets[chars.len()];
    if (cursor as u128) < total {
        let cursor_index = find_char(&offsets, Ghost(chars@), cursor).unwrap();
        proof { lemma_find_offset_bound(chars@, cursor as int, 0); }
        assert(find_offset(chars@, total as int, 0) == Some(chars@.len() as int)) by {
            lemma_offsets_increase(chars@, 0, chars@.len() as int);
            lemma_first_offset(chars@, chars@.len() as int);
        }
        let ghost before = out@;
        out.push((sub_string(&chars, cursor_index, chars.len()), false));
        assert(pieces_view(out@) =~= pieces_view(before).push((between(text@, cursor as int, total as int), false)));
    }
    out
}

/// The end's byte offset is found at the end: no earlier character starts there.
proof fn lemma_first_offset(chars: Seq<char>, n: int)
    requires
        n == chars.len(),
    ensures
        find_offset(chars, byte_offset(chars, n), 0) == Some(n),
{
    lemma_scan(chars, byte_offset(chars, n), 0);
}

proof fn lemma_scan(chars: Seq<char>, p: int, k: int)
    requires
        0 <= k <= chars.len(),
        p == byte_offset(chars, chars.len() as int),
    ensures
        find_offset(chars, p, k) == Some(chars.len() as int),
    decreases chars.len() - k,
{
    if k < chars.len() {
        lemma_offsets_increase(chars, k + 1, chars.len() as int);
        assert(byte_offset(chars, k + 1) == byte_offset(chars, k) + crate::text::utf8_len(chars[k]));
        lemma_scan(chars, p, k + 1);
    }
}

fn string_of(chars: &Vec<char>) -> (out: String)
    ensures
        out@ == chars@,
{
    crate::text::string_from(chars.as_slice())
}

/// Flags of the characters of `chars`: whether each one starts at a matched
/// byte position.
pub open spec fn flagged(chars: Seq<char>, positions: Seq<usize>, i: int) -> bool {
    exists|q: int| 0 <= q < positions.len() && (#[trigger] positions[q]) as int == byte_offset(chars, i)
}

/// Groups the first `n` characters into maximal pieces of equal flags.
pub open spec fn label_walk(chars: Seq<char>, positions: Seq<usize>, n: int) -> Seq<Piece>
    decreases n,
{
    if n <= 0 {
        seq![]
    } else {
        let pieces = label_walk(chars, positions, n - 1);
        let c = chars[n - 1];
        let m = flagged(chars, positions, n - 1);
        if pieces.len() > 0 && pieces.last().1 == m {
            pieces.update(pieces.len() - 1, (pieces.last().0.push(c), m))
        } else {
            pieces.push((seq![c], m))
        }
    }
}

/// A completion label split into the pieces that matched the typed identifier
/// (`positions`, byte offsets of matched characters) and the rest; the whole
/// label unmatched when it did not match.
pub fn label_segments(label: &str, positions: Option<&[usize]>) -> (out: Vec<(String, bool)>)
    ensures
        match positions {
            None => pieces_view(out@) == seq![(label@, false)],
            Some(p) => pieces_view(out@) == label_walk(label@, p@, label@.len() as int),
        },
{
    let chars = chars_of(label);
    let mut out: Vec<(String, bool)> = Vec::new();
    let positions = match positions {
        None => {
            out.push((string_of(&chars), false));
            assert(pieces_view(out@) =~= seq![(label@, false)]);
            return out;
        },
        Some(p) => p,
    };
    let offsets = char_offsets(&chars);
    let mut i: usize = 0;
    assert(pieces_view(out@) =~= Seq::<Piece>::empty());
    while i < chars.len()
        invariant
            chars@ == label@,
            i <= chars@.len(),
            offsets@.len() == chars@.len() + 1,
            forall|k: int| 0 <= k <= chars@.len() ==> offsets@[k] == byte_offset(chars@, k),
            pieces_view(out@) == label_walk(label@, positions@, i as int),
        decreases chars@.len() - i,
    {
        let position = offsets[i];
        let mut matched = false;
        let mut j: usize = 0;
        while j < positions.len()
            invariant
                j <= positions@.len(),
                matched == exists|q: int| 0 <= q < j && (#[trigger] positions@[q]) as int == position,
            decreases positions@.len() - j,
        {
            if positions[j] as u128 == position {
                matched = true;
            }
            j = j + 1;
        }
        assert(matched == flagged(label@, positions@, i as int));
        let c = chars[i];
        let n = out.len();
        let ghost before = out@;
        if n > 0 && out[n - 1].1 == matched {
            let (mut text, flag) = out.pop().unwrap();
            crate::text::push_char(&mut text, c);
            out.push((text, flag));
        } else {
            let mut text = String::new();
            crate::text::push_char(&mut text, c);
            out.push((text, matched));
        }
        assert(pieces_view(out@) =~= label_walk(label@, positions@, i as int + 1));
        i = i + 1;
    }
    out
}

} // verus!
