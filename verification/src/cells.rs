//! Terminal cell widths of characters and strings, and cell-bounded truncation.
use vstd::prelude::*;
use crate::text::{push_char, string_from, chars_of};
use unicode_width::{UnicodeWidthChar, UnicodeWidthStr};
use ratatui::buffer::CellWidth;

verus! {

broadcast use vstd::string::group_string_axioms;

/// The width that Unicode's East Asian Width tables give a character at or above U+00A0.
pub uninterp spec fn table_width(c: char) -> nat;

/// The width in cells of a whole string as the `unicode-width` crate measures it.
pub uninterp spec fn unicode_str_width(s: Seq<char>) -> nat;

/// The width in cells of a whole string as `ratatui` measures it.
pub uninterp spec fn ratatui_cell_width(s: Seq<char>) -> u16;

/// `UnicodeWidthChar::width`: `None` for control characters, otherwise the number of
/// terminal cells the character occupies. Printable ASCII is one cell; every other
/// width comes from the Unicode tables and is at most three.
#[verifier::external_body]
pub(crate) fn char_width(c: char) -> (w: Option<usize>)
    ensures
        (c as u32) < 0x20 ==> w == None::<usize>,
        0x20 <= (c as u32) < 0x7F ==> w == Some(1usize),
        0x7F <= (c as u32) < 0xA0 ==> w == None::<usize>,
        0xA0 <= (c as u32) ==> w is Some && w->0 == table_width(c) && w->0 <= 3,
{
    UnicodeWidthChar::width(c)
}

/// Every character is printable ASCII (space to `~`).
pub open spec fn printable_ascii(s: Seq<char>) -> bool {
    forall|i: int| 0 <= i < s.len() ==> 0x20 <= (#[trigger] s[i] as u32) < 0x7F
}

/// `UnicodeWidthStr::width` of a string; printable ASCII is one column a character,
/// and a single character is at most three columns wide.
#[verifier::external_body]
pub(crate) fn str_width(s: &str) -> (w: usize)
    ensures
        w == unicode_str_width(s@),
        printable_ascii(s@) ==> w == s@.len(),
        s@.len() == 1 ==> w <= 3,
{
    UnicodeWidthStr::width(s)
}

/// A string of exactly one ASCII control character, which `ratatui` refuses to
/// measure (a debug assertion fails on it).
pub open spec fn single_control(s: Seq<char>) -> bool {
    s.len() == 1 && ((s[0] as u32) < 0x20 || (s[0] as u32) == 0x7F)
}

/// `CellWidth::cell_width` of a string: its width in terminal cells as `ratatui` counts
/// them; a string of one ASCII character is one cell wide, and printable ASCII (of
/// fewer than 65536 characters) one cell a character. A lone ASCII control
/// character is left out: the crate's debug assertion rejects it.
#[verifier::external_body]
pub(crate) fn cell_width(s: &str) -> (w: u16)
    requires
        !single_control(s@),
    ensures
        w == ratatui_cell_width(s@),
        s@.len() == 1 && (s@[0] as u32) < 0x80 ==> w == 1,
        printable_ascii(s@) && s@.len() <= u16::MAX ==> w == s@.len(),
{
    CellWidth::cell_width(s)
}

/// Cells a character contributes when a width of `None` counts as zero.
pub open spec fn char_cells(c: char) -> nat {
    let v = c as u32;
    if v < 0x20 {
        0
    } else if v < 0x7F {
        1
    } else if v < 0xA0 {
        0
    } else {
        table_width(c)
    }
}

/// Whether `char_cells` is bounded as the width tables promise.
pub open spec fn char_cells_bounded(c: char) -> bool {
    (c as u32) >= 0xA0 ==> table_width(c) <= 3
}

/// `character.width().unwrap_or(0)`.
pub fn cells_of_char(c: char) -> (w: usize)
    ensures
        w == char_cells(c),
        w <= 3,
{
    match char_width(c) {
        Some(w) => w,
        None => 0,
    }
}

/// Total cells of a character sequence (sum of `char_cells`).
pub open spec fn cells(s: Seq<char>) -> nat
    decreases s.len(),
{
    if s.len() == 0 {
        0
    } else {
        cells(s.drop_last()) + char_cells(s.last())
    }
}

/// The prefix of length `n` is the longest prefix of `s` whose cells fit in `limit`.
pub open spec fn is_cell_fit(s: Seq<char>, n: int, limit: int) -> bool {
    &&& 0 <= n <= s.len()
    &&& cells(s.take(n)) <= limit
    &&& (n == s.len() || cells(s.take(n + 1)) > limit)
}

pub proof fn lemma_cells_take_step(s: Seq<char>, i: int)
    requires
        0 <= i < s.len(),
    ensures
        cells(s.take(i + 1)) == cells(s.take(i)) + char_cells(s[i]),
{
    assert(s.take(i + 1).drop_last() =~= s.take(i));
}

/// Cells of prefixes never decrease.
pub proof fn lemma_cells_take_monotone(s: Seq<char>, i: int, j: int)
    requires
        0 <= i <= j <= s.len(),
    ensures
        cells(s.take(i)) <= cells(s.take(j)),
    decreases j - i,
{
    if i < j {
        lemma_cells_take_step(s, j - 1);
        lemma_cells_take_monotone(s, i, j - 1);
    }
}

pub proof fn lemma_cells_concat(a: Seq<char>, b: Seq<char>)
    ensures
        cells(a + b) == cells(a) + cells(b),
    decreases b.len(),
{
    if b.len() == 0 {
        assert(a + b =~= a);
    } else {
        assert((a + b).drop_last() =~= a + b.drop_last());
        lemma_cells_concat(a, b.drop_last());
    }
}

/// Law: the longest fitting prefix is unique.
pub proof fn lemma_cell_fit_unique(s: Seq<char>, n: int, m: int, limit: int)
    requires
        is_cell_fit(s, n, limit),
        is_cell_fit(s, m, limit),
    ensures
        n == m,
{
    if n < m {
        lemma_cells_take_monotone(s, n + 1, m);
    } else if m < n {
        lemma_cells_take_monotone(s, m + 1, n);
    }
}

/// Number of leading characters of `s` that fit in `limit` cells, and their cells.
pub fn fit_prefix(s: &[char], limit: usize) -> (r: (usize, usize))
    ensures
        is_cell_fit(s@, r.0 as int, limit as int),
        r.1 == cells(s@.take(r.0 as int)),
{
    let mut i: usize = 0;
    let mut used: usize = 0;
    while i < s.len()
        invariant
            i <= s@.len(),
            used == cells(s@.take(i as int)),
            used <= limit,
        decreases s@.len() - i,
    {
        let w = cells_of_char(s[i]);
        proof {
            lemma_cells_take_step(s@, i as int);
        }
        if w > limit - used {
            return (i, used);
        }
        used = used + w;
        i = i + 1;
    }
    assert(s@.take(i as int) =~= s@);
    (i, used)
}

/// The longest prefix of `value` whose characters fit in `width` cells; characters
/// without a width count as zero cells.
pub fn truncate_cells(value: &str, width: usize) -> (out: String)
    ensures
        out@ == value@.take(out@.len() as int),
        is_cell_fit(value@, out@.len() as int, width as int),
{
    let chars = chars_of(value);
    let (n, _used) = fit_prefix(chars.as_slice(), width);
    let mut out = String::new();
    let mut i: usize = 0;
    while i < n
        invariant
            n <= chars@.len(),
            chars@ == value@,
            i <= n,
            out@ == chars@.take(i as int),
        decreases n - i,
    {
        push_char(&mut out, chars[i]);
        i = i + 1;
        assert(out@ =~= chars@.take(i as int));
    }
    out
}

} // verus!
