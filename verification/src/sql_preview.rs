//! The SQL preview of confirmation dialogs: line breaks and tabs made uniform,
//! then every source line numbered and wrapped to the preview's width, each
//! character with its highlight kind.
use vstd::prelude::*;
use crate::cells::{char_cells, cells_of_char};
use crate::highlight::{HighlightKind, HighlightSpan, kind_at, highlight_at};
use crate::text::{chars_of, decimal, decimal_string, push_char, push_str, owned, utf8_len};

verus! {

broadcast use vstd::string::group_string_axioms;

/// `\r\n` and lone `\r` become `\n`; a tab becomes four spaces.
pub open spec fn normalized(s: Seq<char>) -> Seq<char>
    decreases s.len(),
{
    if s.len() == 0 {
        seq![]
    } else {
        let rest = normalized(s.drop_first());
        if s[0] == '\r' {
            if s.len() > 1 && s[1] == '\n' { rest } else { seq!['\n'] + rest }
        } else if s[0] == '\t' {
            seq![' ', ' ', ' ', ' '] + rest
        } else {
            seq![s[0]] + rest
        }
    }
}

/// The preview's text for `sql` (already free of terminal control sequences).
pub fn normalize_preview_text(sql: &str) -> (out: String)
    ensures
        out@ == normalized(sql@),
{
    let chars = chars_of(sql);
    let mut out = String::new();
    let mut i: usize = 0;
    assert(chars@.skip(0) =~= chars@);
    while i < chars.len()
        invariant
            chars@ == sql@,
            i <= chars@.len(),
            out@ + normalized(chars@.skip(i as int)) == normalized(sql@),
        decreases chars@.len() - i,
    {
        let ghost rest = chars@.skip(i as int);
        assert(rest.drop_first() =~= chars@.skip(i as int + 1));
        let c = chars[i];
        if c == '\r' {
            if i + 1 < chars.len() && chars[i + 1] == '\n' {
            } else {
                push_char(&mut out, '\n');
                assert(seq!['\n'] + normalized(rest.drop_first()) == normalized(rest));
            }
        } else if c == '\t' {
            push_str(&mut out, "    ");
            proof { reveal_strlit("    "); }
            assert("    "@ =~= seq![' ', ' ', ' ', ' ']);
        } else {
            push_char(&mut out, c);
        }
        proof {
            assert(out@ + normalized(chars@.skip(i as int + 1)) =~= normalized(sql@));
        }
        i = i + 1;
    }
    assert(out@ + normalized(chars@.skip(i as int)) =~= out@);
    out
}

fn char_len(c: char) -> (n: u128)
    ensures
        n == utf8_len(c),
{
    let v = c as u32;
    if v < 0x80 { 1 } else if v < 0x800 { 2 } else if v < 0x10000 { 3 } else { 4 }
}

/// `n` right-aligned in `width` columns (as `format!("{n:>width$}")` writes it).
pub open spec fn right_aligned(n: nat, width: nat) -> Seq<char> {
    let d = decimal(n);
    if d.len() >= width { d } else { Seq::new((width - d.len()) as nat, |i: int| ' ') + d }
}

/// The gutter in front of a preview line: the line number on its first row,
/// blanks on the rows it wraps onto.
pub open spec fn gutter(first: bool, line: nat) -> Seq<char> {
    if first { right_aligned(line + 1, 3) + seq![' '] } else { seq![' ', ' ', ' ', ' '] }
}

/// A row of the preview, seen as its gutter and its characters with their kinds.
pub type RowView = (Seq<char>, Seq<(char, HighlightKind)>);

/// Rows done, source line number, whether the row being filled is its line's
/// first, that row's characters and cells, and the byte offset reached.
pub type PreviewState = (Seq<RowView>, nat, bool, Seq<(char, HighlightKind)>, int, int);

/// Takes one character: a line break ends the row and starts a new numbered
/// line; a character that would overflow a non-empty row starts a continuation
/// row first. Each character gets the kind of the highlight covering its bytes.
pub open spec fn preview_step(st: PreviewState, c: char, width: int, spans: Seq<HighlightSpan>) -> PreviewState {
    let (rows, line, first, cells, used, offset) = st;
    if c == '\n' {
        (rows.push((gutter(first, line), cells)), line + 1, true, seq![], 0, offset + 1)
    } else {
        let w = char_cells(c) as int;
        let (rows, first, cells, used) = if used > 0 && used + w > width {
            (rows.push((gutter(first, line), cells)), false, Seq::<(char, HighlightKind)>::empty(), 0int)
        } else {
            (rows, first, cells, used)
        };
        let len = utf8_len(c);
        (rows, line, first, cells.push((c, kind_at(spans, offset, offset + len))), used + w, offset + len)
    }
}

pub open spec fn preview_walk(s: Seq<char>, width: int, spans: Seq<HighlightSpan>) -> PreviewState
    decreases s.len(),
{
    if s.len() == 0 {
        (seq![], 0nat, true, seq![], 0int, 0int)
    } else {
        preview_step(preview_walk(s.drop_last(), width, spans), s.last(), width, spans)
    }
}

/// All rows of the preview of `text` at `width` columns (at least one).
pub open spec fn preview_rows(text: Seq<char>, width: int, spans: Seq<HighlightSpan>) -> Seq<RowView> {
    let (rows, line, first, cells, _, _) = preview_walk(text, if width < 1 { 1 } else { width }, spans);
    rows.push((gutter(first, line), cells))
}

/// Cells a row's characters take.
pub open spec fn cells_width(cells: Seq<(char, HighlightKind)>) -> int
    decreases cells.len(),
{
    if cells.len() == 0 { 0 } else { cells_width(cells.drop_last()) + char_cells(cells.last().0) as int }
}

/// A row fits `width` cells, or only its last character overflows a row of
/// characters that take no cells.
pub open spec fn row_fits(cells: Seq<(char, HighlightKind)>, width: int) -> bool {
    cells_width(cells) <= width || (cells.len() > 0 && cells_width(cells.drop_last()) == 0)
}

/// The characters of a row.
pub open spec fn row_chars(cells: Seq<(char, HighlightKind)>) -> Seq<char> {
    Seq::new(cells.len(), |i: int| cells[i].0)
}

/// The characters of all rows, in order.
pub open spec fn rows_chars(rows: Seq<RowView>) -> Seq<char>
    decreases rows.len(),
{
    if rows.len() == 0 { seq![] } else { rows_chars(rows.drop_last()) + row_chars(rows.last().1) }
}

/// `s` without its line breaks.
pub open spec fn without_breaks(s: Seq<char>) -> Seq<char>
    decreases s.len(),
{
    if s.len() == 0 { seq![] } else if s.last() == '\n' { without_breaks(s.drop_last()) } else { without_breaks(s.drop_last()).push(s.last()) }
}

proof fn lemma_cells_width_nonneg(cells: Seq<(char, HighlightKind)>)
    ensures
        cells_width(cells) >= 0,
    decreases cells.len(),
{
    if cells.len() > 0 {
        lemma_cells_width_nonneg(cells.drop_last());
    }
}

proof fn lemma_preview_walk(s: Seq<char>, width: int, spans: Seq<HighlightSpan>)
    requires
        width >= 1,
    ensures
        ({
            let (rows, _, _, cells, used, _) = preview_walk(s, width, spans);
            &&& used == cells_width(cells)
            &&& row_fits(cells, width)
            &&& forall|i: int| 0 <= i < rows.len() ==> row_fits(#[trigger] rows[i].1, width)
            &&& rows_chars(rows) + row_chars(cells) == without_breaks(s)
        }),
    decreases s.len(),
{
    if s.len() > 0 {
        lemma_preview_walk(s.drop_last(), width, spans);
        let (rows, line, first, cells, used, offset) = preview_walk(s.drop_last(), width, spans);
        let c = s.last();
        let empty = Seq::<(char, HighlightKind)>::empty();
        assert(row_chars(empty) =~= seq![]);
        if c == '\n' {
            let rows2 = rows.push((gutter(first, line), cells));
            assert(rows2.drop_last() =~= rows);
            assert forall|i: int| 0 <= i < rows2.len() implies row_fits(#[trigger] rows2[i].1, width) by {
                if i < rows.len() { assert(rows2[i] == rows[i]); }
            }
            assert(rows_chars(rows2) + row_chars(empty) =~= rows_chars(rows) + row_chars(cells));
        } else {
            let w = char_cells(c) as int;
            let len = utf8_len(c);
            let p = (c, kind_at(spans, offset, offset + len));
            if used > 0 && used + w > width {
                let rows2 = rows.push((gutter(first, line), cells));
                assert(rows2.drop_last() =~= rows);
                assert forall|i: int| 0 <= i < rows2.len() implies row_fits(#[trigger] rows2[i].1, width) by {
                    if i < rows.len() { assert(rows2[i] == rows[i]); }
                }
                let cells2 = empty.push(p);
                assert(cells2.drop_last() =~= empty);
                assert(cells2.last() == p);
                assert(cells_width(empty) == 0);
                assert(cells_width(cells2) == w);
                assert(row_fits(cells2, width));
                assert(row_chars(cells2) =~= seq![c]);
                assert(rows_chars(rows2) + row_chars(cells2) =~= rows_chars(rows) + row_chars(cells) + seq![c]);
            } else {
                let cells2 = cells.push(p);
                assert(cells2.drop_last() =~= cells);
                assert(cells2.last() == p);
                lemma_cells_width_nonneg(cells);
                assert(cells_width(cells2) == used + w);
                assert(row_fits(cells2, width));
                assert(row_chars(cells2) =~= row_chars(cells) + seq![c]);
                assert(rows_chars(rows) + row_chars(cells2) =~= rows_chars(rows) + row_chars(cells) + seq![c]);
            }
        }
        let st = preview_walk(s, width, spans);
        assert(st == preview_step(preview_walk(s.drop_last(), width, spans), c, width, spans));
        assert(without_breaks(s) == if c == '\n' { without_breaks(s.drop_last()) } else { without_breaks(s.drop_last()).push(c) });
    } else {
        let empty = Seq::<(char, HighlightKind)>::empty();
        assert(row_chars(empty) =~= seq![]);
        assert(rows_chars(Seq::<RowView>::empty()) + row_chars(empty) =~= seq![]);
    }
}

/// Law: every preview row fits the preview's width (at least one column),
/// unless its only character that takes cells is a last one wider than the
/// row; and the rows' characters, in order, are the text without its line
/// breaks: nothing else is lost or added.
pub proof fn law_preview_rows_fit_and_keep_the_text(text: Seq<char>, width: int, spans: Seq<HighlightSpan>)
    ensures
        forall|i: int| 0 <= i < preview_rows(text, width, spans).len()
            ==> row_fits(#[trigger] preview_rows(text, width, spans)[i].1, if width < 1 { 1 } else { width }),
        rows_chars(preview_rows(text, width, spans)) == without_breaks(text),
{
    let w = if width < 1 { 1 } else { width };
    lemma_preview_walk(text, w, spans);
    let (rows, line, first, cells, _, _) = preview_walk(text, w, spans);
    let all = rows.push((gutter(first, line), cells));
    assert(all.drop_last() =~= rows);
    assert forall|i: int| 0 <= i < all.len() implies row_fits(#[trigger] all[i].1, w) by {
        if i < rows.len() { assert(all[i] == rows[i]); }
    }
}

/// A row of the preview.
#[derive(Clone, Debug)]
pub struct PreviewLine {
    pub gutter: String,
    pub cells: Vec<(char, HighlightKind)>,
}

pub open spec fn row_view(l: PreviewLine) -> RowView {
    (l.gutter@, l.cells@)
}

fn gutter_text(first: bool, line: usize) -> (out: String)
    requires
        line < usize::MAX,
    ensures
        out@ == gutter(first, line as nat),
{
    if !first {
        let out = owned("    ");
        proof { reveal_strlit("    "); }
        assert(out@ =~= seq![' ', ' ', ' ', ' ']);
        return out;
    }
    let digits = decimal_string((line + 1) as u64);
    let count = chars_of(digits.as_str()).len();
    let mut out = String::new();
    let mut pad: usize = 0;
    let missing: usize = if count < 3 { 3 - count } else { 0 };
    while pad < missing
        invariant
            pad <= missing,
            out@ == Seq::new(pad as nat, |i: int| ' '),
        decreases missing - pad,
    {
        push_char(&mut out, ' ');
        pad = pad + 1;
        assert(out@ =~= Seq::new(pad as nat, |i: int| ' '));
    }
    push_str(&mut out, digits.as_str());
    push_char(&mut out, ' ');
    assert(count >= 3 ==> Seq::new(0nat, |i: int| ' ') + decimal((line + 1) as nat) =~= decimal((line + 1) as nat));
    out
}

/// The preview rows of `text` (normalized) at `width` columns, each character
/// with the kind of the first of `highlights` that covers its bytes.
pub fn preview_lines(text: &str, highlights: &[HighlightSpan], width: usize) -> (out: Vec<PreviewLine>)
    requires
        text@.len() < usize::MAX,
    ensures
        out@.len() == preview_rows(text@, width as int, highlights@).len(),
        forall|i: int| 0 <= i < out@.len() ==> row_view(#[trigger] out@[i]) == preview_rows(text@, width as int, highlights@)[i],
{
    let width: usize = if width < 1 { 1 } else { width };
    let chars = chars_of(text);
    let mut rows: Vec<PreviewLine> = Vec::new();
    let mut line: usize = 0;
    let mut first = true;
    let mut cells: Vec<(char, HighlightKind)> = Vec::new();
    let mut used: u128 = 0;
    let mut offset: u128 = 0;
    let mut i: usize = 0;
    while i < chars.len()
        invariant
            chars@ == text@,
            chars@.len() < usize::MAX,
            1 <= width,
            i <= chars@.len(),
            line <= i,
            offset <= 4 * i,
            used <= width + 3,
            ({
                let (rs, l, f, cs, u, o) = preview_walk(text@.take(i as int), width as int, highlights@);
                &&& rs.len() == rows@.len()
                &&& (forall|k: int| 0 <= k < rows@.len() ==> row_view(#[trigger] rows@[k]) == rs[k])
                &&& l == line
                &&& f == first
                &&& cs == cells@
                &&& u == used
                &&& o == offset
            }),
        decreases chars@.len() - i,
    {
        let c = chars[i];
        assert(text@.take(i as int + 1).drop_last() =~= text@.take(i as int));
        assert(text@.take(i as int + 1).last() == c);
        if c == '\n' {
            let mut done: Vec<(char, HighlightKind)> = Vec::new();
            std::mem::swap(&mut done, &mut cells);
            rows.push(PreviewLine { gutter: gutter_text(first, line), cells: done });
            line = line + 1;
            first = true;
            used = 0;
            offset = offset + 1;
        } else {
            let w = cells_of_char(c) as u128;
            if used > 0 && used + w > width as u128 {
                let mut done: Vec<(char, HighlightKind)> = Vec::new();
                std::mem::swap(&mut done, &mut cells);
                rows.push(PreviewLine { gutter: gutter_text(first, line), cells: done });
                first = false;
                used = 0;
            }
            let len = char_len(c);
            cells.push((c, highlight_at(highlights, offset, offset + len)));
            used = used + w;
            offset = offset + len;
        }
        i = i + 1;
    }
    assert(text@.take(i as int) =~= text@);
    rows.push(PreviewLine { gutter: gutter_text(first, line), cells });
    rows
}

} // verus!
