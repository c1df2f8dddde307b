//! Keyboard shortcut hints: which hints fit a footer line, how a line of them
//! reads, and how long words wrap.
use vstd::prelude::*;
use crate::cells::{cell_width, ratatui_cell_width, single_control, printable_ascii, fit_prefix, lemma_cell_fit_unique, cells_of_char, char_cells, cells, truncate_cells, is_cell_fit, lemma_cells_take_step};
use crate::geometry::{Rect, sat_add, sat_sub};
use crate::text::{owned, push_str, push_char, push_decimal, decimal, lemma_decimal_u64};

verus! {

broadcast use vstd::string::group_string_axioms;

/// Text between two hints.
pub const SEPARATOR: &'static str = "   ";

/// A key that a click on a hint sends.
#[derive(Clone, Copy, Debug, PartialEq, Eq, Structural)]
pub enum KeyPress {
    Tab,
    Enter,
    Esc,
    Char(char),
}

/// A key (or key sequence) and what it does. `activation` is what a click on the
/// hint sends, if it can be clicked.
#[derive(Clone, Debug)]
pub struct ShortcutHint<K> {
    pub key: String,
    pub description: String,
    pub activation: Option<K>,
}

impl<K> ShortcutHint<K> {
    /// A hint that cannot be clicked.
    pub fn new(key: &str, description: &str) -> (h: ShortcutHint<K>)
        ensures
            h.key@ == key@ && h.description@ == description@ && h.activation is None,
    {
        ShortcutHint { key: owned(key), description: owned(description), activation: None }
    }

    /// A hint that sends `keys` when clicked.
    pub fn with_keys(key: &str, description: &str, keys: K) -> (h: ShortcutHint<K>)
        ensures
            h.key@ == key@ && h.description@ == description@ && h.activation == Some(keys),
    {
        ShortcutHint { key: owned(key), description: owned(description), activation: Some(keys) }
    }
}

/// Every key and description can be measured (none is a lone ASCII control character).
pub open spec fn measurable<K>(hints: Seq<ShortcutHint<K>>) -> bool {
    forall|i: int| 0 <= i < hints.len() ==> !single_control((#[trigger] hints[i]).key@) && !single_control(hints[i].description@)
}

/// Cells one hint takes: key, a space, description.
pub open spec fn hint_cells<K>(h: ShortcutHint<K>) -> int {
    ratatui_cell_width(h.key@) + 1 + ratatui_cell_width(h.description@)
}

/// Cells of the first `count` hints with separators between them.
pub open spec fn visible<K>(hints: Seq<ShortcutHint<K>>, count: int) -> int
    decreases count,
{
    if count <= 0 {
        0
    } else if count == 1 {
        hint_cells(hints[0])
    } else {
        visible(hints, count - 1) + 3 + hint_cells(hints[count - 1])
    }
}

proof fn lemma_visible_bound<K>(hints: Seq<ShortcutHint<K>>, count: int)
    requires
        0 <= count,
    ensures
        0 <= visible(hints, count) <= count * 0x30000,
    decreases count,
{
    if count > 1 {
        lemma_visible_bound(hints, count - 1);
    }
}

/// Cells of the first `count` hints and their separators (the total as a `usize`).
pub fn visible_width<K>(hints: &[ShortcutHint<K>], count: usize) -> (r: usize)
    requires
        count <= hints@.len(),
        measurable(hints@),
    ensures
        r == visible(hints@, count as int) as usize,
{
    let total = visible_total(hints, count);
    #[verifier::truncate] (total as usize)
}

fn visible_total<K>(hints: &[ShortcutHint<K>], count: usize) -> (r: u128)
    requires
        count <= hints@.len(),
        measurable(hints@),
    ensures
        r as int == visible(hints@, count as int),
{
    let mut total: u128 = 0;
    let mut i: usize = 0;
    while i < count
        invariant
            i <= count <= hints@.len(),
            measurable(hints@),
            total as int == visible(hints@, i as int),
        decreases count - i,
    {
        proof {
            lemma_visible_bound(hints@, i as int + 1);
            assert((i + 1) * 0x30000 <= 0x1_0000_0000_0000_0000 * 0x30000) by (nonlinear_arith)
                requires i + 1 <= 0x1_0000_0000_0000_0000;
        }
        let key = cell_width(hints[i].key.as_str()) as u128;
        let description = cell_width(hints[i].description.as_str()) as u128;
        if i > 0 {
            total = total + 3;
        }
        total = total + key + 1 + description;
        i = i + 1;
    }
    total
}

/// `... (+n)`: how many hints were left out.
pub open spec fn omission(n: nat) -> Seq<char> {
    "... (+"@ + decimal(n) + ")"@
}

/// The marker is printable ASCII, hence one cell a character.
pub proof fn lemma_omission_ascii(n: nat)
    requires
        n <= u64::MAX,
    ensures
        printable_ascii(omission(n)),
        8 <= omission(n).len() <= 27,
{
    reveal_strlit("... (+");
    reveal_strlit(")");
    lemma_decimal_u64(n);
    let d = decimal(n);
    let o = omission(n);
    assert forall|i: int| 0 <= i < o.len() implies 0x20 <= (#[trigger] o[i] as u32) < 0x7F by {
        if 6 <= i < 6 + d.len() {
            assert(o[i] == d[i - 6]);
        }
    }
}

/// The omission marker text.
pub fn omission_marker(n: usize) -> (out: String)
    ensures
        out@ == omission(n as nat),
{
    let mut out = owned("... (+");
    push_decimal(&mut out, n as u64);
    push_str(&mut out, ")");
    out
}

/// Cells a line with the first `count` hints needs, the omission marker (and its
/// separator) included when hints are left out.
pub open spec fn line_cells<K>(hints: Seq<ShortcutHint<K>>, count: int) -> int {
    let omitted = hints.len() - count;
    visible(hints, count)
        + (if count > 0 && omitted > 0 { 3int } else { 0int })
        + (if omitted > 0 { omission(omitted as nat).len() as int } else { 0int })
}

/// `count` is the largest number of leading hints whose line fits `width`
/// (zero when none does).
pub open spec fn packed<K>(hints: Seq<ShortcutHint<K>>, width: int, count: int) -> bool {
    &&& 0 <= count <= hints.len()
    &&& (count == 0 || line_cells(hints, count) <= width)
    &&& forall|c: int| count < c <= hints.len() ==> line_cells(hints, c) > width
}

/// How many leading hints fit a line of `width` cells, leaving room to say how
/// many were left out.
pub fn packed_count<K>(hints: &[ShortcutHint<K>], width: usize) -> (r: usize)
    requires
        measurable(hints@),
    ensures
        packed(hints@, width as int, r as int),
{
    let mut count = hints.len();
    loop
        invariant
            count <= hints@.len(),
            measurable(hints@),
            forall|c: int| count < c <= hints@.len() ==> line_cells(hints@, c) > width,
        decreases count,
    {
        let omitted = hints.len() - count;
        proof { lemma_omission_ascii(omitted as nat); }
        let marker_width: u128 = if omitted > 0 { cell_width(omission_marker(omitted).as_str()) as u128 } else { 0 };
        let separator: u128 = if count > 0 && omitted > 0 { 3 } else { 0 };
        let total = visible_total(hints, count);
        proof {
            lemma_visible_bound(hints@, count as int);
            assert(count * 0x30000 <= 0x1_0000_0000_0000_0000 * 0x30000) by (nonlinear_arith)
                requires count <= 0x1_0000_0000_0000_0000;
        }
        let candidate = total + separator + marker_width;
        if candidate <= width as u128 {
            return count;
        }
        if count == 0 {
            return 0;
        }
        count = count - 1;
    }
}

/// Law: the number of hints that fit a line is well defined.
pub proof fn lemma_packed_unique<K>(hints: Seq<ShortcutHint<K>>, width: int, a: int, b: int)
    requires
        packed(hints, width, a),
        packed(hints, width, b),
    ensures
        a == b,
{
}

/// The role of a piece of hint text, which decides how it is styled.
#[derive(Clone, Copy, Debug, PartialEq, Eq, Structural)]
pub enum HintPart {
    Key,
    Space,
    Description,
    Separator,
    Omission,
}

/// A piece of a hint line.
#[derive(Clone, Debug)]
pub struct HintSpan {
    pub part: HintPart,
    pub text: String,
}

pub open spec fn span_view(s: HintSpan) -> (HintPart, Seq<char>) {
    (s.part, s.text@)
}

/// What a list of pieces says: each piece's role and text.
pub open spec fn spans_view(v: Seq<HintSpan>) -> Seq<(HintPart, Seq<char>)>
    decreases v.len(),
{
    if v.len() == 0 { seq![] } else { spans_view(v.drop_last()).push(span_view(v.last())) }
}

pub proof fn lemma_spans_view_push(v: Seq<HintSpan>, s: HintSpan)
    ensures
        spans_view(v.push(s)) == spans_view(v).push(span_view(s)),
{
    assert(v.push(s).drop_last() =~= v);
}

/// Pieces of the first `count` hints: key, space, description, with a separator
/// before every hint but the first.
pub open spec fn hint_spans<K>(hints: Seq<ShortcutHint<K>>, count: int) -> Seq<(HintPart, Seq<char>)>
    decreases count,
{
    if count <= 0 {
        seq![]
    } else {
        let h = hints[count - 1];
        let item = seq![(HintPart::Key, h.key@), (HintPart::Space, " "@), (HintPart::Description, h.description@)];
        if count == 1 { item } else { hint_spans(hints, count - 1).push((HintPart::Separator, "   "@)) + item }
    }
}

fn push_hint_spans<K>(out: &mut Vec<HintSpan>, hints: &[ShortcutHint<K>], count: usize)
    requires
        count <= hints@.len(),
    ensures
        spans_view(final(out)@) == spans_view(old(out)@) + hint_spans(hints@, count as int),
{
    let ghost start = spans_view(old(out)@);
    let mut i: usize = 0;
    while i < count
        invariant
            i <= count <= hints@.len(),
            spans_view(out@) == start + hint_spans(hints@, i as int),
        decreases count - i,
    {
        let ghost before = spans_view(out@);
        if i > 0 {
            let s = HintSpan { part: HintPart::Separator, text: owned("   ") };
            proof { lemma_spans_view_push(out@, s); }
            out.push(s);
        }
        let ghost mid = spans_view(out@);
        let k = HintSpan { part: HintPart::Key, text: hints[i].key.clone() };
        proof { lemma_spans_view_push(out@, k); }
        out.push(k);
        let sp = HintSpan { part: HintPart::Space, text: owned(" ") };
        proof { lemma_spans_view_push(out@, sp); }
        out.push(sp);
        let d = HintSpan { part: HintPart::Description, text: hints[i].description.clone() };
        proof { lemma_spans_view_push(out@, d); }
        out.push(d);
        assert(spans_view(out@) =~= mid + seq![(HintPart::Key, hints@[i as int].key@), (HintPart::Space, " "@), (HintPart::Description, hints@[i as int].description@)]);
        i = i + 1;
        assert(spans_view(out@) =~= start + hint_spans(hints@, i as int));
    }
}

/// A footer line of hints: as many as fit, then `... (+n)` cut to the cells left
/// when some are left out. Empty for width zero or no hints.
pub open spec fn line_spans<K>(hints: Seq<ShortcutHint<K>>, width: int, selected: int, out: Seq<(HintPart, Seq<char>)>) -> bool {
    if width == 0 || hints.len() == 0 {
        out.len() == 0
    } else {
        let omitted = hints.len() - selected;
        &&& packed(hints, width, selected)
        &&& if omitted == 0 {
            out == hint_spans(hints, selected)
        } else {
            let prefix = if selected > 0 { hint_spans(hints, selected).push((HintPart::Separator, "   "@)) } else { seq![] };
            let used = visible(hints, selected) + if selected > 0 { 3int } else { 0int };
            let remaining = if width < used { 0 } else { width - used };
            &&& out.len() == prefix.len() + 1
            &&& out.take(prefix.len() as int) == prefix
            &&& out.last().0 == HintPart::Omission
            &&& out.last().1 == omission(omitted as nat).take(out.last().1.len() as int)
            &&& is_cell_fit(omission(omitted as nat), out.last().1.len() as int, remaining)
        }
    }
}

/// The pieces of a one-line hint footer of `width` cells.
pub fn line<K>(hints: &[ShortcutHint<K>], width: u16) -> (out: Vec<HintSpan>)
    requires
        measurable(hints@),
    ensures
        forall|selected: int| #[trigger] packed(hints@, width as int, selected)
            ==> line_spans(hints@, width as int, selected, spans_view(out@)),
{
    let mut out: Vec<HintSpan> = Vec::new();
    let width = width as usize;
    if width == 0 || hints.len() == 0 {
        return out;
    }
    let selected = packed_count(hints, width);
    assert(spans_view(out@) =~= seq![]);
    push_hint_spans(&mut out, hints, selected);
    assert(spans_view(out@) =~= hint_spans(hints@, selected as int));
    let omitted = hints.len() - selected;
    if omitted > 0 {
        let used = visible_total(hints, selected);
        proof { lemma_visible_bound(hints@, selected as int); }
        if selected > 0 {
            let s = HintSpan { part: HintPart::Separator, text: owned("   ") };
            proof { lemma_spans_view_push(out@, s); }
            out.push(s);
        }
        let separator: u128 = if selected > 0 { 3 } else { 0 };
        let remaining: usize = if (width as u128) < used + separator { 0 } else { (width as u128 - used - separator) as usize };
        let ghost prefix = spans_view(out@);
        let marker = truncate_cells(omission_marker(omitted).as_str(), remaining);
        assert(remaining as int == {
            let u = visible(hints@, selected as int) + if selected > 0 { 3int } else { 0int };
            if width < u { 0 } else { width - u }
        });
        let m = HintSpan { part: HintPart::Omission, text: marker };
        proof { lemma_spans_view_push(out@, m); }
        out.push(m);
        assert(spans_view(out@).take(prefix.len() as int) =~= prefix);
    }
    assert(line_spans(hints@, width as int, selected as int, spans_view(out@)));
    assert forall|c: int| #[trigger] packed(hints@, width as int, c) implies c == selected by {
        lemma_packed_unique(hints@, width as int, c, selected as int);
    }
    out
}

/// One step of wrapping: the chunks so far, the chunk being filled and its cells.
pub open spec fn wrap_state(s: Seq<char>, width: int) -> (Seq<Seq<char>>, Seq<char>, int)
    decreases s.len(),
{
    if s.len() == 0 {
        (seq![], seq![], 0)
    } else {
        let (chunks, chunk, used) = wrap_state(s.drop_last(), width);
        let c = s.last();
        let w = char_cells(c) as int;
        let (chunks, chunk, used) = if used > 0 && used + w > width { (chunks.push(chunk), seq![], 0int) } else { (chunks, chunk, used) };
        if w <= width { (chunks, chunk.push(c), used + w) } else { (chunks, chunk, used) }
    }
}

/// `value` cut into chunks of at most `width` cells, breaking before a character
/// that would overflow; characters wider than `width` are dropped.
pub open spec fn wrapped_chunks(s: Seq<char>, width: int) -> Seq<Seq<char>> {
    if width == 0 {
        seq![]
    } else {
        let (chunks, chunk, _) = wrap_state(s, width);
        if chunk.len() > 0 { chunks.push(chunk) } else { chunks }
    }
}

/// Wraps `value` into chunks of at most `width` cells.
pub fn wrap_cells(value: &str, width: usize) -> (out: Vec<String>)
    ensures
        out@.len() == wrapped_chunks(value@, width as int).len(),
        forall|i: int| 0 <= i < out@.len() ==> (#[trigger] out@[i])@ == wrapped_chunks(value@, width as int)[i],
{
    let mut chunks: Vec<String> = Vec::new();
    if width == 0 {
        return chunks;
    }
    let chars = crate::text::chars_of(value);
    let mut chunk = String::new();
    let mut used: usize = 0;
    let mut i: usize = 0;
    while i < chars.len()
        invariant
            width > 0,
            chars@ == value@,
            i <= chars@.len(),
            used <= width,
            ({
                let (cs, c, u) = wrap_state(value@.take(i as int), width as int);
                &&& cs.len() == chunks@.len()
                &&& (forall|k: int| 0 <= k < chunks@.len() ==> (#[trigger] chunks@[k])@ == cs[k])
                &&& c == chunk@
                &&& u == used
            }),
        decreases chars@.len() - i,
    {
        let c = chars[i];
        let w = cells_of_char(c);
        assert(value@.take(i as int + 1).drop_last() =~= value@.take(i as int));
        assert(value@.take(i as int + 1).last() == c);
        if used > 0 && w > width - used {
            chunks.push(chunk);
            chunk = String::new();
            used = 0;
        }
        if w <= width {
            push_char(&mut chunk, c);
            used = used + w;
        }
        i = i + 1;
    }
    assert(value@.take(i as int) =~= value@);
    if crate::text::chars_of(chunk.as_str()).len() > 0 {
        chunks.push(chunk);
    }
    chunks
}

/// Where a line of hints sits in its area.
#[derive(Clone, Copy, Debug, PartialEq, Eq, Structural)]
pub enum Alignment {
    Left,
    Center,
    Right,
}

/// The cells of a hint that a click reaches: hint `index` drawn over `area`.
#[derive(Clone, Copy, Debug, PartialEq, Eq, Structural)]
pub struct HintPlacement {
    pub index: usize,
    pub area: Rect,
}

/// A one-row hint footer: its pieces, where each shown hint lies, and how many
/// hints did not fit.
#[derive(Clone, Debug)]
pub struct SingleLineLayout {
    pub spans: Vec<HintSpan>,
    pub placements: Vec<HintPlacement>,
    pub omitted: usize,
}

/// Cells one hint takes on screen, counted in `u16` as the layout does (saturating).
pub open spec fn item_cells<K>(h: ShortcutHint<K>) -> u16 {
    sat_add(sat_add(ratatui_cell_width(h.key@), 1), ratatui_cell_width(h.description@))
}

/// The placements of the first `n` hints laid out from column `x0`, and the
/// column after them. A hint is placed (clipped to the area's right edge) only
/// when some of it is inside the area.
pub open spec fn placements_from<K>(hints: Seq<ShortcutHint<K>>, area: Rect, x0: u16, n: int) -> (Seq<HintPlacement>, u16)
    decreases n,
{
    if n <= 0 {
        (seq![], x0)
    } else {
        let (before, x_prev) = placements_from(hints, area, x0, n - 1);
        let x = if n - 1 > 0 { sat_add(x_prev, 3) } else { x_prev };
        let item = item_cells(hints[n - 1]);
        let room = sat_sub(area.spec_right(), x);
        let clipped = if item < room { item } else { room };
        let placed = if clipped > 0 {
            before.push(HintPlacement { index: (n - 1) as usize, area: Rect::spec_new(x, area.y, clipped, 1) })
        } else {
            before
        };
        (placed, sat_add(x, item))
    }
}

/// Column offset of a line `cells` wide inside `width` cells.
pub open spec fn aligned_offset(width: u16, cells: int, alignment: Alignment) -> int {
    let spare = if width < cells { 0 } else { width - cells };
    match alignment {
        Alignment::Left => 0,
        Alignment::Center => spare / 2,
        Alignment::Right => spare,
    }
}

/// The pieces of a one-row layout: the hints that fit, then the whole omission
/// marker (after a separator when hints precede it) when some are left out.
pub open spec fn layout_spans<K>(hints: Seq<ShortcutHint<K>>, selected: int) -> Seq<(HintPart, Seq<char>)> {
    let omitted = hints.len() - selected;
    if omitted == 0 {
        hint_spans(hints, selected)
    } else {
        let prefix = if selected > 0 { hint_spans(hints, selected).push((HintPart::Separator, "   "@)) } else { hint_spans(hints, selected) };
        prefix.push((HintPart::Omission, omission(omitted as nat)))
    }
}

/// One row of hints in `area`: as many as fit with the omission marker, aligned,
/// with the clickable cells of each shown hint. An empty area or no hints gives
/// nothing, every hint counted as omitted.
pub fn single_line_layout<K>(hints: &[ShortcutHint<K>], area: Rect, alignment: Alignment) -> (out: SingleLineLayout)
    requires
        measurable(hints@),
    ensures
        area.spec_is_empty() || hints@.len() == 0 ==> {
            &&& out.omitted == hints@.len()
            &&& out.spans@.len() == 0
            &&& out.placements@.len() == 0
        },
        !(area.spec_is_empty() || hints@.len() == 0) ==> {
            let selected = hints@.len() - out.omitted;
            let x0 = sat_add(area.x, aligned_offset(area.width, line_cells(hints@, selected), alignment) as u16);
            &&& out.omitted <= hints@.len()
            &&& packed(hints@, area.width as int, selected)
            &&& spans_view(out.spans@) == layout_spans(hints@, selected)
            &&& out.placements@ == placements_from(hints@, area, x0, selected).0
        },
{
    if area.is_empty() || hints.len() == 0 {
        return SingleLineLayout { spans: Vec::new(), placements: Vec::new(), omitted: hints.len() };
    }
    let selected = packed_count(hints, area.width as usize);
    let omitted = hints.len() - selected;
    let total = visible_total(hints, selected);
    proof {
        lemma_visible_bound(hints@, selected as int);
        lemma_omission_ascii(omitted as nat);
        reveal_strlit("   ");
    }
    let mut cells: u128 = total;
    if omitted > 0 {
        let marker_width = cell_width(omission_marker(omitted).as_str()) as u128;
        if selected > 0 {
            cells = cells + 3;
        }
        cells = cells + marker_width;
    }
    assert(cells == line_cells(hints@, selected as int));
    assert(cells <= u16::MAX);
    let cells = cells as u16;
    let spare = area.width.saturating_sub(cells);
    let offset: u16 = match alignment {
        Alignment::Left => 0,
        Alignment::Center => spare / 2,
        Alignment::Right => spare,
    };
    let x0 = area.x.saturating_add(offset);
    let separator_width = cell_width(SEPARATOR);
    let mut x = x0;
    let mut placements: Vec<HintPlacement> = Vec::new();
    let mut i: usize = 0;
    while i < selected
        invariant
            i <= selected <= hints@.len(),
            measurable(hints@),
            separator_width == 3,
            (placements@, x) == placements_from(hints@, area, x0, i as int),
        decreases selected - i,
    {
        if i > 0 {
            x = x.saturating_add(separator_width);
        }
        let key_width = cell_width(hints[i].key.as_str());
        let description_width = cell_width(hints[i].description.as_str());
        let item_width = key_width.saturating_add(1).saturating_add(description_width);
        let clipped = item_width.min(area.right().saturating_sub(x));
        if clipped > 0 {
            placements.push(HintPlacement { index: i, area: Rect::new(x, area.y, clipped, 1) });
        }
        x = x.saturating_add(item_width);
        i = i + 1;
    }
    let mut spans: Vec<HintSpan> = Vec::new();
    assert(spans_view(spans@) =~= seq![]);
    push_hint_spans(&mut spans, hints, selected);
    assert(spans_view(spans@) =~= hint_spans(hints@, selected as int));
    if omitted > 0 {
        if selected > 0 {
            let s = HintSpan { part: HintPart::Separator, text: owned(SEPARATOR) };
            proof { lemma_spans_view_push(spans@, s); }
            spans.push(s);
        }
        let m = HintSpan { part: HintPart::Omission, text: omission_marker(omitted) };
        proof { lemma_spans_view_push(spans@, m); }
        spans.push(m);
    }
    SingleLineLayout { spans, placements, omitted }
}

/// The pieces of one row.
pub type Pieces = Seq<(HintPart, Seq<char>)>;

/// What a list of rows says, row by row.
pub open spec fn rows_view(v: Seq<Vec<HintSpan>>) -> Seq<Pieces> {
    Seq::new(v.len(), |i: int| spans_view(v[i]@))
}

proof fn lemma_rows_view_push(v: Seq<Vec<HintSpan>>, row: Vec<HintSpan>)
    ensures
        rows_view(v.push(row)) == rows_view(v).push(spans_view(row@)),
{
    assert(rows_view(v.push(row)) =~= rows_view(v).push(spans_view(row@)));
}

/// One row for each chunk, holding that chunk as a piece of the given role.
pub open spec fn chunk_rows(chunks: Seq<Seq<char>>, part: HintPart) -> Seq<Pieces> {
    Seq::new(chunks.len(), |i: int| seq![(part, chunks[i])])
}

/// Length of the longest prefix of `s` that fits `limit` cells.
pub open spec fn fitting(s: Seq<char>, limit: int) -> int {
    choose|n: int| is_cell_fit(s, n, limit)
}

/// Rows so far, the row being filled, the description text not yet placed, and
/// the cells left on the row.
pub type DescriptionState = (Seq<Pieces>, Pieces, Seq<char>, int);

/// Places one description character: when it does not fit, the text so far ends
/// the row and a fresh row begins; a character wider than a whole row is dropped.
pub open spec fn description_step(st: DescriptionState, c: char, width: int) -> DescriptionState {
    let (rows, row, part, remaining) = st;
    let w = char_cells(c) as int;
    if w > remaining {
        let (rows, row, part) = if part.len() > 0 {
            (rows.push(row.push((HintPart::Description, part))), Seq::<(HintPart, Seq<char>)>::empty(), Seq::<char>::empty())
        } else {
            (rows, row, part)
        };
        if w > width { (rows, row, part, width) } else { (rows, row, part.push(c), width - w) }
    } else {
        (rows, row, part.push(c), remaining - w)
    }
}

/// Places the characters of `d` one after another.
pub open spec fn description_walk(d: Seq<char>, width: int, st: DescriptionState) -> DescriptionState
    decreases d.len(),
{
    if d.len() == 0 { st } else { description_step(description_walk(d.drop_last(), width, st), d.last(), width) }
}

/// Finished rows, the row being filled and the cells it uses.
pub type RowsState = (Seq<Pieces>, Pieces, int);

/// Places hint `index`. A hint wider than a row gets rows of its own, its key and
/// then its description wrapped to the width. Otherwise it starts a new row when
/// it does not fit the current one, follows a separator when the row is not empty,
/// its key is cut to the cells left, and its description flows on, breaking rows
/// where a character does not fit. A full row is closed.
pub open spec fn row_step<K>(st: RowsState, h: ShortcutHint<K>, index: int, width: int) -> RowsState {
    let (rows, row, used) = st;
    let separator = if index > 0 && used > 0 { 3int } else { 0int };
    let full = separator + ratatui_cell_width(h.key@) + 1 + ratatui_cell_width(h.description@);
    if full > width {
        let (rows, row, used) = if row.len() > 0 { (rows.push(row), Seq::<(HintPart, Seq<char>)>::empty(), 0int) } else { (rows, row, used) };
        (rows + chunk_rows(wrapped_chunks(h.key@, width), HintPart::Key)
            + chunk_rows(wrapped_chunks(h.description@, width), HintPart::Description), row, used)
    } else {
        let (rows, row, used) = if used > 0 && used + full > width {
            (rows.push(row), Seq::<(HintPart, Seq<char>)>::empty(), 0int)
        } else {
            (rows, row, used)
        };
        let (row, used) = if used > 0 { (row.push((HintPart::Separator, "   "@)), used + 3) } else { (row, used) };
        let remaining = if width < used { 0 } else { width - used };
        let k = fitting(h.key@, remaining);
        let row = row.push((HintPart::Key, h.key@.take(k)));
        let remaining = remaining - cells(h.key@.take(k));
        let (row, remaining) = if remaining > 0 { (row.push((HintPart::Space, " "@)), remaining - 1) } else { (row, remaining) };
        let (rows, row, part, remaining) = description_walk(h.description@, width, (rows, row, Seq::<char>::empty(), remaining));
        let row = if part.len() > 0 { row.push((HintPart::Description, part)) } else { row };
        let used = if width < remaining { 0 } else { width - remaining };
        if used >= width { (rows.push(row), Seq::<(HintPart, Seq<char>)>::empty(), 0int) } else { (rows, row, used) }
    }
}

/// Places the first `n` hints.
pub open spec fn rows_walk<K>(hints: Seq<ShortcutHint<K>>, n: int, width: int) -> RowsState
    decreases n,
{
    if n <= 0 {
        (Seq::<Pieces>::empty(), Seq::<(HintPart, Seq<char>)>::empty(), 0int)
    } else {
        row_step(rows_walk(hints, n - 1, width), hints[n - 1], n - 1, width)
    }
}

/// Every hint on rows of `width` cells, with no omission marker.
pub open spec fn hint_rows<K>(hints: Seq<ShortcutHint<K>>, width: int) -> Seq<Pieces> {
    if width == 0 || hints.len() == 0 {
        seq![]
    } else {
        let (rows, row, _) = rows_walk(hints, hints.len() as int, width);
        if row.len() > 0 { rows.push(row) } else { rows }
    }
}

/// A hint's key, a space and its description measure within a `u16`.
pub open spec fn measures_in_u16<K>(hints: Seq<ShortcutHint<K>>) -> bool {
    forall|i: int| 0 <= i < hints.len() ==>
        ratatui_cell_width((#[trigger] hints[i]).key@) + ratatui_cell_width(hints[i].description@) + 4 <= u16::MAX
}

fn take_chars(chars: &Vec<char>, n: usize) -> (out: String)
    requires
        n <= chars@.len(),
    ensures
        out@ == chars@.take(n as int),
{
    let mut out = String::new();
    let mut i: usize = 0;
    while i < n
        invariant
            i <= n <= chars@.len(),
            out@ == chars@.take(i as int),
        decreases n - i,
    {
        push_char(&mut out, chars[i]);
        i = i + 1;
        assert(out@ =~= chars@.take(i as int));
    }
    out
}

fn push_chunk_rows(rows: &mut Vec<Vec<HintSpan>>, text: &str, width: usize, part: HintPart)
    ensures
        rows_view(final(rows)@) == rows_view(old(rows)@) + chunk_rows(wrapped_chunks(text@, width as int), part),
{
    let chunks = wrap_cells(text, width);
    let ghost start = rows_view(rows@);
    let ghost want = chunk_rows(wrapped_chunks(text@, width as int), part);
    let mut i: usize = 0;
    while i < chunks.len()
        invariant
            i <= chunks@.len(),
            chunks@.len() == wrapped_chunks(text@, width as int).len(),
            forall|j: int| 0 <= j < chunks@.len() ==> (#[trigger] chunks@[j])@ == wrapped_chunks(text@, width as int)[j],
            want == chunk_rows(wrapped_chunks(text@, width as int), part),
            rows_view(rows@) == start + want.take(i as int),
        decreases chunks@.len() - i,
    {
        let mut row: Vec<HintSpan> = Vec::new();
        let piece = HintSpan { part, text: chunks[i].clone() };
        proof { lemma_spans_view_push(row@, piece); }
        row.push(piece);
        assert(spans_view(row@) =~= seq![(part, chunks@[i as int]@)]);
        proof { lemma_rows_view_push(rows@, row); }
        rows.push(row);
        i = i + 1;
        assert(rows_view(rows@) =~= start + want.take(i as int));
    }
    assert(want.take(i as int) =~= want);
}

/// Closes the row being filled: it joins the finished rows and a fresh row begins.
fn close_row(rows: &mut Vec<Vec<HintSpan>>, row: &mut Vec<HintSpan>)
    ensures
        rows_view(final(rows)@) == rows_view(old(rows)@).push(spans_view(old(row)@)),
        spans_view(final(row)@) == Seq::<(HintPart, Seq<char>)>::empty(),
{
    let mut done: Vec<HintSpan> = Vec::new();
    std::mem::swap(&mut done, row);
    proof { lemma_rows_view_push(rows@, done); }
    rows.push(done);
    assert(spans_view(row@) =~= Seq::<(HintPart, Seq<char>)>::empty());
}

fn push_piece(row: &mut Vec<HintSpan>, part: HintPart, text: String)
    ensures
        spans_view(final(row)@) == spans_view(old(row)@).push((part, text@)),
{
    let piece = HintSpan { part, text };
    proof { lemma_spans_view_push(row@, piece); }
    row.push(piece);
}

/// Lays out a description after a key: returns the cells left on the last row.
fn place_description(rows: &mut Vec<Vec<HintSpan>>, row: &mut Vec<HintSpan>, description: &str, width: usize, remaining: usize) -> (left: usize)
    requires
        remaining <= width,
    ensures
        ({
            let (r, w, part, rem) = description_walk(description@, width as int,
                (rows_view(old(rows)@), spans_view(old(row)@), Seq::<char>::empty(), remaining as int));
            &&& rows_view(final(rows)@) == r
            &&& spans_view(final(row)@) == (if part.len() > 0 { w.push((HintPart::Description, part)) } else { w })
            &&& left == rem
            &&& left <= width
        }),
{
    let chars = crate::text::chars_of(description);
    let ghost st0 = (rows_view(rows@), spans_view(row@), Seq::<char>::empty(), remaining as int);
    let mut part = String::new();
    let mut part_len: usize = 0;
    let mut remaining = remaining;
    let mut i: usize = 0;
    while i < chars.len()
        invariant
            chars@ == description@,
            i <= chars@.len(),
            part_len == part@.len() <= i,
            remaining <= width,
            description_walk(description@.take(i as int), width as int, st0)
                == (rows_view(rows@), spans_view(row@), part@, remaining as int),
        decreases chars@.len() - i,
    {
        let c = chars[i];
        let w = cells_of_char(c);
        assert(description@.take(i as int + 1).drop_last() =~= description@.take(i as int));
        assert(description@.take(i as int + 1).last() == c);
        if w > remaining {
            if part_len > 0 {
                let mut done = String::new();
                std::mem::swap(&mut done, &mut part);
                push_piece(row, HintPart::Description, done);
                close_row(rows, row);
                part_len = 0;
                assert(part@ =~= Seq::<char>::empty());
            }
            remaining = width;
            if w <= remaining {
                push_char(&mut part, c);
                part_len = part_len + 1;
                remaining = remaining - w;
            }
        } else {
            push_char(&mut part, c);
            part_len = part_len + 1;
            remaining = remaining - w;
        }
        i = i + 1;
    }
    assert(description@.take(i as int) =~= description@);
    if part_len > 0 {
        push_piece(row, HintPart::Description, part);
    }
    remaining
}

/// A row with no omission marker.
pub open spec fn unmarked_row(row: Pieces) -> bool {
    forall|j: int| 0 <= j < row.len() ==> (#[trigger] row[j]).0 != HintPart::Omission
}

/// Rows with no omission marker.
pub open spec fn unmarked_rows(rows: Seq<Pieces>) -> bool {
    forall|i: int| 0 <= i < rows.len() ==> unmarked_row(#[trigger] rows[i])
}

proof fn lemma_description_walk_unmarked(d: Seq<char>, width: int, st: DescriptionState)
    requires
        unmarked_rows(st.0),
        unmarked_row(st.1),
    ensures
        unmarked_rows(description_walk(d, width, st).0),
        unmarked_row(description_walk(d, width, st).1),
    decreases d.len(),
{
    if d.len() > 0 {
        lemma_description_walk_unmarked(d.drop_last(), width, st);
        let prev = description_walk(d.drop_last(), width, st);
        let (rows, row, part, remaining) = prev;
        if part.len() > 0 {
            let closed = row.push((HintPart::Description, part));
            assert(unmarked_row(closed)) by {
                assert forall|j: int| 0 <= j < closed.len() implies (#[trigger] closed[j]).0 != HintPart::Omission by {
                    if j < row.len() {
                        assert(closed[j] == row[j]);
                    }
                }
            }
            assert forall|i: int| 0 <= i < rows.push(closed).len() implies unmarked_row(#[trigger] rows.push(closed)[i]) by {
                if i < rows.len() {
                    assert(rows.push(closed)[i] == rows[i]);
                }
            }
        }
        assert(unmarked_row(Seq::<(HintPart, Seq<char>)>::empty()));
    }
}

proof fn lemma_push_unmarked(row: Pieces, piece: (HintPart, Seq<char>))
    requires
        unmarked_row(row),
        piece.0 != HintPart::Omission,
    ensures
        unmarked_row(row.push(piece)),
{
    assert forall|j: int| 0 <= j < row.push(piece).len() implies (#[trigger] row.push(piece)[j]).0 != HintPart::Omission by {
        if j < row.len() {
            assert(row.push(piece)[j] == row[j]);
        }
    }
}

proof fn lemma_rows_walk_unmarked<K>(hints: Seq<ShortcutHint<K>>, n: int, width: int)
    ensures
        unmarked_rows(rows_walk(hints, n, width).0),
        unmarked_row(rows_walk(hints, n, width).1),
    decreases n,
{
    if n > 0 {
        lemma_rows_walk_unmarked(hints, n - 1, width);
        let st = rows_walk(hints, n - 1, width);
        let h = hints[n - 1];
        let (rows, row, used) = st;
        let empty = Seq::<(HintPart, Seq<char>)>::empty();
        assert(unmarked_row(empty));
        let separator = if n - 1 > 0 && used > 0 { 3int } else { 0int };
        let full = separator + ratatui_cell_width(h.key@) + 1 + ratatui_cell_width(h.description@);
        let (rows1, row1, used1) = if (full > width && row.len() > 0) || (full <= width && used > 0 && used + full > width) {
            (rows.push(row), empty, 0int)
        } else {
            (rows, row, used)
        };
        assert(unmarked_rows(rows1)) by {
            assert forall|i: int| 0 <= i < rows.push(row).len() implies unmarked_row(#[trigger] rows.push(row)[i]) by {
                if i < rows.len() {
                    assert(rows.push(row)[i] == rows[i]);
                }
            }
        }
        if full > width {
            let a = chunk_rows(wrapped_chunks(h.key@, width), HintPart::Key);
            let b = chunk_rows(wrapped_chunks(h.description@, width), HintPart::Description);
            assert forall|i: int| 0 <= i < (rows1 + a + b).len() implies unmarked_row(#[trigger] (rows1 + a + b)[i]) by {
                if i < rows1.len() {
                    assert((rows1 + a + b)[i] == rows1[i]);
                } else if i < rows1.len() + a.len() {
                    assert((rows1 + a + b)[i] == a[i - rows1.len()]);
                } else {
                    assert((rows1 + a + b)[i] == b[i - rows1.len() - a.len()]);
                }
            }
        } else {
            let row2 = if used1 > 0 { row1.push((HintPart::Separator, "   "@)) } else { row1 };
            if used1 > 0 {
                lemma_push_unmarked(row1, (HintPart::Separator, "   "@));
            }
            let used2 = if used1 > 0 { used1 + 3 } else { used1 };
            let remaining = if width < used2 { 0 } else { width - used2 };
            let k = fitting(h.key@, remaining);
            let row3 = row2.push((HintPart::Key, h.key@.take(k)));
            lemma_push_unmarked(row2, (HintPart::Key, h.key@.take(k)));
            let remaining3 = remaining - cells(h.key@.take(k));
            let row4 = if remaining3 > 0 { row3.push((HintPart::Space, " "@)) } else { row3 };
            if remaining3 > 0 {
                lemma_push_unmarked(row3, (HintPart::Space, " "@));
            }
            let remaining4 = if remaining3 > 0 { remaining3 - 1 } else { remaining3 };
            lemma_description_walk_unmarked(h.description@, width, (rows1, row4, Seq::<char>::empty(), remaining4));
            let (rows5, row5, part, _) = description_walk(h.description@, width, (rows1, row4, Seq::<char>::empty(), remaining4));
            if part.len() > 0 {
                lemma_push_unmarked(row5, (HintPart::Description, part));
            }
            let row6 = if part.len() > 0 { row5.push((HintPart::Description, part)) } else { row5 };
            assert forall|i: int| 0 <= i < rows5.push(row6).len() implies unmarked_row(#[trigger] rows5.push(row6)[i]) by {
                if i < rows5.len() {
                    assert(rows5.push(row6)[i] == rows5[i]);
                }
            }
        }
    }
}

/// Law: wrapping hints onto rows never needs an omission marker; every hint
/// is shown.
pub proof fn law_wrapped_hints_are_never_omitted<K>(hints: Seq<ShortcutHint<K>>, width: int)
    ensures
        unmarked_rows(hint_rows(hints, width)),
{
    if width != 0 && hints.len() != 0 {
        lemma_rows_walk_unmarked(hints, hints.len() as int, width);
        let (rows, row, _) = rows_walk(hints, hints.len() as int, width);
        assert forall|i: int| 0 <= i < rows.push(row).len() implies unmarked_row(#[trigger] rows.push(row)[i]) by {
            if i < rows.len() {
                assert(rows.push(row)[i] == rows[i]);
            }
        }
    }
}

/// Hints on rows of `width` cells, measuring them first: `None` when a hint's
/// key and description would not fit in 16 bits.
pub fn measured_lines<K>(hints: &[ShortcutHint<K>], width: u16) -> (out: Option<Vec<Vec<HintSpan>>>)
    requires
        measurable(hints@),
    ensures
        out is Some <==> measures_in_u16(hints@),
        out matches Some(rows) ==> rows_view(rows@) == hint_rows(hints@, width as int),
{
    let mut i: usize = 0;
    while i < hints.len()
        invariant
            i <= hints@.len(),
            measurable(hints@),
            forall|k: int| 0 <= k < i ==>
                ratatui_cell_width((#[trigger] hints@[k]).key@) + ratatui_cell_width(hints@[k].description@) + 4 <= u16::MAX,
        decreases hints@.len() - i,
    {
        let key = cell_width(hints[i].key.as_str());
        let description = cell_width(hints[i].description.as_str());
        if key as u32 + description as u32 + 4 > u16::MAX as u32 {
            return None;
        }
        i = i + 1;
    }
    Some(lines(hints, width))
}

/// Hints on as many rows of `width` cells as they need; every hint is shown.
pub fn lines<K>(hints: &[ShortcutHint<K>], width: u16) -> (out: Vec<Vec<HintSpan>>)
    requires
        measurable(hints@),
        measures_in_u16(hints@),
    ensures
        rows_view(out@) == hint_rows(hints@, width as int),
{
    let mut rows: Vec<Vec<HintSpan>> = Vec::new();
    let width = width as usize;
    if width == 0 || hints.len() == 0 {
        assert(rows_view(rows@) =~= Seq::<Pieces>::empty());
        return rows;
    }
    let mut row: Vec<HintSpan> = Vec::new();
    let mut used: usize = 0;
    proof { reveal_strlit("   "); reveal_strlit(""); reveal_strlit(" "); }
    assert(rows_view(rows@) =~= Seq::<Pieces>::empty());
    assert(spans_view(row@) =~= Seq::<(HintPart, Seq<char>)>::empty());
    let mut index: usize = 0;
    while index < hints.len()
        invariant
            0 < width <= u16::MAX,
            index <= hints@.len(),
            measurable(hints@),
            measures_in_u16(hints@),
            used <= width,
            rows_walk(hints@, index as int, width as int) == (rows_view(rows@), spans_view(row@), used as int),
        decreases hints@.len() - index,
    {
        let hint = &hints[index];
        proof { reveal_strlit("   "); reveal_strlit(""); reveal_strlit(" "); }
        let separator_width: u16 = if index > 0 && used > 0 { cell_width(SEPARATOR) } else { cell_width("") };
        let key_width = cell_width(hint.key.as_str());
        let description_width = cell_width(hint.description.as_str());
        assert(ratatui_cell_width(hints@[index as int].key@) + ratatui_cell_width(hints@[index as int].description@) + 4 <= u16::MAX);
        let full_width = separator_width + key_width + 1 + description_width;
        if full_width as usize > width {
            if row.len() > 0 {
                close_row(&mut rows, &mut row);
                used = 0;
            }
            push_chunk_rows(&mut rows, hint.key.as_str(), width, HintPart::Key);
            push_chunk_rows(&mut rows, hint.description.as_str(), width, HintPart::Description);
        } else {
            if used > 0 && used + full_width as usize > width {
                close_row(&mut rows, &mut row);
                used = 0;
            }
            if used > 0 {
                push_piece(&mut row, HintPart::Separator, owned(SEPARATOR));
                used = used + 3;
            }
            let mut remaining: usize = if width < used { 0 } else { width - used };
            let key_chars = crate::text::chars_of(hint.key.as_str());
            let (k, key_cells) = fit_prefix(key_chars.as_slice(), remaining);
            proof {
                assert forall|n: int| #[trigger] is_cell_fit(hint.key@, n, remaining as int) implies n == k by {
                    lemma_cell_fit_unique(hint.key@, n, k as int, remaining as int);
                }
            }
            push_piece(&mut row, HintPart::Key, take_chars(&key_chars, k));
            remaining = remaining - key_cells;
            if remaining > 0 {
                push_piece(&mut row, HintPart::Space, owned(" "));
                remaining = remaining - 1;
            }
            remaining = place_description(&mut rows, &mut row, hint.description.as_str(), width, remaining);
            used = width - remaining;
            if used >= width {
                close_row(&mut rows, &mut row);
                used = 0;
            }
        }
        index = index + 1;
    }
    if row.len() > 0 {
        proof { lemma_rows_view_push(rows@, row); }
        rows.push(row);
    }
    rows
}

/// The placements whose hint can be clicked.
pub open spec fn clickable<K>(hints: Seq<ShortcutHint<K>>, placements: Seq<HintPlacement>) -> Seq<HintPlacement>
    decreases placements.len(),
{
    if placements.len() == 0 {
        seq![]
    } else {
        let rest = clickable(hints, placements.drop_last());
        let p = placements.last();
        if p.index < hints.len() && hints[p.index as int].activation is Some { rest.push(p) } else { rest }
    }
}

/// The hints grouped into rows of `width` cells (each with the indices of its
/// hints and the cells it takes), for the first `n` hints. A hint starts a new
/// row when the current row is not empty and it would overflow it.
pub open spec fn row_groups<K>(hints: Seq<ShortcutHint<K>>, width: u16, n: int) -> Seq<(Seq<usize>, u16)>
    decreases n,
{
    if n <= 0 {
        seq![(Seq::<usize>::empty(), 0u16)]
    } else {
        let rows = row_groups(hints, width, n - 1);
        let item = item_cells(hints[n - 1]);
        let row_width = rows.last().1;
        let separator: u16 = if row_width == 0 { 0 } else { 3 };
        let rows = if row_width > 0 && sat_add(sat_add(row_width, separator), item) > width {
            rows.push((Seq::<usize>::empty(), 0u16))
        } else {
            rows
        };
        let (indices, used) = rows.last();
        let separator: u16 = if indices.len() == 0 { 0 } else { 3 };
        rows.update(rows.len() - 1, (indices.push((n - 1) as usize), sat_add(sat_add(used, separator), item)))
    }
}

proof fn lemma_row_groups_nonempty<K>(hints: Seq<ShortcutHint<K>>, width: u16, n: int)
    ensures
        row_groups(hints, width, n).len() >= 1,
        forall|r: int, j: int| 0 <= r < row_groups(hints, width, n).len() && 0 <= j < row_groups(hints, width, n)[r].0.len()
            ==> (#[trigger] row_groups(hints, width, n)[r].0[j] as int) < (if n < 0 { 0 } else { n }),
    decreases n,
{
    if n > 0 {
        lemma_row_groups_nonempty(hints, width, n - 1);
    }
}

/// First column of a row `row_width` cells wide.
pub open spec fn row_start(area: Rect, row_width: u16, alignment: Alignment) -> u16 {
    match alignment {
        Alignment::Center => sat_add(area.x, (sat_sub(area.width, row_width) / 2) as u16),
        Alignment::Right => sat_add(area.x, sat_sub(area.width, row_width)),
        Alignment::Left => area.x,
    }
}

/// Walks the first `k` hints of one row from column `x`: clickable hints that
/// start inside the area get their (clipped) cells; the walk stops at the first
/// hint that starts at or past the right edge.
pub open spec fn row_walk<K>(hints: Seq<ShortcutHint<K>>, area: Rect, y: u16, indices: Seq<usize>, x0: u16, k: int) -> (Seq<HintPlacement>, u16, bool)
    decreases k,
{
    if k <= 0 {
        (seq![], x0, false)
    } else {
        let (placed, x, stopped) = row_walk(hints, area, y, indices, x0, k - 1);
        if stopped {
            (placed, x, true)
        } else if x >= area.spec_right() {
            (placed, x, true)
        } else {
            let index = indices[k - 1];
            let h = hints[index as int];
            let item = item_cells(h);
            let room = sat_sub(area.spec_right(), x);
            let clipped = if item < room { item } else { room };
            let placed = if h.activation is Some && item > 0 && y < area.spec_bottom() {
                placed.push(HintPlacement { index, area: Rect::spec_new(x, y, clipped, 1) })
            } else {
                placed
            };
            (placed, sat_add(sat_add(x, item), 3), false)
        }
    }
}

/// Row `r` sits on this line (the row number kept to 16 bits).
pub open spec fn row_line(area: Rect, r: int) -> u16 {
    sat_add(area.y, (r % 0x10000) as u16)
}

/// The clickable cells of the first `r` rows.
pub open spec fn rows_placements<K>(hints: Seq<ShortcutHint<K>>, area: Rect, alignment: Alignment, rows: Seq<(Seq<usize>, u16)>, r: int) -> Seq<HintPlacement>
    decreases r,
{
    if r <= 0 {
        seq![]
    } else {
        let (indices, row_width) = rows[r - 1];
        rows_placements(hints, area, alignment, rows, r - 1)
            + row_walk(hints, area, row_line(area, r - 1), indices, row_start(area, row_width, alignment), indices.len() as int).0
    }
}

fn item_width<K>(h: &ShortcutHint<K>) -> (w: u16)
    requires
        !single_control(h.key@),
        !single_control(h.description@),
    ensures
        w == item_cells(*h),
{
    cell_width(h.key.as_str()).saturating_add(1).saturating_add(cell_width(h.description.as_str()))
}

fn group_rows<K>(hints: &[ShortcutHint<K>], width: u16) -> (out: (Vec<Vec<usize>>, Vec<u16>))
    requires
        measurable(hints@),
    ensures
        out.0@.len() == out.1@.len(),
        out.0@.len() == row_groups(hints@, width, hints@.len() as int).len(),
        forall|r: int| 0 <= r < out.0@.len() ==>
            (#[trigger] out.0@[r])@ == row_groups(hints@, width, hints@.len() as int)[r].0
            && out.1@[r] == row_groups(hints@, width, hints@.len() as int)[r].1,
{
    let mut indices: Vec<Vec<usize>> = Vec::new();
    let mut widths: Vec<u16> = Vec::new();
    indices.push(Vec::new());
    widths.push(0);
    let mut i: usize = 0;
    while i < hints.len()
        invariant
            i <= hints@.len(),
            measurable(hints@),
            indices@.len() == widths@.len(),
            indices@.len() == row_groups(hints@, width, i as int).len(),
            forall|r: int| 0 <= r < indices@.len() ==>
                (#[trigger] indices@[r])@ == row_groups(hints@, width, i as int)[r].0
                && widths@[r] == row_groups(hints@, width, i as int)[r].1,
        decreases hints@.len() - i,
    {
        proof { lemma_row_groups_nonempty(hints@, width, i as int); }
        let ghost g0 = row_groups(hints@, width, i as int);
        let item = item_width(&hints[i]);
        let last = widths.len() - 1;
        let row_width = widths[last];
        assert(indices@[last as int]@ == g0[last as int].0);
        let separator: u16 = if row_width == 0 { 0 } else { 3 };
        let split = row_width > 0 && row_width.saturating_add(separator).saturating_add(item) > width;
        if split {
            indices.push(Vec::new());
            widths.push(0);
        }
        let ghost g1 = if split { g0.push((Seq::<usize>::empty(), 0u16)) } else { g0 };
        assert(indices@.len() == g1.len());
        assert(forall|r: int| 0 <= r < indices@.len() ==> (#[trigger] indices@[r])@ == g1[r].0 && widths@[r] == g1[r].1);
        let last = widths.len() - 1;
        let ghost pre = indices@;
        let mut row = indices.remove(last);
        let separator: u16 = if row.len() == 0 { 0 } else { 3 };
        row.push(i);
        indices.push(row);
        assert(indices@ =~= pre.update(last as int, indices@[last as int]));
        let used = widths[last];
        widths.set(last, used.saturating_add(separator).saturating_add(item));
        let ghost g2 = g1.update(g1.len() - 1, (g1.last().0.push(i as usize), sat_add(sat_add(g1.last().1, separator), item)));
        proof {
            let n = i as int + 1;
            assert(row_groups(hints@, width, n - 1) == g0);
            assert(hints@[n - 1] == hints@[i as int]);
            assert(item == item_cells(hints@[n - 1]));
            assert(row_width == g0.last().1);
            assert(g1.last().0 == pre[last as int]@);
            assert(g2 =~= row_groups(hints@, width, n));
        }
        i = i + 1;
        assert forall|r: int| 0 <= r < indices@.len() implies
            (#[trigger] indices@[r])@ == row_groups(hints@, width, i as int)[r].0
            && widths@[r] == row_groups(hints@, width, i as int)[r].1 by {
            if r < indices@.len() - 1 {
                assert(indices@[r] == pre[r]);
            }
        }
    }
    (indices, widths)
}

fn walk_row<K>(out: &mut Vec<HintPlacement>, hints: &[ShortcutHint<K>], area: Rect, y: u16, indices: &Vec<usize>, x0: u16)
    requires
        measurable(hints@),
        forall|j: int| 0 <= j < indices@.len() ==> (#[trigger] indices@[j] as int) < hints@.len(),
    ensures
        final(out)@ == old(out)@ + row_walk(hints@, area, y, indices@, x0, indices@.len() as int).0,
{
    let ghost start = out@;
    let mut x = x0;
    let mut k: usize = 0;
    while k < indices.len()
        invariant
            k <= indices@.len(),
            measurable(hints@),
            forall|j: int| 0 <= j < indices@.len() ==> (#[trigger] indices@[j] as int) < hints@.len(),
            row_walk(hints@, area, y, indices@, x0, k as int) == (out@.subrange(start.len() as int, out@.len() as int), x, false),
            out@.take(start.len() as int) == start,
            start.len() <= out@.len(),
            start == old(out)@,
        ensures
            out@ == start + row_walk(hints@, area, y, indices@, x0, indices@.len() as int).0,
        decreases indices@.len() - k,
    {
        if x >= area.right() {
            proof { lemma_row_walk_stopped(hints@, area, y, indices@, x0, k as int, indices@.len() as int); }
            assert(out@ =~= start + out@.subrange(start.len() as int, out@.len() as int));
            return;
        }
        let index = indices[k];
        let item = item_width(&hints[index]);
        let ghost before = out@;
        if hints[index].activation.is_some() && item > 0 && y < area.bottom() {
            let room = area.right().saturating_sub(x);
            let clipped = if item < room { item } else { room };
            out.push(HintPlacement { index, area: Rect::new(x, y, clipped, 1) });
        }
        x = x.saturating_add(item).saturating_add(3);
        k = k + 1;
        assert(out@.take(start.len() as int) =~= start);
        assert(out@.subrange(start.len() as int, out@.len() as int) =~=
            row_walk(hints@, area, y, indices@, x0, k as int).0);
    }
    assert(out@ =~= start + out@.subrange(start.len() as int, out@.len() as int));
}

proof fn lemma_row_walk_stopped<K>(hints: Seq<ShortcutHint<K>>, area: Rect, y: u16, indices: Seq<usize>, x0: u16, k: int, n: int)
    requires
        0 <= k <= n,
        row_walk(hints, area, y, indices, x0, k).1 >= area.spec_right(),
        !row_walk(hints, area, y, indices, x0, k).2,
    ensures
        row_walk(hints, area, y, indices, x0, n).0 == row_walk(hints, area, y, indices, x0, k).0,
    decreases n - k,
{
    if k < n {
        if k + 1 < n {
            lemma_row_walk_stays_stopped(hints, area, y, indices, x0, k + 1, n);
        }
    }
}

proof fn lemma_row_walk_stays_stopped<K>(hints: Seq<ShortcutHint<K>>, area: Rect, y: u16, indices: Seq<usize>, x0: u16, k: int, n: int)
    requires
        0 < k <= n,
        row_walk(hints, area, y, indices, x0, k).2,
    ensures
        row_walk(hints, area, y, indices, x0, n) == row_walk(hints, area, y, indices, x0, k),
    decreases n - k,
{
    if k < n {
        lemma_row_walk_stays_stopped(hints, area, y, indices, x0, k, n - 1);
    }
}

/// The cells of each clickable hint in a footer area: one row as laid out by
/// `single_line_layout`, or the hints flowed over rows of the area's width.
pub fn interactive_placements<K>(hints: &[ShortcutHint<K>], area: Rect, alignment: Alignment) -> (out: Vec<HintPlacement>)
    requires
        measurable(hints@),
    ensures
        area.height == 1 && (area.spec_is_empty() || hints@.len() == 0) ==> out@.len() == 0,
        area.height == 1 && !(area.spec_is_empty() || hints@.len() == 0) ==>
            forall|selected: int| #[trigger] packed(hints@, area.width as int, selected) ==>
                out@ == clickable(hints@, placements_from(hints@, area,
                    sat_add(area.x, aligned_offset(area.width, line_cells(hints@, selected), alignment) as u16), selected).0),
        area.height != 1 && area.spec_is_empty() ==> out@.len() == 0,
        area.height != 1 && !area.spec_is_empty() ==> {
            let rows = row_groups(hints@, area.width, hints@.len() as int);
            out@ == rows_placements(hints@, area, alignment, rows, rows.len() as int)
        },
{
    let mut out: Vec<HintPlacement> = Vec::new();
    if area.height == 1 {
        let layout = single_line_layout(hints, area, alignment);
        let mut i: usize = 0;
        while i < layout.placements.len()
            invariant
                i <= layout.placements@.len(),
                out@ == clickable(hints@, layout.placements@.take(i as int)),
            decreases layout.placements@.len() - i,
        {
            let p = layout.placements[i];
            assert(layout.placements@.take(i as int + 1).drop_last() =~= layout.placements@.take(i as int));
            if p.index < hints.len() && hints[p.index].activation.is_some() {
                out.push(p);
            }
            i = i + 1;
        }
        assert(layout.placements@.take(i as int) =~= layout.placements@);
        if !(area.is_empty() || hints.len() == 0) {
            assert forall|selected: int| #[trigger] packed(hints@, area.width as int, selected) implies
                selected == hints@.len() - layout.omitted by {
                lemma_packed_unique(hints@, area.width as int, selected, hints@.len() - layout.omitted);
            }
        }
        return out;
    }
    if area.is_empty() {
        return out;
    }
    let (rows, widths) = group_rows(hints, area.width);
    let ghost all = row_groups(hints@, area.width, hints@.len() as int);
    proof { lemma_row_groups_nonempty(hints@, area.width, hints@.len() as int); }
    let mut r: usize = 0;
    while r < rows.len()
        invariant
            r <= rows@.len(),
            measurable(hints@),
            rows@.len() == widths@.len(),
            rows@.len() == all.len(),
            all == row_groups(hints@, area.width, hints@.len() as int),
            forall|q: int| 0 <= q < rows@.len() ==> (#[trigger] rows@[q])@ == all[q].0 && widths@[q] == all[q].1,
            forall|q: int, j: int| 0 <= q < all.len() && 0 <= j < all[q].0.len() ==> (#[trigger] all[q].0[j] as int) < hints@.len(),
            out@ == rows_placements(hints@, area, alignment, all, r as int),
        decreases rows@.len() - r,
    {
        let row_width = widths[r];
        let x0 = match alignment {
            Alignment::Center => area.x.saturating_add(area.width.saturating_sub(row_width) / 2),
            Alignment::Right => area.x.saturating_add(area.width.saturating_sub(row_width)),
            Alignment::Left => area.x,
        };
        let line = (r % 0x10000) as u16;
        let y = area.y.saturating_add(line);
        assert(forall|j: int| 0 <= j < rows@[r as int]@.len() ==> (#[trigger] rows@[r as int]@[j] as int) < hints@.len());
        walk_row(&mut out, hints, area, y, &rows[r], x0);
        r = r + 1;
    }
    out
}

} // verus!
