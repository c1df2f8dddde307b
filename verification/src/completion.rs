//! Geometry of the SQL completion popup and of the explorer search cursor.
use vstd::prelude::*;
use vstd::utf8::{decode_utf8, is_char_boundary};
use vstd::string::StringSliceAdditionalSpecFns;
use crate::cells::{cell_width, ratatui_cell_width, single_control};
use crate::tabs::{cell_truncation, truncate_to_cell_width};
use crate::geometry::{Rect, Position, sat_add, sat_sub};
use crate::text::chars_of;
use crate::editor::{EditorRenderLine, EditorRenderSnapshot, TextRange};

verus! {

broadcast use vstd::string::group_string_axioms, vstd::utf8::encode_utf8_decode_utf8, vstd::utf8::encode_utf8_valid_utf8;

pub const COMPLETION_DETAIL_GAP: u16 = 2;
pub const COMPLETION_ROW_RIGHT_PADDING: u16 = 1;
pub const COMPLETION_DETAIL_MAX_CELLS: u16 = 24;
pub const COMPLETION_DETAIL_MIN_CELLS: u16 = 4;

/// Where a completion popup is anchored: the text viewport, the cursor cell and,
/// when known, the column where the replaced word starts.
#[derive(Clone, Copy, Debug, PartialEq, Eq, Structural)]
pub struct CompletionAnchor {
    pub viewport: Rect,
    pub cursor: Position,
    pub replacement_start_x: Option<u16>,
}

/// Column widths for a completion popup row: icon, label and type detail.
///
/// `detail == 0` means the type column is hidden because the popup is too
/// narrow to carry it.
#[derive(Clone, Copy, Debug, PartialEq, Eq, Structural)]
pub struct CompletionColumns {
    pub icon: u16,
    pub label: u16,
    pub detail: u16,
}

pub open spec fn max16(a: u16, b: u16) -> u16 {
    if a < b { b } else { a }
}

pub open spec fn min16(a: u16, b: u16) -> u16 {
    if a < b { a } else { b }
}

/// Widest icon among the first `n` rows.
pub open spec fn widest_icon(rows: Seq<(u16, &str, &str)>, n: int) -> u16
    decreases n,
{
    if n <= 0 { 0 } else { max16(widest_icon(rows, n - 1), rows[n - 1].0) }
}

/// Widest label (in cells) among the first `n` rows.
pub open spec fn widest_label(rows: Seq<(u16, &str, &str)>, n: int) -> u16
    decreases n,
{
    if n <= 0 { 0 } else { max16(widest_label(rows, n - 1), ratatui_cell_width(rows[n - 1].1@)) }
}

/// Widest detail (in cells) among the first `n` rows.
pub open spec fn widest_detail(rows: Seq<(u16, &str, &str)>, n: int) -> u16
    decreases n,
{
    if n <= 0 { 0 } else { max16(widest_detail(rows, n - 1), ratatui_cell_width(rows[n - 1].2@)) }
}

impl CompletionColumns {
    pub open spec fn spec_label_offset(self) -> u16 {
        sat_add(self.icon, 1)
    }

    /// Measures `(icon cells, label, detail)` over every candidate, not just the
    /// visible ones, so a clipped popup does not shift its columns.
    pub fn measure(rows: &[(u16, &str, &str)]) -> (c: CompletionColumns)
        requires
            forall|i: int| 0 <= i < rows@.len() ==> !single_control((#[trigger] rows@[i]).1@) && !single_control(rows@[i].2@),
        ensures
            c.icon == widest_icon(rows@, rows@.len() as int),
            c.label == widest_label(rows@, rows@.len() as int),
            c.detail == min16(widest_detail(rows@, rows@.len() as int), COMPLETION_DETAIL_MAX_CELLS),
    {
        let mut columns = CompletionColumns { icon: 0, label: 0, detail: 0 };
        let mut i: usize = 0;
        while i < rows.len()
            invariant
                i <= rows@.len(),
                forall|i: int| 0 <= i < rows@.len() ==> !single_control((#[trigger] rows@[i]).1@) && !single_control(rows@[i].2@),
                columns.icon == widest_icon(rows@, i as int),
                columns.label == widest_label(rows@, i as int),
                columns.detail == widest_detail(rows@, i as int),
            decreases rows@.len() - i,
        {
            let (icon, label, detail) = rows[i];
            let label_width = cell_width(label);
            let detail_width = cell_width(detail);
            if columns.icon < icon {
                columns.icon = icon;
            }
            if columns.label < label_width {
                columns.label = label_width;
            }
            if columns.detail < detail_width {
                columns.detail = detail_width;
            }
            i = i + 1;
        }
        if columns.detail > COMPLETION_DETAIL_MAX_CELLS {
            columns.detail = COMPLETION_DETAIL_MAX_CELLS;
        }
        columns
    }

    /// Start of the label column. The popup anchor is derived from this, so it
    /// must stay `icon + 1`.
    #[verifier::when_used_as_spec(spec_label_offset)]
    pub fn label_offset(self) -> (r: u16)
        ensures
            r == self.spec_label_offset(),
    {
        self.icon.saturating_add(1)
    }

    /// Cells a row needs: label offset, label, the detail column with its gap when
    /// shown, and the right padding; never less than four.
    pub fn content_width(self) -> (r: u16)
        ensures
            r == max16(
                sat_add(
                    sat_add(
                        sat_add(self.spec_label_offset(), self.label),
                        if self.detail == 0 { 0 } else { sat_add(COMPLETION_DETAIL_GAP, self.detail) },
                    ),
                    COMPLETION_ROW_RIGHT_PADDING,
                ),
                4,
            ),
    {
        let width = self.label_offset()
            .saturating_add(self.label)
            .saturating_add(if self.detail == 0 { 0 } else { COMPLETION_DETAIL_GAP.saturating_add(self.detail) })
            .saturating_add(COMPLETION_ROW_RIGHT_PADDING);
        if width < 4 { 4 } else { width }
    }

    /// Re-converges the columns against the clamped popup width: labels keep
    /// their space first, the type column takes what is left. A type column
    /// that fits whole is kept; one that has to be cut disappears entirely once
    /// it would be too narrow to read.
    pub fn fit(self, inner_width: u16) -> (r: CompletionColumns)
        ensures
            r.icon == self.icon,
            r.label == min16(self.label, sat_sub(inner_width, self.spec_label_offset())),
            ({
                let left = sat_sub(sat_sub(sat_sub(sat_sub(inner_width, self.spec_label_offset()), r.label),
                    COMPLETION_DETAIL_GAP), COMPLETION_ROW_RIGHT_PADDING);
                let detail = min16(self.detail, left);
                r.detail == if detail == self.detail || detail >= COMPLETION_DETAIL_MIN_CELLS { detail } else { 0 }
            }),
    {
        let label = self.label.min(inner_width.saturating_sub(self.label_offset()));
        let detail = self.detail.min(
            inner_width
                .saturating_sub(self.label_offset())
                .saturating_sub(label)
                .saturating_sub(COMPLETION_DETAIL_GAP)
                .saturating_sub(COMPLETION_ROW_RIGHT_PADDING),
        );
        CompletionColumns {
            icon: self.icon,
            label,
            detail: if detail == self.detail || detail >= COMPLETION_DETAIL_MIN_CELLS { detail } else { 0 },
        }
    }
}

/// Law: columns fitted to their own content width come back unchanged: a type
/// column is only hidden when the popup is too narrow to carry it.
pub proof fn law_columns_fit_their_content_width(c: CompletionColumns)
    requires
        sat_add(sat_add(sat_add(c.spec_label_offset(), c.label), sat_add(COMPLETION_DETAIL_GAP, c.detail)),
            COMPLETION_ROW_RIGHT_PADDING) < u16::MAX,
    ensures
        ({
            let w = max16(
                sat_add(sat_add(sat_add(c.spec_label_offset(), c.label),
                    if c.detail == 0 { 0 } else { sat_add(COMPLETION_DETAIL_GAP, c.detail) }), COMPLETION_ROW_RIGHT_PADDING),
                4);
            let left = sat_sub(sat_sub(sat_sub(sat_sub(w, c.spec_label_offset()), min16(c.label, sat_sub(w, c.spec_label_offset()))),
                COMPLETION_DETAIL_GAP), COMPLETION_ROW_RIGHT_PADDING);
            &&& min16(c.label, sat_sub(w, c.spec_label_offset())) == c.label
            &&& min16(c.detail, left) == c.detail
        }),
{
}

/// Where the popup goes: starting at the cursor column (clamped into the viewport)
/// one row below the cursor when `desired_height` rows fit there, otherwise ending
/// just above the cursor when they fit there, otherwise in the larger of the two
/// spaces; `None` when the viewport is empty, nothing is asked for or there is no room.
pub open spec fn popup_rect(anchor: CompletionAnchor, desired_width: u16, desired_height: u16) -> Option<Rect> {
    let viewport = anchor.viewport;
    if viewport.spec_is_empty() || desired_height == 0 {
        None
    } else {
        let hi = sat_sub(viewport.spec_right(), 1);
        let x = if anchor.cursor.x < viewport.x { viewport.x } else if anchor.cursor.x > hi { hi } else { anchor.cursor.x };
        let width = max16(min16(desired_width, sat_sub(viewport.spec_right(), x)), 1);
        let below_y = sat_add(anchor.cursor.y, 1);
        let below = sat_sub(viewport.spec_bottom(), below_y);
        let above = sat_sub(anchor.cursor.y, viewport.y);
        if below >= desired_height {
            Some(Rect { x, y: below_y, width: (sat_add(x, width) - x) as u16, height: (sat_add(below_y, desired_height) - below_y) as u16 })
        } else if above >= desired_height {
            let y = sat_sub(anchor.cursor.y, desired_height);
            Some(Rect { x, y, width: (sat_add(x, width) - x) as u16, height: (sat_add(y, desired_height) - y) as u16 })
        } else if below >= above && below > 0 {
            Some(Rect { x, y: below_y, width: (sat_add(x, width) - x) as u16, height: (sat_add(below_y, below) - below_y) as u16 })
        } else if above > 0 {
            Some(Rect { x, y: viewport.y, width: (sat_add(x, width) - x) as u16, height: (sat_add(viewport.y, above) - viewport.y) as u16 })
        } else {
            None
        }
    }
}

/// Law: with the cursor inside the viewport, the popup lies within the viewport,
/// is at least one cell in each direction, and never covers the cursor's row.
pub proof fn law_popup_stays_beside_the_cursor(anchor: CompletionAnchor, desired_width: u16, desired_height: u16)
    requires
        anchor.viewport.x <= sat_sub(anchor.viewport.spec_right(), 1),
        anchor.viewport.y <= anchor.cursor.y < anchor.viewport.spec_bottom(),
    ensures
        popup_rect(anchor, desired_width, desired_height) matches Some(p) ==> {
            &&& anchor.viewport.x <= p.x && p.x + p.width <= anchor.viewport.spec_right()
            &&& anchor.viewport.y <= p.y && p.y + p.height <= anchor.viewport.spec_bottom()
            &&& p.width >= 1 && p.height >= 1
            &&& (p.y > anchor.cursor.y || p.y + p.height <= anchor.cursor.y)
        },
{
}

/// Places a completion popup of the desired size next to the cursor.
pub fn completion_popup_rect(anchor: CompletionAnchor, desired_width: u16, desired_height: u16) -> (r: Option<Rect>)
    requires
        anchor.viewport.spec_is_empty() || desired_height == 0
            || anchor.viewport.x <= sat_sub(anchor.viewport.spec_right(), 1),
    ensures
        r == popup_rect(anchor, desired_width, desired_height),
{
    let viewport = anchor.viewport;
    if viewport.is_empty() || desired_height == 0 {
        return None;
    }
    let hi = viewport.right().saturating_sub(1);
    let x = if anchor.cursor.x < viewport.x { viewport.x } else if anchor.cursor.x > hi { hi } else { anchor.cursor.x };
    let width = desired_width.min(viewport.right().saturating_sub(x)).max(1);
    let below_y = anchor.cursor.y.saturating_add(1);
    let below = viewport.bottom().saturating_sub(below_y);
    let above = anchor.cursor.y.saturating_sub(viewport.y);
    if below >= desired_height {
        Some(Rect::new(x, below_y, width, desired_height))
    } else if above >= desired_height {
        Some(Rect::new(x, anchor.cursor.y.saturating_sub(desired_height), width, desired_height))
    } else if below >= above && below > 0 {
        Some(Rect::new(x, below_y, width, below))
    } else if above > 0 {
        Some(Rect::new(x, viewport.y, width, above))
    } else {
        None
    }
}

/// The screen column, relative to the viewport, of the character that starts at
/// `byte` in `source`: its display cell minus the horizontal scroll, clamped to the
/// last viewport column. `None` for an empty viewport, an offset past the end or
/// inside a character, or a character without a mapped cell.
pub open spec fn visible_cell(bytes: Seq<u8>, cells: Seq<usize>, byte: int, horizontal_offset: int, viewport_width: int) -> Option<u16> {
    if viewport_width == 0 || !is_char_boundary(bytes, byte) {
        None
    } else {
        let column = decode_utf8(bytes.take(byte)).len() as int;
        if column < cells.len() {
            let shifted = if cells[column] < horizontal_offset { 0 } else { cells[column] - horizontal_offset };
            let clamped = if shifted < viewport_width - 1 { shifted } else { viewport_width - 1 };
            Some(clamped as u16)
        } else {
            None
        }
    }
}

/// Maps a byte offset of a source line to its visible screen column.
pub fn source_byte_to_visible_cell(
    source: &str,
    source_to_display_cells: &[usize],
    byte: usize,
    horizontal_offset: usize,
    viewport_width: usize,
) -> (r: Option<u16>)
    ensures
        r == visible_cell(source.spec_bytes(), source_to_display_cells@, byte as int, horizontal_offset as int, viewport_width as int),
{
    // `is_char_boundary` is false past the end of the string.
    if viewport_width == 0 || !source.is_char_boundary(byte) {
        return None;
    }
    let (head, _tail) = source.split_at(byte);
    let column = chars_of(head).len();
    assert(head@ == decode_utf8(head.spec_bytes()));
    assert(head.spec_bytes() =~= source.spec_bytes().take(byte as int));
    if column >= source_to_display_cells.len() {
        return None;
    }
    let cell = source_to_display_cells[column];
    let shifted = cell.saturating_sub(horizontal_offset);
    let clamped = shifted.min(viewport_width - 1);
    Some(clamped as u16)
}

/// Cursor column in the explorer search field: the input's width, kept inside the field.
pub fn explorer_search_cursor_column(input: &str, width: u16) -> (r: u16)
    requires
        !single_control(input@),
    ensures
        r == min16(ratatui_cell_width(input@), sat_sub(width, 1)),
{
    cell_width(input).min(width.saturating_sub(1))
}

/// Byte offset where line `k` starts, scanning from `pos`: just after the `k`-th
/// line break, or the end of the text when there are fewer breaks.
pub open spec fn line_start_from(bytes: Seq<u8>, pos: int, k: nat) -> int
    decreases bytes.len() - pos, k,
{
    if k == 0 {
        pos
    } else if pos < 0 || pos >= bytes.len() {
        bytes.len() as int
    } else if bytes[pos] == 10u8 {
        line_start_from(bytes, pos + 1, (k - 1) as nat)
    } else {
        line_start_from(bytes, pos + 1, k)
    }
}

/// Byte offset of the first line break at or after `pos`, or the end of the text.
pub open spec fn line_end_from(bytes: Seq<u8>, pos: int) -> int
    decreases bytes.len() - pos,
{
    if pos < 0 || pos >= bytes.len() {
        bytes.len() as int
    } else if bytes[pos] == 10u8 {
        pos
    } else {
        line_end_from(bytes, pos + 1)
    }
}

/// Index of the first drawn line showing logical line `line`.
pub open spec fn drawn_line(lines: Seq<EditorRenderLine>, line: usize) -> Option<int>
    decreases lines.len(),
{
    if lines.len() == 0 {
        None
    } else if lines[0].line == line {
        Some(0)
    } else {
        match drawn_line(lines.drop_first(), line) {
            Some(i) => Some(i + 1),
            None => None,
        }
    }
}

/// Screen column where the text being replaced by a completion starts: the
/// replaced range must start on the cursor's line and that line must have been
/// drawn. Line breaks are single bytes, so the line's bounds always fall between
/// characters.
pub open spec fn replacement_cell(text: Seq<u8>, snapshot: EditorRenderSnapshot, start: int) -> Option<u16> {
    let line_start = line_start_from(text, 0, snapshot.cursor.line as nat);
    let line_end = line_end_from(text, line_start);
    if start > text.len() || !is_char_boundary(text, start) {
        None
    } else if start < line_start || start > line_end {
        None
    } else {
        match drawn_line(snapshot.lines@, snapshot.cursor.line) {
            None => None,
            Some(i) => if is_char_boundary(text, line_start) && is_char_boundary(text.subrange(line_start, text.len() as int), line_end - line_start) {
                visible_cell(text.subrange(line_start, line_end), snapshot.lines@[i].source_to_display_cells@,
                    start - line_start, snapshot.horizontal_offset as int, snapshot.viewport_width as int)
            } else {
                None
            },
        }
    }
}

/// Where on screen the completion's replacement starts.
pub fn completion_replacement_start_cell(text: &str, snapshot: &EditorRenderSnapshot, replace: TextRange) -> (r: Option<u16>)
    ensures
        r == replacement_cell(text.spec_bytes(), *snapshot, replace.start as int),
{
    let bytes = text.as_bytes();
    let ghost b = text.spec_bytes();
    if replace.start > bytes.len() || !text.is_char_boundary(replace.start) {
        return None;
    }
    let mut pos: usize = 0;
    let mut remaining: usize = snapshot.cursor.line;
    while remaining > 0 && pos < bytes.len()
        invariant
            bytes@ == b,
            pos <= b.len(),
            line_start_from(b, 0, snapshot.cursor.line as nat) == line_start_from(b, pos as int, remaining as nat),
        decreases b.len() - pos,
    {
        if bytes[pos] == 10u8 {
            remaining = remaining - 1;
        }
        pos = pos + 1;
    }
    let line_start = if remaining == 0 { pos } else { bytes.len() };
    let mut end = line_start;
    while end < bytes.len() && bytes[end] != 10u8
        invariant
            bytes@ == b,
            line_start <= end <= b.len(),
            line_end_from(b, line_start as int) == line_end_from(b, end as int),
        decreases b.len() - end,
    {
        end = end + 1;
    }
    let line_end = end;
    if replace.start < line_start || replace.start > line_end {
        return None;
    }
    let mut i: usize = 0;
    let lines = &snapshot.lines;
    assert(lines@.skip(0) =~= lines@);
    while i < lines.len() && lines[i].line != snapshot.cursor.line
        invariant
            i <= lines@.len(),
            drawn_line(lines@, snapshot.cursor.line) == match drawn_line(lines@.skip(i as int), snapshot.cursor.line) {
                Some(k) => Some(k + i),
                None => None::<int>,
            },
        decreases lines@.len() - i,
    {
        assert(lines@.skip(i as int).drop_first() =~= lines@.skip(i as int + 1));
        i = i + 1;
    }
    if i >= lines.len() {
        return None;
    }
    if !text.is_char_boundary(line_start) {
        return None;
    }
    let (_head, rest) = text.split_at(line_start);
    if !rest.is_char_boundary(line_end - line_start) {
        return None;
    }
    let (line, _tail) = rest.split_at(line_end - line_start);
    assert(line.spec_bytes() =~= b.subrange(line_start as int, line_end as int));
    source_byte_to_visible_cell(line, lines[i].source_to_display_cells.as_slice(), replace.start - line_start,
        snapshot.horizontal_offset, snapshot.viewport_width)
}

/// Cells of the pieces of a label, summed saturating.
pub open spec fn pieces_cells(pieces: Seq<String>, n: int) -> u16
    decreases n,
{
    if n <= 0 { 0 } else { sat_add(pieces_cells(pieces, n - 1), ratatui_cell_width(pieces[n - 1]@)) }
}

/// How a completion row is laid out: blanks before the icon, the detail as
/// shown with the blanks before it (when the detail column is shown and there is
/// a detail), and the blanks after the row's content.
#[derive(Clone, Debug)]
pub struct CompletionRowLayout {
    pub icon_padding: u16,
    pub detail: Option<(String, u16)>,
    pub trailing: u16,
}

/// Lays out a completion row of `inner_width` cells: the icon right-aligned in
/// its column, the label pieces, then the detail cut to its column after the gap.
pub fn completion_row_layout(columns: CompletionColumns, inner_width: u16, icon: &str, label: &[String], detail: &str) -> (r: CompletionRowLayout)
    requires
        !single_control(icon@),
        !single_control(detail@),
        detail@.len() > 0 ==> !single_control(seq![detail@[0]]),
        forall|i: int| 0 <= i < label@.len() ==> !single_control((#[trigger] label@[i])@),
    ensures
        r.icon_padding == sat_sub(columns.icon, ratatui_cell_width(icon@)),
        ({
            let label_cells = pieces_cells(label@, label@.len() as int);
            let used = sat_add(columns.spec_label_offset(), label_cells);
            if columns.detail > 0 && detail@.len() > 0 {
                r.detail matches Some((text, padding)) && {
                    &&& cell_truncation(detail@, columns.detail, text@)
                    &&& padding == sat_add(sat_add(sat_sub(columns.label, label_cells), COMPLETION_DETAIL_GAP),
                        sat_sub(columns.detail, ratatui_cell_width(text@)))
                    &&& r.trailing == sat_sub(inner_width, sat_add(sat_add(used, padding), ratatui_cell_width(text@)))
                }
            } else {
                r.detail is None && r.trailing == sat_sub(inner_width, used)
            }
        }),
{
    let mut label_cells: u16 = 0;
    let mut i: usize = 0;
    while i < label.len()
        invariant
            i <= label@.len(),
            forall|k: int| 0 <= k < label@.len() ==> !single_control((#[trigger] label@[k])@),
            label_cells == pieces_cells(label@, i as int),
        decreases label@.len() - i,
    {
        label_cells = label_cells.saturating_add(cell_width(label[i].as_str()));
        i = i + 1;
    }
    let icon_padding = columns.icon.saturating_sub(cell_width(icon));
    let mut used = columns.label_offset().saturating_add(label_cells);
    let detail_chars = chars_of(detail);
    if columns.detail > 0 && detail_chars.len() > 0 {
        let shown = truncate_to_cell_width(detail, columns.detail);
        let ghost shown_view = shown@;
        proof { lemma_truncation_measurable(detail@, columns.detail, shown_view); }
        let detail_cells = cell_width(shown.as_str());
        let padding = columns.label.saturating_sub(label_cells)
            .saturating_add(COMPLETION_DETAIL_GAP)
            .saturating_add(columns.detail.saturating_sub(detail_cells));
        used = used.saturating_add(padding).saturating_add(detail_cells);
        CompletionRowLayout { icon_padding, detail: Some((shown, padding)), trailing: inner_width.saturating_sub(used) }
    } else {
        CompletionRowLayout { icon_padding, detail: None, trailing: inner_width.saturating_sub(used) }
    }
}

/// A truncated text can be measured when the full text can and does not
/// start with a control character: it is the full text, or a prefix of it that
/// may end in `…`.
pub(crate) proof fn lemma_truncation_measurable(value: Seq<char>, width: u16, out: Seq<char>)
    requires
        !single_control(value),
        value.len() > 0 ==> !single_control(seq![value[0]]),
        cell_truncation(value, width, out),
    ensures
        !single_control(out),
{
    if out.len() == 1 && out != value {
        assert(out[0] == value[0] || out[0] == '…');
    }
}

} // verus!
