//! Editor rendering decisions: diagnostic underlines and mouse selection cells.
use vstd::prelude::*;
use crate::highlight::HighlightKind;
use crate::cells::{str_width, unicode_str_width};

verus! {

/// A byte range `start..end` of SQL source.
#[derive(Clone, Copy, Debug, PartialEq, Eq, Structural)]
pub struct TextRange {
    pub start: usize,
    pub end: usize,
}

impl TextRange {
    pub fn new(start: usize, end: usize) -> (r: TextRange)
        ensures
            r == (TextRange { start, end }),
    {
        TextRange { start, end }
    }
}

/// A semantic problem found in a range of the SQL source.
#[derive(Clone, Debug)]
pub struct SqlDiagnostic {
    pub range: TextRange,
    pub message: String,
    pub code: &'static str,
}

/// A highlighted range of a line's source bytes.
#[derive(Clone, Copy, Debug, PartialEq, Eq, Structural)]
pub struct EditorSpan {
    pub source_start: usize,
    pub source_end: usize,
    pub kind: HighlightKind,
}

/// A line of the editor as rendered: its logical line number, the source bytes it
/// covers, the display cell where each source character starts, its highlights,
/// the source offsets between its characters (relative to `source_start`), the
/// matching byte offsets into the displayed text, and the displayed text.
#[derive(Clone, Debug)]
pub struct EditorRenderLine {
    pub line: usize,
    pub source_start: usize,
    pub source_end: usize,
    pub source_to_display_cells: Vec<usize>,
    pub spans: Vec<EditorSpan>,
    pub source_byte_boundaries: Vec<usize>,
    pub source_to_display_bytes: Vec<usize>,
    pub display_text: String,
}

/// What the editor showed when it was last drawn: the cursor, the drawn lines,
/// the horizontal scroll, the width of the text area, the selected cells
/// (`(line, start, end)`) and the semantic diagnostics.
#[derive(Clone, Debug)]
pub struct EditorRenderSnapshot {
    pub cursor: TextPosition,
    pub lines: Vec<EditorRenderLine>,
    pub horizontal_offset: usize,
    pub viewport_width: usize,
    pub selection_cells: Vec<(usize, usize, usize)>,
    pub semantic_diagnostics: Vec<SqlDiagnostic>,
}

/// A line/column position in the editor's text.
#[derive(Clone, Copy, Debug, PartialEq, Eq, Structural)]
pub struct TextPosition {
    pub line: usize,
    pub column: usize,
}

/// A mouse drag over editor text.
#[derive(Clone, Copy, Debug, PartialEq, Eq, Structural)]
pub struct TextGesture {
    pub session_id: u128,
    pub revision: u64,
    pub start: TextPosition,
    pub end: TextPosition,
    pub has_dragged: bool,
}

pub open spec fn overlaps(r: TextRange, source_start: int, source_end: int) -> bool {
    r.start < source_end && r.end > source_start
}

/// Whether some diagnostic overlaps `source_start..source_end`; ranges that only
/// touch do not overlap.
pub fn diagnostic_covers_source(diagnostics: &[SqlDiagnostic], source_start: usize, source_end: usize) -> (r: bool)
    ensures
        r == exists|i: int| 0 <= i < diagnostics@.len()
            && #[trigger] overlaps(diagnostics@[i].range, source_start as int, source_end as int),
{
    let mut i: usize = 0;
    while i < diagnostics.len()
        invariant
            i <= diagnostics@.len(),
            forall|k: int| 0 <= k < i ==> !#[trigger] overlaps(diagnostics@[k].range, source_start as int, source_end as int),
        decreases diagnostics@.len() - i,
    {
        let range = diagnostics[i].range;
        if range.start < source_end && range.end > source_start {
            assert(overlaps(diagnostics@[i as int].range, source_start as int, source_end as int));
            return true;
        }
        i = i + 1;
    }
    false
}

/// A diagnostic marks a line when it overlaps the line's source, or when it is an
/// empty range placed on the line (its ends included).
pub open spec fn marks_line(r: TextRange, line: &EditorRenderLine) -> bool {
    overlaps(r, line.source_start as int, line.source_end as int)
        || (r.start == r.end && line.source_start <= r.start <= line.source_end)
}

/// Whether any diagnostic marks `line`.
pub fn line_has_diagnostic(line: &EditorRenderLine, diagnostics: &[SqlDiagnostic]) -> (r: bool)
    ensures
        r == exists|i: int| 0 <= i < diagnostics@.len() && #[trigger] marks_line(diagnostics@[i].range, line),
{
    let mut i: usize = 0;
    while i < diagnostics.len()
        invariant
            i <= diagnostics@.len(),
            forall|k: int| 0 <= k < i ==> !#[trigger] marks_line(diagnostics@[k].range, line),
        decreases diagnostics@.len() - i,
    {
        let range = diagnostics[i].range;
        if (range.start < line.source_end && range.end > line.source_start)
            || (range.start == range.end && range.start >= line.source_start && range.start <= line.source_end)
        {
            assert(marks_line(diagnostics@[i as int].range, line));
            return true;
        }
        i = i + 1;
    }
    false
}

pub open spec fn pos_le(a: TextPosition, b: TextPosition) -> bool {
    a.line < b.line || (a.line == b.line && a.column <= b.column)
}

/// The display cells `(start, end)` of `line` covered by a mouse drag, if any.
pub open spec fn selection_cells(gesture: Option<TextGesture>, session_id: u128, revision: u64, line: &EditorRenderLine) -> Seq<(usize, usize)> {
    match gesture {
        None => seq![],
        Some(g) => {
            if !g.has_dragged || g.session_id != session_id || g.revision != revision {
                seq![]
            } else {
                let (first, last) = if pos_le(g.start, g.end) { (g.start, g.end) } else { (g.end, g.start) };
                let cells = line.source_to_display_cells@;
                if line.line < first.line || line.line > last.line {
                    seq![]
                } else {
                    let last_col = if cells.len() == 0 { 0 } else { cells.len() - 1 };
                    let start = if line.line == first.line {
                        if first.column < last_col { first.column as int } else { last_col as int }
                    } else {
                        0
                    };
                    let end = if line.line == last.line {
                        let next = if last.column == usize::MAX { usize::MAX as int } else { last.column + 1 };
                        if next < last_col { next } else { last_col as int }
                    } else {
                        last_col as int
                    };
                    if end <= start {
                        seq![]
                    } else {
                        let start_cell = if start < cells.len() { cells[start] } else { 0 };
                        let end_cell = if end < cells.len() { cells[end] } else if cells.len() > 0 { cells.last() } else { 0 };
                        if end_cell > start_cell { seq![(start_cell, end_cell)] } else { seq![] }
                    }
                }
            }
        },
    }
}

/// Cells of `line` that the current mouse drag selects (at most one range).
pub fn mouse_selection_cells(gesture: Option<TextGesture>, session_id: u128, revision: u64, line: &EditorRenderLine) -> (r: Vec<(usize, usize)>)
    ensures
        r@ == selection_cells(gesture, session_id, revision, line),
{
    let g = match gesture {
        None => { return Vec::new(); },
        Some(g) => g,
    };
    if !g.has_dragged || g.session_id != session_id || g.revision != revision {
        return Vec::new();
    }
    let (first, last) = if g.start.line < g.end.line || (g.start.line == g.end.line && g.start.column <= g.end.column) {
        (g.start, g.end)
    } else {
        (g.end, g.start)
    };
    if line.line < first.line || line.line > last.line {
        return Vec::new();
    }
    let cells = &line.source_to_display_cells;
    let last_source_column = cells.len().saturating_sub(1);
    let start = if line.line == first.line { first.column.min(last_source_column) } else { 0 };
    let end = if line.line == last.line {
        last.column.saturating_add(1).min(last_source_column)
    } else {
        last_source_column
    };
    if end <= start {
        return Vec::new();
    }
    let start_cell = if start < cells.len() { cells[start] } else { 0 };
    let end_cell = if end < cells.len() {
        cells[end]
    } else if cells.len() > 0 {
        cells[cells.len() - 1]
    } else {
        0
    };
    let mut out = Vec::new();
    if end_cell > start_cell {
        out.push((start_cell, end_cell));
    }
    assert(out@ =~= selection_cells(gesture, session_id, revision, line));
    out
}

/// A line of input as displayed: its printable text and, per source character,
/// the display cell where it starts.
#[derive(Clone, Debug)]
pub struct LineProjection {
    pub text: String,
    pub source_to_display_cells: Vec<usize>,
}

/// How far a one-line text input scrolls so that its cursor stays visible after
/// the `prefix` drawn before it in an area `area_width` cells wide.
pub open spec fn input_offset(area_width: u16, prefix_width: int, projection: LineProjection, cursor: int) -> int {
    let available = if area_width < prefix_width { 0 } else { area_width - prefix_width };
    let text_width = unicode_str_width(projection.text@) as int;
    let cells = projection.source_to_display_cells@;
    let cursor_cells = if 0 <= cursor < cells.len() { cells[cursor] as int } else { text_width };
    let keep = if available < 1 { 0 } else { available - 1 };
    let shifted = if cursor_cells < keep { 0 } else { cursor_cells - keep };
    if shifted < text_width { shifted } else { text_width }
}

/// Horizontal scroll of a text input with its cursor at character `cursor`.
pub fn text_input_horizontal_offset(area_width: u16, prefix: &str, projection: &LineProjection, cursor: usize) -> (r: usize)
    ensures
        r == input_offset(area_width, unicode_str_width(prefix@) as int, *projection, cursor as int),
{
    let prefix_width = str_width(prefix);
    let available = (area_width as usize).saturating_sub(prefix_width);
    let text_width = str_width(projection.text.as_str());
    let cursor_cells = if cursor < projection.source_to_display_cells.len() {
        projection.source_to_display_cells[cursor]
    } else {
        text_width
    };
    let shifted = cursor_cells.saturating_sub(available.saturating_sub(1));
    if shifted < text_width { shifted } else { text_width }
}

} // verus!
