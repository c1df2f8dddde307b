//! How each character of a rendered editor line is styled: its highlight colour
//! or error colour, the selection, mouse-selection or statement background, and
//! the underline of semantic errors; neighbouring characters of the same style
//! form one run.
use vstd::prelude::*;
use crate::cells::{char_cells, cells_of_char};
use crate::editor::{EditorRenderLine, EditorRenderSnapshot, EditorSpan, SqlDiagnostic, overlaps, diagnostic_covers_source};
use crate::highlight::{HighlightKind, SyntaxColor, color_of, syntax_color};
use crate::text::{byte_offset, find_offset, char_offsets, find_char, lemma_find_offset_bound};
use crate::text::{chars_of, push_char};

verus! {

broadcast use vstd::string::group_string_axioms;

/// Text colour of a cell.
#[derive(Clone, Copy, Debug, PartialEq, Eq, Structural)]
pub enum Foreground {
    Error,
    Syntax(SyntaxColor),
    Text,
    Muted,
}

/// Background of a cell.
#[derive(Clone, Copy, Debug, PartialEq, Eq, Structural)]
pub enum Background {
    MouseSelection,
    Selection,
    Statement,
    Surface,
}

/// How a cell is drawn.
#[derive(Clone, Copy, Debug, PartialEq, Eq, Structural)]
pub struct CellStyle {
    pub fg: Foreground,
    pub bg: Background,
    pub underlined: bool,
}

/// Characters drawn in one style.
#[derive(Clone, Debug)]
pub struct StyledRun {
    pub text: String,
    pub style: CellStyle,
}

/// Whether an output line is an error.
#[derive(Clone, Copy, Debug, PartialEq, Eq, Structural)]
pub enum OutputKind {
    Normal,
    Error,
}

/// A run seen as its text and style.
pub type RunView = (Seq<char>, CellStyle);

pub open spec fn runs_view(v: Seq<StyledRun>) -> Seq<RunView> {
    Seq::new(v.len(), |i: int| (v[i].text@, v[i].style))
}

/// A cell `w` wide at `cell` meets the cells `start..end` (its right edge counted
/// saturating at `usize::MAX`).
pub open spec fn meets(cell: int, w: int, start: int, end: int) -> bool {
    let right = if cell + w > usize::MAX { usize::MAX as int } else { cell + w };
    cell < end && right > start
}

/// The characters between byte offsets `from` and `to` (what `str::get` gives),
/// none when either offset is not between characters or they are reversed.
pub open spec fn projected(chars: Seq<char>, from: int, to: int) -> (int, int) {
    match (find_offset(chars, from, 0), find_offset(chars, to, 0)) {
        (Some(a), Some(b)) => if a <= b { (a, b) } else { (0, 0) },
        _ => (0, 0),
    }
}

/// Moves the highlight pointer past spans ending before `start`.
pub open spec fn advance(spans: Seq<EditorSpan>, idx: int, start: int) -> int
    decreases spans.len() - idx,
{
    if idx + 1 < spans.len() && spans[idx].source_end <= start { advance(spans, idx + 1, start) } else { idx }
}

/// What is known about the characters of one source character.
#[derive(Clone, Copy, Debug)]
pub struct CellContext {
    pub line: usize,
    pub source_offset: usize,
    pub default_fg: Foreground,
    pub semantic: bool,
}

/// The style of a character at `cell`, `w` cells wide. Output lines show their
/// timestamp muted and errors in the error colour; the mouse selection wins over
/// the selection, which wins over the statement background.
pub open spec fn style_at(snapshot: EditorRenderSnapshot, mouse: Seq<(usize, usize)>, statement: Option<(usize, usize)>,
    output: Option<(OutputKind, usize)>, ctx: CellContext, cell: int, w: int) -> CellStyle {
    let fg = match output {
        Some((kind, timestamp_end)) => if ctx.source_offset < timestamp_end {
            Foreground::Muted
        } else if kind == OutputKind::Error {
            Foreground::Error
        } else {
            ctx.default_fg
        },
        None => ctx.default_fg,
    };
    let selected = exists|k: int| 0 <= k < snapshot.selection_cells@.len()
        && (#[trigger] snapshot.selection_cells@[k]).0 == ctx.line
        && meets(cell, w, snapshot.selection_cells@[k].1 as int, snapshot.selection_cells@[k].2 as int);
    let mouse_selected = exists|k: int| 0 <= k < mouse.len() && meets(cell, w, (#[trigger] mouse[k]).0 as int, mouse[k].1 as int);
    let in_statement = match statement { Some((s, e)) => meets(cell, w, s as int, e as int), None => false };
    let bg = if mouse_selected {
        Background::MouseSelection
    } else if selected {
        Background::Selection
    } else if in_statement {
        Background::Statement
    } else {
        Background::Surface
    };
    CellStyle { fg, bg, underlined: ctx.semantic }
}

/// Adds a character: it joins the last run when the style is the same.
pub open spec fn merged(runs: Seq<RunView>, c: char, style: CellStyle) -> Seq<RunView> {
    if runs.len() > 0 && runs.last().1 == style {
        runs.update(runs.len() - 1, (runs.last().0.push(c), style))
    } else {
        runs.push((seq![c], style))
    }
}

/// Styles characters `from..k` of the displayed text, starting at `cell`.
pub open spec fn chars_walk(chars: Seq<char>, from: int, k: int, runs: Seq<RunView>, cell: int,
    snapshot: EditorRenderSnapshot, mouse: Seq<(usize, usize)>, statement: Option<(usize, usize)>,
    output: Option<(OutputKind, usize)>, ctx: CellContext) -> (Seq<RunView>, int)
    decreases k - from,
{
    if k <= from {
        (runs, cell)
    } else {
        let (runs, cell) = chars_walk(chars, from, k - 1, runs, cell, snapshot, mouse, statement, output, ctx);
        let c = chars[k - 1];
        let w = char_cells(c) as int;
        let style = style_at(snapshot, mouse, statement, output, ctx, cell, w);
        let next = if cell + w > usize::MAX { usize::MAX as int } else { cell + w };
        (merged(runs, c, style), next)
    }
}

/// The kind of the source character `start..end`: that of the current span when
/// it covers the character and highlighting is on, plain otherwise.
pub open spec fn span_kind(spans: Seq<EditorSpan>, syntax: bool, idx: int, start: int, end: int) -> HighlightKind {
    if syntax && 0 <= idx < spans.len() && spans[idx].source_start <= start && spans[idx].source_end >= end {
        spans[idx].kind
    } else {
        HighlightKind::Plain
    }
}

/// Styles the first `b` source characters of `line`: the runs so far, the
/// display cell reached, and the highlight pointer.
pub open spec fn boundary_walk(line: EditorRenderLine, snapshot: EditorRenderSnapshot, syntax: bool,
    statement: Option<(usize, usize)>, mouse: Seq<(usize, usize)>, output: Option<(OutputKind, usize)>, b: int) -> (Seq<RunView>, int, int)
    decreases b,
{
    if b <= 0 {
        (seq![], 0, 0)
    } else {
        let (runs, cell, idx) = boundary_walk(line, snapshot, syntax, statement, mouse, output, b - 1);
        let bounds = line.source_byte_boundaries@;
        let start = line.source_start + bounds[b - 1];
        let end = line.source_start + bounds[b];
        let idx = advance(line.spans@, idx, start);
        let kind = span_kind(line.spans@, syntax, idx, start, end);
        let semantic = exists|i: int| 0 <= i < snapshot.semantic_diagnostics@.len()
            && #[trigger] overlaps(snapshot.semantic_diagnostics@[i].range, start, end);
        let default_fg = if semantic { Foreground::Error } else if syntax { Foreground::Syntax(color_of(kind)) } else { Foreground::Text };
        let ctx = CellContext { line: line.line, source_offset: bounds[b - 1], default_fg, semantic };
        let chars = line.display_text@;
        let (from, to) = projected(chars, line.source_to_display_bytes@[b - 1] as int, line.source_to_display_bytes@[b] as int);
        let (runs, cell) = chars_walk(chars, from, to, runs, cell, snapshot, mouse, statement, output, ctx);
        (runs, cell, idx)
    }
}

/// The styled runs of a whole line.
pub open spec fn line_runs(line: EditorRenderLine, snapshot: EditorRenderSnapshot, syntax: bool,
    statement: Option<(usize, usize)>, mouse: Seq<(usize, usize)>, output: Option<(OutputKind, usize)>) -> Seq<RunView> {
    let n = line.source_byte_boundaries@.len();
    boundary_walk(line, snapshot, syntax, statement, mouse, output, if n == 0 { 0 } else { n - 1 }).0
}

fn advance_index(spans: &Vec<EditorSpan>, idx: usize, start: usize) -> (r: usize)
    ensures
        r == advance(spans@, idx as int, start as int),
{
    let mut i = idx;
    while spans.len() > 0 && i < spans.len() - 1 && spans[i].source_end <= start
        invariant
            advance(spans@, idx as int, start as int) == advance(spans@, i as int, start as int),
        decreases spans@.len() - i,
    {
        i = i + 1;
    }
    i
}

fn meets_cells(cell: usize, w: usize, start: usize, end: usize) -> (r: bool)
    ensures
        r == meets(cell as int, w as int, start as int, end as int),
{
    cell < end && cell.saturating_add(w) > start
}

fn cell_style(snapshot: &EditorRenderSnapshot, mouse: &[(usize, usize)], statement: Option<(usize, usize)>,
    output: Option<(OutputKind, usize)>, ctx: CellContext, cell: usize, w: usize) -> (s: CellStyle)
    ensures
        s == style_at(*snapshot, mouse@, statement, output, ctx, cell as int, w as int),
{
    let fg = match output {
        Some((kind, timestamp_end)) => if ctx.source_offset < timestamp_end {
            Foreground::Muted
        } else if kind == OutputKind::Error {
            Foreground::Error
        } else {
            ctx.default_fg
        },
        None => ctx.default_fg,
    };
    let mut selected = false;
    let mut k: usize = 0;
    let sel = &snapshot.selection_cells;
    while k < sel.len()
        invariant
            k <= sel@.len(),
            selected == exists|j: int| 0 <= j < k && (#[trigger] sel@[j]).0 == ctx.line
                && meets(cell as int, w as int, sel@[j].1 as int, sel@[j].2 as int),
        decreases sel@.len() - k,
    {
        let (line, start, end) = sel[k];
        if line == ctx.line && meets_cells(cell, w, start, end) {
            selected = true;
        }
        k = k + 1;
    }
    let mut mouse_selected = false;
    let mut m: usize = 0;
    while m < mouse.len()
        invariant
            m <= mouse@.len(),
            mouse_selected == exists|j: int| 0 <= j < m && meets(cell as int, w as int, (#[trigger] mouse@[j]).0 as int, mouse@[j].1 as int),
        decreases mouse@.len() - m,
    {
        let (start, end) = mouse[m];
        if meets_cells(cell, w, start, end) {
            mouse_selected = true;
        }
        m = m + 1;
    }
    let in_statement = match statement {
        Some((s, e)) => meets_cells(cell, w, s, e),
        None => false,
    };
    let bg = if mouse_selected {
        Background::MouseSelection
    } else if selected {
        Background::Selection
    } else if in_statement {
        Background::Statement
    } else {
        Background::Surface
    };
    CellStyle { fg, bg, underlined: ctx.semantic }
}

fn merge_char(runs: &mut Vec<StyledRun>, c: char, style: CellStyle)
    ensures
        runs_view(final(runs)@) == merged(runs_view(old(runs)@), c, style),
{
    let n = runs.len();
    if n > 0 && runs[n - 1].style == style {
        let ghost before = runs@;
        let mut last = runs.pop().unwrap();
        push_char(&mut last.text, c);
        runs.push(last);
        assert(runs_view(runs@) =~= merged(runs_view(before), c, style));
    } else {
        let ghost before = runs@;
        let mut text = String::new();
        push_char(&mut text, c);
        runs.push(StyledRun { text, style });
        assert(runs_view(runs@) =~= merged(runs_view(before), c, style));
    }
}

/// The styled runs of a rendered editor line. `syntax` turns highlighting on;
/// `statement_background_cells` are the cells of the statement under the cursor,
/// `mouse_selection_cells` those of the current mouse drag; `output_style` marks
/// an output line and where its timestamp ends.
pub fn editor_line_spans(line: &EditorRenderLine, snapshot: &EditorRenderSnapshot, syntax: bool,
    statement_background_cells: Option<(usize, usize)>, mouse_selection_cells: &[(usize, usize)],
    output_style: Option<(OutputKind, usize)>) -> (out: Vec<StyledRun>)
    requires
        line.source_to_display_bytes@.len() >= line.source_byte_boundaries@.len(),
        forall|i: int| 0 <= i < line.source_byte_boundaries@.len()
            ==> line.source_start + #[trigger] line.source_byte_boundaries@[i] <= usize::MAX,
    ensures
        runs_view(out@) == line_runs(*line, *snapshot, syntax, statement_background_cells, mouse_selection_cells@, output_style),
{
    let chars = chars_of(line.display_text.as_str());
    let offsets = char_offsets(&chars);
    let bounds = &line.source_byte_boundaries;
    let count = if bounds.len() == 0 { 0 } else { bounds.len() - 1 };
    let mut runs: Vec<StyledRun> = Vec::new();
    let mut cell: usize = 0;
    let mut idx: usize = 0;
    let mut b: usize = 0;
    assert(runs_view(runs@) =~= Seq::<RunView>::empty());
    while b < count
        invariant
            count == (if bounds@.len() == 0 { 0 } else { bounds@.len() - 1 }),
            b <= count,
            bounds == &line.source_byte_boundaries,
            chars@ == line.display_text@,
            offsets@.len() == chars@.len() + 1,
            forall|i: int| 0 <= i <= chars@.len() ==> offsets@[i] == byte_offset(chars@, i),
            line.source_to_display_bytes@.len() >= line.source_byte_boundaries@.len(),
            forall|i: int| 0 <= i < line.source_byte_boundaries@.len()
                ==> line.source_start + #[trigger] line.source_byte_boundaries@[i] <= usize::MAX,
            boundary_walk(*line, *snapshot, syntax, statement_background_cells, mouse_selection_cells@, output_style, b as int)
                == (runs_view(runs@), cell as int, idx as int),
        decreases count - b,
    {
        let start = line.source_start + bounds[b];
        let end = line.source_start + bounds[b + 1];
        idx = advance_index(&line.spans, idx, start);
        let kind = if syntax && idx < line.spans.len() && line.spans[idx].source_start <= start && line.spans[idx].source_end >= end {
            line.spans[idx].kind
        } else {
            HighlightKind::Plain
        };
        let semantic = diagnostic_covers_source(snapshot.semantic_diagnostics.as_slice(), start, end);
        let default_fg = if semantic {
            Foreground::Error
        } else if syntax {
            Foreground::Syntax(syntax_color(kind))
        } else {
            Foreground::Text
        };
        let ctx = CellContext { line: line.line, source_offset: bounds[b], default_fg, semantic };
        let from_byte = line.source_to_display_bytes[b];
        let to_byte = line.source_to_display_bytes[b + 1];
        let (from, to) = match (find_char(&offsets, Ghost(chars@), from_byte), find_char(&offsets, Ghost(chars@), to_byte)) {
            (Some(a), Some(z)) => if a <= z { (a, z) } else { (0, 0) },
            _ => (0, 0),
        };
        proof {
            lemma_find_offset_bound(chars@, from_byte as int, 0);
            lemma_find_offset_bound(chars@, to_byte as int, 0);
        }
        let ghost runs0 = runs_view(runs@);
        let ghost cell0 = cell as int;
        let mut k = from;
        while k < to
            invariant
                from <= k <= to <= chars@.len(),
                chars@ == line.display_text@,
                chars_walk(chars@, from as int, k as int, runs0, cell0, *snapshot, mouse_selection_cells@,
                    statement_background_cells, output_style, ctx) == (runs_view(runs@), cell as int),
            decreases to - k,
        {
            let c = chars[k];
            let w = cells_of_char(c);
            let style = cell_style(snapshot, mouse_selection_cells, statement_background_cells, output_style, ctx, cell, w);
            merge_char(&mut runs, c, style);
            cell = cell.saturating_add(w);
            k = k + 1;
        }
        b = b + 1;
    }
    runs
}

} // verus!
