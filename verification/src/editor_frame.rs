//! The SQL editor's frame: the line-number gutter, the execution target's
//! label, the transaction label, and the title bar with the segments that fit
//! and the click regions of the target and the transaction menu.
use vstd::prelude::*;
use crate::cells::{cell_width, ratatui_cell_width, single_control};
use crate::geometry::{Rect, sat_add, sat_sub, spec_bordered_inner};
use crate::hits::HitRegion;
use crate::text::{owned, push_str, push_decimal, decimal, lemma_decimal_u64};

verus! {

broadcast use vstd::string::group_string_axioms;

/// Digits of `n` in decimal.
pub open spec fn digit_count(n: nat) -> nat {
    decimal(n).len()
}

/// The gutter's width: the line numbers (at least two digits wide), a space
/// before and after them, the statement bar and a space.
pub open spec fn gutter_width(line_count: Option<usize>) -> nat {
    let digits = match line_count {
        Some(n) => if digit_count(n as nat) < 2 { 2 } else { digit_count(n as nat) },
        None => 2,
    };
    digits + 4
}

fn decimal_len(n: usize) -> (k: usize)
    ensures
        k == digit_count(n as nat),
        1 <= k <= 20,
    decreases n,
{
    proof { lemma_decimal_u64(n as nat); }
    if n < 10 {
        1
    } else {
        let k = decimal_len(n / 10);
        assert(decimal(n as nat) == decimal((n / 10) as nat).push(crate::text::digit_char((n % 10) as nat)));
        k + 1
    }
}

/// The gutter's width for an editor of `line_count` lines.
pub fn editor_gutter(line_count: Option<usize>) -> (w: usize)
    ensures
        w == gutter_width(line_count),
        6 <= w <= 24,
{
    let digits = match line_count {
        Some(n) => {
            let k = decimal_len(n);
            if k < 2 { 2 } else { k }
        },
        None => 2,
    };
    digits + 4
}

/// The editor's modes.
#[derive(Clone, Copy, Debug, PartialEq, Eq, Structural)]
pub enum EditorModeKind {
    Normal,
    Insert,
    Replace,
    VisualChar,
    VisualLine,
    VisualBlock,
}

pub open spec fn mode_text(mode: EditorModeKind) -> Seq<char> {
    match mode {
        EditorModeKind::Normal => "NORMAL"@,
        EditorModeKind::Insert => "INSERT"@,
        EditorModeKind::Replace => "REPLACE"@,
        EditorModeKind::VisualChar => "VISUAL"@,
        EditorModeKind::VisualLine => "VISUAL LINE"@,
        EditorModeKind::VisualBlock => "VISUAL BLOCK"@,
    }
}

/// The mode's name in the title.
pub fn editor_mode_label(mode: EditorModeKind) -> (s: &'static str)
    ensures
        s@ == mode_text(mode),
{
    match mode {
        EditorModeKind::Normal => "NORMAL",
        EditorModeKind::Insert => "INSERT",
        EditorModeKind::Replace => "REPLACE",
        EditorModeKind::VisualChar => "VISUAL",
        EditorModeKind::VisualLine => "VISUAL LINE",
        EditorModeKind::VisualBlock => "VISUAL BLOCK",
    }
}

/// How a console runs its statements, and where its transaction stands.
#[derive(Clone, Copy, Debug, PartialEq, Eq, Structural)]
pub enum TransactionFacts {
    Auto,
    Manual { active: bool, aborted: bool, unknown: bool },
}

pub open spec fn transaction_text(tx: Option<TransactionFacts>) -> Seq<char> {
    match tx {
        Some(TransactionFacts::Auto) => "TX AUTO"@,
        Some(TransactionFacts::Manual { active, aborted, unknown }) =>
            if active { "TX MANUAL:ACTIVE"@ } else if aborted { "TX ABORTED"@ } else if unknown { "TX UNKNOWN"@ } else { "TX MANUAL:IDLE"@ },
        None => "TX N/A"@,
    }
}

/// The transaction segment's label for the active console (none without one).
pub fn transaction_label(tx: Option<TransactionFacts>) -> (s: &'static str)
    ensures
        s@ == transaction_text(tx),
{
    match tx {
        Some(TransactionFacts::Auto) => "TX AUTO",
        Some(TransactionFacts::Manual { active, aborted, unknown }) =>
            if active { "TX MANUAL:ACTIVE" } else if aborted { "TX ABORTED" } else if unknown { "TX UNKNOWN" } else { "TX MANUAL:IDLE" },
        None => "TX N/A",
    }
}

/// The console's execution target, with its profile's name, and what the
/// connection knows of it.
#[derive(Clone, Debug)]
pub struct TargetFacts {
    pub profile_name: String,
    pub database: String,
    pub schema: Option<String>,
    /// The connection is on this very target and its session is connected.
    pub connected: bool,
    /// A connection to this target is being made.
    pub pending: bool,
    /// The console reports an error for its target.
    pub target_error: bool,
}

/// `[profile] database.schema` followed by the target's state; without a
/// target (or one whose profile is gone) the label asks for one.
pub open spec fn target_text(target: Option<TargetFacts>, active_identity: bool) -> Seq<char> {
    match target {
        Some(t) => {
            let base = "["@ + t.profile_name@ + "] "@ + t.database@
                + (match t.schema { Some(s) => "."@ + s@, None => ""@ });
            base + (if active_identity && t.connected {
                " READY"@
            } else if t.pending {
                " CONNECTING"@
            } else if t.target_error {
                " TARGET ERROR"@
            } else if active_identity {
                " TARGET INACTIVE"@
            } else {
                " OFFLINE"@
            })
        },
        None => if active_identity { "TARGET REQUIRED"@ } else { "OFFLINE / NO TARGET"@ },
    }
}

/// The execution target's label; `active_identity` says whether a connection
/// is open at all.
pub fn target_label(target: Option<&TargetFacts>, active_identity: bool) -> (s: String)
    ensures
        s@ == target_text(match target { Some(t) => Some(*t), None => None }, active_identity),
{
    match target {
        Some(t) => {
            let mut s = owned("[");
            push_str(&mut s, t.profile_name.as_str());
            push_str(&mut s, "] ");
            push_str(&mut s, t.database.as_str());
            match &t.schema {
                Some(schema) => {
                    push_str(&mut s, ".");
                    push_str(&mut s, schema.as_str());
                },
                None => {},
            }
            let state = if active_identity && t.connected {
                " READY"
            } else if t.pending {
                " CONNECTING"
            } else if t.target_error {
                " TARGET ERROR"
            } else if active_identity {
                " TARGET INACTIVE"
            } else {
                " OFFLINE"
            };
            push_str(&mut s, state);
            proof { reveal_strlit(""); }
            s
        },
        None => owned(if active_identity { "TARGET REQUIRED" } else { "OFFLINE / NO TARGET" }),
    }
}

/// A running, cancelled or failed query (an idle one shows nothing).
#[derive(Clone, Copy, Debug, PartialEq, Eq, Structural)]
pub enum QueryState {
    Running,
    Cancelled,
    Failed,
}

pub open spec fn query_text(q: QueryState) -> Seq<char> {
    match q {
        QueryState::Running => "QUERY RUNNING"@,
        QueryState::Cancelled => "QUERY CANCELLED"@,
        QueryState::Failed => "QUERY ERROR"@,
    }
}

/// What a segment of the title's right side shows.
#[derive(Clone, Copy, Debug, PartialEq, Eq, Structural)]
pub enum SegmentKind {
    Query(QueryState),
    Diagnostics,
    Target,
    Transaction,
}

/// One segment of the title's right side.
#[derive(Clone, Debug)]
pub struct TitleSegment {
    pub text: String,
    pub kind: SegmentKind,
}

/// What a click on the editor's title reaches.
#[derive(Clone, Copy, Debug, PartialEq, Eq, Structural)]
pub enum EditorTitleTarget {
    TransactionMenu,
    ExecutionTarget,
}

/// The editor's title: the left part, the segments on the right (query state,
/// diagnostics, target when it fits, transaction) and their click regions.
#[derive(Clone, Debug)]
pub struct EditorTitle {
    pub left: String,
    pub context: Vec<TitleSegment>,
    pub hits: Vec<HitRegion<EditorTitleTarget>>,
}

pub open spec fn padded(s: Seq<char>) -> Seq<char> {
    " "@ + s + " "@
}

pub open spec fn diagnostics_text(n: nat) -> Seq<char> {
    if n > 0 { " DIAGNOSTICS "@ + decimal(n) + " "@ } else { ""@ }
}

pub open spec fn full_title(mode: EditorModeKind) -> Seq<char> {
    " SQL EDITOR  "@ + mode_text(mode) + " "@
}

pub open spec fn query_width(query: Option<QueryState>) -> u16 {
    match query {
        Some(q) => ratatui_cell_width(padded(query_text(q))),
        None => 0,
    }
}

/// The title's left part: with the mode when it fits beside the query state,
/// the diagnostics and the transaction in the border's width, else without.
pub open spec fn title_left(width: u16, mode: EditorModeKind, query: Option<QueryState>, diagnostics: nat, tx: Seq<char>) -> Seq<char> {
    let available = sat_sub(width, 2);
    let context = sat_add(sat_add(query_width(query), ratatui_cell_width(diagnostics_text(diagnostics))), ratatui_cell_width(padded(tx)));
    if sat_add(ratatui_cell_width(full_title(mode)), context) <= available { full_title(mode) } else { " SQL EDITOR "@ }
}

/// The target is shown when it fits beside the left part, the query state and
/// the transaction (the diagnostics may overlap it).
pub open spec fn shows_target(width: u16, mode: EditorModeKind, query: Option<QueryState>, diagnostics: nat, target: Seq<char>, tx: Seq<char>) -> bool {
    let available = sat_sub(width, 2);
    let required = sat_add(sat_add(ratatui_cell_width(title_left(width, mode, query, diagnostics, tx)), query_width(query)), ratatui_cell_width(padded(tx)));
    sat_add(required, ratatui_cell_width(padded(target))) <= available
}

pub open spec fn context_view(segments: Seq<TitleSegment>) -> Seq<(Seq<char>, SegmentKind)> {
    Seq::new(segments.len(), |i: int| (segments[i].text@, segments[i].kind))
}

pub open spec fn title_context(query: Option<QueryState>, diagnostics: nat, target: Seq<char>, tx: Seq<char>, show: bool) -> Seq<(Seq<char>, SegmentKind)> {
    (match query { Some(q) => seq![(padded(query_text(q)), SegmentKind::Query(q))], None => seq![] })
        + (if diagnostics > 0 { seq![(diagnostics_text(diagnostics), SegmentKind::Diagnostics)] } else { seq![] })
        + (if show { seq![(padded(target), SegmentKind::Target)] } else { seq![] })
        + seq![(padded(tx), SegmentKind::Transaction)]
}

/// The transaction segment ends a cell left of the border's right corner; the
/// target segment stands just left of it.
pub open spec fn title_hits(area: Rect, target: Seq<char>, tx: Seq<char>, show: bool) -> Seq<HitRegion<EditorTitleTarget>> {
    let tw = ratatui_cell_width(padded(tx));
    let tx_x = sat_sub(sat_sub(area.spec_right(), 1), tw);
    let gw = ratatui_cell_width(padded(target));
    seq![HitRegion { area: Rect::spec_new(tx_x, area.y, tw, 1), target: EditorTitleTarget::TransactionMenu }]
        + (if show { seq![HitRegion { area: Rect::spec_new(sat_sub(tx_x, gw), area.y, gw, 1), target: EditorTitleTarget::ExecutionTarget }] } else { seq![] })
}

fn padded_string(s: &str) -> (out: String)
    ensures
        out@ == padded(s@),
{
    let mut out = owned(" ");
    push_str(&mut out, s);
    push_str(&mut out, " ");
    out
}

fn width_of(s: &str) -> (w: u16)
    requires
        s@.len() != 1,
    ensures
        w == ratatui_cell_width(s@),
{
    cell_width(s)
}

fn query_segment_text(q: QueryState) -> (s: String)
    ensures
        s@ == padded(query_text(q)),
{
    padded_string(match q {
        QueryState::Running => "QUERY RUNNING",
        QueryState::Cancelled => "QUERY CANCELLED",
        QueryState::Failed => "QUERY ERROR",
    })
}

fn diagnostics_segment(diagnostics: usize) -> (s: String)
    ensures
        s@ == diagnostics_text(diagnostics as nat),
{
    proof { reveal_strlit(""); }
    if diagnostics > 0 {
        let mut d = owned(" DIAGNOSTICS ");
        push_decimal(&mut d, diagnostics as u64);
        push_str(&mut d, " ");
        d
    } else {
        String::new()
    }
}

fn context_segments(query: Option<QueryState>, diagnostics: usize, target: &str, transaction: &str, show: bool) -> (out: Vec<TitleSegment>)
    ensures
        context_view(out@) == title_context(query, diagnostics as nat, target@, transaction@, show),
{
    let mut context: Vec<TitleSegment> = Vec::new();
    match query {
        Some(q) => context.push(TitleSegment { text: query_segment_text(q), kind: SegmentKind::Query(q) }),
        None => {},
    }
    if diagnostics > 0 {
        context.push(TitleSegment { text: diagnostics_segment(diagnostics), kind: SegmentKind::Diagnostics });
    }
    if show {
        context.push(TitleSegment { text: padded_string(target), kind: SegmentKind::Target });
    }
    context.push(TitleSegment { text: padded_string(transaction), kind: SegmentKind::Transaction });
    assert(context_view(context@) =~= title_context(query, diagnostics as nat, target@, transaction@, show));
    context
}

fn title_regions(area: Rect, target: &str, transaction: &str, tx_width: u16, target_width: u16, show: bool) -> (hits: Vec<HitRegion<EditorTitleTarget>>)
    requires
        tx_width == ratatui_cell_width(padded(transaction@)),
        target_width == ratatui_cell_width(padded(target@)),
    ensures
        hits@ == title_hits(area, target@, transaction@, show),
{
    let transaction_x = area.right().saturating_sub(1).saturating_sub(tx_width);
    let mut hits: Vec<HitRegion<EditorTitleTarget>> = Vec::new();
    hits.push(HitRegion { area: Rect::new(transaction_x, area.y, tx_width, 1), target: EditorTitleTarget::TransactionMenu });
    if show {
        hits.push(HitRegion { area: Rect::new(transaction_x.saturating_sub(target_width), area.y, target_width, 1), target: EditorTitleTarget::ExecutionTarget });
    }
    assert(hits@ =~= title_hits(area, target@, transaction@, show));
    hits
}

/// Lays out the title of an editor whose frame is `area`.
pub fn editor_title(area: Rect, mode: EditorModeKind, query: Option<QueryState>, diagnostics: usize, target: &str, transaction: &str) -> (t: EditorTitle)
    ensures
        t.left@ == title_left(area.width, mode, query, diagnostics as nat, transaction@),
        context_view(t.context@) == title_context(query, diagnostics as nat, target@, transaction@,
            shows_target(area.width, mode, query, diagnostics as nat, target@, transaction@)),
        t.hits@ == title_hits(area, target@, transaction@,
            shows_target(area.width, mode, query, diagnostics as nat, target@, transaction@)),
{
    let mut full = owned(" SQL EDITOR  ");
    push_str(&mut full, editor_mode_label(mode));
    push_str(&mut full, " ");
    let query_segment: Option<String> = match query {
        Some(q) => Some(query_segment_text(q)),
        None => None,
    };
    let diagnostic_segment = diagnostics_segment(diagnostics);
    let transaction_segment = padded_string(transaction);
    let target_segment = padded_string(target);
    proof {
        reveal_strlit("");
        reveal_strlit(" ");
        reveal_strlit(" SQL EDITOR  ");
        reveal_strlit(" SQL EDITOR ");
        assert(full@ == full_title(mode));
    }
    let qw: u16 = match &query_segment {
        Some(q) => width_of(q.as_str()),
        None => 0,
    };
    assert(qw == query_width(query));
    let available = area.width.saturating_sub(2);
    let tx_width = width_of(transaction_segment.as_str());
    let context_width = qw.saturating_add(width_of(diagnostic_segment.as_str())).saturating_add(tx_width);
    let left = if width_of(full.as_str()).saturating_add(context_width) <= available {
        full
    } else {
        owned(" SQL EDITOR ")
    };
    let required = width_of(left.as_str()).saturating_add(qw).saturating_add(tx_width);
    let target_width = width_of(target_segment.as_str());
    let show = required.saturating_add(target_width) <= available;
    let context = context_segments(query, diagnostics, target, transaction, show);
    let hits = title_regions(area, target, transaction, tx_width, target_width, show);
    EditorTitle { left, context, hits }
}

/// Where the editor's parts go.
#[derive(Clone, Copy, Debug, PartialEq, Eq, Structural)]
pub struct EditorAreas {
    pub inner: Rect,
    pub gutter: usize,
    pub has_horizontal_scrollbar: bool,
    /// Rows of text shown: all but the prompt's and the scrollbar's, at least one.
    pub viewport_height: usize,
    /// The text rows, gutter included.
    pub text_area: Rect,
    /// The text right of the gutter.
    pub text_viewport: Rect,
    pub horizontal_track: Option<Rect>,
    /// The prompt's row, when a prompt is open.
    pub prompt_row: Option<Rect>,
}

/// The text's width: the inside of the frame less the gutter.
pub open spec fn text_width(inner: Rect, gutter: nat) -> u16 {
    sat_sub(inner.width, gutter as u16)
}

pub open spec fn spec_editor_areas(area: Rect, line_count: Option<usize>, max_line_width: usize, has_prompt: bool) -> EditorAreas {
    let inner = spec_bordered_inner(area);
    let gutter = gutter_width(line_count);
    let tw = text_width(inner, gutter);
    let has_h = max_line_width > (if tw < 1 { 1 } else { tw });
    let footer = (if has_prompt { 1int } else { 0int }) + (if has_h { 1int } else { 0int });
    let rest = if inner.height < footer { 0 } else { inner.height - footer };
    let vh = if rest < 1 { 1 } else { rest };
    EditorAreas {
        inner,
        gutter: gutter as usize,
        has_horizontal_scrollbar: has_h,
        viewport_height: vh as usize,
        text_area: Rect::spec_new(inner.x, inner.y, inner.width, vh as u16),
        text_viewport: Rect::spec_new(sat_add(inner.x, gutter as u16), inner.y, tw, vh as u16),
        horizontal_track: if has_h {
            Some(Rect::spec_new(sat_add(inner.x, 1), sat_sub(inner.spec_bottom(), 1), sat_sub(inner.width, 2), 1))
        } else {
            None
        },
        prompt_row: if has_prompt {
            Some(Rect::spec_new(inner.x, sat_sub(sat_sub(inner.spec_bottom(), if has_h { 1 } else { 0 }), 1), inner.width, 1))
        } else {
            None
        },
    }
}

/// Lays out an editor framed by `area` with `line_count` lines (when known),
/// whose widest line is `max_line_width` cells, with or without an open prompt.
pub fn editor_areas(area: Rect, line_count: Option<usize>, max_line_width: usize, has_prompt: bool) -> (a: EditorAreas)
    ensures
        a == spec_editor_areas(area, line_count, max_line_width, has_prompt),
{
    let inner = crate::geometry::bordered_inner(area);
    let gutter = editor_gutter(line_count);
    let tw: u16 = inner.width.saturating_sub(gutter as u16);
    let has_h = max_line_width > (if tw < 1 { 1 } else { tw as usize });
    let footer: u16 = (if has_prompt { 1 } else { 0 }) + (if has_h { 1 } else { 0 });
    let rest: u16 = inner.height.saturating_sub(footer);
    let vh: u16 = if rest < 1 { 1 } else { rest };
    let horizontal_track = if has_h {
        Some(Rect::new(inner.x.saturating_add(1), inner.bottom().saturating_sub(1), inner.width.saturating_sub(2), 1))
    } else {
        None
    };
    let prompt_row = if has_prompt {
        Some(Rect::new(inner.x, inner.bottom().saturating_sub(if has_h { 1 } else { 0 }).saturating_sub(1), inner.width, 1))
    } else {
        None
    };
    EditorAreas {
        inner,
        gutter,
        has_horizontal_scrollbar: has_h,
        viewport_height: vh as usize,
        text_area: Rect::new(inner.x, inner.y, inner.width, vh),
        text_viewport: Rect::new(inner.x.saturating_add(gutter as u16), inner.y, tw, vh),
        horizontal_track,
        prompt_row,
    }
}

/// The terminal cursor for the text cursor at `cell` of the text viewport:
/// kept left of the frame's right edge, and hidden below the frame.
pub open spec fn spec_editor_cursor(a: EditorAreas, cell: (u16, u16)) -> Option<(u16, u16)> {
    let x = sat_add(sat_add(a.inner.x, a.gutter as u16), cell.0);
    let limit = sat_sub(a.inner.spec_right(), 1);
    let y = sat_add(a.inner.y, cell.1);
    if y < a.inner.spec_bottom() { Some((if x < limit { x } else { limit }, y)) } else { None }
}

/// Where the terminal cursor goes for the text cursor at `cell`.
pub fn editor_cursor(a: EditorAreas, cell: (u16, u16)) -> (p: Option<(u16, u16)>)
    ensures
        p == spec_editor_cursor(a, cell),
{
    let x = a.inner.x.saturating_add(a.gutter as u16).saturating_add(cell.0);
    let limit = a.inner.right().saturating_sub(1);
    let y = a.inner.y.saturating_add(cell.1);
    if y < a.inner.bottom() { Some((if x < limit { x } else { limit }, y)) } else { None }
}

/// `n` spaces.
pub open spec fn spaces(n: nat) -> Seq<char> {
    Seq::new(n, |i: int| ' ')
}

/// A line's number in the gutter: one-based, right-aligned in `width`
/// columns, with a space on each side.
pub open spec fn gutter_number(line: nat, width: nat) -> Seq<char> {
    let digits = decimal(line + 1);
    " "@ + (if digits.len() < width { spaces((width - digits.len()) as nat) } else { seq![] }) + digits + " "@
}

/// The gutter's number for line `line` (counted from zero).
pub fn gutter_number_text(line: usize, width: usize) -> (s: String)
    requires
        line < usize::MAX,
    ensures
        s@ == gutter_number(line as nat, width as nat),
{
    let digits = crate::text::decimal_string((line + 1) as u64);
    let mut s = owned(" ");
    let mut pad: usize = 0;
    let count = decimal_len(line + 1);
    let missing: usize = if count < width { width - count } else { 0 };
    while pad < missing
        invariant
            pad <= missing,
            s@ == " "@ + spaces(pad as nat),
        decreases missing - pad,
    {
        crate::text::push_char(&mut s, ' ');
        pad = pad + 1;
        assert(s@ =~= " "@ + spaces(pad as nat));
    }
    push_str(&mut s, digits.as_str());
    push_str(&mut s, " ");
    proof {
        reveal_strlit(" ");
        if count >= width {
            assert(spaces(0) =~= seq![]);
        }
    }
    s
}

/// The mark between the gutter and the text: a heavy bar, in the accent
/// colour when the editor has the focus, beside the statement under the
/// cursor in the normal, insert and replace modes; a light bar elsewhere.
pub fn statement_mark(current_statement: bool, mode: EditorModeKind, focused: bool) -> (r: (&'static str, bool))
    ensures
        (current_statement && (mode == EditorModeKind::Normal || mode == EditorModeKind::Insert || mode == EditorModeKind::Replace))
            ==> r.0@ == "┃"@ && r.1 == focused,
        !(current_statement && (mode == EditorModeKind::Normal || mode == EditorModeKind::Insert || mode == EditorModeKind::Replace))
            ==> r.0@ == "│"@ && !r.1,
{
    let editing = match mode {
        EditorModeKind::Normal | EditorModeKind::Insert | EditorModeKind::Replace => true,
        _ => false,
    };
    if current_statement && editing { ("┃", focused) } else { ("│", false) }
}

} // verus!
