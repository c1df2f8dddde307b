//! The Redis browser's panes: the key list with its find line, its status
//! line, the window of keys shown and its scrollbar, and the preview's format
//! and wrap controls with their click regions.
use vstd::prelude::*;
use crate::cells::{cell_width, ratatui_cell_width, single_control, printable_ascii};
use crate::geometry::{Rect, sat_add, sat_sub, spec_bordered_inner, bordered_inner};
use crate::panes::{quad, row_split, split_rows};
use crate::hits::HitRegion;
use crate::redis_browser::{KeyspaceStatus, empty_caption, keyspace_empty_text};
use crate::scrollbar::{ScrollbarGeometry, geometry, scrollbar};
use crate::text::{owned, push_str};

verus! {

broadcast use vstd::string::group_string_axioms;

/// Whether the key find line is being typed or has been confirmed.
#[derive(Clone, Copy, Debug, PartialEq, Eq, Structural)]
pub enum FindPhase {
    Editing,
    Confirmed,
}

/// The key list's open find: its query, phase and how many keys match.
#[derive(Clone, Debug)]
pub struct KeysFind {
    pub query: String,
    pub phase: FindPhase,
    pub matches: usize,
}

/// What a click in the Redis browser's panes reaches.
#[derive(Clone, Copy, Debug, PartialEq, Eq, Structural)]
pub enum RedisPaneTarget {
    FindInput,
    PreviewFocus,
    PreviewFormat,
    PreviewWrap,
}

/// The key list's layout.
#[derive(Clone, Debug)]
pub struct KeysPane {
    /// The line under the keys, and how many rows it takes.
    pub status: Option<String>,
    pub status_rows: u16,
    pub footer: Option<Rect>,
    /// The rows that show keys.
    pub row_area: Rect,
    /// The keys shown: the first one's index and how many.
    pub first: usize,
    pub shown: usize,
    pub track: Rect,
    pub scrollbar: Option<ScrollbarGeometry>,
    /// The find line's text and row.
    pub find_line: Option<(String, Rect)>,
    pub cursor: Option<(u16, u16)>,
    pub hits: Vec<HitRegion<RedisPaneTarget>>,
}

/// The status line under the keys: a confirmed find without matches says so;
/// an empty list says why; otherwise a partial, failed, paused or stale scan
/// says what to do.
pub open spec fn keys_status(status: KeyspaceStatus, rows: nat, find: Option<KeysFind>) -> Option<Seq<char>> {
    if find matches Some(f) && f.phase == FindPhase::Confirmed && f.matches == 0 {
        Some("No matching loaded keys"@)
    } else if rows == 0 {
        Some(empty_caption(status))
    } else {
        match status {
            KeyspaceStatus::Partial => Some("Continue scanning: press r"@),
            KeyspaceStatus::Failed(message) => Some(message@ + " - r=Retry"@),
            KeyspaceStatus::Paused { .. } => Some("Scan paused at client cache limit"@),
            KeyspaceStatus::Stale => Some("Showing stale keys; press r to refresh"@),
            _ => None,
        }
    }
}

/// Rows the status line takes: two for a failed scan.
pub open spec fn status_rows(status: KeyspaceStatus, shown: bool) -> u16 {
    if status is Failed { 2 } else if shown { 1 } else { 0 }
}

pub open spec fn string_opt(s: Option<String>) -> Option<Seq<char>> {
    match s {
        Some(t) => Some(t@),
        None => None,
    }
}

pub open spec fn find_prefix(phase: FindPhase) -> Seq<char> {
    if phase == FindPhase::Editing { "/ "@ } else { "? "@ }
}

fn status_text(status: &KeyspaceStatus, rows: usize, find: Option<&KeysFind>) -> (s: Option<String>)
    ensures
        string_opt(s) == keys_status(*status, rows as nat, match find { Some(f) => Some(*f), None => None }),
{
    let unmatched = match find {
        Some(f) => f.phase == FindPhase::Confirmed && f.matches == 0,
        None => false,
    };
    if unmatched {
        Some(owned("No matching loaded keys"))
    } else if rows == 0 {
        Some(keyspace_empty_text(status))
    } else {
        match status {
            KeyspaceStatus::Partial => Some(owned("Continue scanning: press r")),
            KeyspaceStatus::Failed(message) => {
                let mut out = owned(message.as_str());
                push_str(&mut out, " - r=Retry");
                Some(out)
            },
            KeyspaceStatus::Paused { .. } => Some(owned("Scan paused at client cache limit")),
            KeyspaceStatus::Stale => Some(owned("Showing stale keys; press r to refresh")),
            _ => None,
        }
    }
}

/// The key list inside `keys` (the inside of its frame), with `rows` keys
/// loaded and shown from `scroll` on.
pub fn keys_pane(keys: Rect, status: &KeyspaceStatus, rows: usize, scroll: usize, find: Option<&KeysFind>) -> (p: KeysPane)
    requires
        match find { Some(f) => f.phase == FindPhase::Editing ==> !single_control(f.query@), None => true },
    ensures
        ({
            let fv = match find { Some(f) => Some(*f), None => None };
            let text = keys_status(*status, rows as nat, fv);
            let sr = status_rows(*status, text is Some);
            let search: u16 = if find is Some { 1 } else { 0 };
            let row_area = Rect::spec_new(keys.x, sat_add(keys.y, search), keys.width, sat_sub(keys.height, (sr + search) as u16));
            &&& string_opt(p.status) == text
            &&& p.status_rows == sr
            &&& p.footer == (if text is Some { Some(Rect::spec_new(keys.x, sat_sub(keys.spec_bottom(), sr), keys.width, sr)) } else { None })
            &&& p.row_area == row_area
            &&& p.first == scroll
            &&& p.shown == (if rows <= scroll { 0 } else if rows - scroll < row_area.height { rows - scroll } else { row_area.height as int })
            &&& p.track == Rect::spec_new(sat_sub(keys.spec_right(), 1), row_area.y, 1, row_area.height)
            &&& p.scrollbar == scrollbar(p.track, row_area.height as int, rows as int, scroll as int)
        }),
        match find {
            Some(f) => {
                let search_area = Rect::spec_new(keys.x, keys.y, keys.width, 1);
                &&& p.find_line matches Some((line, r)) && line@ == find_prefix(f.phase) + f.query@ && r == search_area
                &&& p.hits@ == seq![HitRegion { area: search_area, target: RedisPaneTarget::FindInput }]
                &&& p.cursor == (if f.phase == FindPhase::Editing {
                    let qw = ratatui_cell_width(f.query@);
                    let room = sat_sub(search_area.width, 2);
                    let x = sat_add(search_area.x, (2 + (if qw < room { qw } else { room })) as u16);
                    let limit = sat_sub(search_area.spec_right(), 1);
                    Some((if x < limit { x } else { limit }, search_area.y))
                } else {
                    None
                })
            },
            None => p.find_line is None && p.hits@.len() == 0 && p.cursor is None,
        },
{
    let text = status_text(status, rows, find);
    let is_failed = match status {
        KeyspaceStatus::Failed(_) => true,
        _ => false,
    };
    let sr: u16 = if is_failed { 2 } else if text.is_some() { 1 } else { 0 };
    let search: u16 = if find.is_some() { 1 } else { 0 };
    let row_area = Rect::new(keys.x, keys.y.saturating_add(search), keys.width, keys.height.saturating_sub(sr + search));
    let height = row_area.height as usize;
    let shown: usize = if rows <= scroll { 0 } else if rows - scroll < height { rows - scroll } else { height };
    let track = Rect::new(keys.right().saturating_sub(1), row_area.y, 1, row_area.height);
    let footer = if text.is_some() {
        Some(Rect::new(keys.x, keys.bottom().saturating_sub(sr), keys.width, sr))
    } else {
        None
    };
    let bar = geometry(track, height, rows, scroll);
    let mut hits: Vec<HitRegion<RedisPaneTarget>> = Vec::new();
    let mut find_line: Option<(String, Rect)> = None;
    let mut cursor: Option<(u16, u16)> = None;
    match find {
        Some(f) => {
            let search_area = Rect::new(keys.x, keys.y, keys.width, 1);
            hits.push(HitRegion { area: search_area, target: RedisPaneTarget::FindInput });
            let editing = f.phase == FindPhase::Editing;
            let mut line = owned(if editing { "/ " } else { "? " });
            push_str(&mut line, f.query.as_str());
            find_line = Some((line, search_area));
            if editing {
                let qw = cell_width(f.query.as_str());
                let room = search_area.width.saturating_sub(2);
                let x = search_area.x.saturating_add(2 + if qw < room { qw } else { room });
                let limit = search_area.right().saturating_sub(1);
                cursor = Some((if x < limit { x } else { limit }, search_area.y));
            }
        },
        None => {},
    }
    KeysPane { status: text, status_rows: sr, footer, row_area, first: scroll, shown, track, scrollbar: bar, find_line, cursor, hits }
}

/// The value preview's layout.
#[derive(Clone, Debug)]
pub struct PreviewPane {
    /// The key's header (empty when the pane is under three rows) and the
    /// framed value below it.
    pub header: Rect,
    pub value_outer: Rect,
    pub value_inner: Rect,
    /// The format control's text, and the wrap control's (empty in table view).
    pub format_label: String,
    pub wrap_label: &'static str,
    /// The format and wrap controls on the frame's top edge, when they fit.
    pub controls: Option<(Rect, Rect)>,
    pub hits: Vec<HitRegion<RedisPaneTarget>>,
}

pub open spec fn rect_of(q: (u16, u16, u16, u16)) -> Rect {
    Rect { x: q.0, y: q.1, width: q.2, height: q.3 }
}

/// The header's two rows over the value, when the pane has three rows or more.
pub open spec fn preview_split(preview: Rect) -> (Rect, Rect) {
    if preview.height >= 3 {
        let parts = row_split(quad(preview), seq![(false, 2u16), (true, 1u16)]);
        (rect_of(parts[0]), rect_of(parts[1]))
    } else {
        (Rect { x: 0, y: 0, width: 0, height: 0 }, preview)
    }
}

pub open spec fn format_text(label: Seq<char>) -> Seq<char> {
    " f:"@ + label + " ▾ "@
}

pub open spec fn wrap_text(table_view: bool, wrap: bool) -> Seq<char> {
    if table_view { ""@ } else if wrap { " W:Wrap ON "@ } else { " W:Wrap OFF "@ }
}

fn wrap_width(table_view: bool, wrap: bool) -> (out: (&'static str, u16))
    ensures
        out.0@ == wrap_text(table_view, wrap),
        out.1 == wrap_text(table_view, wrap).len(),
{
    let label = if table_view { "" } else if wrap { " W:Wrap ON " } else { " W:Wrap OFF " };
    proof {
        reveal_strlit("");
        reveal_strlit(" W:Wrap ON ");
        reveal_strlit(" W:Wrap OFF ");
        assert(printable_ascii(label@));
    }
    (label, cell_width(label))
}

/// Lays out the value preview over `preview`, with the format control naming
/// `format_label` and the wrap control in its state (none in table view).
/// `None` when the two controls' widths and their margin overflow a `u16`.
pub fn preview_pane(preview: Rect, format_label: &str, table_view: bool, wrap: bool) -> (p: Option<PreviewPane>)
    ensures
        ({
            let fw = ratatui_cell_width(format_text(format_label@)) as int;
            let ww = wrap_text(table_view, wrap).len() as int;
            &&& p is None <==> fw + ww + 10 > u16::MAX
            &&& p matches Some(v) ==> {
                let (header, outer) = preview_split(preview);
                let fits = outer.width > fw + ww + 10;
                let format_area = Rect::spec_new(sat_sub(outer.spec_right(), (fw + 1) as u16), outer.y, fw as u16, 1);
                let wrap_area = Rect::spec_new(sat_sub(format_area.x, ww as u16), outer.y, ww as u16, 1);
                &&& v.header == header
                &&& v.value_outer == outer
                &&& v.value_inner == spec_bordered_inner(outer)
                &&& v.format_label@ == format_text(format_label@)
                &&& v.wrap_label@ == wrap_text(table_view, wrap)
                &&& v.controls == (if fits { Some((format_area, wrap_area)) } else { None })
                &&& v.hits@ == seq![HitRegion { area: outer, target: RedisPaneTarget::PreviewFocus }]
                    + (if fits { seq![
                        HitRegion { area: format_area, target: RedisPaneTarget::PreviewFormat },
                        HitRegion { area: wrap_area, target: RedisPaneTarget::PreviewWrap },
                    ] } else { seq![] })
            }
        }),
{
    let mut label = owned(" f:");
    push_str(&mut label, format_label);
    push_str(&mut label, " ▾ ");
    proof {
        reveal_strlit(" f:");
        reveal_strlit(" ▾ ");
    }
    let fw = cell_width(label.as_str());
    let (wrap_label, ww) = wrap_width(table_view, wrap);
    if fw as u32 + ww as u32 + 10 > 65535 {
        return None;
    }
    let (header, outer) = if preview.height >= 3 {
        let mut rows: Vec<(bool, u16)> = Vec::new();
        rows.push((false, 2));
        rows.push((true, 1));
        let parts = split_rows(preview, rows.as_slice());
        proof {
            assert(rows@ =~= seq![(false, 2u16), (true, 1u16)]);
            assert(quad(parts@[0]) == row_split(quad(preview), rows@)[0]);
            assert(quad(parts@[1]) == row_split(quad(preview), rows@)[1]);
        }
        (parts[0], parts[1])
    } else {
        (Rect::zero(), preview)
    };
    let inner = bordered_inner(outer);
    let mut hits: Vec<HitRegion<RedisPaneTarget>> = Vec::new();
    hits.push(HitRegion { area: outer, target: RedisPaneTarget::PreviewFocus });
    let controls = if outer.width > fw + ww + 10 {
        let format_area = Rect::new(outer.right().saturating_sub(fw + 1), outer.y, fw, 1);
        let wrap_area = Rect::new(format_area.x.saturating_sub(ww), outer.y, ww, 1);
        hits.push(HitRegion { area: format_area, target: RedisPaneTarget::PreviewFormat });
        hits.push(HitRegion { area: wrap_area, target: RedisPaneTarget::PreviewWrap });
        Some((format_area, wrap_area))
    } else {
        None
    };
    Some(PreviewPane { header, value_outer: outer, value_inner: inner, format_label: label, wrap_label, controls, hits })
}

} // verus!
