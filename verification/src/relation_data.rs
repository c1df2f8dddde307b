//! The relation data panel: what its state line says for each load state,
//! how its rows are cut, the snapshot footer and its detail text, and which
//! areas take clicks.
use vstd::prelude::*;
use crate::geometry::{Rect, sat_add, sat_sub, spec_bordered_inner, bordered_inner};
use crate::hits::HitRegion;
use crate::panes::{quad, row_split, split_rows};
use crate::text::{owned, push_str, push_decimal, decimal};

verus! {

broadcast use vstd::string::group_string_axioms;

/// Where loading the relation's data stands, and whether an earlier snapshot
/// is still there to show.
#[derive(Clone, Debug)]
pub enum RelationLoadFacts {
    Ready,
    Loading { has_previous: bool },
    Failed { message: String, has_previous: bool },
    Cancelled { has_previous: bool },
    Empty,
}

/// The state line: its message, whether it offers a retry, and whether the
/// load can be cancelled.
#[derive(Clone, Debug)]
pub struct DataStatus {
    pub message: String,
    pub retry: bool,
    pub cancel: bool,
}

/// A snapshot is shown: the data is ready, or an earlier one is kept.
pub open spec fn shows_snapshot(load: RelationLoadFacts) -> bool {
    match load {
        RelationLoadFacts::Ready => true,
        RelationLoadFacts::Loading { has_previous } => has_previous,
        RelationLoadFacts::Failed { has_previous, .. } => has_previous,
        RelationLoadFacts::Cancelled { has_previous } => has_previous,
        RelationLoadFacts::Empty => false,
    }
}

/// The state line for each load state: message, retry, cancel.
pub open spec fn status_of(load: RelationLoadFacts) -> Option<(Seq<char>, bool, bool)> {
    match load {
        RelationLoadFacts::Ready => None,
        RelationLoadFacts::Loading { has_previous } => Some((
            if has_previous { "Refreshing relation data"@ } else { "Loading relation data"@ }, false, true)),
        RelationLoadFacts::Failed { message, .. } => Some((message@, true, false)),
        RelationLoadFacts::Cancelled { .. } => Some(("Cancelled"@, true, false)),
        RelationLoadFacts::Empty => Some(("No relation data"@, false, false)),
    }
}

pub open spec fn status_view(s: Option<DataStatus>) -> Option<(Seq<char>, bool, bool)> {
    match s {
        Some(d) => Some((d.message@, d.retry, d.cancel)),
        None => None,
    }
}

/// Whether the panel shows a snapshot, and its state line.
pub fn relation_data_status(load: &RelationLoadFacts) -> (r: (bool, Option<DataStatus>))
    ensures
        r.0 == shows_snapshot(*load),
        status_view(r.1) == status_of(*load),
{
    match load {
        RelationLoadFacts::Ready => (true, None),
        RelationLoadFacts::Loading { has_previous } => (*has_previous, Some(DataStatus {
            message: owned(if *has_previous { "Refreshing relation data" } else { "Loading relation data" }),
            retry: false,
            cancel: true,
        })),
        RelationLoadFacts::Failed { message, has_previous } => (*has_previous, Some(DataStatus {
            message: message.clone(),
            retry: true,
            cancel: false,
        })),
        RelationLoadFacts::Cancelled { has_previous } => (*has_previous, Some(DataStatus {
            message: owned("Cancelled"),
            retry: true,
            cancel: false,
        })),
        RelationLoadFacts::Empty => (false, Some(DataStatus {
            message: owned("No relation data"),
            retry: false,
            cancel: false,
        })),
    }
}

/// The footer under a snapshot: its SQL, its row count and where it came from.
pub open spec fn footer_text(sql: Seq<char>, rows: nat, provenance: Seq<char>) -> Seq<char> {
    "SQL: "@ + sql + "  "@ + decimal(rows) + " rows  Snapshot: "@ + provenance
}

/// What a click on the footer opens.
pub open spec fn detail_text(sql: Seq<char>, rows: nat, provenance: Seq<char>) -> Seq<char> {
    "SQL: "@ + sql + "\nRows: "@ + decimal(rows) + "\nSnapshot: "@ + provenance
}

/// What a click in the data panel reaches.
#[derive(Clone, Copy, Debug, PartialEq, Eq, Structural)]
pub enum RelationTarget {
    /// The footer: the snapshot's details.
    SnapshotDetail,
    /// The state line's message: its full text.
    StatusDetail,
    Retry,
    /// The cancel button, or the loading view as a whole.
    Cancel,
}

/// The key hint at the end of a state line.
pub open spec fn status_label(retry: bool, cancel: bool) -> Seq<char> {
    if retry { "r  retry"@ } else if cancel { "Ctrl-C  cancel"@ } else { ""@ }
}

/// The state line's text for a (cleaned) message.
pub open spec fn status_line_text(message: Seq<char>, retry: bool, cancel: bool) -> Seq<char> {
    if !retry && !cancel { message } else { message + "  ["@ + status_label(retry, cancel) + "]"@ }
}

/// The message's part of a state line: all of it but the buttons' cells at the
/// right end (ten for retry, fourteen for cancel).
pub open spec fn message_area(area: Rect, retry: bool, cancel: bool) -> Rect {
    let buttons = (if retry { 10int } else { 0int }) + (if cancel { 14int } else { 0int });
    Rect::spec_new(area.x, area.y, sat_sub(area.width, buttons as u16), area.height)
}

/// The state line's click regions: the message (when it has cells), then the
/// retry and the cancel button right of it.
pub open spec fn status_hits(area: Rect, retry: bool, cancel: bool) -> Seq<HitRegion<RelationTarget>> {
    let m = message_area(area, retry, cancel);
    let rw: u16 = if retry { 10 } else { 0 };
    (if m.spec_is_empty() { seq![] } else { seq![HitRegion { area: m, target: RelationTarget::StatusDetail }] })
        + (if retry { seq![HitRegion { area: Rect::spec_new(m.spec_right(), area.y, rw, area.height), target: RelationTarget::Retry }] } else { seq![] })
        + (if cancel { seq![HitRegion { area: Rect::spec_new(sat_add(m.spec_right(), rw), area.y, 14, area.height), target: RelationTarget::Cancel }] } else { seq![] })
}

/// A state line: its text, where the message goes and what takes clicks.
#[derive(Clone, Debug)]
pub struct StatusLine {
    pub text: String,
    pub message_area: Rect,
    pub hits: Vec<HitRegion<RelationTarget>>,
}

/// Lays out a state line over `area` for a message already cleaned for the
/// terminal. The message's detail region never overlaps the retry or the
/// cancel button.
pub fn status_line(area: Rect, message: &str, retry: bool, cancel: bool) -> (s: StatusLine)
    ensures
        s.text@ == status_line_text(message@, retry, cancel),
        s.message_area == message_area(area, retry, cancel),
        s.hits@ == status_hits(area, retry, cancel),
        forall|i: int, j: int| 0 <= i < s.hits@.len() && 0 <= j < s.hits@.len()
            && s.hits@[i].target == RelationTarget::StatusDetail && s.hits@[j].target != RelationTarget::StatusDetail
            ==> !(#[trigger] s.hits@[i]).area.spec_intersects((#[trigger] s.hits@[j]).area),
{
    let mut text = owned(message);
    if retry || cancel {
        push_str(&mut text, "  [");
        push_str(&mut text, if retry { "r  retry" } else { "Ctrl-C  cancel" });
        push_str(&mut text, "]");
    }
    let rw: u16 = if retry { 10 } else { 0 };
    let cw: u16 = if cancel { 14 } else { 0 };
    let m = Rect::new(area.x, area.y, area.width.saturating_sub(rw + cw), area.height);
    let mut hits: Vec<HitRegion<RelationTarget>> = Vec::new();
    if !m.is_empty() {
        hits.push(HitRegion { area: m, target: RelationTarget::StatusDetail });
    }
    if retry {
        hits.push(HitRegion { area: Rect::new(m.right(), area.y, rw, area.height), target: RelationTarget::Retry });
    }
    if cancel {
        hits.push(HitRegion { area: Rect::new(m.right().saturating_add(rw), area.y, cw, area.height), target: RelationTarget::Cancel });
    }
    assert(hits@ =~= status_hits(area, retry, cancel));
    StatusLine { text, message_area: m, hits }
}

/// The data panel's layout.
#[derive(Clone, Debug)]
pub struct RelationDataView {
    pub inner: Rect,
    /// The panel's rows: with a snapshot the query bar, the state line, the
    /// table, the footer and the pagination bar; without, the query bar, the
    /// state view and the pagination bar.
    pub parts: Vec<Rect>,
    pub status: Option<DataStatus>,
    pub footer: Option<String>,
    pub detail: Option<String>,
    /// Whether the pagination bar takes input: only over a ready snapshot.
    pub pagination_live: bool,
    /// The loading indicator's note while a kept snapshot is refreshed.
    pub loading_note: Option<&'static str>,
    pub hits: Vec<HitRegion<RelationTarget>>,
}

/// What the state line's row takes clicks on: all of it while a load can be
/// cancelled, else the state line's own regions.
pub open spec fn state_hits(load: RelationLoadFacts, area: Rect) -> Seq<HitRegion<RelationTarget>> {
    match status_of(load) {
        None => seq![],
        Some((_, retry, cancel)) => if cancel {
            seq![HitRegion { area, target: RelationTarget::Cancel }]
        } else {
            status_hits(area, retry, cancel)
        },
    }
}

fn state_regions(status: &Option<DataStatus>, area: Rect) -> (out: Vec<HitRegion<RelationTarget>>)
    ensures
        out@ == (match status_view(*status) {
            None => seq![],
            Some((_, retry, cancel)) => if cancel {
                seq![HitRegion { area, target: RelationTarget::Cancel }]
            } else {
                status_hits(area, retry, cancel)
            },
        }),
{
    match status {
        None => Vec::new(),
        Some(s) => if s.cancel {
            let mut out: Vec<HitRegion<RelationTarget>> = Vec::new();
            out.push(HitRegion { area, target: RelationTarget::Cancel });
            out
        } else {
            let line = status_line(area, "", s.retry, s.cancel);
            line.hits
        },
    }
}

/// The row constraints of the panel, for a query bar `query_height` rows high.
pub open spec fn data_rows(snapshot: bool, has_status: bool, query_height: u16) -> Seq<(bool, u16)> {
    if snapshot {
        seq![(false, query_height), (false, if has_status { 1u16 } else { 0u16 }), (true, 1u16), (false, 1u16), (false, 1u16)]
    } else {
        seq![(false, query_height), (true, 1u16), (false, 1u16)]
    }
}

fn row_constraints(snapshot: bool, has_status: bool, query_height: u16) -> (out: Vec<(bool, u16)>)
    ensures
        out@ == data_rows(snapshot, has_status, query_height),
{
    let mut out: Vec<(bool, u16)> = Vec::new();
    out.push((false, query_height));
    if snapshot {
        out.push((false, if has_status { 1 } else { 0 }));
        out.push((true, 1));
        out.push((false, 1));
        out.push((false, 1));
    } else {
        out.push((true, 1));
        out.push((false, 1));
    }
    assert(out@ =~= data_rows(snapshot, has_status, query_height));
    out
}

/// Lays out the relation data panel over `area` in load state `load`, under a
/// query bar `query_height` rows high; `sql`, `rows` and `provenance` are the
/// shown snapshot's SQL text, row count and source.
pub fn relation_data_view(area: Rect, load: &RelationLoadFacts, query_height: u16, sql: &str, rows: usize, provenance: &str) -> (v: RelationDataView)
    ensures
        v.inner == spec_bordered_inner(area),
        v.parts@.len() == data_rows(shows_snapshot(*load), status_of(*load) is Some, query_height).len(),
        Seq::new(v.parts@.len(), |i: int| quad(v.parts@[i]))
            == row_split(quad(v.inner), data_rows(shows_snapshot(*load), status_of(*load) is Some, query_height)),
        status_view(v.status) == status_of(*load),
        v.loading_note == (if shows_snapshot(*load) && *load is Loading { Some("showing previous snapshot") } else { None }),
        shows_snapshot(*load) ==> {
            &&& v.footer matches Some(f) && f@ == footer_text(sql@, rows as nat, provenance@)
            &&& v.detail matches Some(d) && d@ == detail_text(sql@, rows as nat, provenance@)
            &&& v.pagination_live == (*load is Ready)
            &&& v.hits@ == state_hits(*load, v.parts@[1])
                + seq![HitRegion { area: v.parts@[3], target: RelationTarget::SnapshotDetail }]
        },
        !shows_snapshot(*load) ==> {
            &&& v.footer is None && v.detail is None && !v.pagination_live
            &&& v.hits@ == state_hits(*load, v.parts@[1])
        },
{
    let inner = bordered_inner(area);
    let (snapshot, status) = relation_data_status(load);
    let has_status = status.is_some();
    let constraints = row_constraints(snapshot, has_status, query_height);
    let parts = split_rows(inner, constraints.as_slice());
    let mut hits = state_regions(&status, parts[1]);
    if snapshot {
        let mut footer = owned("SQL: ");
        push_str(&mut footer, sql);
        push_str(&mut footer, "  ");
        push_decimal(&mut footer, rows as u64);
        push_str(&mut footer, " rows  Snapshot: ");
        push_str(&mut footer, provenance);
        let mut detail = owned("SQL: ");
        push_str(&mut detail, sql);
        push_str(&mut detail, "\nRows: ");
        push_decimal(&mut detail, rows as u64);
        push_str(&mut detail, "\nSnapshot: ");
        push_str(&mut detail, provenance);
        hits.push(HitRegion { area: parts[3], target: RelationTarget::SnapshotDetail });
        let (live, loading_note) = match load {
            RelationLoadFacts::Ready => (true, None),
            RelationLoadFacts::Loading { .. } => (false, Some("showing previous snapshot")),
            _ => (false, None),
        };
        RelationDataView { inner, parts, status, footer: Some(footer), detail: Some(detail), pagination_live: live, loading_note, hits }
    } else {
        RelationDataView { inner, parts, status, footer: None, detail: None, pagination_live: false, loading_note: None, hits }
    }
}

} // verus!
