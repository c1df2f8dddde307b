//! The principal overview: the summary of who the principal is, and the access
//! panel with its section tabs, the visible window of entries, the find line,
//! the scrollbar and the click regions of each.
use vstd::prelude::*;
use crate::cells::{str_width, unicode_str_width, printable_ascii};
use crate::geometry::{Rect, Position, sat_add, sat_sub, spec_bordered_inner, bordered_inner};
use crate::hits::HitRegion;
use crate::panes::{split_three, split_lengths, quad, min16};
use crate::principal::{PrincipalAccessSection, PrincipalDetails, PrincipalScope, access_section_label, principal_scope, section_len};
use crate::scrollbar::{ScrollbarGeometry, geometry, scrollbar, horizontal};
use crate::text::{owned, push_str, push_decimal, decimal, lemma_decimal_u64};

verus! {

broadcast use vstd::string::group_string_axioms;

/// Whether a principal is a user or a role.
#[derive(Clone, Copy, Debug, PartialEq, Eq, Structural)]
pub enum PrincipalIdentity {
    User,
    Role,
}

pub open spec fn scope_text(scope: PrincipalScope) -> Seq<char> {
    match scope {
        PrincipalScope::Cluster => "cluster"@,
        PrincipalScope::Server => "server"@,
        PrincipalScope::Database(name) => "database:"@ + name@,
    }
}

pub open spec fn identity_text(identity: PrincipalIdentity) -> Seq<char> {
    match identity {
        PrincipalIdentity::User => "USER"@,
        PrincipalIdentity::Role => "ROLE"@,
    }
}

/// The summary line: who the principal is, its native kind and its scope.
pub open spec fn summary_text(identity: PrincipalIdentity, name: Seq<char>, native: Seq<char>, scope: PrincipalScope) -> Seq<char> {
    " "@ + identity_text(identity) + "  "@ + name + "   native: "@ + native + "   scope: "@ + scope_text(scope)
}

/// The principal's summary line.
pub fn overview_summary(identity: PrincipalIdentity, name: &str, native_kind: &str, scope: &PrincipalScope) -> (s: String)
    ensures
        s@ == summary_text(identity, name@, native_kind@, *scope),
{
    let mut s = owned(" ");
    push_str(&mut s, match identity {
        PrincipalIdentity::User => "USER",
        PrincipalIdentity::Role => "ROLE",
    });
    push_str(&mut s, "  ");
    push_str(&mut s, name);
    push_str(&mut s, "   native: ");
    push_str(&mut s, native_kind);
    push_str(&mut s, "   scope: ");
    let scope_caption = principal_scope(scope);
    push_str(&mut s, scope_caption.as_str());
    s
}

/// What a click in the access panel reaches.
#[derive(Clone, Copy, Debug, PartialEq, Eq, Structural)]
pub enum AccessTarget {
    /// The panel as a whole, which takes the focus.
    Panel,
    Section(PrincipalAccessSection),
    /// The list's body, for the wheel.
    Body,
    /// An entry, by its index in the section.
    Item(usize),
    /// The rail above or below the thumb: the offset a click there scrolls to.
    Page(usize),
    /// The thumb, with what dragging it needs.
    Thumb { track_start: u16, track_length: u16, thumb_start: u16, thumb_length: u16, max_offset: usize },
}

/// The sections in the order their tabs stand.
pub open spec fn section_at(i: int) -> PrincipalAccessSection {
    if i == 0 {
        PrincipalAccessSection::Permissions
    } else if i == 1 {
        PrincipalAccessSection::MemberOf
    } else {
        PrincipalAccessSection::Members
    }
}

pub open spec fn section_caption(section: PrincipalAccessSection) -> Seq<char> {
    match section {
        PrincipalAccessSection::Permissions => "Permissions"@,
        PrincipalAccessSection::MemberOf => "Member of"@,
        PrincipalAccessSection::Members => "Members"@,
    }
}

/// Entries of `section` that the snapshot holds; none without a snapshot.
pub open spec fn count_of(section: PrincipalAccessSection, details: Option<&PrincipalDetails>) -> nat {
    match details {
        Some(d) => section_len(section, *d) as nat,
        None => 0,
    }
}

/// A section tab's text: ` caption (count) `.
pub open spec fn section_text(section: PrincipalAccessSection, details: Option<&PrincipalDetails>) -> Seq<char> {
    " "@ + section_caption(section) + " ("@ + decimal(count_of(section, details)) + ") "@
}

/// Column where the `i`-th section tab starts: the tabs stand side by side.
pub open spec fn tab_start(inner: Rect, details: Option<&PrincipalDetails>, i: nat) -> u16
    decreases i,
{
    if i == 0 {
        inner.x
    } else {
        sat_add(tab_start(inner, details, (i - 1) as nat), section_text(section_at(i - 1), details).len() as u16)
    }
}

/// The click region of the `i`-th section tab, cut at the panel's right edge.
pub open spec fn tab_area(inner: Rect, details: Option<&PrincipalDetails>, i: nat) -> Rect {
    let x = tab_start(inner, details, i);
    Rect::spec_new(x, inner.y, min16(section_text(section_at(i as int), details).len() as u16, sat_sub(inner.spec_right(), x)), 1)
}

/// One section tab as drawn.
#[derive(Clone, Debug)]
pub struct SectionTab {
    pub text: String,
    pub selected: bool,
    pub area: Rect,
}

fn section_tab(section: PrincipalAccessSection, details: Option<&PrincipalDetails>, current: PrincipalAccessSection, x: u16, inner: Rect) -> (t: (SectionTab, u16))
    ensures
        t.0.text@ == section_text(section, details),
        t.0.selected == (section == current),
        t.0.area == Rect::spec_new(x, inner.y, min16(section_text(section, details).len() as u16, sat_sub(inner.spec_right(), x)), 1),
        t.1 == section_text(section, details).len(),
        t.1 <= 36,
{
    let (caption, count) = access_section_label(section, details);
    let mut text = owned(" ");
    push_str(&mut text, caption);
    push_str(&mut text, " (");
    push_decimal(&mut text, count as u64);
    push_str(&mut text, ") ");
    proof {
        reveal_strlit(" ");
        reveal_strlit(" (");
        reveal_strlit(") ");
        reveal_strlit("Permissions");
        reveal_strlit("Member of");
        reveal_strlit("Members");
        lemma_decimal_u64(count as nat);
        let c = caption@;
        let d = decimal(count as nat);
        let t = text@;
        assert(t == " "@ + c + " ("@ + d + ") "@);
        assert forall|i: int| 0 <= i < t.len() implies 0x20 <= (#[trigger] t[i] as u32) < 0x7F by {
            if 1 <= i < 1 + c.len() {
                assert(t[i] == c[i - 1]);
            } else if 3 + c.len() <= i < 3 + c.len() + d.len() {
                assert(t[i] == d[i - 3 - c.len()]);
            }
        }
    }
    let w: usize = str_width(text.as_str());
    let width: u16 = w as u16;
    let right = inner.right();
    let room = right.saturating_sub(x);
    let area = Rect::new(x, inner.y, if width < room { width } else { room }, 1);
    (SectionTab { text, selected: section == current, area }, width)
}

/// The find line's query and state: whether it is still being typed, and the
/// position of the current match among all matches.
#[derive(Clone, Debug)]
pub struct AccessFind {
    pub query: String,
    pub editing: bool,
    pub current: usize,
    pub total: usize,
}

/// One visible entry of the access list.
#[derive(Clone, Copy, Debug, PartialEq, Eq, Structural)]
pub struct AccessRow {
    pub index: usize,
    pub selected: bool,
    pub area: Rect,
}

/// The overview's layout.
#[derive(Clone, Debug)]
pub struct OverviewView {
    /// The Overview/DDL selector, the summary box and the access panel.
    pub selector: Rect,
    pub summary: Rect,
    pub panel: Rect,
    pub inner: Rect,
    pub tabs: Vec<SectionTab>,
    /// The find line under the tabs, while a find is open.
    pub find_line: Option<String>,
    /// The row of the column header.
    pub header_y: u16,
    pub body: Rect,
    pub visible: usize,
    /// The first entry shown.
    pub offset: usize,
    pub rows: Vec<AccessRow>,
    /// The snapshot holds no entry of the section.
    pub empty_note: bool,
    pub track: Rect,
    pub scrollbar: Option<ScrollbarGeometry>,
    pub cursor: Option<Position>,
    pub hint: &'static str,
    pub hits: Vec<HitRegion<AccessTarget>>,
}

pub open spec fn rect_of(q: (u16, u16, u16, u16)) -> Rect {
    Rect { x: q.0, y: q.1, width: q.2, height: q.3 }
}

/// The selector, summary and access rows of the overview.
pub open spec fn overview_chunks(area: Rect) -> (Rect, Rect, Rect) {
    let s = split_lengths(quad(area), true, 2, 3, 1);
    (rect_of(s.0), rect_of(s.1), rect_of(s.2))
}

pub open spec fn header_row(inner: Rect, has_find: bool) -> u16 {
    sat_add(inner.y, if has_find { 2 } else { 1 })
}

pub open spec fn body_row(inner: Rect, has_find: bool) -> u16 {
    sat_add(header_row(inner, has_find), 1)
}

/// The list's width: all of the panel but the scrollbar's column, when the
/// panel is wider than one cell.
pub open spec fn body_width(inner: Rect) -> u16 {
    sat_sub(inner.width, if inner.width > 1 { 1 } else { 0 })
}

/// Rows of the list: those between the list's first row and the hint row.
pub open spec fn visible_rows(inner: Rect, has_find: bool) -> u16 {
    sat_sub(sat_sub(inner.spec_bottom(), 1), body_row(inner, has_find))
}

pub open spec fn usub(a: usize, b: usize) -> usize {
    if a < b { 0 } else { (a - b) as usize }
}

pub open spec fn uadd(a: usize, b: usize) -> usize {
    if a + b > usize::MAX { usize::MAX } else { (a + b) as usize }
}

/// The first entry shown: the stored offset, moved down just enough that the
/// selection is visible.
pub open spec fn shown_offset(visible: usize, stored: usize, selection: usize) -> usize {
    if visible == 0 {
        stored
    } else {
        let low = usub(selection, usub(visible, 1));
        if stored < low { low } else { stored }
    }
}

/// How many entries are shown.
pub open spec fn shown_rows(visible: usize, count: nat, offset: usize) -> nat {
    let rest = if count < offset { 0 } else { count - offset };
    if visible < rest { visible as nat } else { rest as nat }
}

pub open spec fn section_hits(inner: Rect, details: Option<&PrincipalDetails>) -> Seq<HitRegion<AccessTarget>> {
    seq![
        HitRegion { area: tab_area(inner, details, 0), target: AccessTarget::Section(PrincipalAccessSection::Permissions) },
        HitRegion { area: tab_area(inner, details, 1), target: AccessTarget::Section(PrincipalAccessSection::MemberOf) },
        HitRegion { area: tab_area(inner, details, 2), target: AccessTarget::Section(PrincipalAccessSection::Members) },
    ]
}

pub open spec fn row_area(inner: Rect, has_find: bool, r: int) -> Rect {
    Rect::spec_new(inner.x, sat_add(body_row(inner, has_find), r as u16), body_width(inner), 1)
}

pub open spec fn thumb_rect(g: ScrollbarGeometry) -> Rect {
    if horizontal(g.rail) {
        Rect::spec_new(sat_add(g.rail.x, g.thumb_start), g.rail.y, g.thumb_length, g.rail.height)
    } else {
        Rect::spec_new(g.rail.x, sat_add(g.rail.y, g.thumb_start), g.rail.width, g.thumb_length)
    }
}

/// The scrollbar's click regions: the rail above the thumb pages up, the thumb
/// drags, the rail below pages down (never past the last offset).
pub open spec fn bar_hits(track: Rect, g: ScrollbarGeometry, stored: usize, visible: usize) -> Seq<HitRegion<AccessTarget>> {
    let thumb = thumb_rect(g);
    let after = sat_sub(sat_sub(g.rail.height, g.thumb_start), g.thumb_length);
    let down = uadd(stored, visible);
    (if g.thumb_start > 0 {
        seq![HitRegion { area: Rect::spec_new(track.x, sat_add(track.y, 1), 1, g.thumb_start), target: AccessTarget::Page(usub(stored, visible)) }]
    } else {
        seq![]
    }) + seq![HitRegion { area: thumb, target: AccessTarget::Thumb {
        track_start: g.rail.y, track_length: g.rail.height, thumb_start: thumb.y, thumb_length: g.thumb_length, max_offset: g.max_offset,
    } }] + (if after > 0 {
        seq![HitRegion { area: Rect::spec_new(track.x, thumb.spec_bottom(), 1, after),
            target: AccessTarget::Page(if down < g.max_offset { down } else { g.max_offset }) }]
    } else {
        seq![]
    })
}

pub open spec fn find_text(query: Seq<char>, current: nat, total: nat) -> Seq<char> {
    "/"@ + query + "  "@ + decimal(current) + "/"@ + decimal(total) + "   Enter confirm  Esc close  n/N next/prev"@
}

pub open spec fn access_hint(section: PrincipalAccessSection, mutation: bool) -> Seq<char> {
    if mutation && section == PrincipalAccessSection::Permissions {
        "↑/↓ select  ←/→ section  gg/G ends  y copy  v details  e edit  (only structured direct grants)  r refresh  o DDL"@
    } else {
        "↑/↓ select  ←/→ section  gg/G ends  y copy  v details  read-only  r refresh  o DDL"@
    }
}

/// Scrolling keeps the selection in view: when the list has rows, an entry at
/// or after the stored offset that the section holds is among the rows shown.
pub proof fn law_selection_is_shown(visible: usize, stored: usize, selection: usize, count: nat)
    requires
        visible > 0,
        stored <= selection,
        selection < count,
    ensures
        ({
            let offset = shown_offset(visible, stored, selection);
            offset <= selection < offset + shown_rows(visible, count, offset)
        }),
{
}

fn scrollbar_hits(track: Rect, g: ScrollbarGeometry, stored: usize, visible: usize) -> (out: Vec<HitRegion<AccessTarget>>)
    ensures
        out@ == bar_hits(track, g, stored, visible),
{
    let mut out: Vec<HitRegion<AccessTarget>> = Vec::new();
    let before = g.thumb_start;
    let thumb = g.thumb_area();
    let after = g.rail.height.saturating_sub(before).saturating_sub(g.thumb_length);
    if before > 0 {
        out.push(HitRegion { area: Rect::new(track.x, track.y.saturating_add(1), 1, before), target: AccessTarget::Page(stored.saturating_sub(visible)) });
    }
    out.push(HitRegion { area: thumb, target: AccessTarget::Thumb {
        track_start: g.rail.y, track_length: g.rail.height, thumb_start: thumb.y, thumb_length: g.thumb_length, max_offset: g.max_offset,
    } });
    if after > 0 {
        let down = stored.saturating_add(visible);
        out.push(HitRegion { area: Rect::new(track.x, thumb.bottom(), 1, after),
            target: AccessTarget::Page(if down < g.max_offset { down } else { g.max_offset }) });
    }
    assert(out@ =~= bar_hits(track, g, stored, visible));
    out
}

fn find_line_text(f: &AccessFind) -> (s: String)
    ensures
        s@ == find_text(f.query@, f.current as nat, f.total as nat),
{
    let mut s = owned("/");
    push_str(&mut s, f.query.as_str());
    push_str(&mut s, "  ");
    push_decimal(&mut s, f.current as u64);
    push_str(&mut s, "/");
    push_decimal(&mut s, f.total as u64);
    push_str(&mut s, "   Enter confirm  Esc close  n/N next/prev");
    s
}

/// Entries `offset` to `offset + n` of the list, one row each.
fn list_rows(inner: Rect, has_find: bool, offset: usize, n: usize, selection: usize) -> (rows: Vec<AccessRow>)
    requires
        n <= u16::MAX,
        n == 0 || offset + n <= usize::MAX,
    ensures
        rows@.len() == n,
        forall|k: int| 0 <= k < n ==> (#[trigger] rows@[k]) == (AccessRow {
            index: (offset + k) as usize,
            selected: offset + k == selection,
            area: row_area(inner, has_find, k),
        }),
{
    let body_y = inner.y.saturating_add(if has_find { 2 } else { 1 }).saturating_add(1);
    let width = inner.width.saturating_sub(if inner.width > 1 { 1 } else { 0 });
    let mut rows: Vec<AccessRow> = Vec::new();
    let mut r: usize = 0;
    while r < n
        invariant
            n <= u16::MAX,
            n == 0 || offset + n <= usize::MAX,
            r <= n,
            body_y == body_row(inner, has_find),
            width == body_width(inner),
            rows@.len() == r,
            forall|k: int| 0 <= k < r ==> (#[trigger] rows@[k]) == (AccessRow {
                index: (offset + k) as usize,
                selected: offset + k == selection,
                area: row_area(inner, has_find, k),
            }),
        decreases n - r,
    {
        let index = offset + r;
        let area = Rect::new(inner.x, body_y.saturating_add(r as u16), width, 1);
        rows.push(AccessRow { index, selected: index == selection, area });
        r = r + 1;
    }
    rows
}

/// The click region of each shown entry.
fn item_hits(rows: &Vec<AccessRow>) -> (out: Vec<HitRegion<AccessTarget>>)
    ensures
        out@ == Seq::new(rows@.len(), |r: int| HitRegion { area: rows@[r].area, target: AccessTarget::Item(rows@[r].index) }),
{
    let mut out: Vec<HitRegion<AccessTarget>> = Vec::new();
    let mut r: usize = 0;
    while r < rows.len()
        invariant
            r <= rows@.len(),
            out@ == Seq::new(r as nat, |k: int| HitRegion { area: rows@[k].area, target: AccessTarget::Item(rows@[k].index) }),
        decreases rows@.len() - r,
    {
        out.push(HitRegion { area: rows[r].area, target: AccessTarget::Item(rows[r].index) });
        r = r + 1;
        assert(out@ =~= Seq::new(r as nat, |k: int| HitRegion { area: rows@[k].area, target: AccessTarget::Item(rows@[k].index) }));
    }
    out
}

fn section_tabs(inner: Rect, details: Option<&PrincipalDetails>, section: PrincipalAccessSection) -> (out: (Vec<SectionTab>, Vec<HitRegion<AccessTarget>>))
    ensures
        out.0@.len() == 3,
        forall|i: int| 0 <= i < 3 ==> {
            &&& (#[trigger] out.0@[i]).text@ == section_text(section_at(i), details)
            &&& out.0@[i].selected == (section_at(i) == section)
            &&& out.0@[i].area == tab_area(inner, details, i as nat)
        },
        out.1@ == section_hits(inner, details),
{
    let mut hits: Vec<HitRegion<AccessTarget>> = Vec::new();
    let (t0, w0) = section_tab(PrincipalAccessSection::Permissions, details, section, inner.x, inner);
    let x1 = inner.x.saturating_add(w0);
    let (t1, w1) = section_tab(PrincipalAccessSection::MemberOf, details, section, x1, inner);
    let x2 = x1.saturating_add(w1);
    let (t2, _w2) = section_tab(PrincipalAccessSection::Members, details, section, x2, inner);
    proof {
        assert(tab_start(inner, details, 0) == inner.x);
        assert(section_at(0) == PrincipalAccessSection::Permissions);
        assert(section_at(1) == PrincipalAccessSection::MemberOf);
        assert(section_at(2) == PrincipalAccessSection::Members);
        assert(tab_start(inner, details, 1) == sat_add(tab_start(inner, details, 0), section_text(section_at(0), details).len() as u16));
        assert(tab_start(inner, details, 1) == x1);
        assert(tab_start(inner, details, 2) == sat_add(tab_start(inner, details, 1), section_text(section_at(1), details).len() as u16));
        assert(tab_start(inner, details, 2) == x2);
    }
    hits.push(HitRegion { area: t0.area, target: AccessTarget::Section(PrincipalAccessSection::Permissions) });
    hits.push(HitRegion { area: t1.area, target: AccessTarget::Section(PrincipalAccessSection::MemberOf) });
    hits.push(HitRegion { area: t2.area, target: AccessTarget::Section(PrincipalAccessSection::Members) });
    let mut tabs: Vec<SectionTab> = Vec::new();
    tabs.push(t0);
    tabs.push(t1);
    tabs.push(t2);
    assert(hits@ =~= section_hits(inner, details));
    (tabs, hits)
}

fn find_parts(find: Option<&AccessFind>, inner: Rect) -> (out: (Option<Position>, Option<String>))
    ensures
        out.1 matches Some(line) ==> find matches Some(f) && line@ == find_text(f.query@, f.current as nat, f.total as nat),
        out.1 is None <==> find is None,
        out.0 == (match find {
            Some(f) => if f.editing {
                let w = unicode_str_width(f.query@);
                Some(Position { x: sat_add(sat_add(inner.x, 1), (if w < inner.width { w } else { inner.width as nat }) as u16), y: sat_add(inner.y, 1) })
            } else {
                None
            },
            None => None,
        }),
{
    match find {
        Some(f) => {
            let line = find_line_text(f);
            let cursor = if f.editing {
                let w = str_width(f.query.as_str());
                let shift: u16 = if w < inner.width as usize { w as u16 } else { inner.width };
                Some(Position { x: inner.x.saturating_add(1).saturating_add(shift), y: inner.y.saturating_add(1) })
            } else {
                None
            };
            (cursor, Some(line))
        },
        None => (None, None),
    }
}

fn access_list(inner: Rect, has_find: bool, section: PrincipalAccessSection, details: Option<&PrincipalDetails>,
    offset: usize, stored_offset: usize, visible: usize, track: Rect, selection: usize)
    -> (out: (Vec<AccessRow>, Vec<HitRegion<AccessTarget>>, bool, Option<ScrollbarGeometry>))
    requires
        visible <= u16::MAX,
    ensures
        out.0@.len() == (match details { Some(_) => shown_rows(visible, count_of(section, details), offset), None => 0 }),
        forall|r: int| 0 <= r < out.0@.len() ==> (#[trigger] out.0@[r]) == (AccessRow {
            index: (offset + r) as usize,
            selected: offset + r == selection,
            area: row_area(inner, has_find, r),
        }),
        out.2 == (details is Some && count_of(section, details) == 0),
        out.3 == (match details {
            Some(_) => scrollbar(track, visible as int, count_of(section, details) as int, stored_offset as int),
            None => None,
        }),
        out.1@ == Seq::new(out.0@.len(), |r: int| HitRegion { area: out.0@[r].area, target: AccessTarget::Item(out.0@[r].index) })
            + (match out.3 { Some(g) => bar_hits(track, g, stored_offset, visible), None => seq![] }),
{
    match details {
        Some(_) => {
            let (_, count) = access_section_label(section, details);
            let rest: usize = count.saturating_sub(offset);
            let n: usize = if visible < rest { visible } else { rest };
            let rows = list_rows(inner, has_find, offset, n, selection);
            let mut hits = item_hits(&rows);
            let bar = geometry(track, visible, count, stored_offset);
            match bar {
                Some(g) => {
                    let mut more = scrollbar_hits(track, g, stored_offset, visible);
                    hits.append(&mut more);
                },
                None => {
                    assert(hits@ =~= hits@ + seq![]);
                },
            }
            (rows, hits, count == 0, bar)
        },
        None => (Vec::new(), Vec::new(), false, None),
    }
}

/// Lays out the principal overview over `area`: the selector, the summary box
/// and the access panel, which shows `section` of the access snapshot
/// `details` (when there is one) from `stored_offset` on, scrolled so that
/// entry `selection` is visible; `find` is the open find line, and `mutation`
/// says whether the connection can edit direct grants.
#[verifier::rlimit(40)]
pub fn principal_overview(
    area: Rect,
    section: PrincipalAccessSection,
    details: Option<&PrincipalDetails>,
    selection: usize,
    stored_offset: usize,
    find: Option<&AccessFind>,
    mutation: bool,
) -> (v: OverviewView)
    ensures
        (v.selector, v.summary, v.panel) == overview_chunks(area),
        v.inner == spec_bordered_inner(v.panel),
        v.tabs@.len() == 3,
        forall|i: int| 0 <= i < 3 ==> {
            &&& (#[trigger] v.tabs@[i]).text@ == section_text(section_at(i), details)
            &&& v.tabs@[i].selected == (section_at(i) == section)
            &&& v.tabs@[i].area == tab_area(v.inner, details, i as nat)
        },
        v.find_line matches Some(line) ==> find matches Some(f) && line@ == find_text(f.query@, f.current as nat, f.total as nat),
        v.find_line is None <==> find is None,
        v.header_y == header_row(v.inner, find is Some),
        v.visible == visible_rows(v.inner, find is Some),
        v.body == Rect::spec_new(v.inner.x, body_row(v.inner, find is Some), body_width(v.inner), v.visible as u16),
        v.offset == shown_offset(v.visible, stored_offset, selection),
        v.rows@.len() == (match details { Some(_) => shown_rows(v.visible, count_of(section, details), v.offset), None => 0 }),
        forall|r: int| 0 <= r < v.rows@.len() ==> (#[trigger] v.rows@[r]) == (AccessRow {
            index: (v.offset + r) as usize,
            selected: v.offset + r == selection,
            area: row_area(v.inner, find is Some, r),
        }),
        v.empty_note == (details is Some && count_of(section, details) == 0),
        v.track == Rect::spec_new(sat_sub(v.inner.spec_right(), 1), v.body.y, 1, v.visible as u16),
        v.scrollbar == (match details {
            Some(_) => scrollbar(v.track, v.visible as int, count_of(section, details) as int, stored_offset as int),
            None => None,
        }),
        v.cursor == (match find {
            Some(f) => if f.editing {
                let w = unicode_str_width(f.query@);
                Some(Position { x: sat_add(sat_add(v.inner.x, 1), (if w < v.inner.width { w } else { v.inner.width as nat }) as u16), y: sat_add(v.inner.y, 1) })
            } else {
                None
            },
            None => None,
        }),
        v.hint@ == access_hint(section, mutation),
        v.hits@ == seq![HitRegion { area: v.panel, target: AccessTarget::Panel }]
            + section_hits(v.inner, details)
            + (if v.body.spec_is_empty() { seq![] } else { seq![HitRegion { area: v.body, target: AccessTarget::Body }] })
            + Seq::new(v.rows@.len(), |r: int| HitRegion { area: v.rows@[r].area, target: AccessTarget::Item(v.rows@[r].index) })
            + (match v.scrollbar { Some(g) => bar_hits(v.track, g, stored_offset, v.visible), None => seq![] }),
{
    let (selector, summary, panel) = split_three(area, true, 2, 3, 1);
    proof {
        let s = split_lengths(quad(area), true, 2, 3, 1);
        assert(selector == rect_of(s.0));
        assert(summary == rect_of(s.1));
        assert(panel == rect_of(s.2));
    }
    let inner = bordered_inner(panel);
    let mut hits: Vec<HitRegion<AccessTarget>> = Vec::new();
    hits.push(HitRegion { area: panel, target: AccessTarget::Panel });
    let (tabs, mut tab_hits) = section_tabs(inner, details, section);
    hits.append(&mut tab_hits);
    let has_find = find.is_some();
    let header_y = inner.y.saturating_add(if has_find { 2 } else { 1 });
    let body_y = header_y.saturating_add(1);
    let footer_y = inner.bottom().saturating_sub(1);
    let width = inner.width.saturating_sub(if inner.width > 1 { 1 } else { 0 });
    let vis: u16 = footer_y.saturating_sub(body_y);
    let visible = vis as usize;
    let body = Rect::new(inner.x, body_y, width, vis);
    if !body.is_empty() {
        hits.push(HitRegion { area: body, target: AccessTarget::Body });
    }
    let (cursor, find_line) = find_parts(find, inner);
    let offset: usize = if visible == 0 {
        stored_offset
    } else {
        let low = selection.saturating_sub(visible.saturating_sub(1));
        if stored_offset < low { low } else { stored_offset }
    };
    let track = Rect::new(inner.right().saturating_sub(1), body_y, 1, vis);
    assert(body_y == body_row(inner, has_find));
    let (rows, mut list_hits, empty_note, bar) = access_list(inner, has_find, section, details, offset, stored_offset, visible, track, selection);
    hits.append(&mut list_hits);
    let hint = if mutation && section == PrincipalAccessSection::Permissions {
        "↑/↓ select  ←/→ section  gg/G ends  y copy  v details  e edit  (only structured direct grants)  r refresh  o DDL"
    } else {
        "↑/↓ select  ←/→ section  gg/G ends  y copy  v details  read-only  r refresh  o DDL"
    };
    OverviewView {
        selector, summary, panel, inner, tabs, find_line, header_y, body, visible, offset, rows, empty_note,
        track, scrollbar: bar, cursor, hint, hits,
    }
}

} // verus!
