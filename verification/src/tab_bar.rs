//! The workspace tab bar: each tab's title, which tabs are shown, how each one
//! is cut to the cells it has, and the click regions of tabs, close markers and
//! scroll arrows.
use vstd::prelude::*;
use crate::cells::{cell_width, ratatui_cell_width, single_control};
use crate::geometry::{Rect, sat_add, sat_sub};
use crate::hits::HitRegion;
use crate::tabs::{tab_viewport, chosen_viewport, truncate_to_cell_width, cell_truncation, TabViewport};
use crate::text::{owned, push_str, push_decimal, decimal, chars_of, string_from};
use crate::completion::lemma_truncation_measurable;

verus! {

broadcast use vstd::string::group_string_axioms;

/// A connection profile: its id and name.
#[derive(Clone, Debug)]
pub struct ProfileFacts {
    pub id: u128,
    pub name: String,
}

/// The connection a console runs against: its profile, and whether the target
/// is still valid for that profile.
#[derive(Clone, Copy, Debug)]
pub struct ConsoleTarget {
    pub profile: u128,
    pub valid: bool,
}

/// What a tab's title is made of.
#[derive(Clone, Debug)]
pub enum TabFacts {
    Console { title: String, target: Option<ConsoleTarget> },
    Relation { title: String, profile: u128 },
    Dashboard { title: String, profile: Option<u128> },
    RedisBrowser { database: u64, profile: u128 },
    PrincipalDdl { name: String, profile: u128 },
}

/// The first profile with id `id`.
pub open spec fn find_profile(profiles: Seq<ProfileFacts>, id: u128, n: int) -> Option<int>
    decreases n,
{
    if n <= 0 {
        None
    } else {
        match find_profile(profiles, id, n - 1) {
            Some(i) => Some(i),
            None => if profiles[n - 1].id == id { Some(n - 1) } else { None },
        }
    }
}

/// The name of profile `id`, or `fallback` when there is none.
pub open spec fn name_or(profiles: Seq<ProfileFacts>, id: u128, fallback: Seq<char>) -> Seq<char> {
    match find_profile(profiles, id, profiles.len() as int) {
        Some(i) => profiles[i].name@,
        None => fallback,
    }
}

/// A tab's title before it is cut: the tab's own title and its connection
/// (`Unbound` without a target, `Invalid target` when the profile is gone,
/// `Invalid:<name>` when the target no longer fits its profile); a Redis
/// browser shows its database number, a principal its name.
pub open spec fn full_title(tab: TabFacts, profiles: Seq<ProfileFacts>) -> Seq<char> {
    match tab {
        TabFacts::Console { title, target } => title@ + " @"@ + match target {
            None => "Unbound"@,
            Some(t) => match find_profile(profiles, t.profile, profiles.len() as int) {
                None => "Invalid target"@,
                Some(i) => if t.valid { profiles[i].name@ } else { "Invalid:"@ + profiles[i].name@ },
            },
        },
        TabFacts::Relation { title, profile } => title@ + " @"@ + name_or(profiles, profile, "Invalid target"@),
        TabFacts::Dashboard { title, profile } => title@ + " @"@ + match profile {
            Some(p) => name_or(profiles, p, "Unbound"@),
            None => "Unbound"@,
        },
        TabFacts::RedisBrowser { database, profile } => "db"@ + decimal(database as nat) + "@"@ + name_or(profiles, profile, "Invalid target"@),
        TabFacts::PrincipalDdl { name, profile } => name@ + "@"@ + name_or(profiles, profile, "Invalid target"@),
    }
}

/// A tab's title: at most its first 48 characters.
pub open spec fn tab_title_spec(tab: TabFacts, profiles: Seq<ProfileFacts>) -> Seq<char> {
    let t = full_title(tab, profiles);
    if t.len() <= 48 { t } else { t.take(48) }
}

fn profile_name(profiles: &[ProfileFacts], id: u128) -> (r: Option<&String>)
    ensures
        match find_profile(profiles@, id, profiles@.len() as int) {
            Some(i) => r matches Some(n) && n@ == profiles@[i].name@,
            None => r is None,
        },
{
    let mut i: usize = 0;
    while i < profiles.len()
        invariant
            i <= profiles@.len(),
            find_profile(profiles@, id, i as int) is None,
        decreases profiles@.len() - i,
    {
        if profiles[i].id == id {
            proof { lemma_find_stays(profiles@, id, i as int + 1, profiles@.len() as int, i as int); }
            return Some(&profiles[i].name);
        }
        i = i + 1;
    }
    None
}

proof fn lemma_find_stays(profiles: Seq<ProfileFacts>, id: u128, j: int, n: int, i: int)
    requires
        j <= n,
        find_profile(profiles, id, j) == Some(i),
    ensures
        find_profile(profiles, id, n) == Some(i),
    decreases n - j,
{
    if j < n {
        lemma_find_stays(profiles, id, j, n - 1, i);
    }
}

fn push_name_or(out: &mut String, profiles: &[ProfileFacts], id: u128, fallback: &str)
    ensures
        final(out)@ == old(out)@ + name_or(profiles@, id, fallback@),
{
    match profile_name(profiles, id) {
        Some(name) => push_str(out, name.as_str()),
        None => push_str(out, fallback),
    }
}

/// The title shown on a tab.
pub fn tab_title(tab: &TabFacts, profiles: &[ProfileFacts]) -> (t: String)
    ensures
        t@ == tab_title_spec(*tab, profiles@),
{
    let mut full = String::new();
    match tab {
        TabFacts::Console { title, target } => {
            push_str(&mut full, title.as_str());
            push_str(&mut full, " @");
            match target {
                None => push_str(&mut full, "Unbound"),
                Some(t) => match profile_name(profiles, t.profile) {
                    None => push_str(&mut full, "Invalid target"),
                    Some(name) => {
                        if !t.valid {
                            push_str(&mut full, "Invalid:");
                        }
                        push_str(&mut full, name.as_str());
                    },
                },
            }
        },
        TabFacts::Relation { title, profile } => {
            push_str(&mut full, title.as_str());
            push_str(&mut full, " @");
            push_name_or(&mut full, profiles, *profile, "Invalid target");
        },
        TabFacts::Dashboard { title, profile } => {
            push_str(&mut full, title.as_str());
            push_str(&mut full, " @");
            match profile {
                Some(p) => push_name_or(&mut full, profiles, *p, "Unbound"),
                None => push_str(&mut full, "Unbound"),
            }
        },
        TabFacts::RedisBrowser { database, profile } => {
            push_str(&mut full, "db");
            push_decimal(&mut full, *database);
            push_str(&mut full, "@");
            push_name_or(&mut full, profiles, *profile, "Invalid target");
        },
        TabFacts::PrincipalDdl { name, profile } => {
            push_str(&mut full, name.as_str());
            push_str(&mut full, "@");
            push_name_or(&mut full, profiles, *profile, "Invalid target");
        },
    }
    assert(full@ =~= full_title(*tab, profiles@));
    let chars = chars_of(full.as_str());
    if chars.len() <= 48 {
        full
    } else {
        let mut kept: Vec<char> = Vec::new();
        let mut i: usize = 0;
        while i < 48
            invariant
                i <= 48 < chars@.len(),
                kept@ == chars@.take(i as int),
            decreases 48 - i,
        {
            kept.push(chars[i]);
            i = i + 1;
            assert(kept@ =~= chars@.take(i as int));
        }
        string_from(kept.as_slice())
    }
}

/// A tab as the bar draws it: its icon, its title, its close marker (empty
/// when it cannot be closed) and whether it can be closed.
#[derive(Clone, Debug)]
pub struct TabItem {
    pub icon: String,
    pub title: String,
    pub marker: String,
    pub can_close: bool,
}

/// What a click on the tab bar means.
#[derive(Clone, Copy, Debug, PartialEq, Eq, Structural)]
pub enum TabTarget {
    Tab(usize),
    CloseTab(usize),
    ScrollLeft(usize),
    ScrollRight(usize),
}

/// One shown tab: its index, the icon part, the (possibly cut) title, the
/// trailing space, the close marker and whether it is the active tab.
#[derive(Clone, Debug)]
pub struct TabCell {
    pub index: usize,
    pub prefix: String,
    pub title: String,
    pub suffix: String,
    pub marker: String,
    pub active: bool,
}

/// The tab bar.
#[derive(Clone, Debug)]
pub struct TabBar {
    pub viewport: TabViewport,
    /// Where the tabs go: the whole area, or between the arrows.
    pub tabs_area: Rect,
    /// The left and right arrows with whether each scrolls, when tabs overflow.
    pub arrows: Option<(Rect, bool, Rect, bool)>,
    pub cells: Vec<TabCell>,
    pub hits: Vec<HitRegion<TabTarget>>,
}

/// A tab's label: its icon and title between spaces.
pub open spec fn label_text(it: TabItem) -> Seq<char> {
    " "@ + it.icon@ + " "@ + it.title@ + " "@
}

/// Cells a tab takes: its label and its close marker.
pub open spec fn item_width(it: TabItem) -> int {
    ratatui_cell_width(label_text(it)) + ratatui_cell_width(it.marker@)
}

/// The tab's texts can be measured (titles and icons come free of control
/// characters, as the terminal-safe text they are).
pub open spec fn item_measurable(it: TabItem) -> bool {
    &&& !single_control(it.title@)
    &&& it.title@.len() > 0 ==> !single_control(seq![it.title@[0]])
    &&& it.icon@.len() > 0 ==> !single_control(seq![it.icon@[0]])
    &&& !single_control(it.marker@)
}

pub open spec fn items_measurable(items: Seq<TabItem>) -> bool {
    forall|i: int| 0 <= i < items.len() ==> item_measurable(#[trigger] items[i])
}

pub open spec fn widths_of(items: Seq<TabItem>) -> Seq<u16> {
    Seq::new(items.len(), |i: int| item_width(items[i]) as u16)
}

pub open spec fn min16(a: u16, b: u16) -> u16 {
    if a < b { a } else { b }
}

pub open spec fn max16(a: u16, b: u16) -> u16 {
    if a < b { b } else { a }
}

/// Cells tab `it` may give its label when drawn from column `x` of a bar ending
/// at `right`: its own label width, within what is left before the end, the
/// marker's cells kept back.
pub open spec fn max_label_of(it: TabItem, x: u16, right: u16) -> u16 {
    let mw = ratatui_cell_width(it.marker@);
    min16(sat_sub(item_width(it) as u16, mw), sat_sub(sat_sub(right, x), mw))
}

/// The label cut to `max_label` cells: whole when it fits; otherwise its title
/// cut to what the icon leaves (at least one cell); otherwise icon and title cut
/// together.
pub open spec fn label_cut(it: TabItem, max_label: u16, prefix: Seq<char>, title: Seq<char>, suffix: Seq<char>) -> bool {
    let icon = " "@ + it.icon@ + " "@;
    let full = sat_add(sat_add(ratatui_cell_width(icon), ratatui_cell_width(it.title@)), 1);
    if full <= max_label {
        prefix == icon && title == it.title@ && suffix == " "@
    } else if ratatui_cell_width(icon) < max_label {
        &&& prefix == icon
        &&& cell_truncation(it.title@, max16(sat_sub(sat_sub(max_label, ratatui_cell_width(icon)), 1), 1), title)
        &&& suffix == ""@
    } else {
        &&& prefix == ""@
        &&& cell_truncation(it.icon@ + " "@ + it.title@ + " "@, max_label, title)
        &&& suffix == ""@
    }
}

/// How tab `index` is drawn from column `x` of a bar ending at `right`.
pub open spec fn cell_ok(it: TabItem, index: int, active: int, x: u16, right: u16, c: TabCell) -> bool {
    &&& c.index == index
    &&& c.active == (index == active)
    &&& c.marker@ == it.marker@
    &&& label_cut(it, max_label_of(it, x, right), c.prefix@, c.title@, c.suffix@)
}

/// Cells the drawn label of a tab takes.
pub open spec fn label_width(c: TabCell) -> u16 {
    sat_add(sat_add(ratatui_cell_width(c.prefix@), ratatui_cell_width(c.title@)), ratatui_cell_width(c.suffix@))
}

/// The click regions of a tab drawn from column `x`: the label (at least one
/// cell, cut at the bar's end) selects it, the marker after it closes it.
pub open spec fn tab_hits(it: TabItem, index: int, x: u16, area: Rect, lw: u16) -> Seq<HitRegion<TabTarget>> {
    let right = area.spec_right();
    let mw = ratatui_cell_width(it.marker@);
    let select = if x < right {
        seq![HitRegion { area: Rect::spec_new(x, area.y, min16(max16(lw, 1), max16(sat_sub(right, x), 1)), 1), target: TabTarget::Tab(index as usize) }]
    } else {
        seq![]
    };
    let mx = sat_add(x, lw);
    let close = if it.can_close && mw > 0 && mx < right {
        seq![HitRegion { area: Rect::spec_new(mx, area.y, min16(mw, sat_sub(right, mx)), 1), target: TabTarget::CloseTab(index as usize) }]
    } else {
        seq![]
    };
    select + close
}

/// Where the `n`-th shown tab starts.
pub open spec fn x_at(items: Seq<TabItem>, start: int, n: int, x0: u16) -> u16
    decreases n,
{
    if n <= 0 { x0 } else { sat_add(x_at(items, start, n - 1, x0), item_width(items[start + n - 1]) as u16) }
}

/// The click regions of the first `n` shown tabs.
pub open spec fn bar_hits(items: Seq<TabItem>, cells: Seq<TabCell>, start: int, n: int, area: Rect) -> Seq<HitRegion<TabTarget>>
    decreases n,
{
    if n <= 0 {
        seq![]
    } else {
        bar_hits(items, cells, start, n - 1, area)
            + tab_hits(items[start + n - 1], start + n - 1, x_at(items, start, n - 1, area.x), area, label_width(cells[n - 1]))
    }
}

/// The tab bar as drawn: the shown range chosen around the active tab, each
/// shown tab placed one after another, and when tabs overflow the arrows at
/// both ends, each scrolling one tab while there are tabs that way.
pub open spec fn tab_bar_ok(items: Seq<TabItem>, active: int, area: Rect, b: TabBar) -> bool {
    let v = b.viewport;
    let n = v.end - v.start;
    &&& chosen_viewport(widths_of(items), active, area.width, v)
    &&& b.tabs_area == (if v.overflowed {
        Rect::spec_new(sat_add(area.x, 1), area.y, sat_sub(area.width, 2), 1)
    } else {
        area
    })
    &&& b.cells@.len() == n
    &&& forall|k: int| 0 <= k < n ==> cell_ok(items[v.start + k], v.start + k, active,
        x_at(items, v.start as int, k, b.tabs_area.x), b.tabs_area.spec_right(), #[trigger] b.cells@[k])
    &&& if v.overflowed {
        let left = Rect::spec_new(area.x, area.y, 1, 1);
        let right = Rect::spec_new(sat_sub(area.spec_right(), 1), area.y, 1, 1);
        let l = v.start > 0;
        let r = v.end < items.len();
        &&& b.arrows == Some((left, l, right, r))
        &&& b.hits@ == bar_hits(items, b.cells@, v.start as int, n, b.tabs_area)
            + (if l { seq![HitRegion { area: left, target: TabTarget::ScrollLeft((v.start - 1) as usize) }] } else { seq![] })
            + (if r { seq![HitRegion { area: right, target: TabTarget::ScrollRight(v.end) }] } else { seq![] })
    } else {
        &&& b.arrows is None
        &&& b.hits@ == bar_hits(items, b.cells@, v.start as int, n, b.tabs_area)
    }
}

fn cut_label(it: &TabItem, max_label: u16) -> (r: (String, String, String))
    requires
        item_measurable(*it),
    ensures
        label_cut(*it, max_label, r.0@, r.1@, r.2@),
        !single_control(r.0@) && !single_control(r.1@) && !single_control(r.2@),
{
    let mut prefix = owned(" ");
    push_str(&mut prefix, it.icon.as_str());
    push_str(&mut prefix, " ");
    proof { reveal_strlit(" "); reveal_strlit(""); }
    assert(prefix@ =~= " "@ + it.icon@ + " "@);
    let prefix_width = cell_width(prefix.as_str());
    let full = prefix_width.saturating_add(cell_width(it.title.as_str())).saturating_add(1);
    assert(full == sat_add(sat_add(ratatui_cell_width(" "@ + it.icon@ + " "@), ratatui_cell_width(it.title@)), 1));
    if full <= max_label {
        let t = owned(it.title.as_str());
        let sp = owned(" ");
        assert(label_cut(*it, max_label, prefix@, t@, sp@));
        (prefix, t, sp)
    } else if prefix_width < max_label {
        let w = max_label.saturating_sub(prefix_width).saturating_sub(1);
        let w = if w < 1 { 1 } else { w };
        let title = truncate_to_cell_width(it.title.as_str(), w);
        proof { lemma_truncation_measurable(it.title@, w, title@); }
        let e = String::new();
        assert(e@ == ""@);
        assert(w == max16(sat_sub(sat_sub(max_label, ratatui_cell_width(" "@ + it.icon@ + " "@)), 1), 1));
        assert(label_cut(*it, max_label, prefix@, title@, e@));
        (prefix, title, e)
    } else {
        let mut whole = owned(it.icon.as_str());
        push_str(&mut whole, " ");
        push_str(&mut whole, it.title.as_str());
        push_str(&mut whole, " ");
        proof {
            assert(whole@ =~= it.icon@ + " "@ + it.title@ + " "@);
            if it.icon@.len() > 0 { assert(whole@[0] == it.icon@[0]); } else { assert(whole@[0] == ' '); }
        }
        let cut = truncate_to_cell_width(whole.as_str(), max_label);
        proof { lemma_truncation_measurable(whole@, max_label, cut@); }
        let e = String::new();
        let e2 = String::new();
        assert(e@ == ""@ && e2@ == ""@);
        assert(label_cut(*it, max_label, e@, cut@, e2@));
        (e, cut, e2)
    }
}

fn place_tab(it: &TabItem, index: usize, active: usize, x: u16, area: Rect, width: u16) -> (r: (TabCell, Vec<HitRegion<TabTarget>>))
    requires
        item_measurable(*it),
        width == item_width(*it),
    ensures
        cell_ok(*it, index as int, active as int, x, area.spec_right(), r.0),
        r.1@ == tab_hits(*it, index as int, x, area, label_width(r.0)),
{
    let right = area.right();
    let marker_width = cell_width(it.marker.as_str());
    let a = width.saturating_sub(marker_width);
    let b = right.saturating_sub(x).saturating_sub(marker_width);
    let max_label = if a < b { a } else { b };
    let (prefix, title, suffix) = cut_label(it, max_label);
    let drawn = cell_width(prefix.as_str()).saturating_add(cell_width(title.as_str())).saturating_add(cell_width(suffix.as_str()));
    let mut hits: Vec<HitRegion<TabTarget>> = Vec::new();
    if x < right {
        let lw = if drawn < 1 { 1 } else { drawn };
        let room = right.saturating_sub(x);
        let room = if room < 1 { 1 } else { room };
        hits.push(HitRegion { area: Rect::new(x, area.y, if lw < room { lw } else { room }, 1), target: TabTarget::Tab(index) });
    }
    let marker_x = x.saturating_add(drawn);
    if it.can_close && marker_width > 0 && marker_x < right {
        let room = right.saturating_sub(marker_x);
        hits.push(HitRegion { area: Rect::new(marker_x, area.y, if marker_width < room { marker_width } else { room }, 1), target: TabTarget::CloseTab(index) });
    }
    let cell = TabCell { index, prefix, title, suffix, marker: owned(it.marker.as_str()), active: index == active };
    proof {
        assert(hits@ =~= tab_hits(*it, index as int, x, area, label_width(cell)));
    }
    (cell, hits)
}

/// Lays out the tab bar over `area`: `None` when a tab's label and marker
/// would not fit in 16 bits, which the bar cannot measure.
pub fn tab_bar(items: &[TabItem], active: usize, area: Rect) -> (r: Option<TabBar>)
    requires
        items_measurable(items@),
    ensures
        r is Some <==> forall|i: int| 0 <= i < items@.len() ==> item_width(#[trigger] items@[i]) <= u16::MAX,
        r matches Some(b) ==> tab_bar_ok(items@, active as int, area, b),
{
    let mut widths: Vec<u16> = Vec::new();
    let mut i: usize = 0;
    while i < items.len()
        invariant
            i <= items@.len(),
            items_measurable(items@),
            widths@.len() == i,
            forall|k: int| 0 <= k < i ==> item_width(#[trigger] items@[k]) <= u16::MAX && widths@[k] == item_width(items@[k]),
        decreases items@.len() - i,
    {
        let it = &items[i];
        let mut label = owned(" ");
        push_str(&mut label, it.icon.as_str());
        push_str(&mut label, " ");
        push_str(&mut label, it.title.as_str());
        push_str(&mut label, " ");
        proof {
            reveal_strlit(" ");
            assert(label@ =~= label_text(*it));
            assert(item_measurable(items@[i as int]));
        }
        let lw = cell_width(label.as_str());
        let mw = cell_width(it.marker.as_str());
        if lw as u32 + mw as u32 > u16::MAX as u32 {
            return None;
        }
        widths.push(lw + mw);
        i = i + 1;
    }
    assert(widths@ =~= widths_of(items@));
    let viewport = tab_viewport(widths.as_slice(), active, area.width);
    let tabs_area = if viewport.overflowed {
        Rect::new(area.x.saturating_add(1), area.y, area.width.saturating_sub(2), 1)
    } else {
        area
    };
    let mut cells: Vec<TabCell> = Vec::new();
    let mut hits: Vec<HitRegion<TabTarget>> = Vec::new();
    let mut x = tabs_area.x;
    let mut k: usize = viewport.start;
    assert(viewport.start <= viewport.end <= items@.len());
    while k < viewport.end
        invariant
            viewport.start <= k <= viewport.end <= items@.len(),
            items_measurable(items@),
            widths@ == widths_of(items@),
            forall|q: int| 0 <= q < items@.len() ==> item_width(#[trigger] items@[q]) <= u16::MAX,
            cells@.len() == k - viewport.start,
            x == x_at(items@, viewport.start as int, k - viewport.start, tabs_area.x),
            forall|q: int| 0 <= q < k - viewport.start ==> cell_ok(items@[viewport.start + q], viewport.start + q, active as int,
                x_at(items@, viewport.start as int, q, tabs_area.x), tabs_area.spec_right(), #[trigger] cells@[q]),
            hits@ == bar_hits(items@, cells@, viewport.start as int, k - viewport.start, tabs_area),
        decreases viewport.end - k,
    {
        let ghost before = cells@;
        proof { assert(item_measurable(items@[k as int])); }
        let (cell, more) = place_tab(&items[k], k, active, x, tabs_area, widths[k]);
        cells.push(cell);
        proof {
            let n = k - viewport.start;
            assert(cells@.take(n as int) =~= before);
            assert forall|m: int| 0 <= m <= n implies bar_hits(items@, cells@, viewport.start as int, m, tabs_area)
                == bar_hits(items@, before, viewport.start as int, m, tabs_area) by {
                lemma_bar_hits_prefix(items@, cells@, before, viewport.start as int, m, tabs_area);
            }
        }
        let ghost old_hits = hits@;
        let mut j: usize = 0;
        while j < more.len()
            invariant
                j <= more@.len(),
                hits@ == old_hits + more@.take(j as int),
            decreases more@.len() - j,
        {
            hits.push(more[j]);
            j = j + 1;
            assert(hits@ =~= old_hits + more@.take(j as int));
        }
        assert(more@.take(more@.len() as int) =~= more@);
        x = x.saturating_add(widths[k]);
        k = k + 1;
    }
    let arrows = if viewport.overflowed {
        let left = Rect::new(area.x, area.y, 1, 1);
        let right = Rect::new(area.right().saturating_sub(1), area.y, 1, 1);
        let l = viewport.start > 0;
        let r = viewport.end < items.len();
        if l {
            hits.push(HitRegion { area: left, target: TabTarget::ScrollLeft(viewport.start - 1) });
        }
        if r {
            hits.push(HitRegion { area: right, target: TabTarget::ScrollRight(viewport.end) });
        }
        Some((left, l, right, r))
    } else {
        None
    };
    let b = TabBar { viewport, tabs_area, arrows, cells, hits };
    proof {
        if viewport.overflowed {
            let base = bar_hits(items@, b.cells@, viewport.start as int, (viewport.end - viewport.start) as int, tabs_area);
            let left = Rect::spec_new(area.x, area.y, 1, 1);
            let right = Rect::spec_new(sat_sub(area.spec_right(), 1), area.y, 1, 1);
            let ls: Seq<HitRegion<TabTarget>> = if viewport.start > 0 { seq![HitRegion { area: left, target: TabTarget::ScrollLeft((viewport.start - 1) as usize) }] } else { seq![] };
            let rs: Seq<HitRegion<TabTarget>> = if viewport.end < items@.len() { seq![HitRegion { area: right, target: TabTarget::ScrollRight(viewport.end) }] } else { seq![] };
            assert(b.hits@ =~= base + ls + rs);
        }
    }
    Some(b)
}

proof fn lemma_bar_hits_prefix(items: Seq<TabItem>, cells: Seq<TabCell>, before: Seq<TabCell>, start: int, m: int, area: Rect)
    requires
        0 <= m <= before.len(),
        before.len() <= cells.len(),
        forall|q: int| 0 <= q < before.len() ==> cells[q] == before[q],
    ensures
        bar_hits(items, cells, start, m, area) == bar_hits(items, before, start, m, area),
    decreases m,
{
    if m > 0 {
        lemma_bar_hits_prefix(items, cells, before, start, m - 1, area);
        assert(cells[m - 1] == before[m - 1]);
    }
}

} // verus!
