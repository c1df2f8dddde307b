//! Workspace-level state: interaction records kept between frames and the empty
//! workspace message.
use vstd::prelude::*;
use crate::geometry::{Position, Rect, sat_add, sat_sub};
use crate::cells::{cell_width, ratatui_cell_width};
use crate::text::{owned, push_str};
use crate::theme::{Color, Theme};

verus! {

/// Where an Explorer connection stands.
#[derive(Clone, Copy, Debug, PartialEq, Eq, Structural)]
pub enum ExplorerConnectionStatus {
    Online,
    Offline,
    Linking,
    Syncing,
    Failed,
}

/// The status marker after a connection in the Explorer: its symbol and, while
/// it is not settled, what it is doing.
pub open spec fn status_marker(status: ExplorerConnectionStatus) -> Seq<char> {
    match status {
        ExplorerConnectionStatus::Online => "  ●"@,
        ExplorerConnectionStatus::Offline => "  ○"@,
        ExplorerConnectionStatus::Linking => "  ◐ CONNECTING"@,
        ExplorerConnectionStatus::Syncing => "  ◐ SYNCING"@,
        ExplorerConnectionStatus::Failed => "  ● FAILED"@,
    }
}

/// The marker's text, its colour and the row's background (the selection
/// colour on the selected row).
pub fn connection_status_spans(status: ExplorerConnectionStatus, theme: &Theme, selected: bool) -> (r: (String, Color, Color))
    ensures
        r.0@ == status_marker(status),
        r.1 == match status {
            ExplorerConnectionStatus::Online => theme.accent,
            ExplorerConnectionStatus::Offline => theme.muted,
            ExplorerConnectionStatus::Linking => theme.warning,
            ExplorerConnectionStatus::Syncing => theme.action,
            ExplorerConnectionStatus::Failed => theme.error,
        },
        r.2 == if selected { theme.selection } else { theme.surface },
{
    let background = if selected { theme.selection } else { theme.surface };
    let (marker, color) = match status {
        ExplorerConnectionStatus::Online => (owned("  ●"), theme.accent),
        ExplorerConnectionStatus::Offline => (owned("  ○"), theme.muted),
        ExplorerConnectionStatus::Linking => (owned("  ◐ CONNECTING"), theme.warning),
        ExplorerConnectionStatus::Syncing => (owned("  ◐ SYNCING"), theme.action),
        ExplorerConnectionStatus::Failed => (owned("  ● FAILED"), theme.error),
    };
    (marker, color, background)
}

/// Buttons of the connection profile form.
#[derive(Clone, Copy, Debug, PartialEq, Eq, Structural)]
pub enum ProfileButton {
    Test,
    Save,
    Cancel,
    ConfirmDelete,
    CancelDelete,
}

/// Shape of the terminal cursor.
#[derive(Clone, Copy, Debug, PartialEq, Eq, Structural)]
pub enum CursorStyle {
    Block,
    Bar,
    Underline,
}

/// Where the terminal cursor goes and how it looks.
#[derive(Clone, Copy, Debug, PartialEq, Eq, Structural)]
pub struct CursorSpec {
    pub position: Position,
    pub style: CursorStyle,
}

/// Size of the DDL view and of the text it shows.
#[derive(Clone, Copy, Debug, PartialEq, Eq, Structural)]
pub struct DdlViewportMetrics {
    pub visible_rows: usize,
    pub visible_columns: usize,
    pub total_rows: usize,
    pub max_line_width: usize,
}

/// Which scrollbar of the data grid is dragged.
#[derive(Clone, Copy, Debug, PartialEq, Eq, Structural)]
pub enum GridScrollAxis {
    Horizontal,
    Vertical,
}

/// A drag of a data-grid scrollbar thumb.
#[derive(Clone, Copy, Debug, PartialEq, Eq, Structural)]
pub struct GridScrollbarDrag {
    pub axis: GridScrollAxis,
    pub track_start: u16,
    pub track_length: u16,
    pub thumb_length: u16,
    pub pointer_offset: u16,
    pub max_offset: usize,
}

/// A drag of the explorer scrollbar thumb.
#[derive(Clone, Copy, Debug, PartialEq, Eq, Structural)]
pub struct ExplorerScrollbarDrag {
    pub track_start: u16,
    pub track_length: u16,
    pub thumb_length: u16,
    pub pointer_offset: u16,
    pub max_offset: usize,
}

/// A drag of the help or side-panel scrollbar thumb.
#[derive(Clone, Copy, Debug, PartialEq, Eq, Structural)]
pub struct PanelScrollbarDrag {
    pub help: bool,
    pub track_start: u16,
    pub track_length: u16,
    pub thumb_length: u16,
    pub pointer_offset: u16,
    pub max_offset: usize,
}

/// A divider between panes that can be dragged.
#[derive(Clone, Copy, Debug, PartialEq, Eq, Structural)]
pub enum PaneSplit {
    ExplorerWidth,
    EditorHeight,
    RedisKeysWidth,
}

/// A drag of a pane divider: where the pointer and the pane size started.
#[derive(Clone, Copy, Debug, PartialEq, Eq, Structural)]
pub struct PaneResizeDrag {
    pub split: PaneSplit,
    pub start_pointer: u16,
    pub start_size: u16,
}

/// Where a click on one side of the grid's horizontal scrollbar scrolls to.
#[derive(Clone, Copy, Debug, PartialEq, Eq, Structural)]
pub struct GridHorizontalScrollTarget {
    pub offset: usize,
    pub first_visible: usize,
    pub last_visible: usize,
}

/// Horizontal scroll targets of the grid, left and right.
#[derive(Clone, Copy, Debug, PartialEq, Eq, Structural)]
pub struct GridHorizontalScrollTargets {
    pub left: GridHorizontalScrollTarget,
    pub right: GridHorizontalScrollTarget,
}

/// What the empty workspace explains.
#[derive(Clone, Copy, Debug, PartialEq, Eq, Structural)]
pub enum WorkspaceEmptyState {
    Profiles,
    ActiveConnection,
    OpenTabs,
}

/// The facts about the application that decide the empty-workspace message.
#[derive(Clone, Copy, Debug, PartialEq, Eq, Structural)]
pub struct WorkspaceFacts {
    pub tab_count: usize,
    pub disconnected: bool,
    pub session_count: usize,
    pub profile_count: usize,
}

impl WorkspaceEmptyState {
    /// No message while a tab is open; with no connection and no session, ask for a
    /// profile (or a connection when profiles exist); otherwise ask for a tab.
    pub fn for_app(app: WorkspaceFacts) -> (r: Option<WorkspaceEmptyState>)
        ensures
            app.tab_count > 0 ==> r is None,
            app.tab_count == 0 && app.disconnected && app.session_count == 0 ==> r == Some(
                if app.profile_count == 0 { WorkspaceEmptyState::Profiles } else { WorkspaceEmptyState::ActiveConnection },
            ),
            app.tab_count == 0 && !(app.disconnected && app.session_count == 0) ==> r == Some(WorkspaceEmptyState::OpenTabs),
    {
        if app.tab_count != 0 {
            return None;
        }
        if app.disconnected && app.session_count == 0 {
            return Some(if app.profile_count == 0 { WorkspaceEmptyState::Profiles } else { WorkspaceEmptyState::ActiveConnection });
        }
        Some(WorkspaceEmptyState::OpenTabs)
    }

    /// Heading of the empty workspace.
    pub fn title(self) -> (r: &'static str)
        ensures
            self == WorkspaceEmptyState::Profiles ==> r@ == "NO CONNECTIONS YET"@,
            self == WorkspaceEmptyState::ActiveConnection ==> r@ == "NO ACTIVE CONNECTION"@,
            self == WorkspaceEmptyState::OpenTabs ==> r@ == "NO OPEN TABS"@,
    {
        match self {
            WorkspaceEmptyState::Profiles => "NO CONNECTIONS YET",
            WorkspaceEmptyState::ActiveConnection => "NO ACTIVE CONNECTION",
            WorkspaceEmptyState::OpenTabs => "NO OPEN TABS",
        }
    }

    /// What to do next, shortened when space is tight.
    pub fn instruction(self, compact: bool) -> (r: &'static str)
        ensures
            self == WorkspaceEmptyState::Profiles && !compact ==> r@ == "Select NEW in Explorer, then press Enter."@,
            self == WorkspaceEmptyState::ActiveConnection && !compact ==> r@ == "Select a connection in Explorer, then press Enter."@,
            self == WorkspaceEmptyState::OpenTabs && !compact ==> r@ == "Open a tab from Explorer or the console list."@,
            self == WorkspaceEmptyState::Profiles && compact ==> r@ == "Select NEW in Explorer; press Enter."@,
            self == WorkspaceEmptyState::ActiveConnection && compact ==> r@ == "Select a connection; press Enter."@,
            self == WorkspaceEmptyState::OpenTabs && compact ==> r@ == "Open a tab from Explorer or consoles."@,
    {
        match (self, compact) {
            (WorkspaceEmptyState::Profiles, false) => "Select NEW in Explorer, then press Enter.",
            (WorkspaceEmptyState::ActiveConnection, false) => "Select a connection in Explorer, then press Enter.",
            (WorkspaceEmptyState::OpenTabs, false) => "Open a tab from Explorer or the console list.",
            (WorkspaceEmptyState::Profiles, true) => "Select NEW in Explorer; press Enter.",
            (WorkspaceEmptyState::ActiveConnection, true) => "Select a connection; press Enter.",
            (WorkspaceEmptyState::OpenTabs, true) => "Open a tab from Explorer or consoles.",
        }
    }
}

/// The workspace panes that are shown.
#[derive(Clone, Copy, Debug, PartialEq, Eq, Structural)]
pub struct AppLayout {
    pub tabs: Option<Rect>,
    pub editor: Option<Rect>,
    pub result_tabs: Option<Rect>,
    pub results: Option<Rect>,
}

/// The smallest rectangle holding two rectangles (edges saturating).
pub open spec fn union(a: Rect, b: Rect) -> Rect {
    let x = if a.x < b.x { a.x } else { b.x };
    let y = if a.y < b.y { a.y } else { b.y };
    let right = if a.spec_right() < b.spec_right() { b.spec_right() } else { a.spec_right() };
    let bottom = if a.spec_bottom() < b.spec_bottom() { b.spec_bottom() } else { a.spec_bottom() };
    Rect::spec_new(x, y, sat_sub(right, x), sat_sub(bottom, y))
}

/// Folds the union over the shown panes, in order.
pub open spec fn union_with(acc: Option<Rect>, next: Option<Rect>) -> Option<Rect> {
    match (acc, next) {
        (None, n) => n,
        (Some(a), None) => Some(a),
        (Some(a), Some(b)) => Some(union(a, b)),
    }
}

fn unite(acc: Option<Rect>, next: Option<Rect>) -> (r: Option<Rect>)
    ensures
        r == union_with(acc, next),
{
    match (acc, next) {
        (None, n) => n,
        (Some(a), None) => Some(a),
        (Some(a), Some(b)) => {
            let x = if a.x < b.x { a.x } else { b.x };
            let y = if a.y < b.y { a.y } else { b.y };
            let right = if a.right() < b.right() { b.right() } else { a.right() };
            let bottom = if a.bottom() < b.bottom() { b.bottom() } else { a.bottom() };
            Some(Rect::new(x, y, right.saturating_sub(x), bottom.saturating_sub(y)))
        },
    }
}

/// Where the empty-workspace message goes: over the tab bar, editor, result
/// tabs and results that are shown; nowhere when none is.
pub fn workspace_empty_area(layout: AppLayout) -> (r: Option<Rect>)
    ensures
        r == union_with(union_with(union_with(union_with(None, layout.tabs), layout.editor), layout.result_tabs), layout.results),
{
    let acc = unite(None, layout.tabs);
    let acc = unite(acc, layout.editor);
    let acc = unite(acc, layout.result_tabs);
    unite(acc, layout.results)
}

/// Law: the area covers every shown pane that sits within the screen's edges.
pub proof fn law_empty_area_covers_panes(a: Rect, b: Rect)
    requires
        a.x + a.width <= u16::MAX,
        a.y + a.height <= u16::MAX,
        b.x + b.width <= u16::MAX,
        b.y + b.height <= u16::MAX,
    ensures
        ({
            let u = union(a, b);
            &&& u.x <= a.x && u.y <= a.y && a.spec_right() <= u.spec_right() && a.spec_bottom() <= u.spec_bottom()
            &&& u.x <= b.x && u.y <= b.y && b.spec_right() <= u.spec_right() && b.spec_bottom() <= u.spec_bottom()
        }),
{
}

/// The clickable parts of an explorer row: the whole row, and for a node that
/// expands the two cells of its toggle after the indentation (two cells a
/// level, kept to 16 bits), when the indentation leaves room.
pub fn explorer_row_hits(area: Rect, depth: usize, expandable: bool) -> (r: (Option<Rect>, Option<Rect>))
    ensures
        area.spec_is_empty() ==> r.0 is None && r.1 is None,
        !area.spec_is_empty() ==> r.0 == Some(area) && ({
            let doubled = if depth * 2 > usize::MAX { usize::MAX as int } else { depth * 2 };
            let offset = (doubled % 0x10000) as u16;
            if expandable && offset < area.width {
                r.1 == Some(Rect::spec_new(sat_add(area.x, offset), area.y, if area.width - offset < 2 { (area.width - offset) as u16 } else { 2 }, 1))
            } else {
                r.1 is None
            }
        }),
{
    if area.is_empty() {
        return (None, None);
    }
    if !expandable {
        return (Some(area), None);
    }
    let doubled = if depth > usize::MAX / 2 { usize::MAX } else { depth * 2 };
    let offset = (doubled % 0x10000) as u16;
    if offset >= area.width {
        return (Some(area), None);
    }
    let rest = area.width - offset;
    let toggle = Rect::new(area.x.saturating_add(offset), area.y, if rest < 2 { rest } else { 2 }, 1);
    (Some(area), Some(toggle))
}

/// The regions of tab selectors ` label ` laid out from the area's left edge,
/// one blank between them, each cut at the area's right edge.
pub open spec fn selector_regions(area: Rect, labels: Seq<&str>, n: int) -> (Seq<Rect>, u16)
    decreases n,
{
    if n <= 0 {
        (seq![], area.x)
    } else {
        let (regions, x) = selector_regions(area, labels, n - 1);
        let width = ratatui_cell_width(" "@ + labels[n - 1]@ + " "@);
        let room = sat_sub(area.spec_right(), x);
        let region = Rect::spec_new(x, area.y, if width < room { width } else { room }, 1);
        let x = sat_add(x, width);
        let x = if n < labels.len() { sat_add(x, 1) } else { x };
        (regions.push(region), x)
    }
}

/// Where each tab selector is, for the clicks on it.
pub fn tab_selector_regions(area: Rect, labels: &[&str]) -> (r: Vec<Rect>)
    ensures
        r@ == selector_regions(area, labels@, labels@.len() as int).0,
{
    let mut regions: Vec<Rect> = Vec::new();
    let mut x = area.x;
    let mut i: usize = 0;
    while i < labels.len()
        invariant
            i <= labels@.len(),
            (regions@, x) == selector_regions(area, labels@, i as int),
        decreases labels@.len() - i,
    {
        let mut text = owned(" ");
        push_str(&mut text, labels[i]);
        push_str(&mut text, " ");
        proof { reveal_strlit(" "); }
        let width = cell_width(text.as_str());
        let room = area.right().saturating_sub(x);
        regions.push(Rect::new(x, area.y, if width < room { width } else { room }, 1));
        x = x.saturating_add(width);
        if i + 1 < labels.len() {
            x = x.saturating_add(1);
        }
        i = i + 1;
    }
    regions
}

} // verus!
