//! The order in which a frame is drawn: which panel goes where for the active
//! tab, the focus and help regions registered before each panel, the pane
//! resize handles, and the layers over the workspace.
use vstd::prelude::*;
use crate::geometry::Rect;

verus! {

/// What kind of tab is active.
#[derive(Clone, Copy, Debug, PartialEq, Eq, Structural)]
pub enum ActiveTabKind {
    /// A console, or no tab at all.
    Console,
    Relation,
    Dashboard,
    RedisBrowser,
    PrincipalDdl,
}

/// A panel that a drawing step draws.
#[derive(Clone, Copy, Debug, PartialEq, Eq, Structural)]
pub enum Panel {
    TooSmall,
    Tabs,
    Explorer,
    RedisBrowser,
    RedisDashboard,
    Dashboard,
    Principal,
    Relation,
    EmptyWorkspace,
    Editor,
    ResultTabs,
    Results,
    Footer,
    Overlay,
    Omni,
}

/// Which pane boundary a resize handle moves.
#[derive(Clone, Copy, Debug, PartialEq, Eq, Structural)]
pub enum PaneSplitKind {
    ExplorerWidth,
    EditorHeight,
    RedisKeysWidth,
}

/// What a click on a frame-level region reaches.
#[derive(Clone, Copy, Debug, PartialEq, Eq, Structural)]
pub enum FrameTarget {
    FocusExplorer,
    FocusEditor,
    FocusResults,
    Help,
    PaneResize(PaneSplitKind),
    Omni,
}

/// One step of drawing a frame: register a click region, or draw a panel.
#[derive(Clone, Copy, Debug, PartialEq, Eq, Structural)]
pub enum FrameStep {
    Region(Rect, FrameTarget),
    Draw(Panel, Rect),
}

/// The screen's panes, as the application layout placed them, and the resize
/// handles it offers.
#[derive(Clone, Copy, Debug, PartialEq, Eq, Structural)]
pub struct FramePanes {
    pub screen: Rect,
    pub too_small: bool,
    pub tabs: Option<Rect>,
    pub explorer: Option<Rect>,
    /// The pane of a relation, dashboard, Redis browser or principal tab.
    pub relation: Option<Rect>,
    pub editor: Option<Rect>,
    pub result_tabs: Option<Rect>,
    pub results: Option<Rect>,
    pub footer: Rect,
    pub explorer_resize: Option<Rect>,
    pub editor_resize: Option<Rect>,
    pub redis_keys_resize: Option<Rect>,
}

/// What else decides the frame: the active tab, whether a dashboard is of a
/// Redis profile, where the empty-workspace message goes (when the workspace
/// is empty), and which layers are open.
#[derive(Clone, Copy, Debug, PartialEq, Eq, Structural)]
pub struct FrameFacts {
    pub kind: ActiveTabKind,
    pub redis_dashboard: bool,
    pub empty_workspace: Option<Option<Rect>>,
    pub overlay: bool,
    pub catalog_editor: bool,
    pub omni: bool,
}

pub open spec fn opt_steps(area: Option<Rect>, target: FrameTarget, panel: Panel) -> Seq<FrameStep> {
    match area {
        Some(a) => seq![FrameStep::Region(a, target), FrameStep::Draw(panel, a)],
        None => seq![],
    }
}

pub open spec fn draw_opt(area: Option<Rect>, panel: Panel) -> Seq<FrameStep> {
    match area {
        Some(a) => seq![FrameStep::Draw(panel, a)],
        None => seq![],
    }
}

pub open spec fn footer_steps(footer: Rect) -> Seq<FrameStep> {
    seq![FrameStep::Region(footer, FrameTarget::Help), FrameStep::Draw(Panel::Footer, footer)]
}

/// The panel a relation-like tab draws in its pane.
pub open spec fn pane_panel(f: FrameFacts) -> Panel {
    match f.kind {
        ActiveTabKind::RedisBrowser => Panel::RedisBrowser,
        ActiveTabKind::Dashboard => if f.redis_dashboard { Panel::RedisDashboard } else { Panel::Dashboard },
        ActiveTabKind::PrincipalDdl => Panel::Principal,
        _ => Panel::Relation,
    }
}

/// The editor is drawn: a console is active, the workspace is not empty, and
/// the layout shows an editor.
pub open spec fn editor_drawn(p: FramePanes, f: FrameFacts) -> bool {
    f.kind == ActiveTabKind::Console && f.empty_workspace is None && p.editor is Some
}

/// The workspace under any layer: the explorer, then the active tab's panes,
/// then the footer (which the catalog editor hides).
pub open spec fn workspace_steps(p: FramePanes, f: FrameFacts) -> Seq<FrameStep> {
    let explorer = opt_steps(p.explorer, FrameTarget::FocusExplorer, Panel::Explorer);
    if f.kind == ActiveTabKind::Console {
        let body = match f.empty_workspace {
            Some(area) => draw_opt(area, Panel::EmptyWorkspace),
            None => opt_steps(p.editor, FrameTarget::FocusEditor, Panel::Editor)
                + draw_opt(p.result_tabs, Panel::ResultTabs)
                + opt_steps(p.results, FrameTarget::FocusResults, Panel::Results),
        };
        explorer + body + (if f.catalog_editor { seq![] } else { footer_steps(p.footer) })
    } else {
        let pane = match p.relation {
            Some(a) => if f.kind == ActiveTabKind::RedisBrowser {
                seq![FrameStep::Draw(Panel::RedisBrowser, a)]
            } else {
                seq![FrameStep::Region(a, FrameTarget::FocusResults), FrameStep::Draw(pane_panel(f), a)]
            },
            None => seq![],
        };
        explorer + pane + footer_steps(p.footer)
    }
}

/// The resize handles, offered only without an overlay; the editor's only
/// where the editor is drawn, and the Redis key list's only on a Redis browser.
pub open spec fn resize_steps(p: FramePanes, f: FrameFacts) -> Seq<FrameStep> {
    if f.overlay {
        seq![]
    } else {
        (match p.explorer_resize { Some(a) => seq![FrameStep::Region(a, FrameTarget::PaneResize(PaneSplitKind::ExplorerWidth))], None => seq![] })
            + (if editor_drawn(p, f) {
                match p.editor_resize { Some(a) => seq![FrameStep::Region(a, FrameTarget::PaneResize(PaneSplitKind::EditorHeight))], None => seq![] }
            } else {
                seq![]
            })
            + (if f.kind == ActiveTabKind::RedisBrowser {
                match p.redis_keys_resize { Some(a) => seq![FrameStep::Region(a, FrameTarget::PaneResize(PaneSplitKind::RedisKeysWidth))], None => seq![] }
            } else {
                seq![]
            })
    }
}

/// The whole frame: on a screen too small only the notice (and Omni over it);
/// otherwise the tab bar, the workspace, the resize handles, the overlay and
/// Omni on top, each taking the clicks of the whole screen.
pub open spec fn spec_frame_plan(p: FramePanes, f: FrameFacts) -> Seq<FrameStep> {
    let omni = if f.omni {
        seq![FrameStep::Region(p.screen, FrameTarget::Omni), FrameStep::Draw(Panel::Omni, p.screen)]
    } else {
        seq![]
    };
    if p.too_small {
        seq![FrameStep::Draw(Panel::TooSmall, p.screen)] + omni
    } else {
        draw_opt(p.tabs, Panel::Tabs)
            + workspace_steps(p, f)
            + resize_steps(p, f)
            + (if f.overlay { seq![FrameStep::Draw(Panel::Overlay, p.screen)] } else { seq![] })
            + omni
    }
}

fn push_opt(steps: &mut Vec<FrameStep>, area: Option<Rect>, target: FrameTarget, panel: Panel)
    ensures
        final(steps)@ == old(steps)@ + opt_steps(area, target, panel),
{
    match area {
        Some(a) => {
            steps.push(FrameStep::Region(a, target));
            steps.push(FrameStep::Draw(panel, a));
        },
        None => {},
    }
    assert(final(steps)@ =~= old(steps)@ + opt_steps(area, target, panel));
}

fn push_draw(steps: &mut Vec<FrameStep>, area: Option<Rect>, panel: Panel)
    ensures
        final(steps)@ == old(steps)@ + draw_opt(area, panel),
{
    match area {
        Some(a) => steps.push(FrameStep::Draw(panel, a)),
        None => {},
    }
    assert(final(steps)@ =~= old(steps)@ + draw_opt(area, panel));
}

fn push_footer(steps: &mut Vec<FrameStep>, footer: Rect)
    ensures
        final(steps)@ == old(steps)@ + footer_steps(footer),
{
    steps.push(FrameStep::Region(footer, FrameTarget::Help));
    steps.push(FrameStep::Draw(Panel::Footer, footer));
    assert(final(steps)@ =~= old(steps)@ + footer_steps(footer));
}

fn workspace(p: FramePanes, f: FrameFacts) -> (out: Vec<FrameStep>)
    ensures
        out@ == workspace_steps(p, f),
{
    let mut steps: Vec<FrameStep> = Vec::new();
    push_opt(&mut steps, p.explorer, FrameTarget::FocusExplorer, Panel::Explorer);
    let ghost explorer = steps@;
    if f.kind == ActiveTabKind::Console {
        match f.empty_workspace {
            Some(area) => push_draw(&mut steps, area, Panel::EmptyWorkspace),
            None => {
                push_opt(&mut steps, p.editor, FrameTarget::FocusEditor, Panel::Editor);
                push_draw(&mut steps, p.result_tabs, Panel::ResultTabs);
                push_opt(&mut steps, p.results, FrameTarget::FocusResults, Panel::Results);
            },
        }
        if !f.catalog_editor {
            push_footer(&mut steps, p.footer);
        }
    } else {
        match p.relation {
            Some(a) => {
                if f.kind == ActiveTabKind::RedisBrowser {
                    steps.push(FrameStep::Draw(Panel::RedisBrowser, a));
                } else {
                    let panel = match f.kind {
                        ActiveTabKind::Dashboard => if f.redis_dashboard { Panel::RedisDashboard } else { Panel::Dashboard },
                        ActiveTabKind::PrincipalDdl => Panel::Principal,
                        _ => Panel::Relation,
                    };
                    steps.push(FrameStep::Region(a, FrameTarget::FocusResults));
                    steps.push(FrameStep::Draw(panel, a));
                }
            },
            None => {},
        }
        push_footer(&mut steps, p.footer);
    }
    assert(steps@ =~= workspace_steps(p, f));
    steps
}

fn resize_handles(p: FramePanes, f: FrameFacts) -> (out: Vec<FrameStep>)
    ensures
        out@ == resize_steps(p, f),
{
    let mut steps: Vec<FrameStep> = Vec::new();
    if !f.overlay {
        match p.explorer_resize {
            Some(a) => steps.push(FrameStep::Region(a, FrameTarget::PaneResize(PaneSplitKind::ExplorerWidth))),
            None => {},
        }
        let editor = f.kind == ActiveTabKind::Console && f.empty_workspace.is_none() && p.editor.is_some();
        if editor {
            match p.editor_resize {
                Some(a) => steps.push(FrameStep::Region(a, FrameTarget::PaneResize(PaneSplitKind::EditorHeight))),
                None => {},
            }
        }
        if f.kind == ActiveTabKind::RedisBrowser {
            match p.redis_keys_resize {
                Some(a) => steps.push(FrameStep::Region(a, FrameTarget::PaneResize(PaneSplitKind::RedisKeysWidth))),
                None => {},
            }
        }
    }
    assert(steps@ =~= resize_steps(p, f));
    steps
}

/// The steps that draw a frame with these panes and facts, in order.
pub fn frame_plan(p: FramePanes, f: FrameFacts) -> (out: Vec<FrameStep>)
    ensures
        out@ == spec_frame_plan(p, f),
{
    let mut steps: Vec<FrameStep> = Vec::new();
    if p.too_small {
        steps.push(FrameStep::Draw(Panel::TooSmall, p.screen));
    } else {
        push_draw(&mut steps, p.tabs, Panel::Tabs);
        let mut body = workspace(p, f);
        steps.append(&mut body);
        let mut handles = resize_handles(p, f);
        steps.append(&mut handles);
        if f.overlay {
            steps.push(FrameStep::Draw(Panel::Overlay, p.screen));
        }
    }
    if f.omni {
        steps.push(FrameStep::Region(p.screen, FrameTarget::Omni));
        steps.push(FrameStep::Draw(Panel::Omni, p.screen));
    }
    assert(steps@ =~= spec_frame_plan(p, f));
    steps
}

/// The handle that the layout offers for `split`; the Redis key list's only
/// on a Redis browser.
pub open spec fn handle_of(p: FramePanes, f: FrameFacts, split: PaneSplitKind) -> Option<Rect> {
    match split {
        PaneSplitKind::ExplorerWidth => p.explorer_resize,
        PaneSplitKind::EditorHeight => p.editor_resize,
        PaneSplitKind::RedisKeysWidth => if f.kind == ActiveTabKind::RedisBrowser { p.redis_keys_resize } else { None },
    }
}

fn handle(p: FramePanes, f: FrameFacts, split: PaneSplitKind) -> (r: Option<Rect>)
    ensures
        r == handle_of(p, f, split),
{
    match split {
        PaneSplitKind::ExplorerWidth => p.explorer_resize,
        PaneSplitKind::EditorHeight => p.editor_resize,
        PaneSplitKind::RedisKeysWidth => if f.kind == ActiveTabKind::RedisBrowser { p.redis_keys_resize } else { None },
    }
}

/// Whether a pane-resize drag along `split` must be dropped: an overlay is
/// open, or the frame no longer offers its handle (the editor's only while
/// the editor is drawn).
pub fn resize_drag_is_stale(p: FramePanes, f: FrameFacts, split: PaneSplitKind) -> (r: bool)
    ensures
        r == (f.overlay || handle_of(p, f, split) is None
            || (split == PaneSplitKind::EditorHeight && !editor_drawn(p, f))),
{
    let editor = f.kind == ActiveTabKind::Console && f.empty_workspace.is_none() && p.editor.is_some();
    f.overlay || handle(p, f, split).is_none() || (split == PaneSplitKind::EditorHeight && !editor)
}

/// The handle highlighted while a drag along `split` goes on: none under an
/// overlay.
pub fn drag_highlight(p: FramePanes, f: FrameFacts, split: PaneSplitKind) -> (r: Option<Rect>)
    ensures
        r == (if f.overlay { None } else { handle_of(p, f, split) }),
{
    if f.overlay { None } else { handle(p, f, split) }
}

/// A drag that is kept has its handle highlighted, and that handle is one the
/// frame registers as a resize region.
pub proof fn law_kept_drag_is_highlighted(p: FramePanes, f: FrameFacts, split: PaneSplitKind)
    requires
        !(f.overlay || handle_of(p, f, split) is None
            || (split == PaneSplitKind::EditorHeight && !editor_drawn(p, f))),
        !p.too_small,
    ensures
        handle_of(p, f, split) matches Some(a)
            && spec_frame_plan(p, f).contains(FrameStep::Region(a, FrameTarget::PaneResize(split))),
{
    let a = handle_of(p, f, split)->0;
    let step = FrameStep::Region(a, FrameTarget::PaneResize(split));
    let r = resize_steps(p, f);
    let e = match p.explorer_resize { Some(x) => seq![FrameStep::Region(x, FrameTarget::PaneResize(PaneSplitKind::ExplorerWidth))], None => seq![] };
    let m = if editor_drawn(p, f) {
        match p.editor_resize { Some(x) => seq![FrameStep::Region(x, FrameTarget::PaneResize(PaneSplitKind::EditorHeight))], None => seq![] }
    } else {
        seq![]
    };
    let k = if f.kind == ActiveTabKind::RedisBrowser {
        match p.redis_keys_resize { Some(x) => seq![FrameStep::Region(x, FrameTarget::PaneResize(PaneSplitKind::RedisKeysWidth))], None => seq![] }
    } else {
        seq![]
    };
    assert(r == e + m + k);
    let idx: int = match split {
        PaneSplitKind::ExplorerWidth => 0,
        PaneSplitKind::EditorHeight => e.len() as int,
        PaneSplitKind::RedisKeysWidth => (e.len() + m.len()) as int,
    };
    assert(r[idx] == step);
    let before = draw_opt(p.tabs, Panel::Tabs) + workspace_steps(p, f);
    let after = (if f.overlay { seq![FrameStep::Draw(Panel::Overlay, p.screen)] } else { seq![] })
        + (if f.omni { seq![FrameStep::Region(p.screen, FrameTarget::Omni), FrameStep::Draw(Panel::Omni, p.screen)] } else { seq![] });
    let plan = spec_frame_plan(p, f);
    assert(plan == before + r + after);
    assert(plan[before.len() + idx] == step);
}

} // verus!
