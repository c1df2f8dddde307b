use lazydb::frame_plan::{
    drag_highlight, frame_plan, resize_drag_is_stale, ActiveTabKind, FrameFacts, FramePanes, FrameStep, FrameTarget, PaneSplitKind, Panel,
};
use lazydb::geometry::Rect;

fn panes() -> FramePanes {
    FramePanes {
        screen: Rect::new(0, 0, 120, 40),
        too_small: false,
        tabs: Some(Rect::new(30, 0, 90, 1)),
        explorer: Some(Rect::new(0, 0, 30, 39)),
        relation: Some(Rect::new(30, 1, 90, 38)),
        editor: Some(Rect::new(30, 1, 90, 18)),
        result_tabs: Some(Rect::new(30, 19, 90, 1)),
        results: Some(Rect::new(30, 20, 90, 19)),
        footer: Rect::new(0, 39, 120, 1),
        explorer_resize: Some(Rect::new(29, 0, 2, 39)),
        editor_resize: Some(Rect::new(30, 18, 90, 2)),
        redis_keys_resize: Some(Rect::new(60, 1, 2, 38)),
    }
}

fn facts(kind: ActiveTabKind) -> FrameFacts {
    FrameFacts { kind, redis_dashboard: false, empty_workspace: None, overlay: false, catalog_editor: false, omni: false }
}

#[test]
fn console_frame_draws_editor_and_results_with_their_handles() {
    let p = panes();
    let plan = frame_plan(p, facts(ActiveTabKind::Console));
    assert_eq!(
        plan,
        vec![
            FrameStep::Draw(Panel::Tabs, Rect::new(30, 0, 90, 1)),
            FrameStep::Region(Rect::new(0, 0, 30, 39), FrameTarget::FocusExplorer),
            FrameStep::Draw(Panel::Explorer, Rect::new(0, 0, 30, 39)),
            FrameStep::Region(Rect::new(30, 1, 90, 18), FrameTarget::FocusEditor),
            FrameStep::Draw(Panel::Editor, Rect::new(30, 1, 90, 18)),
            FrameStep::Draw(Panel::ResultTabs, Rect::new(30, 19, 90, 1)),
            FrameStep::Region(Rect::new(30, 20, 90, 19), FrameTarget::FocusResults),
            FrameStep::Draw(Panel::Results, Rect::new(30, 20, 90, 19)),
            FrameStep::Region(Rect::new(0, 39, 120, 1), FrameTarget::Help),
            FrameStep::Draw(Panel::Footer, Rect::new(0, 39, 120, 1)),
            FrameStep::Region(Rect::new(29, 0, 2, 39), FrameTarget::PaneResize(PaneSplitKind::ExplorerWidth)),
            FrameStep::Region(Rect::new(30, 18, 90, 2), FrameTarget::PaneResize(PaneSplitKind::EditorHeight)),
        ]
    );
}

#[test]
fn redis_browser_frame_has_no_focus_region_of_its_own() {
    let p = panes();
    let plan = frame_plan(p, facts(ActiveTabKind::RedisBrowser));
    assert_eq!(plan[3], FrameStep::Draw(Panel::RedisBrowser, Rect::new(30, 1, 90, 38)));
    assert_eq!(
        plan[plan.len() - 1],
        FrameStep::Region(Rect::new(60, 1, 2, 38), FrameTarget::PaneResize(PaneSplitKind::RedisKeysWidth))
    );
    assert!(!plan.contains(&FrameStep::Region(Rect::new(30, 18, 90, 2), FrameTarget::PaneResize(PaneSplitKind::EditorHeight))));
    let mut dashboard = facts(ActiveTabKind::Dashboard);
    dashboard.redis_dashboard = true;
    let plan = frame_plan(p, dashboard);
    assert_eq!(plan[3], FrameStep::Region(Rect::new(30, 1, 90, 38), FrameTarget::FocusResults));
    assert_eq!(plan[4], FrameStep::Draw(Panel::RedisDashboard, Rect::new(30, 1, 90, 38)));
}

#[test]
fn empty_workspace_overlay_and_omni_layers() {
    let p = panes();
    let mut f = facts(ActiveTabKind::Console);
    f.empty_workspace = Some(Some(Rect::new(30, 0, 90, 39)));
    f.overlay = true;
    f.catalog_editor = true;
    f.omni = true;
    let plan = frame_plan(p, f);
    assert_eq!(
        plan,
        vec![
            FrameStep::Draw(Panel::Tabs, Rect::new(30, 0, 90, 1)),
            FrameStep::Region(Rect::new(0, 0, 30, 39), FrameTarget::FocusExplorer),
            FrameStep::Draw(Panel::Explorer, Rect::new(0, 0, 30, 39)),
            FrameStep::Draw(Panel::EmptyWorkspace, Rect::new(30, 0, 90, 39)),
            FrameStep::Draw(Panel::Overlay, Rect::new(0, 0, 120, 40)),
            FrameStep::Region(Rect::new(0, 0, 120, 40), FrameTarget::Omni),
            FrameStep::Draw(Panel::Omni, Rect::new(0, 0, 120, 40)),
        ]
    );
    let mut small = p;
    small.too_small = true;
    let plan = frame_plan(small, facts(ActiveTabKind::Console));
    assert_eq!(plan, vec![FrameStep::Draw(Panel::TooSmall, Rect::new(0, 0, 120, 40))]);
}

#[test]
fn resize_drags_are_dropped_when_their_handle_goes() {
    let p = panes();
    let console = facts(ActiveTabKind::Console);
    assert!(!resize_drag_is_stale(p, console, PaneSplitKind::EditorHeight));
    assert_eq!(drag_highlight(p, console, PaneSplitKind::EditorHeight), Some(Rect::new(30, 18, 90, 2)));
    assert!(resize_drag_is_stale(p, console, PaneSplitKind::RedisKeysWidth));
    let relation = facts(ActiveTabKind::Relation);
    assert!(resize_drag_is_stale(p, relation, PaneSplitKind::EditorHeight));
    assert!(!resize_drag_is_stale(p, relation, PaneSplitKind::ExplorerWidth));
    let redis = facts(ActiveTabKind::RedisBrowser);
    assert!(!resize_drag_is_stale(p, redis, PaneSplitKind::RedisKeysWidth));
    let mut covered = console;
    covered.overlay = true;
    assert!(resize_drag_is_stale(p, covered, PaneSplitKind::ExplorerWidth));
    assert_eq!(drag_highlight(p, covered, PaneSplitKind::ExplorerWidth), None);
}
