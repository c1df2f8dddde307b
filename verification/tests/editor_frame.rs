use lazydb::editor_frame::{
    editor_areas, editor_cursor, editor_gutter, editor_mode_label, editor_title, gutter_number_text, statement_mark,
    target_label, transaction_label,
    EditorModeKind, EditorTitleTarget, QueryState, SegmentKind, TargetFacts, TransactionFacts,
};
use lazydb::geometry::Rect;

#[test]
fn editor_gutter_fits_the_widest_line_number() {
    assert_eq!(editor_gutter(None), 6);
    assert_eq!(editor_gutter(Some(9)), 6);
    assert_eq!(editor_gutter(Some(99)), 6);
    assert_eq!(editor_gutter(Some(100)), 7);
    assert_eq!(editor_gutter(Some(12345)), 9);
}

#[test]
fn editor_labels_name_mode_transaction_and_target() {
    assert_eq!(editor_mode_label(EditorModeKind::VisualBlock), "VISUAL BLOCK");
    assert_eq!(transaction_label(None), "TX N/A");
    assert_eq!(transaction_label(Some(TransactionFacts::Auto)), "TX AUTO");
    let idle = TransactionFacts::Manual { active: false, aborted: false, unknown: false };
    assert_eq!(transaction_label(Some(idle)), "TX MANUAL:IDLE");
    let aborted = TransactionFacts::Manual { active: false, aborted: true, unknown: false };
    assert_eq!(transaction_label(Some(aborted)), "TX ABORTED");
    let mut t = TargetFacts {
        profile_name: "local".to_owned(),
        database: "app".to_owned(),
        schema: Some("public".to_owned()),
        connected: true,
        pending: false,
        target_error: false,
    };
    assert_eq!(target_label(Some(&t), true), "[local] app.public READY");
    assert_eq!(target_label(Some(&t), false), "[local] app.public OFFLINE");
    t.connected = false;
    t.schema = None;
    assert_eq!(target_label(Some(&t), true), "[local] app TARGET INACTIVE");
    t.target_error = true;
    assert_eq!(target_label(Some(&t), true), "[local] app TARGET ERROR");
    t.pending = true;
    assert_eq!(target_label(Some(&t), true), "[local] app CONNECTING");
    assert_eq!(target_label(None, true), "TARGET REQUIRED");
    assert_eq!(target_label(None, false), "OFFLINE / NO TARGET");
}

#[test]
fn editor_title_shows_every_segment_when_wide() {
    let t = editor_title(
        Rect::new(0, 0, 80, 10),
        EditorModeKind::Insert,
        Some(QueryState::Running),
        2,
        "[local] app.public READY",
        "TX AUTO",
    );
    assert_eq!(t.left, " SQL EDITOR  INSERT ");
    let context: Vec<(&str, SegmentKind)> = t.context.iter().map(|s| (s.text.as_str(), s.kind)).collect();
    assert_eq!(
        context,
        vec![
            (" QUERY RUNNING ", SegmentKind::Query(QueryState::Running)),
            (" DIAGNOSTICS 2 ", SegmentKind::Diagnostics),
            (" [local] app.public READY ", SegmentKind::Target),
            (" TX AUTO ", SegmentKind::Transaction),
        ]
    );
    let hits: Vec<(Rect, EditorTitleTarget)> = t.hits.iter().map(|h| (h.area, h.target)).collect();
    assert_eq!(
        hits,
        vec![
            (Rect::new(70, 0, 9, 1), EditorTitleTarget::TransactionMenu),
            (Rect::new(44, 0, 26, 1), EditorTitleTarget::ExecutionTarget),
        ]
    );
}

#[test]
fn narrow_editor_title_drops_the_mode_and_the_target() {
    let t = editor_title(
        Rect::new(0, 0, 50, 10),
        EditorModeKind::Insert,
        Some(QueryState::Running),
        2,
        "[local] app.public READY",
        "TX AUTO",
    );
    assert_eq!(t.left, " SQL EDITOR ");
    assert!(t.context.iter().all(|s| s.kind != SegmentKind::Target));
    assert_eq!(t.context.len(), 3);
    assert_eq!(t.hits.len(), 1);
    assert_eq!(t.hits[0].area, Rect::new(40, 0, 9, 1));
}

#[test]
fn editor_areas_leave_rows_for_prompt_and_scrollbar() {
    let a = editor_areas(Rect::new(0, 0, 60, 20), Some(120), 80, true);
    assert_eq!(a.inner, Rect::new(1, 1, 58, 18));
    assert_eq!(a.gutter, 7);
    assert!(a.has_horizontal_scrollbar);
    assert_eq!(a.viewport_height, 16);
    assert_eq!(a.text_area, Rect::new(1, 1, 58, 16));
    assert_eq!(a.text_viewport, Rect::new(8, 1, 51, 16));
    assert_eq!(a.horizontal_track, Some(Rect::new(2, 18, 56, 1)));
    assert_eq!(a.prompt_row, Some(Rect::new(1, 17, 58, 1)));
    assert_eq!(editor_cursor(a, (3, 2)), Some((11, 3)));
    assert_eq!(editor_cursor(a, (100, 2)), Some((58, 3)));
    assert_eq!(editor_cursor(a, (0, 30)), None);
    let plain = editor_areas(Rect::new(0, 0, 60, 20), Some(5), 10, false);
    assert!(!plain.has_horizontal_scrollbar);
    assert_eq!(plain.viewport_height, 18);
    assert_eq!(plain.prompt_row, None);
}

#[test]
fn gutter_numbers_are_one_based_and_right_aligned() {
    assert_eq!(gutter_number_text(0, 2), "  1 ");
    assert_eq!(gutter_number_text(8, 3), "   9 ");
    assert_eq!(gutter_number_text(99, 2), " 100 ");
    assert_eq!(statement_mark(true, EditorModeKind::Insert, true), ("┃", true));
    assert_eq!(statement_mark(true, EditorModeKind::Normal, false), ("┃", false));
    assert_eq!(statement_mark(true, EditorModeKind::VisualLine, true), ("│", false));
    assert_eq!(statement_mark(false, EditorModeKind::Insert, true), ("│", false));
}
