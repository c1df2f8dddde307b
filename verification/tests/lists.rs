use lazydb::geometry::Rect;
use lazydb::workspace::{explorer_row_hits, tab_selector_regions, workspace_empty_area, AppLayout};
use lazydb::completion::{completion_row_layout, CompletionColumns};
use lazydb::omni::visible_window;
use lazydb::relation::{principal_provenance_label, provenance_label, RelationSnapshotProvenance};
use lazydb::results::{names_repeat, tabular_column_names_ambiguous};

#[test]
fn window_follows_the_selection() {
    assert_eq!(visible_window(0, 5, 3, None), (0, 0));
    assert_eq!(visible_window(10, 4, 20, None), (6, 10));
    assert_eq!(visible_window(10, 4, 0, Some(7)), (4, 8));
    assert_eq!(visible_window(10, 4, 6, Some(2)), (2, 6));
    assert_eq!(visible_window(3, 5, 0, Some(2)), (0, 3));
}

#[test]
fn column_names_clash_regardless_of_case() {
    assert!(tabular_column_names_ambiguous(&["id", "Name", "NAME"]));
    assert!(!tabular_column_names_ambiguous(&["id", "name"]));
    assert!(!tabular_column_names_ambiguous(&[]));
    assert!(tabular_column_names_ambiguous(&["ÄRGER", "ärger"]));
    assert!(names_repeat(&["a".to_owned(), "b".to_owned(), "a".to_owned()]));
}

#[test]
fn provenance_captions() {
    assert_eq!(provenance_label(RelationSnapshotProvenance::OutOfScopeSnapshot), "OUT OF SCOPE SNAPSHOT");
    assert_eq!(principal_provenance_label(&[1, 2], 3, Some(9), 9), "PROFILE DELETED");
    assert_eq!(principal_provenance_label(&[1, 2], 2, Some(9), 9), "LIVE");
    assert_eq!(principal_provenance_label(&[1, 2], 2, None, 9), "OFFLINE");
}

#[test]
fn empty_workspace_area_covers_the_shown_panes() {
    let layout = AppLayout {
        tabs: Some(Rect::new(20, 0, 60, 1)),
        editor: Some(Rect::new(20, 1, 60, 10)),
        result_tabs: None,
        results: Some(Rect::new(20, 11, 60, 12)),
    };
    assert_eq!(workspace_empty_area(layout), Some(Rect::new(20, 0, 60, 23)));
    let none = AppLayout { tabs: None, editor: None, result_tabs: None, results: None };
    assert_eq!(workspace_empty_area(none), None);
}

#[test]
fn explorer_rows_expose_their_toggle() {
    let area = Rect::new(0, 3, 30, 1);
    assert_eq!(explorer_row_hits(area, 2, true), (Some(area), Some(Rect::new(4, 3, 2, 1))));
    assert_eq!(explorer_row_hits(area, 2, false), (Some(area), None));
    assert_eq!(explorer_row_hits(area, 20, true), (Some(area), None));
    assert_eq!(explorer_row_hits(Rect::new(0, 0, 0, 1), 0, true), (None, None));
    assert_eq!(explorer_row_hits(Rect::new(0, 0, 5, 1), 2, true), (Some(Rect::new(0, 0, 5, 1)), Some(Rect::new(4, 0, 1, 1))));
}

#[test]
fn tab_selectors_sit_side_by_side() {
    assert_eq!(
        tab_selector_regions(Rect::new(2, 1, 40, 2), &["OVERVIEW", "DDL"]),
        vec![Rect::new(2, 1, 10, 1), Rect::new(13, 1, 5, 1)]
    );
    assert_eq!(tab_selector_regions(Rect::new(0, 0, 6, 1), &["OVERVIEW"]), vec![Rect::new(0, 0, 6, 1)]);
}

#[test]
fn completion_rows_pad_icon_label_and_detail() {
    let columns = CompletionColumns { icon: 2, label: 10, detail: 6 };
    let row = completion_row_layout(columns, 30, "T", &["users".to_owned()], "varchar(255)");
    assert_eq!(row.icon_padding, 1);
    let (detail, padding) = row.detail.unwrap();
    assert_eq!(detail, "varch…");
    assert_eq!(padding, 10 - 5 + 2);
    assert_eq!(row.trailing, 30 - (3 + 5 + 7 + 6));
    let bare = completion_row_layout(columns, 30, "T", &["users".to_owned()], "");
    assert!(bare.detail.is_none());
    assert_eq!(bare.trailing, 30 - 8);
}
