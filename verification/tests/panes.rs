use lazydb::geometry::Rect;
use lazydb::panes::{centered, principal_ddl_layout};

#[test]
fn centered_box_is_capped_and_split_evenly() {
    assert_eq!(centered(Rect::new(0, 0, 100, 40), 60, 20), Rect::new(20, 10, 60, 20));
    assert_eq!(centered(Rect::new(0, 0, 101, 41), 60, 20), Rect::new(20, 10, 60, 20));
}

#[test]
fn centered_box_keeps_a_margin_in_small_areas() {
    assert_eq!(centered(Rect::new(5, 3, 30, 10), 80, 20), Rect::new(7, 4, 26, 8));
    assert_eq!(centered(Rect::new(0, 0, 3, 1), 80, 20), Rect::new(1, 0, 0, 0));
}

#[test]
fn principal_ddl_rows_reserve_a_status_line_only_when_needed() {
    let area = Rect::new(0, 0, 80, 24);
    assert_eq!(
        principal_ddl_layout(area, true),
        [Rect::new(0, 0, 80, 2), Rect::new(0, 2, 80, 2), Rect::new(0, 4, 80, 20)]
    );
    assert_eq!(
        principal_ddl_layout(area, false),
        [Rect::new(0, 0, 80, 2), Rect::new(0, 2, 80, 0), Rect::new(0, 2, 80, 22)]
    );
}
