use lazydb::dialog_footer::{action_width, measure, FooterDensity};
use lazydb::geometry::Rect;

#[test]
fn standard_layout_reserves_separators_and_help() {
    let layout = measure(Rect::new(0, 0, 80, 10), 28, 1, FooterDensity::Standard);

    assert_eq!(layout.density, FooterDensity::Standard);
    assert_eq!(layout.height(), 4);
    assert_eq!(layout.status_and_actions.y, 7);
    assert_eq!(layout.help.y, 9);
    assert!(layout.content_separator.is_some());
    assert!(layout.help_separator.is_some());
}

#[test]
fn compact_layout_fits_when_standard_footer_does_not() {
    let layout = measure(Rect::new(0, 0, 40, 2), 20, 1, FooterDensity::Standard);

    assert_eq!(layout.density, FooterDensity::Compact);
    assert_eq!(layout.height(), 2);
    assert!(layout.content_separator.is_none());
    assert!(layout.help_separator.is_none());
}

#[test]
fn action_and_status_areas_keep_a_gap_and_use_display_width() {
    let layout = measure(Rect::new(2, 4, 40, 4), 18, 1, FooterDensity::Standard);

    assert_eq!(layout.status_width(18, 2), 20);
    assert_eq!(
        layout.status_area(18, 2).right() + 2,
        layout.action_area(18, 2).x
    );
    assert_eq!(action_width(&["[ 保存 ]", "[ Cancel ]"], 2), 20);
}

#[test]
fn empty_area_is_safe() {
    let layout = measure(Rect::new(0, 0, 0, 0), 10, 1, FooterDensity::Standard);

    assert_eq!(layout.height(), 0);
    assert!(layout.help.is_empty());
}

#[test]
fn compact_density_is_kept_when_requested() {
    let layout = measure(Rect::new(0, 0, 80, 10), 10, 2, FooterDensity::Compact);
    assert_eq!(layout.density, FooterDensity::Compact);
    assert_eq!(layout.height(), 3);
    assert_eq!(layout.status_and_actions.y, 7);
    assert_eq!(layout.help, Rect::new(0, 8, 80, 2));
}
