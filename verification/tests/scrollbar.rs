use lazydb::geometry::Rect;
use lazydb::scrollbar::{geometry, ScrollbarGeometry};

#[test]
fn geometry_uses_the_full_track_and_clamps_the_thumb() {
    let horizontal = geometry(Rect::new(0, 0, 12, 1), 2, 10, 100).unwrap();
    assert_eq!(horizontal.rail, Rect::new(1, 0, 10, 1));
    assert_eq!(horizontal.thumb_length, 2);
    assert_eq!(horizontal.thumb_start, 8);

    let vertical = geometry(Rect::new(4, 2, 1, 12), 2, 10, 100).unwrap();
    assert_eq!(vertical.rail, Rect::new(4, 3, 1, 10));
    assert_eq!(vertical.thumb_length, 2);
    assert_eq!(vertical.thumb_start, 8);
}

#[test]
fn geometry_hides_when_there_is_no_scrollable_content() {
    assert!(geometry(Rect::new(0, 0, 2, 1), 1, 2, 0).is_none());
    assert!(geometry(Rect::new(0, 0, 10, 1), 10, 10, 0).is_none());
    assert!(geometry(Rect::new(0, 0, 10, 1), 0, 10, 0).is_none());
}

#[test]
fn offset_at_preserves_the_pointer_offset_inside_the_thumb() {
    let geometry = geometry(Rect::new(0, 0, 12, 1), 2, 10, 4).unwrap();
    assert_eq!(geometry.offset_at(geometry.thumb_area().x + 1, 1), 4);
    assert_eq!(geometry.offset_at(100, 0), geometry.max_offset);
}

#[test]
fn geometry_handles_large_ranges_without_overflow() {
    let geometry = geometry(
        Rect::new(0, 0, u16::MAX, 1),
        usize::MAX / 4,
        usize::MAX / 2,
        usize::MAX,
    )
    .unwrap();
    assert!(geometry.thumb_length > 0);
    assert_eq!(geometry.offset_at(u16::MAX, 0), geometry.max_offset);
}

#[test]
fn thumb_area_matches_the_axis_of_the_rail() {
    let horizontal = ScrollbarGeometry {
        rail: Rect::new(1, 2, 10, 1),
        thumb_start: 3,
        thumb_length: 2,
        max_offset: 1,
    };
    assert_eq!(horizontal.thumb_area(), Rect::new(4, 2, 2, 1));
    let vertical = ScrollbarGeometry {
        rail: Rect::new(1, 2, 1, 10),
        thumb_start: 3,
        thumb_length: 2,
        max_offset: 1,
    };
    assert_eq!(vertical.thumb_area(), Rect::new(1, 5, 1, 2));
}

#[test]
fn offset_at_the_rail_start_is_zero() {
    let geometry = geometry(Rect::new(0, 0, 12, 1), 2, 10, 4).unwrap();
    assert_eq!(geometry.offset_at(0, 0), 0);
    assert_eq!(geometry.offset_at(1, 0), 0);
}
