use lazydb::geometry::Rect;
use lazydb::hits::{target_at, HitRegion};

#[test]
fn later_regions_lie_on_top() {
    let regions = vec![
        HitRegion { area: Rect::new(0, 0, 10, 5), target: "panel" },
        HitRegion { area: Rect::new(2, 1, 3, 1), target: "button" },
    ];
    assert_eq!(target_at(&regions, 3, 1), Some(&"button"));
    assert_eq!(target_at(&regions, 5, 1), Some(&"panel"));
    assert_eq!(target_at(&regions, 0, 4), Some(&"panel"));
    assert_eq!(target_at(&regions, 10, 0), None);
    assert_eq!(target_at::<&str>(&[], 0, 0), None);
}
