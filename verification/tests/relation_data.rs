use lazydb::geometry::Rect;
use lazydb::relation_data::{relation_data_status, relation_data_view, status_line, RelationLoadFacts, RelationTarget};

fn regions(hits: &[lazydb::hits::HitRegion<RelationTarget>]) -> Vec<(Rect, RelationTarget)> {
    hits.iter().map(|h| (h.area, h.target)).collect()
}

#[test]
fn relation_error_detail_keeps_retry_and_cancel_targets_independent() {
    let line = status_line(Rect::new(0, 0, 60, 4), "relation failed", true, true);
    let detail = line
        .hits
        .iter()
        .find(|region| region.target == RelationTarget::StatusDetail)
        .expect("detail target");
    assert!(line.hits.iter().any(|region| region.target == RelationTarget::Retry));
    assert!(line.hits.iter().any(|region| region.target == RelationTarget::Cancel));
    assert!(!line
        .hits
        .iter()
        .filter(|region| region.target == RelationTarget::Retry)
        .any(|region| region.area.intersects(detail.area)));
    assert!(!line
        .hits
        .iter()
        .filter(|region| region.target == RelationTarget::Cancel)
        .any(|region| region.area.intersects(detail.area)));
}

#[test]
fn relation_state_line_reserves_cells_for_its_buttons() {
    let line = status_line(Rect::new(0, 0, 60, 1), "relation failed", true, true);
    assert_eq!(line.text, "relation failed  [r  retry]");
    assert_eq!(
        regions(&line.hits),
        vec![
            (Rect::new(0, 0, 36, 1), RelationTarget::StatusDetail),
            (Rect::new(36, 0, 10, 1), RelationTarget::Retry),
            (Rect::new(46, 0, 14, 1), RelationTarget::Cancel),
        ]
    );
    let plain = status_line(Rect::new(0, 0, 60, 1), "No relation data", false, false);
    assert_eq!(plain.text, "No relation data");
    assert_eq!(regions(&plain.hits), vec![(Rect::new(0, 0, 60, 1), RelationTarget::StatusDetail)]);
    let cancel = status_line(Rect::new(0, 0, 60, 1), "Loading", false, true);
    assert_eq!(cancel.text, "Loading  [Ctrl-C  cancel]");
}

#[test]
fn relation_load_states_choose_snapshot_and_state_line() {
    let (shown, status) = relation_data_status(&RelationLoadFacts::Loading { has_previous: true });
    let status = status.unwrap();
    assert!(shown);
    assert_eq!((status.message.as_str(), status.retry, status.cancel), ("Refreshing relation data", false, true));
    let (shown, status) = relation_data_status(&RelationLoadFacts::Loading { has_previous: false });
    assert!(!shown);
    assert_eq!(status.unwrap().message, "Loading relation data");
    let (shown, status) = relation_data_status(&RelationLoadFacts::Cancelled { has_previous: false });
    assert!(!shown);
    let status = status.unwrap();
    assert_eq!((status.message.as_str(), status.retry, status.cancel), ("Cancelled", true, false));
    let (shown, status) = relation_data_status(&RelationLoadFacts::Empty);
    assert!(!shown);
    assert_eq!(status.unwrap().message, "No relation data");
    let (shown, status) = relation_data_status(&RelationLoadFacts::Ready);
    assert!(shown && status.is_none());
}

#[test]
fn ready_relation_data_has_a_snapshot_footer() {
    let v = relation_data_view(Rect::new(0, 0, 80, 20), &RelationLoadFacts::Ready, 3, "select 1", 2, "LIVE");
    assert_eq!(v.inner, Rect::new(1, 1, 78, 18));
    assert_eq!(
        v.parts,
        vec![
            Rect::new(1, 1, 78, 3),
            Rect::new(1, 4, 78, 0),
            Rect::new(1, 4, 78, 13),
            Rect::new(1, 17, 78, 1),
            Rect::new(1, 18, 78, 1),
        ]
    );
    assert_eq!(v.footer.as_deref(), Some("SQL: select 1  2 rows  Snapshot: LIVE"));
    assert_eq!(v.detail.as_deref(), Some("SQL: select 1\nRows: 2\nSnapshot: LIVE"));
    assert!(v.pagination_live);
    assert_eq!(v.loading_note, None);
    assert_eq!(regions(&v.hits), vec![(Rect::new(1, 17, 78, 1), RelationTarget::SnapshotDetail)]);
}

#[test]
fn failed_refresh_keeps_the_snapshot_under_a_retry_line() {
    let load = RelationLoadFacts::Failed { message: "boom".to_owned(), has_previous: true };
    let v = relation_data_view(Rect::new(0, 0, 80, 20), &load, 3, "select 1", 2, "LIVE");
    assert_eq!(v.parts[1], Rect::new(1, 4, 78, 1));
    assert!(!v.pagination_live);
    assert_eq!(
        regions(&v.hits),
        vec![
            (Rect::new(1, 4, 68, 1), RelationTarget::StatusDetail),
            (Rect::new(69, 4, 10, 1), RelationTarget::Retry),
            (v.parts[3], RelationTarget::SnapshotDetail),
        ]
    );
}

#[test]
fn first_relation_load_can_be_cancelled_anywhere_in_its_view() {
    let v = relation_data_view(
        Rect::new(0, 0, 80, 20),
        &RelationLoadFacts::Loading { has_previous: false },
        3,
        "",
        0,
        "",
    );
    assert_eq!(v.parts.len(), 3);
    assert_eq!(v.parts[0], Rect::new(1, 1, 78, 3));
    assert_eq!(v.parts[2], Rect::new(1, 18, 78, 1));
    assert_eq!(v.footer, None);
    assert_eq!(regions(&v.hits), vec![(v.parts[1], RelationTarget::Cancel)]);
    let refreshing = relation_data_view(
        Rect::new(0, 0, 80, 20),
        &RelationLoadFacts::Loading { has_previous: true },
        3,
        "select 1",
        0,
        "LIVE",
    );
    assert_eq!(refreshing.loading_note, Some("showing previous snapshot"));
    assert_eq!(refreshing.hits[0].target, RelationTarget::Cancel);
}
