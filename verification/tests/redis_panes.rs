use lazydb::geometry::Rect;
use lazydb::redis_browser::KeyspaceStatus;
use lazydb::redis_keys_pane::{keys_pane, preview_pane, FindPhase, KeysFind, RedisPaneTarget};

#[test]
fn key_list_shows_a_window_of_keys_with_a_scrollbar() {
    let p = keys_pane(Rect::new(1, 1, 30, 20), &KeyspaceStatus::Complete, 50, 10, None);
    assert_eq!(p.status, None);
    assert_eq!(p.status_rows, 0);
    assert_eq!(p.footer, None);
    assert_eq!(p.row_area, Rect::new(1, 1, 30, 20));
    assert_eq!((p.first, p.shown), (10, 20));
    assert_eq!(p.track, Rect::new(30, 1, 1, 20));
    let g = p.scrollbar.unwrap();
    assert_eq!((g.rail, g.thumb_start, g.thumb_length, g.max_offset), (Rect::new(30, 2, 1, 18), 3, 7, 30));
    assert!(p.find_line.is_none() && p.cursor.is_none() && p.hits.is_empty());
}

#[test]
fn failed_scan_takes_two_status_rows_under_an_open_find() {
    let find = KeysFind { query: "ab".to_owned(), phase: FindPhase::Editing, matches: 2 };
    let p = keys_pane(Rect::new(1, 1, 30, 20), &KeyspaceStatus::Failed("boom".to_owned()), 5, 0, Some(&find));
    assert_eq!(p.status.as_deref(), Some("boom - r=Retry"));
    assert_eq!(p.status_rows, 2);
    assert_eq!(p.footer, Some(Rect::new(1, 19, 30, 2)));
    assert_eq!(p.row_area, Rect::new(1, 2, 30, 17));
    assert_eq!(p.shown, 5);
    let (line, area) = p.find_line.clone().unwrap();
    assert_eq!(line, "/ ab");
    assert_eq!(area, Rect::new(1, 1, 30, 1));
    assert_eq!(p.cursor, Some((5, 1)));
    let hits: Vec<(Rect, RedisPaneTarget)> = p.hits.iter().map(|h| (h.area, h.target)).collect();
    assert_eq!(hits, vec![(Rect::new(1, 1, 30, 1), RedisPaneTarget::FindInput)]);
}

#[test]
fn key_list_status_follows_find_and_scan_state() {
    let none = KeysFind { query: "zz".to_owned(), phase: FindPhase::Confirmed, matches: 0 };
    let p = keys_pane(Rect::new(1, 1, 30, 20), &KeyspaceStatus::Complete, 5, 0, Some(&none));
    assert_eq!(p.status.as_deref(), Some("No matching loaded keys"));
    assert_eq!(p.find_line.clone().unwrap().0, "? zz");
    assert_eq!(p.cursor, None);
    let empty = keys_pane(Rect::new(1, 1, 30, 20), &KeyspaceStatus::Loading, 0, 0, None);
    assert_eq!(empty.status.as_deref(), Some("Loading keys…"));
    assert_eq!(empty.shown, 0);
    let stale = keys_pane(Rect::new(1, 1, 30, 20), &KeyspaceStatus::Stale, 3, 0, None);
    assert_eq!(stale.status.as_deref(), Some("Showing stale keys; press r to refresh"));
    let paused = keys_pane(Rect::new(1, 1, 30, 20), &KeyspaceStatus::Paused { loaded: 9 }, 3, 0, None);
    assert_eq!(paused.status.as_deref(), Some("Scan paused at client cache limit"));
    let partial = keys_pane(Rect::new(1, 1, 30, 20), &KeyspaceStatus::Partial, 3, 0, None);
    assert_eq!(partial.status.as_deref(), Some("Continue scanning: press r"));
}

#[test]
fn value_preview_places_its_format_and_wrap_controls() {
    let p = preview_pane(Rect::new(40, 0, 40, 20), "auto (json)", false, true).unwrap();
    assert_eq!(p.header, Rect::new(40, 0, 40, 2));
    assert_eq!(p.value_outer, Rect::new(40, 2, 40, 18));
    assert_eq!(p.value_inner, Rect::new(41, 3, 38, 16));
    assert_eq!(p.format_label, " f:auto (json) ▾ ");
    assert_eq!(p.wrap_label, " W:Wrap ON ");
    assert_eq!(p.controls, Some((Rect::new(62, 2, 17, 1), Rect::new(51, 2, 11, 1))));
    let hits: Vec<(Rect, RedisPaneTarget)> = p.hits.iter().map(|h| (h.area, h.target)).collect();
    assert_eq!(
        hits,
        vec![
            (Rect::new(40, 2, 40, 18), RedisPaneTarget::PreviewFocus),
            (Rect::new(62, 2, 17, 1), RedisPaneTarget::PreviewFormat),
            (Rect::new(51, 2, 11, 1), RedisPaneTarget::PreviewWrap),
        ]
    );
}

#[test]
fn narrow_or_short_value_preview_drops_controls_and_header() {
    let narrow = preview_pane(Rect::new(0, 0, 25, 20), "auto (json)", true, false).unwrap();
    assert_eq!(narrow.wrap_label, "");
    assert_eq!(narrow.controls, None);
    assert_eq!(narrow.hits.len(), 1);
    let short = preview_pane(Rect::new(0, 0, 60, 2), "text", false, false).unwrap();
    assert_eq!(short.header, Rect::new(0, 0, 0, 0));
    assert_eq!(short.value_outer, Rect::new(0, 0, 60, 2));
    assert_eq!(short.wrap_label, " W:Wrap OFF ");
}
