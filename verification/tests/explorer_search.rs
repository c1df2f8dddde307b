use lazydb::explorer_search::{
    search_empty_message, search_input_line, search_panel, search_row_prefix, search_status, search_window_start,
    SearchLifecycle, SearchPanel,
};
use lazydb::geometry::Rect;

#[test]
fn search_panel_stacks_query_results_and_status() {
    assert_eq!(
        search_panel(Rect::new(0, 5, 30, 10)),
        Some(SearchPanel {
            input: Rect::new(0, 5, 30, 1),
            results: Rect::new(0, 6, 30, 8),
            result_rows: 8,
            status: Some(Rect::new(0, 14, 30, 1)),
        })
    );
    assert_eq!(search_panel(Rect::new(0, 0, 30, 0)), None);
    assert_eq!(search_panel(Rect::new(0, 0, 30, 1)).unwrap().status, None);
}

#[test]
fn search_window_follows_the_selection() {
    assert_eq!(search_window_start(0, 3, 8, 20), 0);
    assert_eq!(search_window_start(0, 12, 8, 20), 5);
    assert_eq!(search_window_start(30, 0, 8, 20), 19);
    assert_eq!(search_window_start(4, 0, 8, 0), 0);
}

#[test]
fn search_rows_and_messages() {
    assert_eq!(search_input_line("ord"), "/ ord");
    assert_eq!(search_row_prefix(2, true, false, true), "    ▾ ");
    assert_eq!(search_row_prefix(0, true, true, false), "  ");
    assert_eq!(search_row_prefix(1, true, false, false), "  ▸ ");
    assert_eq!(search_empty_message(&SearchLifecycle::Ready, "zz"), "No objects match \"zz\"");
    assert_eq!(search_empty_message(&SearchLifecycle::Idle, ""), "Type to search all objects");
    let failed = SearchLifecycle::Failed("timeout".to_owned());
    assert_eq!(search_empty_message(&failed, ""), "timeout  Ctrl+R retry");
    assert_eq!(search_status(&failed, 0, 0), "Search failed: timeout  Ctrl+R retry");
    assert_eq!(search_status(&failed, 4, 0), "4 retained | timeout");
    assert_eq!(search_status(&SearchLifecycle::Ready, 0, 12), "12 results  n/N next/prev  Enter locate  Esc close");
    assert_eq!(search_status(&SearchLifecycle::Loading, 0, 12), "Searching...");
}
