use lazydb::geometry::Rect;
use lazydb::selectors::{page_size_selector, transaction_menu, value_format_selector, TransactionMenuTarget};

#[test]
fn page_size_selector_marks_the_selected_size() {
    let v = page_size_selector(Rect::new(0, 0, 100, 30), &[50, 100, 500], 1, true);
    assert_eq!(v.popup, Rect::new(36, 11, 28, 7));
    assert_eq!(v.title, " RELATION PAGE SIZE ");
    assert_eq!(v.heading, Some(" PAGE SIZE "));
    assert_eq!(
        v.items,
        vec![("  50".to_owned(), false), ("> 100".to_owned(), true), ("  500".to_owned(), false)]
    );
    assert_eq!(v.footer, vec!["j/k select  Enter apply  Esc cancel"]);
    let r = page_size_selector(Rect::new(0, 0, 100, 30), &[50], 0, false);
    assert_eq!(r.title, " RESULT PAGE SIZE ");
}

#[test]
fn value_format_selector_lists_every_format() {
    let v = value_format_selector(Rect::new(0, 0, 100, 30), 2);
    assert_eq!(v.popup, Rect::new(29, 8, 42, 13));
    assert_eq!(v.title, " VALUE FORMAT ");
    assert_eq!(v.heading, None);
    assert_eq!(v.items.len(), 9);
    assert_eq!(v.items[0], ("   Auto".to_owned(), false));
    assert_eq!(v.items[2], (" > JSON".to_owned(), true));
    assert_eq!(v.items[8], ("   Python Pickle".to_owned(), false));
    assert_eq!(v.footer, vec!["", " j/k select  Enter apply  Esc cancel"]);
}

#[test]
fn transaction_menu_marks_current_mode_and_unavailable_entries() {

    let availability = vec![
        (true, String::new()),
        (true, String::new()),
        (false, " (no transaction)".to_owned()),
        (true, String::new()),
    ];
    let v = transaction_menu(Rect::new(0, 0, 100, 30), 1, &availability, Some(false));
    assert_eq!(v.popup, Rect::new(21, 10, 58, 9));
    let texts: Vec<&str> = v.entries.iter().map(|e| e.text.as_str()).collect();
    assert_eq!(texts, vec!["  Auto (current)", "> Manual", "  Resolve Transaction (no transaction)", "  Cancel"]);
    assert!(v.entries[0].current && !v.entries[1].current);
    assert!(v.entries[1].selected && !v.entries[2].enabled);
    let hits: Vec<(Rect, TransactionMenuTarget)> = v.hits.iter().map(|h| (h.area, h.target)).collect();
    assert_eq!(
        hits,
        vec![
            (Rect::new(22, 12, 56, 1), TransactionMenuTarget::Item(0)),
            (Rect::new(22, 13, 56, 1), TransactionMenuTarget::Item(1)),
            (Rect::new(22, 14, 56, 1), TransactionMenuTarget::Item(2)),
            (Rect::new(22, 15, 56, 1), TransactionMenuTarget::Cancel),
        ]
    );
    let short = transaction_menu(Rect::new(0, 0, 100, 6), 0, &availability, Some(true));
    assert_eq!(short.popup, Rect::new(21, 1, 58, 4));
    assert_eq!(short.hits.len(), 2);
    assert!(short.entries[1].current);
}
