use lazydb::geometry::Rect;
use lazydb::notifications::{
    card_height, card_width, centered_history, truncate_history_title, Notification,
    NotificationLevel, MAX_WIDTH, MIN_WIDTH,
};

fn make(title: &str, body: &str) -> Notification {
    Notification { id: 1, level: NotificationLevel::Info, title: title.into(), body: body.into() }
}

#[test]
fn card_width_is_clamped_for_small_and_large_terminals() {
    let notification = make("title", "body");
    assert_eq!(card_width(10, &[&notification]), 10);
    assert_eq!(card_width(100, &[&notification]), MIN_WIDTH);
    let long = make("t", &"x".repeat(200));
    assert_eq!(card_width(100, &[&long]), MAX_WIDTH);
    assert_eq!(card_width(0, &[&long]), 0);
}

#[test]
fn history_popup_falls_back_to_full_width_on_narrow_terminals() {
    let popup = centered_history(Rect::new(0, 0, 60, 24), true);
    assert_eq!(popup.width, 58);
    assert!(popup.height <= 22);
}

#[test]
fn history_popup_is_centered_on_wide_terminals() {
    assert_eq!(centered_history(Rect::new(0, 0, 120, 40), false), Rect::new(10, 11, 100, 18));
}

#[test]
fn card_height_counts_wrapped_body_lines() {
    assert_eq!(card_height("short", 20), 5);
    assert_eq!(card_height(&"x".repeat(100), 12), 8);
    assert_eq!(card_height("", 20), 5);
}

#[test]
fn history_titles_end_with_a_tilde_when_cut() {
    assert_eq!(truncate_history_title("connection lost", 20), "connection lost");
    assert_eq!(truncate_history_title("connection lost", 8), "connect~");
    assert_eq!(truncate_history_title("abc", 0), "");
}
