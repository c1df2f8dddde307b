use lazydb::editor::{text_input_horizontal_offset, LineProjection, TextGesture, TextPosition};
use lazydb::gestures::{ExplorerClickTracker, GestureOwner, GestureState, RedisClickTracker};

fn projection(text: &str) -> LineProjection {
    LineProjection {
        text: text.to_owned(),
        source_to_display_cells: (0..=text.chars().count()).collect(),
    }
}

#[test]
fn input_scrolls_to_keep_the_cursor_visible() {
    let p = projection("abcdefghijklmnopqrstuvwxyz");
    // 12 columns, 2 taken by the prefix: 10 left, the cursor needs one of them.
    assert_eq!(text_input_horizontal_offset(12, "> ", &p, 26), 17);
    assert_eq!(text_input_horizontal_offset(12, "> ", &p, 5), 0);
    assert_eq!(text_input_horizontal_offset(40, "> ", &p, 26), 0);
    // A cursor past the mapped characters sits at the end of the text.
    assert_eq!(text_input_horizontal_offset(12, "> ", &p, 99), 17);
}

fn gesture(line: usize) -> TextGesture {
    TextGesture {
        session_id: 1,
        revision: 0,
        start: TextPosition { line, column: 0 },
        end: TextPosition { line, column: 0 },
        has_dragged: false,
    }
}

#[test]
fn text_drags_are_owned_until_they_end() {
    let mut state: GestureState<()> = GestureState::new();
    assert!(state.begin_text_gesture(gesture(0)));
    assert!(!state.begin_text_gesture(gesture(5)));
    assert!(state.update_text_gesture(TextPosition { line: 0, column: 3 }));
    assert!(state.text.unwrap().has_dragged);
    assert_eq!(state.end_mouse_gesture(), Some(GestureOwner::Text));
    assert!(!state.update_text_gesture(TextPosition { line: 1, column: 0 }));
    assert_eq!(state.end_mouse_gesture(), None);
}

#[test]
fn double_clicks_need_the_same_target_soon_enough() {
    let mut explorer = ExplorerClickTracker::new();
    assert!(!explorer.track_explorer_click(7, 1_000_000_000));
    assert!(explorer.track_explorer_click(7, 1_400_000_000));
    assert!(!explorer.track_explorer_click(8, 1_500_000_000));
    assert!(!explorer.track_explorer_click(8, 2_100_000_000));

    let mut redis = RedisClickTracker::new();
    assert!(!redis.track_redis_click(1, 3, 0));
    assert!(redis.track_redis_click(1, 3, 400_000_000));
    // The double click reset the tracker.
    assert!(!redis.track_redis_click(1, 3, 500_000_000));
    assert!(!redis.track_redis_click(2, 3, 600_000_000));
}
