use lazydb::console_manager::{console_body_text, console_manager_view, console_row_columns, ConsoleListMode};
use lazydb::dialog::DialogTone;
use lazydb::geometry::Rect;
use lazydb::overlay::{discard_dialog, overlay_dialog, ConfirmOverlay, ConfirmTarget};

#[test]
fn delete_console_confirmation_places_its_buttons_and_hint() {
    let o = ConfirmOverlay::DeleteConsole { name: "scratch".to_owned(), delete_focused: true };
    let d = overlay_dialog(&o, Rect::new(0, 0, 100, 30));
    assert_eq!(d.popup, Rect::new(12, 11, 76, 8));
    assert_eq!(d.title, " DELETE CONFIRMATION ");
    assert_eq!(d.inner, Rect::new(13, 12, 74, 6));
    assert_eq!(d.body_area, Rect::new(13, 12, 74, 3));
    assert_eq!(d.body, vec![" DELETE SQL EDITOR? ", "Permanently delete 'scratch' and its saved SQL file?"]);
    assert_eq!(d.buttons, vec![("Cancel", DialogTone::Normal), ("Delete console", DialogTone::Danger)]);
    assert_eq!(d.focused, 1);
    assert_eq!(d.hint_row, Rect::new(13, 17, 74, 1));
    let hits: Vec<(Rect, ConfirmTarget)> = d.hits.unwrap().iter().map(|h| (h.area, h.target)).collect();
    assert_eq!(
        hits,
        vec![(Rect::new(33, 16, 12, 1), ConfirmTarget::KeepConsole), (Rect::new(47, 16, 20, 1), ConfirmTarget::DeleteConsole)]
    );
}

#[test]
fn cancellation_confirmation_says_what_is_rolled_back() {
    let d = overlay_dialog(&ConfirmOverlay::ManualCancel { cancel_focused: false }, Rect::new(0, 0, 100, 30));
    assert_eq!(d.title, " CANCELLATION CONFIRMATION ");
    assert_eq!(d.body[1], "Cancelling rolls back all uncommitted work in this transaction");
    assert_eq!(d.buttons[1], ("Cancel query + roll back", DialogTone::Danger));
    assert_eq!(d.focused, 0);
    assert_eq!(d.hint, "Tab / Left / Right switch   Enter activate   Esc keep running");
    let d = overlay_dialog(&ConfirmOverlay::ClearTransactionOutcome { clear_focused: true }, Rect::new(0, 0, 100, 30));
    assert_eq!(d.buttons[1].0, "Clear after verification");
    assert_eq!(d.body_area.height, 4);
}

#[test]
fn console_manager_sizes_its_popup_for_each_mode() {
    let area = Rect::new(0, 0, 100, 30);
    let browse = console_manager_view(ConsoleListMode::Browse, 3, area);
    assert_eq!(browse.popup, Rect::new(10, 11, 80, 8));
    assert_eq!(browse.title, " CONSOLES ");
    assert_eq!(browse.inner, Rect::new(11, 12, 78, 6));
    assert_eq!(browse.body, Rect::new(11, 12, 78, 5));
    assert_eq!(browse.footer, Rect::new(11, 17, 78, 1));
    assert_eq!(browse.input, None);
    assert_eq!(browse.hints.len(), 7);
    let many = console_manager_view(ConsoleListMode::Browse, 40, area);
    assert_eq!(many.popup.height, 24);
    let search = console_manager_view(ConsoleListMode::Search, 3, area);
    assert_eq!(search.input, Some(Rect::new(11, 12, 78, 1)));
    assert_eq!(search.hints, vec![("Enter", "open"), ("Esc", "cancel")]);
    let rename = console_manager_view(ConsoleListMode::Rename { has_error: false }, 3, area);
    assert_eq!(rename.input, Some(Rect::new(11, 14, 78, 1)));
    let delete = console_manager_view(ConsoleListMode::DeleteConfirm, 3, area);
    assert_eq!(delete.title, " CONSOLES // DELETE ");
    assert_eq!(delete.buttons, vec![("Cancel", DialogTone::Normal), ("Delete console", DialogTone::Danger)]);
    assert_eq!(delete.button_row, Some(Rect::new(11, 16, 78, 1)));
    assert!(delete.hints.is_empty());
}

#[test]
fn console_manager_text_and_columns() {
    assert_eq!(console_body_text(ConsoleListMode::Search, "ord", 0, "", ""), vec!["/ord", "No matching consoles"]);
    assert_eq!(console_body_text(ConsoleListMode::Rename { has_error: true }, "", 2, "q1", "q2"), vec!["Rename q1", "", "Name: q2"]);
    assert_eq!(
        console_body_text(ConsoleListMode::DeleteConfirm, "", 2, "unknown", ""),
        vec!["Permanently delete 'unknown' and its saved SQL file?", "", ""]
    );
    assert_eq!(console_row_columns(80, 10, 30), (32, 30, 10));
    assert_eq!(console_row_columns(80, 40, 100), (0, 44, 28));
}

#[test]
fn discard_dialog_places_its_rows_and_buttons() {
    let d = discard_dialog(Rect::new(0, 0, 100, 30), false);
    assert!(!d.compact);
    assert_eq!(d.popup, Rect::new(18, 9, 64, 11));
    assert_eq!(d.inner, Rect::new(19, 10, 62, 9));
    assert_eq!(
        d.rows,
        vec![
            Rect::new(19, 10, 62, 1),
            Rect::new(19, 11, 62, 1),
            Rect::new(19, 12, 62, 2),
            Rect::new(19, 14, 62, 3),
            Rect::new(19, 17, 62, 1),
            Rect::new(19, 18, 62, 1),
        ]
    );
    assert_eq!(d.action_area, Rect::new(19, 17, 62, 1));
    assert_eq!(d.buttons, vec![("Keep Editing", DialogTone::Normal), ("Discard Changes", DialogTone::Danger)]);
    assert_eq!(d.focused, 0);
    assert_eq!(d.hint, "Tab / Left / Right switch   Enter confirm   Esc back");
    let hits: Vec<(Rect, ConfirmTarget)> = d.hits.unwrap().iter().map(|h| (h.area, h.target)).collect();
    assert_eq!(
        hits,
        vec![(Rect::new(29, 17, 18, 1), ConfirmTarget::KeepEditing), (Rect::new(49, 17, 21, 1), ConfirmTarget::DiscardChanges)]
    );
}

#[test]
fn narrow_discard_dialog_is_compact() {
    let d = discard_dialog(Rect::new(0, 0, 50, 30), true);
    assert!(d.compact);
    assert_eq!(d.popup, Rect::new(2, 9, 46, 12));
    assert_eq!(d.rows[4], Rect::new(3, 17, 44, 2));
    assert_eq!(d.action_area, Rect::new(5, 17, 39, 2));
    assert_eq!(d.focused, 1);
    assert_eq!(d.hint, "Tab move  Enter confirm  Esc back");
}
