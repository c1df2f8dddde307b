use lazydb::footer::{connection_status, update_label, BadgeTone, ConnectionStatus};
use lazydb::shortcut_hints::KeyPress;
use lazydb::update::{
    action_label, actions_height, body_lines, hints, max_width, progress_bar, progress_bar_width,
    view_for_state, wrap_text, BarFill,
    BodyRole, StatusTone, UpdateDialogAction, UpdateInspection, UpdateState, UpdateStateKind,
};

#[test]
fn wrap_text_breaks_on_word_boundaries() {
    assert_eq!(
        wrap_text("update available for lazydb now", 12),
        vec!["update", "available", "for lazydb", "now"]
    );
}

#[test]
fn wrap_text_hard_splits_words_longer_than_the_width() {
    assert_eq!(wrap_text("abcdefghij", 4), vec!["abcd", "efgh", "ij"]);
}

#[test]
fn wrap_text_treats_zero_width_as_one_and_keeps_an_empty_last_line() {
    assert_eq!(wrap_text("ab", 0), vec!["a", "b"]);
    assert_eq!(wrap_text("", 10), vec![""]);
    assert_eq!(wrap_text("trailing   ", 20), vec!["trailing"]);
}

#[test]
fn close_button_reads_after_the_state_when_alone() {
    assert_eq!(action_label(UpdateDialogAction::Close, UpdateStateKind::UpToDate, 1), "OK");
    assert_eq!(action_label(UpdateDialogAction::Close, UpdateStateKind::Installing, 1), "Run in background");
    assert_eq!(action_label(UpdateDialogAction::Close, UpdateStateKind::Checking, 1), "Close");
    assert_eq!(action_label(UpdateDialogAction::Close, UpdateStateKind::Available, 2), "Not now");
    assert_eq!(action_label(UpdateDialogAction::Check, UpdateStateKind::Failed, 2), "Check again");
    assert_eq!(action_label(UpdateDialogAction::Check, UpdateStateKind::Idle, 2), "Check now");
    assert_eq!(action_label(UpdateDialogAction::CopyCommand, UpdateStateKind::Idle, 2), "Copy update command");
}

#[test]
fn buttons_stack_when_they_do_not_fit_side_by_side() {
    assert_eq!(actions_height(&[], 80), 0);
    assert_eq!(actions_height(&["Update", "Not now"], 80), 1);
    // 6 + 6 + 7 + 6 + 2 cells
    assert_eq!(actions_height(&["Update", "Not now"], 27), 1);
    assert_eq!(actions_height(&["Update", "Not now"], 26), 2);
}

#[test]
fn hints_offer_selection_only_between_several_buttons() {
    let single = hints(1, true);
    let keys: Vec<&str> = single.iter().map(|hint| hint.key.as_str()).collect();
    assert_eq!(keys, vec!["Enter", "r", "Esc"]);
    assert_eq!(single[1].activation, Some(KeyPress::Char('r')));

    let several = hints(2, false);
    let keys: Vec<&str> = several.iter().map(|hint| hint.key.as_str()).collect();
    assert_eq!(keys, vec!["Tab", "Enter", "Esc"]);
    assert_eq!(several[0].description, "select next");
}

#[test]
fn dialog_widens_for_instructions() {
    assert_eq!(max_width(false), 64);
    assert_eq!(max_width(true), 76);
}

#[test]
fn update_labels_encode_all_non_idle_states() {
    let cases = [
        (UpdateStateKind::Checking, "Checking"),
        (UpdateStateKind::Available, "↑ Update"),
        (UpdateStateKind::ManagerActionRequired, "↑ Update"),
        (UpdateStateKind::Installing, "Updating"),
        (UpdateStateKind::ReadyToRestart, "Restart"),
        (UpdateStateKind::Failed, "Update failed"),
    ];
    for (state, expected) in cases {
        assert!(update_label(state, false).is_some_and(|label| label.text.contains(expected)));
    }
    assert_eq!(update_label(UpdateStateKind::Available, true).unwrap().text, " ^ Update");
}

#[test]
fn available_label_is_emphasized_and_idle_is_quiet() {
    assert!(update_label(UpdateStateKind::Available, false)
        .is_some_and(|label| label.emphasized && label.tone == BadgeTone::Warning));
    assert!(update_label(UpdateStateKind::Idle, false).is_none());
    assert!(update_label(UpdateStateKind::UpToDate, false).is_none());
}

#[test]
fn connection_badge_prefers_a_pending_target_switch() {
    assert_eq!(connection_status(true, ConnectionStatus::Failed), Some((" TARGET ", BadgeTone::Warning)));
    assert_eq!(connection_status(false, ConnectionStatus::Failed), Some((" FAILED ", BadgeTone::Error)));
    assert_eq!(connection_status(false, ConnectionStatus::Connected), None);
}

fn inspection(native: bool) -> UpdateInspection {
    UpdateInspection {
        running_version: "1.2.3".to_owned(),
        target_version: Some("1.3.0".to_owned()),
        installed_version: Some("1.2.3".to_owned()),
        channel: "Stable".to_owned(),
        manager: if native { "Native".to_owned() } else { "Cargo".to_owned() },
        native,
        action: None,
    }
}

#[test]
fn status_colors_distinguish_up_to_date_available_and_failed() {
    let up_to_date = view_for_state(&UpdateState::UpToDate(inspection(true)), &[UpdateDialogAction::Close], false, None, None);
    assert_eq!(up_to_date.tone, StatusTone::Success);
    assert_eq!(up_to_date.status, "✓ No update needed");
    assert_eq!(up_to_date.details, vec!["Current 1.2.3 · Stable", "Channel latest 1.3.0"]);
    let available = view_for_state(&UpdateState::Available(inspection(true)), &[UpdateDialogAction::Install, UpdateDialogAction::Close], false, None, None);
    assert_eq!(available.tone, StatusTone::Action);
    assert_eq!(available.details, vec!["Current 1.2.3 → Latest 1.3.0 · Stable"]);
    let failed = view_for_state(&UpdateState::Failed("network down".to_owned()), &[UpdateDialogAction::Check, UpdateDialogAction::Close], false, None, None);
    assert_eq!(failed.tone, StatusTone::Error);
    assert_eq!(failed.details, vec!["network down"]);
}

#[test]
fn expanded_instructions_expose_the_command_and_a_copy_action() {
    let state = UpdateState::ManagerActionRequired(inspection(false));
    let hidden = view_for_state(&state, &[UpdateDialogAction::Close], false, Some("Update with cargo".to_owned()), Some("cargo install lazydb".to_owned()));
    assert_eq!(hidden.command, None);
    assert_eq!(hidden.max_width, 64);
    let shown = view_for_state(&state, &[UpdateDialogAction::CopyCommand, UpdateDialogAction::Close], true, Some("Update with cargo".to_owned()), Some("cargo install lazydb".to_owned()));
    assert_eq!(shown.command.as_deref(), Some("cargo install lazydb"));
    assert_eq!(shown.max_width, 76);
    let body = body_lines(&shown, 40);
    let roles: Vec<BodyRole> = body.iter().map(|(role, _)| *role).collect();
    assert_eq!(
        roles,
        vec![BodyRole::Status, BodyRole::Detail, BodyRole::Blank, BodyRole::Instruction, BodyRole::Blank, BodyRole::Command]
    );
    assert_eq!(body[5].1, "cargo install lazydb");
}

#[test]
fn installing_shows_a_progress_line() {
    let view = view_for_state(&UpdateState::Installing(inspection(true)), &[UpdateDialogAction::Close], false, None, None);
    assert!(view.has_progress);
    assert_eq!(view.details[0], "Installing 1.3.0 · Stable");
    let body = body_lines(&view, 20);
    assert_eq!(body.last().unwrap().0, BodyRole::Progress);
    assert_eq!(body[1].1, "Installing 1.3.0 ·");
    assert_eq!(body[2].1, "Stable");
}

#[test]
fn progress_bar_fills_its_share_or_sweeps_a_segment() {
    assert_eq!(progress_bar_width(40), 26);
    assert_eq!(progress_bar_width(10), 8);
    assert_eq!(progress_bar(22, BarFill::Filled(3)), "[███░░░░░]");
    assert_eq!(progress_bar(22, BarFill::Filled(20)), "[████████]");
    // A quarter of the bar, at least two cells, wrapping round the end.
    assert_eq!(progress_bar(22, BarFill::Sweep(7)), "[█░░░░░░█]");
    assert_eq!(progress_bar(30, BarFill::Sweep(0)), "[████░░░░░░░░░░░░]");
}

#[test]
fn up_to_date_offers_only_ok_and_a_single_action_has_no_select_hint() {
    let view = view_for_state(&UpdateState::UpToDate(inspection(false)), &[UpdateDialogAction::Close], false, None, None);
    assert_eq!(view.actions, vec![(UpdateDialogAction::Close, "OK")]);
    let keys: Vec<String> = hints(view.actions.len(), true).iter().map(|h| h.key.clone()).collect();
    assert!(keys.iter().any(|k| k == "r"));
    assert!(keys.iter().all(|k| k != "Tab"));
    let failed = view_for_state(&UpdateState::Failed("x".to_owned()), &[UpdateDialogAction::Check, UpdateDialogAction::Close], false, None, None);
    assert_eq!(failed.actions, vec![(UpdateDialogAction::Check, "Check again"), (UpdateDialogAction::Close, "Not now")]);
}
