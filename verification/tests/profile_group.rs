use lazydb::geometry::Rect;
use lazydb::profile_group::{group_form_view, group_picker_view, GroupForm, GroupTarget};

#[test]
fn group_picker_lists_ungrouped_the_groups_and_create() {
    let groups = vec!["prod".to_owned(), "dev".to_owned()];
    let v = group_picker_view(&groups, 1, false, Rect::new(0, 0, 100, 30));
    assert_eq!(v.popup, Rect::new(18, 10, 64, 9));
    assert_eq!(v.title, " SELECT CONNECTION GROUP ");
    assert_eq!(v.inner, Rect::new(19, 11, 62, 7));
    assert_eq!(v.heading, Rect::new(19, 11, 62, 1));
    let labels: Vec<&str> = v.rows.iter().map(|r| r.label.as_str()).collect();
    assert_eq!(labels, vec!["  Ungrouped", "› prod", "  dev", "  + Create group..."]);
    let active: Vec<bool> = v.rows.iter().map(|r| r.active).collect();
    assert_eq!(active, vec![false, true, false, false]);
    let hits: Vec<(Rect, GroupTarget)> = v.hits.iter().map(|h| (h.area, h.target)).collect();
    assert_eq!(
        hits,
        vec![
            (Rect::new(19, 12, 62, 1), GroupTarget::Choice(0)),
            (Rect::new(19, 13, 62, 1), GroupTarget::Choice(1)),
            (Rect::new(19, 14, 62, 1), GroupTarget::Choice(2)),
            (Rect::new(19, 15, 62, 1), GroupTarget::Choice(3)),
        ]
    );
    assert_eq!(v.footer, Rect::new(19, 17, 62, 1));
    assert_eq!(v.status, None);
    assert_eq!(v.hints, vec![("↑/↓", "select"), ("Enter", "apply"), ("Esc", "cancel")]);
}

#[test]
fn busy_group_picker_is_capped_and_takes_no_clicks() {
    let groups: Vec<String> = (0..30).map(|i| format!("g{i}")).collect();
    let v = group_picker_view(&groups, 0, true, Rect::new(0, 0, 100, 30));
    assert_eq!(v.popup, Rect::new(18, 4, 64, 22));
    assert_eq!(v.rows.len(), 18);
    assert_eq!(v.rows[17].area, Rect::new(19, 23, 62, 1));
    assert_eq!(v.rows[17].label, "  g16");
    assert!(v.hits.is_empty());
    assert_eq!(v.status, Some("Updating group..."));
    assert!(v.hints.is_empty());
}

#[test]
fn group_name_form_places_field_and_centres_its_buttons() {
    let v = group_form_view(GroupForm::Edit { existing: true, has_error: false, busy: false }, Rect::new(0, 0, 100, 30));
    assert_eq!(v.popup, Rect::new(18, 11, 64, 8));
    assert_eq!(v.title, " EDIT CONNECTION GROUP ");
    assert_eq!(v.heading, Some(("GROUP DETAILS", false)));
    assert_eq!(v.field, Some(("› Group name", Rect::new(19, 14, 16, 1), Rect::new(35, 14, 46, 1))));
    assert_eq!(v.error_row, None);
    assert_eq!(v.buttons.confirm_text, "[ Save group ]");
    assert_eq!(v.buttons.confirm, Rect::new(37, 16, 14, 1));
    assert_eq!(v.buttons.cancel, Rect::new(52, 16, 10, 1));
    assert!(v.buttons.confirm_focused && !v.buttons.cancel_focused);
    assert_eq!(v.hint_row, Rect::new(19, 17, 62, 1));
    assert_eq!(v.hints, vec![("Enter", "save"), ("Esc", "cancel"), ("Ctrl-W/U/A/E", "edit")]);
    let hits: Vec<(Rect, GroupTarget)> = v.hits.iter().map(|h| (h.area, h.target)).collect();
    assert_eq!(
        hits,
        vec![
            (Rect::new(35, 14, 46, 1), GroupTarget::Name),
            (Rect::new(37, 16, 14, 1), GroupTarget::Confirm),
            (Rect::new(52, 16, 10, 1), GroupTarget::Cancel),
        ]
    );
}

#[test]
fn saving_group_form_shows_its_error_row_and_takes_no_clicks() {
    let v = group_form_view(GroupForm::Edit { existing: false, has_error: true, busy: true }, Rect::new(0, 0, 100, 30));
    assert_eq!(v.title, " NEW CONNECTION GROUP ");
    assert_eq!(v.heading, Some(("BUSY // SAVING GROUP", true)));
    assert_eq!(v.error_row, Some(Rect::new(19, 15, 62, 1)));
    assert_eq!(v.buttons.confirm_text, "[ Saving... ]");
    assert!(!v.buttons.confirm_focused && !v.buttons.cancel_focused);
    assert!(v.hits.is_empty());
}

#[test]
fn group_deletion_says_where_its_members_go() {
    let form = GroupForm::DeleteConfirm { member_count: 3, cancel_selected: true, busy: false };
    let v = group_form_view(form, Rect::new(0, 0, 100, 30));
    assert_eq!(v.title, " DELETE CONNECTION GROUP ");
    let (area, text) = v.question.clone().unwrap();
    assert_eq!(area, Rect::new(19, 12, 62, 4));
    assert_eq!(text, "Delete this group?\n\n3 connection(s) will move to Ungrouped.");
    assert_eq!(v.buttons.confirm_text, "[ Delete group ]");
    assert_eq!(v.buttons.confirm, Rect::new(36, 16, 16, 1));
    assert_eq!(v.buttons.cancel, Rect::new(53, 16, 10, 1));
    assert!(v.buttons.cancel_focused && !v.buttons.confirm_focused);
    assert_eq!(v.hints, vec![("Tab/←/→", "switch"), ("Enter", "confirm"), ("Esc", "cancel")]);
    let targets: Vec<GroupTarget> = v.hits.iter().map(|h| h.target).collect();
    assert_eq!(targets, vec![GroupTarget::Confirm, GroupTarget::Cancel]);
}

#[test]
fn a_click_on_a_picker_row_reaches_its_choice() {
    let groups = vec!["prod".to_owned(), "dev".to_owned()];
    let v = group_picker_view(&groups, 0, false, Rect::new(0, 0, 100, 30));
    for (i, row) in [12u16, 13, 14, 15].iter().enumerate() {
        assert_eq!(lazydb::hits::target_at(&v.hits, 19, *row), Some(&GroupTarget::Choice(i)));
        assert_eq!(lazydb::hits::target_at(&v.hits, 80, *row), Some(&GroupTarget::Choice(i)));
    }
    assert_eq!(lazydb::hits::target_at(&v.hits, 19, 11), None);
}
