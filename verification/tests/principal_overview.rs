use lazydb::geometry::{Position, Rect};
use lazydb::principal::{
    PrincipalAccessSection, PrincipalDetails, PrincipalPermission, PrincipalPermissionSource, PrincipalScope, RoleGrant,
    RoleMember,
};
use lazydb::principal_overview::{overview_summary, principal_overview, AccessFind, AccessTarget, PrincipalIdentity};

fn permission(target: &str) -> PrincipalPermission {
    PrincipalPermission {
        target: target.to_owned(),
        privilege: "SELECT".to_owned(),
        source_kind: PrincipalPermissionSource::Owner,
    }
}

fn small_details() -> PrincipalDetails {
    PrincipalDetails {
        permissions: vec![permission("public.orders"), permission("public.items")],
        member_of: vec![RoleGrant { role: "analysts".to_owned(), admin_option: false }],
        members: Vec::new(),
    }
}

#[test]
fn overview_summary_names_identity_native_kind_and_scope() {
    let s = overview_summary(PrincipalIdentity::User, "ada", "LOGIN ROLE", &PrincipalScope::Database("app".to_owned()));
    assert_eq!(s, " USER  ada   native: LOGIN ROLE   scope: database:app");
    let r = overview_summary(PrincipalIdentity::Role, "ops", "ROLE", &PrincipalScope::Cluster);
    assert_eq!(r, " ROLE  ops   native: ROLE   scope: cluster");
}

#[test]
fn access_panel_lays_out_section_tabs_rows_and_regions() {
    let d = small_details();
    let v = principal_overview(
        Rect::new(0, 0, 80, 20),
        PrincipalAccessSection::Permissions,
        Some(&d),
        0,
        0,
        None,
        true,
    );
    assert_eq!((v.selector, v.summary, v.panel), (Rect::new(0, 0, 80, 2), Rect::new(0, 2, 80, 3), Rect::new(0, 5, 80, 15)));
    assert_eq!(v.inner, Rect::new(1, 6, 78, 13));
    let tabs: Vec<(&str, bool, Rect)> = v.tabs.iter().map(|t| (t.text.as_str(), t.selected, t.area)).collect();
    assert_eq!(
        tabs,
        vec![
            (" Permissions (2) ", true, Rect::new(1, 6, 17, 1)),
            (" Member of (1) ", false, Rect::new(18, 6, 15, 1)),
            (" Members (0) ", false, Rect::new(33, 6, 13, 1)),
        ]
    );
    assert_eq!(v.find_line, None);
    assert_eq!(v.header_y, 7);
    assert_eq!(v.body, Rect::new(1, 8, 77, 10));
    assert_eq!(v.visible, 10);
    assert_eq!(v.offset, 0);
    let rows: Vec<(usize, bool, Rect)> = v.rows.iter().map(|r| (r.index, r.selected, r.area)).collect();
    assert_eq!(rows, vec![(0, true, Rect::new(1, 8, 77, 1)), (1, false, Rect::new(1, 9, 77, 1))]);
    assert!(!v.empty_note);
    assert_eq!(v.track, Rect::new(78, 8, 1, 10));
    assert_eq!(v.scrollbar, None);
    assert_eq!(v.cursor, None);
    assert!(v.hint.contains("e edit  (only structured direct grants)"));
    let hits: Vec<(Rect, AccessTarget)> = v.hits.iter().map(|h| (h.area, h.target)).collect();
    assert_eq!(
        hits,
        vec![
            (Rect::new(0, 5, 80, 15), AccessTarget::Panel),
            (Rect::new(1, 6, 17, 1), AccessTarget::Section(PrincipalAccessSection::Permissions)),
            (Rect::new(18, 6, 15, 1), AccessTarget::Section(PrincipalAccessSection::MemberOf)),
            (Rect::new(33, 6, 13, 1), AccessTarget::Section(PrincipalAccessSection::Members)),
            (Rect::new(1, 8, 77, 10), AccessTarget::Body),
            (Rect::new(1, 8, 77, 1), AccessTarget::Item(0)),
            (Rect::new(1, 9, 77, 1), AccessTarget::Item(1)),
        ]
    );
}

#[test]
fn access_panel_scrolls_to_the_selection_and_places_the_scrollbar() {
    let d = PrincipalDetails {
        permissions: Vec::new(),
        member_of: Vec::new(),
        members: (0..30).map(|i| RoleMember { member: format!("m{i}"), admin_option: false }).collect(),
    };
    let v = principal_overview(
        Rect::new(0, 0, 80, 20),
        PrincipalAccessSection::Members,
        Some(&d),
        25,
        3,
        None,
        true,
    );
    assert_eq!(v.offset, 16);
    assert_eq!(v.rows.len(), 10);
    assert_eq!(v.rows[0].index, 16);
    assert!(v.rows[9].selected && v.rows[9].index == 25);
    assert_eq!(v.rows[9].area, Rect::new(1, 17, 77, 1));
    assert!(v.hint.contains("read-only"));
    let g = v.scrollbar.unwrap();
    assert_eq!((g.rail, g.thumb_start, g.thumb_length, g.max_offset), (Rect::new(78, 9, 1, 8), 0, 2, 20));
    let tail: Vec<(Rect, AccessTarget)> = v.hits.iter().skip(15).map(|h| (h.area, h.target)).collect();
    assert_eq!(
        tail,
        vec![
            (
                Rect::new(78, 9, 1, 2),
                AccessTarget::Thumb { track_start: 9, track_length: 8, thumb_start: 9, thumb_length: 2, max_offset: 20 }
            ),
            (Rect::new(78, 11, 1, 6), AccessTarget::Page(13)),
        ]
    );
}

#[test]
fn access_panel_with_an_open_find_and_no_snapshot() {
    let find = AccessFind { query: "ad".to_owned(), editing: true, current: 1, total: 4 };
    let v = principal_overview(
        Rect::new(0, 0, 80, 20),
        PrincipalAccessSection::MemberOf,
        None,
        0,
        0,
        Some(&find),
        false,
    );
    assert_eq!(v.find_line.as_deref(), Some("/ad  1/4   Enter confirm  Esc close  n/N next/prev"));
    assert_eq!(v.cursor, Some(Position { x: 4, y: 7 }));
    assert_eq!(v.header_y, 8);
    assert_eq!(v.body, Rect::new(1, 9, 77, 9));
    assert!(v.rows.is_empty() && !v.empty_note && v.scrollbar.is_none());
    assert_eq!(v.tabs[1].text, " Member of (0) ");
    assert!(v.tabs[1].selected);
    assert_eq!(v.hits.len(), 5);
    let d = PrincipalDetails { permissions: Vec::new(), member_of: Vec::new(), members: Vec::new() };
    let e = principal_overview(Rect::new(0, 0, 80, 20), PrincipalAccessSection::Members, Some(&d), 0, 0, None, false);
    assert!(e.empty_note && e.rows.is_empty());
}
