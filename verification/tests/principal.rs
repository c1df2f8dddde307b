use lazydb::principal::{
    access_header, access_line, access_section_label, coverage_label, permission_column_widths,
    principal_scope, shorten, source_label, AccessLine, PrincipalAccessSection, PrincipalCoverage,
    PrincipalDetails, PrincipalPermission, PrincipalPermissionSource, PrincipalScope, RoleGrant,
    RoleMember,
};

fn details() -> PrincipalDetails {
    PrincipalDetails {
        permissions: vec![PrincipalPermission {
            target: "public.orders".to_owned(),
            privilege: "SELECT".to_owned(),
            source_kind: PrincipalPermissionSource::Owner,
        }],
        member_of: vec![RoleGrant { role: "analysts".to_owned(), admin_option: true }],
        members: vec![RoleMember { member: "ada".to_owned(), admin_option: false }],
    }
}

#[test]
fn shorten_pads_cuts_and_flattens() {
    assert_eq!(shorten("abc", 5), "abc  ");
    assert_eq!(shorten("abcdef", 4), "abc…");
    assert_eq!(shorten("a\tb", 3), "a b");
    assert_eq!(shorten("line\nbreak", 10), "line break");
    assert_eq!(shorten("x", 0), "");
    assert_eq!(shorten("界界", 3), "界…");
}

#[test]
fn section_labels_count_their_entries() {
    let details = details();
    assert_eq!(access_section_label(PrincipalAccessSection::Permissions, Some(&details)), ("Permissions", 1));
    assert_eq!(access_section_label(PrincipalAccessSection::MemberOf, None), ("Member of", 0));
    assert_eq!(access_section_label(PrincipalAccessSection::Members, Some(&details)), ("Members", 1));
}

#[test]
fn headers_follow_the_section_and_width() {
    assert_eq!(
        access_header(PrincipalAccessSection::Permissions, 56),
        format!("  {:<26}  {:<15}  {:<9}", "Target", "Privilege", "Origin")
    );
    assert_eq!(access_header(PrincipalAccessSection::Permissions, 55), "  Entry");
    assert!(access_header(PrincipalAccessSection::MemberOf, 80).ends_with("Admin option"));
    let widths = permission_column_widths(20);
    assert_eq!((widths.target, widths.privilege, widths.origin), (0, 15, 9));
}

#[test]
fn wide_permission_rows_are_tables() {
    match access_line(PrincipalAccessSection::Permissions, &details(), 0, 60, true) {
        AccessLine::Columns { prefix, target, privilege, origin, source } => {
            assert_eq!(prefix, "> ");
            assert_eq!(target, format!("{:<30}", "public.orders"));
            assert_eq!(privilege, format!("{:<15}", "SELECT"));
            assert_eq!(origin, "Owner    ");
            assert_eq!(source, PrincipalPermissionSource::Owner);
        }
        AccessLine::Plain(text) => panic!("expected a table row, got {text}"),
    }
}

#[test]
fn narrow_and_membership_rows_are_plain_lines() {
    match access_line(PrincipalAccessSection::Permissions, &details(), 0, 10, false) {
        AccessLine::Plain(text) => assert_eq!(text, "  public…"),
        AccessLine::Columns { .. } => panic!("expected a plain row"),
    }
    match access_line(PrincipalAccessSection::MemberOf, &details(), 0, 80, false) {
        AccessLine::Plain(text) => {
            assert_eq!(text, format!("{:<79}", format!("  {:<42}  ADMIN", "analysts")));
        }
        AccessLine::Columns { .. } => panic!("expected a plain row"),
    }
}

#[test]
fn captions_name_sources_coverage_and_scope() {
    assert_eq!(source_label(PrincipalPermissionSource::Inherited), "Inherited");
    assert_eq!(coverage_label(&PrincipalCoverage::Complete), "Complete");
    assert_eq!(coverage_label(&PrincipalCoverage::Partial("no grants".to_owned())), "Partial: no grants");
    assert_eq!(coverage_label(&PrincipalCoverage::Unsupported("x".to_owned())), "Unsupported: x");
    assert_eq!(principal_scope(&PrincipalScope::Cluster), "cluster");
    assert_eq!(principal_scope(&PrincipalScope::Database("app".to_owned())), "database:app");
}
