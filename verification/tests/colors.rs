use lazydb::workspace::{connection_status_spans, ExplorerConnectionStatus};
use lazydb::notifications::{level_color, NotificationLevel};
use lazydb::principal::{principal_node_color, PrincipalDisplayKind};
use lazydb::theme::{parse_document, Color, Theme, ThemeColors};

/// A theme whose colours all differ: colour `i` is `#0000ii`.
fn distinct_theme() -> Theme {
    let c = |i: u8| format!("#0000{i:02x}");
    let colors = ThemeColors {
        background: c(0),
        surface: c(1),
        surface_raised: c(2),
        border: c(3),
        grid_header: c(4),
        grid_header_text: c(5),
        grid_border: c(6),
        text: c(7),
        muted: c(8),
        accent: c(9),
        action: c(10),
        syntax_relation: c(11),
        syntax_relation_alias: c(12),
        syntax_column: c(13),
        syntax_function: c(14),
        success: c(15),
        warning: c(16),
        error: c(17),
        selection: c(18),
        mouse_selection: c(19),
        row_updated: c(20),
        row_deleted: c(21),
        row_deleted_background: c(22),
        row_inserted: c(23),
        syntax_keyword: c(24),
        syntax_identifier: c(25),
        syntax_number: c(26),
        syntax_parameter: c(27),
        syntax_type: c(28),
        syntax_string: c(29),
        syntax_comment: c(30),
        syntax_operator: c(31),
        syntax_punctuation: c(32),
    };
    parse_document(1, &colors).unwrap()
}

#[test]
fn notification_levels_take_their_theme_colours() {
    let theme = distinct_theme();
    assert_eq!(level_color(NotificationLevel::Info, &theme), theme.action);
    assert_eq!(level_color(NotificationLevel::Success, &theme), theme.accent);
    assert_eq!(level_color(NotificationLevel::Warning, &theme), theme.warning);
    assert_eq!(level_color(NotificationLevel::Error, &theme), Color::Rgb(0, 0, 17));
}

#[test]
fn principal_nodes_take_their_theme_colours() {
    let theme = distinct_theme();
    assert_eq!(principal_node_color(PrincipalDisplayKind::Group, &theme), Color::Rgb(0, 0, 9));
    assert_eq!(principal_node_color(PrincipalDisplayKind::User, &theme), Color::Rgb(0, 0, 10));
    assert_eq!(principal_node_color(PrincipalDisplayKind::Role, &theme), Color::Rgb(0, 0, 13));
}

#[test]
fn explorer_connection_markers_show_state_in_its_colour() {
    let theme = distinct_theme();
    let (text, fg, bg) = connection_status_spans(ExplorerConnectionStatus::Linking, &theme, false);
    assert_eq!(text, "  ◐ CONNECTING");
    assert_eq!(fg, theme.warning);
    assert_eq!(bg, theme.surface);
    let (text, fg, bg) = connection_status_spans(ExplorerConnectionStatus::Online, &theme, true);
    assert_eq!(text, "  ●");
    assert_eq!(fg, theme.accent);
    assert_eq!(bg, theme.selection);
    assert_eq!(connection_status_spans(ExplorerConnectionStatus::Failed, &theme, false).0, "  ● FAILED");
}
