use lazydb::theme::{colors_cut_inside_char, parse_color, parse_document, Color, ThemeColors};

fn fixture() -> ThemeColors {
    let c = |s: &str| s.to_owned();
    ThemeColors {
        background: c("#010203"), surface: c("#040506"), surface_raised: c("#070809"),
        border: c("#0A0B0C"), grid_header: c("#0D0E0F"), grid_header_text: c("#101112"),
        grid_border: c("#131415"), text: c("#161718"), muted: c("#191A1B"),
        accent: c("#1C1D1E"), action: c("#1F2021"), syntax_relation: c("#222324"),
        syntax_relation_alias: c("#252627"), syntax_column: c("#28292A"), syntax_function: c("#2B2C2D"),
        success: c("#2E2F30"), warning: c("#313233"), error: c("#343536"),
        selection: c("#373839"), mouse_selection: c("#3A3B3C"), row_updated: c("#3D3E3F"),
        row_deleted: c("#404142"), row_deleted_background: c("#434445"), row_inserted: c("#464748"),
        syntax_keyword: c("#494A4B"), syntax_identifier: c("#4C4D4E"), syntax_number: c("#4F5051"),
        syntax_parameter: c("#525354"), syntax_type: c("#555657"), syntax_string: c("#58595A"),
        syntax_comment: c("#5B5C5D"), syntax_operator: c("#5E5F60"), syntax_punctuation: c("#616263"),
    }
}

#[test]
fn external_theme_accepts_complete_rgb_snapshot() {
    let theme = parse_document(1, &fixture()).unwrap();
    assert_eq!(theme.background, Color::Rgb(1, 2, 3));
    assert_eq!(theme.syntax_keyword, Color::Rgb(73, 74, 75));
    assert_eq!(theme.syntax_punctuation, Color::Rgb(97, 98, 99));
}

#[test]
fn external_theme_preserves_default_color() {
    let mut colors = fixture();
    colors.background = "default".to_owned();
    colors.syntax_string = "default".to_owned();
    let theme = parse_document(1, &colors).unwrap();
    assert_eq!(theme.background, Color::Reset);
    assert_eq!(theme.syntax_string, Color::Reset);
}

#[test]
fn external_theme_rejects_invalid_version_and_colors() {
    assert_eq!(parse_document(2, &fixture()).err().as_deref(), Some("unsupported theme version 2"));
    for value in ["#12345", "123456", "#GG0000", "null"] {
        let mut invalid = fixture();
        invalid.accent = value.to_owned();
        assert_eq!(parse_document(1, &invalid).err().as_deref(), Some("invalid color for accent"));
    }
}

#[test]
fn colors_parse_as_hex_triples() {
    assert_eq!(parse_color("x", "#ff8000"), Ok(Color::Rgb(255, 128, 0)));
    assert_eq!(parse_color("x", "default"), Ok(Color::Reset));
    // `u8::from_str_radix` accepts a leading plus sign.
    assert_eq!(parse_color("x", "#+f8000"), Ok(Color::Rgb(15, 128, 0)));
    assert_eq!(parse_color("x", "#-f8000"), Err("invalid color for x".to_owned()));
}

#[test]
fn non_ascii_colors_are_read_byte_by_byte() {
    // Seven bytes whose pieces fall on character boundaries: not hex, so invalid.
    assert_eq!(parse_color("x", "#é1234"), Err("invalid color for x".to_owned()));
    // Seven characters but more than seven bytes: invalid.
    assert_eq!(parse_color("x", "#éé1234"), Err("invalid color for x".to_owned()));
    let mut colors = fixture();
    colors.text = "#a€bc".to_owned();
    assert!(colors_cut_inside_char(&colors));
    colors.background = "bad".to_owned();
    assert!(!colors_cut_inside_char(&colors));
    assert_eq!(parse_document(1, &colors).err().as_deref(), Some("invalid color for background"));
    assert!(!colors_cut_inside_char(&fixture()));
}
