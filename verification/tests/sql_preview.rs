use lazydb::editor::TextRange;
use lazydb::highlight::{syntax_color, HighlightKind, HighlightSpan, SyntaxColor};
use lazydb::sql_preview::{normalize_preview_text, preview_lines, PreviewLine};

fn text_of(row: &PreviewLine) -> String {
    row.cells.iter().map(|(c, _)| *c).collect()
}

#[test]
fn sanitizes_and_highlights_multibyte_sql() {
    let text = normalize_preview_text("SELECT '中文'\r\nFROM users");
    let lines = preview_lines(&text, &[], 32);
    assert_eq!(lines.len(), 2);
    assert!(lines[0].cells.len() > 1);
    assert_eq!(lines[0].gutter, "  1 ");
    assert_eq!(text_of(&lines[1]), "FROM users");
}

#[test]
fn line_breaks_and_tabs_are_normalized() {
    assert_eq!(normalize_preview_text("a\r\nb\rc\td"), "a\nb\nc    d");
    assert_eq!(normalize_preview_text("\r\r\n"), "\n\n");
}

#[test]
fn long_lines_wrap_under_a_blank_gutter() {
    let rows = preview_lines("abcdef\n", &[], 4);
    let view: Vec<(String, String)> = rows.iter().map(|r| (r.gutter.clone(), text_of(r))).collect();
    assert_eq!(
        view,
        vec![
            ("  1 ".to_owned(), "abcd".to_owned()),
            ("    ".to_owned(), "ef".to_owned()),
            ("  2 ".to_owned(), String::new()),
        ]
    );
}

#[test]
fn characters_take_the_kind_of_the_span_covering_their_bytes() {
    let spans = [HighlightSpan { range: TextRange::new(3, 4), kind: HighlightKind::Keyword }];
    let rows = preview_lines("中a", &spans, 10);
    assert_eq!(rows[0].cells, vec![('中', HighlightKind::Plain), ('a', HighlightKind::Keyword)]);
    assert_eq!(syntax_color(HighlightKind::RelationAlias), SyntaxColor::RelationAlias);
}

#[test]
fn gutters_right_align_line_numbers() {
    let text = "\n".repeat(1000);
    let rows = preview_lines(&text, &[], 10);
    assert_eq!(rows[9].gutter, " 10 ");
    assert_eq!(rows[999].gutter, "1000 ");
}

#[test]
fn preview_sanitizes_and_keeps_unicode_boundaries() {
    let text = normalize_preview_text("SELECT '中文';\r\n-- \u{1b}[31m");
    let lines = preview_lines(&text, &[], 8);
    assert!(!lines.is_empty());
    let first: String = lines.iter().take_while(|r| r.gutter != "  2 ").map(text_of).collect();
    assert_eq!(first, "SELECT '中文';");
}
