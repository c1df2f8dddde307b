use lazydb::editor::{EditorRenderLine, EditorRenderSnapshot, EditorSpan, SqlDiagnostic, TextPosition, TextRange};
use lazydb::editor_spans::{editor_line_spans, Background, CellStyle, Foreground, OutputKind, StyledRun};
use lazydb::highlight::{HighlightKind, SyntaxColor};

fn line(text: &str, spans: Vec<EditorSpan>) -> EditorRenderLine {
    let cells: Vec<usize> = (0..=text.len()).collect();
    EditorRenderLine {
        line: 0,
        source_start: 0,
        source_end: text.len(),
        source_to_display_cells: cells.clone(),
        spans,
        source_byte_boundaries: cells.clone(),
        source_to_display_bytes: cells,
        display_text: text.to_owned(),
    }
}

fn render_snapshot(selection: Vec<(usize, usize, usize)>, diagnostics: Vec<SqlDiagnostic>) -> EditorRenderSnapshot {
    EditorRenderSnapshot {
        cursor: TextPosition { line: 0, column: 0 },
        lines: Vec::new(),
        horizontal_offset: 0,
        viewport_width: 80,
        selection_cells: selection,
        semantic_diagnostics: diagnostics,
    }
}

fn view(runs: &[StyledRun]) -> Vec<(&str, CellStyle)> {
    runs.iter().map(|run| (run.text.as_str(), run.style)).collect()
}

fn style(fg: Foreground, bg: Background, underlined: bool) -> CellStyle {
    CellStyle { fg, bg, underlined }
}

#[test]
fn highlighted_characters_share_runs() {
    let keyword = vec![EditorSpan { source_start: 0, source_end: 6, kind: HighlightKind::Keyword }];
    let runs = editor_line_spans(&line("SELECT x", keyword), &render_snapshot(Vec::new(), Vec::new()), true, None, &[], None);
    assert_eq!(
        view(&runs),
        vec![
            ("SELECT", style(Foreground::Syntax(SyntaxColor::Keyword), Background::Surface, false)),
            (" x", style(Foreground::Syntax(SyntaxColor::Plain), Background::Surface, false)),
        ]
    );
    let plain = editor_line_spans(&line("SELECT x", Vec::new()), &render_snapshot(Vec::new(), Vec::new()), false, None, &[], None);
    assert_eq!(view(&plain), vec![("SELECT x", style(Foreground::Text, Background::Surface, false))]);
}

#[test]
fn editor_render_marks_only_the_diagnosed_source_character() {
    let diagnostic = SqlDiagnostic { range: TextRange::new(7, 8), message: "unknown column".to_owned(), code: "E1" };
    let runs = editor_line_spans(&line("SELECT x", Vec::new()), &render_snapshot(Vec::new(), vec![diagnostic]), false, None, &[], None);
    assert_eq!(
        view(&runs),
        vec![
            ("SELECT ", style(Foreground::Text, Background::Surface, false)),
            ("x", style(Foreground::Error, Background::Surface, true)),
        ]
    );
}

#[test]
fn mouse_selection_wins_over_selection_and_statement() {
    let runs = editor_line_spans(
        &line("abcdef", Vec::new()),
        &render_snapshot(vec![(0, 0, 3), (1, 0, 6)], Vec::new()),
        false,
        Some((0, 6)),
        &[(2, 4)],
        None,
    );
    assert_eq!(
        view(&runs),
        vec![
            ("ab", style(Foreground::Text, Background::Selection, false)),
            ("cd", style(Foreground::Text, Background::MouseSelection, false)),
            ("ef", style(Foreground::Text, Background::Statement, false)),
        ]
    );
}

#[test]
fn output_lines_mute_their_timestamp() {
    let runs = editor_line_spans(&line("12:00 boom", Vec::new()), &render_snapshot(Vec::new(), Vec::new()), false, None, &[], Some((OutputKind::Error, 6)));
    assert_eq!(
        view(&runs),
        vec![
            ("12:00 ", style(Foreground::Muted, Background::Surface, false)),
            ("boom", style(Foreground::Error, Background::Surface, false)),
        ]
    );
}
