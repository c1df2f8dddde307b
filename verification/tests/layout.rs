use lazydb::cells::truncate_cells;
use ratatui::buffer::CellWidth;
use lazydb::completion::{
    completion_popup_rect, completion_replacement_start_cell, explorer_search_cursor_column,
    source_byte_to_visible_cell, CompletionAnchor, CompletionColumns, COMPLETION_DETAIL_MAX_CELLS,
};
use lazydb::editor::{
    diagnostic_covers_source, EditorRenderLine, EditorRenderSnapshot, SqlDiagnostic, TextPosition,
    TextRange,
};
use lazydb::geometry::{Position, Rect};
use lazydb::notifications::wrapped_line_count;
use lazydb::query_bar::{self, fields_height, FIELD_HEIGHT};
use lazydb::tabs::{tab_viewport, truncate_to_cell_width, TabViewport};

#[test]
fn tab_viewport_uses_full_width_without_overflow_controls() {
    assert_eq!(
        tab_viewport(&[8, 10, 12], 1, 30),
        TabViewport {
            start: 0,
            end: 3,
            overflowed: false,
        }
    );
}

#[test]
fn tab_viewport_keeps_active_tab_visible_at_each_position() {
    let widths = [8, 8, 8, 8];
    for active in 0..widths.len() {
        let viewport = tab_viewport(&widths, active, 20);
        assert!(viewport.overflowed);
        assert!(viewport.start <= active);
        assert!(active < viewport.end);
        assert!(viewport.end <= widths.len());
    }
}

#[test]
fn tab_viewport_handles_empty_and_oversized_tabs() {
    assert_eq!(
        tab_viewport(&[], 0, 20),
        TabViewport {
            start: 0,
            end: 0,
            overflowed: false,
        }
    );
    let viewport = tab_viewport(&[40], 0, 12);
    assert_eq!(viewport.start, 0);
    assert_eq!(viewport.end, 1);
    assert!(viewport.overflowed);
}

#[test]
fn tab_viewport_treats_exact_fit_as_not_overflowed() {
    assert!(!tab_viewport(&[8, 10], 1, 18).overflowed);
}

#[test]
fn truncate_to_cell_width_does_not_split_wide_characters() {
    assert_eq!(truncate_to_cell_width("界abc", 4), "界a…");
    assert_eq!(truncate_to_cell_width("界abc", 1), "…");
    assert_eq!(truncate_to_cell_width("short", 10), "short");
}

#[test]
fn completion_columns_prefer_labels_over_details_when_space_is_tight() {
    let columns =
        CompletionColumns::measure(&[(2u16, "create_time", "timestamp"), (2, "id", "bigint")]);

    assert_eq!(columns.label_offset(), 3);
    assert_eq!(columns.label, 11);
    assert_eq!(columns.detail, 9);
    assert_eq!(columns.content_width(), 26);
    assert_eq!(columns.fit(26), columns);

    let clipped = columns.fit(24);
    assert_eq!(clipped.label, 11);
    assert_eq!(clipped.detail, 7);

    let tight = columns.fit(20);
    assert_eq!(tight.label, 11);
    assert_eq!(tight.detail, 0);
}

#[test]
fn completion_columns_cap_overlong_details() {
    let columns = CompletionColumns::measure(&[(2u16, "code", "a_very_long_user_defined_type_name")]);

    assert_eq!(columns.detail, COMPLETION_DETAIL_MAX_CELLS);
}

/// Display cells of each character of an ASCII line (one cell each), plus the end.
fn ascii_cells(source: &str) -> Vec<usize> {
    (0..=source.chars().count()).collect()
}

#[test]
fn replacement_start_uses_display_cells() {
    let ascii = ascii_cells("SELECT * FROM sys_u");
    assert_eq!(
        source_byte_to_visible_cell("SELECT * FROM sys_u", &ascii, 14, 0, 40),
        Some(14)
    );

    // `界` and `🙂` are two cells wide, the space and the ASCII letters one.
    let wide = vec![0, 2, 4, 5, 6, 7, 8, 9, 10];
    assert_eq!(
        source_byte_to_visible_cell("界🙂 sys_u", &wide, "界🙂 ".len(), 0, 40),
        Some(5)
    );

    // A tab expands to four cells.
    let tab = vec![0, 4, 5, 6, 7, 8, 9];
    assert_eq!(source_byte_to_visible_cell("\tsys_u", &tab, 1, 0, 40), Some(4));
}

#[test]
fn replacement_start_accounts_for_horizontal_scroll_and_invalid_offsets() {
    let source = "SELECT * FROM sys_u";
    let projection = ascii_cells(source);

    assert_eq!(source_byte_to_visible_cell(source, &projection, 14, 10, 40), Some(4));
    assert_eq!(source_byte_to_visible_cell(source, &projection, 4, 10, 40), Some(0));

    let wide = vec![0, 2, 3, 4, 5, 6, 7];
    assert_eq!(source_byte_to_visible_cell("界sys_u", &wide, 1, 0, 40), None);
    assert_eq!(source_byte_to_visible_cell(source, &projection, 100, 0, 40), None);
}

#[test]
fn explorer_search_cursor_uses_terminal_cell_width() {
    assert_eq!(explorer_search_cursor_column("/ 界", 20), 4);
    assert_eq!(explorer_search_cursor_column("/ 界", 4), 3);
}

#[test]
fn explorer_find_cursor_stops_before_match_status() {
    let query = "/ time";
    let rendered = format!("{query} (1/4)");

    assert_eq!(explorer_search_cursor_column(query, 20), 6);
    assert_ne!(
        explorer_search_cursor_column(&rendered, 20),
        explorer_search_cursor_column(query, 20)
    );
}

fn anchor(viewport: Rect, cursor: Position) -> CompletionAnchor {
    CompletionAnchor {
        viewport,
        cursor,
        replacement_start_x: None,
    }
}

#[test]
fn places_popup_below_the_cursor_when_it_fits() {
    let anchor = anchor(Rect::new(10, 5, 40, 10), Position { x: 12, y: 6 });
    assert_eq!(completion_popup_rect(anchor, 20, 4), Some(Rect::new(12, 7, 20, 4)));
}

#[test]
fn places_popup_above_the_cursor_when_below_is_too_short() {
    let anchor = anchor(Rect::new(10, 5, 40, 10), Position { x: 12, y: 13 });
    assert_eq!(completion_popup_rect(anchor, 20, 4), Some(Rect::new(12, 9, 20, 4)));
}

#[test]
fn keeps_popup_origin_and_shrinks_width_at_the_right_edge() {
    let anchor = anchor(Rect::new(10, 5, 40, 10), Position { x: 48, y: 6 });
    assert_eq!(completion_popup_rect(anchor, 20, 4), Some(Rect::new(48, 7, 2, 4)));
}

#[test]
fn clamps_popup_origin_to_the_viewport_left_edge() {
    let anchor = anchor(Rect::new(10, 5, 40, 10), Position { x: 4, y: 6 });
    assert_eq!(completion_popup_rect(anchor, 20, 4), Some(Rect::new(10, 7, 20, 4)));
}

#[test]
fn bordered_popup_reserves_two_rows_and_columns() {
    let anchor = anchor(Rect::new(10, 5, 40, 10), Position { x: 12, y: 6 });
    assert_eq!(
        completion_popup_rect(anchor, 20 + 2, 4 + 2),
        Some(Rect::new(12, 7, 22, 6))
    );
}

#[test]
fn bordered_popup_geometry_reports_constrained_height_for_callers_to_reject() {
    let anchor = anchor(Rect::new(10, 5, 40, 4), Position { x: 12, y: 6 });
    assert_eq!(completion_popup_rect(anchor, 12, 3), Some(Rect::new(12, 7, 12, 2)));
    assert_eq!(completion_popup_rect(anchor, 12, 3), Some(Rect::new(12, 7, 12, 2)));
}

#[test]
fn bordered_popup_shrinks_outer_width_without_moving_origin() {
    let anchor = anchor(Rect::new(10, 5, 40, 10), Position { x: 48, y: 6 });
    assert_eq!(completion_popup_rect(anchor, 22, 6), Some(Rect::new(48, 7, 2, 6)));
}

fn diagnostic(start: usize, end: usize) -> SqlDiagnostic {
    SqlDiagnostic {
        range: TextRange::new(start, end),
        message: "test".to_owned(),
        code: "test",
    }
}

#[test]
fn diagnostic_overlap_is_based_on_full_source_ranges() {
    let diagnostics = [diagnostic(36, 46)];

    assert!(!diagnostic_covers_source(&diagnostics, 29, 36));
    assert!(!diagnostic_covers_source(&diagnostics, 46, 55));
    assert!(diagnostic_covers_source(&diagnostics, 36, 46));
    assert!(diagnostic_covers_source(&diagnostics, 40, 42));
}

#[test]
fn diagnostic_overlap_does_not_mark_adjacent_ranges() {
    let diagnostics = [diagnostic(14, 26)];

    assert!(!diagnostic_covers_source(&diagnostics, 29, 36));
    assert!(diagnostic_covers_source(&diagnostics, 14, 26));
}

#[test]
fn width_and_text_helpers_use_display_cells() {
    assert_eq!(CellWidth::cell_width("界"), 2);
    assert_eq!(truncate_cells("界abc", 3), "界a");
    assert_eq!(wrapped_line_count("界界a", 4), 2);
}

#[test]
fn switches_to_horizontal_layout_at_the_minimum_usable_width() {
    assert_eq!(fields_height(55), FIELD_HEIGHT * 2);
    assert_eq!(fields_height(56), FIELD_HEIGHT);
}

#[test]
fn query_bar_adds_a_row_for_errors_and_unavailable_queries() {
    assert_eq!(query_bar::height(false, false, 80), 2);
    assert_eq!(query_bar::height(true, false, 80), 3);
    assert_eq!(query_bar::height(false, true, 40), 5);
}

fn snapshot(line: usize, drawn: &str, horizontal_offset: usize) -> EditorRenderSnapshot {
    EditorRenderSnapshot {
        cursor: TextPosition { line, column: 0 },
        lines: vec![EditorRenderLine {
            line,
            source_start: 0,
            source_end: drawn.len(),
            source_to_display_cells: ascii_cells(drawn),
            spans: Vec::new(),
            source_byte_boundaries: ascii_cells(drawn),
            source_to_display_bytes: ascii_cells(drawn),
            display_text: drawn.to_owned(),
        }],
        horizontal_offset,
        viewport_width: 40,
        selection_cells: Vec::new(),
        semantic_diagnostics: Vec::new(),
    }
}

#[test]
fn replacement_start_is_found_on_the_cursor_line() {
    let text = "SELECT 1;\nSELECT * FROM sys_u";
    let start = "SELECT 1;\n".len() + 14;
    assert_eq!(
        completion_replacement_start_cell(text, &snapshot(1, "SELECT * FROM sys_u", 0), TextRange::new(start, start + 5)),
        Some(14)
    );
    assert_eq!(
        completion_replacement_start_cell(text, &snapshot(1, "SELECT * FROM sys_u", 10), TextRange::new(start, start + 5)),
        Some(4)
    );
    // The range starts on another line than the cursor.
    assert_eq!(
        completion_replacement_start_cell(text, &snapshot(1, "SELECT * FROM sys_u", 0), TextRange::new(3, 5)),
        None
    );
    // The cursor's line was not drawn.
    let mut missing = snapshot(1, "SELECT * FROM sys_u", 0);
    missing.lines[0].line = 0;
    assert_eq!(completion_replacement_start_cell(text, &missing, TextRange::new(start, start + 5)), None);
    // Past the end of the text.
    assert_eq!(completion_replacement_start_cell(text, &snapshot(1, "x", 0), TextRange::new(100, 101)), None);
}

#[test]
fn completion_columns_keep_a_narrow_type_at_their_own_width() {
    let c = lazydb::completion::CompletionColumns::measure(&[(2u16, "id", "int")]);
    assert_eq!((c.icon, c.label, c.detail), (2, 2, 3));
    assert_eq!(c.content_width(), 11);
    let fitted = c.fit(c.content_width());
    assert_eq!((fitted.icon, fitted.label, fitted.detail), (2, 2, 3));
    let squeezed = c.fit(9);
    assert_eq!(squeezed.detail, 0);
}
