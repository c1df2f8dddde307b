use lazydb::geometry::Rect;
use lazydb::shortcut_hints::{
    self as footer, interactive_placements, lines, single_line_layout, wrap_cells, Alignment,
    HintPart, HintSpan, KeyPress, ShortcutHint,
};

fn hint(key: &str, description: &str) -> ShortcutHint<KeyPress> {
    ShortcutHint::new(key, description)
}

fn plain_text(spans: &[HintSpan]) -> String {
    spans.iter().map(|span| span.text.as_str()).collect()
}

#[test]
fn line_styles_keys_descriptions_and_separators_independently() {
    let rendered = footer::line(&[hint("Enter", "save"), hint("Esc", "cancel")], 80);

    assert_eq!(plain_text(&rendered), "Enter save   Esc cancel");
    assert_eq!(rendered[0].part, HintPart::Key);
    assert_eq!(rendered[2].part, HintPart::Description);
    assert_eq!(rendered[3].part, HintPart::Separator);
    assert_eq!(rendered[4].part, HintPart::Key);
    assert_eq!(rendered[6].part, HintPart::Description);
}

#[test]
fn single_line_layout_keeps_complete_items_and_reports_omissions() {
    let layout = single_line_layout(
        &[hint("Tab", "next"), hint("Shift+Tab", "previous"), hint("Esc", "cancel")],
        Rect::new(0, 0, 28, 1),
        Alignment::Left,
    );

    assert_eq!(layout.omitted, 2);
    assert_eq!(layout.placements.len(), 1);
    assert_eq!(plain_text(&layout.spans), "Tab next   ... (+2)");
    assert!(layout.placements.iter().all(|placement| placement.area.y == 0));
}

#[test]
fn single_line_layout_uses_display_cells_for_wide_text() {
    let layout = single_line_layout(&[hint("界", "move")], Rect::new(3, 4, 8, 1), Alignment::Center);

    assert_eq!(plain_text(&layout.spans), "界 move");
    assert_eq!(layout.placements[0].area, Rect::new(3, 4, 7, 1));
}

#[test]
fn packing_keeps_complete_hints_and_reports_omissions() {
    let hints = [hint("j/k", "move"), hint("Enter", "open"), hint("/", "find")];

    assert_eq!(plain_text(&footer::line(&hints, 19)), "j/k move   ... (+2)");
    assert_eq!(plain_text(&footer::line(&hints, 40)), "j/k move   Enter open   / find");
}

#[test]
fn packing_measures_unicode_terminal_cells_and_handles_tiny_widths() {
    let hints = [hint("界", "move"), hint("Enter", "open")];

    assert_eq!(plain_text(&footer::line(&hints, 18)), "界 move   ... (+1)");
    assert_eq!(plain_text(&footer::line(&[hint("long", "hint")], 3)), "...");
    assert!(plain_text(&footer::line::<KeyPress>(&[], 20)).is_empty());
    assert!(plain_text(&footer::line(&[hint("a", "b")], 0)).is_empty());
}

#[test]
fn lines_wraps_every_hint_without_an_omission_marker() {
    let hints = [
        hint("j/k", "move row"),
        hint("dd", "delete column"),
        hint("Esc", "close editor"),
    ];
    let rendered = lines(&hints, 18);
    let text = rendered
        .iter()
        .map(|row| plain_text(row))
        .collect::<Vec<_>>()
        .join("\n");
    assert!(text.contains("j/k") && text.contains("move row"));
    assert!(text.contains("dd") && text.contains("delete column"));
    assert!(text.contains("Esc") && text.contains("close editor"));
    assert!(!text.contains("... (+"));
}

#[test]
fn packing_uses_final_omitted_count_when_selecting_units() {
    let hints = [hint("aaaa", "x"), hint("bb", "x"), hint("cc", "x")];

    assert_eq!(plain_text(&footer::line(&hints, 17)), "aaaa x   ... (+2)");
}

#[test]
fn plain_theme_keeps_keys_bold_when_colors_are_reset() {
    let rendered = footer::line(&[hint("Enter", "save")], 20);

    assert_eq!(rendered[0].part, HintPart::Key);
    assert_eq!(rendered[2].part, HintPart::Description);
    assert_eq!(plain_text(&rendered), "Enter save");
}

#[test]
fn lines_count_the_separator_when_deciding_a_hint_needs_its_own_rows() {
    let hints = [
        hint("j/k", "move row"),
        hint("dd", "delete column"),
        hint("Esc", "close editor"),
    ];
    let rendered = lines(&hints, 18);
    let rows: Vec<String> = rendered.iter().map(|row| plain_text(row)).collect();
    assert_eq!(rows, vec!["j/k move row", "dd", "delete column", "Esc close editor"]);
}

#[test]
fn lines_break_long_descriptions_across_rows() {
    let rendered = lines(&[hint("k", "abcdefghij")], 6);
    let rows: Vec<String> = rendered.iter().map(|row| plain_text(row)).collect();
    assert_eq!(rows, vec!["k", "abcdef", "ghij"]);
}

#[test]
fn lines_are_empty_without_width_or_hints() {
    assert!(lines(&[hint("a", "b")], 0).is_empty());
    assert!(lines::<KeyPress>(&[], 10).is_empty());
}

#[test]
fn right_alignment_moves_placements_to_the_edge() {
    let layout = single_line_layout(&[hint("a", "b")], Rect::new(0, 2, 10, 1), Alignment::Right);
    assert_eq!(layout.omitted, 0);
    assert_eq!(layout.placements[0].index, 0);
    assert_eq!(layout.placements[0].area, Rect::new(7, 2, 3, 1));
}

#[test]
fn empty_area_omits_every_hint() {
    let layout = single_line_layout(&[hint("a", "b"), hint("c", "d")], Rect::new(0, 0, 0, 1), Alignment::Left);
    assert_eq!(layout.omitted, 2);
    assert!(layout.spans.is_empty());
    assert!(layout.placements.is_empty());
}

#[test]
fn wrap_cells_breaks_before_overflowing_characters() {
    assert_eq!(wrap_cells("abcde", 2), vec!["ab", "cd", "e"]);
    assert_eq!(wrap_cells("界界", 3), vec!["界", "界"]);
    assert!(wrap_cells("abc", 0).is_empty());
}

#[test]
fn interactive_rows_register_only_clickable_hints_inside_the_area() {
    let hints = [
        ShortcutHint::with_keys("a", "b", KeyPress::Enter),
        ShortcutHint::new("c", "d"),
        ShortcutHint::with_keys("e", "f", KeyPress::Esc),
    ];
    let narrow = interactive_placements(&hints, Rect::new(0, 0, 8, 2), Alignment::Left);
    assert_eq!(narrow.len(), 1);
    assert_eq!((narrow[0].index, narrow[0].area), (0, Rect::new(0, 0, 3, 1)));

    let wide = interactive_placements(&hints, Rect::new(0, 0, 12, 2), Alignment::Center);
    let found: Vec<(usize, Rect)> = wide.iter().map(|p| (p.index, p.area)).collect();
    assert_eq!(found, vec![(0, Rect::new(1, 0, 3, 1)), (2, Rect::new(4, 1, 3, 1))]);
}

#[test]
fn interactive_single_row_uses_the_one_line_layout() {
    let hints = [
        ShortcutHint::with_keys("a", "b", KeyPress::Enter),
        ShortcutHint::new("c", "d"),
    ];
    let found = interactive_placements(&hints, Rect::new(0, 0, 10, 1), Alignment::Left);
    assert_eq!(found.len(), 1);
    assert_eq!((found[0].index, found[0].area), (0, Rect::new(0, 0, 3, 1)));
}
