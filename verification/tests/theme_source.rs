use lazydb::theme::{sized_read, Color, ExternalThemeSource, ReadResult, SourceError, SourceOutcome, Theme};

fn theme(background: Color) -> Theme {
    let c = Color::Rgb(1, 2, 3);
    Theme {
        background, surface: c, surface_raised: c, border: c, grid_header: c, grid_header_text: c,
        grid_border: c, text: c, muted: c, accent: c, action: c, syntax_relation: c,
        syntax_relation_alias: c, syntax_column: c, syntax_function: c, success: c, warning: c,
        error: c, selection: c, mouse_selection: c, row_updated: c, row_deleted: c,
        row_deleted_background: c, row_inserted: c, syntax_keyword: c, syntax_identifier: c,
        syntax_number: c, syntax_parameter: c, syntax_type: c, syntax_string: c, syntax_comment: c,
        syntax_operator: c, syntax_punctuation: c,
    }
}

#[test]
fn source_loads_first_snapshot_and_ignores_unchanged_bytes() {
    let mut source = ExternalThemeSource::new("theme.json".to_owned());
    let outcome = source.apply_bytes(b"one".to_vec(), Ok(theme(Color::Reset)));
    assert!(matches!(outcome, SourceOutcome::ThemeChanged(t) if t == theme(Color::Reset)));
    assert!(matches!(source.apply_bytes(b"one".to_vec(), Ok(theme(Color::Reset))), SourceOutcome::Unchanged));
}

#[test]
fn source_compares_effective_theme_after_raw_change() {
    let mut source = ExternalThemeSource::new("theme.json".to_owned());
    source.apply_bytes(b"one".to_vec(), Ok(theme(Color::Reset)));
    assert!(matches!(source.apply_bytes(b"one ".to_vec(), Ok(theme(Color::Reset))), SourceOutcome::Unchanged));
    assert!(matches!(
        source.apply_bytes(b"two".to_vec(), Ok(theme(Color::Rgb(9, 9, 9)))),
        SourceOutcome::ThemeChanged(_)
    ));
}

#[test]
fn source_deduplicates_invalid_errors_and_recovers() {
    let mut source = ExternalThemeSource::new("theme.json".to_owned());
    source.apply_bytes(b"good".to_vec(), Ok(theme(Color::Reset)));
    let first = source.apply_bytes(b"bad".to_vec(), Err("expected value".to_owned()));
    assert!(matches!(first, SourceOutcome::Error(SourceError::Invalid(ref m)) if m == "expected value"));
    assert!(matches!(source.apply_bytes(b"bad!".to_vec(), Err("expected value".to_owned())), SourceOutcome::Unchanged));
    assert!(matches!(source.apply_bytes(b"good".to_vec(), Ok(theme(Color::Reset))), SourceOutcome::Unchanged));
    assert!(source.last_reported_error.is_none());
}

#[test]
fn source_deduplicates_deletion_and_oversized_input() {
    let mut source = ExternalThemeSource::new("theme.json".to_owned());
    let gone = SourceError::Io("No such file or directory".to_owned());
    assert!(matches!(source.apply_read_error(gone.clone(), None), SourceOutcome::Error(_)));
    assert!(matches!(source.apply_read_error(gone, None), SourceOutcome::Unchanged));
    let big = vec![b'x'; 20];
    assert!(matches!(source.apply_read_error(SourceError::Oversized, Some(big.clone())), SourceOutcome::Error(SourceError::Oversized)));
    assert!(matches!(source.apply_read_error(SourceError::Oversized, Some(big)), SourceOutcome::Unchanged));
    assert_eq!(SourceError::Oversized.message(), "external theme exceeds 16384 bytes");
}

#[test]
fn source_detects_same_size_raw_byte_changes() {
    let mut source = ExternalThemeSource::new("theme.json".to_owned());
    assert!(matches!(source.apply_bytes(b"#1C1D1E".to_vec(), Ok(theme(Color::Reset))), SourceOutcome::ThemeChanged(_)));
    let changed = source.apply_bytes(b"#1C1D1F".to_vec(), Ok(theme(Color::Rgb(0x1C, 0x1D, 0x1F))));
    assert!(matches!(changed, SourceOutcome::ThemeChanged(t) if t == theme(Color::Rgb(0x1C, 0x1D, 0x1F))));
}

#[test]
fn source_deduplicates_deletion_and_recovers_after_recreation() {
    let mut source = ExternalThemeSource::new("theme.json".to_owned());
    assert!(matches!(source.apply_bytes(b"fixture".to_vec(), Ok(theme(Color::Reset))), SourceOutcome::ThemeChanged(_)));
    let gone = SourceError::Io("No such file or directory".to_owned());
    assert!(matches!(source.apply_read_error(gone.clone(), None), SourceOutcome::Error(SourceError::Io(_))));
    assert!(matches!(source.apply_read_error(gone, None), SourceOutcome::Unchanged));
    assert!(matches!(source.apply_bytes(b"fixture".to_vec(), Ok(theme(Color::Reset))), SourceOutcome::Unchanged));
    assert!(source.last_reported_error.is_none());
}

#[test]
fn source_rejects_oversized_input_and_non_regular_paths() {
    assert!(matches!(sized_read(vec![b'x'; 16 * 1024]), ReadResult::Bytes(b) if b.len() == 16 * 1024));
    let oversized = sized_read(vec![b'x'; 16 * 1024 + 1]);
    assert!(matches!(oversized, ReadResult::Error { error: SourceError::Oversized, bytes: Some(ref b) } if b.len() == 16 * 1024 + 1));
    let mut source = ExternalThemeSource::new("theme.json".to_owned());
    if let ReadResult::Error { error, bytes } = oversized {
        assert!(matches!(source.apply_read_error(error, bytes), SourceOutcome::Error(SourceError::Oversized)));
    }
    let mut directory = ExternalThemeSource::new("themes".to_owned());
    assert!(matches!(
        directory.apply_read_error(SourceError::NotRegularFile, None),
        SourceOutcome::Error(SourceError::NotRegularFile)
    ));
}
