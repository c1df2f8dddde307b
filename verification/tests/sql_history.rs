use lazydb::sql_history::{
    detail_lines, format_status, format_transaction, metadata_line, HistoryExecutionStatus,
    HistoryItem, HistoryTransactionOutcome,
};

#[test]
fn statuses_and_outcomes_have_captions() {
    assert_eq!(format_status(HistoryExecutionStatus::Succeeded), "success");
    assert_eq!(format_status(HistoryExecutionStatus::TimedOut), "timeout");
    assert_eq!(format_status(HistoryExecutionStatus::NotExecuted), "not executed");
    assert_eq!(format_transaction(HistoryTransactionOutcome::NotApplicable), "—");
    assert_eq!(format_transaction(HistoryTransactionOutcome::RolledBackToSavepoint), "savepoint");
}

#[test]
fn detail_lines_fill_missing_values_with_dashes() {
    let item = HistoryItem {
        database: Some("app".to_owned()),
        schema: None,
        status: HistoryExecutionStatus::Failed,
        elapsed_millis: Some(42),
        returned_rows: None,
        affected_rows: Some(3),
    };
    assert_eq!(
        detail_lines(&item, "01-02 03:04:05"),
        vec![
            "Time       01-02 03:04:05",
            "Database   app",
            "Schema     —",
            "Status     failed",
            "Elapsed    42 ms",
            "Rows       —",
            "Affected   3",
        ]
    );
    assert_eq!(
        metadata_line("01-02 03:04:05", &None, HistoryExecutionStatus::Running),
        "  01-02 03:04:05 · — · running"
    );
}
