use lazydb::execution::{
    summary, transaction_state_display, ExecutionDraft, ExecutionTarget, ProfileName, ScopeKind,
    SqlDialect, SqlRisk, StateTone, TransactionMode, TransactionState,
};

fn draft(risks: Vec<SqlRisk>, count: usize) -> ExecutionDraft {
    ExecutionDraft {
        scope: ScopeKind::CurrentStatement,
        risks,
        transaction_mode: TransactionMode::Auto,
        transaction_state: TransactionState::Idle,
        dialect: SqlDialect::Postgres,
        target: ExecutionTarget { profile_id: 7, database: "app".to_owned(), schema: Some("public".to_owned()) },
        statement_count: count,
    }
}

fn profiles() -> Vec<ProfileName> {
    vec![ProfileName { id: 7, name: "prod".to_owned() }]
}

#[test]
fn summary_counts_statements_and_kinds() {
    let s = summary(&draft(vec![SqlRisk::ReadOnly, SqlRisk::Dml, SqlRisk::Dml], 3), &profiles());
    assert_eq!(s.title, "Execute 3 SQL statements?");
    assert_eq!(s.risks, "1 read-only; 2 data-changing or lock-acquiring");
    assert_eq!(s.scope, "Connection: prod   Database: app   Default schema: public\nScope: Current statement");
    assert_eq!(s.reason, "Review the selected SQL before execution.");
    assert_eq!(s.transaction, "Auto-commit; data changes are not protected by a pending manual transaction");
    assert_eq!(s.warning, None);
}

#[test]
fn summary_is_vague_when_effects_are_unknown() {
    let mut d = draft(vec![SqlRisk::Unknown], 1);
    d.target.schema = Some("app".to_owned());
    let s = summary(&d, &[]);
    assert_eq!(s.title, "Execute selected SQL?");
    assert_eq!(s.risks, "effects could not be fully determined");
    assert_eq!(s.scope, "Connection: unavailable connection   Database: app\nScope: Current statement");
    let s = summary(&draft(vec![], 1), &profiles());
    assert_eq!(s.title, "Execute 1 SQL statement?");
    assert_eq!(s.risks, "Effects could not be fully determined");
}

#[test]
fn summary_warns_about_mysql_ddl_in_manual_transactions() {
    let mut d = draft(vec![SqlRisk::Ddl], 1);
    d.dialect = SqlDialect::MySql;
    d.transaction_mode = TransactionMode::Manual;
    d.target.schema = None;
    let s = summary(&d, &profiles());
    assert_eq!(s.warning.as_deref(), Some("MySQL DDL may implicitly commit before and after execution"));
    assert_eq!(s.transaction, "Manual transaction; execution will start a transaction");
    assert!(s.scope.ends_with("Default schema: none\nScope: Current statement"));
    d.transaction_state = TransactionState::Aborted;
    assert_eq!(summary(&d, &profiles()).transaction, "Transaction state: Manual/Aborted");
}

#[test]
fn transaction_states_have_captions() {
    assert_eq!(transaction_state_display(Some(TransactionState::RollingBack)), ("ROLLING BACK", StateTone::Action));
    assert_eq!(transaction_state_display(None), ("GONE", StateTone::Muted));
    assert_eq!(transaction_state_display(Some(TransactionState::OutcomeUnknown)), ("OUTCOME UNKNOWN", StateTone::Error));
}
