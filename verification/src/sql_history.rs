//! Text of the SQL history list and its detail pane.
use vstd::prelude::*;
use crate::text::{owned, push_str, push_decimal, decimal};

verus! {

broadcast use vstd::string::group_string_axioms;

/// How a recorded execution ended.
#[derive(Clone, Copy, Debug, PartialEq, Eq, Structural)]
pub enum HistoryExecutionStatus {
    Queued,
    Running,
    Succeeded,
    Failed,
    TimedOut,
    Cancelled,
    Interrupted,
    NotExecuted,
}

/// What happened to the transaction of a recorded execution.
#[derive(Clone, Copy, Debug, PartialEq, Eq, Structural)]
pub enum HistoryTransactionOutcome {
    NotApplicable,
    Pending,
    AutoCommitted,
    Committed,
    RolledBack,
    RolledBackToSavepoint,
    Unknown,
}

pub open spec fn status_text(status: HistoryExecutionStatus) -> Seq<char> {
    match status {
        HistoryExecutionStatus::Queued => "queued"@,
        HistoryExecutionStatus::Running => "running"@,
        HistoryExecutionStatus::Succeeded => "success"@,
        HistoryExecutionStatus::Failed => "failed"@,
        HistoryExecutionStatus::TimedOut => "timeout"@,
        HistoryExecutionStatus::Cancelled => "cancelled"@,
        HistoryExecutionStatus::Interrupted => "interrupted"@,
        HistoryExecutionStatus::NotExecuted => "not executed"@,
    }
}

/// The caption of an execution status.
pub fn format_status(status: HistoryExecutionStatus) -> (r: &'static str)
    ensures
        r@ == status_text(status),
{
    match status {
        HistoryExecutionStatus::Queued => "queued",
        HistoryExecutionStatus::Running => "running",
        HistoryExecutionStatus::Succeeded => "success",
        HistoryExecutionStatus::Failed => "failed",
        HistoryExecutionStatus::TimedOut => "timeout",
        HistoryExecutionStatus::Cancelled => "cancelled",
        HistoryExecutionStatus::Interrupted => "interrupted",
        HistoryExecutionStatus::NotExecuted => "not executed",
    }
}

/// The caption of a transaction outcome.
pub fn format_transaction(outcome: HistoryTransactionOutcome) -> (r: &'static str)
    ensures
        r@ == (match outcome {
            HistoryTransactionOutcome::NotApplicable => "—"@,
            HistoryTransactionOutcome::Pending => "pending"@,
            HistoryTransactionOutcome::AutoCommitted => "auto-commit"@,
            HistoryTransactionOutcome::Committed => "committed"@,
            HistoryTransactionOutcome::RolledBack => "rolled back"@,
            HistoryTransactionOutcome::RolledBackToSavepoint => "savepoint"@,
            HistoryTransactionOutcome::Unknown => "unknown"@,
        }),
{
    match outcome {
        HistoryTransactionOutcome::NotApplicable => "—",
        HistoryTransactionOutcome::Pending => "pending",
        HistoryTransactionOutcome::AutoCommitted => "auto-commit",
        HistoryTransactionOutcome::Committed => "committed",
        HistoryTransactionOutcome::RolledBack => "rolled back",
        HistoryTransactionOutcome::RolledBackToSavepoint => "savepoint",
        HistoryTransactionOutcome::Unknown => "unknown",
    }
}

/// A recorded execution as the detail pane shows it.
#[derive(Clone, Debug)]
pub struct HistoryItem {
    pub database: Option<String>,
    pub schema: Option<String>,
    pub status: HistoryExecutionStatus,
    pub elapsed_millis: Option<u64>,
    pub returned_rows: Option<u64>,
    pub affected_rows: Option<u64>,
}

/// A text, or `—` when there is none.
pub open spec fn or_dash(value: Option<String>) -> Seq<char> {
    match value {
        Some(v) => v@,
        None => "—"@,
    }
}

/// A number, or `—` when there is none.
pub open spec fn number_or_dash(value: Option<u64>) -> Seq<char> {
    match value {
        Some(v) => decimal(v as nat),
        None => "—"@,
    }
}

/// The lines of the detail pane: request time, database, schema, status, elapsed
/// time, returned and affected rows.
pub open spec fn detail_text(item: HistoryItem, time: Seq<char>) -> Seq<Seq<char>> {
    seq![
        "Time       "@ + time,
        "Database   "@ + or_dash(item.database),
        "Schema     "@ + or_dash(item.schema),
        "Status     "@ + status_text(item.status),
        "Elapsed    "@ + (match item.elapsed_millis { Some(v) => decimal(v as nat) + " ms"@, None => "—"@ }),
        "Rows       "@ + number_or_dash(item.returned_rows),
        "Affected   "@ + number_or_dash(item.affected_rows),
    ]
}

fn labelled(label: &str, value: &str) -> (out: String)
    ensures
        out@ == label@ + value@,
{
    let mut out = owned(label);
    push_str(&mut out, value);
    out
}

fn labelled_number(label: &str, value: Option<u64>, unit: &str) -> (out: String)
    ensures
        out@ == label@ + (match value { Some(v) => decimal(v as nat) + unit@, None => "—"@ }),
{
    let mut out = owned(label);
    match value {
        Some(v) => {
            push_decimal(&mut out, v);
            push_str(&mut out, unit);
        },
        None => push_str(&mut out, "—"),
    }
    out
}

fn text_or_dash(value: &Option<String>) -> (r: &str)
    ensures
        r@ == or_dash(*value),
{
    match value {
        Some(v) => v.as_str(),
        None => "—",
    }
}

/// The detail pane's lines; `time` is the request time as the user's clock shows it.
pub fn detail_lines(item: &HistoryItem, time: &str) -> (out: Vec<String>)
    ensures
        out@.len() == 7,
        forall|i: int| 0 <= i < 7 ==> (#[trigger] out@[i])@ == detail_text(*item, time@)[i],
{
    let mut out: Vec<String> = Vec::new();
    out.push(labelled("Time       ", time));
    out.push(labelled("Database   ", text_or_dash(&item.database)));
    out.push(labelled("Schema     ", text_or_dash(&item.schema)));
    out.push(labelled("Status     ", format_status(item.status)));
    out.push(labelled_number("Elapsed    ", item.elapsed_millis, " ms"));
    out.push(labelled_number("Rows       ", item.returned_rows, ""));
    out.push(labelled_number("Affected   ", item.affected_rows, ""));
    proof { reveal_strlit(""); }
    assert(forall|i: int| 0 <= i < 7 ==> (#[trigger] out@[i])@ == detail_text(*item, time@)[i]) by {
        assert(decimal(item.returned_rows->0 as nat) + ""@ =~= decimal(item.returned_rows->0 as nat));
        assert(decimal(item.affected_rows->0 as nat) + ""@ =~= decimal(item.affected_rows->0 as nat));
    }
    out
}

/// The line under a history entry: time, database and status.
pub fn metadata_line(time: &str, database: &Option<String>, status: HistoryExecutionStatus) -> (out: String)
    ensures
        out@ == "  "@ + time@ + " · "@ + or_dash(*database) + " · "@ + status_text(status),
{
    let mut out = owned("  ");
    push_str(&mut out, time);
    push_str(&mut out, " · ");
    push_str(&mut out, text_or_dash(database));
    push_str(&mut out, " · ");
    push_str(&mut out, format_status(status));
    out
}

} // verus!
