//! What the SQL execution confirmation says: the target, the scope, the kinds of
//! statement about to run, the transaction they run in, and a dialect warning.
use vstd::prelude::*;
use crate::text::{owned, push_str, push_decimal, decimal, same_text};

verus! {

broadcast use vstd::string::group_string_axioms;

/// Which part of the editor is about to run.
#[derive(Clone, Copy, Debug, PartialEq, Eq, Structural)]
pub enum ScopeKind {
    VisualChar,
    VisualLine,
    VisualBlock,
    CurrentStatement,
    FullBuffer,
}

/// What a statement may do.
#[derive(Clone, Copy, Debug, PartialEq, Eq, Structural)]
pub enum SqlRisk {
    ReadOnly,
    Dml,
    Ddl,
    TransactionControl,
    Unknown,
}

/// SQL dialect of the connection.
#[derive(Clone, Copy, Debug, PartialEq, Eq, Structural)]
pub enum SqlDialect {
    Generic,
    Sqlite,
    Postgres,
    MySql,
}

/// Whether statements commit on their own or inside a manual transaction.
#[derive(Clone, Copy, Debug, PartialEq, Eq, Structural)]
pub enum TransactionMode {
    Auto,
    Manual,
}

/// Where the session's transaction stands.
#[derive(Clone, Copy, Debug, PartialEq, Eq, Structural)]
pub enum TransactionState {
    Idle,
    Starting,
    Active,
    Committing,
    RollingBack,
    Aborted,
    OutcomeUnknown,
}

/// The connection, database and default schema a statement runs against.
#[derive(Clone, Debug)]
pub struct ExecutionTarget {
    pub profile_id: u128,
    pub database: String,
    pub schema: Option<String>,
}

/// SQL about to run, as classified before confirmation.
#[derive(Clone, Debug)]
pub struct ExecutionDraft {
    pub scope: ScopeKind,
    pub risks: Vec<SqlRisk>,
    pub transaction_mode: TransactionMode,
    pub transaction_state: TransactionState,
    pub dialect: SqlDialect,
    pub target: ExecutionTarget,
    pub statement_count: usize,
}

/// A saved connection's id and name.
#[derive(Clone, Debug)]
pub struct ProfileName {
    pub id: u128,
    pub name: String,
}

/// The confirmation's text.
#[derive(Clone, Debug)]
pub struct Summary {
    pub title: String,
    pub scope: String,
    pub reason: String,
    pub risks: String,
    pub transaction: String,
    pub warning: Option<String>,
}

pub open spec fn scope_text(scope: ScopeKind) -> Seq<char> {
    match scope {
        ScopeKind::VisualChar => "Selected text"@,
        ScopeKind::VisualLine => "Selected lines"@,
        ScopeKind::VisualBlock => "Block selection"@,
        ScopeKind::CurrentStatement => "Current statement"@,
        ScopeKind::FullBuffer => "Entire editor (all SQL)"@,
    }
}

/// How often `risk` occurs among `risks`.
pub open spec fn risk_count(risks: Seq<SqlRisk>, risk: SqlRisk) -> nat
    decreases risks.len(),
{
    if risks.len() == 0 {
        0
    } else {
        risk_count(risks.drop_last(), risk) + if risks.last() == risk { 1nat } else { 0nat }
    }
}

/// The known kinds of statement, in the order they are reported, with their captions.
pub open spec fn risk_kind(i: int) -> (SqlRisk, Seq<char>) {
    if i == 0 {
        (SqlRisk::ReadOnly, "read-only"@)
    } else if i == 1 {
        (SqlRisk::Dml, "data-changing or lock-acquiring"@)
    } else if i == 2 {
        (SqlRisk::Ddl, "schema changes"@)
    } else {
        (SqlRisk::TransactionControl, "transaction control"@)
    }
}

/// `<count> <caption>` for each of the first `k` known kinds that occurs.
pub open spec fn risk_counts(risks: Seq<SqlRisk>, k: int) -> Seq<Seq<char>>
    decreases k,
{
    if k <= 0 {
        seq![]
    } else {
        let before = risk_counts(risks, k - 1);
        let (risk, caption) = risk_kind(k - 1);
        let n = risk_count(risks, risk);
        if n > 0 { before.push(decimal(n) + " "@ + caption) } else { before }
    }
}

/// Parts joined with `; ` between them.
pub open spec fn join_parts(parts: Seq<Seq<char>>) -> Seq<char>
    decreases parts.len(),
{
    if parts.len() == 0 {
        seq![]
    } else if parts.len() == 1 {
        parts[0]
    } else {
        join_parts(parts.drop_last()) + "; "@ + parts.last()
    }
}

/// The risk line: the counts of each known kind, and a note when some statement
/// could not be classified.
pub open spec fn risks_text(risks: Seq<SqlRisk>) -> Seq<char> {
    let counts = risk_counts(risks, 4);
    let parts = if risks.contains(SqlRisk::Unknown) { counts.push("effects could not be fully determined"@) } else { counts };
    if parts.len() == 0 { "Effects could not be fully determined"@ } else { join_parts(parts) }
}

pub open spec fn mode_name(mode: TransactionMode) -> Seq<char> {
    match mode {
        TransactionMode::Auto => "Auto"@,
        TransactionMode::Manual => "Manual"@,
    }
}

pub open spec fn state_name(state: TransactionState) -> Seq<char> {
    match state {
        TransactionState::Idle => "Idle"@,
        TransactionState::Starting => "Starting"@,
        TransactionState::Active => "Active"@,
        TransactionState::Committing => "Committing"@,
        TransactionState::RollingBack => "RollingBack"@,
        TransactionState::Aborted => "Aborted"@,
        TransactionState::OutcomeUnknown => "OutcomeUnknown"@,
    }
}

/// How the statements relate to the session's transaction.
pub open spec fn transaction_text(mode: TransactionMode, state: TransactionState) -> Seq<char> {
    if mode == TransactionMode::Auto && state == TransactionState::Idle {
        "Auto-commit; data changes are not protected by a pending manual transaction"@
    } else if mode == TransactionMode::Manual && state == TransactionState::Idle {
        "Manual transaction; execution will start a transaction"@
    } else if mode == TransactionMode::Manual && state == TransactionState::Active {
        "Existing transaction; execution joins the current transaction"@
    } else {
        "Transaction state: "@ + mode_name(mode) + "/"@ + state_name(state)
    }
}

/// The title: how many statements run, unless some could not be classified.
pub open spec fn title_text(risks: Seq<SqlRisk>, count: nat) -> Seq<char> {
    if risks.contains(SqlRisk::Unknown) || count == 0 {
        "Execute selected SQL?"@
    } else {
        "Execute "@ + decimal(count) + " SQL statement"@ + (if count == 1 { ""@ } else { "s"@ }) + "?"@
    }
}

/// The name of the first profile with `id`.
pub open spec fn profile_name(profiles: Seq<ProfileName>, id: u128) -> Option<Seq<char>>
    decreases profiles.len(),
{
    if profiles.len() == 0 {
        None
    } else if profiles[0].id == id {
        Some(profiles[0].name@)
    } else {
        profile_name(profiles.drop_first(), id)
    }
}

/// The connection and database line (the default schema too when it differs from
/// the database), then the scope.
pub open spec fn scope_lines(draft: ExecutionDraft, profiles: Seq<ProfileName>) -> Seq<char> {
    let connection = match profile_name(profiles, draft.target.profile_id) {
        Some(name) => name,
        None => "unavailable connection"@,
    };
    let base = "Connection: "@ + connection + "   Database: "@ + draft.target.database@;
    let same = match draft.target.schema {
        Some(schema) => schema@ == draft.target.database@,
        None => false,
    };
    let target = if same {
        base
    } else {
        base + "   Default schema: "@ + (match draft.target.schema { Some(schema) => schema@, None => "none"@ })
    };
    target + "\nScope: "@ + scope_text(draft.scope)
}

/// The warning shown when a manual MySQL transaction meets DDL.
pub open spec fn warning_applies(draft: ExecutionDraft) -> bool {
    draft.dialect == SqlDialect::MySql && draft.transaction_mode == TransactionMode::Manual
        && draft.risks@.contains(SqlRisk::Ddl)
}

fn contains_risk(risks: &Vec<SqlRisk>, risk: SqlRisk) -> (r: bool)
    ensures
        r == risks@.contains(risk),
{
    let mut i: usize = 0;
    while i < risks.len()
        invariant
            i <= risks@.len(),
            forall|j: int| 0 <= j < i ==> risks@[j] != risk,
        decreases risks@.len() - i,
    {
        if risks[i] == risk {
            return true;
        }
        i = i + 1;
    }
    false
}

fn count_risk(risks: &Vec<SqlRisk>, risk: SqlRisk) -> (n: usize)
    ensures
        n == risk_count(risks@, risk),
{
    let mut n: usize = 0;
    let mut i: usize = 0;
    while i < risks.len()
        invariant
            i <= risks@.len(),
            n <= i,
            n == risk_count(risks@.take(i as int), risk),
        decreases risks@.len() - i,
    {
        assert(risks@.take(i as int + 1).drop_last() =~= risks@.take(i as int));
        if risks[i] == risk {
            n = n + 1;
        }
        i = i + 1;
    }
    assert(risks@.take(i as int) =~= risks@);
    n
}

fn risk_caption(i: usize) -> (r: (SqlRisk, &'static str))
    requires
        i < 4,
    ensures
        r.0 == risk_kind(i as int).0,
        r.1@ == risk_kind(i as int).1,
{
    if i == 0 {
        (SqlRisk::ReadOnly, "read-only")
    } else if i == 1 {
        (SqlRisk::Dml, "data-changing or lock-acquiring")
    } else if i == 2 {
        (SqlRisk::Ddl, "schema changes")
    } else {
        (SqlRisk::TransactionControl, "transaction control")
    }
}

fn join_strings(parts: &Vec<String>) -> (out: String)
    ensures
        out@ == join_parts(parts@.map_values(|p: String| p@)),
{
    let ghost views = parts@.map_values(|p: String| p@);
    let mut out = String::new();
    let mut i: usize = 0;
    while i < parts.len()
        invariant
            i <= parts@.len(),
            views == parts@.map_values(|p: String| p@),
            out@ == join_parts(views.take(i as int)),
        decreases parts@.len() - i,
    {
        assert(views.take(i as int + 1).drop_last() =~= views.take(i as int));
        if i > 0 {
            push_str(&mut out, "; ");
        } else {
            assert(views.take(0) =~= Seq::<Seq<char>>::empty());
        }
        push_str(&mut out, parts[i].as_str());
        i = i + 1;
    }
    assert(views.take(i as int) =~= views);
    out
}

fn risk_line(risks: &Vec<SqlRisk>) -> (out: String)
    ensures
        out@ == risks_text(risks@),
{
    let mut counts: Vec<String> = Vec::new();
    let mut k: usize = 0;
    while k < 4
        invariant
            k <= 4,
            counts@.map_values(|p: String| p@) == risk_counts(risks@, k as int),
        decreases 4 - k,
    {
        let (risk, caption) = risk_caption(k);
        let n = count_risk(risks, risk);
        if n > 0 {
            let mut part = String::new();
            push_decimal(&mut part, n as u64);
            push_str(&mut part, " ");
            push_str(&mut part, caption);
            counts.push(part);
        }
        k = k + 1;
        assert(counts@.map_values(|p: String| p@) =~= risk_counts(risks@, k as int));
    }
    if contains_risk(risks, SqlRisk::Unknown) {
        counts.push(owned("effects could not be fully determined"));
        assert(counts@.map_values(|p: String| p@) =~= risk_counts(risks@, 4).push("effects could not be fully determined"@));
    }
    if counts.len() == 0 {
        owned("Effects could not be fully determined")
    } else {
        join_strings(&counts)
    }
}

fn mode_label(mode: TransactionMode) -> (r: &'static str)
    ensures
        r@ == mode_name(mode),
{
    match mode {
        TransactionMode::Auto => "Auto",
        TransactionMode::Manual => "Manual",
    }
}

fn state_label(state: TransactionState) -> (r: &'static str)
    ensures
        r@ == state_name(state),
{
    match state {
        TransactionState::Idle => "Idle",
        TransactionState::Starting => "Starting",
        TransactionState::Active => "Active",
        TransactionState::Committing => "Committing",
        TransactionState::RollingBack => "RollingBack",
        TransactionState::Aborted => "Aborted",
        TransactionState::OutcomeUnknown => "OutcomeUnknown",
    }
}

fn transaction_line(mode: TransactionMode, state: TransactionState) -> (out: String)
    ensures
        out@ == transaction_text(mode, state),
{
    match (mode, state) {
        (TransactionMode::Auto, TransactionState::Idle) => {
            owned("Auto-commit; data changes are not protected by a pending manual transaction")
        },
        (TransactionMode::Manual, TransactionState::Idle) => {
            owned("Manual transaction; execution will start a transaction")
        },
        (TransactionMode::Manual, TransactionState::Active) => {
            owned("Existing transaction; execution joins the current transaction")
        },
        _ => {
            let mut out = owned("Transaction state: ");
            push_str(&mut out, mode_label(mode));
            push_str(&mut out, "/");
            push_str(&mut out, state_label(state));
            out
        },
    }
}

fn find_profile(profiles: &[ProfileName], id: u128) -> (r: Option<&String>)
    ensures
        r matches Some(name) ==> profile_name(profiles@, id) == Some(name@),
        r is None ==> profile_name(profiles@, id) is None,
{
    let mut i: usize = 0;
    assert(profiles@.skip(0) =~= profiles@);
    while i < profiles.len()
        invariant
            i <= profiles@.len(),
            profile_name(profiles@, id) == profile_name(profiles@.skip(i as int), id),
        decreases profiles@.len() - i,
    {
        assert(profiles@.skip(i as int).drop_first() =~= profiles@.skip(i as int + 1));
        if profiles[i].id == id {
            return Some(&profiles[i].name);
        }
        i = i + 1;
    }
    None
}

/// The confirmation text for `draft`, naming the connection from `profiles`.
pub fn summary(draft: &ExecutionDraft, profiles: &[ProfileName]) -> (s: Summary)
    ensures
        s.title@ == title_text(draft.risks@, draft.statement_count as nat),
        s.scope@ == scope_lines(*draft, profiles@),
        s.reason@ == "Review the selected SQL before execution."@,
        s.risks@ == risks_text(draft.risks@),
        s.transaction@ == transaction_text(draft.transaction_mode, draft.transaction_state),
        s.warning matches Some(w) ==> warning_applies(*draft) && w@ == "MySQL DDL may implicitly commit before and after execution"@,
        s.warning is None ==> !warning_applies(*draft),
{
    let scope = match draft.scope {
        ScopeKind::VisualChar => "Selected text",
        ScopeKind::VisualLine => "Selected lines",
        ScopeKind::VisualBlock => "Block selection",
        ScopeKind::CurrentStatement => "Current statement",
        ScopeKind::FullBuffer => "Entire editor (all SQL)",
    };
    let has_unknown = contains_risk(&draft.risks, SqlRisk::Unknown);
    let warning = if draft.dialect == SqlDialect::MySql && draft.transaction_mode == TransactionMode::Manual
        && contains_risk(&draft.risks, SqlRisk::Ddl) {
        Some(owned("MySQL DDL may implicitly commit before and after execution"))
    } else {
        None
    };
    let mut target = owned("Connection: ");
    match find_profile(profiles, draft.target.profile_id) {
        Some(name) => push_str(&mut target, name.as_str()),
        None => push_str(&mut target, "unavailable connection"),
    }
    push_str(&mut target, "   Database: ");
    push_str(&mut target, draft.target.database.as_str());
    let same = match &draft.target.schema {
        Some(schema) => same_text(schema.as_str(), draft.target.database.as_str()),
        None => false,
    };
    if !same {
        push_str(&mut target, "   Default schema: ");
        match &draft.target.schema {
            Some(schema) => push_str(&mut target, schema.as_str()),
            None => push_str(&mut target, "none"),
        }
    }
    push_str(&mut target, "\nScope: ");
    push_str(&mut target, scope);
    let title = if has_unknown || draft.statement_count == 0 {
        owned("Execute selected SQL?")
    } else {
        let mut t = owned("Execute ");
        push_decimal(&mut t, draft.statement_count as u64);
        push_str(&mut t, " SQL statement");
        push_str(&mut t, if draft.statement_count == 1 { "" } else { "s" });
        push_str(&mut t, "?");
        t
    };
    Summary {
        title,
        scope: target,
        reason: owned("Review the selected SQL before execution."),
        risks: risk_line(&draft.risks),
        transaction: transaction_line(draft.transaction_mode, draft.transaction_state),
        warning,
    }
}

/// How a transaction state is emphasised.
#[derive(Clone, Copy, Debug, PartialEq, Eq, Structural)]
pub enum StateTone {
    Warning,
    Error,
    Action,
    Muted,
}

/// The caption and emphasis of the session's transaction state; `GONE` when the
/// session has none.
pub fn transaction_state_display(state: Option<TransactionState>) -> (r: (&'static str, StateTone))
    ensures
        r.0@ == (match state {
            Some(TransactionState::Active) => "ACTIVE"@,
            Some(TransactionState::Aborted) => "ABORTED"@,
            Some(TransactionState::Starting) => "STARTING"@,
            Some(TransactionState::Committing) => "COMMITTING"@,
            Some(TransactionState::RollingBack) => "ROLLING BACK"@,
            Some(TransactionState::OutcomeUnknown) => "OUTCOME UNKNOWN"@,
            Some(TransactionState::Idle) => "IDLE"@,
            None => "GONE"@,
        }),
        r.1 == (match state {
            Some(TransactionState::Active) => StateTone::Warning,
            Some(TransactionState::Aborted) => StateTone::Error,
            Some(TransactionState::OutcomeUnknown) => StateTone::Error,
            Some(TransactionState::Idle) => StateTone::Muted,
            None => StateTone::Muted,
            _ => StateTone::Action,
        }),
{
    match state {
        Some(TransactionState::Active) => ("ACTIVE", StateTone::Warning),
        Some(TransactionState::Aborted) => ("ABORTED", StateTone::Error),
        Some(TransactionState::Starting) => ("STARTING", StateTone::Action),
        Some(TransactionState::Committing) => ("COMMITTING", StateTone::Action),
        Some(TransactionState::RollingBack) => ("ROLLING BACK", StateTone::Action),
        Some(TransactionState::OutcomeUnknown) => ("OUTCOME UNKNOWN", StateTone::Error),
        Some(TransactionState::Idle) => ("IDLE", StateTone::Muted),
        None => ("GONE", StateTone::Muted),
    }
}

/// `<n> <caption>` as a one-part list when `n` is positive, else nothing.
pub open spec fn count_part(n: nat, caption: Seq<char>) -> Seq<Seq<char>> {
    if n > 0 { seq![decimal(n) + " "@ + caption] } else { seq![] }
}

/// The risk line counts each kind of statement under its own caption, in the
/// order read-only, data-changing, schema changes, transaction control; a
/// kind that does not occur is left out, an unclassified statement adds a
/// note, and a draft with nothing to report says that its effects could not
/// be determined.
pub proof fn law_risk_line_counts_each_kind(risks: Seq<SqlRisk>)
    ensures
        ({
            let counts = count_part(risk_count(risks, SqlRisk::ReadOnly), "read-only"@)
                + count_part(risk_count(risks, SqlRisk::Dml), "data-changing or lock-acquiring"@)
                + count_part(risk_count(risks, SqlRisk::Ddl), "schema changes"@)
                + count_part(risk_count(risks, SqlRisk::TransactionControl), "transaction control"@);
            let parts = if risks.contains(SqlRisk::Unknown) { counts.push("effects could not be fully determined"@) } else { counts };
            risks_text(risks) == if parts.len() == 0 { "Effects could not be fully determined"@ } else { join_parts(parts) }
        }),
{
    let c0 = count_part(risk_count(risks, SqlRisk::ReadOnly), "read-only"@);
    let c1 = count_part(risk_count(risks, SqlRisk::Dml), "data-changing or lock-acquiring"@);
    let c2 = count_part(risk_count(risks, SqlRisk::Ddl), "schema changes"@);
    let c3 = count_part(risk_count(risks, SqlRisk::TransactionControl), "transaction control"@);
    assert(risk_counts(risks, 0) =~= seq![]);
    assert(risk_counts(risks, 1) =~= c0);
    assert(risk_counts(risks, 2) =~= c0 + c1);
    assert(risk_counts(risks, 3) =~= c0 + c1 + c2);
    assert(risk_counts(risks, 4) =~= c0 + c1 + c2 + c3);
}

/// The profile lookup finds the first profile with the id, and only a missing
/// id finds nothing.
pub proof fn law_profile_name_is_the_first_match(profiles: Seq<ProfileName>, id: u128)
    ensures
        profile_name(profiles, id) is None <==> forall|k: int| 0 <= k < profiles.len() ==> (#[trigger] profiles[k]).id != id,
        profile_name(profiles, id) matches Some(n) ==> exists|k: int| 0 <= k < profiles.len()
            && (#[trigger] profiles[k]).id == id && profiles[k].name@ == n
            && forall|j: int| 0 <= j < k ==> (#[trigger] profiles[j]).id != id,
    decreases profiles.len(),
{
    if profiles.len() > 0 {
        let rest = profiles.drop_first();
        law_profile_name_is_the_first_match(rest, id);
        if profiles[0].id != id {
            assert forall|k: int| 0 <= k < rest.len() implies #[trigger] rest[k] == profiles[k + 1] by {}
            if profile_name(rest, id) is None {
                assert forall|k: int| 0 <= k < profiles.len() implies (#[trigger] profiles[k]).id != id by {
                    if k > 0 {
                        assert(rest[k - 1] == profiles[k]);
                    }
                }
            } else {
                let k = choose|k: int| 0 <= k < rest.len()
                    && (#[trigger] rest[k]).id == id && rest[k].name@ == profile_name(rest, id)->0
                    && forall|j: int| 0 <= j < k ==> (#[trigger] rest[j]).id != id;
                assert(profiles[k + 1] == rest[k]);
                assert forall|j: int| 0 <= j < k + 1 implies (#[trigger] profiles[j]).id != id by {
                    if j > 0 {
                        assert(profiles[j] == rest[j - 1]);
                    }
                }
                assert(!(forall|m: int| 0 <= m < profiles.len() ==> (#[trigger] profiles[m]).id != id)) by {
                    assert(profiles[k + 1].id == id);
                }
            }
        } else {
            assert(profiles[0].id == id);
        }
    }
}

/// The confirmation names what runs and where: the title counts the
/// statements (singular for one) unless some statement could not be
/// classified or none was counted; the scope text starts with the connection
/// (`unavailable connection` when no profile has its id) and the database, and
/// ends with the scope; the transaction line names the special cases of auto
/// commit, a manual transaction about to start, and one being joined, and
/// otherwise the mode and state by name. The MySQL implicit-commit warning
/// applies to DDL in a manual MySQL transaction.
pub proof fn law_summary_names_what_runs(draft: ExecutionDraft, profiles: Seq<ProfileName>)
    ensures
        warning_applies(draft) <==> (draft.dialect == SqlDialect::MySql && draft.transaction_mode == TransactionMode::Manual
            && exists|k: int| 0 <= k < draft.risks@.len() && draft.risks@[k] == SqlRisk::Ddl),
        (!draft.risks@.contains(SqlRisk::Unknown) && draft.statement_count > 0) ==>
            title_text(draft.risks@, draft.statement_count as nat) == "Execute "@ + decimal(draft.statement_count as nat)
                + (if draft.statement_count == 1 { " SQL statement?"@ } else { " SQL statements?"@ }),
        (draft.risks@.contains(SqlRisk::Unknown) || draft.statement_count == 0) ==>
            title_text(draft.risks@, draft.statement_count as nat) == "Execute selected SQL?"@,
        ({
            let name = match profile_name(profiles, draft.target.profile_id) { Some(n) => n, None => "unavailable connection"@ };
            let head = "Connection: "@ + name + "   Database: "@ + draft.target.database@;
            let tail = "\nScope: "@ + (match draft.scope {
                ScopeKind::VisualChar => "Selected text"@,
                ScopeKind::VisualLine => "Selected lines"@,
                ScopeKind::VisualBlock => "Block selection"@,
                ScopeKind::CurrentStatement => "Current statement"@,
                ScopeKind::FullBuffer => "Entire editor (all SQL)"@,
            });
            let text = scope_lines(draft, profiles);
            &&& text.take(head.len() as int) == head
            &&& text.skip(text.len() - tail.len()) == tail
        }),
        transaction_text(draft.transaction_mode, draft.transaction_state) == (
            match (draft.transaction_mode, draft.transaction_state) {
                (TransactionMode::Auto, TransactionState::Idle) =>
                    "Auto-commit; data changes are not protected by a pending manual transaction"@,
                (TransactionMode::Manual, TransactionState::Idle) => "Manual transaction; execution will start a transaction"@,
                (TransactionMode::Manual, TransactionState::Active) => "Existing transaction; execution joins the current transaction"@,
                (m, st) => "Transaction state: "@ + (if m == TransactionMode::Auto { "Auto"@ } else { "Manual"@ }) + "/"@
                    + (match st {
                        TransactionState::Idle => "Idle"@,
                        TransactionState::Starting => "Starting"@,
                        TransactionState::Active => "Active"@,
                        TransactionState::Committing => "Committing"@,
                        TransactionState::RollingBack => "RollingBack"@,
                        TransactionState::Aborted => "Aborted"@,
                        TransactionState::OutcomeUnknown => "OutcomeUnknown"@,
                    }),
            }),
{
    reveal_strlit(" SQL statement");
    reveal_strlit(" SQL statement?");
    reveal_strlit(" SQL statements?");
    reveal_strlit("");
    reveal_strlit("s");
    reveal_strlit("?");
    let name = match profile_name(profiles, draft.target.profile_id) { Some(n) => n, None => "unavailable connection"@ };
    let head = "Connection: "@ + name + "   Database: "@ + draft.target.database@;
    let tail = "\nScope: "@ + scope_text(draft.scope);
    let text = scope_lines(draft, profiles);
    let same = match draft.target.schema {
        Some(schema) => schema@ == draft.target.database@,
        None => false,
    };
    let mid = if same { seq![] } else {
        "   Default schema: "@ + (match draft.target.schema { Some(schema) => schema@, None => "none"@ })
    };
    assert(text =~= head + mid + tail);
    assert(text.take(head.len() as int) =~= head);
    assert(text.skip(text.len() - tail.len()) =~= tail);
    if !draft.risks@.contains(SqlRisk::Unknown) && draft.statement_count > 0 {
        let d = decimal(draft.statement_count as nat);
        if draft.statement_count == 1 {
            assert(" SQL statement"@ + ""@ + "?"@ =~= " SQL statement?"@);
            assert("Execute "@ + d + " SQL statement"@ + ""@ + "?"@ =~= "Execute "@ + d + " SQL statement?"@);
        } else {
            assert("Execute "@ + d + " SQL statement"@ + "s"@ + "?"@ =~= "Execute "@ + d + " SQL statements?"@);
        }
    }
}

} // verus!
