//! What the application role may do with the tables.
use vstd::prelude::*;
use crate::text;

verus! {

pub struct Bootstrap;

/// A text with each quotation mark doubled.
pub open spec fn doubled(name: Seq<char>) -> Seq<char>
    decreases name.len(),
{
    if name.len() == 0 {
        Seq::empty()
    } else if name.last() == '"' {
        doubled(name.drop_last()).push('"').push('"')
    } else {
        doubled(name.drop_last()).push(name.last())
    }
}

/// A name as a quoted SQL identifier.
pub open spec fn quoted(name: Seq<char>) -> Seq<char> {
    (seq!['"'] + doubled(name)).push('"')
}

/// A name as a quoted SQL identifier.
pub fn quote_ident(name: &str) -> (r: String)
    ensures
        r@ == quoted(name@),
{
    let chars = text::chars_of(name);
    let mut out = String::new();
    out.push('"');
    let mut i: usize = 0;
    assert(out@ =~= seq!['"'] + doubled(name@.take(0)));
    while i < chars.len()
        invariant
            i <= chars.len(),
            chars@ == name@,
            out@ == seq!['"'] + doubled(name@.take(i as int)),
        decreases chars.len() - i,
    {
        let ghost now = name@.take(i + 1);
        assert(now.drop_last() =~= name@.take(i as int));
        if chars[i] == '"' {
            out.push('"');
            out.push('"');
        } else {
            out.push(chars[i]);
        }
        assert(out@ =~= seq!['"'] + doubled(now));
        i = i + 1;
    }
    assert(name@.take(i as int) =~= name@);
    out.push('"');
    out
}

proof fn doubling_is_injective(a: Seq<char>, b: Seq<char>)
    requires
        doubled(a) == doubled(b),
    ensures
        a == b,
    decreases a.len(),
{
    let d = doubled(a);
    if a.len() == 0 {
        if b.len() > 0 {
            assert(doubled(b).len() > 0);
        }
        assert(a =~= b);
    } else if b.len() == 0 {
        assert(doubled(a).len() > 0);
    } else {
        let (x, y) = (a.last(), b.last());
        assert(d.last() == x && d.last() == y);
        if x == '"' {
            assert(d.drop_last().drop_last() =~= doubled(a.drop_last()));
            assert(d.drop_last().drop_last() =~= doubled(b.drop_last()));
        } else {
            assert(d.drop_last() =~= doubled(a.drop_last()));
            assert(d.drop_last() =~= doubled(b.drop_last()));
        }
        doubling_is_injective(a.drop_last(), b.drop_last());
        assert(a =~= a.drop_last().push(x));
        assert(b =~= b.drop_last().push(y));
    }
}

/// Two names have the same identifier only where they are the same name.
pub proof fn quoting_is_injective(a: Seq<char>, b: Seq<char>)
    requires
        quoted(a) == quoted(b),
    ensures
        a == b,
{
    let q = quoted(a);
    assert(q.subrange(1, q.len() - 1) =~= doubled(a));
    assert(q.subrange(1, q.len() - 1) =~= doubled(b));
    doubling_is_injective(a, b);
}

/// The tables of which the rights are set one by one.
#[derive(Clone, Copy, Debug, PartialEq, Eq, Structural)]
pub enum Table {
    Events,
    SourceSnapshots,
    ExecutionReceipts,
    Evidence,
    ReviewDecisions,
    CompletionReceipts,
    WorkstreamCatalogs,
    WorkstreamSnapshotOwnership,
    ResponsibilityEvents,
    ResponsibilityReceipts,
    AgentAuthorizationReceipts,
    AccessChanges,
    HistoryMigrations,
    BackupOperations,
    OperatorQuarantines,
    ExecutionAttributions,
    SchemaState,
    ProjectAccessChanges,
    PlanningCandidateHistory,
    PlanningApprovals,
    PlanningPublishReceipts,
    PlanningWritebackJournals,
    PlanningActivationReceipts,
    PlanningCommandReceipts,
    /// Any other table.
    Other,
}

impl Table {
    /// The name of the table in the schema; empty for those that are not named.
    pub open spec fn name(self) -> Seq<char> {
        match self {
            Table::Events => "events"@,
            Table::SourceSnapshots => "source_snapshots"@,
            Table::ExecutionReceipts => "execution_receipts"@,
            Table::Evidence => "evidence"@,
            Table::ReviewDecisions => "review_decisions"@,
            Table::CompletionReceipts => "completion_receipts"@,
            Table::WorkstreamCatalogs => "workstream_catalogs"@,
            Table::WorkstreamSnapshotOwnership => "workstream_snapshot_ownership"@,
            Table::ResponsibilityEvents => "responsibility_events"@,
            Table::ResponsibilityReceipts => "responsibility_receipts"@,
            Table::AgentAuthorizationReceipts => "agent_authorization_receipts"@,
            Table::AccessChanges => "access_changes"@,
            Table::HistoryMigrations => "history_migrations"@,
            Table::BackupOperations => "backup_operations"@,
            Table::OperatorQuarantines => "operator_quarantines"@,
            Table::ExecutionAttributions => "execution_attributions"@,
            Table::SchemaState => "schema_state"@,
            Table::ProjectAccessChanges => "project_access_changes"@,
            Table::PlanningCandidateHistory => "planning_candidate_history"@,
            Table::PlanningApprovals => "planning_approvals"@,
            Table::PlanningPublishReceipts => "planning_publish_receipts"@,
            Table::PlanningWritebackJournals => "planning_writeback_journals"@,
            Table::PlanningActivationReceipts => "planning_activation_receipts"@,
            Table::PlanningCommandReceipts => "planning_command_receipts"@,
            Table::Other => ""@,
        }
    }

    pub fn as_str(self) -> (r: &'static str)
        ensures
            r@ == self.name(),
    {
        match self {
            Table::Events => "events",
            Table::SourceSnapshots => "source_snapshots",
            Table::ExecutionReceipts => "execution_receipts",
            Table::Evidence => "evidence",
            Table::ReviewDecisions => "review_decisions",
            Table::CompletionReceipts => "completion_receipts",
            Table::WorkstreamCatalogs => "workstream_catalogs",
            Table::WorkstreamSnapshotOwnership => "workstream_snapshot_ownership",
            Table::ResponsibilityEvents => "responsibility_events",
            Table::ResponsibilityReceipts => "responsibility_receipts",
            Table::AgentAuthorizationReceipts => "agent_authorization_receipts",
            Table::AccessChanges => "access_changes",
            Table::HistoryMigrations => "history_migrations",
            Table::BackupOperations => "backup_operations",
            Table::OperatorQuarantines => "operator_quarantines",
            Table::ExecutionAttributions => "execution_attributions",
            Table::SchemaState => "schema_state",
            Table::ProjectAccessChanges => "project_access_changes",
            Table::PlanningCandidateHistory => "planning_candidate_history",
            Table::PlanningApprovals => "planning_approvals",
            Table::PlanningPublishReceipts => "planning_publish_receipts",
            Table::PlanningWritebackJournals => "planning_writeback_journals",
            Table::PlanningActivationReceipts => "planning_activation_receipts",
            Table::PlanningCommandReceipts => "planning_command_receipts",
            Table::Other => "",
        }
    }
}

/// The rights that a step speaks of.
#[derive(Clone, Copy, Debug, PartialEq, Eq, Structural)]
pub enum Rights {
    Everything,
    Changes,
    All,
    SelectInsert,
    SelectInsertUpdate,
    Delete,
    Select,
}

impl Rights {
    /// The rights in SQL.
    pub open spec fn name(self) -> Seq<char> {
        match self {
            Rights::Everything => "SELECT, INSERT, UPDATE, DELETE"@,
            Rights::Changes => "UPDATE, DELETE"@,
            Rights::All => "ALL"@,
            Rights::SelectInsert => "SELECT, INSERT"@,
            Rights::SelectInsertUpdate => "SELECT, INSERT, UPDATE"@,
            Rights::Delete => "DELETE"@,
            Rights::Select => "SELECT"@,
        }
    }

    fn as_str(self) -> (r: &'static str)
        ensures
            r@ == self.name(),
    {
        match self {
            Rights::Everything => "SELECT, INSERT, UPDATE, DELETE",
            Rights::Changes => "UPDATE, DELETE",
            Rights::All => "ALL",
            Rights::SelectInsert => "SELECT, INSERT",
            Rights::SelectInsertUpdate => "SELECT, INSERT, UPDATE",
            Rights::Delete => "DELETE",
            Rights::Select => "SELECT",
        }
    }

    /// The rights one by one.
    pub open spec fn held(self) -> Held {
        match self {
            Rights::Everything => Held { select: true, insert: true, update: true, delete: true },
            Rights::Changes => Held { select: false, insert: false, update: true, delete: true },
            Rights::All => Held { select: true, insert: true, update: true, delete: true },
            Rights::SelectInsert => Held { select: true, insert: true, update: false, delete: false },
            Rights::SelectInsertUpdate => Held { select: true, insert: true, update: true, delete: false },
            Rights::Delete => Held { select: false, insert: false, update: false, delete: true },
            Rights::Select => Held { select: true, insert: false, update: false, delete: false },
        }
    }
}

/// What a role may do with a table.
pub struct Held {
    pub select: bool,
    pub insert: bool,
    pub update: bool,
    pub delete: bool,
}

/// A step that gives the application role rights or takes them away: of one table, or of every
/// table where the table is `Other`.
#[derive(Clone, Copy, Debug, PartialEq, Eq, Structural)]
pub struct Step {
    pub grant: bool,
    pub rights: Rights,
    pub table: Table,
}

/// What a role may do with a table after some steps.
pub open spec fn held_after(steps: Seq<Step>, t: Table) -> Held
    decreases steps.len(),
{
    if steps.len() == 0 {
        Held { select: false, insert: false, update: false, delete: false }
    } else {
        let h = held_after(steps.drop_last(), t);
        let s = steps.last();
        let r = s.rights.held();
        if s.table != t && s.table != Table::Other {
            h
        } else if s.grant {
            Held {
                select: h.select || r.select,
                insert: h.insert || r.insert,
                update: h.update || r.update,
                delete: h.delete || r.delete,
            }
        } else {
            Held {
                select: h.select && !r.select,
                insert: h.insert && !r.insert,
                update: h.update && !r.update,
                delete: h.delete && !r.delete,
            }
        }
    }
}

/// The table only grows: nothing that was written into it is changed or deleted by the application.
pub open spec fn only_grows(t: Table) -> bool {
    match t {
        Table::Events => true,
        Table::SourceSnapshots => true,
        Table::ExecutionReceipts => true,
        Table::Evidence => true,
        Table::ReviewDecisions => true,
        Table::CompletionReceipts => true,
        Table::WorkstreamCatalogs => true,
        Table::WorkstreamSnapshotOwnership => true,
        Table::ResponsibilityEvents => true,
        Table::ResponsibilityReceipts => true,
        Table::AgentAuthorizationReceipts => true,
        Table::ProjectAccessChanges => true,
        Table::PlanningCandidateHistory => true,
        Table::PlanningApprovals => true,
        Table::PlanningActivationReceipts => true,
        _ => false,
    }
}

/// The table is the operator's own.
pub open spec fn is_operators(t: Table) -> bool {
    match t {
        Table::AccessChanges => true,
        Table::HistoryMigrations => true,
        Table::BackupOperations => true,
        Table::OperatorQuarantines => true,
        Table::ExecutionAttributions => true,
        _ => false,
    }
}

fn step(grant: bool, rights: Rights, table: Table) -> (r: Step)
    ensures
        r == (Step { grant, rights, table }),
{
    Step { grant, rights, table }
}

/// The steps that set the rights of the application role.
pub open spec fn app_steps() -> Seq<Step> {
    Seq::<Step>::empty().push(
        Step { grant: true, rights: Rights::Everything, table: Table::Other },
    ).push(
        Step { grant: false, rights: Rights::Changes, table: Table::Events },
    ).push(
        Step { grant: false, rights: Rights::Changes, table: Table::SourceSnapshots },
    ).push(
        Step { grant: false, rights: Rights::Changes, table: Table::ExecutionReceipts },
    ).push(
        Step { grant: false, rights: Rights::Changes, table: Table::Evidence },
    ).push(
        Step { grant: false, rights: Rights::Changes, table: Table::ReviewDecisions },
    ).push(
        Step { grant: false, rights: Rights::Changes, table: Table::CompletionReceipts },
    ).push(
        Step { grant: false, rights: Rights::Changes, table: Table::WorkstreamCatalogs },
    ).push(
        Step { grant: false, rights: Rights::Changes, table: Table::WorkstreamSnapshotOwnership },
    ).push(
        Step { grant: false, rights: Rights::Changes, table: Table::ResponsibilityEvents },
    ).push(
        Step { grant: false, rights: Rights::Changes, table: Table::ResponsibilityReceipts },
    ).push(
        Step { grant: false, rights: Rights::Changes, table: Table::AgentAuthorizationReceipts },
    ).push(
        Step { grant: false, rights: Rights::All, table: Table::AccessChanges },
    ).push(
        Step { grant: false, rights: Rights::All, table: Table::HistoryMigrations },
    ).push(
        Step { grant: false, rights: Rights::All, table: Table::BackupOperations },
    ).push(
        Step { grant: false, rights: Rights::All, table: Table::OperatorQuarantines },
    ).push(
        Step { grant: false, rights: Rights::All, table: Table::ExecutionAttributions },
    ).push(
        Step { grant: false, rights: Rights::All, table: Table::SchemaState },
    ).push(
        Step { grant: true, rights: Rights::SelectInsert, table: Table::ProjectAccessChanges },
    ).push(
        Step { grant: false, rights: Rights::Changes, table: Table::ProjectAccessChanges },
    ).push(
        Step { grant: false, rights: Rights::Changes, table: Table::PlanningCandidateHistory },
    ).push(
        Step { grant: false, rights: Rights::Changes, table: Table::PlanningApprovals },
    ).push(
        Step { grant: false, rights: Rights::Delete, table: Table::PlanningPublishReceipts },
    ).push(
        Step { grant: true, rights: Rights::SelectInsertUpdate, table: Table::PlanningPublishReceipts },
    ).push(
        Step { grant: true, rights: Rights::SelectInsertUpdate, table: Table::PlanningWritebackJournals },
    ).push(
        Step { grant: false, rights: Rights::Delete, table: Table::PlanningWritebackJournals },
    ).push(
        Step { grant: true, rights: Rights::SelectInsert, table: Table::PlanningActivationReceipts },
    ).push(
        Step { grant: true, rights: Rights::SelectInsert, table: Table::PlanningCommandReceipts },
    ).push(
        Step { grant: false, rights: Rights::Changes, table: Table::PlanningActivationReceipts },
    ).push(
        Step { grant: true, rights: Rights::Select, table: Table::SchemaState },
    )
}

fn steps_for_app() -> (r: Vec<Step>)
    ensures
        r@ == app_steps(),
{
    let mut steps: Vec<Step> = Vec::new();
    steps.push(step(true, Rights::Everything, Table::Other));
    steps.push(step(false, Rights::Changes, Table::Events));
    steps.push(step(false, Rights::Changes, Table::SourceSnapshots));
    steps.push(step(false, Rights::Changes, Table::ExecutionReceipts));
    steps.push(step(false, Rights::Changes, Table::Evidence));
    steps.push(step(false, Rights::Changes, Table::ReviewDecisions));
    steps.push(step(false, Rights::Changes, Table::CompletionReceipts));
    steps.push(step(false, Rights::Changes, Table::WorkstreamCatalogs));
    steps.push(step(false, Rights::Changes, Table::WorkstreamSnapshotOwnership));
    steps.push(step(false, Rights::Changes, Table::ResponsibilityEvents));
    steps.push(step(false, Rights::Changes, Table::ResponsibilityReceipts));
    steps.push(step(false, Rights::Changes, Table::AgentAuthorizationReceipts));
    steps.push(step(false, Rights::All, Table::AccessChanges));
    steps.push(step(false, Rights::All, Table::HistoryMigrations));
    steps.push(step(false, Rights::All, Table::BackupOperations));
    steps.push(step(false, Rights::All, Table::OperatorQuarantines));
    steps.push(step(false, Rights::All, Table::ExecutionAttributions));
    steps.push(step(false, Rights::All, Table::SchemaState));
    steps.push(step(true, Rights::SelectInsert, Table::ProjectAccessChanges));
    steps.push(step(false, Rights::Changes, Table::ProjectAccessChanges));
    steps.push(step(false, Rights::Changes, Table::PlanningCandidateHistory));
    steps.push(step(false, Rights::Changes, Table::PlanningApprovals));
    steps.push(step(false, Rights::Delete, Table::PlanningPublishReceipts));
    steps.push(step(true, Rights::SelectInsertUpdate, Table::PlanningPublishReceipts));
    steps.push(step(true, Rights::SelectInsertUpdate, Table::PlanningWritebackJournals));
    steps.push(step(false, Rights::Delete, Table::PlanningWritebackJournals));
    steps.push(step(true, Rights::SelectInsert, Table::PlanningActivationReceipts));
    steps.push(step(true, Rights::SelectInsert, Table::PlanningCommandReceipts));
    steps.push(step(false, Rights::Changes, Table::PlanningActivationReceipts));
    steps.push(step(true, Rights::Select, Table::SchemaState));
    steps
}

/// A step in SQL.
pub open spec fn step_sql(s: Step, ident: Seq<char>) -> Seq<char> {
    let verb = if s.grant {
        "GRANT "@
    } else {
        "REVOKE "@
    };
    let place = if s.table == Table::Other {
        " ON ALL TABLES IN SCHEMA awr_team"@
    } else {
        " ON awr_team."@ + s.table.name()
    };
    let whom = if s.grant {
        " TO "@
    } else {
        " FROM "@
    };
    verb + s.rights.name() + place + whom + ident + ";"@
}

fn sql_of(s: Step, ident: &str) -> (r: String)
    ensures
        r@ == step_sql(s, ident@),
{
    let verb = if s.grant {
        "GRANT "
    } else {
        "REVOKE "
    };
    let place = match s.table {
        Table::Other => " ON ALL TABLES IN SCHEMA awr_team".to_owned(),
        t => text::plus(" ON awr_team.".to_owned(), t.as_str()),
    };
    let whom = if s.grant {
        " TO "
    } else {
        " FROM "
    };
    let a = text::plus(text::plus(verb.to_owned(), s.rights.as_str()), place.as_str());
    text::plus(text::plus(text::plus(a, whom), ident), ";")
}

/// The SQL statements that set the rights of a role: the use of the schema, and then each step.
pub open spec fn grant_sql(role: Seq<char>) -> Seq<Seq<char>> {
    Seq::<Seq<char>>::empty().push(
        "GRANT USAGE ON SCHEMA awr_team TO "@ + quoted(role) + ";"@,
    ) + app_steps().map_values(|s: Step| step_sql(s, quoted(role)))
}

impl Bootstrap {
    /// The SQL statements that set the rights of the application role.
    pub fn grant_app(app_role: &str) -> (r: Vec<String>)
        ensures
            text::texts(r@) == grant_sql(app_role@),
    {
        let ident = quote_ident(app_role);
        let steps = steps_for_app();
        let ghost sql = |s: Step| step_sql(s, quoted(app_role@));
        let mut out: Vec<String> = Vec::new();
        let usage = text::plus("GRANT USAGE ON SCHEMA awr_team TO ".to_owned(), ident.as_str());
        out.push(text::plus(usage, ";"));
        let ghost first = text::texts(out@);
        assert(first =~= grant_sql(app_role@).take(1));
        assert(steps@.take(0).map_values(sql) =~= Seq::empty());
        assert(first =~= first + steps@.take(0).map_values(sql));
        let mut i: usize = 0;
        while i < steps.len()
            invariant
                i <= steps.len(),
                ident@ == quoted(app_role@),
                sql == (|s: Step| step_sql(s, quoted(app_role@))),
                text::texts(out@) == first + steps@.take(i as int).map_values(sql),
            decreases steps.len() - i,
        {
            let ghost before = out@;
            out.push(sql_of(steps[i], ident.as_str()));
            proof {
                let s = steps@[i as int];
                assert(text::texts(out@) =~= text::texts(before).push(sql(s)));
                assert(steps@.take(i + 1).map_values(sql) =~= steps@.take(i as int).map_values(
                    sql,
                ).push(sql(s)));
            }
            i = i + 1;
        }
        assert(steps@.take(i as int) =~= steps@);
        assert(text::texts(out@) =~= grant_sql(app_role@));
        out
    }
}

/// What the application role may do with each table: a table that only grows is neither changed nor
/// cleared, the operator's tables are out of reach, and of the state of the schema only the version
/// is read.
pub proof fn application_rights(t: Table)
    ensures
        only_grows(t) ==> held_after(app_steps(), t) == (Held {
            select: true,
            insert: true,
            update: false,
            delete: false,
        }),
        is_operators(t) ==> held_after(app_steps(), t) == (Held {
            select: false,
            insert: false,
            update: false,
            delete: false,
        }),
        t == Table::SchemaState ==> held_after(app_steps(), t) == (Held {
            select: true,
            insert: false,
            update: false,
            delete: false,
        }),
        t == Table::PlanningPublishReceipts || t == Table::PlanningWritebackJournals ==> held_after(
            app_steps(),
            t,
        ) == (Held { select: true, insert: true, update: true, delete: false }),
        t == Table::Other || t == Table::PlanningCommandReceipts ==> held_after(app_steps(), t) == (
        Held { select: true, insert: true, update: true, delete: true }),
{
    reveal_with_fuel(held_after, 32);
    let steps = app_steps();
    assert(steps.len() == 30);
}

/// What the application may do with each table. What is a history can be read and added to, and never
/// changed; what the operators keep is closed to it; the version of the schema can be read.
pub proof fn histories_are_never_changed(t: Table)
    ensures
        t is Events || t is SourceSnapshots || t is ExecutionReceipts || t is Evidence
            || t is ReviewDecisions || t is CompletionReceipts || t is WorkstreamCatalogs
            || t is WorkstreamSnapshotOwnership || t is ResponsibilityEvents || t is ResponsibilityReceipts
            || t is AgentAuthorizationReceipts || t is ProjectAccessChanges || t is PlanningCandidateHistory
            || t is PlanningApprovals || t is PlanningActivationReceipts ==> {
            let h = held_after(app_steps(), t);
            h.select && h.insert && !h.update && !h.delete
        },
        t is AccessChanges || t is HistoryMigrations || t is BackupOperations || t is OperatorQuarantines
            || t is ExecutionAttributions ==> {
            let h = held_after(app_steps(), t);
            !h.select && !h.insert && !h.update && !h.delete
        },
{
    application_rights(t);
}

/// A grant adds the rights that it names, a withdrawal takes them, and both leave every other table as
/// it was, unless they name all tables.
pub proof fn steps_change_what_they_name(steps: Seq<Step>, s: Step, t: Table)
    ensures
        ({
            let before = held_after(steps, t);
            let after = held_after(steps.push(s), t);
            &&& s.table != t && s.table != Table::Other ==> after == before
            &&& s.grant && (s.table == t || s.table == Table::Other) && s.rights is Select ==> after
                == (Held { select: true, ..before })
            &&& s.grant && (s.table == t || s.table == Table::Other) && s.rights is SelectInsert ==> after
                == (Held { select: true, insert: true, ..before })
            &&& s.grant && (s.table == t || s.table == Table::Other) && s.rights is SelectInsertUpdate
                ==> after == (Held { select: true, insert: true, update: true, ..before })
            &&& s.grant && (s.table == t || s.table == Table::Other) && s.rights is Everything ==> after
                == (Held { select: true, insert: true, update: true, delete: true })
            &&& !s.grant && (s.table == t || s.table == Table::Other) && s.rights is Changes ==> after
                == (Held { update: false, delete: false, ..before })
            &&& !s.grant && (s.table == t || s.table == Table::Other) && s.rights is Delete ==> after
                == (Held { delete: false, ..before })
            &&& !s.grant && (s.table == t || s.table == Table::Other) && s.rights is All ==> after
                == (Held { select: false, insert: false, update: false, delete: false })
        }),
{
    assert(steps.push(s).drop_last() =~= steps);
}

/// A step names its rights, its table and the role: rights are given to a role and taken from it.
pub proof fn steps_are_written_in_sql(s: Step, ident: Seq<char>)
    ensures
        s.grant && s.table != Table::Other ==> step_sql(s, ident) == "GRANT "@ + s.rights.name()
            + (" ON awr_team."@ + s.table.name()) + " TO "@ + ident + ";"@,
        !s.grant && s.table != Table::Other ==> step_sql(s, ident) == "REVOKE "@ + s.rights.name()
            + (" ON awr_team."@ + s.table.name()) + " FROM "@ + ident + ";"@,
        s.grant && s.table == Table::Other ==> step_sql(s, ident) == "GRANT "@ + s.rights.name()
            + " ON ALL TABLES IN SCHEMA awr_team"@ + " TO "@ + ident + ";"@,
        Rights::Everything.name() == "SELECT, INSERT, UPDATE, DELETE"@,
        Rights::Changes.name() == "UPDATE, DELETE"@,
        Rights::All.name() == "ALL"@,
        Rights::SelectInsert.name() == "SELECT, INSERT"@,
        Rights::SelectInsertUpdate.name() == "SELECT, INSERT, UPDATE"@,
        Rights::Delete.name() == "DELETE"@,
        Rights::Select.name() == "SELECT"@,
{
}

/// A role gets the use of the schema and then each step, each for the quoted name of the role.
pub proof fn roles_get_every_step(role: Seq<char>, i: int)
    requires
        0 <= i < app_steps().len(),
    ensures
        grant_sql(role).len() == app_steps().len() + 1,
        grant_sql(role)[0] == "GRANT USAGE ON SCHEMA awr_team TO "@ + quoted(role) + ";"@,
        grant_sql(role)[i + 1] == step_sql(app_steps()[i], quoted(role)),
{
}

/// A quoted name stands between quotes, with every quote in it doubled.
pub proof fn quotes_are_doubled(name: Seq<char>, c: char)
    ensures
        quoted(Seq::empty()) == seq!['"', '"'],
        c == '"' ==> quoted(name.push(c)) == quoted(name).drop_last().push('"').push('"').push('"'),
        c != '"' ==> quoted(name.push(c)) == quoted(name).drop_last().push(c).push('"'),
{
    assert(name.push(c).drop_last() =~= name);
    assert(quoted(Seq::empty()) =~= seq!['"', '"']);
    let head = seq!['"'] + doubled(name);
    assert(quoted(name).drop_last() =~= head);
    if c == '"' {
        assert(quoted(name.push(c)) =~= head.push('"').push('"').push('"'));
    } else {
        assert(quoted(name.push(c)) =~= head.push(c).push('"'));
    }
}

/// What a right lets its holder do.
pub proof fn rights_are_what_they_say()
    ensures
        Rights::Select.held() == (Held { select: true, insert: false, update: false, delete: false }),
        Rights::SelectInsert.held() == (Held {
            select: true,
            insert: true,
            update: false,
            delete: false,
        }),
        Rights::SelectInsertUpdate.held() == (Held {
            select: true,
            insert: true,
            update: true,
            delete: false,
        }),
        Rights::Delete.held() == (Held {
            select: false,
            insert: false,
            update: false,
            delete: true,
        }),
        Rights::Changes.held() == (Held {
            select: false,
            insert: false,
            update: true,
            delete: true,
        }),
        Rights::All.held() == (Held { select: true, insert: true, update: true, delete: true }),
        Rights::Everything.held() == Rights::All.held(),
{
}

} // verus!
