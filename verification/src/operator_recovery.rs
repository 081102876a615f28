//! What an operator can read about the recovery state of a project. Nothing here
//! writes.
use crate::error;
use crate::error::{protocol, Fault, PgError, PgResult};
use crate::json;
use crate::json::{Doc, Json, JsonView};
use crate::operator_plan::ProjectRow;
use crate::text;
use vstd::prelude::*;

verus! {

/// How many rows of a kind a report repeats.
pub const SAMPLE_LIMIT: i64 = 20;

pub const PROTOCOL: &'static str = "awr-operator-recovery-inspect-v1";

/// The refusal of a request of this command that is not well formed.
pub open spec fn invalid_request() -> Fault {
    Fault::Protocol("invalid operator recovery inspection request"@)
}

fn invalid() -> (r: PgError)
    ensures
        r@ == invalid_request(),
{
    protocol("invalid operator recovery inspection request")
}

/// Whether a text is an identity: not empty, at most 128 bytes, no control character.
pub fn identity(s: &str) -> (r: bool)
    ensures
        r == text::is_identity(s@),
{
    text::identity(s)
}

/// A report: what the inspection is and is not, and what it found.
pub open spec fn report_doc(
    tenant: Seq<char>,
    project: Seq<char>,
    operator_role: Seq<char>,
    project_facts: JsonView,
    findings: JsonView,
) -> JsonView {
    JsonView::Obj(
        json::no_fields().push(("protocol"@, JsonView::Str(PROTOCOL@))).push(
            ("protocol_version"@, JsonView::Int(1)),
        ).push(("read_only"@, JsonView::Bool(true))).push(
            ("mutation"@, JsonView::Bool(false)),
        ).push(("restore"@, JsonView::Bool(false))).push(("backup"@, JsonView::Bool(false))).push(
            ("history_migration"@, JsonView::Bool(false)),
        ).push(("automatic_resume"@, JsonView::Bool(false))).push(
            ("execution_authorized"@, JsonView::Bool(false)),
        ).push(("frontend_filtering"@, JsonView::Bool(false))).push(
            ("local_filesystem_inspected"@, JsonView::Bool(false)),
        ).push(
            (
                "local_file_access"@,
                JsonView::Str("not_server_acl_or_confidentiality_sandbox"@),
            ),
        ).push(("authorization"@, JsonView::Str("schema_owner_postgresql_role"@))).push(
            ("workstreams_required"@, JsonView::Bool(true)),
        ).push(
            (
                "scope_id_semantics"@,
                JsonView::Str(
                    "historical_team_rows_retain_scope_id_main_while_workstream_id_isolates"@,
                ),
            ),
        ).push(("tenant_id"@, JsonView::Str(tenant))).push(
            ("project_id"@, JsonView::Str(project)),
        ).push(("operator_role"@, JsonView::Str(operator_role))).push(
            ("project"@, project_facts),
        ).push(("findings"@, findings)).push(
            (
                "next_action"@,
                JsonView::Str(
                    "Review findings; use authorized execution.reconcile, history-migration for inactive unattributed rows, or quarantine-* for active claims / unattributed nonterminal executions. This inspection never mutates."@,
                ),
            ),
        ),
    )
}

/// A report.
pub fn recovery_report(
    tenant: &str,
    project: &str,
    operator_role: &str,
    project_facts: Json,
    findings: Json,
) -> (r: Json)
    ensures
        r.model() == report_doc(
            tenant@,
            project@,
            operator_role@,
            project_facts.model(),
            findings.model(),
        ),
{
    Doc::new().put("protocol", json::text(PROTOCOL)).put("protocol_version", json::number(1)).put(
        "read_only",
        json::flag(true),
    ).put("mutation", json::flag(false)).put("restore", json::flag(false)).put(
        "backup",
        json::flag(false),
    ).put("history_migration", json::flag(false)).put("automatic_resume", json::flag(false)).put(
        "execution_authorized",
        json::flag(false),
    ).put("frontend_filtering", json::flag(false)).put(
        "local_filesystem_inspected",
        json::flag(false),
    ).put(
        "local_file_access",
        json::text("not_server_acl_or_confidentiality_sandbox"),
    ).put("authorization", json::text("schema_owner_postgresql_role")).put(
        "workstreams_required",
        json::flag(true),
    ).put(
        "scope_id_semantics",
        json::text("historical_team_rows_retain_scope_id_main_while_workstream_id_isolates"),
    ).put("tenant_id", json::text(tenant)).put("project_id", json::text(project)).put(
        "operator_role",
        json::text(operator_role),
    ).put("project", project_facts).put("findings", findings).put(
        "next_action",
        json::text(
            "Review findings; use authorized execution.reconcile, history-migration for inactive unattributed rows, or quarantine-* for active claims / unattributed nonterminal executions. This inspection never mutates.",
        ),
    ).json()
}

/// A work whose recovery blocks it.
#[derive(Clone, Debug)]
pub struct BlockedWork {
    pub scope_id: String,
    pub work_id: String,
    pub state: String,
    pub work_version: i64,
    pub last_fence: i64,
}

/// An execution that has not ended.
#[derive(Clone, Debug)]
pub struct OpenExecution {
    pub execution_id: String,
    pub work_id: String,
    pub state: String,
    pub workstream_id: Option<String>,
    pub coordinator_epoch: Option<String>,
    pub execution_version: i64,
}

/// What an inspection counted, with samples of the rows.
#[derive(Clone, Debug)]
pub struct RecoveryFacts {
    pub blocked: Vec<BlockedWork>,
    pub blocked_count: i64,
    pub nonterminal: Vec<OpenExecution>,
    pub nonterminal_count: i64,
    pub unknown_count: i64,
    pub active_claims: i64,
    pub open_waits: i64,
    pub unattributed_sessions: i64,
    pub unattributed_claims: i64,
    pub unattributed_executions: i64,
    pub previous_epoch_executions: i64,
    pub restore_runs: i64,
}

/// A blocked work, as a document.
pub open spec fn blocked_doc(w: BlockedWork) -> JsonView {
    JsonView::Obj(
        json::no_fields().push(("scope_id"@, JsonView::Str(w.scope_id@))).push(
            ("work_id"@, JsonView::Str(w.work_id@)),
        ).push(("state"@, JsonView::Str(w.state@))).push(
            ("work_version"@, JsonView::Str(text::decimal_form(w.work_version as int))),
        ).push(("last_fence"@, JsonView::Str(text::decimal_form(w.last_fence as int)))),
    )
}

/// An execution that has not ended, as a document.
pub open spec fn open_doc(e: OpenExecution) -> JsonView {
    JsonView::Obj(
        json::no_fields().push(("execution_id"@, JsonView::Str(e.execution_id@))).push(
            ("work_id"@, JsonView::Str(e.work_id@)),
        ).push(("state"@, JsonView::Str(e.state@))).push(
            ("workstream_id"@, json::opt_item(text::opt(e.workstream_id))),
        ).push(("coordinator_epoch"@, json::opt_item(text::opt(e.coordinator_epoch)))).push(
            ("execution_version"@, JsonView::Str(text::decimal_form(e.execution_version as int))),
        ),
    )
}

/// Rows without a workstream keep a project from being enabled anew.
pub open spec fn blocks_enablement(f: RecoveryFacts) -> bool {
    f.unattributed_sessions > 0 || f.unattributed_claims > 0 || f.unattributed_executions > 0
}

/// What an inspection found.
pub open spec fn findings_doc(f: RecoveryFacts) -> JsonView {
    JsonView::Obj(
        json::no_fields().push(
            (
                "recovery_blocked_work"@,
                JsonView::Obj(
                    json::no_fields().push(
                        ("count"@, JsonView::Int(f.blocked_count as int)),
                    ).push(
                        (
                            "sample"@,
                            JsonView::Arr(f.blocked@.map_values(|w: BlockedWork| blocked_doc(w))),
                        ),
                    ),
                ),
            ),
        ).push(
            (
                "nonterminal_executions"@,
                JsonView::Obj(
                    json::no_fields().push(
                        ("count"@, JsonView::Int(f.nonterminal_count as int)),
                    ).push(("unknown_count"@, JsonView::Int(f.unknown_count as int))).push(
                        (
                            "sample"@,
                            JsonView::Arr(
                                f.nonterminal@.map_values(|e: OpenExecution| open_doc(e)),
                            ),
                        ),
                    ),
                ),
            ),
        ).push(("active_claims"@, JsonView::Int(f.active_claims as int))).push(
            ("open_waits"@, JsonView::Int(f.open_waits as int)),
        ).push(
            (
                "unattributed_history"@,
                JsonView::Obj(
                    json::no_fields().push(
                        (
                            "sessions_without_workstream"@,
                            JsonView::Int(f.unattributed_sessions as int),
                        ),
                    ).push(
                        (
                            "claims_without_workstream"@,
                            JsonView::Int(f.unattributed_claims as int),
                        ),
                    ).push(
                        (
                            "executions_without_workstream"@,
                            JsonView::Int(f.unattributed_executions as int),
                        ),
                    ).push(("blocks_enablement_updates"@, JsonView::Bool(blocks_enablement(f)))),
                ),
            ),
        ).push(
            (
                "previous_epoch_nonterminal_executions"@,
                JsonView::Int(f.previous_epoch_executions as int),
            ),
        ).push(("recorded_restore_runs"@, JsonView::Int(f.restore_runs as int))).push(
            ("sample_limit"@, JsonView::Int(SAMPLE_LIMIT as int)),
        ),
    )
}

/// The project of an inspection, as a document.
pub open spec fn project_doc(row: ProjectRow) -> JsonView {
    JsonView::Obj(
        json::no_fields().push(("status"@, JsonView::Str(row.status@))).push(
            ("coordinator_epoch"@, JsonView::Str(row.coordinator_epoch@)),
        ).push(
            (
                "project_revision"@,
                JsonView::Str(text::decimal_form(row.project_revision as int)),
            ),
        ).push(("source_snapshot_id"@, json::opt_item(text::opt(row.source_snapshot_id)))).push(
            ("workstreams_enabled"@, JsonView::Bool(true)),
        ),
    )
}

fn blocked_document(w: &BlockedWork) -> (r: Json)
    ensures
        r.model() == blocked_doc(*w),
{
    Doc::new().put("scope_id", json::text(w.scope_id.as_str())).put(
        "work_id",
        json::text(w.work_id.as_str()),
    ).put("state", json::text(w.state.as_str())).put(
        "work_version",
        json::text(text::decimal(w.work_version).as_str()),
    ).put("last_fence", json::text(text::decimal(w.last_fence).as_str())).json()
}

fn blocked_list(rows: &Vec<BlockedWork>) -> (r: Json)
    ensures
        r.model() == JsonView::Arr(rows@.map_values(|w: BlockedWork| blocked_doc(w))),
{
    json::list_of(rows.as_slice(), blocked_document, Ghost(|w: BlockedWork| blocked_doc(w)))
}

fn open_document(e: &OpenExecution) -> (r: Json)
    ensures
        r.model() == open_doc(*e),
{
    Doc::new().put("execution_id", json::text(e.execution_id.as_str())).put(
        "work_id",
        json::text(e.work_id.as_str()),
    ).put("state", json::text(e.state.as_str())).put(
        "workstream_id",
        json::opt_text(text::as_opt_str(&e.workstream_id)),
    ).put(
        "coordinator_epoch",
        json::opt_text(text::as_opt_str(&e.coordinator_epoch)),
    ).put(
        "execution_version",
        json::text(text::decimal(e.execution_version).as_str()),
    ).json()
}

fn open_list(rows: &Vec<OpenExecution>) -> (r: Json)
    ensures
        r.model() == JsonView::Arr(rows@.map_values(|e: OpenExecution| open_doc(e))),
{
    json::list_of(rows.as_slice(), open_document, Ghost(|e: OpenExecution| open_doc(e)))
}

/// What an inspection found, as a document.
pub fn findings_document(f: &RecoveryFacts) -> (r: Json)
    ensures
        r.model() == findings_doc(*f),
{
    let blocked = Doc::new().put("count", json::number(f.blocked_count)).put(
        "sample",
        blocked_list(&f.blocked),
    ).json();
    let nonterminal = Doc::new().put("count", json::number(f.nonterminal_count)).put(
        "unknown_count",
        json::number(f.unknown_count),
    ).put("sample", open_list(&f.nonterminal)).json();
    let blocks = f.unattributed_sessions > 0 || f.unattributed_claims > 0
        || f.unattributed_executions > 0;
    let unattributed = Doc::new().put(
        "sessions_without_workstream",
        json::number(f.unattributed_sessions),
    ).put("claims_without_workstream", json::number(f.unattributed_claims)).put(
        "executions_without_workstream",
        json::number(f.unattributed_executions),
    ).put("blocks_enablement_updates", json::flag(blocks)).json();
    Doc::new().put("recovery_blocked_work", blocked).put(
        "nonterminal_executions",
        nonterminal,
    ).put("active_claims", json::number(f.active_claims)).put(
        "open_waits",
        json::number(f.open_waits),
    ).put("unattributed_history", unattributed).put(
        "previous_epoch_nonterminal_executions",
        json::number(f.previous_epoch_executions),
    ).put("recorded_restore_runs", json::number(f.restore_runs)).put(
        "sample_limit",
        json::number(SAMPLE_LIMIT),
    ).json()
}

/// The rules of recovery inspection.
pub struct OperatorRecovery;

impl OperatorRecovery {
    /// Whether the names of an inspection are well formed.
    pub fn admit_names(tenant: &str, project: &str) -> (r: PgResult<()>)
        ensures
            error::checked(r) == (if text::is_identity(tenant@) && text::is_identity(project@) {
                Ok(())
            } else {
                Err(invalid_request())
            }),
    {
        if !identity(tenant) || !identity(project) {
            return Err(invalid());
        }
        Ok(())
    }

    /// The report of an inspection.
    pub fn inspect(
        tenant: &str,
        project: &str,
        operator_role: &str,
        row: &ProjectRow,
        facts: &RecoveryFacts,
    ) -> (r: Json)
        ensures
            r.model() == report_doc(
                tenant@,
                project@,
                operator_role@,
                project_doc(*row),
                findings_doc(*facts),
            ),
    {
        let project_facts = Doc::new().put("status", json::text(row.status.as_str())).put(
            "coordinator_epoch",
            json::text(row.coordinator_epoch.as_str()),
        ).put(
            "project_revision",
            json::text(text::decimal(row.project_revision).as_str()),
        ).put(
            "source_snapshot_id",
            json::opt_text(text::as_opt_str(&row.source_snapshot_id)),
        ).put("workstreams_enabled", json::flag(true)).json();
        recovery_report(tenant, project, operator_role, project_facts, findings_document(facts))
    }
}

/// What belongs to no workstream stands in the way of enablement, whatever its kind; without any of it
/// nothing does.
pub proof fn unattributed_history_blocks_enablement(f: RecoveryFacts)
    ensures
        f.unattributed_sessions > 0 ==> blocks_enablement(f),
        f.unattributed_claims > 0 ==> blocks_enablement(f),
        f.unattributed_executions > 0 ==> blocks_enablement(f),
        f.unattributed_sessions == 0 && f.unattributed_claims == 0 && f.unattributed_executions == 0
            ==> !blocks_enablement(f),
{
}

/// A blocked work is told with each of its values under the name of the value.
pub proof fn blocked_works_are_told(w: BlockedWork)
    ensures
        json::field(blocked_doc(w), "scope_id"@) == Some(JsonView::Str(w.scope_id@)),
        json::field(blocked_doc(w), "work_id"@) == Some(JsonView::Str(w.work_id@)),
        json::field(blocked_doc(w), "state"@) == Some(JsonView::Str(w.state@)),
        json::field(blocked_doc(w), "work_version"@) == Some(JsonView::Str(text::decimal_form(w.work_version as int))),
        json::field(blocked_doc(w), "last_fence"@) == Some(JsonView::Str(text::decimal_form(w.last_fence as int))),
{
    reveal_strlit("scope_id");
    reveal_strlit("work_id");
    reveal_strlit("state");
    reveal_strlit("work_version");
    reveal_strlit("last_fence");
    assert("scope_id"@.len() == 8);
    assert("work_id"@.len() == 7);
    assert("state"@.len() == 5);
    assert("work_version"@.len() == 12);
    assert("last_fence"@.len() == 10);
    let f = blocked_doc(w)->Obj_0;
    json::field_is_first(f, "scope_id"@, 0);
    json::field_is_first(f, "work_id"@, 1);
    json::field_is_first(f, "state"@, 2);
    json::field_is_first(f, "work_version"@, 3);
    json::field_is_first(f, "last_fence"@, 4);
}

/// An open execution is told with each of its values under the name of the value.
pub proof fn open_executions_are_told(e: OpenExecution)
    ensures
        json::field(open_doc(e), "execution_id"@) == Some(JsonView::Str(e.execution_id@)),
        json::field(open_doc(e), "work_id"@) == Some(JsonView::Str(e.work_id@)),
        json::field(open_doc(e), "state"@) == Some(JsonView::Str(e.state@)),
        json::field(open_doc(e), "workstream_id"@) == Some(json::opt_item(text::opt(e.workstream_id))),
        json::field(open_doc(e), "coordinator_epoch"@) == Some(json::opt_item(text::opt(e.coordinator_epoch))),
        json::field(open_doc(e), "execution_version"@) == Some(JsonView::Str(text::decimal_form(e.execution_version as int))),
{
    reveal_strlit("execution_id");
    reveal_strlit("work_id");
    reveal_strlit("state");
    reveal_strlit("workstream_id");
    reveal_strlit("coordinator_epoch");
    reveal_strlit("execution_version");
    assert("execution_id"@.len() == 12);
    assert("work_id"@.len() == 7);
    assert("state"@.len() == 5);
    assert("workstream_id"@.len() == 13);
    assert("coordinator_epoch"@.len() == 17);
    assert("execution_version"@.len() == 17);
    assert("coordinator_epoch"@[0] == 'c');
    assert("execution_version"@[0] == 'e');
    let f = open_doc(e)->Obj_0;
    json::field_is_first(f, "execution_id"@, 0);
    json::field_is_first(f, "work_id"@, 1);
    json::field_is_first(f, "state"@, 2);
    json::field_is_first(f, "workstream_id"@, 3);
    json::field_is_first(f, "coordinator_epoch"@, 4);
    json::field_is_first(f, "execution_version"@, 5);
}

/// A project is told as it stands.
pub proof fn projects_are_told(row: ProjectRow)
    ensures
        json::field(project_doc(row), "status"@) == Some(JsonView::Str(row.status@)),
        json::field(project_doc(row), "coordinator_epoch"@) == Some(JsonView::Str(row.coordinator_epoch@)),
        json::field(project_doc(row), "project_revision"@) == Some(JsonView::Str(text::decimal_form(row.project_revision as int))),
        json::field(project_doc(row), "source_snapshot_id"@) == Some(json::opt_item(text::opt(row.source_snapshot_id))),
        json::field(project_doc(row), "workstreams_enabled"@) == Some(JsonView::Bool(true)),
{
    reveal_strlit("status");
    reveal_strlit("coordinator_epoch");
    reveal_strlit("project_revision");
    reveal_strlit("source_snapshot_id");
    reveal_strlit("workstreams_enabled");
    assert("status"@.len() == 6);
    assert("coordinator_epoch"@.len() == 17);
    assert("project_revision"@.len() == 16);
    assert("source_snapshot_id"@.len() == 18);
    assert("workstreams_enabled"@.len() == 19);
    let f = project_doc(row)->Obj_0;
    json::field_is_first(f, "status"@, 0);
    json::field_is_first(f, "coordinator_epoch"@, 1);
    json::field_is_first(f, "project_revision"@, 2);
    json::field_is_first(f, "source_snapshot_id"@, 3);
    json::field_is_first(f, "workstreams_enabled"@, 4);
}

/// A report is of one project, and changes nothing, restores nothing and authorizes nothing.
pub proof fn reports_are_told(tenant: Seq<char>, project: Seq<char>, operator_role: Seq<char>, project_facts: JsonView, findings: JsonView)
    ensures
        json::field(report_doc(tenant, project, operator_role, project_facts, findings), "protocol"@) == Some(JsonView::Str(PROTOCOL@)),
        json::field(report_doc(tenant, project, operator_role, project_facts, findings), "protocol_version"@) == Some(JsonView::Int(1)),
        json::field(report_doc(tenant, project, operator_role, project_facts, findings), "read_only"@) == Some(JsonView::Bool(true)),
        json::field(report_doc(tenant, project, operator_role, project_facts, findings), "mutation"@) == Some(JsonView::Bool(false)),
        json::field(report_doc(tenant, project, operator_role, project_facts, findings), "restore"@) == Some(JsonView::Bool(false)),
        json::field(report_doc(tenant, project, operator_role, project_facts, findings), "backup"@) == Some(JsonView::Bool(false)),
        json::field(report_doc(tenant, project, operator_role, project_facts, findings), "history_migration"@) == Some(JsonView::Bool(false)),
        json::field(report_doc(tenant, project, operator_role, project_facts, findings), "automatic_resume"@) == Some(JsonView::Bool(false)),
        json::field(report_doc(tenant, project, operator_role, project_facts, findings), "execution_authorized"@) == Some(JsonView::Bool(false)),
        json::field(report_doc(tenant, project, operator_role, project_facts, findings), "frontend_filtering"@) == Some(JsonView::Bool(false)),
        json::field(report_doc(tenant, project, operator_role, project_facts, findings), "local_filesystem_inspected"@) == Some(JsonView::Bool(false)),
        json::field(report_doc(tenant, project, operator_role, project_facts, findings), "local_file_access"@) == Some(JsonView::Str("not_server_acl_or_confidentiality_sandbox"@)),
        json::field(report_doc(tenant, project, operator_role, project_facts, findings), "authorization"@) == Some(JsonView::Str("schema_owner_postgresql_role"@)),
        json::field(report_doc(tenant, project, operator_role, project_facts, findings), "workstreams_required"@) == Some(JsonView::Bool(true)),
        json::field(report_doc(tenant, project, operator_role, project_facts, findings), "scope_id_semantics"@) == Some(JsonView::Str( "historical_team_rows_retain_scope_id_main_while_workstream_id_isolates"@, )),
        json::field(report_doc(tenant, project, operator_role, project_facts, findings), "tenant_id"@) == Some(JsonView::Str(tenant)),
        json::field(report_doc(tenant, project, operator_role, project_facts, findings), "project_id"@) == Some(JsonView::Str(project)),
        json::field(report_doc(tenant, project, operator_role, project_facts, findings), "operator_role"@) == Some(JsonView::Str(operator_role)),
        json::field(report_doc(tenant, project, operator_role, project_facts, findings), "project"@) == Some(project_facts),
        json::field(report_doc(tenant, project, operator_role, project_facts, findings), "findings"@) == Some(findings),
        json::field(report_doc(tenant, project, operator_role, project_facts, findings), "next_action"@) == Some(JsonView::Str( "Review findings; use authorized execution.reconcile, history-migration for inactive unattributed rows, or quarantine-* for active claims / unattributed nonterminal executions. This inspection never mutates."@, )),
{
    reveal_strlit("protocol");
    reveal_strlit("protocol_version");
    reveal_strlit("read_only");
    reveal_strlit("mutation");
    reveal_strlit("restore");
    reveal_strlit("backup");
    reveal_strlit("history_migration");
    reveal_strlit("automatic_resume");
    reveal_strlit("execution_authorized");
    reveal_strlit("frontend_filtering");
    reveal_strlit("local_filesystem_inspected");
    reveal_strlit("local_file_access");
    reveal_strlit("authorization");
    reveal_strlit("workstreams_required");
    reveal_strlit("scope_id_semantics");
    reveal_strlit("tenant_id");
    reveal_strlit("project_id");
    reveal_strlit("operator_role");
    reveal_strlit("project");
    reveal_strlit("findings");
    reveal_strlit("next_action");
    assert("protocol"@.len() == 8);
    assert("protocol_version"@.len() == 16);
    assert("read_only"@.len() == 9);
    assert("mutation"@.len() == 8);
    assert("restore"@.len() == 7);
    assert("backup"@.len() == 6);
    assert("history_migration"@.len() == 17);
    assert("automatic_resume"@.len() == 16);
    assert("execution_authorized"@.len() == 20);
    assert("frontend_filtering"@.len() == 18);
    assert("local_filesystem_inspected"@.len() == 26);
    assert("local_file_access"@.len() == 17);
    assert("authorization"@.len() == 13);
    assert("workstreams_required"@.len() == 20);
    assert("scope_id_semantics"@.len() == 18);
    assert("tenant_id"@.len() == 9);
    assert("project_id"@.len() == 10);
    assert("operator_role"@.len() == 13);
    assert("project"@.len() == 7);
    assert("findings"@.len() == 8);
    assert("next_action"@.len() == 11);
    assert("protocol"@[0] == 'p');
    assert("mutation"@[0] == 'm');
    assert("findings"@[0] == 'f');
    assert("protocol_version"@[0] == 'p');
    assert("automatic_resume"@[0] == 'a');
    assert("read_only"@[0] == 'r');
    assert("tenant_id"@[0] == 't');
    assert("restore"@[0] == 'r');
    assert("project"@[0] == 'p');
    assert("history_migration"@[0] == 'h');
    assert("local_file_access"@[0] == 'l');
    assert("execution_authorized"@[0] == 'e');
    assert("workstreams_required"@[0] == 'w');
    assert("frontend_filtering"@[0] == 'f');
    assert("scope_id_semantics"@[0] == 's');
    assert("authorization"@[0] == 'a');
    assert("operator_role"@[0] == 'o');
    let f = report_doc(tenant, project, operator_role, project_facts, findings)->Obj_0;
    json::field_is_first(f, "protocol"@, 0);
    json::field_is_first(f, "protocol_version"@, 1);
    json::field_is_first(f, "read_only"@, 2);
    json::field_is_first(f, "mutation"@, 3);
    json::field_is_first(f, "restore"@, 4);
    json::field_is_first(f, "backup"@, 5);
    json::field_is_first(f, "history_migration"@, 6);
    json::field_is_first(f, "automatic_resume"@, 7);
    json::field_is_first(f, "execution_authorized"@, 8);
    json::field_is_first(f, "frontend_filtering"@, 9);
    json::field_is_first(f, "local_filesystem_inspected"@, 10);
    json::field_is_first(f, "local_file_access"@, 11);
    json::field_is_first(f, "authorization"@, 12);
    json::field_is_first(f, "workstreams_required"@, 13);
    json::field_is_first(f, "scope_id_semantics"@, 14);
    json::field_is_first(f, "tenant_id"@, 15);
    json::field_is_first(f, "project_id"@, 16);
    json::field_is_first(f, "operator_role"@, 17);
    json::field_is_first(f, "project"@, 18);
    json::field_is_first(f, "findings"@, 19);
    json::field_is_first(f, "next_action"@, 20);
}

/// Findings give each number as it was counted.
pub proof fn findings_are_told(f: RecoveryFacts)
    ensures
        json::field(findings_doc(f), "active_claims"@) == Some(JsonView::Int(f.active_claims as int)),
        json::field(findings_doc(f), "open_waits"@) == Some(JsonView::Int(f.open_waits as int)),
        json::field(findings_doc(f), "previous_epoch_nonterminal_executions"@) == Some(JsonView::Int(f.previous_epoch_executions as int)),
        json::field(findings_doc(f), "recorded_restore_runs"@) == Some(JsonView::Int(f.restore_runs as int)),
        json::field(findings_doc(f), "sample_limit"@) == Some(JsonView::Int(20)),
{
    reveal_strlit("recovery_blocked_work");
    reveal_strlit("nonterminal_executions");
    reveal_strlit("active_claims");
    reveal_strlit("open_waits");
    reveal_strlit("unattributed_history");
    reveal_strlit("previous_epoch_nonterminal_executions");
    reveal_strlit("recorded_restore_runs");
    reveal_strlit("sample_limit");
    assert("recovery_blocked_work"@.len() == 21);
    assert("nonterminal_executions"@.len() == 22);
    assert("active_claims"@.len() == 13);
    assert("open_waits"@.len() == 10);
    assert("unattributed_history"@.len() == 20);
    assert("previous_epoch_nonterminal_executions"@.len() == 37);
    assert("recorded_restore_runs"@.len() == 21);
    assert("sample_limit"@.len() == 12);
    assert("recovery_blocked_work"@[4] == 'v');
    assert("recorded_restore_runs"@[4] == 'r');
    let f = findings_doc(f)->Obj_0;
    json::field_is_first(f, "recovery_blocked_work"@, 0);
    json::field_is_first(f, "nonterminal_executions"@, 1);
    json::field_is_first(f, "active_claims"@, 2);
    json::field_is_first(f, "open_waits"@, 3);
    json::field_is_first(f, "unattributed_history"@, 4);
    json::field_is_first(f, "previous_epoch_nonterminal_executions"@, 5);
    json::field_is_first(f, "recorded_restore_runs"@, 6);
    json::field_is_first(f, "sample_limit"@, 7);
}

/// Findings on blocked works, open executions and unattributed history give the counts, the samples row
/// by row, and whether enablement is blocked.
pub proof fn findings_are_counted(f: RecoveryFacts, i: int)
    ensures
        ({
            let blocked = json::field(findings_doc(f), "recovery_blocked_work"@)->Some_0;
            let open = json::field(findings_doc(f), "nonterminal_executions"@)->Some_0;
            let history = json::field(findings_doc(f), "unattributed_history"@)->Some_0;
            &&& json::field(blocked, "count"@) == Some(JsonView::Int(f.blocked_count as int))
            &&& json::field(blocked, "sample"@) matches Some(JsonView::Arr(rows)) && rows.len()
                == f.blocked@.len() && (0 <= i < rows.len() ==> rows[i] == blocked_doc(f.blocked@[i]))
            &&& json::field(open, "count"@) == Some(JsonView::Int(f.nonterminal_count as int))
            &&& json::field(open, "unknown_count"@) == Some(JsonView::Int(f.unknown_count as int))
            &&& json::field(open, "sample"@) matches Some(JsonView::Arr(rows)) && rows.len()
                == f.nonterminal@.len() && (0 <= i < rows.len() ==> rows[i] == open_doc(
                f.nonterminal@[i],
            ))
            &&& json::field(history, "sessions_without_workstream"@) == Some(
                JsonView::Int(f.unattributed_sessions as int),
            )
            &&& json::field(history, "claims_without_workstream"@) == Some(
                JsonView::Int(f.unattributed_claims as int),
            )
            &&& json::field(history, "executions_without_workstream"@) == Some(
                JsonView::Int(f.unattributed_executions as int),
            )
            &&& json::field(history, "blocks_enablement_updates"@) == Some(
                JsonView::Bool(blocks_enablement(f)),
            )
        }),
{
    reveal_strlit("recovery_blocked_work");
    reveal_strlit("nonterminal_executions");
    reveal_strlit("active_claims");
    reveal_strlit("open_waits");
    reveal_strlit("unattributed_history");
    reveal_strlit("count");
    reveal_strlit("unknown_count");
    reveal_strlit("sample");
    reveal_strlit("sessions_without_workstream");
    reveal_strlit("claims_without_workstream");
    reveal_strlit("executions_without_workstream");
    reveal_strlit("blocks_enablement_updates");
    assert("recovery_blocked_work"@.len() == 21 && "nonterminal_executions"@.len() == 22
        && "active_claims"@.len() == 13 && "open_waits"@.len() == 10 && "unattributed_history"@.len()
        == 20);
    assert("count"@.len() == 5 && "unknown_count"@.len() == 13 && "sample"@.len() == 6);
    assert("sessions_without_workstream"@.len() == 27 && "claims_without_workstream"@.len() == 25
        && "executions_without_workstream"@.len() == 29 && "blocks_enablement_updates"@.len() == 25);
    assert("claims_without_workstream"@[0] == 'c' && "blocks_enablement_updates"@[0] == 'b');
    let d = findings_doc(f)->Obj_0;
    json::field_is_first(d, "recovery_blocked_work"@, 0);
    json::field_is_first(d, "nonterminal_executions"@, 1);
    json::field_is_first(d, "unattributed_history"@, 4);
    let blocked = d[0].1->Obj_0;
    json::field_is_first(blocked, "count"@, 0);
    json::field_is_first(blocked, "sample"@, 1);
    let open = d[1].1->Obj_0;
    json::field_is_first(open, "count"@, 0);
    json::field_is_first(open, "unknown_count"@, 1);
    json::field_is_first(open, "sample"@, 2);
    let history = d[4].1->Obj_0;
    json::field_is_first(history, "sessions_without_workstream"@, 0);
    json::field_is_first(history, "claims_without_workstream"@, 1);
    json::field_is_first(history, "executions_without_workstream"@, 2);
    json::field_is_first(history, "blocks_enablement_updates"@, 3);
}

/// A request that is not well formed is told as such.
pub proof fn malformed_requests_are_told()
    ensures
        invalid_request() == Fault::Protocol("invalid operator recovery inspection request"@),
{
}

} // verus!
