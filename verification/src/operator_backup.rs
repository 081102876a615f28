//! Backup manifests of enabled projects, and what may be restored or rebuilt from
//! them.
//!
//! A restore copies no rows: it fences the project off from everything that was
//! under way. A rebuild puts back missing work items and, where a project has no
//! ownership rows, those of the manifest. Neither touches completion receipts,
//! grants, actors, catalogs or contracts. The physical backup of the database is
//! taken elsewhere.
use crate::error;
use crate::error::{protocol, unsupported, Fault, PgError, PgResult};
use crate::json;
use crate::json::{Doc, Json, JsonView};
use crate::migrate::EXPECTED_SCHEMA_VERSION;
use crate::operator_request;
use crate::order;
use crate::text;
use crate::tx;
use vstd::prelude::*;
use vstd::string::StringExecFns;

verus! {

pub const PROTOCOL: &'static str = "awr-operator-enabled-backup-v1";

pub const BACKUP_FORMAT: &'static str = "awr-team-enabled-backup-v1";

/// The list with one more text where the condition holds.
pub open spec fn also(list: Seq<Seq<char>>, condition: bool, item: Seq<char>) -> Seq<Seq<char>> {
    if condition {
        list.push(item)
    } else {
        list
    }
}

fn refuse(list: &mut Vec<&'static str>, condition: bool, reason: &'static str)
    ensures
        operator_request::names(final(list)@) == also(operator_request::names(old(list)@), condition, reason@),
{
    if condition {
        list.push(reason);
    }
    assert(operator_request::names(list@) =~= also(operator_request::names(old(list)@), condition, reason@));
}

/// Whether a restore may be applied, and why not.
#[derive(Clone, Debug, PartialEq, Eq)]
pub struct RestoreDecision {
    pub safe_to_apply: bool,
    pub mode: &'static str,
    pub refusals: Vec<&'static str>,
}

/// The reasons against a restore.
pub open spec fn restore_refusals(
    backup_format: Seq<char>,
    schema_ok: bool,
    workstream_projection_matches: bool,
    completion_receipts_match: bool,
    logical_inventory_matches: bool,
    artifacts_present: bool,
    unattributed_history: bool,
    replay_outbox: bool,
) -> Seq<Seq<char>> {
    let r = also(
        Seq::empty(),
        backup_format != BACKUP_FORMAT@,
        "unsupported_backup_format"@,
    );
    let r = also(r, !schema_ok, "schema_version_mismatch"@);
    let r = also(r, !workstream_projection_matches, "workstream_projection_drift"@);
    let r = also(
        r,
        !completion_receipts_match,
        "completion_receipt_divergence_refuses_rewrite"@,
    );
    let r = also(r, unattributed_history, "unattributed_history_present"@);
    let r = also(r, replay_outbox, "outbox_replay_forbidden"@);
    let r = also(r, !artifacts_present, "physical_or_logical_artifacts_missing"@);
    also(r, !logical_inventory_matches, "logical_inventory_mismatch"@)
}

/// Decides a restore from what its digests show. It is safe where nothing stands against it,
/// and its only mode is fencing.
pub fn plan_restore(
    backup_format: &str,
    schema_ok: bool,
    workstream_projection_matches: bool,
    completion_receipts_match: bool,
    logical_inventory_matches: bool,
    artifacts_present: bool,
    unattributed_history: bool,
    replay_outbox: bool,
) -> (r: RestoreDecision)
    ensures
        operator_request::names(r.refusals@) == restore_refusals(
            backup_format@,
            schema_ok,
            workstream_projection_matches,
            completion_receipts_match,
            logical_inventory_matches,
            artifacts_present,
            unattributed_history,
            replay_outbox,
        ),
        r.safe_to_apply == (r.refusals@.len() == 0),
        r.mode@ == (if r.safe_to_apply {
            "verified_fencing"@
        } else {
            "refused"@
        }),
{
    let mut refusals: Vec<&'static str> = Vec::new();
    assert(operator_request::names(refusals@) =~= Seq::empty());
    refuse(
        &mut refusals,
        !text::same(backup_format, BACKUP_FORMAT),
        "unsupported_backup_format",
    );
    refuse(&mut refusals, !schema_ok, "schema_version_mismatch");
    refuse(&mut refusals, !workstream_projection_matches, "workstream_projection_drift");
    refuse(
        &mut refusals,
        !completion_receipts_match,
        "completion_receipt_divergence_refuses_rewrite",
    );
    refuse(&mut refusals, unattributed_history, "unattributed_history_present");
    refuse(&mut refusals, replay_outbox, "outbox_replay_forbidden");
    refuse(&mut refusals, !artifacts_present, "physical_or_logical_artifacts_missing");
    refuse(&mut refusals, !logical_inventory_matches, "logical_inventory_mismatch");
    let safe = refusals.len() == 0;
    RestoreDecision {
        safe_to_apply: safe,
        mode: if safe {
            "verified_fencing"
        } else {
            "refused"
        },
        refusals,
    }
}

/// A restore is safe exactly where the manifest is of the known format and schema, everything
/// that it recorded is still there unchanged, and nothing is asked to be sent again.
pub proof fn restore_is_safe_only_unchanged(
    backup_format: Seq<char>,
    schema_ok: bool,
    workstream_projection_matches: bool,
    completion_receipts_match: bool,
    logical_inventory_matches: bool,
    artifacts_present: bool,
    unattributed_history: bool,
    replay_outbox: bool,
)
    ensures
        restore_refusals(
            backup_format,
            schema_ok,
            workstream_projection_matches,
            completion_receipts_match,
            logical_inventory_matches,
            artifacts_present,
            unattributed_history,
            replay_outbox,
        ).len() == 0 <==> backup_format == BACKUP_FORMAT@ && schema_ok
            && workstream_projection_matches && completion_receipts_match
            && logical_inventory_matches && artifacts_present && !unattributed_history
            && !replay_outbox,
{
}

/// Whether a rebuild may be applied, why not, and how many rows it puts in.
#[derive(Clone, Debug, PartialEq, Eq)]
pub struct RebuildDecision {
    pub safe_to_apply: bool,
    pub mode: &'static str,
    pub refusals: Vec<&'static str>,
    pub insert_ownership: usize,
    pub insert_work_items: usize,
}

/// What is known when a rebuild is decided.
pub struct RebuildFacts {
    pub schema_ok: bool,
    pub manifest_ownership_valid: bool,
    pub work_coverage_ok: bool,
    pub ownership_empty: bool,
    pub ownership_digest_matches: bool,
    pub work_key_conflicts: bool,
    pub has_active_claims: bool,
    pub has_active_sessions: bool,
    pub has_live_executions: bool,
    pub unattributed_history: bool,
}

/// The reasons against a rebuild.
pub open spec fn rebuild_refusals(backup_format: Seq<char>, facts: RebuildFacts) -> Seq<Seq<char>> {
    let r = also(
        Seq::empty(),
        backup_format != BACKUP_FORMAT@,
        "unsupported_backup_format"@,
    );
    let r = also(r, !facts.schema_ok, "schema_version_mismatch"@);
    let r = also(r, !facts.manifest_ownership_valid, "invalid_manifest_ownership"@);
    let r = also(r, !facts.work_coverage_ok, "work_items_missing_for_ownership"@);
    let r = also(r, facts.work_key_conflicts, "work_item_external_key_conflict"@);
    let r = also(
        r,
        !facts.ownership_empty && !facts.ownership_digest_matches,
        "dangerous_ownership_overwrite"@,
    );
    let r = also(r, facts.has_active_claims, "active_claims_present"@);
    let r = also(r, facts.has_active_sessions, "active_sessions_present"@);
    let r = also(r, facts.has_live_executions, "live_executions_present_fence_first"@);
    also(r, facts.unattributed_history, "unattributed_history_present"@)
}

/// The decision on a rebuild.
pub open spec fn is_rebuild_decision(
    r: RebuildDecision,
    backup_format: Seq<char>,
    facts: RebuildFacts,
    ownership_rows: usize,
    missing_work_items: usize,
) -> bool {
    &&& operator_request::names(r.refusals@) == rebuild_refusals(backup_format, facts)
    &&& r.safe_to_apply == (r.refusals@.len() == 0)
    &&& r.mode@ == (if !r.safe_to_apply {
        "refused"@
    } else if facts.ownership_digest_matches {
        "already_materialized"@
    } else {
        "ownership_materialize"@
    })
    &&& r.insert_ownership == (if r.safe_to_apply && !facts.ownership_digest_matches {
        ownership_rows
    } else {
        0
    })
    &&& r.insert_work_items == (if r.safe_to_apply {
        missing_work_items
    } else {
        0
    })
}

/// Decides a rebuild from what its digests show.
pub fn plan_rebuild(
    backup_format: &str,
    schema_ok: bool,
    manifest_ownership_valid: bool,
    work_coverage_ok: bool,
    ownership_empty: bool,
    ownership_digest_matches: bool,
    work_key_conflicts: bool,
    has_active_claims: bool,
    has_active_sessions: bool,
    has_live_executions: bool,
    unattributed_history: bool,
    ownership_rows: usize,
    missing_work_items: usize,
) -> (r: RebuildDecision)
    ensures
        is_rebuild_decision(
            r,
            backup_format@,
            (RebuildFacts {
                schema_ok,
                manifest_ownership_valid,
                work_coverage_ok,
                ownership_empty,
                ownership_digest_matches,
                work_key_conflicts,
                has_active_claims,
                has_active_sessions,
                has_live_executions,
                unattributed_history,
            }),
            ownership_rows,
            missing_work_items,
        ),
{
    let mut refusals: Vec<&'static str> = Vec::new();
    assert(operator_request::names(refusals@) =~= Seq::empty());
    refuse(
        &mut refusals,
        !text::same(backup_format, BACKUP_FORMAT),
        "unsupported_backup_format",
    );
    refuse(&mut refusals, !schema_ok, "schema_version_mismatch");
    refuse(&mut refusals, !manifest_ownership_valid, "invalid_manifest_ownership");
    refuse(&mut refusals, !work_coverage_ok, "work_items_missing_for_ownership");
    refuse(&mut refusals, work_key_conflicts, "work_item_external_key_conflict");
    refuse(
        &mut refusals,
        !ownership_empty && !ownership_digest_matches,
        "dangerous_ownership_overwrite",
    );
    refuse(&mut refusals, has_active_claims, "active_claims_present");
    refuse(&mut refusals, has_active_sessions, "active_sessions_present");
    refuse(&mut refusals, has_live_executions, "live_executions_present_fence_first");
    refuse(&mut refusals, unattributed_history, "unattributed_history_present");
    let safe = refusals.len() == 0;
    RebuildDecision {
        safe_to_apply: safe,
        mode: if !safe {
            "refused"
        } else if ownership_digest_matches {
            "already_materialized"
        } else {
            "ownership_materialize"
        },
        refusals,
        insert_ownership: if safe && !ownership_digest_matches {
            ownership_rows
        } else {
            0
        },
        insert_work_items: if safe {
            missing_work_items
        } else {
            0
        },
    }
}

/// A rebuild that is refused puts nothing in; one over ownership that differs is refused; and
/// one over ownership that is already there puts no ownership in.
pub proof fn rebuild_never_overwrites_ownership(
    r: RebuildDecision,
    backup_format: Seq<char>,
    facts: RebuildFacts,
    ownership_rows: usize,
    missing_work_items: usize,
)
    requires
        is_rebuild_decision(r, backup_format, facts, ownership_rows, missing_work_items),
    ensures
        !r.safe_to_apply ==> r.insert_ownership == 0 && r.insert_work_items == 0,
        !facts.ownership_empty && !facts.ownership_digest_matches ==> !r.safe_to_apply,
        facts.ownership_digest_matches ==> r.insert_ownership == 0,
        r.insert_ownership > 0 ==> facts.ownership_empty,
        facts.has_active_claims || facts.has_active_sessions || facts.has_live_executions
            ==> !r.safe_to_apply,
{
    assert(operator_request::names(r.refusals@).len() == r.refusals@.len());
}

/// What backups do and what they leave alone.
pub open spec fn limits_doc() -> JsonView {
    JsonView::Obj(
        json::no_fields().push(
            ("physical_basebackup"@, JsonView::Str("external_operator_responsibility"@)),
        ).push(("logical_manifest"@, JsonView::Str("recorded_in_awr_team.backups"@))).push(
            ("restores_table_rows_from_manifest"@, JsonView::Bool(false)),
        ).push(
            (
                "rebuild_from_manifest"@,
                JsonView::Obj(
                    json::no_fields().push(
                        (
                            "subset"@,
                            JsonView::Str("work_inventory_and_ownership_when_empty_v1"@),
                        ),
                    ).push(("requires_fencing_quiet"@, JsonView::Bool(true))).push(
                        ("work_items_external_key_only"@, JsonView::Bool(true)),
                    ).push(("workstream_ownership"@, JsonView::Bool(true))).push(
                        ("work_contracts"@, JsonView::Bool(false)),
                    ).push(("workstream_catalogs"@, JsonView::Bool(false))).push(
                        ("workstream_snapshot_ownership"@, JsonView::Bool(false)),
                    ).push(("completion_receipts"@, JsonView::Bool(false))).push(
                        ("grants_or_actors"@, JsonView::Bool(false)),
                    ).push(("dangerous_overwrite"@, JsonView::Bool(false))),
                ),
            ),
        ).push(("rewrites_completion_receipts"@, JsonView::Bool(false))).push(
            ("forges_credentials_or_grants"@, JsonView::Bool(false)),
        ).push(("outbox_replay"@, JsonView::Bool(false))).push(
            (
                "local_file_access"@,
                JsonView::Str("not_server_acl_or_confidentiality_sandbox"@),
            ),
        ).push(("frontend_filtering"@, JsonView::Bool(false))).push(
            ("legacy_import_store"@, JsonView::Str("refuses_enabled_workstream_projects"@)),
        ).push(("requires_history_migration_first"@, JsonView::Bool(true))),
    )
}

/// What backups do and what they leave alone.
pub fn backup_limits_document() -> (r: Json)
    ensures
        r.model() == limits_doc(),
{
    let rebuild = Doc::new().put(
        "subset",
        json::text("work_inventory_and_ownership_when_empty_v1"),
    ).put("requires_fencing_quiet", json::flag(true)).put(
        "work_items_external_key_only",
        json::flag(true),
    ).put("workstream_ownership", json::flag(true)).put("work_contracts", json::flag(false)).put(
        "workstream_catalogs",
        json::flag(false),
    ).put("workstream_snapshot_ownership", json::flag(false)).put(
        "completion_receipts",
        json::flag(false),
    ).put("grants_or_actors", json::flag(false)).put("dangerous_overwrite", json::flag(false)).json();
    Doc::new().put("physical_basebackup", json::text("external_operator_responsibility")).put(
        "logical_manifest",
        json::text("recorded_in_awr_team.backups"),
    ).put("restores_table_rows_from_manifest", json::flag(false)).put(
        "rebuild_from_manifest",
        rebuild,
    ).put("rewrites_completion_receipts", json::flag(false)).put(
        "forges_credentials_or_grants",
        json::flag(false),
    ).put("outbox_replay", json::flag(false)).put(
        "local_file_access",
        json::text("not_server_acl_or_confidentiality_sandbox"),
    ).put("frontend_filtering", json::flag(false)).put(
        "legacy_import_store",
        json::text("refuses_enabled_workstream_projects"),
    ).put("requires_history_migration_first", json::flag(true)).json()
}

/// A request of this command that is not well formed.
fn invalid() -> (r: PgError)
    ensures
        r@ == invalid_request(),
{
    protocol("invalid operator enabled-project backup/restore request")
}

/// The refusal of a request of this command that is not well formed.
pub open spec fn invalid_request() -> Fault {
    Fault::Protocol("invalid operator enabled-project backup/restore request"@)
}

/// An ownership row: which workstream a work belongs to, since which version.
#[derive(Clone, Debug, PartialEq, Eq)]
pub struct OwnershipRow {
    pub work_id: String,
    pub workstream_id: String,
    /// In decimal form.
    pub ownership_version: String,
}

/// The model of an ownership row.
pub struct OwnershipView {
    pub work_id: Seq<char>,
    pub workstream_id: Seq<char>,
    pub ownership_version: Seq<char>,
}

impl View for OwnershipRow {
    type V = OwnershipView;

    open spec fn view(&self) -> OwnershipView {
        OwnershipView {
            work_id: self.work_id@,
            workstream_id: self.workstream_id@,
            ownership_version: self.ownership_version@,
        }
    }
}

impl OwnershipRow {
    /// A row of the ownership table.
    pub fn new(work_id: &str, workstream_id: &str, version: i64) -> (r: OwnershipRow)
        ensures
            r@ == (OwnershipView {
                work_id: work_id@,
                workstream_id: workstream_id@,
                ownership_version: text::decimal_form(version as int),
            }),
    {
        OwnershipRow {
            work_id: work_id.to_owned(),
            workstream_id: workstream_id.to_owned(),
            ownership_version: text::decimal(version),
        }
    }

    /// A copy of the row.
    pub fn copy(&self) -> (r: OwnershipRow)
        ensures
            r == *self,
    {
        OwnershipRow {
            work_id: self.work_id.clone(),
            workstream_id: self.workstream_id.clone(),
            ownership_version: self.ownership_version.clone(),
        }
    }
}

/// The models of ownership rows.
pub open spec fn ownership_views(rows: Seq<OwnershipRow>) -> Seq<OwnershipView> {
    rows.map_values(|r: OwnershipRow| r@)
}

/// An ownership row, as a document.
pub open spec fn ownership_row_doc(row: OwnershipView) -> JsonView {
    JsonView::Obj(
        json::no_fields().push(("work_id"@, JsonView::Str(row.work_id))).push(
            ("workstream_id"@, JsonView::Str(row.workstream_id)),
        ).push(("ownership_version"@, JsonView::Str(row.ownership_version))),
    )
}

/// Ownership rows, as a document.
pub open spec fn ownership_doc(rows: Seq<OwnershipView>) -> JsonView {
    JsonView::Arr(rows.map_values(|r: OwnershipView| ownership_row_doc(r)))
}

fn ownership_row_document(row: &OwnershipRow) -> (r: Json)
    ensures
        r.model() == ownership_row_doc(row@),
{
    Doc::new().put("work_id", json::text(row.work_id.as_str())).put(
        "workstream_id",
        json::text(row.workstream_id.as_str()),
    ).put("ownership_version", json::text(row.ownership_version.as_str())).json()
}

/// Ownership rows, as a document.
pub fn ownership_document(rows: &[OwnershipRow]) -> (r: Json)
    ensures
        r.model() == ownership_doc(ownership_views(rows@)),
{
    assert(rows@.map_values(|r: OwnershipRow| ownership_row_doc(r@)) =~= ownership_doc(
        ownership_views(rows@),
    )->Arr_0);
    json::list_of(rows, ownership_row_document, Ghost(|r: OwnershipRow| ownership_row_doc(r@)))
}

/// A work and the key under which it is known outside.
#[derive(Clone, Debug, PartialEq, Eq)]
pub struct WorkItem {
    pub work_id: String,
    pub external_key: String,
}

/// The model of a work item.
pub struct WorkItemView {
    pub work_id: Seq<char>,
    pub external_key: Seq<char>,
}

impl View for WorkItem {
    type V = WorkItemView;

    open spec fn view(&self) -> WorkItemView {
        WorkItemView { work_id: self.work_id@, external_key: self.external_key@ }
    }
}

/// The models of work items.
pub open spec fn work_views(items: Seq<WorkItem>) -> Seq<WorkItemView> {
    items.map_values(|w: WorkItem| w@)
}

/// A work item, as a document.
pub open spec fn work_item_doc(item: WorkItemView) -> JsonView {
    JsonView::Obj(
        json::no_fields().push(("work_id"@, JsonView::Str(item.work_id))).push(
            ("external_key"@, JsonView::Str(item.external_key)),
        ),
    )
}

/// Work items, as a document.
pub open spec fn work_items_doc(items: Seq<WorkItemView>) -> JsonView {
    JsonView::Arr(items.map_values(|w: WorkItemView| work_item_doc(w)))
}

fn work_item_document(item: &WorkItem) -> (r: Json)
    ensures
        r.model() == work_item_doc(item@),
{
    Doc::new().put("work_id", json::text(item.work_id.as_str())).put(
        "external_key",
        json::text(item.external_key.as_str()),
    ).json()
}

/// Work items, as a document.
pub fn work_items_document(items: &[WorkItem]) -> (r: Json)
    ensures
        r.model() == work_items_doc(work_views(items@)),
{
    assert(items@.map_values(|w: WorkItem| work_item_doc(w@)) =~= work_items_doc(
        work_views(items@),
    )->Arr_0);
    json::list_of(items, work_item_document, Ghost(|w: WorkItem| work_item_doc(w@)))
}

/// The workstreams of a project at one moment.
#[derive(Clone, Debug)]
pub struct Projection {
    pub project_status: String,
    pub coordinator_epoch: String,
    pub project_revision: i64,
    pub source_snapshot_id: Option<String>,
    pub catalog_digest: Option<String>,
    pub ownership: Vec<OwnershipRow>,
    pub ownership_digest: String,
    pub unattributed_history: bool,
}

/// A projection, as a document.
pub open spec fn projection_doc(p: Projection) -> JsonView {
    JsonView::Obj(
        json::no_fields().push(("project_status"@, JsonView::Str(p.project_status@))).push(
            ("coordinator_epoch"@, JsonView::Str(p.coordinator_epoch@)),
        ).push(
            (
                "project_revision"@,
                JsonView::Str(text::decimal_form(p.project_revision as int)),
            ),
        ).push(("source_snapshot_id"@, json::opt_item(text::opt(p.source_snapshot_id)))).push(
            ("catalog_digest"@, json::opt_item(text::opt(p.catalog_digest))),
        ).push(("ownership"@, ownership_doc(ownership_views(p.ownership@)))).push(
            ("ownership_digest"@, JsonView::Str(p.ownership_digest@)),
        ).push(("unattributed_history"@, JsonView::Bool(p.unattributed_history))),
    )
}

/// A projection, as a document.
pub fn projection_document(p: &Projection) -> (r: Json)
    ensures
        r.model() == projection_doc(*p),
{
    Doc::new().put("project_status", json::text(p.project_status.as_str())).put(
        "coordinator_epoch",
        json::text(p.coordinator_epoch.as_str()),
    ).put("project_revision", json::text(text::decimal(p.project_revision).as_str())).put(
        "source_snapshot_id",
        json::opt_text(text::as_opt_str(&p.source_snapshot_id)),
    ).put("catalog_digest", json::opt_text(text::as_opt_str(&p.catalog_digest))).put(
        "ownership",
        ownership_document(p.ownership.as_slice()),
    ).put("ownership_digest", json::text(p.ownership_digest.as_str())).put(
        "unattributed_history",
        json::flag(p.unattributed_history),
    ).json()
}

/// A list with its digest, as a document.
pub open spec fn inventory_doc(items: JsonView, digest: Seq<char>) -> JsonView {
    JsonView::Obj(
        json::no_fields().push(("items"@, items)).push(("digest"@, JsonView::Str(digest))),
    )
}

/// A list with its digest, as a document.
pub fn inventory_document(items: Json, digest: &str) -> (r: Json)
    ensures
        r.model() == inventory_doc(items.model(), digest@),
{
    Doc::new().put("items", items).put("digest", json::text(digest)).json()
}

/// A completion receipt, by its digests.
#[derive(Clone, Debug)]
pub struct CompletionRow {
    pub id: String,
    pub work_id: String,
    pub contract_hash: String,
    pub result_digest: String,
}

/// A completion receipt, as a document.
pub open spec fn completion_doc(row: CompletionRow) -> JsonView {
    JsonView::Obj(
        json::no_fields().push(("id"@, JsonView::Str(row.id@))).push(
            ("work_id"@, JsonView::Str(row.work_id@)),
        ).push(("contract_hash"@, JsonView::Str(row.contract_hash@))).push(
            ("result_digest"@, JsonView::Str(row.result_digest@)),
        ),
    )
}

fn completion_row_document(row: &CompletionRow) -> (r: Json)
    ensures
        r.model() == completion_doc(*row),
{
    Doc::new().put("id", json::text(row.id.as_str())).put(
        "work_id",
        json::text(row.work_id.as_str()),
    ).put("contract_hash", json::text(row.contract_hash.as_str())).put(
        "result_digest",
        json::text(row.result_digest.as_str()),
    ).json()
}

/// Completion receipts, as a document.
pub fn completion_document(rows: &[CompletionRow]) -> (r: Json)
    ensures
        r.model() == JsonView::Arr(rows@.map_values(|c: CompletionRow| completion_doc(c))),
{
    json::list_of(rows, completion_row_document, Ghost(|c: CompletionRow| completion_doc(c)))
}

/// A source snapshot, by its digest.
#[derive(Clone, Debug)]
pub struct SourceRow {
    pub id: String,
    pub manifest_digest: String,
    pub parser_version: String,
}

/// An artifact, by its digest.
#[derive(Clone, Debug)]
pub struct ArtifactRow {
    pub id: String,
    pub sha256: String,
    pub byte_length: i64,
    pub state: String,
    pub bytes_present: bool,
}

/// A source snapshot, as a document.
pub open spec fn source_doc(row: SourceRow) -> JsonView {
    JsonView::Obj(
        json::no_fields().push(("id"@, JsonView::Str(row.id@))).push(
            ("manifest_digest"@, JsonView::Str(row.manifest_digest@)),
        ).push(("parser_version"@, JsonView::Str(row.parser_version@))),
    )
}

/// An artifact, as a document.
pub open spec fn artifact_doc(row: ArtifactRow) -> JsonView {
    JsonView::Obj(
        json::no_fields().push(("id"@, JsonView::Str(row.id@))).push(
            ("sha256"@, JsonView::Str(row.sha256@)),
        ).push(("byte_length"@, JsonView::Int(row.byte_length as int))).push(
            ("state"@, JsonView::Str(row.state@)),
        ).push(("bytes_present"@, JsonView::Bool(row.bytes_present))),
    )
}

/// Every artifact is there in full, finalized or retained.
pub open spec fn all_artifacts_present(rows: Seq<ArtifactRow>) -> bool {
    forall|i: int|
        0 <= i < rows.len() ==> (#[trigger] rows[i]).bytes_present && (rows[i].state@
            == "finalized"@ || rows[i].state@ == "retained"@)
}

/// Whether every artifact is there in full, finalized or retained.
pub fn artifacts_present(rows: &[ArtifactRow]) -> (r: bool)
    ensures
        r == all_artifacts_present(rows@),
{
    let mut i: usize = 0;
    while i < rows.len()
        invariant
            i <= rows.len(),
            forall|j: int|
                0 <= j < i ==> (#[trigger] rows@[j]).bytes_present && (rows@[j].state@
                    == "finalized"@ || rows@[j].state@ == "retained"@),
        decreases rows.len() - i,
    {
        let row = &rows[i];
        if !row.bytes_present || !(text::same(row.state.as_str(), "finalized") || text::same(
            row.state.as_str(),
            "retained",
        )) {
            return false;
        }
        i = i + 1;
    }
    true
}

/// The sources and artifacts of a project, as the document that its logical digest is of.
pub open spec fn logical_items_doc(sources: Seq<SourceRow>, artifacts: Seq<ArtifactRow>) -> JsonView {
    JsonView::Obj(
        json::no_fields().push(
            ("sources"@, JsonView::Arr(sources.map_values(|s: SourceRow| source_doc(s)))),
        ).push(
            ("artifacts"@, JsonView::Arr(artifacts.map_values(|a: ArtifactRow| artifact_doc(a)))),
        ),
    )
}

/// The logical inventory of a project, as a document.
pub open spec fn logical_doc(
    sources: Seq<SourceRow>,
    artifacts: Seq<ArtifactRow>,
    digest: Seq<char>,
) -> JsonView {
    JsonView::Obj(
        json::no_fields().push(
            ("sources"@, JsonView::Arr(sources.map_values(|s: SourceRow| source_doc(s)))),
        ).push(
            ("artifacts"@, JsonView::Arr(artifacts.map_values(|a: ArtifactRow| artifact_doc(a)))),
        ).push(
            (
                "source_digests"@,
                json::text_items(sources.map_values(|s: SourceRow| s.manifest_digest@)),
            ),
        ).push(
            (
                "artifact_digests"@,
                json::text_items(artifacts.map_values(|a: ArtifactRow| a.sha256@)),
            ),
        ).push(("artifacts_present"@, JsonView::Bool(all_artifacts_present(artifacts)))).push(
            ("digest"@, JsonView::Str(digest)),
        ),
    )
}

fn source_document(row: &SourceRow) -> (r: Json)
    ensures
        r.model() == source_doc(*row),
{
    Doc::new().put("id", json::text(row.id.as_str())).put(
        "manifest_digest",
        json::text(row.manifest_digest.as_str()),
    ).put("parser_version", json::text(row.parser_version.as_str())).json()
}

fn sources_document(rows: &[SourceRow]) -> (r: Json)
    ensures
        r.model() == JsonView::Arr(rows@.map_values(|s: SourceRow| source_doc(s))),
{
    json::list_of(rows, source_document, Ghost(|s: SourceRow| source_doc(s)))
}

fn artifact_document(row: &ArtifactRow) -> (r: Json)
    ensures
        r.model() == artifact_doc(*row),
{
    Doc::new().put("id", json::text(row.id.as_str())).put(
        "sha256",
        json::text(row.sha256.as_str()),
    ).put("byte_length", json::number(row.byte_length)).put(
        "state",
        json::text(row.state.as_str()),
    ).put("bytes_present", json::flag(row.bytes_present)).json()
}

fn artifacts_document(rows: &[ArtifactRow]) -> (r: Json)
    ensures
        r.model() == JsonView::Arr(rows@.map_values(|a: ArtifactRow| artifact_doc(a))),
{
    json::list_of(rows, artifact_document, Ghost(|a: ArtifactRow| artifact_doc(a)))
}

fn source_digests(rows: &[SourceRow]) -> (r: Vec<String>)
    ensures
        text::texts(r@) == rows@.map_values(|s: SourceRow| s.manifest_digest@),
{
    let mut out: Vec<String> = Vec::new();
    let mut i: usize = 0;
    while i < rows.len()
        invariant
            i <= rows.len(),
            out.len() == i,
            forall|j: int| 0 <= j < i ==> #[trigger] out@[j]@ == rows@[j].manifest_digest@,
        decreases rows.len() - i,
    {
        out.push(rows[i].manifest_digest.clone());
        i = i + 1;
    }
    assert(text::texts(out@) =~= rows@.map_values(|s: SourceRow| s.manifest_digest@));
    out
}

fn artifact_digests(rows: &[ArtifactRow]) -> (r: Vec<String>)
    ensures
        text::texts(r@) == rows@.map_values(|a: ArtifactRow| a.sha256@),
{
    let mut out: Vec<String> = Vec::new();
    let mut i: usize = 0;
    while i < rows.len()
        invariant
            i <= rows.len(),
            out.len() == i,
            forall|j: int| 0 <= j < i ==> #[trigger] out@[j]@ == rows@[j].sha256@,
        decreases rows.len() - i,
    {
        out.push(rows[i].sha256.clone());
        i = i + 1;
    }
    assert(text::texts(out@) =~= rows@.map_values(|a: ArtifactRow| a.sha256@));
    out
}

/// The document that the logical digest of a project is of.
pub fn logical_items_document(sources: &[SourceRow], artifacts: &[ArtifactRow]) -> (r: Json)
    ensures
        r.model() == logical_items_doc(sources@, artifacts@),
{
    Doc::new().put("sources", sources_document(sources)).put(
        "artifacts",
        artifacts_document(artifacts),
    ).json()
}

/// The logical inventory of a project, with its digest.
pub fn logical_document(sources: &[SourceRow], artifacts: &[ArtifactRow], digest: &str) -> (r: Json)
    ensures
        r.model() == logical_doc(sources@, artifacts@, digest@),
{
    Doc::new().put("sources", sources_document(sources)).put(
        "artifacts",
        artifacts_document(artifacts),
    ).put("source_digests", json::text_list(source_digests(sources).as_slice())).put(
        "artifact_digests",
        json::text_list(artifact_digests(artifacts).as_slice()),
    ).put("artifacts_present", json::flag(artifacts_present(artifacts))).put(
        "digest",
        json::text(digest),
    ).json()
}

/// A stored backup.
pub struct BackupRow {
    pub manifest_hash: String,
    pub schema_version: i32,
    pub manifest: Option<Json>,
}

/// A backup can be used where it is there with its manifest, and the manifest has the digest
/// that was stored with it.
pub open spec fn usable(row: Option<BackupRow>, manifest_digest: Seq<char>) -> bool {
    row is Some && row->Some_0.manifest is Some && row->Some_0.manifest_hash@ == manifest_digest
}

/// Opens a stored backup whose manifest has the given digest.
pub fn open_backup(row: Option<BackupRow>, manifest_digest: &str) -> (r: PgResult<BackupRow>)
    ensures
        match r {
            Ok(b) => usable(row, manifest_digest@) && row == Some(b),
            Err(e) => !usable(row, manifest_digest@) && e@ == Fault::RestoreIncomplete,
        },
{
    match row {
        None => Err(PgError::RestoreIncomplete),
        Some(b) => {
            if b.manifest.is_none() || !text::same(b.manifest_hash.as_str(), manifest_digest) {
                return Err(PgError::RestoreIncomplete);
            }
            Ok(b)
        },
    }
}

/// The ownership that a manifest holds: in its projection, or else in its rebuildable part.
pub open spec fn manifest_ownership_field(manifest: JsonView) -> Option<JsonView> {
    match json::field2(manifest, "projection"@, "ownership"@) {
        Some(v) => Some(v),
        None => json::field2(manifest, "rebuildable"@, "ownership"@),
    }
}

/// The items of a list document; none where it is no list.
pub open spec fn items_of(doc: Option<JsonView>) -> Seq<JsonView> {
    match doc {
        Some(JsonView::Arr(items)) => items,
        _ => Seq::empty(),
    }
}

/// An ownership row of a manifest, with the empty text for what it lacks.
pub open spec fn manifest_row(item: JsonView) -> OwnershipView {
    OwnershipView {
        work_id: json::text_or_empty(item, "work_id"@),
        workstream_id: json::text_or_empty(item, "workstream_id"@),
        ownership_version: json::text_or_empty(item, "ownership_version"@),
    }
}

/// An ownership row names a work, a workstream and a positive version.
pub open spec fn row_ok(row: OwnershipView) -> bool {
    &&& text::is_identity(row.work_id)
    &&& text::is_identity(row.workstream_id)
    &&& text::parsed_int(row.ownership_version) is Some
    &&& text::parsed_int(row.ownership_version)->Some_0 > 0
}

/// The place of a row in a list sorted by work: before the first row of a later work, from
/// position `i` on.
pub open spec fn slot(rows: Seq<OwnershipView>, work_id: Seq<char>, i: int) -> int
    decreases rows.len() - i,
{
    if i < 0 || i >= rows.len() || order::text_lt(work_id, rows[i].work_id) {
        i
    } else {
        slot(rows, work_id, i + 1)
    }
}

/// The rows in the order of their works; rows of one work stay in the order that they had.
pub open spec fn sorted_by_work(rows: Seq<OwnershipView>) -> Seq<OwnershipView>
    decreases rows.len(),
{
    if rows.len() == 0 {
        Seq::empty()
    } else {
        let before = sorted_by_work(rows.drop_last());
        before.insert(slot(before, rows.last().work_id, 0), rows.last())
    }
}

/// Every ownership row of a manifest is well formed.
pub open spec fn rows_ok(items: Seq<JsonView>) -> bool {
    forall|i: int| 0 <= i < items.len() ==> row_ok(manifest_row(#[trigger] items[i]))
}

/// The ownership rows of a manifest, sorted by work.
pub open spec fn manifest_rows(manifest: JsonView) -> Seq<OwnershipView> {
    sorted_by_work(
        items_of(manifest_ownership_field(manifest)).map_values(|j: JsonView| manifest_row(j)),
    )
}

proof fn slot_in_range(rows: Seq<OwnershipView>, work_id: Seq<char>, i: int)
    requires
        0 <= i <= rows.len(),
    ensures
        i <= slot(rows, work_id, i) <= rows.len(),
        forall|j: int| i <= j < slot(rows, work_id, i) ==> !order::text_lt(work_id, (#[trigger] rows[j]).work_id),
        slot(rows, work_id, i) < rows.len() ==> order::text_lt(
            work_id,
            rows[slot(rows, work_id, i)].work_id,
        ),
    decreases rows.len() - i,
{
    if i < rows.len() && !order::text_lt(work_id, rows[i].work_id) {
        slot_in_range(rows, work_id, i + 1);
    }
}

/// Sorting by work keeps the rows and puts them in ascending order.
pub proof fn sorting_by_work_sorts(rows: Seq<OwnershipView>)
    ensures
        sorted_by_work(rows).to_multiset() == rows.to_multiset(),
        forall|i: int, j: int|
            0 <= i < j < sorted_by_work(rows).len() ==> order::text_le(
                (#[trigger] sorted_by_work(rows)[i]).work_id,
                (#[trigger] sorted_by_work(rows)[j]).work_id,
            ),
    decreases rows.len(),
{
    if rows.len() > 0 {
        let before = sorted_by_work(rows.drop_last());
        let last = rows.last();
        sorting_by_work_sorts(rows.drop_last());
        slot_in_range(before, last.work_id, 0);
        let p = slot(before, last.work_id, 0);
        let after = before.insert(p, last);
        vstd::seq_lib::to_multiset_insert(before, p, last);
        vstd::seq_lib::to_multiset_build(rows.drop_last(), last);
        assert(rows.drop_last().push(last) =~= rows);
        assert forall|i: int, j: int| 0 <= i < j < after.len() implies order::text_le(
            (#[trigger] after[i]).work_id,
            (#[trigger] after[j]).work_id,
        ) by {
            if i < p && j < p {
                assert(after[i] == before[i] && after[j] == before[j]);
            } else if i < p && j == p {
                assert(after[i] == before[i]);
                order::text_lt_total(last.work_id, before[i].work_id);
            } else if i < p && j > p {
                assert(after[i] == before[i] && after[j] == before[j - 1]);
            } else if i == p {
                assert(after[j] == before[j - 1]);
                if p < j - 1 {
                    assert(order::text_le(before[p].work_id, before[j - 1].work_id));
                    if order::text_lt(before[p].work_id, before[j - 1].work_id) {
                        order::text_lt_transitive(
                            last.work_id,
                            before[p].work_id,
                            before[j - 1].work_id,
                        );
                    }
                }
            } else {
                assert(after[i] == before[i - 1] && after[j] == before[j - 1]);
            }
        }
    } else {
        assert(rows =~= Seq::empty());
    }
}

fn items_list<'a>(doc: Option<&'a Json>) -> (r: Option<&'a Vec<Json>>)
    ensures
        match r {
            Some(items) => json::models(items@) == items_of(
                match doc {
                    Some(d) => Some(d.model()),
                    None => None,
                },
            ),
            None => items_of(
                match doc {
                    Some(d) => Some(d.model()),
                    None => None,
                },
            ).len() == 0,
        },
{
    match doc {
        Some(d) => match d {
            Json::Arr(items) => {
                assert(d.model()->Arr_0 =~= json::models(items@));
                Some(items)
            },
            _ => None,
        },
        None => None,
    }
}

fn ownership_field(manifest: &Json) -> (r: Option<&Json>)
    ensures
        match r {
            Some(v) => manifest_ownership_field(manifest.model()) == Some(v.model()),
            None => manifest_ownership_field(manifest.model()) is None,
        },
{
    match manifest.get2("projection", "ownership") {
        Some(v) => Some(v),
        None => manifest.get2("rebuildable", "ownership"),
    }
}

fn insert_by_work(rows: &mut Vec<OwnershipRow>, row: OwnershipRow)
    ensures
        ownership_views(final(rows)@) == ownership_views(old(rows)@).insert(
            slot(ownership_views(old(rows)@), row@.work_id, 0),
            row@,
        ),
{
    let ghost before = ownership_views(rows@);
    proof {
        slot_in_range(before, row@.work_id, 0);
    }
    let mut i: usize = 0;
    while i < rows.len() && !order::less(row.work_id.as_str(), rows[i].work_id.as_str())
        invariant
            i <= rows.len(),
            before == ownership_views(rows@),
            slot(before, row@.work_id, 0) == slot(before, row@.work_id, i as int),
        decreases rows.len() - i,
    {
        assert(before[i as int] == rows@[i as int]@);
        i = i + 1;
    }
    proof {
        if i < rows.len() {
            assert(before[i as int] == rows@[i as int]@);
        }
        assert(slot(before, row@.work_id, i as int) == i);
    }
    rows.insert(i, row);
    assert(ownership_views(rows@) =~= before.insert(i as int, row@));
}

/// The ownership rows of a manifest, sorted by work; refused where one is not well formed.
pub fn parse_manifest_ownership(manifest: &Json) -> (r: PgResult<Vec<OwnershipRow>>)
    ensures
        match r {
            Ok(rows) => {
                &&& rows_ok(items_of(manifest_ownership_field(manifest.model())))
                &&& ownership_views(rows@) == manifest_rows(manifest.model())
            },
            Err(e) => e@ == Fault::RestoreIncomplete && !rows_ok(
                items_of(manifest_ownership_field(manifest.model())),
            ),
        },
{
    let mut out: Vec<OwnershipRow> = Vec::new();
    let ghost docs = items_of(manifest_ownership_field(manifest.model()));
    let ghost all = docs.map_values(|j: JsonView| manifest_row(j));
    assert(ownership_views(out@) =~= sorted_by_work(all.take(0)));
    match items_list(ownership_field(manifest)) {
        Some(items) => {
            let mut i: usize = 0;
            while i < items.len()
                invariant
                    i <= items.len(),
                    docs == items_of(manifest_ownership_field(manifest.model())),
                    docs == json::models(items@),
                    all == docs.map_values(|j: JsonView| manifest_row(j)),
                    ownership_views(out@) == sorted_by_work(all.take(i as int)),
                    forall|j: int| 0 <= j < i ==> row_ok(manifest_row(#[trigger] docs[j])),
                decreases items.len() - i,
            {
                let item = &items[i];
                assert(docs[i as int] == item.model());
                let row = OwnershipRow {
                    work_id: item.text_or_empty("work_id").to_owned(),
                    workstream_id: item.text_or_empty("workstream_id").to_owned(),
                    ownership_version: item.text_or_empty("ownership_version").to_owned(),
                };
                assert(row@ == all[i as int]);
                let positive = match text::parse_int(row.ownership_version.as_str()) {
                    Some(v) => v > 0,
                    None => false,
                };
                if !text::identity(row.work_id.as_str()) || !text::identity(
                    row.workstream_id.as_str(),
                ) || !positive {
                    assert(!row_ok(manifest_row(docs[i as int])));
                    return Err(PgError::RestoreIncomplete);
                }
                assert(all.take(i + 1).drop_last() =~= all.take(i as int));
                assert(all.take(i + 1).last() == row@);
                insert_by_work(&mut out, row);
                i = i + 1;
            }
            assert(all.take(i as int) =~= all);
        },
        None => {
            assert(all.take(0) =~= all);
        },
    }
    Ok(out)
}

/// The work inventory that a manifest holds.
pub open spec fn manifest_inventory(manifest: JsonView) -> Seq<JsonView> {
    items_of(
        match json::field2(manifest, "work_inventory"@, "items"@) {
            Some(v) => Some(v),
            None => json::field2(manifest, "rebuildable"@, "work_inventory"@),
        },
    )
}

/// A work item of a manifest, with the empty text for what it lacks.
pub open spec fn manifest_item(item: JsonView) -> WorkItemView {
    WorkItemView {
        work_id: json::text_or_empty(item, "work_id"@),
        external_key: json::text_or_empty(item, "external_key"@),
    }
}

/// A work item names a work and a key.
pub open spec fn item_ok(item: WorkItemView) -> bool {
    text::is_identity(item.work_id) && text::is_identity(item.external_key)
}

/// The key of a work in a list: that of the last item that names the work.
pub open spec fn key_of(items: Seq<WorkItemView>, work_id: Seq<char>) -> Option<Seq<char>>
    decreases items.len(),
{
    if items.len() == 0 {
        None
    } else if items.last().work_id == work_id {
        Some(items.last().external_key)
    } else {
        key_of(items.drop_last(), work_id)
    }
}

/// The work items of a manifest that are well formed.
pub open spec fn good_items(items: Seq<WorkItemView>) -> Seq<WorkItemView> {
    items.filter(|w: WorkItemView| item_ok(w))
}

/// An item of a manifest is not well formed, or gives a work another key than it has.
pub open spec fn keys_conflict(items: Seq<WorkItemView>, current: Seq<WorkItemView>) -> bool {
    exists|i: int|
        0 <= i < items.len() && (!item_ok(#[trigger] items[i]) || (key_of(
            current,
            items[i].work_id,
        ) is Some && key_of(current, items[i].work_id) != Some(items[i].external_key)))
}

/// The items that the first `n` ownership rows need and the project lacks, with the keys that
/// the manifest gives them.
pub open spec fn items_needed(
    rows: Seq<OwnershipView>,
    current: Seq<WorkItemView>,
    inventory: Seq<WorkItemView>,
) -> Seq<WorkItemView>
    decreases rows.len(),
{
    if rows.len() == 0 {
        Seq::empty()
    } else {
        let before = items_needed(rows.drop_last(), current, inventory);
        let work = rows.last().work_id;
        match (key_of(current, work), key_of(inventory, work)) {
            (None, Some(key)) => before.push(WorkItemView { work_id: work, external_key: key }),
            _ => before,
        }
    }
}

/// Every ownership row's work is in the project or in the inventory.
pub open spec fn works_covered(
    rows: Seq<OwnershipView>,
    current: Seq<WorkItemView>,
    inventory: Seq<WorkItemView>,
) -> bool {
    forall|i: int|
        0 <= i < rows.len() ==> key_of(current, (#[trigger] rows[i]).work_id) is Some || key_of(
            inventory,
            rows[i].work_id,
        ) is Some
}

fn find_key<'a>(items: &'a [WorkItem], work_id: &str) -> (r: Option<&'a str>)
    ensures
        text::opt_str(r) == key_of(work_views(items@), work_id@),
{
    let ghost all = work_views(items@);
    let mut n: usize = items.len();
    assert(all.take(n as int) =~= all);
    while n > 0
        invariant
            n <= items.len(),
            all == work_views(items@),
            key_of(all, work_id@) == key_of(all.take(n as int), work_id@),
        decreases n,
    {
        let item = &items[n - 1];
        assert(all.take(n as int).last() == item@);
        assert(all.take(n as int).drop_last() =~= all.take(n - 1));
        if text::same(item.work_id.as_str(), work_id) {
            return Some(item.external_key.as_str());
        }
        n = n - 1;
    }
    None
}

/// The work items of a manifest that are well formed, and whether one is not or conflicts with
/// the project.
fn read_inventory(manifest: &Json, current: &[WorkItem]) -> (r: (Vec<WorkItem>, bool))
    ensures
        ({
            let items = manifest_inventory(manifest.model()).map_values(
                |j: JsonView| manifest_item(j),
            );
            &&& work_views(r.0@) == good_items(items)
            &&& r.1 == keys_conflict(items, work_views(current@))
        }),
{
    let found = match manifest.get2("work_inventory", "items") {
        Some(v) => Some(v),
        None => manifest.get2("rebuildable", "work_inventory"),
    };
    let ghost docs = manifest_inventory(manifest.model());
    let ghost all = docs.map_values(|j: JsonView| manifest_item(j));
    let ghost now = work_views(current@);
    let mut out: Vec<WorkItem> = Vec::new();
    let mut conflict = false;
    proof {
        reveal(Seq::filter);
        assert(work_views(out@) =~= good_items(all.take(0)));
    }
    match items_list(found) {
        Some(items) => {
            let mut i: usize = 0;
            while i < items.len()
                invariant
                    i <= items.len(),
                    docs == json::models(items@),
                    all == docs.map_values(|j: JsonView| manifest_item(j)),
                    now == work_views(current@),
                    work_views(out@) == good_items(all.take(i as int)),
                    conflict == keys_conflict(all.take(i as int), now),
                decreases items.len() - i,
            {
                let item = &items[i];
                assert(docs[i as int] == item.model());
                let work = item.text_or_empty("work_id");
                let key = item.text_or_empty("external_key");
                let ghost entry = all[i as int];
                assert(entry.work_id == work@ && entry.external_key == key@);
                let ghost before = all.take(i as int);
                let ghost after = all.take(i + 1);
                let good = text::identity(work) && text::identity(key);
                let differs = match find_key(current, work) {
                    Some(existing) => !text::same(existing, key),
                    None => false,
                };
                proof {
                    assert(after =~= before.push(entry));
                    one_more_item(before, entry, now);
                    reveal(Seq::filter);
                    assert(after.drop_last() =~= before);
                }
                if good {
                    let ghost kept = work_views(out@);
                    out.push(WorkItem { work_id: work.to_owned(), external_key: key.to_owned() });
                    assert(work_views(out@) =~= kept.push(entry));
                }
                if !good || differs {
                    conflict = true;
                }
                i = i + 1;
            }
            assert(all.take(i as int) =~= all);
        },
        None => {
            assert(all.take(0) =~= all);
        },
    }
    (out, conflict)
}

proof fn one_more_item(before: Seq<WorkItemView>, entry: WorkItemView, current: Seq<WorkItemView>)
    ensures
        keys_conflict(before.push(entry), current) == (keys_conflict(before, current) || !item_ok(
            entry,
        ) || (key_of(current, entry.work_id) is Some && key_of(current, entry.work_id) != Some(
            entry.external_key,
        ))),
{
    let after = before.push(entry);
    let n = before.len() as int;
    assert(after[n] == entry);
    if keys_conflict(before, current) {
        let i = choose|i: int|
            0 <= i < before.len() && (!item_ok(#[trigger] before[i]) || (key_of(
                current,
                before[i].work_id,
            ) is Some && key_of(current, before[i].work_id) != Some(before[i].external_key)));
        assert(after[i] == before[i]);
    }
    if keys_conflict(after, current) {
        let i = choose|i: int|
            0 <= i < after.len() && (!item_ok(#[trigger] after[i]) || (key_of(
                current,
                after[i].work_id,
            ) is Some && key_of(current, after[i].work_id) != Some(after[i].external_key)));
        if i < n {
            assert(before[i] == after[i]);
        }
    }
}

/// The items that ownership rows need and the project lacks, and whether every row's work is
/// in the project or in the inventory.
fn select_items(rows: &[OwnershipRow], current: &[WorkItem], inventory: &[WorkItem]) -> (r: (
    Vec<WorkItem>,
    bool,
))
    ensures
        work_views(r.0@) == items_needed(
            ownership_views(rows@),
            work_views(current@),
            work_views(inventory@),
        ),
        r.1 == works_covered(
            ownership_views(rows@),
            work_views(current@),
            work_views(inventory@),
        ),
{
    let ghost all = ownership_views(rows@);
    let ghost now = work_views(current@);
    let ghost inv = work_views(inventory@);
    let mut out: Vec<WorkItem> = Vec::new();
    let mut covered = true;
    let mut i: usize = 0;
    assert(work_views(out@) =~= items_needed(all.take(0), now, inv));
    while i < rows.len()
        invariant
            i <= rows.len(),
            all == ownership_views(rows@),
            now == work_views(current@),
            inv == work_views(inventory@),
            work_views(out@) == items_needed(all.take(i as int), now, inv),
            covered == works_covered(all.take(i as int), now, inv),
        decreases rows.len() - i,
    {
        let work = rows[i].work_id.as_str();
        let ghost before = all.take(i as int);
        let ghost after = all.take(i + 1);
        let here = find_key(current, work);
        let there = find_key(inventory, work);
        proof {
            assert(all[i as int].work_id == work@);
            assert(after.drop_last() =~= before);
            assert(after.last() == all[i as int]);
            assert(works_covered(after, now, inv) == (works_covered(before, now, inv) && (key_of(
                now,
                work@,
            ) is Some || key_of(inv, work@) is Some))) by {
                if works_covered(after, now, inv) {
                    assert forall|j: int| 0 <= j < before.len() implies key_of(
                        now,
                        (#[trigger] before[j]).work_id,
                    ) is Some || key_of(inv, before[j].work_id) is Some by {
                        assert(after[j] == before[j]);
                    }
                    assert(after[i as int] == all[i as int]);
                }
                if works_covered(before, now, inv) && (key_of(now, work@) is Some || key_of(
                    inv,
                    work@,
                ) is Some) {
                    assert forall|j: int| 0 <= j < after.len() implies key_of(
                        now,
                        (#[trigger] after[j]).work_id,
                    ) is Some || key_of(inv, after[j].work_id) is Some by {
                        if j < i {
                            assert(after[j] == before[j]);
                        }
                    }
                }
            }
        }
        if here.is_none() {
            match there {
                Some(key) => {
                    let ghost kept = work_views(out@);
                    out.push(WorkItem { work_id: work.to_owned(), external_key: key.to_owned() });
                    assert(work_views(out@) =~= kept.push(
                        WorkItemView { work_id: work@, external_key: key@ },
                    ));
                },
                None => {
                    covered = false;
                },
            }
        }
        i = i + 1;
    }
    assert(all.take(i as int) =~= all);
    (out, covered)
}

/// What a rebuild is decided from, besides the manifest.
pub struct RebuildState {
    /// The digest of the manifest's ownership rows.
    pub rows_digest: String,
    pub current: Projection,
    pub current_work: Vec<WorkItem>,
    pub current_work_digest: String,
    pub active_claims: bool,
    pub active_sessions: bool,
    pub live_executions: bool,
}

/// The digest that a manifest gives for its ownership; the empty text where it gives none.
pub open spec fn manifest_ownership_digest(manifest: JsonView) -> Seq<char> {
    match (match json::field2(manifest, "projection"@, "ownership_digest"@) {
        Some(v) => Some(v),
        None => json::field2(manifest, "rebuildable"@, "ownership_digest"@),
    }) {
        Some(JsonView::Str(s)) => s,
        _ => Seq::empty(),
    }
}

/// A manifest holds ownership rows, all of them well formed.
pub open spec fn ownership_readable(manifest: JsonView) -> bool {
    manifest_ownership_field(manifest) is Some && rows_ok(
        items_of(manifest_ownership_field(manifest)),
    )
}

/// The ownership rows that a rebuild is about.
pub open spec fn rebuild_rows(manifest: JsonView) -> Seq<OwnershipView> {
    if ownership_readable(manifest) {
        manifest_rows(manifest)
    } else {
        Seq::empty()
    }
}

/// The ownership digest that a rebuild leads to.
pub open spec fn target_digest(manifest: JsonView, state: RebuildState) -> Seq<char> {
    if ownership_readable(manifest) {
        state.rows_digest@
    } else {
        Seq::empty()
    }
}

/// The well-formed work items of a manifest.
pub open spec fn rebuild_inventory(manifest: JsonView) -> Seq<WorkItemView> {
    good_items(manifest_inventory(manifest).map_values(|j: JsonView| manifest_item(j)))
}

/// The items that a rebuild would put in.
pub open spec fn rebuild_items(manifest: JsonView, state: RebuildState) -> Seq<WorkItemView> {
    items_needed(
        rebuild_rows(manifest),
        work_views(state.current_work@),
        rebuild_inventory(manifest),
    )
}

/// What the manifest and the project show about a rebuild.
pub open spec fn rebuild_facts(
    manifest: JsonView,
    schema_version: i32,
    state: RebuildState,
) -> RebuildFacts {
    RebuildFacts {
        schema_ok: schema_version == EXPECTED_SCHEMA_VERSION && json::int_field(
            manifest,
            "schema_version"@,
        ) == Some(EXPECTED_SCHEMA_VERSION as int),
        manifest_ownership_valid: ownership_readable(manifest) && (manifest_ownership_digest(
            manifest,
        ).len() == 0 || manifest_ownership_digest(manifest) == state.rows_digest@),
        work_coverage_ok: works_covered(
            rebuild_rows(manifest),
            work_views(state.current_work@),
            rebuild_inventory(manifest),
        ),
        ownership_empty: state.current.ownership@.len() == 0,
        ownership_digest_matches: state.current.ownership_digest@ == target_digest(manifest, state),
        work_key_conflicts: keys_conflict(
            manifest_inventory(manifest).map_values(|j: JsonView| manifest_item(j)),
            work_views(state.current_work@),
        ),
        has_active_claims: state.active_claims,
        has_active_sessions: state.active_sessions,
        has_live_executions: state.live_executions,
        unattributed_history: state.current.unattributed_history,
    }
}

/// A rebuild that is planned.
pub struct RebuildPlan {
    pub decision: RebuildDecision,
    pub target_ownership_digest: String,
    pub ownership_to_insert: Vec<OwnershipRow>,
    pub work_items_to_insert: Vec<WorkItem>,
    /// What the state digest is of.
    pub state: Json,
    /// What the plan digest is of.
    pub body: Json,
}

/// What the state digest of a rebuild is of.
pub open spec fn rebuild_state_doc(
    tenant: Seq<char>,
    project: Seq<char>,
    backup_id: Seq<char>,
    manifest_hash: Seq<char>,
    target: Seq<char>,
    state: RebuildState,
) -> JsonView {
    JsonView::Obj(
        json::no_fields().push(("tenant_id"@, JsonView::Str(tenant))).push(
            ("project_id"@, JsonView::Str(project)),
        ).push(("backup_id"@, JsonView::Str(backup_id))).push(
            ("backup_manifest_hash"@, JsonView::Str(manifest_hash)),
        ).push(("target_ownership_digest"@, JsonView::Str(target))).push(
            ("current_ownership_digest"@, JsonView::Str(state.current.ownership_digest@)),
        ).push(
            ("current_work_inventory_digest"@, JsonView::Str(state.current_work_digest@)),
        ).push(("active_claims"@, JsonView::Bool(state.active_claims))).push(
            ("active_sessions"@, JsonView::Bool(state.active_sessions)),
        ).push(("live_executions"@, JsonView::Bool(state.live_executions))),
    )
}

/// A decision on a rebuild, as a document.
pub open spec fn rebuild_decision_doc(d: RebuildDecision) -> JsonView {
    JsonView::Obj(
        json::no_fields().push(("safe_to_apply"@, JsonView::Bool(d.safe_to_apply))).push(
            ("mode"@, JsonView::Str(d.mode@)),
        ).push(("refusals"@, json::text_items(operator_request::names(d.refusals@)))).push(
            ("insert_ownership"@, json::count_item(d.insert_ownership)),
        ).push(("insert_work_items"@, json::count_item(d.insert_work_items))),
    )
}

/// What a rebuild does.
pub open spec fn rebuild_actions() -> Seq<Seq<char>> {
    Seq::empty().push("insert_missing_work_items_id_external_key"@).push(
        "insert_ownership_rows_when_empty"@,
    )
}

/// What a rebuild never does.
pub open spec fn rebuild_never() -> Seq<Seq<char>> {
    Seq::empty().push("overwrite_divergent_ownership"@).push("rewrite_completion_receipts"@).push(
        "forge_credentials_or_grants"@,
    ).push("rewrite_catalogs_or_contracts"@).push("replay_outbox"@).push(
        "authorize_execution_or_resume"@,
    )
}

/// What the plan digest of a rebuild is of.
pub open spec fn rebuild_body_doc(backup_id: Seq<char>, d: RebuildDecision) -> JsonView {
    JsonView::Obj(
        json::no_fields().push(("protocol"@, JsonView::Str(PROTOCOL@))).push(
            ("op"@, JsonView::Str("rebuild.preview"@)),
        ).push(("backup_id"@, JsonView::Str(backup_id))).push(
            ("decision"@, rebuild_decision_doc(d)),
        ).push(("actions_if_applied"@, json::text_items(rebuild_actions()))).push(
            ("actions_never"@, json::text_items(rebuild_never())),
        ).push(("limits"@, limits_doc())),
    )
}

fn rebuild_actions_list() -> (r: Json)
    ensures
        r.model() == json::text_items(rebuild_actions()),
{
    let mut list = operator_request::no_names();
    operator_request::add_name(&mut list, "insert_missing_work_items_id_external_key");
    operator_request::add_name(&mut list, "insert_ownership_rows_when_empty");
    operator_request::name_list(&list)
}

fn rebuild_never_list() -> (r: Json)
    ensures
        r.model() == json::text_items(rebuild_never()),
{
    let mut list = operator_request::no_names();
    operator_request::add_name(&mut list, "overwrite_divergent_ownership");
    operator_request::add_name(&mut list, "rewrite_completion_receipts");
    operator_request::add_name(&mut list, "forge_credentials_or_grants");
    operator_request::add_name(&mut list, "rewrite_catalogs_or_contracts");
    operator_request::add_name(&mut list, "replay_outbox");
    operator_request::add_name(&mut list, "authorize_execution_or_resume");
    operator_request::name_list(&list)
}

fn rebuild_decision_document(d: &RebuildDecision) -> (r: Json)
    ensures
        r.model() == rebuild_decision_doc(*d),
{
    Doc::new().put("safe_to_apply", json::flag(d.safe_to_apply)).put(
        "mode",
        json::text(d.mode),
    ).put("refusals", operator_request::name_list(&d.refusals)).put(
        "insert_ownership",
        json::count(d.insert_ownership),
    ).put("insert_work_items", json::count(d.insert_work_items)).json()
}

/// The plan of a rebuild from a manifest.
pub open spec fn is_rebuild_plan(
    plan: RebuildPlan,
    tenant: Seq<char>,
    project: Seq<char>,
    backup_id: Seq<char>,
    manifest_hash: Seq<char>,
    schema_version: i32,
    manifest: JsonView,
    state: RebuildState,
) -> bool {
    let rows = rebuild_rows(manifest);
    let items = rebuild_items(manifest, state);
    &&& operator_request::names(plan.decision.refusals@) == rebuild_refusals(
        json::text_or_empty(manifest, "format"@),
        rebuild_facts(manifest, schema_version, state),
    )
    &&& plan.decision.safe_to_apply == (plan.decision.refusals@.len() == 0)
    &&& plan.decision.mode@ == (if !plan.decision.safe_to_apply {
        "refused"@
    } else if state.current.ownership_digest@ == target_digest(manifest, state) {
        "already_materialized"@
    } else {
        "ownership_materialize"@
    })
    &&& plan.target_ownership_digest@ == target_digest(manifest, state)
    &&& ownership_views(plan.ownership_to_insert@) == (if plan.decision.safe_to_apply
        && state.current.ownership_digest@ != target_digest(manifest, state) {
        rows
    } else {
        Seq::empty()
    })
    &&& work_views(plan.work_items_to_insert@) == (if plan.decision.safe_to_apply {
        items
    } else {
        Seq::empty()
    })
    &&& plan.decision.insert_ownership == plan.ownership_to_insert@.len()
    &&& plan.decision.insert_work_items == plan.work_items_to_insert@.len()
    &&& plan.state.model() == rebuild_state_doc(
        tenant,
        project,
        backup_id,
        manifest_hash,
        target_digest(manifest, state),
        state,
    )
    &&& plan.body.model() == rebuild_body_doc(backup_id, plan.decision)
}

/// Plans a rebuild from an open backup.
pub fn build_rebuild_plan(
    tenant: &str,
    project: &str,
    backup_id: &str,
    manifest_hash: &str,
    schema_version: i32,
    manifest: &Json,
    state: &RebuildState,
) -> (r: RebuildPlan)
    ensures
        is_rebuild_plan(
            r,
            tenant@,
            project@,
            backup_id@,
            manifest_hash@,
            schema_version,
            manifest.model(),
            *state,
        ),
{
    let present = ownership_field(manifest).is_some();
    let mut rows: Vec<OwnershipRow> = Vec::new();
    let mut readable = false;
    assert(ownership_views(rows@) =~= Seq::empty());
    match parse_manifest_ownership(manifest) {
        Ok(found) => {
            if present {
                rows = found;
                readable = true;
            }
        },
        Err(_) => {},
    }
    let ghost doc = manifest.model();
    proof {
        reveal_strlit("");
        assert(""@ =~= Seq::empty());
    }
    let target = if readable {
        state.rows_digest.as_str()
    } else {
        ""
    };
    let recorded = match (match manifest.get2("projection", "ownership_digest") {
        Some(v) => Some(v),
        None => manifest.get2("rebuildable", "ownership_digest"),
    }) {
        Some(v) => match v.as_str() {
            Some(s) => s,
            None => "",
        },
        None => "",
    };
    let valid = readable && (recorded.is_empty() || text::same(recorded, target));
    let (inventory, conflicts) = read_inventory(manifest, state.current_work.as_slice());
    let (items, covered) = select_items(
        rows.as_slice(),
        state.current_work.as_slice(),
        inventory.as_slice(),
    );
    let schema_ok = schema_version == EXPECTED_SCHEMA_VERSION && match manifest.get_i64(
        "schema_version",
    ) {
        Some(v) => v == EXPECTED_SCHEMA_VERSION as i64,
        None => false,
    };
    let matches = text::same(state.current.ownership_digest.as_str(), target);
    let decision = plan_rebuild(
        manifest.text_or_empty("format"),
        schema_ok,
        valid,
        covered,
        state.current.ownership.len() == 0,
        matches,
        conflicts,
        state.active_claims,
        state.active_sessions,
        state.live_executions,
        state.current.unattributed_history,
        rows.len(),
        items.len(),
    );
    let body = Doc::new().put("protocol", json::text(PROTOCOL)).put(
        "op",
        json::text("rebuild.preview"),
    ).put("backup_id", json::text(backup_id)).put(
        "decision",
        rebuild_decision_document(&decision),
    ).put("actions_if_applied", rebuild_actions_list()).put(
        "actions_never",
        rebuild_never_list(),
    ).put("limits", backup_limits_document()).json();
    let state_doc = Doc::new().put("tenant_id", json::text(tenant)).put(
        "project_id",
        json::text(project),
    ).put("backup_id", json::text(backup_id)).put(
        "backup_manifest_hash",
        json::text(manifest_hash),
    ).put("target_ownership_digest", json::text(target)).put(
        "current_ownership_digest",
        json::text(state.current.ownership_digest.as_str()),
    ).put(
        "current_work_inventory_digest",
        json::text(state.current_work_digest.as_str()),
    ).put("active_claims", json::flag(state.active_claims)).put(
        "active_sessions",
        json::flag(state.active_sessions),
    ).put("live_executions", json::flag(state.live_executions)).json();
    proof {
        assert(ownership_views(rows@).len() == rows@.len());
        assert(work_views(items@).len() == items@.len());
    }
    let safe = decision.safe_to_apply;
    let mut ownership_to_insert: Vec<OwnershipRow> = Vec::new();
    let mut work_items_to_insert: Vec<WorkItem> = Vec::new();
    assert(ownership_views(ownership_to_insert@) =~= Seq::empty());
    assert(work_views(work_items_to_insert@) =~= Seq::empty());
    if safe && !matches {
        ownership_to_insert = rows;
    }
    if safe {
        work_items_to_insert = items;
    }
    RebuildPlan {
        decision,
        target_ownership_digest: target.to_owned(),
        ownership_to_insert,
        work_items_to_insert,
        state: state_doc,
        body,
    }
}

/// A planned rebuild, as the operator sees it.
pub open spec fn rebuild_preview_doc(
    operator: Seq<char>,
    plan: RebuildPlan,
    state_digest: Seq<char>,
    plan_digest: Seq<char>,
) -> JsonView {
    JsonView::Obj(
        json::no_fields().push(("protocol"@, JsonView::Str(PROTOCOL@))).push(
            ("applied"@, JsonView::Bool(false)),
        ).push(("operator_role"@, JsonView::Str(operator))).push(
            ("state_digest"@, JsonView::Str(state_digest)),
        ).push(("plan_digest"@, JsonView::Str(plan_digest))).push(
            ("state"@, plan.state.model()),
        ).push(("decision"@, rebuild_decision_doc(plan.decision))).push(
            ("actions_if_applied"@, json::text_items(rebuild_actions())),
        ).push(("actions_never"@, json::text_items(rebuild_never()))).push(
            (
                "materialize"@,
                JsonView::Obj(
                    json::no_fields().push(
                        (
                            "target_ownership_digest"@,
                            JsonView::Str(plan.target_ownership_digest@),
                        ),
                    ).push(
                        (
                            "ownership_to_insert"@,
                            ownership_doc(ownership_views(plan.ownership_to_insert@)),
                        ),
                    ).push(
                        (
                            "work_items_to_insert"@,
                            work_items_doc(work_views(plan.work_items_to_insert@)),
                        ),
                    ),
                ),
            ),
        ).push(("limits"@, limits_doc())).push(
            (
                "next_action"@,
                JsonView::Str(
                    if plan.decision.safe_to_apply {
                        "Apply with exact state_digest and plan_digest after fencing quiet and inventory review."@
                    } else {
                        "Resolve refusals (fence first / empty ownership / work coverage); do not apply."@
                    },
                ),
            ),
        ),
    )
}

/// What is recorded of a rebuild.
pub open spec fn rebuild_report_doc(
    mode: Seq<char>,
    inserted_work: i64,
    inserted_ownership: i64,
    ownership_digest: Seq<char>,
) -> JsonView {
    JsonView::Obj(
        json::no_fields().push(("mode"@, JsonView::Str(mode))).push(
            ("inserted_work_items"@, JsonView::Int(inserted_work as int)),
        ).push(("inserted_ownership_rows"@, JsonView::Int(inserted_ownership as int))).push(
            ("ownership_digest"@, JsonView::Str(ownership_digest)),
        ).push(("completion_receipts_modified"@, JsonView::Bool(false))).push(
            ("grants_modified"@, JsonView::Bool(false)),
        ).push(("actors_forged"@, JsonView::Bool(false))).push(
            ("catalogs_rewritten"@, JsonView::Bool(false)),
        ).push(("contracts_rewritten"@, JsonView::Bool(false))),
    )
}

/// Who asks for what: the parts of a request that its receipt repeats.
pub struct ApplyRequest {
    pub tenant: String,
    pub project: String,
    pub backup_id: String,
    pub request: String,
    pub expected_state: String,
    pub expected_plan: String,
}

/// A request to apply a plan names its parts and gives two digests.
pub open spec fn request_ok(q: ApplyRequest) -> bool {
    &&& text::is_identity(q.tenant@)
    &&& text::is_identity(q.project@)
    &&& text::is_identity(q.backup_id@)
    &&& text::is_identity(q.request@)
    &&& text::is_hex(q.expected_state@)
    &&& text::is_hex(q.expected_plan@)
}

/// Whether a request to apply a plan is well formed.
pub fn admit_apply(q: &ApplyRequest) -> (r: PgResult<()>)
    ensures
        error::checked(r) == (if request_ok(*q) {
            Ok(())
        } else {
            Err(invalid_request())
        }),
{
    if !text::identity(q.tenant.as_str()) || !text::identity(q.project.as_str()) || !text::identity(
        q.backup_id.as_str(),
    ) || !text::identity(q.request.as_str()) || !text::hex(q.expected_state.as_str()) || !text::hex(
        q.expected_plan.as_str(),
    ) {
        return Err(invalid());
    }
    Ok(())
}

/// Whether the names of a question about backups are well formed.
pub fn admit_names(tenant: &str, project: &str, subject: Option<&str>) -> (r: PgResult<()>)
    ensures
        error::checked(r) == (if text::is_identity(tenant@) && text::is_identity(project@) && (
        subject is Some ==> text::is_identity(subject->Some_0@)) {
            Ok(())
        } else {
            Err(invalid_request())
        }),
{
    let subject_ok = match subject {
        Some(s) => text::identity(s),
        None => true,
    };
    if !text::identity(tenant) || !text::identity(project) || !subject_ok {
        return Err(invalid());
    }
    Ok(())
}

/// What the hash of a request is of: everything that makes two requests the same.
pub open spec fn intent_doc(q: ApplyRequest, op: Seq<char>) -> JsonView {
    JsonView::Obj(
        json::no_fields().push(("protocol"@, JsonView::Str(PROTOCOL@))).push(
            ("op"@, JsonView::Str(op)),
        ).push(("tenant_id"@, JsonView::Str(q.tenant@))).push(
            ("project_id"@, JsonView::Str(q.project@)),
        ).push(("backup_id"@, JsonView::Str(q.backup_id@))).push(
            ("expected_state"@, JsonView::Str(q.expected_state@)),
        ).push(("expected_plan"@, JsonView::Str(q.expected_plan@))),
    )
}

/// What the hash of a request is of.
pub fn intent_document(q: &ApplyRequest, op: &str) -> (r: Json)
    ensures
        r.model() == intent_doc(*q, op@),
{
    Doc::new().put("protocol", json::text(PROTOCOL)).put("op", json::text(op)).put(
        "tenant_id",
        json::text(q.tenant.as_str()),
    ).put("project_id", json::text(q.project.as_str())).put(
        "backup_id",
        json::text(q.backup_id.as_str()),
    ).put("expected_state", json::text(q.expected_state.as_str())).put(
        "expected_plan",
        json::text(q.expected_plan.as_str()),
    ).json()
}

/// The receipt of an applied plan.
pub open spec fn receipt_doc(
    q: ApplyRequest,
    op: Seq<char>,
    intent_hash: Seq<char>,
    operator: Seq<char>,
    restore_id: Option<Seq<char>>,
    revision: i64,
    report: JsonView,
) -> JsonView {
    let head = json::no_fields().push(("protocol"@, JsonView::Str(PROTOCOL@))).push(
        ("op"@, JsonView::Str(op)),
    ).push(("request_id"@, JsonView::Str(q.request@))).push(
        ("request_hash"@, JsonView::Str(intent_hash)),
    ).push(("operator_role"@, JsonView::Str(operator))).push(
        ("tenant_id"@, JsonView::Str(q.tenant@)),
    ).push(("project_id"@, JsonView::Str(q.project@))).push(
        ("backup_id"@, JsonView::Str(q.backup_id@)),
    );
    let middle = match restore_id {
        Some(id) => head.push(("restore_id"@, JsonView::Str(id))),
        None => head,
    };
    JsonView::Obj(
        middle.push(("state_digest"@, JsonView::Str(q.expected_state@))).push(
            ("plan_digest"@, JsonView::Str(q.expected_plan@)),
        ).push(("project_revision"@, JsonView::Str(text::decimal_form(revision as int)))).push(
            ("report"@, report),
        ).push(("completion_receipts_modified"@, JsonView::Bool(false))).push(
            ("identity_forged"@, JsonView::Bool(false)),
        ).push(("execution_authorized"@, JsonView::Bool(false))).push(
            ("automatic_resume"@, JsonView::Bool(false)),
        ),
    )
}

fn receipt_document(
    q: &ApplyRequest,
    op: &str,
    intent_hash: &str,
    operator: &str,
    restore_id: Option<&str>,
    revision: i64,
    report: Json,
) -> (r: Json)
    ensures
        r.model() == receipt_doc(
            *q,
            op@,
            intent_hash@,
            operator@,
            text::opt_str(restore_id),
            revision,
            report.model(),
        ),
{
    let head = Doc::new().put("protocol", json::text(PROTOCOL)).put("op", json::text(op)).put(
        "request_id",
        json::text(q.request.as_str()),
    ).put("request_hash", json::text(intent_hash)).put("operator_role", json::text(operator)).put(
        "tenant_id",
        json::text(q.tenant.as_str()),
    ).put("project_id", json::text(q.project.as_str())).put(
        "backup_id",
        json::text(q.backup_id.as_str()),
    );
    let middle = match restore_id {
        Some(id) => head.put("restore_id", json::text(id)),
        None => head,
    };
    middle.put("state_digest", json::text(q.expected_state.as_str())).put(
        "plan_digest",
        json::text(q.expected_plan.as_str()),
    ).put("project_revision", json::text(text::decimal(revision).as_str())).put(
        "report",
        report,
    ).put("completion_receipts_modified", json::flag(false)).put(
        "identity_forged",
        json::flag(false),
    ).put("execution_authorized", json::flag(false)).put(
        "automatic_resume",
        json::flag(false),
    ).json()
}

/// What is known of a restore, besides the manifest.
pub struct RestoreState {
    pub current: Projection,
    pub receipts_digest: String,
    pub logical_digest: String,
    pub artifacts_present: bool,
}

/// The workstreams of the project are those of the manifest.
pub open spec fn projection_matches(manifest: JsonView, current: Projection) -> bool {
    let recorded = json::at(manifest, "projection"@);
    &&& json::at(recorded, "catalog_digest"@) == json::opt_item(text::opt(current.catalog_digest))
    &&& json::at(recorded, "ownership_digest"@) == JsonView::Str(current.ownership_digest@)
}

/// The reasons against a restore from a manifest.
pub open spec fn manifest_restore_refusals(
    manifest: JsonView,
    schema_version: i32,
    state: RestoreState,
) -> Seq<Seq<char>> {
    restore_refusals(
        json::text_or_empty(manifest, "format"@),
        schema_version == EXPECTED_SCHEMA_VERSION && json::int_field(manifest, "schema_version"@)
            == Some(EXPECTED_SCHEMA_VERSION as int),
        projection_matches(manifest, state.current),
        json::at(json::at(manifest, "completion_receipts"@), "digest"@) == JsonView::Str(
            state.receipts_digest@,
        ),
        json::at(json::at(manifest, "logical"@), "digest"@) == JsonView::Str(
            state.logical_digest@,
        ),
        state.artifacts_present,
        state.current.unattributed_history,
        false,
    )
}

/// A restore that is planned.
pub struct RestorePlan {
    pub decision: RestoreDecision,
    /// What the state digest is of.
    pub state: Json,
    /// What the plan digest is of.
    pub body: Json,
}

/// What the state digest of a restore is of.
pub open spec fn restore_state_doc(
    tenant: Seq<char>,
    project: Seq<char>,
    backup_id: Seq<char>,
    manifest_hash: Seq<char>,
    state: RestoreState,
) -> JsonView {
    JsonView::Obj(
        json::no_fields().push(("tenant_id"@, JsonView::Str(tenant))).push(
            ("project_id"@, JsonView::Str(project)),
        ).push(("backup_id"@, JsonView::Str(backup_id))).push(
            ("backup_manifest_hash"@, JsonView::Str(manifest_hash)),
        ).push(
            (
                "current_projection"@,
                JsonView::Obj(
                    json::no_fields().push(
                        (
                            "catalog_digest"@,
                            json::opt_item(text::opt(state.current.catalog_digest)),
                        ),
                    ).push(
                        ("ownership_digest"@, JsonView::Str(state.current.ownership_digest@)),
                    ).push(
                        ("coordinator_epoch"@, JsonView::Str(state.current.coordinator_epoch@)),
                    ).push(
                        (
                            "project_revision"@,
                            JsonView::Str(
                                text::decimal_form(state.current.project_revision as int),
                            ),
                        ),
                    ),
                ),
            ),
        ).push(
            ("current_completion_receipts_digest"@, JsonView::Str(state.receipts_digest@)),
        ).push(("current_logical_digest"@, JsonView::Str(state.logical_digest@))),
    )
}

/// What a restore does.
pub open spec fn restore_actions() -> Seq<Seq<char>> {
    Seq::empty().push("rotate_coordinator_epoch"@).push("interrupt_active_sessions"@).push(
        "revoke_active_claims"@,
    ).push("mark_nonterminal_executions_unknown"@).push(
        "set_recovery_blocked_and_bump_fences"@,
    ).push("fail_pending_outbox"@)
}

/// What a restore never does.
pub open spec fn restore_never() -> Seq<Seq<char>> {
    Seq::empty().push("rewrite_completion_receipts"@).push("forge_credentials_or_grants"@).push(
        "replay_outbox"@,
    ).push("copy_table_rows_from_manifest"@).push("inspect_host_filesystem_as_acl"@)
}

/// A decision on a restore, as a document.
pub open spec fn restore_decision_doc(d: RestoreDecision) -> JsonView {
    JsonView::Obj(
        json::no_fields().push(("safe_to_apply"@, JsonView::Bool(d.safe_to_apply))).push(
            ("mode"@, JsonView::Str(d.mode@)),
        ).push(("refusals"@, json::text_items(operator_request::names(d.refusals@)))),
    )
}

/// What the plan digest of a restore is of.
pub open spec fn restore_body_doc(backup_id: Seq<char>, d: RestoreDecision) -> JsonView {
    JsonView::Obj(
        json::no_fields().push(("protocol"@, JsonView::Str(PROTOCOL@))).push(
            ("op"@, JsonView::Str("restore.preview"@)),
        ).push(("backup_id"@, JsonView::Str(backup_id))).push(
            ("decision"@, restore_decision_doc(d)),
        ).push(("actions_if_applied"@, json::text_items(restore_actions()))).push(
            ("actions_never"@, json::text_items(restore_never())),
        ).push(("limits"@, limits_doc())),
    )
}

fn restore_actions_list() -> (r: Json)
    ensures
        r.model() == json::text_items(restore_actions()),
{
    let mut list = operator_request::no_names();
    operator_request::add_name(&mut list, "rotate_coordinator_epoch");
    operator_request::add_name(&mut list, "interrupt_active_sessions");
    operator_request::add_name(&mut list, "revoke_active_claims");
    operator_request::add_name(&mut list, "mark_nonterminal_executions_unknown");
    operator_request::add_name(&mut list, "set_recovery_blocked_and_bump_fences");
    operator_request::add_name(&mut list, "fail_pending_outbox");
    operator_request::name_list(&list)
}

fn restore_never_list() -> (r: Json)
    ensures
        r.model() == json::text_items(restore_never()),
{
    let mut list = operator_request::no_names();
    operator_request::add_name(&mut list, "rewrite_completion_receipts");
    operator_request::add_name(&mut list, "forge_credentials_or_grants");
    operator_request::add_name(&mut list, "replay_outbox");
    operator_request::add_name(&mut list, "copy_table_rows_from_manifest");
    operator_request::add_name(&mut list, "inspect_host_filesystem_as_acl");
    operator_request::name_list(&list)
}

fn restore_decision_document(d: &RestoreDecision) -> (r: Json)
    ensures
        r.model() == restore_decision_doc(*d),
{
    Doc::new().put("safe_to_apply", json::flag(d.safe_to_apply)).put(
        "mode",
        json::text(d.mode),
    ).put("refusals", operator_request::name_list(&d.refusals)).json()
}

/// The value under `key` of the field `outer` is the given text, or null where none is given.
fn inner_is(doc: &Json, outer: &str, key: &str, wanted: Option<&str>) -> (r: bool)
    ensures
        r == (json::at(json::at(doc.model(), outer@), key@) == json::opt_item(
            text::opt_str(wanted),
        )),
{
    match doc.get(outer) {
        Some(v) => v.at_is(key, wanted),
        None => wanted.is_none(),
    }
}

/// The plan of a restore from a manifest.
pub open spec fn is_restore_plan(
    plan: RestorePlan,
    tenant: Seq<char>,
    project: Seq<char>,
    backup_id: Seq<char>,
    manifest_hash: Seq<char>,
    schema_version: i32,
    manifest: JsonView,
    state: RestoreState,
) -> bool {
    &&& operator_request::names(plan.decision.refusals@) == manifest_restore_refusals(
        manifest,
        schema_version,
        state,
    )
    &&& plan.decision.safe_to_apply == (plan.decision.refusals@.len() == 0)
    &&& plan.decision.mode@ == (if plan.decision.safe_to_apply {
        "verified_fencing"@
    } else {
        "refused"@
    })
    &&& plan.state.model() == restore_state_doc(
        tenant,
        project,
        backup_id,
        manifest_hash,
        state,
    )
    &&& plan.body.model() == restore_body_doc(backup_id, plan.decision)
}

/// Plans a restore from an open backup.
pub fn build_restore_plan(
    tenant: &str,
    project: &str,
    backup_id: &str,
    manifest_hash: &str,
    schema_version: i32,
    manifest: &Json,
    state: &RestoreState,
) -> (r: RestorePlan)
    ensures
        is_restore_plan(
            r,
            tenant@,
            project@,
            backup_id@,
            manifest_hash@,
            schema_version,
            manifest.model(),
            *state,
        ),
{
    let schema_ok = schema_version == EXPECTED_SCHEMA_VERSION && match manifest.get_i64(
        "schema_version",
    ) {
        Some(v) => v == EXPECTED_SCHEMA_VERSION as i64,
        None => false,
    };
    let workstreams_ok = inner_is(
        manifest,
        "projection",
        "catalog_digest",
        text::as_opt_str(&state.current.catalog_digest),
    ) && inner_is(
        manifest,
        "projection",
        "ownership_digest",
        Some(state.current.ownership_digest.as_str()),
    );
    let receipts_ok = inner_is(
        manifest,
        "completion_receipts",
        "digest",
        Some(state.receipts_digest.as_str()),
    );
    let logical_ok = inner_is(
        manifest,
        "logical",
        "digest",
        Some(state.logical_digest.as_str()),
    );
    let decision = plan_restore(
        manifest.text_or_empty("format"),
        schema_ok,
        workstreams_ok,
        receipts_ok,
        logical_ok,
        state.artifacts_present,
        state.current.unattributed_history,
        false,
    );
    let current = Doc::new().put(
        "catalog_digest",
        json::opt_text(text::as_opt_str(&state.current.catalog_digest)),
    ).put("ownership_digest", json::text(state.current.ownership_digest.as_str())).put(
        "coordinator_epoch",
        json::text(state.current.coordinator_epoch.as_str()),
    ).put(
        "project_revision",
        json::text(text::decimal(state.current.project_revision).as_str()),
    ).json();
    let state_doc = Doc::new().put("tenant_id", json::text(tenant)).put(
        "project_id",
        json::text(project),
    ).put("backup_id", json::text(backup_id)).put(
        "backup_manifest_hash",
        json::text(manifest_hash),
    ).put("current_projection", current).put(
        "current_completion_receipts_digest",
        json::text(state.receipts_digest.as_str()),
    ).put("current_logical_digest", json::text(state.logical_digest.as_str())).json();
    let body = Doc::new().put("protocol", json::text(PROTOCOL)).put(
        "op",
        json::text("restore.preview"),
    ).put("backup_id", json::text(backup_id)).put(
        "decision",
        restore_decision_document(&decision),
    ).put("actions_if_applied", restore_actions_list()).put(
        "actions_never",
        restore_never_list(),
    ).put("limits", backup_limits_document()).json();
    RestorePlan { decision, state: state_doc, body }
}

/// A planned restore, as the operator sees it.
pub open spec fn restore_preview_doc(
    operator: Seq<char>,
    plan: RestorePlan,
    state_digest: Seq<char>,
    plan_digest: Seq<char>,
) -> JsonView {
    JsonView::Obj(
        json::no_fields().push(("protocol"@, JsonView::Str(PROTOCOL@))).push(
            ("applied"@, JsonView::Bool(false)),
        ).push(("operator_role"@, JsonView::Str(operator))).push(
            ("state_digest"@, JsonView::Str(state_digest)),
        ).push(("plan_digest"@, JsonView::Str(plan_digest))).push(
            ("state"@, plan.state.model()),
        ).push(("decision"@, restore_decision_doc(plan.decision))).push(
            ("actions_if_applied"@, json::text_items(restore_actions())),
        ).push(("actions_never"@, json::text_items(restore_never()))).push(
            ("limits"@, limits_doc()),
        ).push(
            (
                "next_action"@,
                JsonView::Str(
                    if plan.decision.safe_to_apply {
                        "Apply with exact state_digest and plan_digest after physical restore matches this inventory."@
                    } else {
                        "Resolve refusals (projection/receipts/inventory/history); do not apply."@
                    },
                ),
            ),
        ),
    )
}

/// The fence of one task after a restore.
#[derive(Clone, Debug)]
pub struct FenceRow {
    pub scope_id: String,
    pub work_id: String,
    pub last_fence: i64,
}

/// A barrier that effects from before a restore do not pass.
pub open spec fn barrier_doc(
    epoch: Seq<char>,
    scope_id: Seq<char>,
    work_id: Seq<char>,
    fence: Seq<char>,
) -> JsonView {
    JsonView::Obj(
        json::no_fields().push(("coordinator_epoch"@, JsonView::Str(epoch))).push(
            ("scope_id"@, JsonView::Str(scope_id)),
        ).push(("work_id"@, JsonView::Str(work_id))).push(("fence"@, JsonView::Str(fence))),
    )
}

/// The barriers of a restore: one for each task, and one for the project where it has no task.
pub open spec fn barriers(epoch: Seq<char>, fences: Seq<FenceRow>) -> Seq<JsonView> {
    if fences.len() == 0 {
        Seq::empty().push(barrier_doc(epoch, ""@, ""@, "0"@))
    } else {
        fences.map_values(
            |f: FenceRow|
                barrier_doc(
                    epoch,
                    f.scope_id@,
                    f.work_id@,
                    text::decimal_form(f.last_fence as int),
                ),
        )
    }
}

/// What is recorded of a restore.
pub open spec fn restore_report_doc(
    old_epoch: Seq<char>,
    new_epoch: Seq<char>,
    fences: Seq<FenceRow>,
) -> JsonView {
    JsonView::Obj(
        json::no_fields().push(("old_epoch"@, JsonView::Str(old_epoch))).push(
            ("new_epoch"@, JsonView::Str(new_epoch)),
        ).push(("inventory_verified"@, JsonView::Bool(true))).push(
            ("execution_recovery_required"@, JsonView::Bool(true)),
        ).push(("completion_receipts_modified"@, JsonView::Bool(false))).push(
            ("credentials_revoked"@, JsonView::Bool(false)),
        ).push(("outbox_replayed"@, JsonView::Bool(false))).push(
            ("fencing_barriers"@, JsonView::Arr(barriers(new_epoch, fences))),
        ).push(("mode"@, JsonView::Str("verified_fencing"@))),
    )
}

fn barrier(epoch: &str, scope_id: &str, work_id: &str, fence: &str) -> (r: Json)
    ensures
        r.model() == barrier_doc(epoch@, scope_id@, work_id@, fence@),
{
    Doc::new().put("coordinator_epoch", json::text(epoch)).put(
        "scope_id",
        json::text(scope_id),
    ).put("work_id", json::text(work_id)).put("fence", json::text(fence)).json()
}

fn barrier_list(epoch: &str, fences: &[FenceRow]) -> (r: Json)
    ensures
        r.model() == JsonView::Arr(barriers(epoch@, fences@)),
{
    let mut out: Vec<Json> = Vec::new();
    if fences.len() == 0 {
        out.push(barrier(epoch, "", "", "0"));
        assert(json::models(out@) =~= barriers(epoch@, fences@));
        return json::list(out);
    }
    let mut i: usize = 0;
    while i < fences.len()
        invariant
            i <= fences.len(),
            out.len() == i,
            forall|j: int|
                0 <= j < i ==> #[trigger] out@[j].model() == barrier_doc(
                    epoch@,
                    fences@[j].scope_id@,
                    fences@[j].work_id@,
                    text::decimal_form(fences@[j].last_fence as int),
                ),
        decreases fences.len() - i,
    {
        let f = &fences[i];
        let fence = text::decimal(f.last_fence);
        out.push(barrier(epoch, f.scope_id.as_str(), f.work_id.as_str(), fence.as_str()));
        i = i + 1;
    }
    assert(json::models(out@) =~= barriers(epoch@, fences@));
    json::list(out)
}

/// What an applied plan leaves behind: the answer to the request, and what is stored.
pub struct Applied {
    pub report: Json,
    pub receipt: Json,
    pub event: Json,
}

/// What is stored of a backup, and the answer to the request for it.
pub struct BackupRecord {
    pub event: Json,
    pub answer: Json,
}

/// The manifest of a backup.
pub open spec fn manifest_doc(
    tenant: Seq<char>,
    project: Seq<char>,
    operator: Seq<char>,
    projection: Projection,
    logical: JsonView,
    work_items: Seq<WorkItem>,
    work_digest: Seq<char>,
    receipts: JsonView,
) -> JsonView {
    let works = work_items_doc(work_views(work_items));
    JsonView::Obj(
        json::no_fields().push(("format"@, JsonView::Str(BACKUP_FORMAT@))).push(
            ("protocol"@, JsonView::Str(PROTOCOL@)),
        ).push(("protocol_version"@, JsonView::Int(1))).push(
            ("schema_version"@, JsonView::Int(EXPECTED_SCHEMA_VERSION as int)),
        ).push(("tenant_id"@, JsonView::Str(tenant))).push(
            ("project_id"@, JsonView::Str(project)),
        ).push(("epoch"@, JsonView::Str(projection.coordinator_epoch@))).push(
            ("workstreams_enabled"@, JsonView::Bool(true)),
        ).push(("projection"@, projection_doc(projection))).push(("logical"@, logical)).push(
            ("work_inventory"@, inventory_doc(works, work_digest)),
        ).push(
            (
                "rebuildable"@,
                JsonView::Obj(
                    json::no_fields().push(
                        (
                            "subset"@,
                            JsonView::Str("work_inventory_and_ownership_when_empty_v1"@),
                        ),
                    ).push(
                        ("ownership"@, ownership_doc(ownership_views(projection.ownership@))),
                    ).push(
                        ("ownership_digest"@, JsonView::Str(projection.ownership_digest@)),
                    ).push(("work_inventory"@, works)).push(
                        ("work_inventory_digest"@, JsonView::Str(work_digest)),
                    ),
                ),
            ),
        ).push(("completion_receipts"@, receipts)).push(("limits"@, limits_doc())).push(
            ("operator_role"@, JsonView::Str(operator)),
        ),
    )
}

/// The answer to a request for a backup.
pub open spec fn backup_answer_doc(
    backup_id: Seq<char>,
    manifest_hash: Seq<char>,
    epoch: Seq<char>,
) -> JsonView {
    JsonView::Obj(
        json::no_fields().push(("protocol"@, JsonView::Str(PROTOCOL@))).push(
            ("backup_id"@, JsonView::Str(backup_id)),
        ).push(("manifest_hash"@, JsonView::Str(manifest_hash))).push(
            ("coordinator_epoch"@, JsonView::Str(epoch)),
        ).push(("schema_version"@, JsonView::Int(EXPECTED_SCHEMA_VERSION as int))).push(
            ("workstreams_enabled"@, JsonView::Bool(true)),
        ).push(("limits"@, limits_doc())).push(
            (
                "next_action"@,
                JsonView::Str(
                    "Retain an external physical basebackup bound to this manifest_hash before restore-preview."@,
                ),
            ),
        ),
    )
}

/// A project can be backed up where it is active and all its history is attributed.
pub open spec fn backup_admission(p: Projection) -> Result<(), Fault> {
    if p.project_status@ != "active"@ {
        Err(Fault::ProjectNotAvailable)
    } else if p.unattributed_history {
        Err(
            Fault::Unsupported(
                "unattributed history must be migrated before enabled-project backup"@,
            ),
        )
    } else {
        Ok(())
    }
}

/// The prefix of the epochs that restores begin.
pub open spec fn is_restored_epoch(epoch: Seq<char>) -> bool {
    exists|id: Seq<char>| #[trigger] tx::is_ulid(id) && epoch == "restored-"@ + id
}

/// The rules of backups, restores and rebuilds.
pub struct OperatorBackup;

impl OperatorBackup {
    /// Whether a project can be backed up.
    pub fn admit_backup(projection: &Projection) -> (r: PgResult<()>)
        ensures
            error::checked(r) == backup_admission(*projection),
    {
        if !text::same(projection.project_status.as_str(), "active") {
            return Err(PgError::ProjectNotAvailable);
        }
        if projection.unattributed_history {
            return Err(
                unsupported("unattributed history must be migrated before enabled-project backup"),
            );
        }
        Ok(())
    }

    /// The manifest of a backup. Its digest is what the backup is known by.
    pub fn backup(
        tenant: &str,
        project: &str,
        operator: &str,
        projection: &Projection,
        logical: Json,
        work_items: &[WorkItem],
        work_digest: &str,
        receipts: Json,
    ) -> (r: Json)
        ensures
            r.model() == manifest_doc(
                tenant@,
                project@,
                operator@,
                *projection,
                logical.model(),
                work_items@,
                work_digest@,
                receipts.model(),
            ),
    {
        let rebuildable = Doc::new().put(
            "subset",
            json::text("work_inventory_and_ownership_when_empty_v1"),
        ).put("ownership", ownership_document(projection.ownership.as_slice())).put(
            "ownership_digest",
            json::text(projection.ownership_digest.as_str()),
        ).put("work_inventory", work_items_document(work_items)).put(
            "work_inventory_digest",
            json::text(work_digest),
        ).json();
        Doc::new().put("format", json::text(BACKUP_FORMAT)).put(
            "protocol",
            json::text(PROTOCOL),
        ).put("protocol_version", json::number(1)).put("schema_version", json::number(6)).put(
            "tenant_id",
            json::text(tenant),
        ).put("project_id", json::text(project)).put(
            "epoch",
            json::text(projection.coordinator_epoch.as_str()),
        ).put("workstreams_enabled", json::flag(true)).put(
            "projection",
            projection_document(projection),
        ).put("logical", logical).put(
            "work_inventory",
            inventory_document(work_items_document(work_items), work_digest),
        ).put("rebuildable", rebuildable).put("completion_receipts", receipts).put(
            "limits",
            backup_limits_document(),
        ).put("operator_role", json::text(operator)).json()
    }

    /// The event and the answer of a backup that is stored.
    pub fn backup_stored(backup_id: &str, manifest_hash: &str, epoch: &str, operator: &str) -> (r:
        BackupRecord)
        ensures
            r.event.model() == JsonView::Obj(
                json::no_fields().push(("backup_id"@, JsonView::Str(backup_id@))).push(
                    ("manifest_hash"@, JsonView::Str(manifest_hash@)),
                ).push(("operator_role"@, JsonView::Str(operator@))),
            ),
            r.answer.model() == backup_answer_doc(backup_id@, manifest_hash@, epoch@),
    {
        let event = Doc::new().put("backup_id", json::text(backup_id)).put(
            "manifest_hash",
            json::text(manifest_hash),
        ).put("operator_role", json::text(operator)).json();
        let answer = Doc::new().put("protocol", json::text(PROTOCOL)).put(
            "backup_id",
            json::text(backup_id),
        ).put("manifest_hash", json::text(manifest_hash)).put(
            "coordinator_epoch",
            json::text(epoch),
        ).put("schema_version", json::number(6)).put("workstreams_enabled", json::flag(true)).put(
            "limits",
            backup_limits_document(),
        ).put(
            "next_action",
            json::text(
                "Retain an external physical basebackup bound to this manifest_hash before restore-preview.",
            ),
        ).json();
        BackupRecord { event, answer }
    }

    /// A stored backup, as the operator sees it.
    pub fn inspect(backup_id: &str, row: Option<(BackupRow, String)>) -> (r: PgResult<Json>)
        ensures
            match r {
                Ok(doc) => row is Some && doc.model() == JsonView::Obj(
                    json::no_fields().push(("protocol"@, JsonView::Str(PROTOCOL@))).push(
                        ("backup_id"@, JsonView::Str(backup_id@)),
                    ).push(
                        ("manifest_hash"@, JsonView::Str(row->Some_0.0.manifest_hash@)),
                    ).push(
                        (
                            "schema_version"@,
                            JsonView::Int(row->Some_0.0.schema_version as int),
                        ),
                    ).push(("coordinator_epoch"@, JsonView::Str(row->Some_0.1@))).push(
                        (
                            "manifest"@,
                            match row->Some_0.0.manifest {
                                Some(m) => m.model(),
                                None => JsonView::Null,
                            },
                        ),
                    ).push(("read_only"@, JsonView::Bool(true))).push(("limits"@, limits_doc())),
                ),
                Err(e) => row is None && e@ == Fault::RestoreIncomplete,
            },
    {
        match row {
            None => Err(PgError::RestoreIncomplete),
            Some((b, epoch)) => {
                let manifest = match b.manifest {
                    Some(m) => m,
                    None => json::null(),
                };
                Ok(
                    Doc::new().put("protocol", json::text(PROTOCOL)).put(
                        "backup_id",
                        json::text(backup_id),
                    ).put("manifest_hash", json::text(b.manifest_hash.as_str())).put(
                        "schema_version",
                        json::number(b.schema_version as i64),
                    ).put("coordinator_epoch", json::text(epoch.as_str())).put(
                        "manifest",
                        manifest,
                    ).put("read_only", json::flag(true)).put(
                        "limits",
                        backup_limits_document(),
                    ).json(),
                )
            },
        }
    }

    /// A planned restore, as the operator sees it.
    pub fn restore_preview(
        operator: &str,
        plan: &RestorePlan,
        state_digest: &str,
        plan_digest: &str,
    ) -> (r: Json)
        ensures
            r.model() == restore_preview_doc(operator@, *plan, state_digest@, plan_digest@),
    {
        let next = if plan.decision.safe_to_apply {
            "Apply with exact state_digest and plan_digest after physical restore matches this inventory."
        } else {
            "Resolve refusals (projection/receipts/inventory/history); do not apply."
        };
        Doc::new().put("protocol", json::text(PROTOCOL)).put("applied", json::flag(false)).put(
            "operator_role",
            json::text(operator),
        ).put("state_digest", json::text(state_digest)).put(
            "plan_digest",
            json::text(plan_digest),
        ).put("state", plan.state.copy()).put(
            "decision",
            restore_decision_document(&plan.decision),
        ).put("actions_if_applied", restore_actions_list()).put(
            "actions_never",
            restore_never_list(),
        ).put("limits", backup_limits_document()).put("next_action", json::text(next)).json()
    }

    /// Whether a planned restore may be applied: the digests must be those that the operator
    /// has seen, and the plan safe.
    pub fn admit_restore(
        q: &ApplyRequest,
        plan: &RestorePlan,
        state_digest: &str,
        plan_digest: &str,
    ) -> (r: PgResult<()>)
        ensures
            error::checked(r) == (if state_digest@ != q.expected_state@ || plan_digest@
                != q.expected_plan@ {
                Err(Fault::PreconditionsChanged)
            } else if !plan.decision.safe_to_apply {
                Err(
                    Fault::Unsupported("restore plan refused; resolve refusals and preview again"@),
                )
            } else {
                Ok(())
            }),
    {
        operator_request::same_plan(
            state_digest,
            plan_digest,
            q.expected_state.as_str(),
            q.expected_plan.as_str(),
        )?;
        if !plan.decision.safe_to_apply {
            return Err(
                unsupported("restore plan refused; resolve refusals and preview again"),
            );
        }
        Ok(())
    }

    /// The epoch that a restore begins.
    pub fn restored_epoch() -> (r: String)
        ensures
            is_restored_epoch(r@),
    {
        let id = tx::new_id();
        let mut epoch = "restored-".to_owned();
        epoch.append(id.as_str());
        assert(tx::is_ulid(id@));
        epoch
    }

    /// What a restore leaves behind, once the project is fenced off.
    pub fn restore_apply(
        q: &ApplyRequest,
        intent_hash: &str,
        operator: &str,
        restore_id: &str,
        old_epoch: &str,
        new_epoch: &str,
        fences: &[FenceRow],
        revision: i64,
    ) -> (r: Applied)
        ensures
            r.report.model() == restore_report_doc(old_epoch@, new_epoch@, fences@),
            r.receipt.model() == receipt_doc(
                *q,
                "restore.apply"@,
                intent_hash@,
                operator@,
                Some(restore_id@),
                revision,
                r.report.model(),
            ),
            r.event.model() == JsonView::Obj(
                json::no_fields().push(("operator_role"@, JsonView::Str(operator@))).push(
                    ("request_id"@, JsonView::Str(q.request@)),
                ).push(("backup_id"@, JsonView::Str(q.backup_id@))).push(
                    ("restore_id"@, JsonView::Str(restore_id@)),
                ).push(("new_epoch"@, JsonView::Str(new_epoch@))),
            ),
    {
        let report = Doc::new().put("old_epoch", json::text(old_epoch)).put(
            "new_epoch",
            json::text(new_epoch),
        ).put("inventory_verified", json::flag(true)).put(
            "execution_recovery_required",
            json::flag(true),
        ).put("completion_receipts_modified", json::flag(false)).put(
            "credentials_revoked",
            json::flag(false),
        ).put("outbox_replayed", json::flag(false)).put(
            "fencing_barriers",
            barrier_list(new_epoch, fences),
        ).put("mode", json::text("verified_fencing")).json();
        let receipt = receipt_document(
            q,
            "restore.apply",
            intent_hash,
            operator,
            Some(restore_id),
            revision,
            report.copy(),
        );
        let event = Doc::new().put("operator_role", json::text(operator)).put(
            "request_id",
            json::text(q.request.as_str()),
        ).put("backup_id", json::text(q.backup_id.as_str())).put(
            "restore_id",
            json::text(restore_id),
        ).put("new_epoch", json::text(new_epoch)).json();
        Applied { report, receipt, event }
    }

    /// What became of a request.
    pub fn restore_outcome(receipt: Option<Json>) -> (r: Json)
        ensures
            r.model() == operator_request::outcome_doc(
                match receipt {
                    Some(d) => Some(d.model()),
                    None => None,
                },
            ),
    {
        operator_request::outcome(receipt)
    }

    /// A planned rebuild, as the operator sees it.
    pub fn rebuild_preview(
        operator: &str,
        plan: &RebuildPlan,
        state_digest: &str,
        plan_digest: &str,
    ) -> (r: Json)
        ensures
            r.model() == rebuild_preview_doc(operator@, *plan, state_digest@, plan_digest@),
    {
        let next = if plan.decision.safe_to_apply {
            "Apply with exact state_digest and plan_digest after fencing quiet and inventory review."
        } else {
            "Resolve refusals (fence first / empty ownership / work coverage); do not apply."
        };
        let materialize = Doc::new().put(
            "target_ownership_digest",
            json::text(plan.target_ownership_digest.as_str()),
        ).put(
            "ownership_to_insert",
            ownership_document(plan.ownership_to_insert.as_slice()),
        ).put(
            "work_items_to_insert",
            work_items_document(plan.work_items_to_insert.as_slice()),
        ).json();
        Doc::new().put("protocol", json::text(PROTOCOL)).put("applied", json::flag(false)).put(
            "operator_role",
            json::text(operator),
        ).put("state_digest", json::text(state_digest)).put(
            "plan_digest",
            json::text(plan_digest),
        ).put("state", plan.state.copy()).put(
            "decision",
            rebuild_decision_document(&plan.decision),
        ).put("actions_if_applied", rebuild_actions_list()).put(
            "actions_never",
            rebuild_never_list(),
        ).put("materialize", materialize).put("limits", backup_limits_document()).put(
            "next_action",
            json::text(next),
        ).json()
    }

    /// Whether a planned rebuild may be applied.
    pub fn admit_rebuild(
        q: &ApplyRequest,
        plan: &RebuildPlan,
        state_digest: &str,
        plan_digest: &str,
    ) -> (r: PgResult<()>)
        ensures
            error::checked(r) == (if state_digest@ != q.expected_state@ || plan_digest@
                != q.expected_plan@ {
                Err(Fault::PreconditionsChanged)
            } else if !plan.decision.safe_to_apply {
                Err(
                    Fault::Unsupported("rebuild plan refused; resolve refusals and preview again"@),
                )
            } else {
                Ok(())
            }),
    {
        operator_request::same_plan(
            state_digest,
            plan_digest,
            q.expected_state.as_str(),
            q.expected_plan.as_str(),
        )?;
        if !plan.decision.safe_to_apply {
            return Err(
                unsupported("rebuild plan refused; resolve refusals and preview again"),
            );
        }
        Ok(())
    }

    /// Whether a work item may be put in: its names must be identities.
    pub fn work_item_insert(item: &WorkItem) -> (r: PgResult<()>)
        ensures
            error::checked(r) == (if item_ok(item@) {
                Ok(())
            } else {
                Err(invalid_request())
            }),
    {
        if !text::identity(item.work_id.as_str()) || !text::identity(item.external_key.as_str()) {
            return Err(invalid());
        }
        Ok(())
    }

    /// The version under which an ownership row is put in; refused where the row is not well
    /// formed.
    pub fn ownership_insert(row: &OwnershipRow) -> (r: PgResult<i64>)
        ensures
            match r {
                Ok(v) => row_ok(row@) && text::parsed_int(row@.ownership_version) == Some(v as int),
                Err(e) => !row_ok(row@) && e@ == invalid_request(),
            },
    {
        match text::parse_int(row.ownership_version.as_str()) {
            Some(v) => {
                if v <= 0 || !text::identity(row.work_id.as_str()) || !text::identity(
                    row.workstream_id.as_str(),
                ) {
                    return Err(invalid());
                }
                Ok(v)
            },
            None => Err(invalid()),
        }
    }

    /// After a rebuild the ownership of the project must be that of the manifest.
    pub fn verify_rebuilt(current_ownership_digest: &str, plan: &RebuildPlan) -> (r: PgResult<()>)
        ensures
            error::checked(r) == (if current_ownership_digest@ == plan.target_ownership_digest@ {
                Ok(())
            } else {
                Err(Fault::PreconditionsChanged)
            }),
    {
        if !text::same(current_ownership_digest, plan.target_ownership_digest.as_str()) {
            return Err(PgError::PreconditionsChanged);
        }
        Ok(())
    }

    /// What a rebuild leaves behind.
    pub fn rebuild_apply(
        q: &ApplyRequest,
        intent_hash: &str,
        operator: &str,
        plan: &RebuildPlan,
        inserted_work: i64,
        inserted_ownership: i64,
        ownership_digest: &str,
        revision: i64,
    ) -> (r: Applied)
        ensures
            r.report.model() == rebuild_report_doc(
                plan.decision.mode@,
                inserted_work,
                inserted_ownership,
                ownership_digest@,
            ),
            r.receipt.model() == receipt_doc(
                *q,
                "rebuild.apply"@,
                intent_hash@,
                operator@,
                None,
                revision,
                r.report.model(),
            ),
            r.event.model() == JsonView::Obj(
                json::no_fields().push(("operator_role"@, JsonView::Str(operator@))).push(
                    ("request_id"@, JsonView::Str(q.request@)),
                ).push(("backup_id"@, JsonView::Str(q.backup_id@))).push(
                    ("mode"@, JsonView::Str(plan.decision.mode@)),
                ).push(
                    ("inserted_ownership_rows"@, JsonView::Int(inserted_ownership as int)),
                ).push(("inserted_work_items"@, JsonView::Int(inserted_work as int))),
            ),
    {
        let report = Doc::new().put("mode", json::text(plan.decision.mode)).put(
            "inserted_work_items",
            json::number(inserted_work),
        ).put("inserted_ownership_rows", json::number(inserted_ownership)).put(
            "ownership_digest",
            json::text(ownership_digest),
        ).put("completion_receipts_modified", json::flag(false)).put(
            "grants_modified",
            json::flag(false),
        ).put("actors_forged", json::flag(false)).put(
            "catalogs_rewritten",
            json::flag(false),
        ).put("contracts_rewritten", json::flag(false)).json();
        let receipt = receipt_document(
            q,
            "rebuild.apply",
            intent_hash,
            operator,
            None,
            revision,
            report.copy(),
        );
        let event = Doc::new().put("operator_role", json::text(operator)).put(
            "request_id",
            json::text(q.request.as_str()),
        ).put("backup_id", json::text(q.backup_id.as_str())).put(
            "mode",
            json::text(plan.decision.mode),
        ).put("inserted_ownership_rows", json::number(inserted_ownership)).put(
            "inserted_work_items",
            json::number(inserted_work),
        ).json();
        Applied { report, receipt, event }
    }

    /// What became of a request.
    pub fn rebuild_outcome(receipt: Option<Json>) -> (r: Json)
        ensures
            r.model() == operator_request::outcome_doc(
                match receipt {
                    Some(d) => Some(d.model()),
                    None => None,
                },
            ),
    {
        OperatorBackup::restore_outcome(receipt)
    }
}

/// The names of the fields of a manifest differ.
proof fn manifest_names()
    ensures
        "format"@.len() == 6,
        "protocol"@.len() == 8,
        "protocol_version"@.len() == 16,
        "schema_version"@.len() == 14,
        "tenant_id"@.len() == 9,
        "project_id"@.len() == 10,
        "project_id"@[7] == '_',
        "epoch"@.len() == 5,
        "workstreams_enabled"@.len() == 19,
        "projection"@.len() == 10,
        "projection"@[7] == 'i',
        "logical"@.len() == 7,
        "work_inventory"@.len() == 14,
        "work_inventory"@[0] == 'w',
        "schema_version"@[0] == 's',
        "rebuildable"@.len() == 11,
        "completion_receipts"@.len() == 19,
        "completion_receipts"@[0] == 'c',
        "workstreams_enabled"@[0] == 'w',
        "project_status"@.len() == 14,
        "coordinator_epoch"@.len() == 17,
        "project_revision"@.len() == 16,
        "source_snapshot_id"@.len() == 18,
        "catalog_digest"@.len() == 14,
        "catalog_digest"@[0] == 'c',
        "project_status"@[0] == 'p',
        "ownership"@.len() == 9,
        "ownership_digest"@.len() == 16,
        "ownership_digest"@[0] == 'o',
        "project_revision"@[0] == 'p',
        "items"@.len() == 5,
        "digest"@.len() == 6,
        "sources"@.len() == 7,
        "artifacts"@.len() == 9,
        "source_digests"@.len() == 14,
        "artifact_digests"@.len() == 16,
        "artifacts_present"@.len() == 17,
        "work_id"@.len() == 7,
        "workstream_id"@.len() == 13,
        "ownership_version"@.len() == 17,
        "external_key"@.len() == 12,
{
    reveal_strlit("format");
    reveal_strlit("protocol");
    reveal_strlit("protocol_version");
    reveal_strlit("schema_version");
    reveal_strlit("tenant_id");
    reveal_strlit("project_id");
    reveal_strlit("epoch");
    reveal_strlit("workstreams_enabled");
    reveal_strlit("projection");
    reveal_strlit("logical");
    reveal_strlit("work_inventory");
    reveal_strlit("rebuildable");
    reveal_strlit("completion_receipts");
    reveal_strlit("project_status");
    reveal_strlit("coordinator_epoch");
    reveal_strlit("project_revision");
    reveal_strlit("source_snapshot_id");
    reveal_strlit("catalog_digest");
    reveal_strlit("ownership");
    reveal_strlit("ownership_digest");
    reveal_strlit("items");
    reveal_strlit("digest");
    reveal_strlit("sources");
    reveal_strlit("artifacts");
    reveal_strlit("source_digests");
    reveal_strlit("artifact_digests");
    reveal_strlit("artifacts_present");
    reveal_strlit("work_id");
    reveal_strlit("workstream_id");
    reveal_strlit("ownership_version");
    reveal_strlit("external_key");
}

/// What a manifest gives back of what was put in it.
pub proof fn manifest_gives_back(
    tenant: Seq<char>,
    project: Seq<char>,
    operator: Seq<char>,
    projection: Projection,
    logical: JsonView,
    work_items: Seq<WorkItem>,
    work_digest: Seq<char>,
    receipts: JsonView,
)
    ensures
        ({
            let m = manifest_doc(
                tenant,
                project,
                operator,
                projection,
                logical,
                work_items,
                work_digest,
                receipts,
            );
            &&& json::text_or_empty(m, "format"@) == BACKUP_FORMAT@
            &&& json::int_field(m, "schema_version"@) == Some(EXPECTED_SCHEMA_VERSION as int)
            &&& json::field(m, "projection"@) == Some(projection_doc(projection))
            &&& json::field(m, "logical"@) == Some(logical)
            &&& json::field(m, "work_inventory"@) == Some(
                inventory_doc(work_items_doc(work_views(work_items)), work_digest),
            )
            &&& json::field(m, "completion_receipts"@) == Some(receipts)
        }),
{
    manifest_names();
    let m = manifest_doc(
        tenant,
        project,
        operator,
        projection,
        logical,
        work_items,
        work_digest,
        receipts,
    );
    let f = m->Obj_0;
    assert(f[0].0 == "format"@);
    assert(f[1].0 == "protocol"@);
    assert(f[2].0 == "protocol_version"@);
    assert(f[3].0 == "schema_version"@);
    assert(f[4].0 == "tenant_id"@);
    assert(f[5].0 == "project_id"@);
    assert(f[6].0 == "epoch"@);
    assert(f[7].0 == "workstreams_enabled"@);
    assert(f[8] == ("projection"@, projection_doc(projection)));
    assert(f[9] == ("logical"@, logical));
    assert(f[10] == (
        "work_inventory"@,
        inventory_doc(work_items_doc(work_views(work_items)), work_digest),
    ));
    assert(f[11].0 == "rebuildable"@);
    assert(f[12] == ("completion_receipts"@, receipts));
    json::field_is_first(f, "format"@, 0);
    json::field_is_first(f, "schema_version"@, 3);
    json::field_is_first(f, "projection"@, 8);
    json::field_is_first(f, "logical"@, 9);
    json::field_is_first(f, "work_inventory"@, 10);
    json::field_is_first(f, "completion_receipts"@, 12);
}

/// A backup of a project that has not changed since can be restored: with the same projection,
/// the same digests and all artifacts there, nothing stands against it.
pub proof fn unchanged_projects_restore(
    tenant: Seq<char>,
    project: Seq<char>,
    operator: Seq<char>,
    sources: Seq<SourceRow>,
    artifacts: Seq<ArtifactRow>,
    work_items: Seq<WorkItem>,
    work_digest: Seq<char>,
    receipt_items: JsonView,
    state: RestoreState,
)
    requires
        state.artifacts_present,
        backup_admission(state.current) == Ok::<(), Fault>(()),
    ensures
        manifest_restore_refusals(
            manifest_doc(
                tenant,
                project,
                operator,
                state.current,
                logical_doc(sources, artifacts, state.logical_digest@),
                work_items,
                work_digest,
                inventory_doc(receipt_items, state.receipts_digest@),
            ),
            EXPECTED_SCHEMA_VERSION,
            state,
        ).len() == 0,
{
    let logical = logical_doc(sources, artifacts, state.logical_digest@);
    let receipts = inventory_doc(receipt_items, state.receipts_digest@);
    manifest_gives_back(
        tenant,
        project,
        operator,
        state.current,
        logical,
        work_items,
        work_digest,
        receipts,
    );
    manifest_names();
    let p = projection_doc(state.current)->Obj_0;
    assert(p[0].0 == "project_status"@);
    assert(p[1].0 == "coordinator_epoch"@);
    assert(p[2].0 == "project_revision"@);
    assert(p[3].0 == "source_snapshot_id"@);
    assert(p[4] == (
        "catalog_digest"@,
        json::opt_item(text::opt(state.current.catalog_digest)),
    ));
    assert(p[5].0 == "ownership"@);
    assert(p[6] == ("ownership_digest"@, JsonView::Str(state.current.ownership_digest@)));
    json::field_is_first(p, "catalog_digest"@, 4);
    json::field_is_first(p, "ownership_digest"@, 6);
    let l = logical->Obj_0;
    assert(l[0].0 == "sources"@);
    assert(l[1].0 == "artifacts"@);
    assert(l[2].0 == "source_digests"@);
    assert(l[3].0 == "artifact_digests"@);
    assert(l[4].0 == "artifacts_present"@);
    assert(l[5] == ("digest"@, JsonView::Str(state.logical_digest@)));
    json::field_is_first(l, "digest"@, 5);
    let c = receipts->Obj_0;
    assert(c[0].0 == "items"@);
    assert(c[1] == ("digest"@, JsonView::Str(state.receipts_digest@)));
    json::field_is_first(c, "digest"@, 1);
}

proof fn row_reads_back(row: OwnershipView)
    ensures
        manifest_row(ownership_row_doc(row)) == row,
{
    manifest_names();
    let f = ownership_row_doc(row)->Obj_0;
    assert(f[0] == ("work_id"@, JsonView::Str(row.work_id)));
    assert(f[1] == ("workstream_id"@, JsonView::Str(row.workstream_id)));
    assert(f[2] == ("ownership_version"@, JsonView::Str(row.ownership_version)));
    json::field_is_first(f, "work_id"@, 0);
    json::field_is_first(f, "workstream_id"@, 1);
    json::field_is_first(f, "ownership_version"@, 2);
}

/// The ownership rows that a backup wrote are the rows that a rebuild reads back, sorted by
/// work.
pub proof fn ownership_reads_back(
    tenant: Seq<char>,
    project: Seq<char>,
    operator: Seq<char>,
    projection: Projection,
    logical: JsonView,
    work_items: Seq<WorkItem>,
    work_digest: Seq<char>,
    receipts: JsonView,
)
    requires
        forall|i: int|
            0 <= i < projection.ownership@.len() ==> row_ok((#[trigger] projection.ownership@[i])@),
    ensures
        rebuild_rows(
            manifest_doc(
                tenant,
                project,
                operator,
                projection,
                logical,
                work_items,
                work_digest,
                receipts,
            ),
        ) == sorted_by_work(ownership_views(projection.ownership@)),
{
    manifest_gives_back(
        tenant,
        project,
        operator,
        projection,
        logical,
        work_items,
        work_digest,
        receipts,
    );
    manifest_names();
    let m = manifest_doc(
        tenant,
        project,
        operator,
        projection,
        logical,
        work_items,
        work_digest,
        receipts,
    );
    let rows = ownership_views(projection.ownership@);
    let p = projection_doc(projection)->Obj_0;
    assert(p[0].0 == "project_status"@);
    assert(p[1].0 == "coordinator_epoch"@);
    assert(p[2].0 == "project_revision"@);
    assert(p[3].0 == "source_snapshot_id"@);
    assert(p[4].0 == "catalog_digest"@);
    assert(p[5] == ("ownership"@, ownership_doc(rows)));
    json::field_is_first(p, "ownership"@, 5);
    let items = items_of(manifest_ownership_field(m));
    assert(items == ownership_doc(rows)->Arr_0);
    assert forall|i: int| 0 <= i < items.len() implies manifest_row(#[trigger] items[i]) == rows[i]
        && row_ok(rows[i]) by {
        row_reads_back(rows[i]);
        assert(row_ok(projection.ownership@[i]@));
    }
    assert(items.map_values(|j: JsonView| manifest_row(j)) =~= rows);
}

/// A work that a rebuild puts in is named by an ownership row, is not in the project, and
/// stands in the manifest's inventory under the same key.
pub proof fn rebuilt_items_are_missing(
    rows: Seq<OwnershipView>,
    current: Seq<WorkItemView>,
    inventory: Seq<WorkItemView>,
    i: int,
)
    requires
        0 <= i < items_needed(rows, current, inventory).len(),
    ensures
        ({
            let item = items_needed(rows, current, inventory)[i];
            &&& key_of(current, item.work_id) is None
            &&& key_of(inventory, item.work_id) == Some(item.external_key)
            &&& exists|k: int| 0 <= k < rows.len() && (#[trigger] rows[k]).work_id == item.work_id
        }),
    decreases rows.len(),
{
    if rows.len() > 0 {
        let before = items_needed(rows.drop_last(), current, inventory);
        let item = items_needed(rows, current, inventory)[i];
        if i < before.len() {
            rebuilt_items_are_missing(rows.drop_last(), current, inventory, i);
            assert(item == before[i]);
            let k = choose|k: int|
                0 <= k < rows.drop_last().len() && (#[trigger] rows.drop_last()[k]).work_id
                    == item.work_id;
            assert(rows[k].work_id == item.work_id);
        } else {
            assert(rows[rows.len() - 1].work_id == item.work_id);
        }
    }
}

/// With the items that a rebuild puts in, every ownership row of a covered manifest has its
/// work in the project.
pub proof fn rebuilt_ownership_is_covered(
    rows: Seq<OwnershipView>,
    current: Seq<WorkItemView>,
    inventory: Seq<WorkItemView>,
    k: int,
)
    requires
        works_covered(rows, current, inventory),
        0 <= k < rows.len(),
    ensures
        key_of(current, rows[k].work_id) is Some || exists|i: int|
            0 <= i < items_needed(rows, current, inventory).len() && (#[trigger] items_needed(
                rows,
                current,
                inventory,
            )[i]).work_id == rows[k].work_id,
    decreases rows.len(),
{
    let all = items_needed(rows, current, inventory);
    let before = items_needed(rows.drop_last(), current, inventory);
    if k < rows.len() - 1 {
        assert forall|i: int| 0 <= i < rows.drop_last().len() implies key_of(
            current,
            (#[trigger] rows.drop_last()[i]).work_id,
        ) is Some || key_of(inventory, rows.drop_last()[i].work_id) is Some by {
            assert(rows[i] == rows.drop_last()[i]);
        }
        rebuilt_ownership_is_covered(rows.drop_last(), current, inventory, k);
        if key_of(current, rows[k].work_id) is None {
            let i = choose|i: int|
                0 <= i < before.len() && (#[trigger] before[i]).work_id == rows[k].work_id;
            assert(all[i].work_id == rows[k].work_id);
        }
    } else {
        assert(rows[k] == rows.last());
        if key_of(current, rows[k].work_id) is None {
            assert(all[all.len() - 1].work_id == rows[k].work_id);
        }
    }
}

/// A reason is listed where it applies, after those that were listed before.
pub proof fn one_more_reason(
    list: Seq<Seq<char>>,
    condition: bool,
    reason: Seq<char>,
    x: Seq<char>,
)
    ensures
        condition ==> also(list, condition, reason).len() == list.len() + 1,
        !condition ==> also(list, condition, reason) == list,
        also(list, condition, reason).contains(x) <==> list.contains(x) || condition && x == reason,
{
    let all = also(list, condition, reason);
    if list.contains(x) {
        let k = choose|k: int| 0 <= k < list.len() && list[k] == x;
        assert(all[k] == x);
    }
    if condition && x == reason {
        assert(all[list.len() as int] == x);
    }
    if all.contains(x) && condition && x != reason {
        let k = choose|k: int| 0 <= k < all.len() && all[k] == x;
        assert(list[k] == x);
    }
}

proof fn restores_are_refused_for_a_reason_by_one(format: Seq<char>, schema_ok: bool, projection_matches: bool, receipts_match: bool, inventory_matches: bool, artifacts_there: bool, unattributed: bool, replay: bool, reason: Seq<char>)
    ensures
        restore_refusals(format, schema_ok, projection_matches, receipts_match, inventory_matches, artifacts_there, unattributed, replay).contains(reason) <==> (format != "awr-team-enabled-backup-v1"@) && reason == "unsupported_backup_format"@ || (!schema_ok) && reason == "schema_version_mismatch"@ || (!projection_matches) && reason == "workstream_projection_drift"@ || (!receipts_match) && reason == "completion_receipt_divergence_refuses_rewrite"@ || (unattributed) && reason == "unattributed_history_present"@ || (replay) && reason == "outbox_replay_forbidden"@ || (!artifacts_there) && reason == "physical_or_logical_artifacts_missing"@ || (!inventory_matches) && reason == "logical_inventory_mismatch"@,
        restore_refusals(format, schema_ok, projection_matches, receipts_match, inventory_matches, artifacts_there, unattributed, replay).len() == 0 <==> format == "awr-team-enabled-backup-v1"@ && schema_ok && projection_matches && receipts_match && inventory_matches && artifacts_there && !unattributed && !replay,
{
    let r0 = Seq::<Seq<char>>::empty();
    let r1 = also(r0, format != "awr-team-enabled-backup-v1"@, "unsupported_backup_format"@);
    one_more_reason(r0, format != "awr-team-enabled-backup-v1"@, "unsupported_backup_format"@, reason);
    let r2 = also(r1, !schema_ok, "schema_version_mismatch"@);
    one_more_reason(r1, !schema_ok, "schema_version_mismatch"@, reason);
    let r3 = also(r2, !projection_matches, "workstream_projection_drift"@);
    one_more_reason(r2, !projection_matches, "workstream_projection_drift"@, reason);
    let r4 = also(r3, !receipts_match, "completion_receipt_divergence_refuses_rewrite"@);
    one_more_reason(r3, !receipts_match, "completion_receipt_divergence_refuses_rewrite"@, reason);
    let r5 = also(r4, unattributed, "unattributed_history_present"@);
    one_more_reason(r4, unattributed, "unattributed_history_present"@, reason);
    let r6 = also(r5, replay, "outbox_replay_forbidden"@);
    one_more_reason(r5, replay, "outbox_replay_forbidden"@, reason);
    let r7 = also(r6, !artifacts_there, "physical_or_logical_artifacts_missing"@);
    one_more_reason(r6, !artifacts_there, "physical_or_logical_artifacts_missing"@, reason);
    let r8 = also(r7, !inventory_matches, "logical_inventory_mismatch"@);
    one_more_reason(r7, !inventory_matches, "logical_inventory_mismatch"@, reason);
    assert(r8 == restore_refusals(format, schema_ok, projection_matches, receipts_match, inventory_matches, artifacts_there, unattributed, replay));
}

/// A restore is refused for exactly the reasons that apply, and is safe where none does.
pub proof fn restores_are_refused_for_a_reason(format: Seq<char>, schema_ok: bool, projection_matches: bool, receipts_match: bool, inventory_matches: bool, artifacts_there: bool, unattributed: bool, replay: bool)
    ensures
        restore_refusals(format, schema_ok, projection_matches, receipts_match, inventory_matches, artifacts_there, unattributed, replay).contains("unsupported_backup_format"@) <==> format != "awr-team-enabled-backup-v1"@,
        restore_refusals(format, schema_ok, projection_matches, receipts_match, inventory_matches, artifacts_there, unattributed, replay).contains("schema_version_mismatch"@) <==> !schema_ok,
        restore_refusals(format, schema_ok, projection_matches, receipts_match, inventory_matches, artifacts_there, unattributed, replay).contains("workstream_projection_drift"@) <==> !projection_matches,
        restore_refusals(format, schema_ok, projection_matches, receipts_match, inventory_matches, artifacts_there, unattributed, replay).contains("completion_receipt_divergence_refuses_rewrite"@) <==> !receipts_match,
        restore_refusals(format, schema_ok, projection_matches, receipts_match, inventory_matches, artifacts_there, unattributed, replay).contains("unattributed_history_present"@) <==> unattributed,
        restore_refusals(format, schema_ok, projection_matches, receipts_match, inventory_matches, artifacts_there, unattributed, replay).contains("outbox_replay_forbidden"@) <==> replay,
        restore_refusals(format, schema_ok, projection_matches, receipts_match, inventory_matches, artifacts_there, unattributed, replay).contains("physical_or_logical_artifacts_missing"@) <==> !artifacts_there,
        restore_refusals(format, schema_ok, projection_matches, receipts_match, inventory_matches, artifacts_there, unattributed, replay).contains("logical_inventory_mismatch"@) <==> !inventory_matches,
        restore_refusals(format, schema_ok, projection_matches, receipts_match, inventory_matches, artifacts_there, unattributed, replay).len() == 0 <==> format == "awr-team-enabled-backup-v1"@ && schema_ok && projection_matches && receipts_match && inventory_matches && artifacts_there && !unattributed && !replay,
{
    reveal_strlit("unsupported_backup_format");
    reveal_strlit("schema_version_mismatch");
    reveal_strlit("workstream_projection_drift");
    reveal_strlit("completion_receipt_divergence_refuses_rewrite");
    reveal_strlit("unattributed_history_present");
    reveal_strlit("outbox_replay_forbidden");
    reveal_strlit("physical_or_logical_artifacts_missing");
    reveal_strlit("logical_inventory_mismatch");
    assert("unsupported_backup_format"@.len() == 25);
    assert("schema_version_mismatch"@.len() == 23);
    assert("workstream_projection_drift"@.len() == 27);
    assert("completion_receipt_divergence_refuses_rewrite"@.len() == 45);
    assert("unattributed_history_present"@.len() == 28);
    assert("outbox_replay_forbidden"@.len() == 23);
    assert("physical_or_logical_artifacts_missing"@.len() == 37);
    assert("logical_inventory_mismatch"@.len() == 26);
    assert("outbox_replay_forbidden"@[0] == 'o');
    assert("schema_version_mismatch"@[0] == 's');
    restores_are_refused_for_a_reason_by_one(format, schema_ok, projection_matches, receipts_match, inventory_matches, artifacts_there, unattributed, replay, "unsupported_backup_format"@);
    restores_are_refused_for_a_reason_by_one(format, schema_ok, projection_matches, receipts_match, inventory_matches, artifacts_there, unattributed, replay, "schema_version_mismatch"@);
    restores_are_refused_for_a_reason_by_one(format, schema_ok, projection_matches, receipts_match, inventory_matches, artifacts_there, unattributed, replay, "workstream_projection_drift"@);
    restores_are_refused_for_a_reason_by_one(format, schema_ok, projection_matches, receipts_match, inventory_matches, artifacts_there, unattributed, replay, "completion_receipt_divergence_refuses_rewrite"@);
    restores_are_refused_for_a_reason_by_one(format, schema_ok, projection_matches, receipts_match, inventory_matches, artifacts_there, unattributed, replay, "unattributed_history_present"@);
    restores_are_refused_for_a_reason_by_one(format, schema_ok, projection_matches, receipts_match, inventory_matches, artifacts_there, unattributed, replay, "outbox_replay_forbidden"@);
    restores_are_refused_for_a_reason_by_one(format, schema_ok, projection_matches, receipts_match, inventory_matches, artifacts_there, unattributed, replay, "physical_or_logical_artifacts_missing"@);
    restores_are_refused_for_a_reason_by_one(format, schema_ok, projection_matches, receipts_match, inventory_matches, artifacts_there, unattributed, replay, "logical_inventory_mismatch"@);
}

proof fn rebuilds_are_refused_for_a_reason_by_one(format: Seq<char>, facts: RebuildFacts, reason: Seq<char>)
    ensures
        rebuild_refusals(format, facts).contains(reason) <==> (format != "awr-team-enabled-backup-v1"@) && reason == "unsupported_backup_format"@ || (!facts.schema_ok) && reason == "schema_version_mismatch"@ || (!facts.manifest_ownership_valid) && reason == "invalid_manifest_ownership"@ || (!facts.work_coverage_ok) && reason == "work_items_missing_for_ownership"@ || (facts.work_key_conflicts) && reason == "work_item_external_key_conflict"@ || ((!facts.ownership_empty && !facts.ownership_digest_matches)) && reason == "dangerous_ownership_overwrite"@ || (facts.has_active_claims) && reason == "active_claims_present"@ || (facts.has_active_sessions) && reason == "active_sessions_present"@ || (facts.has_live_executions) && reason == "live_executions_present_fence_first"@ || (facts.unattributed_history) && reason == "unattributed_history_present"@,
        rebuild_refusals(format, facts).len() == 0 <==> format == "awr-team-enabled-backup-v1"@ && facts.schema_ok && facts.manifest_ownership_valid && facts.work_coverage_ok && !facts.work_key_conflicts && (facts.ownership_empty || facts.ownership_digest_matches) && !facts.has_active_claims && !facts.has_active_sessions && !facts.has_live_executions && !facts.unattributed_history,
{
    let r0 = Seq::<Seq<char>>::empty();
    let r1 = also(r0, format != "awr-team-enabled-backup-v1"@, "unsupported_backup_format"@);
    one_more_reason(r0, format != "awr-team-enabled-backup-v1"@, "unsupported_backup_format"@, reason);
    let r2 = also(r1, !facts.schema_ok, "schema_version_mismatch"@);
    one_more_reason(r1, !facts.schema_ok, "schema_version_mismatch"@, reason);
    let r3 = also(r2, !facts.manifest_ownership_valid, "invalid_manifest_ownership"@);
    one_more_reason(r2, !facts.manifest_ownership_valid, "invalid_manifest_ownership"@, reason);
    let r4 = also(r3, !facts.work_coverage_ok, "work_items_missing_for_ownership"@);
    one_more_reason(r3, !facts.work_coverage_ok, "work_items_missing_for_ownership"@, reason);
    let r5 = also(r4, facts.work_key_conflicts, "work_item_external_key_conflict"@);
    one_more_reason(r4, facts.work_key_conflicts, "work_item_external_key_conflict"@, reason);
    let r6 = also(r5, (!facts.ownership_empty && !facts.ownership_digest_matches), "dangerous_ownership_overwrite"@);
    one_more_reason(r5, (!facts.ownership_empty && !facts.ownership_digest_matches), "dangerous_ownership_overwrite"@, reason);
    let r7 = also(r6, facts.has_active_claims, "active_claims_present"@);
    one_more_reason(r6, facts.has_active_claims, "active_claims_present"@, reason);
    let r8 = also(r7, facts.has_active_sessions, "active_sessions_present"@);
    one_more_reason(r7, facts.has_active_sessions, "active_sessions_present"@, reason);
    let r9 = also(r8, facts.has_live_executions, "live_executions_present_fence_first"@);
    one_more_reason(r8, facts.has_live_executions, "live_executions_present_fence_first"@, reason);
    let r10 = also(r9, facts.unattributed_history, "unattributed_history_present"@);
    one_more_reason(r9, facts.unattributed_history, "unattributed_history_present"@, reason);
    assert(r10 == rebuild_refusals(format, facts));
}

/// A rebuild is refused for exactly the reasons that apply, and is safe where none does.
pub proof fn rebuilds_are_refused_for_a_reason(format: Seq<char>, facts: RebuildFacts)
    ensures
        rebuild_refusals(format, facts).contains("unsupported_backup_format"@) <==> format != "awr-team-enabled-backup-v1"@,
        rebuild_refusals(format, facts).contains("schema_version_mismatch"@) <==> !facts.schema_ok,
        rebuild_refusals(format, facts).contains("invalid_manifest_ownership"@) <==> !facts.manifest_ownership_valid,
        rebuild_refusals(format, facts).contains("work_items_missing_for_ownership"@) <==> !facts.work_coverage_ok,
        rebuild_refusals(format, facts).contains("work_item_external_key_conflict"@) <==> facts.work_key_conflicts,
        rebuild_refusals(format, facts).contains("dangerous_ownership_overwrite"@) <==> (!facts.ownership_empty && !facts.ownership_digest_matches),
        rebuild_refusals(format, facts).contains("active_claims_present"@) <==> facts.has_active_claims,
        rebuild_refusals(format, facts).contains("active_sessions_present"@) <==> facts.has_active_sessions,
        rebuild_refusals(format, facts).contains("live_executions_present_fence_first"@) <==> facts.has_live_executions,
        rebuild_refusals(format, facts).contains("unattributed_history_present"@) <==> facts.unattributed_history,
        rebuild_refusals(format, facts).len() == 0 <==> format == "awr-team-enabled-backup-v1"@ && facts.schema_ok && facts.manifest_ownership_valid && facts.work_coverage_ok && !facts.work_key_conflicts && (facts.ownership_empty || facts.ownership_digest_matches) && !facts.has_active_claims && !facts.has_active_sessions && !facts.has_live_executions && !facts.unattributed_history,
{
    reveal_strlit("unsupported_backup_format");
    reveal_strlit("schema_version_mismatch");
    reveal_strlit("invalid_manifest_ownership");
    reveal_strlit("work_items_missing_for_ownership");
    reveal_strlit("work_item_external_key_conflict");
    reveal_strlit("dangerous_ownership_overwrite");
    reveal_strlit("active_claims_present");
    reveal_strlit("active_sessions_present");
    reveal_strlit("live_executions_present_fence_first");
    reveal_strlit("unattributed_history_present");
    assert("unsupported_backup_format"@.len() == 25);
    assert("schema_version_mismatch"@.len() == 23);
    assert("invalid_manifest_ownership"@.len() == 26);
    assert("work_items_missing_for_ownership"@.len() == 32);
    assert("work_item_external_key_conflict"@.len() == 31);
    assert("dangerous_ownership_overwrite"@.len() == 29);
    assert("active_claims_present"@.len() == 21);
    assert("active_sessions_present"@.len() == 23);
    assert("live_executions_present_fence_first"@.len() == 35);
    assert("unattributed_history_present"@.len() == 28);
    assert("active_sessions_present"@[0] == 'a');
    assert("schema_version_mismatch"@[0] == 's');
    rebuilds_are_refused_for_a_reason_by_one(format, facts, "unsupported_backup_format"@);
    rebuilds_are_refused_for_a_reason_by_one(format, facts, "schema_version_mismatch"@);
    rebuilds_are_refused_for_a_reason_by_one(format, facts, "invalid_manifest_ownership"@);
    rebuilds_are_refused_for_a_reason_by_one(format, facts, "work_items_missing_for_ownership"@);
    rebuilds_are_refused_for_a_reason_by_one(format, facts, "work_item_external_key_conflict"@);
    rebuilds_are_refused_for_a_reason_by_one(format, facts, "dangerous_ownership_overwrite"@);
    rebuilds_are_refused_for_a_reason_by_one(format, facts, "active_claims_present"@);
    rebuilds_are_refused_for_a_reason_by_one(format, facts, "active_sessions_present"@);
    rebuilds_are_refused_for_a_reason_by_one(format, facts, "live_executions_present_fence_first"@);
    rebuilds_are_refused_for_a_reason_by_one(format, facts, "unattributed_history_present"@);
}


/// A rebuild that is safe puts in the works that are missing, and the ownership exactly where it is not
/// there yet. One that is refused puts in nothing.
pub proof fn rebuilds_put_in_what_is_missing(
    r: RebuildDecision,
    format: Seq<char>,
    facts: RebuildFacts,
    ownership_rows: usize,
    missing_work_items: usize,
)
    requires
        is_rebuild_decision(r, format, facts, ownership_rows, missing_work_items),
    ensures
        r.safe_to_apply <==> rebuild_refusals(format, facts).len() == 0,
        !r.safe_to_apply ==> r.mode@ == "refused"@ && r.insert_ownership == 0 && r.insert_work_items
            == 0,
        r.safe_to_apply ==> r.insert_work_items == missing_work_items,
        r.safe_to_apply && facts.ownership_digest_matches ==> r.mode@ == "already_materialized"@
            && r.insert_ownership == 0,
        r.safe_to_apply && !facts.ownership_digest_matches ==> r.mode@ == "ownership_materialize"@
            && r.insert_ownership == ownership_rows,
{
    assert(operator_request::names(r.refusals@).len() == r.refusals@.len());
}

/// All artifacts are there exactly where each has its bytes and is finalized or retained.
pub proof fn one_missing_artifact_is_enough(rows: Seq<ArtifactRow>, i: int)
    requires
        0 <= i < rows.len(),
    ensures
        !rows[i].bytes_present ==> !all_artifacts_present(rows),
        rows[i].state@ != "finalized"@ && rows[i].state@ != "retained"@ ==> !all_artifacts_present(
            rows,
        ),
        all_artifacts_present(Seq::empty()),
        rows[i].bytes_present && (rows[i].state@ == "finalized"@ || rows[i].state@ == "retained"@)
            && all_artifacts_present(rows.remove(i)) ==> all_artifacts_present(rows),
{
    if rows[i].bytes_present && (rows[i].state@ == "finalized"@ || rows[i].state@ == "retained"@)
        && all_artifacts_present(rows.remove(i)) {
        assert forall|k: int| 0 <= k < rows.len() implies (#[trigger] rows[k]).bytes_present && (
        rows[k].state@ == "finalized"@ || rows[k].state@ == "retained"@) by {
            if k < i {
                assert(rows.remove(i)[k] == rows[k]);
            } else if k > i {
                assert(rows.remove(i)[k - 1] == rows[k]);
            }
        }
    }
}

/// A backup is usable exactly where it was stored with a manifest of the digest that is asked for.
pub proof fn backups_are_used_by_their_digest(row: BackupRow, digest: Seq<char>)
    ensures
        !usable(None, digest),
        row.manifest is None ==> !usable(Some(row), digest),
        row.manifest_hash@ != digest ==> !usable(Some(row), digest),
        row.manifest is Some ==> usable(Some(row), row.manifest_hash@),
{
}

/// The ownership of a manifest is that of its projection; where that has none, what can be rebuilt.
pub proof fn ownership_is_read_from_the_projection(manifest: JsonView, p: JsonView, r: JsonView, v: JsonView)
    ensures
        json::field(manifest, "projection"@) == Some(p) && json::field(p, "ownership"@) == Some(v)
            ==> manifest_ownership_field(manifest) == Some(v),
        (json::field(manifest, "projection"@) is None || json::field(manifest, "projection"@) == Some(p)
            && json::field(p, "ownership"@) is None) && json::field(manifest, "rebuildable"@) == Some(r)
            ==> manifest_ownership_field(manifest) == json::field(r, "ownership"@),
        json::field(manifest, "projection"@) is None && json::field(manifest, "rebuildable"@) is None
            ==> manifest_ownership_field(manifest) is None,
{
}

/// The digest of the ownership is read where the ownership is.
pub proof fn digests_are_read_from_the_projection(
    manifest: JsonView,
    p: JsonView,
    r: JsonView,
    s: Seq<char>,
)
    ensures
        json::field(manifest, "projection"@) == Some(p) && json::field(p, "ownership_digest"@) == Some(
            JsonView::Str(s),
        ) ==> manifest_ownership_digest(manifest) == s,
        json::field(manifest, "projection"@) is None && json::field(manifest, "rebuildable"@) == Some(r)
            && json::field(r, "ownership_digest"@) == Some(JsonView::Str(s))
            ==> manifest_ownership_digest(manifest) == s,
        json::field(manifest, "projection"@) is None && json::field(manifest, "rebuildable"@) is None
            ==> manifest_ownership_digest(manifest).len() == 0,
{
}

/// The inventory of a manifest is that of its works; where there is none, what can be rebuilt.
pub proof fn inventories_are_read(manifest: JsonView, w: JsonView, r: JsonView, items: Seq<JsonView>)
    ensures
        json::field(manifest, "work_inventory"@) == Some(w) && json::field(w, "items"@) == Some(
            JsonView::Arr(items),
        ) ==> manifest_inventory(manifest) == items,
        json::field(manifest, "work_inventory"@) is None && json::field(manifest, "rebuildable"@)
            == Some(r) && json::field(r, "work_inventory"@) == Some(JsonView::Arr(items))
            ==> manifest_inventory(manifest) == items,
        json::field(manifest, "work_inventory"@) is None && json::field(manifest, "rebuildable"@) is None
            ==> manifest_inventory(manifest).len() == 0,
        items_of(Some(JsonView::Arr(items))) == items,
        items_of(None).len() == 0,
        items_of(Some(JsonView::Null)).len() == 0,
{
}

/// A row and an item that were told are read back as they were.
pub proof fn rows_and_items_read_back(row: OwnershipView, item: WorkItemView)
    ensures
        manifest_row(ownership_row_doc(row)) == row,
        manifest_item(work_item_doc(item)) == item,
{
    ownership_rows_are_told(row);
    work_items_are_told(item);
}

/// An ownership row is well formed exactly where it names a work and a workstream under a positive
/// version.
pub proof fn ownership_versions_are_positive(row: OwnershipView, version: i64)
    requires
        row.ownership_version == text::decimal_form(version as int),
    ensures
        row_ok(row) <==> text::is_identity(row.work_id) && text::is_identity(row.workstream_id)
            && version >= 1,
{
    text::integers_read_back(version);
}

/// An ownership whose version is no number is not well formed.
pub proof fn ownership_versions_are_numbers(row: OwnershipView)
    requires
        text::parsed_int(row.ownership_version) is None,
    ensures
        !row_ok(row),
{
}

/// One row that is not well formed makes the ownership of a manifest unreadable.
pub proof fn one_bad_row_is_enough(items: Seq<JsonView>, i: int)
    requires
        0 <= i < items.len(),
    ensures
        !row_ok(manifest_row(items[i])) ==> !rows_ok(items),
        rows_ok(Seq::empty()),
        row_ok(manifest_row(items[i])) && rows_ok(items.remove(i)) ==> rows_ok(items),
{
    if row_ok(manifest_row(items[i])) && rows_ok(items.remove(i)) {
        assert forall|k: int| 0 <= k < items.len() implies row_ok(manifest_row(#[trigger] items[k])) by {
            if k < i {
                assert(items.remove(i)[k] == items[k]);
            } else if k > i {
                assert(items.remove(i)[k - 1] == items[k]);
            }
        }
    }
}

/// Sorting by work leaves the rows of one work in the order that they had.
pub proof fn sorting_by_work_is_stable(rows: Seq<OwnershipView>, work_id: Seq<char>)
    ensures
        sorted_by_work(rows).filter(|r: OwnershipView| r.work_id == work_id) == rows.filter(
            |r: OwnershipView| r.work_id == work_id,
        ),
    decreases rows.len(),
{
    let of_work = |r: OwnershipView| r.work_id == work_id;
    if rows.len() == 0 {
        assert(rows =~= Seq::<OwnershipView>::empty());
    } else {
        let before = sorted_by_work(rows.drop_last());
        let last = rows.last();
        sorting_by_work_is_stable(rows.drop_last(), work_id);
        sorting_by_work_sorts(rows.drop_last());
        slot_in_range(before, last.work_id, 0);
        let p = slot(before, last.work_id, 0);
        let head = before.take(p);
        let tail = before.skip(p);
        let one = Seq::<OwnershipView>::empty().push(last);
        assert(before =~= head + tail);
        assert(before.insert(p, last) =~= head + one + tail);
        assert(rows =~= rows.drop_last() + one);
        Seq::filter_distributes_over_add(head, tail, of_work);
        Seq::filter_distributes_over_add(head + one, tail, of_work);
        Seq::filter_distributes_over_add(head, one, of_work);
        Seq::filter_distributes_over_add(rows.drop_last(), one, of_work);
        if last.work_id == work_id {
            assert forall|k: int| 0 <= k < tail.len() implies !of_work(#[trigger] tail[k]) by {
                assert(tail[k] == before[p + k]);
                assert(order::text_lt(work_id, before[p].work_id));
                if k > 0 {
                    assert(order::text_le(before[p].work_id, before[p + k].work_id));
                    if before[p + k].work_id == work_id {
                        order::text_lt_asymmetric(work_id, before[p].work_id);
                        order::text_lt_irreflexive(work_id);
                    }
                } else {
                    order::text_lt_irreflexive(work_id);
                }
            }
            nothing_is_kept(tail, of_work);
            assert(head.filter(of_work) + tail.filter(of_work) =~= head.filter(of_work));
            assert(head.filter(of_work) + one.filter(of_work) + tail.filter(of_work)
                =~= head.filter(of_work) + one.filter(of_work));
        } else {
            assert forall|k: int| 0 <= k < one.len() implies !of_work(#[trigger] one[k]) by {}
            nothing_is_kept(one, of_work);
            assert(head.filter(of_work) + one.filter(of_work) + tail.filter(of_work)
                =~= head.filter(of_work) + tail.filter(of_work));
            assert(rows.drop_last().filter(of_work) + one.filter(of_work)
                =~= rows.drop_last().filter(of_work));
        }
    }
}

proof fn nothing_is_kept(rows: Seq<OwnershipView>, condition: spec_fn(OwnershipView) -> bool)
    requires
        forall|k: int| 0 <= k < rows.len() ==> !condition(#[trigger] rows[k]),
    ensures
        rows.filter(condition).len() == 0,
    decreases rows.len(),
{
    reveal(Seq::filter);
    if rows.len() > 0 {
        nothing_is_kept(rows.drop_last(), condition);
        assert(rows.last() == rows[rows.len() - 1]);
    }
}

/// The key of a work is that of an item for the work, and the last one counts.
pub proof fn keys_are_of_their_work(items: Seq<WorkItemView>, item: WorkItemView, work_id: Seq<char>)
    ensures
        key_of(Seq::empty(), work_id) is None,
        item.work_id == work_id ==> key_of(items.push(item), work_id) == Some(item.external_key),
        item.work_id != work_id ==> key_of(items.push(item), work_id) == key_of(items, work_id),
{
    assert(items.push(item).drop_last() =~= items);
}

/// An item is well formed exactly where it names its work and its key; only such items are used.
pub proof fn only_named_items_are_used(items: Seq<WorkItemView>, item: WorkItemView)
    ensures
        item_ok(item) <==> text::is_identity(item.work_id) && text::is_identity(item.external_key),
        good_items(Seq::empty()).len() == 0,
        text::is_identity(item.work_id) && text::is_identity(item.external_key) ==> good_items(
            items.push(item),
        ) == good_items(items).push(item),
        !text::is_identity(item.work_id) || !text::is_identity(item.external_key) ==> good_items(
            items.push(item),
        ) == good_items(items),
{
    reveal(Seq::filter);
    assert(items.push(item).drop_last() =~= items);
}

/// The keys of a manifest conflict where an item is not well formed, and where the project has its work
/// under another key; one that the project lacks, or has under the same key, is in order.
pub proof fn other_keys_conflict(items: Seq<WorkItemView>, current: Seq<WorkItemView>, i: int)
    requires
        0 <= i < items.len(),
    ensures
        !item_ok(items[i]) ==> keys_conflict(items, current),
        key_of(current, items[i].work_id) matches Some(key) ==> (key != items[i].external_key
            ==> keys_conflict(items, current)),
        (forall|k: int|
            0 <= k < items.len() ==> item_ok(#[trigger] items[k]) && (key_of(current, items[k].work_id)
                is None || key_of(current, items[k].work_id)->Some_0 == items[k].external_key))
            ==> !keys_conflict(items, current),
{
}

/// A rebuild needs an item for an ownership row exactly where the project lacks its work and the manifest
/// has it, under the key of the manifest. The works are covered where each is in one of the two.
pub proof fn missing_works_are_needed(
    rows: Seq<OwnershipView>,
    row: OwnershipView,
    current: Seq<WorkItemView>,
    inventory: Seq<WorkItemView>,
)
    ensures
        items_needed(Seq::empty(), current, inventory).len() == 0,
        key_of(current, row.work_id) is None && key_of(inventory, row.work_id) is Some ==> items_needed(
            rows.push(row),
            current,
            inventory,
        ) == items_needed(rows, current, inventory).push(
            WorkItemView {
                work_id: row.work_id,
                external_key: key_of(inventory, row.work_id)->Some_0,
            },
        ),
        key_of(current, row.work_id) is Some || key_of(inventory, row.work_id) is None ==> items_needed(
            rows.push(row),
            current,
            inventory,
        ) == items_needed(rows, current, inventory),
        works_covered(Seq::empty(), current, inventory),
        works_covered(rows.push(row), current, inventory) <==> works_covered(rows, current, inventory)
            && (key_of(current, row.work_id) is Some || key_of(inventory, row.work_id) is Some),
{
    assert(rows.push(row).drop_last() =~= rows);
    let all = rows.push(row);
    if works_covered(all, current, inventory) {
        assert(all[rows.len() as int] == row);
        assert forall|i: int| 0 <= i < rows.len() implies key_of(current, (#[trigger] rows[i]).work_id)
            is Some || key_of(inventory, rows[i].work_id) is Some by {
            assert(all[i] == rows[i]);
        }
    }
    if works_covered(rows, current, inventory) && (key_of(current, row.work_id) is Some || key_of(
        inventory,
        row.work_id,
    ) is Some) {
        assert forall|i: int| 0 <= i < all.len() implies key_of(current, (#[trigger] all[i]).work_id)
            is Some || key_of(inventory, all[i].work_id) is Some by {
            if i < rows.len() {
                assert(all[i] == rows[i]);
            }
        }
    }
}

/// What a rebuild is decided by is what the manifest and the project show.
pub proof fn rebuild_facts_are_as_shown(manifest: JsonView, schema_version: i32, state: RebuildState)
    ensures
        ({
            let facts = rebuild_facts(manifest, schema_version, state);
            let readable = manifest_ownership_field(manifest) is Some && rows_ok(
                items_of(manifest_ownership_field(manifest)),
            );
            &&& facts.schema_ok <==> schema_version == 6 && json::field(manifest, "schema_version"@)
                == Some(JsonView::Int(6))
            &&& facts.manifest_ownership_valid <==> readable && (manifest_ownership_digest(manifest)
                == state.rows_digest@ || manifest_ownership_digest(manifest).len() == 0)
            &&& facts.ownership_empty <==> state.current.ownership@.len() == 0
            &&& readable ==> (facts.ownership_digest_matches <==> state.current.ownership_digest@
                == state.rows_digest@)
            &&& !readable ==> (facts.ownership_digest_matches <==> state.current.ownership_digest@.len()
                == 0)
            &&& facts.has_active_claims == state.active_claims
            &&& facts.has_active_sessions == state.active_sessions
            &&& facts.has_live_executions == state.live_executions
            &&& facts.unattributed_history == state.current.unattributed_history
            &&& !readable ==> facts.work_coverage_ok && rebuild_rows(manifest).len() == 0
                && rebuild_items(manifest, state).len() == 0
            &&& readable ==> rebuild_rows(manifest) == manifest_rows(manifest)
            &&& facts.work_coverage_ok <==> works_covered(
                rebuild_rows(manifest),
                work_views(state.current_work@),
                rebuild_inventory(manifest),
            )
        }),
{
    if state.current.ownership_digest@.len() == 0 {
        assert(state.current.ownership_digest@ =~= Seq::<char>::empty());
    }
    if manifest_ownership_digest(manifest).len() == 0 {
        assert(manifest_ownership_digest(manifest) =~= Seq::<char>::empty());
    }
}

/// An item of a manifest that is not well formed, or that has another key in the project, is a conflict;
/// each that is well formed is there to be rebuilt from, and a rebuild needs what the project lacks.
pub proof fn manifest_items_are_weighed(
    manifest: JsonView,
    schema_version: i32,
    state: RebuildState,
    i: int,
)
    requires
        0 <= i < manifest_inventory(manifest).len(),
    ensures
        ({
            let item = manifest_item(manifest_inventory(manifest)[i]);
            let facts = rebuild_facts(manifest, schema_version, state);
            let key = key_of(work_views(state.current_work@), item.work_id);
            &&& !text::is_identity(item.work_id) || !text::is_identity(item.external_key)
                ==> facts.work_key_conflicts
            &&& key is Some && key->Some_0 != item.external_key ==> facts.work_key_conflicts
            &&& item_ok(item) ==> rebuild_inventory(manifest).contains(item)
            &&& rebuild_items(manifest, state) == items_needed(
                rebuild_rows(manifest),
                work_views(state.current_work@),
                rebuild_inventory(manifest),
            )
        }),
{
    let items = manifest_inventory(manifest).map_values(|j: JsonView| manifest_item(j));
    let item = manifest_item(manifest_inventory(manifest)[i]);
    assert(items[i] == item);
    if item_ok(item) {
        items.lemma_filter_contains(|w: WorkItemView| item_ok(w), i);
    }
}

/// A plan for a rebuild puts in what its decision says, and nothing where it is refused.
pub proof fn rebuild_plans_are_of_their_manifest(
    plan: RebuildPlan,
    tenant: Seq<char>,
    project: Seq<char>,
    backup_id: Seq<char>,
    manifest_hash: Seq<char>,
    schema_version: i32,
    manifest: JsonView,
    state: RebuildState,
)
    requires
        is_rebuild_plan(
            plan,
            tenant,
            project,
            backup_id,
            manifest_hash,
            schema_version,
            manifest,
            state,
        ),
    ensures
        plan.decision.safe_to_apply <==> rebuild_refusals(
            json::text_or_empty(manifest, "format"@),
            rebuild_facts(manifest, schema_version, state),
        ).len() == 0,
        !plan.decision.safe_to_apply ==> plan.ownership_to_insert@.len() == 0
            && plan.work_items_to_insert@.len() == 0 && plan.decision.mode@ == "refused"@,
        plan.decision.safe_to_apply ==> work_views(plan.work_items_to_insert@) == rebuild_items(
            manifest,
            state,
        ),
        plan.decision.safe_to_apply && state.current.ownership_digest@ != plan.target_ownership_digest@
            ==> plan.decision.mode@ == "ownership_materialize"@ && ownership_views(
            plan.ownership_to_insert@,
        ) == rebuild_rows(manifest),
        plan.decision.safe_to_apply && state.current.ownership_digest@ == plan.target_ownership_digest@
            ==> plan.decision.mode@ == "already_materialized"@ && plan.ownership_to_insert@.len() == 0,
        ownership_readable(manifest) ==> plan.target_ownership_digest@ == state.rows_digest@,
        plan.decision.insert_ownership == plan.ownership_to_insert@.len(),
        plan.decision.insert_work_items == plan.work_items_to_insert@.len(),
        plan.state.model() == rebuild_state_doc(
            tenant,
            project,
            backup_id,
            manifest_hash,
            plan.target_ownership_digest@,
            state,
        ),
        plan.body.model() == rebuild_body_doc(backup_id, plan.decision),
{
    assert(operator_request::names(plan.decision.refusals@).len() == plan.decision.refusals@.len());
    assert(ownership_views(plan.ownership_to_insert@).len() == plan.ownership_to_insert@.len());
    assert(work_views(plan.work_items_to_insert@).len() == plan.work_items_to_insert@.len());
}

/// A request is admitted exactly where each of its names is one and each of its digests is one.
pub proof fn requests_are_well_formed(q: ApplyRequest)
    ensures
        !text::is_identity(q.tenant@) ==> !request_ok(q),
        !text::is_identity(q.project@) ==> !request_ok(q),
        !text::is_identity(q.backup_id@) ==> !request_ok(q),
        !text::is_identity(q.request@) ==> !request_ok(q),
        !text::is_hex(q.expected_state@) ==> !request_ok(q),
        !text::is_hex(q.expected_plan@) ==> !request_ok(q),
        text::is_identity(q.tenant@) && text::is_identity(q.project@) && text::is_identity(q.backup_id@)
            && text::is_identity(q.request@) && text::is_hex(q.expected_state@) && text::is_hex(
            q.expected_plan@,
        ) ==> request_ok(q),
{
}

/// A restore from a manifest is free of reasons against it exactly where the format and the schema are
/// the expected ones, the workstreams, the receipts and the inventory are those of the manifest, all
/// artifacts are there and all history has a workstream. An outbox is never replayed.
pub proof fn restores_need_the_project_of_the_manifest(
    manifest: JsonView,
    schema_version: i32,
    state: RestoreState,
)
    ensures
        manifest_restore_refusals(manifest, schema_version, state).len() == 0 <==> {
            let projection = json::at(manifest, "projection"@);
            &&& json::field(manifest, "format"@) == Some(
                JsonView::Str("awr-team-enabled-backup-v1"@),
            )
            &&& schema_version == 6
            &&& json::field(manifest, "schema_version"@) == Some(JsonView::Int(6))
            &&& json::at(projection, "catalog_digest"@) == json::opt_item(
                text::opt(state.current.catalog_digest),
            )
            &&& json::at(projection, "ownership_digest"@) == JsonView::Str(
                state.current.ownership_digest@,
            )
            &&& json::at(json::at(manifest, "completion_receipts"@), "digest"@) == JsonView::Str(
                state.receipts_digest@,
            )
            &&& json::at(json::at(manifest, "logical"@), "digest"@) == JsonView::Str(
                state.logical_digest@,
            )
            &&& state.artifacts_present
            &&& !state.current.unattributed_history
        },
        !manifest_restore_refusals(manifest, schema_version, state).contains(
            "outbox_replay_forbidden"@,
        ),
{
    reveal_strlit("awr-team-enabled-backup-v1");
    assert("awr-team-enabled-backup-v1"@.len() == 26);
    restores_are_refused_for_a_reason(
        json::text_or_empty(manifest, "format"@),
        schema_version == EXPECTED_SCHEMA_VERSION && json::int_field(manifest, "schema_version"@)
            == Some(EXPECTED_SCHEMA_VERSION as int),
        projection_matches(manifest, state.current),
        json::at(json::at(manifest, "completion_receipts"@), "digest"@) == JsonView::Str(
            state.receipts_digest@,
        ),
        json::at(json::at(manifest, "logical"@), "digest"@) == JsonView::Str(state.logical_digest@),
        state.artifacts_present,
        state.current.unattributed_history,
        false,
    );
}

/// A plan for a restore is safe exactly where nothing stands against it, and fences only then.
pub proof fn restore_plans_are_of_their_manifest(
    plan: RestorePlan,
    tenant: Seq<char>,
    project: Seq<char>,
    backup_id: Seq<char>,
    manifest_hash: Seq<char>,
    schema_version: i32,
    manifest: JsonView,
    state: RestoreState,
)
    requires
        is_restore_plan(
            plan,
            tenant,
            project,
            backup_id,
            manifest_hash,
            schema_version,
            manifest,
            state,
        ),
    ensures
        plan.decision.safe_to_apply <==> manifest_restore_refusals(manifest, schema_version, state).len()
            == 0,
        plan.decision.safe_to_apply ==> plan.decision.mode@ == "verified_fencing"@,
        !plan.decision.safe_to_apply ==> plan.decision.mode@ == "refused"@,
        plan.state.model() == restore_state_doc(tenant, project, backup_id, manifest_hash, state),
        plan.body.model() == restore_body_doc(backup_id, plan.decision),
{
    assert(operator_request::names(plan.decision.refusals@).len() == plan.decision.refusals@.len());
}

/// A restore leaves a barrier for each work that was fenced, under the new epoch, and one for the project
/// as a whole where none was.
pub proof fn restores_leave_barriers(epoch: Seq<char>, fences: Seq<FenceRow>, i: int)
    ensures
        fences.len() == 0 ==> barriers(epoch, fences).len() == 1 && barriers(epoch, fences)[0]
            == barrier_doc(epoch, ""@, ""@, "0"@),
        fences.len() > 0 ==> barriers(epoch, fences).len() == fences.len(),
        0 <= i < fences.len() ==> barriers(epoch, fences)[i] == barrier_doc(
            epoch,
            fences[i].scope_id@,
            fences[i].work_id@,
            text::decimal_form(fences[i].last_fence as int),
        ),
{
}

/// A backup is made exactly of an active project whose history all has a workstream.
pub proof fn backups_are_of_active_projects(p: Projection)
    ensures
        backup_admission(p) is Ok <==> p.project_status@ == "active"@ && !p.unattributed_history,
        p.project_status@ != "active"@ ==> backup_admission(p) == Err::<(), Fault>(
            Fault::ProjectNotAvailable,
        ),
        p.project_status@ == "active"@ && p.unattributed_history ==> backup_admission(p) == Err::<
            (),
            Fault,
        >(
            Fault::Unsupported(
                "unattributed history must be migrated before enabled-project backup"@,
            ),
        ),
{
}

/// The epoch after a restore says that it is one, and names it.
pub proof fn restored_epochs_say_so(epoch: Seq<char>)
    requires
        is_restored_epoch(epoch),
    ensures
        epoch.len() == 35,
        epoch.take(9) == "restored-"@,
        tx::is_ulid(epoch.skip(9)),
{
    reveal_strlit("restored-");
    assert("restored-"@.len() == 9);
    let id = choose|id: Seq<char>| #[trigger] tx::is_ulid(id) && epoch == "restored-"@ + id;
    assert(epoch.skip(9) =~= id);
    assert(epoch.take(9) =~= "restored-"@);
}

/// What a rebuild and a restore do, and what they never do.
pub proof fn recoveries_keep_to_their_actions()
    ensures
        rebuild_actions().len() == 2,
        rebuild_actions()[0] == "insert_missing_work_items_id_external_key"@,
        rebuild_actions()[1] == "insert_ownership_rows_when_empty"@,
        rebuild_never().len() == 6,
        rebuild_never()[0] == "overwrite_divergent_ownership"@,
        rebuild_never()[1] == "rewrite_completion_receipts"@,
        rebuild_never()[2] == "forge_credentials_or_grants"@,
        rebuild_never()[3] == "rewrite_catalogs_or_contracts"@,
        rebuild_never()[4] == "replay_outbox"@,
        rebuild_never()[5] == "authorize_execution_or_resume"@,
        restore_actions().len() == 6,
        restore_actions()[0] == "rotate_coordinator_epoch"@,
        restore_actions()[1] == "interrupt_active_sessions"@,
        restore_actions()[2] == "revoke_active_claims"@,
        restore_actions()[3] == "mark_nonterminal_executions_unknown"@,
        restore_actions()[4] == "set_recovery_blocked_and_bump_fences"@,
        restore_actions()[5] == "fail_pending_outbox"@,
        restore_never().len() == 5,
        restore_never()[0] == "rewrite_completion_receipts"@,
        restore_never()[1] == "forge_credentials_or_grants"@,
        restore_never()[2] == "replay_outbox"@,
        restore_never()[3] == "copy_table_rows_from_manifest"@,
        restore_never()[4] == "inspect_host_filesystem_as_acl"@,
{
}

/// Rows and items are told one for one, each in its place.
pub proof fn rows_and_items_stay_in_their_places(
    rows: Seq<OwnershipRow>,
    items: Seq<WorkItem>,
    i: int,
)
    ensures
        ownership_doc(ownership_views(rows)) matches JsonView::Arr(docs) && docs.len() == rows.len() && (0
            <= i < rows.len() ==> docs[i] == ownership_row_doc(rows[i]@)),
        work_items_doc(work_views(items)) matches JsonView::Arr(docs) && docs.len() == items.len() && (0
            <= i < items.len() ==> docs[i] == work_item_doc(items[i]@)),
        0 <= i < rows.len() ==> ownership_views(rows)[i].work_id == rows[i].work_id@,
        0 <= i < items.len() ==> work_views(items)[i].external_key == items[i].external_key@,
{
}

/// The logical inventory tells each source and each artifact in its place, their digests, and whether all
/// artifacts are there.
pub proof fn logical_inventories_are_told(
    sources: Seq<SourceRow>,
    artifacts: Seq<ArtifactRow>,
    digest: Seq<char>,
    i: int,
)
    ensures
        ({
            let d = logical_doc(sources, artifacts, digest);
            let items = logical_items_doc(sources, artifacts);
            &&& json::field(d, "digest"@) == Some(JsonView::Str(digest))
            &&& json::field(d, "artifacts_present"@) == Some(
                JsonView::Bool(all_artifacts_present(artifacts)),
            )
            &&& json::field(d, "sources"@) == json::field(items, "sources"@)
            &&& json::field(d, "artifacts"@) == json::field(items, "artifacts"@)
            &&& json::field(items, "sources"@) matches Some(JsonView::Arr(list)) && list.len()
                == sources.len() && (0 <= i < sources.len() ==> list[i] == source_doc(sources[i]))
            &&& json::field(items, "artifacts"@) matches Some(JsonView::Arr(list)) && list.len()
                == artifacts.len() && (0 <= i < artifacts.len() ==> list[i] == artifact_doc(
                artifacts[i],
            ))
            &&& json::field(d, "source_digests"@) matches Some(JsonView::Arr(list)) && list.len()
                == sources.len() && (0 <= i < sources.len() ==> list[i] == JsonView::Str(
                sources[i].manifest_digest@,
            ))
            &&& json::field(d, "artifact_digests"@) matches Some(JsonView::Arr(list)) && list.len()
                == artifacts.len() && (0 <= i < artifacts.len() ==> list[i] == JsonView::Str(
                artifacts[i].sha256@,
            ))
        }),
{
    reveal_strlit("sources");
    reveal_strlit("artifacts");
    reveal_strlit("source_digests");
    reveal_strlit("artifact_digests");
    reveal_strlit("artifacts_present");
    reveal_strlit("digest");
    assert("sources"@.len() == 7);
    assert("artifacts"@.len() == 9);
    assert("source_digests"@.len() == 14);
    assert("artifact_digests"@.len() == 16);
    assert("artifacts_present"@.len() == 17);
    assert("digest"@.len() == 6);
    let d = logical_doc(sources, artifacts, digest)->Obj_0;
    json::field_is_first(d, "sources"@, 0);
    json::field_is_first(d, "artifacts"@, 1);
    json::field_is_first(d, "source_digests"@, 2);
    json::field_is_first(d, "artifact_digests"@, 3);
    json::field_is_first(d, "artifacts_present"@, 4);
    json::field_is_first(d, "digest"@, 5);
    let items = logical_items_doc(sources, artifacts)->Obj_0;
    json::field_is_first(items, "sources"@, 0);
    json::field_is_first(items, "artifacts"@, 1);
    assert(d[0].1 == items[0].1);
    assert(d[1].1 == items[1].1);
}

/// An ownership row is told with each of its values under the name of the value.
pub proof fn ownership_rows_are_told(row: OwnershipView)
    ensures
        json::field(ownership_row_doc(row), "work_id"@) == Some(JsonView::Str(row.work_id)),
        json::field(ownership_row_doc(row), "workstream_id"@) == Some(JsonView::Str(row.workstream_id)),
        json::field(ownership_row_doc(row), "ownership_version"@) == Some(JsonView::Str(row.ownership_version)),
{
    reveal_strlit("work_id");
    reveal_strlit("workstream_id");
    reveal_strlit("ownership_version");
    assert("work_id"@.len() == 7);
    assert("workstream_id"@.len() == 13);
    assert("ownership_version"@.len() == 17);
    let f = ownership_row_doc(row)->Obj_0;
    json::field_is_first(f, "work_id"@, 0);
    json::field_is_first(f, "workstream_id"@, 1);
    json::field_is_first(f, "ownership_version"@, 2);
}

/// A work is told with its key.
pub proof fn work_items_are_told(item: WorkItemView)
    ensures
        json::field(work_item_doc(item), "work_id"@) == Some(JsonView::Str(item.work_id)),
        json::field(work_item_doc(item), "external_key"@) == Some(JsonView::Str(item.external_key)),
{
    reveal_strlit("work_id");
    reveal_strlit("external_key");
    assert("work_id"@.len() == 7);
    assert("external_key"@.len() == 12);
    let f = work_item_doc(item)->Obj_0;
    json::field_is_first(f, "work_id"@, 0);
    json::field_is_first(f, "external_key"@, 1);
}

/// What a backup is good for: what is rebuilt, and what is never touched.
pub proof fn limits_are_told()
    ensures
        json::field(limits_doc(), "physical_basebackup"@) == Some(JsonView::Str("external_operator_responsibility"@)),
        json::field(limits_doc(), "logical_manifest"@) == Some(JsonView::Str("recorded_in_awr_team.backups"@)),
        json::field(limits_doc(), "restores_table_rows_from_manifest"@) == Some(JsonView::Bool(false)),
        json::field(limits_doc(), "rebuild_from_manifest"@) == Some(JsonView::Obj( json::no_fields().push( ( "subset"@, JsonView::Str("work_inventory_and_ownership_when_empty_v1"@), ), ).push(("requires_fencing_quiet"@, JsonView::Bool(true))).push( ("work_items_external_key_only"@, JsonView::Bool(true)), ).push(("workstream_ownership"@, JsonView::Bool(true))).push( ("work_contracts"@, JsonView::Bool(false)), ).push(("workstream_catalogs"@, JsonView::Bool(false))).push( ("workstream_snapshot_ownership"@, JsonView::Bool(false)), ).push(("completion_receipts"@, JsonView::Bool(false))).push( ("grants_or_actors"@, JsonView::Bool(false)), ).push(("dangerous_overwrite"@, JsonView::Bool(false))), )),
        json::field(limits_doc(), "rewrites_completion_receipts"@) == Some(JsonView::Bool(false)),
        json::field(limits_doc(), "forges_credentials_or_grants"@) == Some(JsonView::Bool(false)),
        json::field(limits_doc(), "outbox_replay"@) == Some(JsonView::Bool(false)),
        json::field(limits_doc(), "local_file_access"@) == Some(JsonView::Str("not_server_acl_or_confidentiality_sandbox"@)),
        json::field(limits_doc(), "frontend_filtering"@) == Some(JsonView::Bool(false)),
        json::field(limits_doc(), "legacy_import_store"@) == Some(JsonView::Str("refuses_enabled_workstream_projects"@)),
        json::field(limits_doc(), "requires_history_migration_first"@) == Some(JsonView::Bool(true)),
{
    reveal_strlit("physical_basebackup");
    reveal_strlit("logical_manifest");
    reveal_strlit("restores_table_rows_from_manifest");
    reveal_strlit("rebuild_from_manifest");
    reveal_strlit("rewrites_completion_receipts");
    reveal_strlit("forges_credentials_or_grants");
    reveal_strlit("outbox_replay");
    reveal_strlit("local_file_access");
    reveal_strlit("frontend_filtering");
    reveal_strlit("legacy_import_store");
    reveal_strlit("requires_history_migration_first");
    assert("physical_basebackup"@.len() == 19);
    assert("logical_manifest"@.len() == 16);
    assert("restores_table_rows_from_manifest"@.len() == 33);
    assert("rebuild_from_manifest"@.len() == 21);
    assert("rewrites_completion_receipts"@.len() == 28);
    assert("forges_credentials_or_grants"@.len() == 28);
    assert("outbox_replay"@.len() == 13);
    assert("local_file_access"@.len() == 17);
    assert("frontend_filtering"@.len() == 18);
    assert("legacy_import_store"@.len() == 19);
    assert("requires_history_migration_first"@.len() == 32);
    assert("physical_basebackup"@[0] == 'p');
    assert("legacy_import_store"@[0] == 'l');
    assert("rewrites_completion_receipts"@[0] == 'r');
    assert("forges_credentials_or_grants"@[0] == 'f');
    let f = limits_doc()->Obj_0;
    json::field_is_first(f, "physical_basebackup"@, 0);
    json::field_is_first(f, "logical_manifest"@, 1);
    json::field_is_first(f, "restores_table_rows_from_manifest"@, 2);
    json::field_is_first(f, "rebuild_from_manifest"@, 3);
    json::field_is_first(f, "rewrites_completion_receipts"@, 4);
    json::field_is_first(f, "forges_credentials_or_grants"@, 5);
    json::field_is_first(f, "outbox_replay"@, 6);
    json::field_is_first(f, "local_file_access"@, 7);
    json::field_is_first(f, "frontend_filtering"@, 8);
    json::field_is_first(f, "legacy_import_store"@, 9);
    json::field_is_first(f, "requires_history_migration_first"@, 10);
}

/// A projection is told with each of its values under the name of the value.
pub proof fn projections_are_told(p: Projection)
    ensures
        json::field(projection_doc(p), "project_status"@) == Some(JsonView::Str(p.project_status@)),
        json::field(projection_doc(p), "coordinator_epoch"@) == Some(JsonView::Str(p.coordinator_epoch@)),
        json::field(projection_doc(p), "project_revision"@) == Some(JsonView::Str(text::decimal_form(p.project_revision as int))),
        json::field(projection_doc(p), "source_snapshot_id"@) == Some(json::opt_item(text::opt(p.source_snapshot_id))),
        json::field(projection_doc(p), "catalog_digest"@) == Some(json::opt_item(text::opt(p.catalog_digest))),
        json::field(projection_doc(p), "ownership"@) == Some(ownership_doc(ownership_views(p.ownership@))),
        json::field(projection_doc(p), "ownership_digest"@) == Some(JsonView::Str(p.ownership_digest@)),
        json::field(projection_doc(p), "unattributed_history"@) == Some(JsonView::Bool(p.unattributed_history)),
{
    reveal_strlit("project_status");
    reveal_strlit("coordinator_epoch");
    reveal_strlit("project_revision");
    reveal_strlit("source_snapshot_id");
    reveal_strlit("catalog_digest");
    reveal_strlit("ownership");
    reveal_strlit("ownership_digest");
    reveal_strlit("unattributed_history");
    assert("project_status"@.len() == 14);
    assert("coordinator_epoch"@.len() == 17);
    assert("project_revision"@.len() == 16);
    assert("source_snapshot_id"@.len() == 18);
    assert("catalog_digest"@.len() == 14);
    assert("ownership"@.len() == 9);
    assert("ownership_digest"@.len() == 16);
    assert("unattributed_history"@.len() == 20);
    assert("project_status"@[0] == 'p');
    assert("catalog_digest"@[0] == 'c');
    assert("project_revision"@[0] == 'p');
    assert("ownership_digest"@[0] == 'o');
    let f = projection_doc(p)->Obj_0;
    json::field_is_first(f, "project_status"@, 0);
    json::field_is_first(f, "coordinator_epoch"@, 1);
    json::field_is_first(f, "project_revision"@, 2);
    json::field_is_first(f, "source_snapshot_id"@, 3);
    json::field_is_first(f, "catalog_digest"@, 4);
    json::field_is_first(f, "ownership"@, 5);
    json::field_is_first(f, "ownership_digest"@, 6);
    json::field_is_first(f, "unattributed_history"@, 7);
}

/// An inventory is told with its items and their digest.
pub proof fn inventories_are_told(items: JsonView, digest: Seq<char>)
    ensures
        json::field(inventory_doc(items, digest), "items"@) == Some(items),
        json::field(inventory_doc(items, digest), "digest"@) == Some(JsonView::Str(digest)),
{
    reveal_strlit("items");
    reveal_strlit("digest");
    assert("items"@.len() == 5);
    assert("digest"@.len() == 6);
    let f = inventory_doc(items, digest)->Obj_0;
    json::field_is_first(f, "items"@, 0);
    json::field_is_first(f, "digest"@, 1);
}

/// A completion is told with each of its values under the name of the value.
pub proof fn completions_are_told(row: CompletionRow)
    ensures
        json::field(completion_doc(row), "id"@) == Some(JsonView::Str(row.id@)),
        json::field(completion_doc(row), "work_id"@) == Some(JsonView::Str(row.work_id@)),
        json::field(completion_doc(row), "contract_hash"@) == Some(JsonView::Str(row.contract_hash@)),
        json::field(completion_doc(row), "result_digest"@) == Some(JsonView::Str(row.result_digest@)),
{
    reveal_strlit("id");
    reveal_strlit("work_id");
    reveal_strlit("contract_hash");
    reveal_strlit("result_digest");
    assert("id"@.len() == 2);
    assert("work_id"@.len() == 7);
    assert("contract_hash"@.len() == 13);
    assert("result_digest"@.len() == 13);
    assert("contract_hash"@[0] == 'c');
    assert("result_digest"@[0] == 'r');
    let f = completion_doc(row)->Obj_0;
    json::field_is_first(f, "id"@, 0);
    json::field_is_first(f, "work_id"@, 1);
    json::field_is_first(f, "contract_hash"@, 2);
    json::field_is_first(f, "result_digest"@, 3);
}

/// A source is told with each of its values under the name of the value.
pub proof fn sources_are_told(row: SourceRow)
    ensures
        json::field(source_doc(row), "id"@) == Some(JsonView::Str(row.id@)),
        json::field(source_doc(row), "manifest_digest"@) == Some(JsonView::Str(row.manifest_digest@)),
        json::field(source_doc(row), "parser_version"@) == Some(JsonView::Str(row.parser_version@)),
{
    reveal_strlit("id");
    reveal_strlit("manifest_digest");
    reveal_strlit("parser_version");
    assert("id"@.len() == 2);
    assert("manifest_digest"@.len() == 15);
    assert("parser_version"@.len() == 14);
    let f = source_doc(row)->Obj_0;
    json::field_is_first(f, "id"@, 0);
    json::field_is_first(f, "manifest_digest"@, 1);
    json::field_is_first(f, "parser_version"@, 2);
}

/// An artifact is told with each of its values under the name of the value.
pub proof fn artifacts_are_told(row: ArtifactRow)
    ensures
        json::field(artifact_doc(row), "id"@) == Some(JsonView::Str(row.id@)),
        json::field(artifact_doc(row), "sha256"@) == Some(JsonView::Str(row.sha256@)),
        json::field(artifact_doc(row), "byte_length"@) == Some(JsonView::Int(row.byte_length as int)),
        json::field(artifact_doc(row), "state"@) == Some(JsonView::Str(row.state@)),
        json::field(artifact_doc(row), "bytes_present"@) == Some(JsonView::Bool(row.bytes_present)),
{
    reveal_strlit("id");
    reveal_strlit("sha256");
    reveal_strlit("byte_length");
    reveal_strlit("state");
    reveal_strlit("bytes_present");
    assert("id"@.len() == 2);
    assert("sha256"@.len() == 6);
    assert("byte_length"@.len() == 11);
    assert("state"@.len() == 5);
    assert("bytes_present"@.len() == 13);
    let f = artifact_doc(row)->Obj_0;
    json::field_is_first(f, "id"@, 0);
    json::field_is_first(f, "sha256"@, 1);
    json::field_is_first(f, "byte_length"@, 2);
    json::field_is_first(f, "state"@, 3);
    json::field_is_first(f, "bytes_present"@, 4);
}

/// The state that a rebuild was planned for is that of the project and of the backup.
pub proof fn rebuild_states_are_told(tenant: Seq<char>, project: Seq<char>, backup_id: Seq<char>, manifest_hash: Seq<char>, target: Seq<char>, state: RebuildState)
    ensures
        json::field(rebuild_state_doc(tenant, project, backup_id, manifest_hash, target, state), "tenant_id"@) == Some(JsonView::Str(tenant)),
        json::field(rebuild_state_doc(tenant, project, backup_id, manifest_hash, target, state), "project_id"@) == Some(JsonView::Str(project)),
        json::field(rebuild_state_doc(tenant, project, backup_id, manifest_hash, target, state), "backup_id"@) == Some(JsonView::Str(backup_id)),
        json::field(rebuild_state_doc(tenant, project, backup_id, manifest_hash, target, state), "backup_manifest_hash"@) == Some(JsonView::Str(manifest_hash)),
        json::field(rebuild_state_doc(tenant, project, backup_id, manifest_hash, target, state), "target_ownership_digest"@) == Some(JsonView::Str(target)),
        json::field(rebuild_state_doc(tenant, project, backup_id, manifest_hash, target, state), "current_ownership_digest"@) == Some(JsonView::Str(state.current.ownership_digest@)),
        json::field(rebuild_state_doc(tenant, project, backup_id, manifest_hash, target, state), "current_work_inventory_digest"@) == Some(JsonView::Str(state.current_work_digest@)),
        json::field(rebuild_state_doc(tenant, project, backup_id, manifest_hash, target, state), "active_claims"@) == Some(JsonView::Bool(state.active_claims)),
        json::field(rebuild_state_doc(tenant, project, backup_id, manifest_hash, target, state), "active_sessions"@) == Some(JsonView::Bool(state.active_sessions)),
        json::field(rebuild_state_doc(tenant, project, backup_id, manifest_hash, target, state), "live_executions"@) == Some(JsonView::Bool(state.live_executions)),
{
    reveal_strlit("tenant_id");
    reveal_strlit("project_id");
    reveal_strlit("backup_id");
    reveal_strlit("backup_manifest_hash");
    reveal_strlit("target_ownership_digest");
    reveal_strlit("current_ownership_digest");
    reveal_strlit("current_work_inventory_digest");
    reveal_strlit("active_claims");
    reveal_strlit("active_sessions");
    reveal_strlit("live_executions");
    assert("tenant_id"@.len() == 9);
    assert("project_id"@.len() == 10);
    assert("backup_id"@.len() == 9);
    assert("backup_manifest_hash"@.len() == 20);
    assert("target_ownership_digest"@.len() == 23);
    assert("current_ownership_digest"@.len() == 24);
    assert("current_work_inventory_digest"@.len() == 29);
    assert("active_claims"@.len() == 13);
    assert("active_sessions"@.len() == 15);
    assert("live_executions"@.len() == 15);
    assert("tenant_id"@[0] == 't');
    assert("backup_id"@[0] == 'b');
    assert("active_sessions"@[0] == 'a');
    assert("live_executions"@[0] == 'l');
    let f = rebuild_state_doc(tenant, project, backup_id, manifest_hash, target, state)->Obj_0;
    json::field_is_first(f, "tenant_id"@, 0);
    json::field_is_first(f, "project_id"@, 1);
    json::field_is_first(f, "backup_id"@, 2);
    json::field_is_first(f, "backup_manifest_hash"@, 3);
    json::field_is_first(f, "target_ownership_digest"@, 4);
    json::field_is_first(f, "current_ownership_digest"@, 5);
    json::field_is_first(f, "current_work_inventory_digest"@, 6);
    json::field_is_first(f, "active_claims"@, 7);
    json::field_is_first(f, "active_sessions"@, 8);
    json::field_is_first(f, "live_executions"@, 9);
}

/// The decision on a rebuild is told with its reasons and with what it puts in.
pub proof fn rebuild_decisions_are_told(d: RebuildDecision)
    ensures
        json::field(rebuild_decision_doc(d), "safe_to_apply"@) == Some(JsonView::Bool(d.safe_to_apply)),
        json::field(rebuild_decision_doc(d), "mode"@) == Some(JsonView::Str(d.mode@)),
        json::field(rebuild_decision_doc(d), "refusals"@) == Some(json::text_items(operator_request::names(d.refusals@))),
        json::field(rebuild_decision_doc(d), "insert_ownership"@) == Some(json::count_item(d.insert_ownership)),
        json::field(rebuild_decision_doc(d), "insert_work_items"@) == Some(json::count_item(d.insert_work_items)),
{
    reveal_strlit("safe_to_apply");
    reveal_strlit("mode");
    reveal_strlit("refusals");
    reveal_strlit("insert_ownership");
    reveal_strlit("insert_work_items");
    assert("safe_to_apply"@.len() == 13);
    assert("mode"@.len() == 4);
    assert("refusals"@.len() == 8);
    assert("insert_ownership"@.len() == 16);
    assert("insert_work_items"@.len() == 17);
    let f = rebuild_decision_doc(d)->Obj_0;
    json::field_is_first(f, "safe_to_apply"@, 0);
    json::field_is_first(f, "mode"@, 1);
    json::field_is_first(f, "refusals"@, 2);
    json::field_is_first(f, "insert_ownership"@, 3);
    json::field_is_first(f, "insert_work_items"@, 4);
}

/// A plan for a rebuild tells its backup, its decision and its limits.
pub proof fn rebuild_plans_are_told(backup_id: Seq<char>, d: RebuildDecision)
    ensures
        json::field(rebuild_body_doc(backup_id, d), "protocol"@) == Some(JsonView::Str("awr-operator-enabled-backup-v1"@)),
        json::field(rebuild_body_doc(backup_id, d), "op"@) == Some(JsonView::Str("rebuild.preview"@)),
        json::field(rebuild_body_doc(backup_id, d), "backup_id"@) == Some(JsonView::Str(backup_id)),
        json::field(rebuild_body_doc(backup_id, d), "decision"@) == Some(rebuild_decision_doc(d)),
        json::field(rebuild_body_doc(backup_id, d), "actions_if_applied"@) == Some(json::text_items(rebuild_actions())),
        json::field(rebuild_body_doc(backup_id, d), "actions_never"@) == Some(json::text_items(rebuild_never())),
        json::field(rebuild_body_doc(backup_id, d), "limits"@) == Some(limits_doc()),
{
    reveal_strlit("protocol");
    reveal_strlit("op");
    reveal_strlit("backup_id");
    reveal_strlit("decision");
    reveal_strlit("actions_if_applied");
    reveal_strlit("actions_never");
    reveal_strlit("limits");
    assert("protocol"@.len() == 8);
    assert("op"@.len() == 2);
    assert("backup_id"@.len() == 9);
    assert("decision"@.len() == 8);
    assert("actions_if_applied"@.len() == 18);
    assert("actions_never"@.len() == 13);
    assert("limits"@.len() == 6);
    assert("protocol"@[0] == 'p');
    assert("decision"@[0] == 'd');
    let f = rebuild_body_doc(backup_id, d)->Obj_0;
    json::field_is_first(f, "protocol"@, 0);
    json::field_is_first(f, "op"@, 1);
    json::field_is_first(f, "backup_id"@, 2);
    json::field_is_first(f, "decision"@, 3);
    json::field_is_first(f, "actions_if_applied"@, 4);
    json::field_is_first(f, "actions_never"@, 5);
    json::field_is_first(f, "limits"@, 6);
}

/// A preview of a rebuild tells the plan and the digests that it is applied under; nothing was applied.
pub proof fn rebuild_previews_are_told(operator: Seq<char>, plan: RebuildPlan, state_digest: Seq<char>, plan_digest: Seq<char>)
    ensures
        json::field(rebuild_preview_doc(operator, plan, state_digest, plan_digest), "protocol"@) == Some(JsonView::Str("awr-operator-enabled-backup-v1"@)),
        json::field(rebuild_preview_doc(operator, plan, state_digest, plan_digest), "applied"@) == Some(JsonView::Bool(false)),
        json::field(rebuild_preview_doc(operator, plan, state_digest, plan_digest), "operator_role"@) == Some(JsonView::Str(operator)),
        json::field(rebuild_preview_doc(operator, plan, state_digest, plan_digest), "state_digest"@) == Some(JsonView::Str(state_digest)),
        json::field(rebuild_preview_doc(operator, plan, state_digest, plan_digest), "plan_digest"@) == Some(JsonView::Str(plan_digest)),
        json::field(rebuild_preview_doc(operator, plan, state_digest, plan_digest), "state"@) == Some(plan.state.model()),
        json::field(rebuild_preview_doc(operator, plan, state_digest, plan_digest), "decision"@) == Some(rebuild_decision_doc(plan.decision)),
        json::field(rebuild_preview_doc(operator, plan, state_digest, plan_digest), "actions_if_applied"@) == Some(json::text_items(rebuild_actions())),
        json::field(rebuild_preview_doc(operator, plan, state_digest, plan_digest), "actions_never"@) == Some(json::text_items(rebuild_never())),
        json::field(rebuild_preview_doc(operator, plan, state_digest, plan_digest), "materialize"@) == Some(JsonView::Obj( json::no_fields().push( ( "target_ownership_digest"@, JsonView::Str(plan.target_ownership_digest@), ), ).push( ( "ownership_to_insert"@, ownership_doc(ownership_views(plan.ownership_to_insert@)), ), ).push( ( "work_items_to_insert"@, work_items_doc(work_views(plan.work_items_to_insert@)), ), ), )),
        json::field(rebuild_preview_doc(operator, plan, state_digest, plan_digest), "limits"@) == Some(limits_doc()),
        json::field(rebuild_preview_doc(operator, plan, state_digest, plan_digest), "next_action"@) == Some(JsonView::Str( if plan.decision.safe_to_apply { "Apply with exact state_digest and plan_digest after fencing quiet and inventory review."@ } else { "Resolve refusals (fence first / empty ownership / work coverage); do not apply."@ }, )),
{
    reveal_strlit("protocol");
    reveal_strlit("applied");
    reveal_strlit("operator_role");
    reveal_strlit("state_digest");
    reveal_strlit("plan_digest");
    reveal_strlit("state");
    reveal_strlit("decision");
    reveal_strlit("actions_if_applied");
    reveal_strlit("actions_never");
    reveal_strlit("materialize");
    reveal_strlit("limits");
    reveal_strlit("next_action");
    assert("protocol"@.len() == 8);
    assert("applied"@.len() == 7);
    assert("operator_role"@.len() == 13);
    assert("state_digest"@.len() == 12);
    assert("plan_digest"@.len() == 11);
    assert("state"@.len() == 5);
    assert("decision"@.len() == 8);
    assert("actions_if_applied"@.len() == 18);
    assert("actions_never"@.len() == 13);
    assert("materialize"@.len() == 11);
    assert("limits"@.len() == 6);
    assert("next_action"@.len() == 11);
    assert("protocol"@[0] == 'p');
    assert("decision"@[0] == 'd');
    assert("operator_role"@[0] == 'o');
    assert("actions_never"@[0] == 'a');
    assert("plan_digest"@[0] == 'p');
    assert("materialize"@[0] == 'm');
    assert("next_action"@[0] == 'n');
    let f = rebuild_preview_doc(operator, plan, state_digest, plan_digest)->Obj_0;
    json::field_is_first(f, "protocol"@, 0);
    json::field_is_first(f, "applied"@, 1);
    json::field_is_first(f, "operator_role"@, 2);
    json::field_is_first(f, "state_digest"@, 3);
    json::field_is_first(f, "plan_digest"@, 4);
    json::field_is_first(f, "state"@, 5);
    json::field_is_first(f, "decision"@, 6);
    json::field_is_first(f, "actions_if_applied"@, 7);
    json::field_is_first(f, "actions_never"@, 8);
    json::field_is_first(f, "materialize"@, 9);
    json::field_is_first(f, "limits"@, 10);
    json::field_is_first(f, "next_action"@, 11);
}

/// The report of a rebuild tells what was put in; nothing else was changed.
pub proof fn rebuild_reports_are_told(mode: Seq<char>, inserted_work: i64, inserted_ownership: i64, ownership_digest: Seq<char>)
    ensures
        json::field(rebuild_report_doc(mode, inserted_work, inserted_ownership, ownership_digest), "mode"@) == Some(JsonView::Str(mode)),
        json::field(rebuild_report_doc(mode, inserted_work, inserted_ownership, ownership_digest), "inserted_work_items"@) == Some(JsonView::Int(inserted_work as int)),
        json::field(rebuild_report_doc(mode, inserted_work, inserted_ownership, ownership_digest), "inserted_ownership_rows"@) == Some(JsonView::Int(inserted_ownership as int)),
        json::field(rebuild_report_doc(mode, inserted_work, inserted_ownership, ownership_digest), "ownership_digest"@) == Some(JsonView::Str(ownership_digest)),
        json::field(rebuild_report_doc(mode, inserted_work, inserted_ownership, ownership_digest), "completion_receipts_modified"@) == Some(JsonView::Bool(false)),
        json::field(rebuild_report_doc(mode, inserted_work, inserted_ownership, ownership_digest), "grants_modified"@) == Some(JsonView::Bool(false)),
        json::field(rebuild_report_doc(mode, inserted_work, inserted_ownership, ownership_digest), "actors_forged"@) == Some(JsonView::Bool(false)),
        json::field(rebuild_report_doc(mode, inserted_work, inserted_ownership, ownership_digest), "catalogs_rewritten"@) == Some(JsonView::Bool(false)),
        json::field(rebuild_report_doc(mode, inserted_work, inserted_ownership, ownership_digest), "contracts_rewritten"@) == Some(JsonView::Bool(false)),
{
    reveal_strlit("mode");
    reveal_strlit("inserted_work_items");
    reveal_strlit("inserted_ownership_rows");
    reveal_strlit("ownership_digest");
    reveal_strlit("completion_receipts_modified");
    reveal_strlit("grants_modified");
    reveal_strlit("actors_forged");
    reveal_strlit("catalogs_rewritten");
    reveal_strlit("contracts_rewritten");
    assert("mode"@.len() == 4);
    assert("inserted_work_items"@.len() == 19);
    assert("inserted_ownership_rows"@.len() == 23);
    assert("ownership_digest"@.len() == 16);
    assert("completion_receipts_modified"@.len() == 28);
    assert("grants_modified"@.len() == 15);
    assert("actors_forged"@.len() == 13);
    assert("catalogs_rewritten"@.len() == 18);
    assert("contracts_rewritten"@.len() == 19);
    assert("inserted_work_items"@[0] == 'i');
    assert("contracts_rewritten"@[0] == 'c');
    let f = rebuild_report_doc(mode, inserted_work, inserted_ownership, ownership_digest)->Obj_0;
    json::field_is_first(f, "mode"@, 0);
    json::field_is_first(f, "inserted_work_items"@, 1);
    json::field_is_first(f, "inserted_ownership_rows"@, 2);
    json::field_is_first(f, "ownership_digest"@, 3);
    json::field_is_first(f, "completion_receipts_modified"@, 4);
    json::field_is_first(f, "grants_modified"@, 5);
    json::field_is_first(f, "actors_forged"@, 6);
    json::field_is_first(f, "catalogs_rewritten"@, 7);
    json::field_is_first(f, "contracts_rewritten"@, 8);
}

/// The intent of a request is its project, its backup and what it expects, not its name.
pub proof fn backup_requests_are_told(q: ApplyRequest, op: Seq<char>)
    ensures
        json::field(intent_doc(q, op), "protocol"@) == Some(JsonView::Str("awr-operator-enabled-backup-v1"@)),
        json::field(intent_doc(q, op), "op"@) == Some(JsonView::Str(op)),
        json::field(intent_doc(q, op), "tenant_id"@) == Some(JsonView::Str(q.tenant@)),
        json::field(intent_doc(q, op), "project_id"@) == Some(JsonView::Str(q.project@)),
        json::field(intent_doc(q, op), "backup_id"@) == Some(JsonView::Str(q.backup_id@)),
        json::field(intent_doc(q, op), "expected_state"@) == Some(JsonView::Str(q.expected_state@)),
        json::field(intent_doc(q, op), "expected_plan"@) == Some(JsonView::Str(q.expected_plan@)),
{
    reveal_strlit("protocol");
    reveal_strlit("op");
    reveal_strlit("tenant_id");
    reveal_strlit("project_id");
    reveal_strlit("backup_id");
    reveal_strlit("expected_state");
    reveal_strlit("expected_plan");
    assert("protocol"@.len() == 8);
    assert("op"@.len() == 2);
    assert("tenant_id"@.len() == 9);
    assert("project_id"@.len() == 10);
    assert("backup_id"@.len() == 9);
    assert("expected_state"@.len() == 14);
    assert("expected_plan"@.len() == 13);
    assert("tenant_id"@[0] == 't');
    assert("backup_id"@[0] == 'b');
    let f = intent_doc(q, op)->Obj_0;
    json::field_is_first(f, "protocol"@, 0);
    json::field_is_first(f, "op"@, 1);
    json::field_is_first(f, "tenant_id"@, 2);
    json::field_is_first(f, "project_id"@, 3);
    json::field_is_first(f, "backup_id"@, 4);
    json::field_is_first(f, "expected_state"@, 5);
    json::field_is_first(f, "expected_plan"@, 6);
}

/// The receipt of a restore names the request and the restore, and tells what was done.
pub proof fn restore_receipts_are_told(q: ApplyRequest, op: Seq<char>, intent_hash: Seq<char>, operator: Seq<char>, restore_id: Seq<char>, revision: i64, report: JsonView)
    ensures
        json::field(receipt_doc(q, op, intent_hash, operator, Some(restore_id), revision, report), "protocol"@) == Some(JsonView::Str("awr-operator-enabled-backup-v1"@)),
        json::field(receipt_doc(q, op, intent_hash, operator, Some(restore_id), revision, report), "op"@) == Some(JsonView::Str(op)),
        json::field(receipt_doc(q, op, intent_hash, operator, Some(restore_id), revision, report), "request_id"@) == Some(JsonView::Str(q.request@)),
        json::field(receipt_doc(q, op, intent_hash, operator, Some(restore_id), revision, report), "request_hash"@) == Some(JsonView::Str(intent_hash)),
        json::field(receipt_doc(q, op, intent_hash, operator, Some(restore_id), revision, report), "operator_role"@) == Some(JsonView::Str(operator)),
        json::field(receipt_doc(q, op, intent_hash, operator, Some(restore_id), revision, report), "tenant_id"@) == Some(JsonView::Str(q.tenant@)),
        json::field(receipt_doc(q, op, intent_hash, operator, Some(restore_id), revision, report), "project_id"@) == Some(JsonView::Str(q.project@)),
        json::field(receipt_doc(q, op, intent_hash, operator, Some(restore_id), revision, report), "backup_id"@) == Some(JsonView::Str(q.backup_id@)),
        json::field(receipt_doc(q, op, intent_hash, operator, Some(restore_id), revision, report), "restore_id"@) == Some(JsonView::Str(restore_id)),
        json::field(receipt_doc(q, op, intent_hash, operator, Some(restore_id), revision, report), "state_digest"@) == Some(JsonView::Str(q.expected_state@)),
        json::field(receipt_doc(q, op, intent_hash, operator, Some(restore_id), revision, report), "plan_digest"@) == Some(JsonView::Str(q.expected_plan@)),
        json::field(receipt_doc(q, op, intent_hash, operator, Some(restore_id), revision, report), "project_revision"@) == Some(JsonView::Str(text::decimal_form(revision as int))),
        json::field(receipt_doc(q, op, intent_hash, operator, Some(restore_id), revision, report), "report"@) == Some(report),
        json::field(receipt_doc(q, op, intent_hash, operator, Some(restore_id), revision, report), "completion_receipts_modified"@) == Some(JsonView::Bool(false)),
        json::field(receipt_doc(q, op, intent_hash, operator, Some(restore_id), revision, report), "identity_forged"@) == Some(JsonView::Bool(false)),
        json::field(receipt_doc(q, op, intent_hash, operator, Some(restore_id), revision, report), "execution_authorized"@) == Some(JsonView::Bool(false)),
        json::field(receipt_doc(q, op, intent_hash, operator, Some(restore_id), revision, report), "automatic_resume"@) == Some(JsonView::Bool(false)),
{
    reveal_strlit("protocol");
    reveal_strlit("op");
    reveal_strlit("request_id");
    reveal_strlit("request_hash");
    reveal_strlit("operator_role");
    reveal_strlit("tenant_id");
    reveal_strlit("project_id");
    reveal_strlit("backup_id");
    reveal_strlit("restore_id");
    reveal_strlit("state_digest");
    reveal_strlit("plan_digest");
    reveal_strlit("project_revision");
    reveal_strlit("report");
    reveal_strlit("completion_receipts_modified");
    reveal_strlit("identity_forged");
    reveal_strlit("execution_authorized");
    reveal_strlit("automatic_resume");
    assert("protocol"@.len() == 8);
    assert("op"@.len() == 2);
    assert("request_id"@.len() == 10);
    assert("request_hash"@.len() == 12);
    assert("operator_role"@.len() == 13);
    assert("tenant_id"@.len() == 9);
    assert("project_id"@.len() == 10);
    assert("backup_id"@.len() == 9);
    assert("restore_id"@.len() == 10);
    assert("state_digest"@.len() == 12);
    assert("plan_digest"@.len() == 11);
    assert("project_revision"@.len() == 16);
    assert("report"@.len() == 6);
    assert("completion_receipts_modified"@.len() == 28);
    assert("identity_forged"@.len() == 15);
    assert("execution_authorized"@.len() == 20);
    assert("automatic_resume"@.len() == 16);
    assert("request_id"@[0] == 'r');
    assert("project_id"@[0] == 'p');
    assert("request_id"@[2] == 'q');
    assert("restore_id"@[2] == 's');
    assert("restore_id"@[0] == 'r');
    assert("request_hash"@[0] == 'r');
    assert("state_digest"@[0] == 's');
    assert("tenant_id"@[0] == 't');
    assert("backup_id"@[0] == 'b');
    assert("project_revision"@[0] == 'p');
    assert("automatic_resume"@[0] == 'a');
    let f = receipt_doc(q, op, intent_hash, operator, Some(restore_id), revision, report)->Obj_0;
    json::field_is_first(f, "protocol"@, 0);
    json::field_is_first(f, "op"@, 1);
    json::field_is_first(f, "request_id"@, 2);
    json::field_is_first(f, "request_hash"@, 3);
    json::field_is_first(f, "operator_role"@, 4);
    json::field_is_first(f, "tenant_id"@, 5);
    json::field_is_first(f, "project_id"@, 6);
    json::field_is_first(f, "backup_id"@, 7);
    json::field_is_first(f, "restore_id"@, 8);
    json::field_is_first(f, "state_digest"@, 9);
    json::field_is_first(f, "plan_digest"@, 10);
    json::field_is_first(f, "project_revision"@, 11);
    json::field_is_first(f, "report"@, 12);
    json::field_is_first(f, "completion_receipts_modified"@, 13);
    json::field_is_first(f, "identity_forged"@, 14);
    json::field_is_first(f, "execution_authorized"@, 15);
    json::field_is_first(f, "automatic_resume"@, 16);
}

/// The receipt of a rebuild names the request, and tells what was done.
pub proof fn rebuild_receipts_are_told(q: ApplyRequest, op: Seq<char>, intent_hash: Seq<char>, operator: Seq<char>, revision: i64, report: JsonView)
    ensures
        json::field(receipt_doc(q, op, intent_hash, operator, None, revision, report), "protocol"@) == Some(JsonView::Str("awr-operator-enabled-backup-v1"@)),
        json::field(receipt_doc(q, op, intent_hash, operator, None, revision, report), "op"@) == Some(JsonView::Str(op)),
        json::field(receipt_doc(q, op, intent_hash, operator, None, revision, report), "request_id"@) == Some(JsonView::Str(q.request@)),
        json::field(receipt_doc(q, op, intent_hash, operator, None, revision, report), "request_hash"@) == Some(JsonView::Str(intent_hash)),
        json::field(receipt_doc(q, op, intent_hash, operator, None, revision, report), "operator_role"@) == Some(JsonView::Str(operator)),
        json::field(receipt_doc(q, op, intent_hash, operator, None, revision, report), "tenant_id"@) == Some(JsonView::Str(q.tenant@)),
        json::field(receipt_doc(q, op, intent_hash, operator, None, revision, report), "project_id"@) == Some(JsonView::Str(q.project@)),
        json::field(receipt_doc(q, op, intent_hash, operator, None, revision, report), "backup_id"@) == Some(JsonView::Str(q.backup_id@)),
        json::field(receipt_doc(q, op, intent_hash, operator, None, revision, report), "state_digest"@) == Some(JsonView::Str(q.expected_state@)),
        json::field(receipt_doc(q, op, intent_hash, operator, None, revision, report), "plan_digest"@) == Some(JsonView::Str(q.expected_plan@)),
        json::field(receipt_doc(q, op, intent_hash, operator, None, revision, report), "project_revision"@) == Some(JsonView::Str(text::decimal_form(revision as int))),
        json::field(receipt_doc(q, op, intent_hash, operator, None, revision, report), "report"@) == Some(report),
        json::field(receipt_doc(q, op, intent_hash, operator, None, revision, report), "completion_receipts_modified"@) == Some(JsonView::Bool(false)),
        json::field(receipt_doc(q, op, intent_hash, operator, None, revision, report), "identity_forged"@) == Some(JsonView::Bool(false)),
        json::field(receipt_doc(q, op, intent_hash, operator, None, revision, report), "execution_authorized"@) == Some(JsonView::Bool(false)),
        json::field(receipt_doc(q, op, intent_hash, operator, None, revision, report), "automatic_resume"@) == Some(JsonView::Bool(false)),
{
    reveal_strlit("protocol");
    reveal_strlit("op");
    reveal_strlit("request_id");
    reveal_strlit("request_hash");
    reveal_strlit("operator_role");
    reveal_strlit("tenant_id");
    reveal_strlit("project_id");
    reveal_strlit("backup_id");
    reveal_strlit("state_digest");
    reveal_strlit("plan_digest");
    reveal_strlit("project_revision");
    reveal_strlit("report");
    reveal_strlit("completion_receipts_modified");
    reveal_strlit("identity_forged");
    reveal_strlit("execution_authorized");
    reveal_strlit("automatic_resume");
    assert("protocol"@.len() == 8);
    assert("op"@.len() == 2);
    assert("request_id"@.len() == 10);
    assert("request_hash"@.len() == 12);
    assert("operator_role"@.len() == 13);
    assert("tenant_id"@.len() == 9);
    assert("project_id"@.len() == 10);
    assert("backup_id"@.len() == 9);
    assert("state_digest"@.len() == 12);
    assert("plan_digest"@.len() == 11);
    assert("project_revision"@.len() == 16);
    assert("report"@.len() == 6);
    assert("completion_receipts_modified"@.len() == 28);
    assert("identity_forged"@.len() == 15);
    assert("execution_authorized"@.len() == 20);
    assert("automatic_resume"@.len() == 16);
    assert("request_id"@[0] == 'r');
    assert("project_id"@[0] == 'p');
    assert("request_hash"@[0] == 'r');
    assert("state_digest"@[0] == 's');
    assert("tenant_id"@[0] == 't');
    assert("backup_id"@[0] == 'b');
    assert("project_revision"@[0] == 'p');
    assert("automatic_resume"@[0] == 'a');
    let f = receipt_doc(q, op, intent_hash, operator, None, revision, report)->Obj_0;
    json::field_is_first(f, "protocol"@, 0);
    json::field_is_first(f, "op"@, 1);
    json::field_is_first(f, "request_id"@, 2);
    json::field_is_first(f, "request_hash"@, 3);
    json::field_is_first(f, "operator_role"@, 4);
    json::field_is_first(f, "tenant_id"@, 5);
    json::field_is_first(f, "project_id"@, 6);
    json::field_is_first(f, "backup_id"@, 7);
    json::field_is_first(f, "state_digest"@, 8);
    json::field_is_first(f, "plan_digest"@, 9);
    json::field_is_first(f, "project_revision"@, 10);
    json::field_is_first(f, "report"@, 11);
    json::field_is_first(f, "completion_receipts_modified"@, 12);
    json::field_is_first(f, "identity_forged"@, 13);
    json::field_is_first(f, "execution_authorized"@, 14);
    json::field_is_first(f, "automatic_resume"@, 15);
}

/// The state that a restore was planned for is that of the project and of the backup.
pub proof fn restore_states_are_told(tenant: Seq<char>, project: Seq<char>, backup_id: Seq<char>, manifest_hash: Seq<char>, state: RestoreState)
    ensures
        json::field(restore_state_doc(tenant, project, backup_id, manifest_hash, state), "tenant_id"@) == Some(JsonView::Str(tenant)),
        json::field(restore_state_doc(tenant, project, backup_id, manifest_hash, state), "project_id"@) == Some(JsonView::Str(project)),
        json::field(restore_state_doc(tenant, project, backup_id, manifest_hash, state), "backup_id"@) == Some(JsonView::Str(backup_id)),
        json::field(restore_state_doc(tenant, project, backup_id, manifest_hash, state), "backup_manifest_hash"@) == Some(JsonView::Str(manifest_hash)),
        json::field(restore_state_doc(tenant, project, backup_id, manifest_hash, state), "current_projection"@) == Some(JsonView::Obj( json::no_fields().push( ( "catalog_digest"@, json::opt_item(text::opt(state.current.catalog_digest)), ), ).push( ("ownership_digest"@, JsonView::Str(state.current.ownership_digest@)), ).push( ("coordinator_epoch"@, JsonView::Str(state.current.coordinator_epoch@)), ).push( ( "project_revision"@, JsonView::Str( text::decimal_form(state.current.project_revision as int), ), ), ), )),
        json::field(restore_state_doc(tenant, project, backup_id, manifest_hash, state), "current_completion_receipts_digest"@) == Some(JsonView::Str(state.receipts_digest@)),
        json::field(restore_state_doc(tenant, project, backup_id, manifest_hash, state), "current_logical_digest"@) == Some(JsonView::Str(state.logical_digest@)),
{
    reveal_strlit("tenant_id");
    reveal_strlit("project_id");
    reveal_strlit("backup_id");
    reveal_strlit("backup_manifest_hash");
    reveal_strlit("current_projection");
    reveal_strlit("current_completion_receipts_digest");
    reveal_strlit("current_logical_digest");
    assert("tenant_id"@.len() == 9);
    assert("project_id"@.len() == 10);
    assert("backup_id"@.len() == 9);
    assert("backup_manifest_hash"@.len() == 20);
    assert("current_projection"@.len() == 18);
    assert("current_completion_receipts_digest"@.len() == 34);
    assert("current_logical_digest"@.len() == 22);
    assert("tenant_id"@[0] == 't');
    assert("backup_id"@[0] == 'b');
    let f = restore_state_doc(tenant, project, backup_id, manifest_hash, state)->Obj_0;
    json::field_is_first(f, "tenant_id"@, 0);
    json::field_is_first(f, "project_id"@, 1);
    json::field_is_first(f, "backup_id"@, 2);
    json::field_is_first(f, "backup_manifest_hash"@, 3);
    json::field_is_first(f, "current_projection"@, 4);
    json::field_is_first(f, "current_completion_receipts_digest"@, 5);
    json::field_is_first(f, "current_logical_digest"@, 6);
}

/// The decision on a restore is told with its reasons.
pub proof fn restore_decisions_are_told(d: RestoreDecision)
    ensures
        json::field(restore_decision_doc(d), "safe_to_apply"@) == Some(JsonView::Bool(d.safe_to_apply)),
        json::field(restore_decision_doc(d), "mode"@) == Some(JsonView::Str(d.mode@)),
        json::field(restore_decision_doc(d), "refusals"@) == Some(json::text_items(operator_request::names(d.refusals@))),
{
    reveal_strlit("safe_to_apply");
    reveal_strlit("mode");
    reveal_strlit("refusals");
    assert("safe_to_apply"@.len() == 13);
    assert("mode"@.len() == 4);
    assert("refusals"@.len() == 8);
    let f = restore_decision_doc(d)->Obj_0;
    json::field_is_first(f, "safe_to_apply"@, 0);
    json::field_is_first(f, "mode"@, 1);
    json::field_is_first(f, "refusals"@, 2);
}

/// A plan for a restore tells its backup, its decision and its limits.
pub proof fn restore_plans_are_told(backup_id: Seq<char>, d: RestoreDecision)
    ensures
        json::field(restore_body_doc(backup_id, d), "protocol"@) == Some(JsonView::Str("awr-operator-enabled-backup-v1"@)),
        json::field(restore_body_doc(backup_id, d), "op"@) == Some(JsonView::Str("restore.preview"@)),
        json::field(restore_body_doc(backup_id, d), "backup_id"@) == Some(JsonView::Str(backup_id)),
        json::field(restore_body_doc(backup_id, d), "decision"@) == Some(restore_decision_doc(d)),
        json::field(restore_body_doc(backup_id, d), "actions_if_applied"@) == Some(json::text_items(restore_actions())),
        json::field(restore_body_doc(backup_id, d), "actions_never"@) == Some(json::text_items(restore_never())),
        json::field(restore_body_doc(backup_id, d), "limits"@) == Some(limits_doc()),
{
    reveal_strlit("protocol");
    reveal_strlit("op");
    reveal_strlit("backup_id");
    reveal_strlit("decision");
    reveal_strlit("actions_if_applied");
    reveal_strlit("actions_never");
    reveal_strlit("limits");
    assert("protocol"@.len() == 8);
    assert("op"@.len() == 2);
    assert("backup_id"@.len() == 9);
    assert("decision"@.len() == 8);
    assert("actions_if_applied"@.len() == 18);
    assert("actions_never"@.len() == 13);
    assert("limits"@.len() == 6);
    assert("protocol"@[0] == 'p');
    assert("decision"@[0] == 'd');
    let f = restore_body_doc(backup_id, d)->Obj_0;
    json::field_is_first(f, "protocol"@, 0);
    json::field_is_first(f, "op"@, 1);
    json::field_is_first(f, "backup_id"@, 2);
    json::field_is_first(f, "decision"@, 3);
    json::field_is_first(f, "actions_if_applied"@, 4);
    json::field_is_first(f, "actions_never"@, 5);
    json::field_is_first(f, "limits"@, 6);
}

/// A preview of a restore tells the plan and the digests that it is applied under; nothing was applied.
pub proof fn restore_previews_are_told(operator: Seq<char>, plan: RestorePlan, state_digest: Seq<char>, plan_digest: Seq<char>)
    ensures
        json::field(restore_preview_doc(operator, plan, state_digest, plan_digest), "protocol"@) == Some(JsonView::Str("awr-operator-enabled-backup-v1"@)),
        json::field(restore_preview_doc(operator, plan, state_digest, plan_digest), "applied"@) == Some(JsonView::Bool(false)),
        json::field(restore_preview_doc(operator, plan, state_digest, plan_digest), "operator_role"@) == Some(JsonView::Str(operator)),
        json::field(restore_preview_doc(operator, plan, state_digest, plan_digest), "state_digest"@) == Some(JsonView::Str(state_digest)),
        json::field(restore_preview_doc(operator, plan, state_digest, plan_digest), "plan_digest"@) == Some(JsonView::Str(plan_digest)),
        json::field(restore_preview_doc(operator, plan, state_digest, plan_digest), "state"@) == Some(plan.state.model()),
        json::field(restore_preview_doc(operator, plan, state_digest, plan_digest), "decision"@) == Some(restore_decision_doc(plan.decision)),
        json::field(restore_preview_doc(operator, plan, state_digest, plan_digest), "actions_if_applied"@) == Some(json::text_items(restore_actions())),
        json::field(restore_preview_doc(operator, plan, state_digest, plan_digest), "actions_never"@) == Some(json::text_items(restore_never())),
        json::field(restore_preview_doc(operator, plan, state_digest, plan_digest), "limits"@) == Some(limits_doc()),
        json::field(restore_preview_doc(operator, plan, state_digest, plan_digest), "next_action"@) == Some(JsonView::Str( if plan.decision.safe_to_apply { "Apply with exact state_digest and plan_digest after physical restore matches this inventory."@ } else { "Resolve refusals (projection/receipts/inventory/history); do not apply."@ }, )),
{
    reveal_strlit("protocol");
    reveal_strlit("applied");
    reveal_strlit("operator_role");
    reveal_strlit("state_digest");
    reveal_strlit("plan_digest");
    reveal_strlit("state");
    reveal_strlit("decision");
    reveal_strlit("actions_if_applied");
    reveal_strlit("actions_never");
    reveal_strlit("limits");
    reveal_strlit("next_action");
    assert("protocol"@.len() == 8);
    assert("applied"@.len() == 7);
    assert("operator_role"@.len() == 13);
    assert("state_digest"@.len() == 12);
    assert("plan_digest"@.len() == 11);
    assert("state"@.len() == 5);
    assert("decision"@.len() == 8);
    assert("actions_if_applied"@.len() == 18);
    assert("actions_never"@.len() == 13);
    assert("limits"@.len() == 6);
    assert("next_action"@.len() == 11);
    assert("protocol"@[0] == 'p');
    assert("decision"@[0] == 'd');
    assert("operator_role"@[0] == 'o');
    assert("actions_never"@[0] == 'a');
    assert("plan_digest"@[0] == 'p');
    assert("next_action"@[0] == 'n');
    let f = restore_preview_doc(operator, plan, state_digest, plan_digest)->Obj_0;
    json::field_is_first(f, "protocol"@, 0);
    json::field_is_first(f, "applied"@, 1);
    json::field_is_first(f, "operator_role"@, 2);
    json::field_is_first(f, "state_digest"@, 3);
    json::field_is_first(f, "plan_digest"@, 4);
    json::field_is_first(f, "state"@, 5);
    json::field_is_first(f, "decision"@, 6);
    json::field_is_first(f, "actions_if_applied"@, 7);
    json::field_is_first(f, "actions_never"@, 8);
    json::field_is_first(f, "limits"@, 9);
    json::field_is_first(f, "next_action"@, 10);
}

/// A barrier is told with the epoch, the work and its fence.
pub proof fn barriers_are_told(epoch: Seq<char>, scope_id: Seq<char>, work_id: Seq<char>, fence: Seq<char>)
    ensures
        json::field(barrier_doc(epoch, scope_id, work_id, fence), "coordinator_epoch"@) == Some(JsonView::Str(epoch)),
        json::field(barrier_doc(epoch, scope_id, work_id, fence), "scope_id"@) == Some(JsonView::Str(scope_id)),
        json::field(barrier_doc(epoch, scope_id, work_id, fence), "work_id"@) == Some(JsonView::Str(work_id)),
        json::field(barrier_doc(epoch, scope_id, work_id, fence), "fence"@) == Some(JsonView::Str(fence)),
{
    reveal_strlit("coordinator_epoch");
    reveal_strlit("scope_id");
    reveal_strlit("work_id");
    reveal_strlit("fence");
    assert("coordinator_epoch"@.len() == 17);
    assert("scope_id"@.len() == 8);
    assert("work_id"@.len() == 7);
    assert("fence"@.len() == 5);
    let f = barrier_doc(epoch, scope_id, work_id, fence)->Obj_0;
    json::field_is_first(f, "coordinator_epoch"@, 0);
    json::field_is_first(f, "scope_id"@, 1);
    json::field_is_first(f, "work_id"@, 2);
    json::field_is_first(f, "fence"@, 3);
}

/// The report of a restore tells both epochs and the barriers; no receipt was changed and nothing was replayed.
pub proof fn restore_reports_are_told(old_epoch: Seq<char>, new_epoch: Seq<char>, fences: Seq<FenceRow>)
    ensures
        json::field(restore_report_doc(old_epoch, new_epoch, fences), "old_epoch"@) == Some(JsonView::Str(old_epoch)),
        json::field(restore_report_doc(old_epoch, new_epoch, fences), "new_epoch"@) == Some(JsonView::Str(new_epoch)),
        json::field(restore_report_doc(old_epoch, new_epoch, fences), "inventory_verified"@) == Some(JsonView::Bool(true)),
        json::field(restore_report_doc(old_epoch, new_epoch, fences), "execution_recovery_required"@) == Some(JsonView::Bool(true)),
        json::field(restore_report_doc(old_epoch, new_epoch, fences), "completion_receipts_modified"@) == Some(JsonView::Bool(false)),
        json::field(restore_report_doc(old_epoch, new_epoch, fences), "credentials_revoked"@) == Some(JsonView::Bool(false)),
        json::field(restore_report_doc(old_epoch, new_epoch, fences), "outbox_replayed"@) == Some(JsonView::Bool(false)),
        json::field(restore_report_doc(old_epoch, new_epoch, fences), "fencing_barriers"@) == Some(JsonView::Arr(barriers(new_epoch, fences))),
        json::field(restore_report_doc(old_epoch, new_epoch, fences), "mode"@) == Some(JsonView::Str("verified_fencing"@)),
{
    reveal_strlit("old_epoch");
    reveal_strlit("new_epoch");
    reveal_strlit("inventory_verified");
    reveal_strlit("execution_recovery_required");
    reveal_strlit("completion_receipts_modified");
    reveal_strlit("credentials_revoked");
    reveal_strlit("outbox_replayed");
    reveal_strlit("fencing_barriers");
    reveal_strlit("mode");
    assert("old_epoch"@.len() == 9);
    assert("new_epoch"@.len() == 9);
    assert("inventory_verified"@.len() == 18);
    assert("execution_recovery_required"@.len() == 27);
    assert("completion_receipts_modified"@.len() == 28);
    assert("credentials_revoked"@.len() == 19);
    assert("outbox_replayed"@.len() == 15);
    assert("fencing_barriers"@.len() == 16);
    assert("mode"@.len() == 4);
    assert("old_epoch"@[0] == 'o');
    assert("new_epoch"@[0] == 'n');
    let f = restore_report_doc(old_epoch, new_epoch, fences)->Obj_0;
    json::field_is_first(f, "old_epoch"@, 0);
    json::field_is_first(f, "new_epoch"@, 1);
    json::field_is_first(f, "inventory_verified"@, 2);
    json::field_is_first(f, "execution_recovery_required"@, 3);
    json::field_is_first(f, "completion_receipts_modified"@, 4);
    json::field_is_first(f, "credentials_revoked"@, 5);
    json::field_is_first(f, "outbox_replayed"@, 6);
    json::field_is_first(f, "fencing_barriers"@, 7);
    json::field_is_first(f, "mode"@, 8);
}

/// A manifest tells the project as it was when the backup was made.
pub proof fn manifests_are_told(tenant: Seq<char>, project: Seq<char>, operator: Seq<char>, projection: Projection, logical: JsonView, work_items: Seq<WorkItem>, work_digest: Seq<char>, receipts: JsonView)
    ensures
        json::field(manifest_doc(tenant, project, operator, projection, logical, work_items, work_digest, receipts), "format"@) == Some(JsonView::Str("awr-team-enabled-backup-v1"@)),
        json::field(manifest_doc(tenant, project, operator, projection, logical, work_items, work_digest, receipts), "protocol"@) == Some(JsonView::Str("awr-operator-enabled-backup-v1"@)),
        json::field(manifest_doc(tenant, project, operator, projection, logical, work_items, work_digest, receipts), "protocol_version"@) == Some(JsonView::Int(1)),
        json::field(manifest_doc(tenant, project, operator, projection, logical, work_items, work_digest, receipts), "schema_version"@) == Some(JsonView::Int(6)),
        json::field(manifest_doc(tenant, project, operator, projection, logical, work_items, work_digest, receipts), "tenant_id"@) == Some(JsonView::Str(tenant)),
        json::field(manifest_doc(tenant, project, operator, projection, logical, work_items, work_digest, receipts), "project_id"@) == Some(JsonView::Str(project)),
        json::field(manifest_doc(tenant, project, operator, projection, logical, work_items, work_digest, receipts), "epoch"@) == Some(JsonView::Str(projection.coordinator_epoch@)),
        json::field(manifest_doc(tenant, project, operator, projection, logical, work_items, work_digest, receipts), "workstreams_enabled"@) == Some(JsonView::Bool(true)),
        json::field(manifest_doc(tenant, project, operator, projection, logical, work_items, work_digest, receipts), "projection"@) == Some(projection_doc(projection)),
        json::field(manifest_doc(tenant, project, operator, projection, logical, work_items, work_digest, receipts), "logical"@) == Some(logical),
        json::field(manifest_doc(tenant, project, operator, projection, logical, work_items, work_digest, receipts), "work_inventory"@) == Some(inventory_doc(work_items_doc(work_views(work_items)), work_digest)),
        json::field(manifest_doc(tenant, project, operator, projection, logical, work_items, work_digest, receipts), "rebuildable"@) == Some(JsonView::Obj( json::no_fields().push( ( "subset"@, JsonView::Str("work_inventory_and_ownership_when_empty_v1"@), ), ).push( ("ownership"@, ownership_doc(ownership_views(projection.ownership@))), ).push( ("ownership_digest"@, JsonView::Str(projection.ownership_digest@)), ).push(("work_inventory"@, work_items_doc(work_views(work_items)))).push( ("work_inventory_digest"@, JsonView::Str(work_digest)), ), )),
        json::field(manifest_doc(tenant, project, operator, projection, logical, work_items, work_digest, receipts), "completion_receipts"@) == Some(receipts),
        json::field(manifest_doc(tenant, project, operator, projection, logical, work_items, work_digest, receipts), "limits"@) == Some(limits_doc()),
        json::field(manifest_doc(tenant, project, operator, projection, logical, work_items, work_digest, receipts), "operator_role"@) == Some(JsonView::Str(operator)),
{
    reveal_strlit("format");
    reveal_strlit("protocol");
    reveal_strlit("protocol_version");
    reveal_strlit("schema_version");
    reveal_strlit("tenant_id");
    reveal_strlit("project_id");
    reveal_strlit("epoch");
    reveal_strlit("workstreams_enabled");
    reveal_strlit("projection");
    reveal_strlit("logical");
    reveal_strlit("work_inventory");
    reveal_strlit("rebuildable");
    reveal_strlit("completion_receipts");
    reveal_strlit("limits");
    reveal_strlit("operator_role");
    assert("format"@.len() == 6);
    assert("protocol"@.len() == 8);
    assert("protocol_version"@.len() == 16);
    assert("schema_version"@.len() == 14);
    assert("tenant_id"@.len() == 9);
    assert("project_id"@.len() == 10);
    assert("epoch"@.len() == 5);
    assert("workstreams_enabled"@.len() == 19);
    assert("projection"@.len() == 10);
    assert("logical"@.len() == 7);
    assert("work_inventory"@.len() == 14);
    assert("rebuildable"@.len() == 11);
    assert("completion_receipts"@.len() == 19);
    assert("limits"@.len() == 6);
    assert("operator_role"@.len() == 13);
    assert("format"@[0] == 'f');
    assert("limits"@[0] == 'l');
    assert("schema_version"@[0] == 's');
    assert("work_inventory"@[0] == 'w');
    assert("project_id"@[7] == '_');
    assert("projection"@[7] == 'i');
    assert("workstreams_enabled"@[0] == 'w');
    assert("completion_receipts"@[0] == 'c');
    let f = manifest_doc(tenant, project, operator, projection, logical, work_items, work_digest, receipts)->Obj_0;
    json::field_is_first(f, "format"@, 0);
    json::field_is_first(f, "protocol"@, 1);
    json::field_is_first(f, "protocol_version"@, 2);
    json::field_is_first(f, "schema_version"@, 3);
    json::field_is_first(f, "tenant_id"@, 4);
    json::field_is_first(f, "project_id"@, 5);
    json::field_is_first(f, "epoch"@, 6);
    json::field_is_first(f, "workstreams_enabled"@, 7);
    json::field_is_first(f, "projection"@, 8);
    json::field_is_first(f, "logical"@, 9);
    json::field_is_first(f, "work_inventory"@, 10);
    json::field_is_first(f, "rebuildable"@, 11);
    json::field_is_first(f, "completion_receipts"@, 12);
    json::field_is_first(f, "limits"@, 13);
    json::field_is_first(f, "operator_role"@, 14);
}

/// The answer to a backup names it and its digest.
pub proof fn backup_answers_are_told(backup_id: Seq<char>, manifest_hash: Seq<char>, epoch: Seq<char>)
    ensures
        json::field(backup_answer_doc(backup_id, manifest_hash, epoch), "protocol"@) == Some(JsonView::Str("awr-operator-enabled-backup-v1"@)),
        json::field(backup_answer_doc(backup_id, manifest_hash, epoch), "backup_id"@) == Some(JsonView::Str(backup_id)),
        json::field(backup_answer_doc(backup_id, manifest_hash, epoch), "manifest_hash"@) == Some(JsonView::Str(manifest_hash)),
        json::field(backup_answer_doc(backup_id, manifest_hash, epoch), "coordinator_epoch"@) == Some(JsonView::Str(epoch)),
        json::field(backup_answer_doc(backup_id, manifest_hash, epoch), "schema_version"@) == Some(JsonView::Int(6)),
        json::field(backup_answer_doc(backup_id, manifest_hash, epoch), "workstreams_enabled"@) == Some(JsonView::Bool(true)),
        json::field(backup_answer_doc(backup_id, manifest_hash, epoch), "limits"@) == Some(limits_doc()),
        json::field(backup_answer_doc(backup_id, manifest_hash, epoch), "next_action"@) == Some(JsonView::Str( "Retain an external physical basebackup bound to this manifest_hash before restore-preview."@, )),
{
    reveal_strlit("protocol");
    reveal_strlit("backup_id");
    reveal_strlit("manifest_hash");
    reveal_strlit("coordinator_epoch");
    reveal_strlit("schema_version");
    reveal_strlit("workstreams_enabled");
    reveal_strlit("limits");
    reveal_strlit("next_action");
    assert("protocol"@.len() == 8);
    assert("backup_id"@.len() == 9);
    assert("manifest_hash"@.len() == 13);
    assert("coordinator_epoch"@.len() == 17);
    assert("schema_version"@.len() == 14);
    assert("workstreams_enabled"@.len() == 19);
    assert("limits"@.len() == 6);
    assert("next_action"@.len() == 11);
    let f = backup_answer_doc(backup_id, manifest_hash, epoch)->Obj_0;
    json::field_is_first(f, "protocol"@, 0);
    json::field_is_first(f, "backup_id"@, 1);
    json::field_is_first(f, "manifest_hash"@, 2);
    json::field_is_first(f, "coordinator_epoch"@, 3);
    json::field_is_first(f, "schema_version"@, 4);
    json::field_is_first(f, "workstreams_enabled"@, 5);
    json::field_is_first(f, "limits"@, 6);
    json::field_is_first(f, "next_action"@, 7);
}

/// A request that is not well formed is told as such.
pub proof fn malformed_requests_are_told()
    ensures
        invalid_request() == Fault::Protocol("invalid operator enabled-project backup/restore request"@),
{
}

} // verus!
