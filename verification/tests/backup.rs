use awr_team_pg::operator_backup::{
    admit_apply, admit_names, artifacts_present, backup_limits_document, build_rebuild_plan,
    build_restore_plan, completion_document, intent_document, inventory_document,
    logical_document, logical_items_document, open_backup, ownership_document,
    parse_manifest_ownership, plan_rebuild, plan_restore, ApplyRequest, ArtifactRow, BackupRow,
    CompletionRow, FenceRow, OperatorBackup, OwnershipRow, Projection, RebuildState, RestoreState,
    SourceRow, WorkItem, BACKUP_FORMAT,
};
use awr_team_pg::error::PgError;
use awr_team_pg::json;
use awr_team_pg::json::{Doc, Json};

fn flag(doc: &Json, key: &str) -> bool {
    doc.get_bool(key).unwrap()
}

#[test]
fn verified_fencing_requires_all_digests_and_artifacts() {
    let ok = plan_restore(BACKUP_FORMAT, true, true, true, true, true, false, false);
    assert!(ok.safe_to_apply);
    assert_eq!(ok.mode, "verified_fencing");
}

#[test]
fn completion_divergence_and_outbox_replay_are_refused() {
    let d = plan_restore(BACKUP_FORMAT, true, true, false, true, true, false, true);
    assert!(!d.safe_to_apply);
    assert!(
        d.refusals
            .contains(&"completion_receipt_divergence_refuses_rewrite")
    );
    assert!(d.refusals.contains(&"outbox_replay_forbidden"));
}

#[test]
fn workstream_drift_and_unattributed_history_block_apply() {
    let d = plan_restore(BACKUP_FORMAT, true, false, true, true, true, true, false);
    assert!(!d.safe_to_apply);
    assert!(d.refusals.contains(&"workstream_projection_drift"));
    assert!(d.refusals.contains(&"unattributed_history_present"));
}

#[test]
fn limits_document_rejects_acl_masquerade_and_receipt_rewrite() {
    let limits = backup_limits_document();
    assert_eq!(flag(&limits, "rewrites_completion_receipts"), false);
    assert_eq!(flag(&limits, "forges_credentials_or_grants"), false);
    assert_eq!(
        limits.get_str("local_file_access"),
        Some("not_server_acl_or_confidentiality_sandbox")
    );
    assert_eq!(
        limits.get_str("legacy_import_store"),
        Some("refuses_enabled_workstream_projects")
    );
    assert_eq!(flag(&limits, "restores_table_rows_from_manifest"), false);
    let rebuild = limits.get("rebuild_from_manifest").unwrap();
    assert_eq!(
        rebuild.get_str("subset"),
        Some("work_inventory_and_ownership_when_empty_v1")
    );
    assert_eq!(flag(rebuild, "dangerous_overwrite"), false);
    assert_eq!(flag(rebuild, "completion_receipts"), false);
    assert_eq!(flag(rebuild, "grants_or_actors"), false);
}

#[test]
fn rebuild_materializes_when_fenced_and_ownership_empty() {
    let d = plan_rebuild(
        BACKUP_FORMAT,
        true,
        true,
        true,
        true,
        false,
        false,
        false,
        false,
        false,
        false,
        2,
        1,
    );
    assert!(d.safe_to_apply);
    assert_eq!(d.mode, "ownership_materialize");
    assert_eq!(d.insert_ownership, 2);
    assert_eq!(d.insert_work_items, 1);
}

#[test]
fn rebuild_is_idempotent_when_ownership_digest_already_matches() {
    let d = plan_rebuild(
        BACKUP_FORMAT,
        true,
        true,
        true,
        false,
        true,
        false,
        false,
        false,
        false,
        false,
        3,
        0,
    );
    assert!(d.safe_to_apply);
    assert_eq!(d.mode, "already_materialized");
    assert_eq!(d.insert_ownership, 0);
}

#[test]
fn rebuild_refuses_dangerous_overwrite_and_live_activity() {
    let d = plan_rebuild(
        BACKUP_FORMAT,
        true,
        true,
        true,
        false,
        false,
        false,
        true,
        true,
        true,
        false,
        2,
        0,
    );
    assert!(!d.safe_to_apply);
    assert!(d.refusals.contains(&"dangerous_ownership_overwrite"));
    assert!(d.refusals.contains(&"active_claims_present"));
    assert!(d.refusals.contains(&"active_sessions_present"));
    assert!(d.refusals.contains(&"live_executions_present_fence_first"));
}

#[test]
fn rebuild_refuses_missing_work_coverage_and_key_conflicts() {
    let d = plan_rebuild(
        BACKUP_FORMAT,
        true,
        true,
        false,
        true,
        false,
        true,
        false,
        false,
        false,
        false,
        1,
        0,
    );
    assert!(!d.safe_to_apply);
    assert!(d.refusals.contains(&"work_items_missing_for_ownership"));
    assert!(d.refusals.contains(&"work_item_external_key_conflict"));
}

#[test]
fn restores_name_every_reason_against_them() {
    let d = plan_restore("other", false, true, true, false, false, false, false);
    assert_eq!(d.mode, "refused");
    assert_eq!(
        d.refusals,
        vec![
            "unsupported_backup_format",
            "schema_version_mismatch",
            "physical_or_logical_artifacts_missing",
            "logical_inventory_mismatch"
        ]
    );
}

fn owned(work: &str, version: &str) -> Json {
    Doc::new()
        .put("work_id", json::text(work))
        .put("workstream_id", json::text("ws"))
        .put("ownership_version", json::text(version))
        .json()
}

fn manifest(outer: &str, rows: Vec<Json>) -> Json {
    let inner = Doc::new().put("ownership", Json::Arr(rows)).json();
    Doc::new().put(outer, inner).json()
}

#[test]
fn manifests_give_their_ownership_sorted() {
    let empty = Doc::new().put("format", json::text("x")).json();
    assert!(parse_manifest_ownership(&empty).unwrap().is_empty());
    for outer in ["projection", "rebuildable"] {
        let m = manifest(outer, vec![owned("w2", "1"), owned("w1", "3")]);
        let rows = parse_manifest_ownership(&m).unwrap();
        assert_eq!(rows.len(), 2);
        assert_eq!(rows[0].work_id, "w1");
        assert_eq!(rows[1].work_id, "w2");
    }
}

#[test]
fn ownership_that_is_not_well_formed_is_refused() {
    for row in [owned("", "1"), owned("w", "0"), owned("w", "x"), json::null()] {
        assert!(matches!(
            parse_manifest_ownership(&manifest("projection", vec![row])),
            Err(PgError::RestoreIncomplete)
        ));
    }
}

#[test]
fn ownership_is_written_row_by_row() {
    let rows = vec![OwnershipRow::new("w1", "ws-1", 2), OwnershipRow::new("w2", "ws-2", 1)];
    let doc = ownership_document(&rows);
    match doc {
        Json::Arr(items) => {
            assert_eq!(items.len(), 2);
            assert_eq!(items[0].get_str("work_id"), Some("w1"));
            assert_eq!(items[1].get_str("workstream_id"), Some("ws-2"));
        }
        _ => panic!("not a list"),
    }
}

fn projection(ownership: Vec<OwnershipRow>, ownership_digest: &str) -> Projection {
    Projection {
        project_status: "active".into(),
        coordinator_epoch: "epoch-1".into(),
        project_revision: 4,
        source_snapshot_id: Some("snap-1".into()),
        catalog_digest: Some("catalog".into()),
        ownership,
        ownership_digest: ownership_digest.into(),
        unattributed_history: false,
    }
}

fn sources() -> Vec<SourceRow> {
    vec![SourceRow { id: "s1".into(), manifest_digest: "m1".into(), parser_version: "p1".into() }]
}

fn artifact(state: &str, present: bool) -> ArtifactRow {
    ArtifactRow {
        id: "a1".into(),
        sha256: "d1".into(),
        byte_length: 9,
        state: state.into(),
        bytes_present: present,
    }
}

fn item(work: &str, key: &str) -> WorkItem {
    WorkItem { work_id: work.into(), external_key: key.into() }
}

/// The manifest of a project with one owned work.
fn taken() -> Json {
    let receipts = completion_document(&[CompletionRow {
        id: "c1".into(),
        work_id: "w1".into(),
        contract_hash: "h1".into(),
        result_digest: "r1".into(),
    }]);
    OperatorBackup::backup(
        "t",
        "p",
        "owner",
        &projection(vec![OwnershipRow::new("w1", "ws-1", 3)], "own"),
        logical_document(&sources(), &[artifact("finalized", true)], "logical"),
        &[item("w1", "W-1")],
        "works",
        inventory_document(receipts, "receipts"),
    )
}

fn apply_request(state: &str, plan: &str) -> ApplyRequest {
    ApplyRequest {
        tenant: "t".into(),
        project: "p".into(),
        backup_id: "b1".into(),
        request: "r1".into(),
        expected_state: state.into(),
        expected_plan: plan.into(),
    }
}

fn restore_state(ownership_digest: &str, receipts: &str, logical: &str) -> RestoreState {
    RestoreState {
        current: projection(vec![], ownership_digest),
        receipts_digest: receipts.into(),
        logical_digest: logical.into(),
        artifacts_present: true,
    }
}

fn rebuild_state(ownership: Vec<OwnershipRow>, digest: &str, works: Vec<WorkItem>) -> RebuildState {
    RebuildState {
        rows_digest: "own".into(),
        current: projection(ownership, digest),
        current_work: works,
        current_work_digest: "now".into(),
        active_claims: false,
        active_sessions: false,
        live_executions: false,
    }
}

#[test]
fn only_an_active_project_with_attributed_history_is_backed_up() {
    assert!(OperatorBackup::admit_backup(&projection(vec![], "own")).is_ok());
    let mut frozen = projection(vec![], "own");
    frozen.project_status = "frozen".into();
    assert!(matches!(OperatorBackup::admit_backup(&frozen), Err(PgError::ProjectNotAvailable)));
    let mut loose = projection(vec![], "own");
    loose.unattributed_history = true;
    match OperatorBackup::admit_backup(&loose) {
        Err(PgError::Unsupported(m)) => assert_eq!(
            m,
            "unattributed history must be migrated before enabled-project backup"
        ),
        other => panic!("{other:?}"),
    }
}

#[test]
fn a_manifest_holds_what_a_rebuild_needs() {
    let m = taken();
    assert_eq!(m.get_str("format"), Some(BACKUP_FORMAT));
    assert_eq!(m.get_str("epoch"), Some("epoch-1"));
    assert_eq!(m.get_i64("schema_version"), Some(6));
    let rows = parse_manifest_ownership(&m).unwrap();
    assert_eq!(rows.len(), 1);
    assert_eq!(rows[0].ownership_version, "3");
    let inventory = m.get("work_inventory").unwrap();
    assert_eq!(inventory.get_str("digest"), Some("works"));
    assert_eq!(inventory.get_list("items").unwrap().len(), 1);
    assert_eq!(m.get("completion_receipts").unwrap().get_str("digest"), Some("receipts"));
    let logical = m.get("logical").unwrap();
    assert_eq!(logical.get_list("source_digests"), Some(&vec![json::text("m1")]));
    assert_eq!(logical.get_list("artifact_digests"), Some(&vec![json::text("d1")]));
    assert_eq!(logical.get_bool("artifacts_present"), Some(true));
    let told = OperatorBackup::backup_stored("b1", "hash", "epoch-1", "owner");
    assert_eq!(told.event.get_str("manifest_hash"), Some("hash"));
    assert_eq!(told.answer.get_str("backup_id"), Some("b1"));
}

#[test]
fn an_artifact_counts_only_with_its_bytes_and_in_a_final_state() {
    assert!(artifacts_present(&[]));
    assert!(artifacts_present(&[artifact("finalized", true), artifact("retained", true)]));
    assert!(!artifacts_present(&[artifact("finalized", true), artifact("missing", true)]));
    assert!(!artifacts_present(&[artifact("retained", false)]));
    let items = logical_items_document(&sources(), &[]);
    assert_eq!(items.get_list("sources").unwrap().len(), 1);
    assert_eq!(items.get_list("artifacts").unwrap().len(), 0);
}

#[test]
fn a_backup_opens_only_with_the_digest_it_was_stored_under() {
    let row = |manifest: Option<Json>| {
        Some(BackupRow { manifest_hash: "hash".into(), schema_version: 6, manifest })
    };
    assert!(open_backup(row(Some(taken())), "hash").is_ok());
    assert!(matches!(open_backup(row(Some(taken())), "other"), Err(PgError::RestoreIncomplete)));
    assert!(matches!(open_backup(row(None), "hash"), Err(PgError::RestoreIncomplete)));
    assert!(matches!(open_backup(None, "hash"), Err(PgError::RestoreIncomplete)));
    let seen = OperatorBackup::inspect("b1", row(None).map(|r| (r, "epoch-1".to_string()))).unwrap();
    assert_eq!(seen.get_bool("read_only"), Some(true));
    assert_eq!(seen.get("manifest"), Some(&Json::Null));
    assert!(matches!(OperatorBackup::inspect("b1", None), Err(PgError::RestoreIncomplete)));
}

#[test]
fn a_restore_is_planned_against_what_the_manifest_says() {
    let same = restore_state("own", "receipts", "logical");
    let plan = build_restore_plan("t", "p", "b1", "hash", 6, &taken(), &same);
    assert!(plan.decision.safe_to_apply);
    assert_eq!(plan.state.get_str("backup_manifest_hash"), Some("hash"));
    let moved = restore_state("other", "receipts", "logical");
    let plan = build_restore_plan("t", "p", "b1", "hash", 6, &taken(), &moved);
    assert_eq!(plan.decision.refusals, vec!["workstream_projection_drift"]);
    let older = build_restore_plan("t", "p", "b1", "hash", 5, &taken(), &same);
    assert!(!older.decision.safe_to_apply);
    let seen = OperatorBackup::restore_preview("owner", &older, "s", "p");
    assert_eq!(seen.get_str("state_digest"), Some("s"));
    assert_eq!(seen.get_bool("applied"), Some(false));
}

#[test]
fn a_restore_is_applied_only_as_it_was_seen_and_when_it_is_safe() {
    let same = restore_state("own", "receipts", "logical");
    let safe = build_restore_plan("t", "p", "b1", "hash", 6, &taken(), &same);
    let unsafe_plan = build_restore_plan("t", "p", "b1", "hash", 5, &taken(), &same);
    let q = apply_request("s", "p");
    assert!(OperatorBackup::admit_restore(&q, &safe, "s", "p").is_ok());
    assert!(matches!(
        OperatorBackup::admit_restore(&q, &safe, "s", "other"),
        Err(PgError::PreconditionsChanged)
    ));
    assert!(matches!(
        OperatorBackup::admit_restore(&q, &unsafe_plan, "s", "p"),
        Err(PgError::Unsupported(_))
    ));
}

#[test]
fn a_restore_fences_every_work_under_the_new_epoch() {
    let epoch = OperatorBackup::restored_epoch();
    assert!(epoch.starts_with("restored-"));
    assert_eq!(epoch.len(), 35);
    let q = apply_request("s", "p");
    let fences =
        [FenceRow { scope_id: "main".into(), work_id: "w1".into(), last_fence: 8 }];
    let done = OperatorBackup::restore_apply(&q, "i", "owner", "x1", "old", &epoch, &fences, 12);
    let barriers = done.report.get_list("fencing_barriers").unwrap();
    assert_eq!(barriers.len(), 1);
    assert_eq!(barriers[0].get_str("fence"), Some("8"));
    assert_eq!(barriers[0].get_str("coordinator_epoch"), Some(epoch.as_str()));
    assert_eq!(done.receipt.get_str("project_revision"), Some("12"));
    assert_eq!(done.receipt.get_bool("execution_authorized"), Some(false));
    assert_eq!(done.event.get_str("restore_id"), Some("x1"));
    // A project without works is fenced as a whole.
    let bare = OperatorBackup::restore_apply(&q, "i", "owner", "x1", "old", &epoch, &[], 12);
    let barriers = bare.report.get_list("fencing_barriers").unwrap();
    assert_eq!(barriers.len(), 1);
    assert_eq!(barriers[0].get_str("work_id"), Some(""));
    assert_eq!(barriers[0].get_str("fence"), Some("0"));
}

#[test]
fn a_rebuild_puts_in_what_is_missing_and_nothing_else() {
    let plan = build_rebuild_plan(
        "t", "p", "b1", "hash", 6, &taken(), &rebuild_state(vec![], "empty", vec![]),
    );
    assert!(plan.decision.safe_to_apply);
    assert_eq!(plan.decision.mode, "ownership_materialize");
    assert_eq!(plan.ownership_to_insert.len(), 1);
    assert_eq!(plan.work_items_to_insert.len(), 1);
    assert_eq!(plan.work_items_to_insert[0].external_key, "W-1");
    assert!(OperatorBackup::admit_rebuild(&apply_request("s", "p"), &plan, "s", "p").is_ok());
    assert!(OperatorBackup::work_item_insert(&plan.work_items_to_insert[0]).is_ok());
    assert_eq!(OperatorBackup::ownership_insert(&plan.ownership_to_insert[0]).unwrap(), 3);
    assert!(OperatorBackup::verify_rebuilt("own", &plan).is_ok());
    assert!(matches!(
        OperatorBackup::verify_rebuilt("other", &plan),
        Err(PgError::PreconditionsChanged)
    ));
    let q = apply_request("s", "p");
    let done = OperatorBackup::rebuild_apply(&q, "i", "owner", &plan, 1, 1, "own", 5);
    assert_eq!(done.report.get_i64("inserted_work_items"), Some(1));
    assert_eq!(done.report.get_bool("grants_modified"), Some(false));
    assert_eq!(done.event.get_str("mode"), Some("ownership_materialize"));
    let seen = OperatorBackup::rebuild_preview("owner", &plan, "s", "p");
    assert_eq!(
        seen.get("materialize").unwrap().get_list("work_items_to_insert").unwrap().len(),
        1
    );
}

#[test]
fn a_rebuild_leaves_works_alone_that_are_known_under_another_key() {
    let works = vec![item("w1", "W-OTHER")];
    let plan = build_rebuild_plan(
        "t", "p", "b1", "hash", 6, &taken(), &rebuild_state(vec![], "empty", works),
    );
    assert!(!plan.decision.safe_to_apply);
    assert!(plan.ownership_to_insert.is_empty());
    assert!(plan.work_items_to_insert.is_empty());
    assert!(matches!(
        OperatorBackup::admit_rebuild(&apply_request("s", "p"), &plan, "s", "p"),
        Err(PgError::Unsupported(_))
    ));
}

#[test]
fn names_that_are_no_identities_are_not_inserted() {
    assert!(OperatorBackup::work_item_insert(&item("", "W-1")).is_err());
    assert!(OperatorBackup::work_item_insert(&item("w1", "a\nb")).is_err());
    let mut row = OwnershipRow::new("w1", "ws-1", 3);
    row.ownership_version = "0".into();
    assert!(OperatorBackup::ownership_insert(&row).is_err());
}

#[test]
fn requests_about_backups_name_what_they_mean() {
    let digest = "a".repeat(64);
    let q = apply_request(&digest, &digest);
    assert!(admit_apply(&q).is_ok());
    assert!(admit_apply(&apply_request("short", &digest)).is_err());
    assert!(admit_names("t", "p", Some("b1")).is_ok());
    assert!(admit_names("t", "p", Some("")).is_err());
    let intent = intent_document(&q, "restore.apply");
    assert_eq!(intent.get_str("op"), Some("restore.apply"));
    assert_eq!(intent.get_str("expected_plan"), Some(digest.as_str()));
    assert_eq!(OperatorBackup::rebuild_outcome(None).get_str("outcome"), Some("unknown"));
    assert_eq!(
        OperatorBackup::restore_outcome(Some(json::null())).get_str("outcome"),
        Some("committed")
    );
}
