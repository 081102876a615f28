use awr_team_pg::json;
use awr_team_pg::json::Doc;
use awr_team_pg::operator_plan::ProjectRow;
use awr_team_pg::operator_recovery::{
    identity, recovery_report, BlockedWork, OperatorRecovery, RecoveryFacts, PROTOCOL,
};

#[test]
fn report_is_explicitly_read_only_and_non_acl() {
    let report = recovery_report(
        "tenant",
        "project",
        "owner",
        Doc::new()
            .put("status", json::text("active"))
            .put("workstreams_enabled", json::flag(true))
            .json(),
        Doc::new().put("active_claims", json::number(0)).json(),
    );
    assert_eq!(report.get_str("protocol"), Some(PROTOCOL));
    assert_eq!(report.get_bool("read_only"), Some(true));
    assert_eq!(report.get_bool("mutation"), Some(false));
    assert_eq!(report.get_bool("restore"), Some(false));
    assert_eq!(report.get_bool("backup"), Some(false));
    assert_eq!(report.get_bool("history_migration"), Some(false));
    assert_eq!(report.get_bool("automatic_resume"), Some(false));
    assert_eq!(report.get_bool("execution_authorized"), Some(false));
    assert_eq!(report.get_bool("frontend_filtering"), Some(false));
    assert_eq!(report.get_bool("local_filesystem_inspected"), Some(false));
    assert_eq!(
        report.get_str("local_file_access"),
        Some("not_server_acl_or_confidentiality_sandbox")
    );
    assert_eq!(report.get_str("authorization"), Some("schema_owner_postgresql_role"));
    assert_eq!(report.get_bool("workstreams_required"), Some(true));
    assert!(report.get_str("next_action").unwrap().contains("never mutates"));
    assert!(report.get_str("next_action").unwrap().contains("quarantine-*"));
}

#[test]
fn identity_rejects_empty_and_control_characters() {
    assert!(identity("tenant-a"));
    assert!(!identity(""));
    assert!(!identity("bad\nid"));
    assert!(!identity(&"x".repeat(129)));
}

fn facts(unattributed: i64) -> RecoveryFacts {
    RecoveryFacts {
        blocked: vec![BlockedWork {
            scope_id: "main".into(),
            work_id: "w1".into(),
            state: "blocked".into(),
            work_version: 4,
            last_fence: 9,
        }],
        blocked_count: 1,
        nonterminal: vec![],
        nonterminal_count: 0,
        unknown_count: 0,
        active_claims: 2,
        open_waits: 1,
        unattributed_sessions: 0,
        unattributed_claims: unattributed,
        unattributed_executions: 0,
        previous_epoch_executions: 0,
        restore_runs: 0,
    }
}

#[test]
fn inspection_repeats_what_it_counted() {
    let row = ProjectRow {
        status: "active".into(),
        coordinator_epoch: "e1".into(),
        project_revision: 7,
        source_snapshot_id: None,
    };
    let report = OperatorRecovery::inspect("t", "p", "owner", &row, &facts(1));
    let project = report.get("project").unwrap();
    assert_eq!(project.get_str("project_revision"), Some("7"));
    let findings = report.get("findings").unwrap();
    assert_eq!(findings.get_i64("active_claims"), Some(2));
    assert_eq!(findings.get_i64("sample_limit"), Some(20));
    let blocked = findings.get("recovery_blocked_work").unwrap();
    assert_eq!(blocked.get_list("sample").unwrap()[0].get_str("last_fence"), Some("9"));
    let history = findings.get("unattributed_history").unwrap();
    assert_eq!(history.get_bool("blocks_enablement_updates"), Some(true));
    let clean = OperatorRecovery::inspect("t", "p", "owner", &row, &facts(0));
    let history = clean.get("findings").unwrap().get("unattributed_history").unwrap();
    assert_eq!(history.get_bool("blocks_enablement_updates"), Some(false));
    assert!(OperatorRecovery::admit_names("t", "p").is_ok());
    assert!(OperatorRecovery::admit_names("", "p").is_err());
}
