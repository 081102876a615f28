use awr_team_pg::error::PgError;
use awr_team_pg::json;
use awr_team_pg::source_planning::{DraftChange, SourceStore};
use awr_team_pg::source_writeback::{
    affected_works, build_impact_gate, gate_refusal, unrelated_works, ActivationFacts,
    ActivationImpactGate, AffectedWork, JournalRow, ProposalRow, PublishRow, SourceResume,
    WritebackActivateRequest, WritebackStep,
};

fn store() -> SourceStore {
    SourceStore::new("postgres://x")
}

fn names(list: &[&str]) -> Vec<String> {
    list.iter().map(|s| s.to_string()).collect()
}

fn change(work: &str, before: Option<&str>, children: &[&str]) -> DraftChange {
    DraftChange {
        work_id: work.into(),
        external_key: "k".into(),
        completion_policy: "p".into(),
        split_children: names(children),
        before_work_id: before.map(|s| s.to_string()),
        document: json::null(),
    }
}

fn affected(work: &str, claims: i64, executions: i64) -> AffectedWork {
    AffectedWork { work_id: work.into(), active_claims: claims, nonterminal_executions: executions }
}

fn publish() -> PublishRow {
    PublishRow {
        candidate_id: "c".into(),
        candidate_digest: "d".into(),
        approval_id: "ap".into(),
        publisher_actor_id: "pub".into(),
        source_writeback_pending: true,
        activation_receipt_id: None,
    }
}

fn message<T>(r: Result<T, PgError>) -> String {
    match r {
        Err(PgError::Protocol(m)) => m,
        _ => panic!("no protocol error"),
    }
}

#[test]
fn plans_affect_what_they_name_and_who_observed_it() {
    let changes = vec![change("w2", Some("w1"), &["w5"])];
    let works = names(&["w1", "w2", "w3", "w4"]);
    let observed = vec![vec![], vec![], names(&["w2"]), names(&["w9"])];
    let hit = affected_works(&changes, &works, &observed);
    assert_eq!(hit, names(&["w1", "w2", "w3", "w5"]));
    assert_eq!(unrelated_works(&works, &hit), names(&["w4"]));
}

#[test]
fn observers_count_in_the_order_of_the_works() {
    let changes = vec![change("w1", None, &[])];
    let works = names(&["w1", "w2", "w3"]);
    let forward = vec![vec![], names(&["w1"]), names(&["w2"])];
    assert_eq!(affected_works(&changes, &works, &forward), names(&["w1", "w2", "w3"]));
    let backward = vec![vec![], names(&["w3"]), names(&["w1"])];
    assert_eq!(affected_works(&changes, &works, &backward), names(&["w1", "w3"]));
}

#[test]
fn unproven_impact_keeps_the_barrier() {
    let g = build_impact_gate(&vec![affected("w1", 0, 0)], &names(&["w2"]), &vec![], false);
    assert!(!g.allow_activation);
    assert_eq!(g.recovery_actions.len(), 3);
    match gate_refusal(&g) {
        PgError::ActivationImpactUnproven(m) => assert_eq!(
            m,
            "activation impact cannot be proven; retaining project-wide active-claim barrier"
        ),
        _ => panic!("other refusal"),
    }
}

#[test]
fn running_works_must_be_stopped() {
    let list = vec![affected("w1", 1, 0), affected("w2", 0, 2), affected("w3", 0, 0)];
    let g = build_impact_gate(&list, &vec![], &names(&["w1"]), true);
    assert!(!g.allow_activation);
    assert_eq!(
        g.refuse_reason.as_deref(),
        Some("affected work w2 requires explicit stop/reconcile/replan (cancel/expiry/end-session do not prove process stopped)")
    );
    assert_eq!(g.recovery_actions[3], "stop and reconcile work w2");
    assert!(matches!(gate_refusal(&g), PgError::WritebackRefused(_)));
    let open = build_impact_gate(&list, &vec![], &names(&["w2", "w1"]), true);
    assert!(open.allow_activation);
    assert_eq!(open.refuse_reason, None);
    assert_eq!(open.recovery_actions.len(), 3);
    assert_eq!(open.affected_work_ids, names(&["w1", "w2", "w3"]));
    match gate_refusal(&ActivationImpactGate::default()) {
        PgError::ActivationImpactUnproven(m) => assert_eq!(m, "impact unproven"),
        _ => panic!("other refusal"),
    }
}

#[test]
fn publications_are_written_back_once() {
    let s = store();
    let open = || build_impact_gate(&vec![], &vec![], &vec![], true);
    assert!(matches!(
        s.activate_planning_writeback(Some(&publish()), "d", Some("published"), open()).unwrap(),
        WritebackStep::Proceed { .. }
    ));
    let mut done = publish();
    done.activation_receipt_id = Some("act".into());
    match s.activate_planning_writeback(Some(&done), "other", None, open()).unwrap() {
        WritebackStep::Recorded { activation_receipt_id } => assert_eq!(activation_receipt_id, "act"),
        _ => panic!("activated twice"),
    }
    let mut idle = publish();
    idle.source_writeback_pending = false;
    assert_eq!(
        message(s.activate_planning_writeback(Some(&idle), "d", Some("published"), open())),
        "publish receipt is not pending source writeback"
    );
    assert_eq!(
        message(s.activate_planning_writeback(None, "d", Some("published"), open())),
        "publish receipt not found"
    );
    assert!(matches!(
        s.activate_planning_writeback(Some(&publish()), "d2", Some("published"), open()),
        Err(PgError::StaleApproval)
    ));
    assert_eq!(
        message(s.activate_planning_writeback(Some(&publish()), "d", None, open())),
        "planning candidate not found"
    );
    assert_eq!(
        message(s.activate_planning_writeback(Some(&publish()), "d", Some("approved"), open())),
        "writeback requires a published planning candidate"
    );
    let shut = build_impact_gate(&vec![], &vec![], &vec![], false);
    match s.activate_planning_writeback(Some(&publish()), "d", Some("published"), shut).unwrap() {
        WritebackStep::Refused { body, .. } => {
            assert_eq!(body.get_str("candidate_id"), Some("c"));
            assert_eq!(body.get("gate").unwrap().get_bool("allow_activation"), Some(false));
        }
        _ => panic!("went on"),
    }
}

#[test]
fn sources_are_not_written_twice_nor_over_others() {
    let s = store();
    let row = |phase: &str| JournalRow {
        phase: phase.into(),
        before_fingerprint: "b".into(),
        after_fingerprint: "a".into(),
    };
    assert_eq!(s.resume_source(None, "x").unwrap(), SourceResume::Fresh);
    assert!(SourceResume::Fresh.journals_validation() && SourceResume::Fresh.writes_source());
    assert!(!SourceResume::Landed.journals_validation() && !SourceResume::Landed.writes_source());
    assert!(!SourceResume::Rewrite.journals_validation() && SourceResume::Rewrite.writes_source());
    assert_eq!(s.resume_source(Some(&row("refused")), "x").unwrap(), SourceResume::Fresh);
    for phase in ["validated", "source_written", "pg_activating"] {
        assert_eq!(s.resume_source(Some(&row(phase)), "a").unwrap(), SourceResume::Landed);
        assert_eq!(s.resume_source(Some(&row(phase)), "b").unwrap(), SourceResume::Rewrite);
        assert_eq!(
            message(s.resume_source(Some(&row(phase)), "x")),
            "authoritative source changed externally; refusing overwrite of others' work"
        );
    }
    assert!(s.admit_rewrite(&row("validated"), "a").is_ok());
    assert_eq!(
        message(s.admit_rewrite(&row("validated"), "x")),
        "resume rebuild fingerprint diverged from journal intent"
    );
}

#[test]
fn requests_name_themselves() {
    let s = store();
    let req = |id: &str| WritebackActivateRequest {
        request_id: id.into(),
        publish_receipt_id: "r".into(),
        source_root: "/s".into(),
        ledger_relative_path: "l".into(),
        impact_proven: true,
        stopped_work_ids: vec![],
    };
    assert!(s.admit_writeback(&req("id")).is_ok());
    assert!(s.admit_writeback(&req(&"x".repeat(200))).is_ok());
    assert!(s.admit_writeback(&req(&"x".repeat(201))).is_err());
    assert!(s.admit_writeback(&req(" \t")).is_err());
}

#[test]
fn derived_approvals_rest_on_the_approved_plan() {
    let s = store();
    let row = |state: &str| ProposalRow { state: state.into(), manifest_digest: "d".into() };
    assert!(s.record_writeback_source_approval(Some(&row("pending")), "d", true).is_ok());
    assert!(s.record_writeback_source_approval(Some(&row("approved")), "d", true).is_ok());
    assert!(matches!(
        s.record_writeback_source_approval(Some(&row("pending")), "d2", true),
        Err(PgError::StaleApproval)
    ));
    assert!(matches!(
        s.record_writeback_source_approval(Some(&row("rejected")), "d", true),
        Err(PgError::CandidateNotApproved)
    ));
    assert!(matches!(
        s.record_writeback_source_approval(Some(&row("pending")), "d", false),
        Err(PgError::CandidateNotApproved)
    ));
    assert_eq!(
        message(s.record_writeback_source_approval(None, "d", true)),
        "writeback proposal not found"
    );
}

#[test]
fn activations_are_told_in_full() {
    let s = store();
    let facts = ActivationFacts {
        request_id: "req".into(),
        publish_receipt_id: "pr".into(),
        candidate_id: "c".into(),
        candidate_digest: "d".into(),
        approval_id: "ap".into(),
        approver_actor_id: "x".into(),
        publisher_actor_id: "y".into(),
        source_version: "v".into(),
        activated_snapshot_id: "snap".into(),
        authority_epoch: "3".into(),
        affected_work_ids: names(&["w1"]),
        unrelated_work_ids: names(&["w2", "w3"]),
        before_fingerprint: "b".into(),
        after_fingerprint: "a".into(),
        recovery_actions: vec![],
    };
    let doc = s.activated_document("act", &facts);
    assert_eq!(doc.get_str("receipt_id"), Some("act"));
    assert_eq!(doc.get_bool("source_writeback_pending"), Some(false));
    assert_eq!(doc.get_list("unrelated_work_ids").unwrap().len(), 2);
    assert_eq!(doc.get("audit").unwrap().get_str("publisher_actor_id"), Some("y"));
    let phase = s.phase_document("validated", Some("bundle"));
    assert_eq!(phase.get_str("bundle_digest"), Some("bundle"));
    assert!(s.phase_document("source_written", None).get("bundle_digest").is_none());
    assert_eq!(s.recorded_document(json::text("r")).get_bool("already_recorded"), Some(true));
    assert_eq!(s.temporary_name(Some("plan.md")), ".plan.md.tmcp022.tmp");
    assert_eq!(s.temporary_name(None), ".ledger.tmcp022.tmp");
    let caps = SourceStore::planning_writeback_capabilities();
    assert_eq!(caps.get_bool("idempotent_request_id"), Some(true));
    assert!(s.get_planning_activation_receipt(Err(PgError::Forbidden), Ok(())).is_ok());
    assert!(s.get_planning_activation_receipt(Ok(()), Err(PgError::Forbidden)).is_ok());
    assert!(s
        .get_planning_activation_receipt(Err(PgError::Forbidden), Err(PgError::WaitOpen))
        .is_err());
}
