use awr_team_pg::error::PgError;
use awr_team_pg::json;
use awr_team_pg::json::{Doc, Json};
use awr_team_pg::ops_audit::{record_in_tx, AuditActor, OpsCategory};
use awr_team_pg::source_planning::{
    bind_planning_receipt, changed_works, json_string_list, map_team, planning_audit, Baseline,
    CandidateBrief, CandidateRow, CandidateState, DraftCandidateCreate, DraftChange,
    PlanningApproval, PlanningCandidate, PlanningCommandBind, SourceStore, SuggestionRow,
    SuggestionSubmit, TeamRefusal,
};

fn store() -> SourceStore {
    SourceStore::new("postgres://x")
}

fn baseline(digest: &str) -> Baseline {
    Baseline { digest: digest.into(), epoch: "1".into() }
}

fn change(work: &str) -> DraftChange {
    DraftChange {
        work_id: work.into(),
        external_key: format!("K-{work}"),
        completion_policy: "independent_review".into(),
        split_children: vec![],
        before_work_id: None,
        document: json::null(),
    }
}

fn create(id: Option<&str>, goals: Vec<String>) -> DraftCandidateCreate {
    DraftCandidateCreate {
        changes: vec![change("w1"), change("w2"), change("w1")],
        suggestion_ids: vec!["sg".into()],
        allowed_spec_roots: vec![],
        project_goal_keys: goals,
        self_approve_policy: None,
        author_person_id: None,
        predetermined_candidate_id: id.map(|s| s.to_string()),
    }
}

fn candidate(state: CandidateState) -> PlanningCandidate {
    let mut c = store().create_planning_candidate(
        "codec",
        "p",
        "a1",
        "a1",
        &baseline("d1"),
        "cand",
        create(None, vec![]),
    );
    c.state = state;
    c
}

fn message<T>(r: Result<T, PgError>) -> String {
    match r {
        Err(PgError::Protocol(m)) => m,
        _ => panic!("no protocol error"),
    }
}

#[test]
fn suggestions_take_the_identity_that_is_given() {
    let mut submit = SuggestionSubmit {
        rationale: "because".into(),
        affected_work_keys: vec!["K".into()],
        proposed_notes: json::null(),
        author_person_id: None,
        predetermined_suggestion_id: Some("  ".into()),
    };
    let s = store();
    let one = s.submit_planning_suggestion("codec", "p", "a1", "a1", &baseline("d"), &submit, "new");
    assert_eq!(one.suggestion_id, "new");
    assert_eq!(one.state, "open");
    assert_eq!(one.version, 1);
    assert_eq!(one.proposed_notes, Doc::new().json());
    submit.predetermined_suggestion_id = Some("old".into());
    submit.proposed_notes = json::text("n");
    let two = s.submit_planning_suggestion("codec", "p", "a1", "a1", &baseline("d"), &submit, "new");
    assert_eq!(two.suggestion_id, "old");
    assert_eq!(two.proposed_notes, json::text("n"));
    assert_eq!(s.suggestion_summary(&two).get_str("suggestion_id"), Some("old"));
}

#[test]
fn suggestions_are_not_work() {
    let doc = store().suggestion_document(&SuggestionRow {
        suggestion_id: "s".into(),
        version: 1,
        author_person_id: "a".into(),
        author_actor_id: "a".into(),
        rationale: "r".into(),
        baseline_digest: "d".into(),
        baseline_epoch: "1".into(),
        state: "open".into(),
    });
    for key in ["claimable", "adds_formal_work", "mutates_live_deps", "mutates_live_acceptance"] {
        assert_eq!(doc.get_bool(key), Some(false));
    }
}

#[test]
fn candidates_start_as_drafts_of_delivery() {
    let c = candidate(CandidateState::Drafting);
    assert_eq!(c.draft_revision, 1);
    assert_eq!(c.project_goal_keys, vec!["delivery".to_string()]);
    let s = store();
    let named = s.create_planning_candidate(
        "codec",
        "p",
        "a1",
        "a1",
        &baseline("d1"),
        "cand",
        create(None, vec!["g".into()]),
    );
    assert_eq!(named.project_goal_keys, vec!["g".to_string()]);
    assert_eq!(s.candidate_identity(&create(Some("c9"), vec![]), "new"), "c9");
    assert_eq!(s.candidate_identity(&create(Some(""), vec![]), "new"), "new");
    let doc = s.created_document(&c, "dig", json::null());
    assert_eq!(doc.get_str("state"), Some("drafting"));
    assert_eq!(doc.get_i64("draft_revision"), Some(1));
    let resumed = s.resumed_document(&CandidateBrief {
        candidate_id: "c".into(),
        draft_revision: 4,
        candidate_digest: "d".into(),
        state: "approved".into(),
    });
    assert_eq!(resumed.get_bool("resumed"), Some(true));
}

#[test]
fn changed_works_come_once() {
    assert_eq!(changed_works(&create(None, vec![]).changes), vec!["w1", "w2"]);
    assert!(changed_works(&vec![]).is_empty());
}

#[test]
fn publishing_needs_an_approval_of_the_same_content() {
    let approval = |digest: &str| PlanningApproval {
        approval_id: "ap".into(),
        candidate_digest: digest.into(),
        approver_person_id: "p".into(),
        approver_actor_id: "a".into(),
        self_approved: false,
    };
    let s = store();
    let c = s
        .publish_planning_candidate(candidate(CandidateState::Approved), "d", Some(approval("d")))
        .unwrap();
    assert_eq!(c.approval.unwrap().approval_id, "ap");
    assert!(matches!(
        s.publish_planning_candidate(candidate(CandidateState::Approved), "d2", Some(approval("d"))),
        Err(PgError::CandidateNotApproved)
    ));
    assert!(matches!(
        s.publish_planning_candidate(candidate(CandidateState::Approved), "d", None),
        Err(PgError::CandidateNotApproved)
    ));
    for state in
        [CandidateState::Drafting, CandidateState::Published, CandidateState::Superseded]
    {
        assert!(matches!(
            s.publish_planning_candidate(candidate(state), "d", Some(approval("d"))),
            Err(PgError::CandidateNotApproved)
        ));
    }
}

#[test]
fn approving_marks_the_candidate() {
    let s = store();
    let c = s.approve_planning_candidate(
        candidate(CandidateState::Drafting),
        "ap",
        "dig",
        "p1",
        "a1",
        true,
    );
    assert_eq!(c.state, CandidateState::Approved);
    let preview = s.preview_planning_candidate(&c, json::null());
    assert_eq!(preview.get_str("state"), Some("approved"));
    assert_eq!(preview.get("approval").unwrap().get_bool("self_approved"), Some(true));
    let doc = s.approved_document("ap", "cand", "dig", 1, true, "independent_review");
    assert_eq!(doc.get_bool("independent_review_downgraded"), Some(false));
    assert_eq!(s.approval_summary("ap", "cand", "dig", true).get_str("approval_id"), Some("ap"));
    let published = s.published_document("r", "cand", "dig", 1, "ap");
    assert_eq!(published.get_bool("source_writeback_pending"), Some(true));
    assert_eq!(published.get_bool("source_bytes_written"), Some(false));
    assert_eq!(s.publication_summary("r", "c", "d", "a").get_str("receipt_id"), Some("r"));
}

#[test]
fn the_source_must_not_have_moved_on() {
    let s = store();
    let c = candidate(CandidateState::Drafting);
    assert!(s.ensure_baseline_current(&c, &baseline("d1")).is_ok());
    assert!(matches!(
        s.ensure_baseline_current(&c, &baseline("d2")),
        Err(PgError::PreconditionsChanged)
    ));
    let none = s.current_baseline("", "ignored", "7");
    assert_eq!(
        none.digest,
        "sha256:1966c45a369950f4e6a05536c4788ab17f33867d58dd56b512c39af44ef6018c"
    );
    assert_eq!(none.epoch, "7");
    assert_eq!(s.current_baseline("snap", "m", "7").digest, "m");
}

#[test]
fn stored_candidates_are_read_back() {
    let row = |state: &str, ids: Json| CandidateRow {
        author_person_id: "p".into(),
        author_actor_id: "a".into(),
        baseline_digest: "d".into(),
        baseline_epoch: "1".into(),
        draft_revision: 3,
        candidate_digest: "cd".into(),
        state: state.into(),
        suggestion_ids: ids,
        allowed_spec_roots: json::text_list(&[]),
        project_goal_keys: json::text_list(&["g".to_string()]),
    };
    let s = store();
    let ids = || json::text_list(&["s1".to_string(), "s2".to_string()]);
    let c = s.load_candidate("codec", "p", "c", Some(row("superseded", ids())), vec![]).unwrap();
    assert_eq!(c.state, CandidateState::Superseded);
    assert_eq!(c.suggestion_ids, vec!["s1", "s2"]);
    assert_eq!(
        message(s.load_candidate("codec", "p", "c", None, vec![])),
        "planning candidate not found"
    );
    assert_eq!(
        message(s.load_candidate("codec", "p", "c", Some(row("odd", ids())), vec![])),
        "unknown planning candidate state: odd"
    );
    assert_eq!(
        message(s.load_candidate("codec", "p", "c", Some(row("drafting", json::null())), vec![])),
        "expected json string array"
    );
    assert!(s.lock_candidate(true).is_ok());
    assert!(s.lock_candidate(false).is_err());
}

#[test]
fn approved_content_must_not_change() {
    let s = store();
    assert!(s.check_content(CandidateState::Drafting, "a", "b").is_ok());
    assert!(s.check_content(CandidateState::Approved, "a", "a").is_ok());
    assert!(matches!(
        s.check_content(CandidateState::Approved, "a", "b"),
        Err(PgError::StaleApproval)
    ));
    assert!(matches!(
        s.check_content(CandidateState::Published, "a", "b"),
        Err(PgError::StaleApproval)
    ));
}

#[test]
fn lists_of_texts_hold_texts_only() {
    assert_eq!(json_string_list(&json::text_list(&["a".to_string()])).unwrap(), vec!["a"]);
    assert_eq!(
        message(json_string_list(&Json::Arr(vec![json::number(1)]))),
        "expected string in json array"
    );
}

#[test]
fn refusals_of_others_are_told_apart() {
    assert!(matches!(
        map_team(TeamRefusal::PermissionDenied("review would be downgraded".into())),
        PgError::PolicyDowngrade
    ));
    assert!(matches!(
        map_team(TeamRefusal::PermissionDenied("no".into())),
        PgError::Forbidden
    ));
    assert!(matches!(map_team(TeamRefusal::Other("x".into())), PgError::Protocol(m) if m == "x"));
}

#[test]
fn receipts_are_bound_once() {
    let bind = PlanningCommandBind {
        request_id: "r".into(),
        op: "planning.propose".into(),
        request_hash: "h".into(),
    };
    let fresh = bind_planning_receipt(Some(&bind), false, false, json::text("result"));
    assert_eq!(fresh.answer.get_str("result"), Some("result"));
    assert_eq!(fresh.answer.get_str("protocol"), Some("awr-planning-command-receipt-v1"));
    assert!(fresh.receipt.is_some());
    assert!(fresh.audited);
    let again = bind_planning_receipt(Some(&bind), true, true, json::text("result"));
    assert_eq!(again.answer, json::text("result"));
    assert!(again.receipt.is_none());
    assert!(!again.audited);
    let unbound = bind_planning_receipt(None, false, true, json::text("result"));
    assert!(unbound.audited);
    assert!(unbound.receipt.is_none());
}

#[test]
fn planning_is_recorded_with_the_digest_of_its_summary() {
    let actor = AuditActor {
        actor_id: "a".into(),
        client_id: "c".into(),
        membership_version: 1,
        policy_version: 1,
        snapshot: "snap".into(),
    };
    let w = planning_audit(
        &actor,
        "planning.edit_draft",
        "candidate",
        Some("cand"),
        None,
        Some("req"),
        None,
        Doc::new().put("a", json::number(1)).json(),
    );
    assert_eq!(w.category, OpsCategory::Planning);
    assert_eq!(
        w.digest.as_deref(),
        Some("015abd7f5cc57a2dd94b7590f04ad8084273905ee33ec5cebeae62276a97f862")
    );
    assert_eq!(w.source_version, None);
    assert_eq!(record_in_tx(&w).unwrap().get_i64("a"), Some(1));
}

#[test]
fn grants_bound_what_may_be_planned() {
    let s = store();
    assert!(s.admit_grants(true).is_ok());
    assert!(matches!(s.admit_grants(false), Err(PgError::Forbidden)));
    assert!(s.admit_work(None, Err(PgError::WaitOpen)).is_ok());
    assert!(matches!(s.admit_work(Some(false), Ok(())), Err(PgError::Forbidden)));
    assert!(matches!(s.admit_work(Some(true), Err(PgError::WaitOpen)), Err(PgError::WaitOpen)));
    assert!(s.admit_work(Some(true), Ok(())).is_ok());
    assert!(s.admit_preview(false, false, false, false, true).is_ok());
    assert!(s.admit_preview(false, false, false, false, false).is_err());
}

#[test]
fn planning_history_stays() {
    assert_eq!(
        message(store().delete_planning_history()),
        "hard-delete of planning history is forbidden"
    );
    let doc = SourceStore::planning_capabilities("v1");
    assert_eq!(doc.get_str("codec"), Some("v1"));
    assert_eq!(doc.get_list("actions").unwrap().len(), 4);
    assert_eq!(doc.get_bool("hard_delete_history_allowed"), Some(false));
}

#[test]
fn impacts_say_none_where_nothing_runs() {
    let i = store().impact(&change("w1"), None, 0, Some("running".into()));
    assert_eq!(i.work_runtime_state, "none");
    assert_eq!(i.execution_state, "running");
    assert!(!i.has_active_claim);
    assert_eq!(i.external_key, "K-w1");
    assert!(store().impact(&change("w1"), None, 1, None).has_active_claim);
}
