use awr_team_pg::error::PgError;
use awr_team_pg::selective_invalidation::{
    revalidate_execution_boundary, select_downstream_reevaluation, unrelated_of,
    AdoptedConsumerEdge, BoundaryDecision, BoundaryRevalidateRequest, BoundarySnapshot,
    DecidePlanningChangeRequest, ExecutionBoundary, ProviderChangeKind, ReceiptRow,
    RecordPlanningChangeRequest, SelectiveInvalidateRequest, SelectiveInvalidationStore,
};

#[test]
fn fixed_survives_progress_current_reevaluates() {
    let consumers = vec![
        AdoptedConsumerEdge {
            dependency_id: "d1".into(),
            consumer_work_id: "sdk".into(),
            provider_work_id: "api".into(),
            policy: "fixed_delivery".into(),
            credential_status: "active".into(),
            assessment_status: "satisfied".into(),
        },
        AdoptedConsumerEdge {
            dependency_id: "d2".into(),
            consumer_work_id: "integration".into(),
            provider_work_id: "api".into(),
            policy: "current_contract".into(),
            credential_status: "active".into(),
            assessment_status: "satisfied".into(),
        },
    ];
    let plan = select_downstream_reevaluation(
        "api",
        ProviderChangeKind::NewVersionOrProgress,
        &consumers,
        &[
            "api".into(),
            "sdk".into(),
            "integration".into(),
            "docs".into(),
        ],
    );
    assert_eq!(plan.reevaluate, vec!["integration".to_string()]);
    assert_eq!(plan.leave_valid, vec!["sdk".to_string()]);
    assert_eq!(plan.unaffected_work_ids, vec!["docs".to_string()]);
}

#[test]
fn mid_execution_keeps_effects() {
    let v = revalidate_execution_boundary(&BoundarySnapshot {
        boundary: ExecutionBoundary::Complete,
        work_id: "sdk".into(),
        execution_id: Some("ex1".into()),
        dependencies_satisfied: false,
        revoke_or_invalidation_observed: true,
        has_real_effects: true,
        unrelated_work_ids: vec!["docs".into()],
    });
    assert_eq!(v.decision, BoundaryDecision::KeepEffectsAssignRecovery);
    assert!(v.recovery_duty);
    assert!(!v.erase_effects);
    assert!(v.unrelated_may_continue);
}

#[test]
fn revocation_reaches_fixed_deliveries() {
    let consumers = vec![AdoptedConsumerEdge {
        dependency_id: "d1".into(),
        consumer_work_id: "sdk".into(),
        provider_work_id: "api".into(),
        policy: "fixed_delivery".into(),
        credential_status: "active".into(),
        assessment_status: "satisfied".into(),
    }];
    let plan = select_downstream_reevaluation(
        "api",
        ProviderChangeKind::DeliveryRevoked,
        &consumers,
        &["api".into(), "sdk".into()],
    );
    assert_eq!(plan.reevaluate, vec!["sdk".to_string()]);
    assert!(plan.leave_valid.is_empty());
    assert!(plan.unaffected_work_ids.is_empty());
}

#[test]
fn satisfied_dependencies_pass_and_unsatisfied_ones_block() {
    let mut s = BoundarySnapshot {
        boundary: ExecutionBoundary::Prepare,
        work_id: "w".into(),
        execution_id: None,
        dependencies_satisfied: true,
        revoke_or_invalidation_observed: false,
        has_real_effects: false,
        unrelated_work_ids: vec![],
    };
    assert_eq!(revalidate_execution_boundary(&s).decision, BoundaryDecision::Allow);
    s.dependencies_satisfied = false;
    let blocked = revalidate_execution_boundary(&s);
    assert_eq!(blocked.decision, BoundaryDecision::BlockNewEffects);
    assert!(!blocked.erase_effects);
}

#[test]
fn names_are_read_back() {
    for k in [
        ProviderChangeKind::NewVersionOrProgress,
        ProviderChangeKind::CurrentSelectionChanged,
        ProviderChangeKind::DeliveryRevoked,
        ProviderChangeKind::PinnedArtifactUnavailable,
    ] {
        assert_eq!(ProviderChangeKind::parse(k.as_str()).unwrap(), k);
    }
    match ProviderChangeKind::parse("other") {
        Err(PgError::Protocol(m)) => assert_eq!(m, "unknown provider change kind"),
        _ => panic!("read"),
    }
    assert!(ExecutionBoundary::parse("later").is_err());
    assert!(BoundaryDecision::parse("maybe").is_err());
}

#[test]
fn what_is_not_affected_is_unrelated() {
    let all: Vec<String> = vec!["c".into(), "a".into(), "b".into(), "a".into()];
    let affected: Vec<String> = vec!["b".into()];
    assert_eq!(unrelated_of(&affected, &all), vec!["a".to_string(), "c".to_string()]);
}

fn store() -> SelectiveInvalidationStore {
    SelectiveInvalidationStore::new("postgres://x")
}

fn receipt(op: &str) -> ReceiptRow {
    ReceiptRow {
        request_key: "k1".into(),
        subject_id: "e1".into(),
        op: op.into(),
        event_id: "e1".into(),
        created_at_ms: 7,
    }
}

fn invalidate(now_ms: i64) -> SelectiveInvalidateRequest {
    SelectiveInvalidateRequest {
        request_key: "k1".into(),
        event_id: "e1".into(),
        provider_work_id: "api".into(),
        change: ProviderChangeKind::DeliveryRevoked,
        consumers: vec![AdoptedConsumerEdge {
            dependency_id: "d1".into(),
            consumer_work_id: "sdk".into(),
            provider_work_id: "api".into(),
            policy: "fixed_delivery".into(),
            credential_status: "active".into(),
            assessment_status: "satisfied".into(),
        }],
        all_project_work_ids: vec!["docs".into(), "sdk".into(), "api".into()],
        now_ms,
    }
}

#[test]
fn invalidations_are_answered_once() {
    let s = store();
    assert!(matches!(s.admit_selective_invalidation(&invalidate(-1), None), Err(PgError::Protocol(_))));
    assert!(s.admit_selective_invalidation(&invalidate(5), None).unwrap().is_none());
    let row = receipt("selective_invalidate");
    let again = s.admit_selective_invalidation(&invalidate(5), Some(&row)).unwrap().unwrap();
    assert!(again.replayed);
    assert_eq!(again.created_at_ms, 7);
    assert!(matches!(
        s.admit_selective_invalidation(&invalidate(5), Some(&receipt("boundary_revalidate"))),
        Err(PgError::IdempotencyConflict)
    ));
    let done = s.apply_selective_invalidation(&invalidate(5));
    assert_eq!(done.plan.reevaluate, vec!["sdk".to_string()]);
    assert_eq!(done.plan.unaffected_work_ids, vec!["docs".to_string()]);
    assert_eq!(done.body.get_str("change"), Some(ProviderChangeKind::DeliveryRevoked.as_str()));
    assert!(!done.receipt.replayed);
    assert_eq!(done.receipt.subject_id, "e1");
    let kind = done.plan.change.as_str();
    let read = s
        .load_plan("api".into(), kind, vec!["sdk".into()], vec![], vec!["docs".into()])
        .unwrap();
    assert_eq!(read, done.plan);
    assert!(s.load_plan("api".into(), "unheard of", vec![], vec![], vec![]).is_err());
}

#[test]
fn works_that_keep_a_fixed_delivery_keep_their_binding() {
    let mut req = invalidate(5);
    req.change = ProviderChangeKind::NewVersionOrProgress;
    let edge = |id: &str, consumer: &str, provider: &str, policy: &str| AdoptedConsumerEdge {
        dependency_id: id.into(),
        consumer_work_id: consumer.into(),
        provider_work_id: provider.into(),
        policy: policy.into(),
        credential_status: "active".into(),
        assessment_status: "satisfied".into(),
    };
    req.consumers = vec![
        edge("d1", "ui", "api", "current_contract"),
        edge("d2", "sdk", "api", "fixed_delivery"),
        edge("d3", "sdk", "api", "current_contract"),
        edge("d4", "cli", "api", "fixed_delivery"),
        edge("d5", "docs", "other", "current_contract"),
    ];
    let done = store().apply_selective_invalidation(&req);
    assert_eq!(done.plan.reevaluate, vec!["sdk".to_string(), "ui".to_string()]);
    assert_eq!(done.plan.leave_valid, vec!["cli".to_string(), "sdk".to_string()]);
    assert_eq!(done.invalidated, vec!["ui".to_string()]);
    assert!(!done.receipt.replayed);
    let revoked = store().apply_selective_invalidation(&invalidate(5));
    assert_eq!(revoked.invalidated, vec!["sdk".to_string()]);
}

#[test]
fn a_block_or_an_invalid_binding_stops_what_the_caller_thought_satisfied() {
    let s = store();
    let req = BoundaryRevalidateRequest {
        request_key: "k1".into(),
        check_id: "c1".into(),
        snapshot: BoundarySnapshot {
            boundary: ExecutionBoundary::Prepare,
            work_id: "sdk".into(),
            execution_id: None,
            dependencies_satisfied: true,
            revoke_or_invalidation_observed: false,
            has_real_effects: false,
            unrelated_work_ids: vec![],
        },
        now_ms: 3,
    };
    assert!(s.admit_boundary_revalidation(&req, None).unwrap().is_none());
    assert_eq!(s.revalidate_boundary(&req, 0, 0).decision.decision, BoundaryDecision::Allow);
    for (blocks, invalid) in [(1, 0), (0, 2)] {
        let done = s.revalidate_boundary(&req, blocks, invalid);
        assert_eq!(done.decision.decision, BoundaryDecision::BlockNewEffects);
        assert_eq!(done.body.get_str("decision"), Some("block_new_effects"));
        assert_eq!(done.receipt.op, "boundary_revalidate");
    }
    let read = s.load_boundary("allow", false, false, true, "r".into()).unwrap();
    assert_eq!(read.decision, BoundaryDecision::Allow);
    assert!(s.load_boundary("maybe", false, false, true, "r".into()).is_err());
}

fn planning_change(new_graph: &str) -> RecordPlanningChangeRequest {
    RecordPlanningChangeRequest {
        request_key: "k1".into(),
        change_id: "pc1".into(),
        discovered_by: "person".into(),
        old_graph_version: "g1".into(),
        new_graph_version: new_graph.into(),
        old_acceptance_contract: "a1".into(),
        new_acceptance_contract: "a1".into(),
        affected_work_ids: vec!["w2".into(), "w1".into(), "w2".into()],
        cancel_split_relations: vec![],
        continue_conditions: vec!["rebase".into()],
        all_project_work_ids: vec!["w3".into(), "w1".into(), "w2".into()],
        now_ms: 4,
    }
}

#[test]
fn a_planning_change_blocks_the_works_it_affects_until_it_is_decided() {
    let s = store();
    assert!(matches!(s.admit_planning_change(&planning_change("g1"), None), Err(PgError::Protocol(_))));
    assert!(s.admit_planning_change(&planning_change("g2"), None).unwrap().is_none());
    let done = s.record_planning_change(&planning_change("g2"));
    assert_eq!(done.change.affected_work_ids, vec!["w1".to_string(), "w2".to_string()]);
    assert_eq!(done.unrelated, vec!["w3".to_string()]);
    assert_eq!(done.change.status, "affected_blocked");
    assert_eq!(done.change.confirmed_by, None);
    let decide = DecidePlanningChangeRequest {
        request_key: "k2".into(),
        change_id: "pc1".into(),
        actor_id: "lead".into(),
        now_ms: 9,
    };
    assert!(s.admit_planning_decision(&decide, true, None).unwrap().is_none());
    assert!(matches!(
        s.admit_planning_decision(&decide, true, Some(&receipt("reject_planning_change"))),
        Err(PgError::IdempotencyConflict)
    ));
    let yes = s.decide_planning_change(&decide, true, Some("affected_blocked")).unwrap();
    assert_eq!((yes.status.as_str(), yes.confirmed_by.as_str()), ("confirmed", "lead"));
    let no = s.decide_planning_change(&decide, false, Some("affected_blocked")).unwrap();
    assert_eq!(no.status, "rejected");
    assert_eq!(no.receipt.op, "reject_planning_change");
    assert!(s.decide_planning_change(&decide, true, Some("confirmed")).is_err());
    assert!(s.decide_planning_change(&decide, true, None).is_err());
}
