use awr_team_pg::operator_execution_attribution::{
    classify_execution_attribution, decision_json, AttributionDecision, ExecutionAttributionEntry,
    ExecutionAttributionPlan,
};
use awr_team_pg::operator_plan::OwnershipBinding;

fn own(ws: &str, ver: i64) -> OwnershipBinding {
    OwnershipBinding { workstream_id: ws.into(), ownership_version: ver }
}

fn is_attribute(d: &AttributionDecision) -> bool {
    matches!(d, AttributionDecision::Attribute { .. })
}

#[test]
fn check_safe_with_matching_reviewed_client_attributes() {
    let o = own("ws-1", 3);
    assert_eq!(
        classify_execution_attribution(
            None,
            "succeeded",
            Some("sess-1"),
            Some("claim-1"),
            Some(&o),
            "epoch-1",
            Some("coding-client"),
            Some("coding-client"),
        ),
        AttributionDecision::Attribute {
            workstream_id: "ws-1".into(),
            ownership_version: 3,
            coordinator_epoch: "epoch-1".into(),
            executor_client_id: "coding-client".into(),
        }
    );
    // One that has not ended can be attributed as well.
    assert_eq!(
        is_attribute(&classify_execution_attribution(
            None,
            "running",
            Some("sess-1"),
            Some("claim-1"),
            Some(&o),
            "epoch-1",
            Some("coding-client"),
            Some("coding-client"),
        )),
        true
    );
}

#[test]
fn refuses_missing_reviewed_client_and_never_infers_from_session() {
    let o = own("ws-1", 1);
    assert_eq!(
        classify_execution_attribution(
            None,
            "succeeded",
            Some("sess"),
            Some("claim"),
            Some(&o),
            "epoch",
            None,
            Some("coding-client"),
        ),
        AttributionDecision::Refuse { reason: "reviewed_executor_client_id_required" }
    );
}

#[test]
fn refuses_check_unsafe_missing_session_or_claim() {
    let o = own("ws-1", 1);
    assert_eq!(
        classify_execution_attribution(
            None,
            "failed",
            None,
            Some("claim"),
            Some(&o),
            "epoch",
            Some("c"),
            Some("c"),
        ),
        AttributionDecision::Refuse { reason: "check_requires_session_id" }
    );
    assert_eq!(
        classify_execution_attribution(
            None,
            "cancelled",
            Some("sess"),
            None,
            Some(&o),
            "epoch",
            Some("c"),
            Some("c"),
        ),
        AttributionDecision::Refuse { reason: "check_requires_claim_id" }
    );
}

#[test]
fn refuses_session_missing_and_client_mismatch() {
    let o = own("ws-1", 1);
    assert_eq!(
        classify_execution_attribution(
            None,
            "succeeded",
            Some("sess"),
            Some("claim"),
            Some(&o),
            "epoch",
            Some("reviewed"),
            None,
        ),
        AttributionDecision::Refuse {
            reason: "session_missing_cannot_verify_executor_client_id"
        }
    );
    assert_eq!(
        classify_execution_attribution(
            None,
            "succeeded",
            Some("sess"),
            Some("claim"),
            Some(&o),
            "epoch",
            Some("reviewed"),
            Some("other-client"),
        ),
        AttributionDecision::Refuse { reason: "reviewed_executor_client_id_mismatch_session" }
    );
}

#[test]
fn refuses_already_attributed_and_missing_ownership() {
    let o = own("ws-1", 1);
    assert_eq!(
        classify_execution_attribution(
            Some("ws-1"),
            "succeeded",
            Some("s"),
            Some("c"),
            Some(&o),
            "epoch",
            Some("client"),
            Some("client"),
        ),
        AttributionDecision::Refuse { reason: "already_attributed_use_execution_reconcile" }
    );
    assert_eq!(
        classify_execution_attribution(
            None,
            "succeeded",
            Some("s"),
            Some("c"),
            None,
            "epoch",
            Some("client"),
            Some("client"),
        ),
        AttributionDecision::Refuse { reason: "work_id_missing_from_current_ownership" }
    );
}

#[test]
fn decision_json_records_reviewed_client_without_invention_flag() {
    let d = AttributionDecision::Attribute {
        workstream_id: "ws".into(),
        ownership_version: 2,
        coordinator_epoch: "e".into(),
        executor_client_id: "coding-client".into(),
    };
    let v = decision_json(
        "e1",
        "w1",
        "succeeded",
        Some("s1"),
        Some("c1"),
        Some("coding-client"),
        &d,
    );
    assert_eq!(v.get_str("action"), Some("attribute"));
    assert_eq!(v.get_str("executor_client_id"), Some("coding-client"));
    assert_eq!(v.get_bool("executor_client_id_invented"), Some(false));
    assert_eq!(v.get_bool("forges_identity"), Some(false));
    assert_eq!(v.get_bool("completion_receipts_modified"), Some(false));
}

#[test]
fn plan_validate_rejects_empty_duplicates_and_bad_ids() {
    let mut plan = ExecutionAttributionPlan {
        protocol_version: 1,
        tenant_id: "t".into(),
        project_id: "p".into(),
        attributions: vec![],
    };
    assert!(plan.validate().is_err());
    plan.attributions.push(ExecutionAttributionEntry {
        execution_id: "e1".into(),
        executor_client_id: "c1".into(),
    });
    assert!(plan.validate().is_ok());
    plan.attributions.push(ExecutionAttributionEntry {
        execution_id: "e1".into(),
        executor_client_id: "c2".into(),
    });
    assert!(plan.validate().is_err());
}

#[test]
fn plans_give_the_client_of_an_execution() {
    let plan = ExecutionAttributionPlan {
        protocol_version: 1,
        tenant_id: "t".into(),
        project_id: "p".into(),
        attributions: vec![
            ExecutionAttributionEntry { execution_id: "e1".into(), executor_client_id: "c1".into() },
            ExecutionAttributionEntry { execution_id: "e2".into(), executor_client_id: "c2".into() },
        ],
    };
    assert_eq!(plan.reviewed_map("e2"), Some("c2"));
    assert_eq!(plan.reviewed_map("e3"), None);
}
