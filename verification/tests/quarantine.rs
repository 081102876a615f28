use awr_team_pg::operator_plan::OwnershipBinding;
use awr_team_pg::operator_quarantine::{
    claim_decision_json, classify_claim, classify_execution, execution_decision_json,
    ClaimDecision, ClaimDisposition, ExecutionDecision,
};

fn own(ws: &str, ver: i64) -> OwnershipBinding {
    OwnershipBinding { workstream_id: ws.into(), ownership_version: ver }
}

#[test]
fn unattributed_active_claim_with_ownership_attribute_and_releases() {
    let o = own("ws-1", 2);
    assert_eq!(
        classify_claim(
            "active",
            None,
            "work-a",
            Some(&o),
            "epoch-1",
            ClaimDisposition::Release
        ),
        ClaimDecision::AttributeAndRelease {
            workstream_id: "ws-1".into(),
            ownership_version: 2,
            coordinator_epoch: "epoch-1".into(),
        }
    );
}

#[test]
fn unattributed_active_claim_without_ownership_follows_disposition() {
    assert_eq!(
        classify_claim(
            "active",
            None,
            "work-a",
            None,
            "epoch-1",
            ClaimDisposition::Release
        ),
        ClaimDecision::Release
    );
    assert_eq!(
        classify_claim(
            "active",
            None,
            "work-a",
            None,
            "epoch-1",
            ClaimDisposition::Quarantine
        ),
        ClaimDecision::Quarantine
    );
}

#[test]
fn attributed_active_claim_releases_or_quarantines_without_rewriting_binding() {
    let o = own("ws-1", 1);
    assert_eq!(
        classify_claim(
            "active",
            Some("ws-1"),
            "work-a",
            Some(&o),
            "epoch-1",
            ClaimDisposition::Release
        ),
        ClaimDecision::Release
    );
    assert_eq!(
        classify_claim(
            "active",
            Some("ws-1"),
            "work-a",
            Some(&o),
            "epoch-1",
            ClaimDisposition::Quarantine
        ),
        ClaimDecision::Quarantine
    );
}

#[test]
fn inactive_claims_are_refused() {
    assert_eq!(
        classify_claim(
            "released",
            None,
            "work-a",
            None,
            "epoch",
            ClaimDisposition::Release
        ),
        ClaimDecision::Refuse { reason: "claim_not_active" }
    );
}

#[test]
fn unattributed_nonterminal_execution_quarantines_without_forging_client() {
    assert_eq!(
        classify_execution(None, "running", Some("s1"), Some("c1"), false),
        ExecutionDecision::QuarantineUnknown
    );
    assert_eq!(
        classify_execution(None, "prepared", None, None, false),
        ExecutionDecision::QuarantineUnknown
    );
}

#[test]
fn terminal_unattributed_and_attributed_executions_are_refused() {
    assert_eq!(
        classify_execution(None, "succeeded", Some("s"), Some("c"), false),
        ExecutionDecision::Refuse {
            reason: "terminal_unattributed_execution_requires_explicit_attribution_protocol"
        }
    );
    assert_eq!(
        classify_execution(Some("ws"), "running", Some("s"), Some("c"), false),
        ExecutionDecision::Refuse { reason: "attributed_execution_use_execution_reconcile" }
    );
}

#[test]
fn explicit_executor_client_deferred_to_attribution_protocol() {
    assert_eq!(
        classify_execution(None, "running", Some("s"), Some("c"), true),
        ExecutionDecision::Refuse { reason: "use_execution_attribution_protocol" }
    );
}

#[test]
fn decision_json_never_sets_executor_client_id() {
    let d = ClaimDecision::AttributeAndRelease {
        workstream_id: "ws".into(),
        ownership_version: 1,
        coordinator_epoch: "e".into(),
    };
    let v = claim_decision_json("c1", "w1", "active", None, &d);
    assert!(v.get("executor_client_id").is_none());
    assert_eq!(v.get_bool("forges_identity"), Some(false));

    let e = execution_decision_json(
        "e1",
        "w1",
        "running",
        None,
        &ExecutionDecision::QuarantineUnknown,
    );
    assert_eq!(e.get_bool("executor_client_id_set"), Some(false));
    assert_eq!(e.get_bool("forges_identity"), Some(false));
}

#[test]
fn claim_disposition_parse_rejects_unknown() {
    assert!(ClaimDisposition::parse("release").is_ok());
    assert!(ClaimDisposition::parse("quarantine").is_ok());
    assert!(ClaimDisposition::parse("forge").is_err());
}
