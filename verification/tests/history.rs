use awr_team_pg::operator_history::{
    classify_claim, classify_event, classify_execution, classify_session, decision_json,
    HistoryDecision, HistoryKind, OperatorHistory,
};
use awr_team_pg::operator_plan::OwnershipBinding;

fn own(ws: &str, ver: i64) -> OwnershipBinding {
    OwnershipBinding { workstream_id: ws.into(), ownership_version: ver }
}

#[test]
fn sessions_attribute_only_with_current_ownership() {
    let o = own("ws-1", 3);
    assert!(matches!(
        classify_session("work-a", Some(&o)),
        HistoryDecision::Attribute {
            ownership_version: 3,
            ..
        }
    ));
    assert_eq!(
        classify_session("missing", None),
        HistoryDecision::Refuse { reason: "work_id_missing_from_current_ownership" }
    );
}

#[test]
fn active_claims_and_executions_are_refused() {
    let o = own("ws-1", 1);
    assert_eq!(
        classify_claim("active", "work-a", Some(&o), "epoch"),
        HistoryDecision::Refuse {
            reason: "active_unattributed_claim_requires_manual_recovery"
        }
    );
    assert!(matches!(
        classify_claim("released", "work-a", Some(&o), "epoch"),
        HistoryDecision::Attribute {
            coordinator_epoch: Some(_),
            ..
        }
    ));
    assert_eq!(
        classify_execution(),
        HistoryDecision::Refuse {
            reason: "use_execution_attribution_protocol_for_reviewed_executor_client_id"
        }
    );
}

#[test]
fn events_without_work_id_are_refused() {
    assert_eq!(
        classify_event(None, None),
        HistoryDecision::Refuse { reason: "event_lacks_work_id" }
    );
    let o = own("ws-1", 1);
    assert!(matches!(
        classify_event(Some("work-a"), Some(&o)),
        HistoryDecision::Attribute { .. }
    ));
}

#[test]
fn decision_json_never_claims_identity_forgery_fields_for_attribute() {
    let d = HistoryDecision::Attribute {
        workstream_id: "ws".into(),
        ownership_version: 2,
        coordinator_epoch: None,
    };
    let v = decision_json(HistoryKind::Session, "s1", Some("w1"), &d);
    assert_eq!(v.get_str("action"), Some("attribute"));
    assert!(v.get("executor_client_id").is_none());
    assert!(v.get("actor_id").is_none());
    assert!(v.get("completion_receipt_id").is_none());
}

#[test]
fn names_of_a_history_request_are_identities() {
    assert!(OperatorHistory::admit_names("t", "p", None).is_ok());
    assert!(OperatorHistory::admit_names("t", "", None).is_err());
    assert!(OperatorHistory::admit_names("t", "p", Some("a\u{7f}")).is_err());
}
