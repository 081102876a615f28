use awr_team_pg::error::PgError;
use awr_team_pg::execution::{
    exactly_once_supported, replay_execution, scope_exceeded, Cancelled, DispatchRow,
    ExecutionRow, ExecutionStore, LiveClaim, PrepareRequest, Prepared, Reported,
};
use awr_team_pg::json;
use awr_team_pg::json::{Doc, Json};
use awr_team_pg::operation::StoredOperation;

fn store() -> ExecutionStore {
    ExecutionStore::new("postgres://x")
}

fn request() -> PrepareRequest {
    PrepareRequest {
        claim_id: "c1".into(),
        executor_actor_id: "x1".into(),
        contract_hash: "h".into(),
        input_digest: "d".into(),
        fencing_class: "hard_fence".into(),
        declared_scope: vec!["src".into()],
        writes: json::null(),
    }
}

fn claim() -> LiveClaim {
    LiveClaim {
        session_id: "s1".into(),
        work_id: "w1".into(),
        scope_id: "main".into(),
        actor_id: "a1".into(),
        fence: 3,
    }
}

fn row(state: &str) -> ExecutionRow {
    ExecutionRow {
        state: state.into(),
        fence: 3,
        work_id: "w1".into(),
        session_id: Some("s1".into()),
        claim_id: None,
        contract_hash: "h".into(),
        effect_key: Some("k".into()),
        fencing_class: "uncontrolled".into(),
        cancel_requested: false,
        declared_scope: json::text_list(&["src".to_string()]),
        scope_id: "main".into(),
    }
}

fn protocol_message<T>(r: Result<T, PgError>) -> String {
    match r {
        Err(PgError::Protocol(m)) => m,
        _ => panic!("no protocol error"),
    }
}

#[test]
fn classes_that_fence_apply_once() {
    assert!(exactly_once_supported("hard_fence"));
    assert!(exactly_once_supported("queryable_idempotent"));
    assert!(!exactly_once_supported("uncontrolled"));
    assert!(!exactly_once_supported(""));
}

#[test]
fn prepared_executions_are_given_back() {
    let req = request();
    let hash = awr_team_pg::execution::prepare_request_hash(&req);
    assert_eq!(hash, "execution.prepare:c1:x1:h:hard_fence");
    let first = store().prepare(&req, "a1", None, Some(&claim()), false, 0, "e1").unwrap();
    let (record, payload, result) = match first {
        Prepared::New { record, payload, result } => (record, payload, result),
        Prepared::Replay(_) => panic!("replayed"),
    };
    assert_eq!(record.id, "e1");
    assert_eq!(record.effect_key, "e1");
    assert_eq!(record.state, "prepared");
    assert!(!record.replayed);
    assert_eq!(payload.get_i64("fence"), Some(3));
    assert_eq!(payload.get_list("declared_scope").unwrap().len(), 1);
    let stored = StoredOperation { request_hash: hash, result };
    match store().prepare(&req, "a1", Some(&stored), None, true, 9, "e2").unwrap() {
        Prepared::Replay(again) => {
            assert!(again.replayed);
            assert_eq!(again.id, "e1");
            assert_eq!(again.fence, 3);
            assert_eq!(again.fencing_class, "hard_fence");
        }
        _ => panic!("prepared twice"),
    }
    let mut other = request();
    other.contract_hash = "h2".into();
    assert!(matches!(
        store().prepare(&other, "a1", Some(&stored), Some(&claim()), false, 0, "e2"),
        Err(PgError::IdempotencyConflict)
    ));
}

#[test]
fn preparing_needs_a_live_claim_of_the_actor() {
    let req = request();
    let s = store();
    assert!(matches!(
        s.prepare(&req, "a1", None, None, false, 0, "e"),
        Err(PgError::LeaseExpired)
    ));
    assert!(matches!(
        s.prepare(&req, "a2", None, Some(&claim()), false, 0, "e"),
        Err(PgError::Forbidden)
    ));
    assert!(matches!(
        s.prepare(&req, "a1", None, Some(&claim()), true, 0, "e"),
        Err(PgError::RecoveryBlocked)
    ));
    assert!(matches!(
        s.prepare(&req, "a1", None, Some(&claim()), false, 1, "e"),
        Err(PgError::RecoveryBlocked)
    ));
    let mut odd = request();
    odd.fencing_class = "soft".into();
    assert_eq!(
        protocol_message(s.prepare(&odd, "a1", None, Some(&claim()), false, 0, "e")),
        "invalid fencing class"
    );
}

#[test]
fn deliveries_fill_in_what_the_payload_leaves_out() {
    let empty = DispatchRow {
        outbox_id: "o1".into(),
        execution_id: "e1".into(),
        payload: Doc::new().json(),
        delivery_attempts: 2,
    };
    let d = store().claim_dispatch(Some(empty)).unwrap();
    assert_eq!(d.effect_key, "e1");
    assert_eq!(d.fence, 0);
    assert_eq!(d.fencing_class, "uncontrolled");
    assert_eq!(d.declared_scope, Json::Arr(vec![]));
    assert_eq!(d.delivery_attempts, 2);
    assert!(store().claim_dispatch(None).is_none());
    assert_eq!(store().dispatch_state("prepared"), "queued");
    assert_eq!(store().dispatch_state("running"), "running");
}

#[test]
fn runners_move_executions_under_their_fence() {
    let s = store();
    for state in ["prepared", "queued", "accepted"] {
        assert!(s.accept(Some(&row(state)), 3).unwrap());
    }
    assert!(s.start(Some(&row("accepted")), 3).unwrap());
    assert!(s.start(Some(&row("running")), 3).unwrap());
    assert!(matches!(s.accept(Some(&row("queued")), 2), Err(PgError::StaleFence)));
    assert!(matches!(s.accept(None, 3), Err(PgError::ExecutionNotFound)));
    assert_eq!(
        protocol_message(s.start(Some(&row("succeeded")), 3)),
        "cannot move execution from succeeded to running"
    );
    assert_eq!(
        protocol_message(s.accept(Some(&row("cancelled")), 3)),
        "cannot move execution from cancelled to accepted"
    );
}

#[test]
fn cancelling_ends_only_what_no_runner_has_taken() {
    let s = store();
    match s.cancel("e1", None, Some(&row("queued"))).unwrap() {
        Cancelled::New { record, result } => {
            assert_eq!(record.state, "cancelled");
            assert!(!record.cancel_requested);
            assert_eq!(record.claim_id, "");
            assert_eq!(replay_execution(&result).state, "cancelled");
        }
        _ => panic!("replayed"),
    }
    match s.cancel("e1", None, Some(&row("succeeded"))).unwrap() {
        Cancelled::New { record, .. } => {
            assert_eq!(record.state, "succeeded");
            assert!(record.cancel_requested);
        }
        _ => panic!("replayed"),
    }
    assert!(matches!(s.cancel("e1", None, None), Err(PgError::ExecutionNotFound)));
    let stored = StoredOperation {
        request_hash: s.cancel_request_hash("e1"),
        result: Doc::new().put("id", json::text("e1")).json(),
    };
    assert!(matches!(s.cancel("e1", Some(&stored), None).unwrap(), Cancelled::Replay(_)));
    assert!(matches!(s.cancel("e2", Some(&stored), None), Err(PgError::IdempotencyConflict)));
}

#[test]
fn reports_of_success_keep_to_the_scope() {
    let s = store();
    let payload = Doc::new()
        .put("output_digest", json::text("out"))
        .put("environment_digest", json::text("env"))
        .json();
    let inside = vec!["src/a.rs".to_string()];
    match s
        .report("trusted_executor", "succeeded", Some("system"), Some(&row("running")), &payload, &inside)
        .unwrap()
    {
        Reported::Settled { state, result_digest, environment_digest, block, .. } => {
            assert_eq!(state, "succeeded");
            assert_eq!(result_digest.as_deref(), Some("out"));
            assert_eq!(environment_digest.as_deref(), Some("env"));
            assert!(!block);
        }
        _ => panic!("not settled"),
    }
    let outside = vec!["docs/a.md".to_string()];
    match s
        .report("caller_asserted", "succeeded", Some("human"), Some(&row("running")), &payload, &outside)
        .unwrap()
    {
        Reported::OutOfScope { receipt, refusal } => {
            assert!(matches!(refusal, PgError::ScopeExceeded));
            assert_eq!(receipt.get_bool("scope_violation"), Some(true));
            assert_eq!(receipt.get_list("observed_paths").unwrap().len(), 1);
        }
        _ => panic!("in scope"),
    }
}

#[test]
fn reports_are_checked() {
    let s = store();
    let p = json::null();
    let r = row("running");
    assert_eq!(
        protocol_message(s.report("rumour", "failed", Some("system"), Some(&r), &p, &[])),
        "invalid receipt kind"
    );
    assert_eq!(
        protocol_message(s.report("reconcile", "fine", Some("system"), Some(&r), &p, &[])),
        "invalid outcome"
    );
    assert!(matches!(
        s.report("trusted_executor", "failed", Some("agent"), Some(&r), &p, &[]),
        Err(PgError::Forbidden)
    ));
    assert!(matches!(
        s.report("caller_asserted", "failed", None, Some(&r), &p, &[]),
        Err(PgError::Forbidden)
    ));
    assert!(matches!(
        s.report("caller_asserted", "failed", Some("agent"), None, &p, &[]),
        Err(PgError::ExecutionNotFound)
    ));
    assert!(matches!(
        s.report("caller_asserted", "cancelled", Some("agent"), Some(&row("failed")), &p, &[]),
        Ok(Reported::Late)
    ));
}

#[test]
fn unknown_outcomes_block_and_cancellations_do_not_end_what_runs() {
    let s = store();
    let why = Doc::new().put("unknown_reason", json::text("lost")).json();
    match s.report("caller_asserted", "unknown", Some("agent"), Some(&row("running")), &why, &[]).unwrap() {
        Reported::Settled { state, unknown_reason, block, cancel_requested, .. } => {
            assert_eq!(state, "unknown");
            assert_eq!(unknown_reason.as_deref(), Some("lost"));
            assert!(block);
            assert!(!cancel_requested);
        }
        _ => panic!("not settled"),
    }
    match s.report("caller_asserted", "cancelled", Some("agent"), Some(&row("running")), &why, &[]).unwrap() {
        Reported::Settled { state, cancel_requested, .. } => {
            assert_eq!(state, "running");
            assert!(cancel_requested);
        }
        _ => panic!("not settled"),
    }
}

#[test]
fn executions_are_stored_as_reported() {
    let s = store();
    let p = json::null();
    let report = |state: &str, outcome: &str, observed: &[String]| {
        let r = row(state);
        let step =
            s.report("caller_asserted", outcome, Some("agent"), Some(&r), &p, observed).unwrap();
        s.stored_after(&r, &step)
    };
    let outside = ["docs/a.md".to_string()];
    assert_eq!(report("running", "succeeded", &outside), ("failed".to_string(), false));
    assert_eq!(report("running", "failed", &outside), ("failed".to_string(), false));
    assert_eq!(report("running", "succeeded", &[]), ("succeeded".to_string(), false));
    assert_eq!(report("running", "unknown", &[]), ("unknown".to_string(), false));
    assert_eq!(report("queued", "cancelled", &[]), ("cancelled".to_string(), true));
    assert_eq!(report("running", "cancelled", &[]), ("running".to_string(), true));
    assert_eq!(report("succeeded", "cancelled", &[]), ("succeeded".to_string(), true));
}

#[test]
fn only_the_system_reconciles() {
    let s = store();
    assert!(s.reconcile("succeeded", Some("system"), true, true).unwrap());
    assert!(!s.reconcile("unknown", Some("system"), true, true).unwrap());
    assert!(!s.reconcile("failed", Some("system"), true, false).unwrap());
    assert!(matches!(s.reconcile("failed", Some("human"), true, true), Err(PgError::Forbidden)));
    assert!(matches!(
        s.reconcile("failed", Some("system"), false, true),
        Err(PgError::ExecutionNotFound)
    ));
    assert_eq!(
        protocol_message(s.reconcile("running", Some("system"), true, true)),
        "invalid reconcile state"
    );
}

#[test]
fn scopes_cover_files_and_directories() {
    let declared = json::text_list(&["src/net".to_string(), "README.md".to_string()]);
    let yes = vec!["src/net/tcp.rs".to_string(), "/README.md".to_string()];
    assert!(!scope_exceeded(&declared, &yes));
    assert!(scope_exceeded(&declared, &["src/network.rs".to_string()]));
    assert!(scope_exceeded(&json::null(), &["a".to_string()]));
    assert!(!scope_exceeded(&json::null(), &[]));
}

#[test]
fn receipts_are_stored_under_their_digest() {
    let doc = Doc::new().put("a", json::number(1)).json();
    assert_eq!(
        store().receipt_digest(&doc),
        "015abd7f5cc57a2dd94b7590f04ad8084273905ee33ec5cebeae62276a97f862"
    );
}
