use awr_team_pg::error::PgError;
use awr_team_pg::json;
use awr_team_pg::team_handoff::{
    commit_accepted_transfer, kind_str, map_core, parse_kind, status_str, CoreRefusal,
    ExecutionInstance, HandoffKind, HandoffStatus, HandoffStore, ResponsibilityRow, StoredReceipt,
    TeamHandoff, Transfer,
};

fn handoff(kind: HandoffKind, status: HandoffStatus) -> TeamHandoff {
    TeamHandoff {
        id: "h1".into(),
        work_item_id: "w1".into(),
        kind,
        status,
        version: 3,
        from_person_id: "p1".into(),
        to_person_id: "p2".into(),
        current_person_id: "p0".into(),
        accepted_successor: Some(ExecutionInstance::AgentRun {
            person_id: "p2".into(),
            agent_id: "ag".into(),
            binding_id: "b".into(),
        }),
    }
}

fn row(owner: Option<&str>, executor: Option<&str>) -> ResponsibilityRow {
    ResponsibilityRow {
        owner_person_id: owner.map(|s| s.to_string()),
        executor_person_id: executor.map(|s| s.to_string()),
        version: 5,
    }
}

fn message<T>(r: Result<T, PgError>) -> String {
    match r {
        Err(PgError::Protocol(m)) => m,
        _ => panic!("no protocol error"),
    }
}

#[test]
fn only_acceptance_of_an_open_handoff_moves_anything() {
    let h = handoff(HandoffKind::Responsibility, HandoffStatus::Rejected);
    assert!(matches!(commit_accepted_transfer(true, &h, None).unwrap(), Transfer::Nothing));
    let again = handoff(HandoffKind::Responsibility, HandoffStatus::Accepted);
    assert!(matches!(commit_accepted_transfer(false, &again, None).unwrap(), Transfer::Nothing));
}

#[test]
fn owners_give_their_responsibility_away() {
    let h = handoff(HandoffKind::Responsibility, HandoffStatus::Accepted);
    match commit_accepted_transfer(true, &h, Some(&row(Some("p1"), None))).unwrap() {
        Transfer::Owner { owner, version } => {
            assert_eq!(owner, "p2");
            assert_eq!(version, 6);
        }
        _ => panic!("nothing moved"),
    }
    match commit_accepted_transfer(true, &h, None).unwrap() {
        Transfer::Owner { version, .. } => assert_eq!(version, 1),
        _ => panic!("nothing moved"),
    }
    assert!(matches!(
        commit_accepted_transfer(true, &h, Some(&row(Some("p3"), None))),
        Err(PgError::Forbidden)
    ));
    let mut last = row(Some("p3"), None);
    last.version = i64::MAX;
    assert!(matches!(commit_accepted_transfer(true, &h, Some(&last)), Err(PgError::Forbidden)));
    assert!(matches!(
        commit_accepted_transfer(false, &h, Some(&last)).unwrap(),
        Transfer::Nothing
    ));
    assert!(matches!(
        commit_accepted_transfer(true, &h, Some(&row(None, None))),
        Err(PgError::Forbidden)
    ));
}

#[test]
fn executions_go_to_the_successor() {
    let h = handoff(HandoffKind::Execution, HandoffStatus::Accepted);
    for executor in [None, Some("p1"), Some("p0")] {
        match commit_accepted_transfer(true, &h, Some(&row(None, executor))).unwrap() {
            Transfer::Execution { owner_fallback, executor, version } => {
                assert_eq!(owner_fallback, "p1");
                assert_eq!(executor.kind, "agent_run");
                assert_eq!(executor.agent_id.as_deref(), Some("ag"));
                assert_eq!(version, 6);
            }
            _ => panic!("nothing moved"),
        }
    }
    assert!(matches!(
        commit_accepted_transfer(true, &h, Some(&row(None, Some("p9")))),
        Err(PgError::Forbidden)
    ));
    let mut bare = handoff(HandoffKind::Execution, HandoffStatus::Accepted);
    bare.accepted_successor = None;
    assert_eq!(
        message(commit_accepted_transfer(true, &bare, None)),
        "accepted handoff missing successor execution"
    );
    bare.accepted_successor = Some(ExecutionInstance::Person { person_id: "p2".into() });
    match commit_accepted_transfer(true, &bare, None).unwrap() {
        Transfer::Execution { executor, .. } => {
            assert_eq!(executor.kind, "person");
            assert_eq!(executor.binding_id, None);
        }
        _ => panic!("nothing moved"),
    }
}

#[test]
fn keys_stand_for_one_request() {
    let s = HandoffStore::new("postgres://x");
    let stored =
        StoredReceipt { handoff_id: "h1".into(), event_id: "ev".into(), op: "accept".into() };
    assert!(s.accept(Some(&stored), "h1", true, true).unwrap());
    assert!(matches!(
        s.accept(Some(&stored), "h1", true, false),
        Err(PgError::IdempotencyConflict)
    ));
    assert!(matches!(
        s.accept(Some(&stored), "h2", true, true),
        Err(PgError::IdempotencyConflict)
    ));
    assert!(matches!(
        s.mutate(Some(&stored), "reject", "h1", true),
        Err(PgError::IdempotencyConflict)
    ));
    assert_eq!(message(s.accept(Some(&stored), "h1", false, true)), "handoff missing for receipt");
    assert_eq!(message(s.mutate(None, "cancel", "h1", false)), "handoff not found");
    assert_eq!(s.mutate(None, "cancel", "h1", true).unwrap(), false);
    assert_eq!(s.propose(None, false).unwrap(), false);
    assert!(matches!(s.propose(Some(&stored), true), Err(PgError::IdempotencyConflict)));
    assert!(s.duty(true).is_ok());
    assert_eq!(message(s.duty(false)), "handoff not found");
    assert!(s.stored(true).is_ok());
    assert!(matches!(s.stored(false), Err(PgError::PreconditionsChanged)));
}

#[test]
fn receipts_repeat_the_handoff() {
    let s = HandoffStore::new("postgres://x");
    let h = handoff(HandoffKind::Execution, HandoffStatus::TimedOut);
    let r = s.record(&h, "key", "timeout", "ev", true, json::text("duty"));
    assert_eq!(r.version, 3);
    assert_eq!(r.status, HandoffStatus::TimedOut);
    assert!(r.replayed);
    assert_eq!(status_str(r.status), "timed_out");
}

#[test]
fn handoff_names_are_read_back() {
    for k in [HandoffKind::Execution, HandoffKind::Responsibility] {
        assert_eq!(parse_kind(kind_str(k)), Some(k));
    }
    assert_eq!(parse_kind("both"), None);
    let names = [
        HandoffStatus::Proposed,
        HandoffStatus::Inspected,
        HandoffStatus::Accepted,
        HandoffStatus::Rejected,
        HandoffStatus::Cancelled,
        HandoffStatus::TimedOut,
    ]
    .map(status_str);
    assert_eq!(names, ["proposed", "inspected", "accepted", "rejected", "cancelled", "timed_out"]);
}

#[test]
fn refusals_of_the_rules_are_told_apart() {
    assert!(matches!(map_core(CoreRefusal::RevisionConflict), PgError::PreconditionsChanged));
    assert!(matches!(map_core(CoreRefusal::ClaimConflict), PgError::ClaimHeld));
    assert!(matches!(map_core(CoreRefusal::RuleViolation), PgError::Forbidden));
    assert!(matches!(
        map_core(CoreRefusal::NotFound("h".into())),
        PgError::Protocol(m) if m == "not found: h"
    ));
    assert!(matches!(
        map_core(CoreRefusal::InvalidInput("i".into())),
        PgError::Protocol(m) if m == "i"
    ));
    assert!(matches!(map_core(CoreRefusal::Other("o".into())), PgError::Protocol(m) if m == "o"));
}
