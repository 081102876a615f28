use awr_team_pg::error::PgError;
use awr_team_pg::team_handoff::{HandoffKind, HandoffStatus, TeamHandoff};
use awr_team_pg::workstream_command::action_auth::{
    command_action_matrix, command_authority, command_business_action, commands_are_covered,
    DomainAuthority, Operation,
};
use awr_team_pg::workstream_command::handoffs::{
    applied_document, apply, event_document, inspect_query, require_person_match,
    resolve_authenticated_person, Accept, Action, Cancel, Inspect, Propose, Reject, Timeout,
};
use awr_team_pg::json;

fn operation(op: &str, authority: Option<DomainAuthority>, action: Option<&str>) -> Operation {
    Operation { op: op.into(), authority, action: action.map(|a| a.to_string()) }
}

fn catalogue() -> Vec<Operation> {
    vec![
        operation("session.start", Some(DomainAuthority::Role), Some("session.maintain_own")),
        operation("execution.attest", Some(DomainAuthority::Attest), None),
        operation("execution.reconcile", Some(DomainAuthority::Reconcile), None),
        operation("review.decide", Some(DomainAuthority::Role), Some("review.decide")),
        operation("delivery.finalize", Some(DomainAuthority::Role), Some("delivery.finalize")),
        operation("planning.publish", None, Some("planning.publish")),
        operation("planning.edit_draft", None, Some("planning.edit_draft")),
        operation("access.manage_project", None, Some("access.manage_project")),
        operation("audit.read_project", None, Some("audit.read_project")),
    ]
}

#[test]
fn every_command_has_domain_authority_and_action_or_special() {
    let all = catalogue();
    let commands: Vec<String> =
        all.iter().filter(|o| o.authority.is_some()).map(|o| o.op.clone()).collect();
    for op in &commands {
        let domain = command_authority(&all, op).expect(op);
        match command_business_action(&all, op) {
            Some(action) => {
                assert!(
                    !matches!(domain, DomainAuthority::Attest | DomainAuthority::Reconcile),
                    "{op} unexpectedly special while mapped to {}",
                    action
                );
            }
            None => assert!(
                matches!(domain, DomainAuthority::Attest | DomainAuthority::Reconcile),
                "{op} missing both business action and special authority"
            ),
        }
    }
    let matrix = command_action_matrix(&all);
    assert_eq!(matrix.len(), commands.len());
    assert!(matrix.iter().any(|(op, action)| {
        *op == "session.start" && action.as_deref() == Some("session.maintain_own")
    }));
    assert!(matrix.iter().any(|(op, action)| { *op == "execution.attest" && action.is_none() }));
}

#[test]
fn planning_and_access_ops_are_not_workstream_commands_yet() {
    let all = catalogue();
    for op in [
        "planning.publish",
        "planning.edit_draft",
        "access.manage_project",
        "audit.read_project",
    ] {
        assert!(command_authority(&all, op).is_none(), "{op}");
        assert!(command_business_action(&all, op).is_some(), "{op}");
    }
    assert_eq!(
        command_business_action(&all, "review.decide").as_deref(),
        Some("review.decide")
    );
    assert!(command_authority(&all, "review.decide").is_some());
    assert_eq!(
        command_business_action(&all, "delivery.finalize").as_deref(),
        Some("delivery.finalize")
    );
    assert!(command_authority(&all, "delivery.finalize").is_some());
}

#[test]
fn catalogues_with_gaps_are_seen() {
    assert!(commands_are_covered(&catalogue()));
    assert!(!commands_are_covered(&vec![operation("x", Some(DomainAuthority::Role), None)]));
    assert!(!commands_are_covered(&vec![operation(
        "x",
        Some(DomainAuthority::Attest),
        Some("y")
    )]));
    assert!(command_authority(&catalogue(), "unknown").is_none());
    assert!(command_business_action(&catalogue(), "unknown").is_none());
}

fn propose(kind: &str) -> Action {
    Action::Propose(Propose {
        session_id: "s1".into(),
        expected_session_version: 1,
        handoff_id: "h1".into(),
        kind: kind.into(),
        to_person_id: "p2".into(),
        package_task_id: "w1".into(),
    })
}

fn reject(reason: &str) -> Action {
    Action::Reject(Reject {
        session_id: "s1".into(),
        expected_session_version: 1,
        handoff_id: "h1".into(),
        expected_handoff_version: 2,
        by_person_id: "p2".into(),
        reason: reason.into(),
    })
}

fn handoff(work: &str) -> TeamHandoff {
    TeamHandoff {
        id: "h1".into(),
        work_item_id: work.into(),
        kind: HandoffKind::Execution,
        status: HandoffStatus::Inspected,
        version: 18446744073709551615,
        from_person_id: "p1".into(),
        to_person_id: "p2".into(),
        current_person_id: "p1".into(),
        accepted_successor: None,
    }
}

fn invalid() -> PgError {
    PgError::Protocol("invalid request".into())
}

fn is_invalid<T>(r: Result<T, PgError>) -> bool {
    match r {
        Err(PgError::Protocol(m)) => m == "invalid request",
        _ => false,
    }
}

#[test]
fn commands_are_read_under_their_operation() {
    assert!(Action::parse("handoff.propose", Some(propose("execution")), true, invalid()).is_ok());
    assert!(is_invalid(Action::parse("handoff.propose", Some(propose("execution")), false, invalid())));
    assert!(is_invalid(Action::parse("handoff.propose", Some(propose("other")), true, invalid())));
    assert!(is_invalid(Action::parse("handoff.accept", Some(propose("execution")), true, invalid())));
    assert!(is_invalid(Action::parse("handoff.propose", None, true, invalid())));
    assert!(Action::parse("handoff.reject", Some(reject("no")), true, invalid()).is_ok());
    assert!(is_invalid(Action::parse("handoff.reject", Some(reject("  ")), true, invalid())));
    assert!(Action::parse("handoff.reject", Some(reject(&"x".repeat(2048))), true, invalid()).is_ok());
    assert!(is_invalid(Action::parse("handoff.reject", Some(reject(&"x".repeat(2049))), true, invalid())));
}

#[test]
fn versions_and_sessions_are_expected() {
    let timeout = |version: i64, session: &str, session_version: i64| {
        Action::Timeout(Timeout {
            session_id: session.into(),
            expected_session_version: session_version,
            handoff_id: "h1".into(),
            expected_handoff_version: version,
        })
    };
    assert!(Action::parse("handoff.timeout", Some(timeout(1, "s", 1)), true, invalid()).is_ok());
    assert!(is_invalid(Action::parse("handoff.timeout", Some(timeout(0, "s", 1)), true, invalid())));
    assert!(is_invalid(Action::parse("handoff.timeout", Some(timeout(1, "", 1)), true, invalid())));
    assert!(is_invalid(Action::parse("handoff.timeout", Some(timeout(1, "s", 0)), true, invalid())));
    assert_eq!(timeout(1, "s", 5).session(), ("s", 5));
}

#[test]
fn nobody_accepts_for_somebody_else() {
    let accept = Action::Accept(Accept {
        session_id: "s1".into(),
        expected_session_version: 1,
        handoff_id: "h1".into(),
        expected_handoff_version: 2,
        acceptor_person_id: "p2".into(),
    });
    assert!(accept.requires_active_stream());
    assert!(apply(&accept, "w1", true, "p2", Some(&handoff("w1")), invalid()).is_ok());
    assert!(matches!(
        apply(&accept, "w1", true, "p3", Some(&handoff("w1")), invalid()),
        Err(PgError::Forbidden)
    ));
    assert!(matches!(
        apply(&accept, "w1", true, "p2", Some(&handoff("w2")), invalid()),
        Err(PgError::Forbidden)
    ));
    assert!(matches!(
        apply(&accept, "w1", false, "p2", Some(&handoff("w1")), invalid()),
        Err(PgError::PreconditionsChanged)
    ));
    match apply(&accept, "w1", true, "p2", None, invalid()) {
        Err(PgError::Protocol(m)) => assert_eq!(m, "handoff not found"),
        _ => panic!("applied"),
    }
    assert!(require_person_match("a", "a").is_ok());
    assert!(matches!(require_person_match("a", "b"), Err(PgError::Forbidden)));
}

#[test]
fn handoffs_end_even_where_the_stream_is_not_active() {
    let cancel = Action::Cancel(Cancel {
        session_id: "s1".into(),
        expected_session_version: 1,
        handoff_id: "h1".into(),
        expected_handoff_version: 2,
        by_person_id: "p1".into(),
        reason: "done".into(),
    });
    assert!(!cancel.requires_active_stream());
    assert!(apply(&cancel, "w1", false, "p1", Some(&handoff("w1")), invalid()).is_ok());
    let inspect = Action::Inspect(Inspect {
        session_id: "s1".into(),
        expected_session_version: 1,
        handoff_id: "h1".into(),
        expected_handoff_version: 2,
        inspector_person_id: "p2".into(),
    });
    assert!(matches!(
        apply(&inspect, "w1", false, "p2", Some(&handoff("w1")), invalid()),
        Err(PgError::PreconditionsChanged)
    ));
}

#[test]
fn proposals_are_about_the_work_of_the_command() {
    let action = propose("execution");
    assert!(apply(&action, "w1", true, "p1", None, invalid()).is_ok());
    assert!(is_invalid(apply(&action, "w2", true, "p1", None, invalid())));
    assert!(matches!(
        apply(&action, "w2", false, "p1", None, invalid()),
        Err(PgError::PreconditionsChanged)
    ));
}

#[test]
fn agents_speak_for_the_person_that_they_are_bound_to() {
    let one = vec!["p1".to_string()];
    assert_eq!(resolve_authenticated_person(&one, false, "agent-1", "agent").unwrap(), "p1");
    let none: Vec<String> = vec![];
    assert!(matches!(
        resolve_authenticated_person(&none, false, "agent-1", "agent"),
        Err(PgError::Forbidden)
    ));
    assert_eq!(resolve_authenticated_person(&none, true, "agent-1", "agent").unwrap(), "agent-1");
    assert_eq!(resolve_authenticated_person(&none, false, "h", "human").unwrap(), "h");
    let two = vec!["p1".to_string(), "p2".to_string()];
    match resolve_authenticated_person(&two, true, "agent-1", "agent") {
        Err(PgError::Protocol(m)) => assert_eq!(
            m,
            "multiple active person\u{2194}agent bindings for actor; refuse ambiguous handoff identity"
        ),
        _ => panic!("resolved"),
    }
}

#[test]
fn answers_name_the_handoff() {
    let doc = applied_document(&handoff("w1"), json::null(), true, false);
    assert_eq!(doc.get_str("status"), Some("inspected"));
    assert_eq!(doc.get_str("kind"), Some("execution"));
    assert_eq!(doc.get_str("version"), Some("18446744073709551615"));
    assert_eq!(doc.get_bool("timeout_does_not_stop_execution"), Some(true));
    assert_eq!(event_document(&handoff("w1")).get_str("handoff_id"), Some("h1"));
    let seen = inspect_query(json::text("body"), json::null());
    assert_eq!(seen.get_str("handoff"), Some("body"));
    assert_eq!(seen.get_bool("context_requires_refresh"), Some(true));
}
