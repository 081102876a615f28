use awr_team_pg::error::PgError;
use awr_team_pg::lease::{
    claim_document, next_fence, replay_claim, ClaimRow, ClaimStep, LeaseStore, RenewStep,
    SessionRow,
};
use awr_team_pg::json::Doc;
use awr_team_pg::operation::StoredOperation;

fn store() -> LeaseStore {
    LeaseStore::new("postgres://x")
}

fn session(state: &str) -> SessionRow {
    SessionRow {
        work_id: "w1".into(),
        scope_id: "main".into(),
        actor_id: "a1".into(),
        client_id: "c1".into(),
        state: state.into(),
    }
}

fn held(state: &str) -> ClaimRow {
    ClaimRow {
        session_id: "s1".into(),
        actor_id: "a1".into(),
        work_id: "w1".into(),
        scope_id: "main".into(),
        fence: 4,
        lease_version: 7,
        state: state.into(),
    }
}

#[test]
fn claims_need_a_free_work_and_an_active_session() {
    let s = store();
    match s.claim(None, Some(&session("active")), "a1", "c1", false, 0, None).unwrap() {
        ClaimStep::Acquire { work_id, scope_id } => {
            assert_eq!(work_id, "w1");
            assert_eq!(scope_id, "main");
        }
        _ => panic!("replayed"),
    }
    assert!(s.claim(None, Some(&session("active")), "a1", "c1", false, 0, Some("a1")).is_ok());
    assert!(matches!(
        s.claim(None, None, "a1", "c1", false, 0, None),
        Err(PgError::SessionNotFound)
    ));
    assert!(matches!(
        s.claim(None, Some(&session("ended")), "a1", "c1", false, 0, None),
        Err(PgError::Forbidden)
    ));
    assert!(matches!(
        s.claim(None, Some(&session("active")), "a1", "c2", false, 0, None),
        Err(PgError::Forbidden)
    ));
    assert!(matches!(
        s.claim(None, Some(&session("active")), "a1", "c1", true, 0, None),
        Err(PgError::RecoveryBlocked)
    ));
    assert!(matches!(
        s.claim(None, Some(&session("active")), "a1", "c1", false, 1, None),
        Err(PgError::WaitOpen)
    ));
    assert!(matches!(
        s.claim(None, Some(&session("active")), "a1", "c1", false, 0, Some("a2")),
        Err(PgError::ClaimHeld)
    ));
    assert!(s.claim_stored(true).is_ok());
    assert!(matches!(s.claim_stored(false), Err(PgError::ClaimHeld)));
}

#[test]
fn granted_claims_are_given_back() {
    let s = store();
    let granted = s.new_claim("cl1", "s1", "a1", "w1", 5, "soon");
    assert_eq!(granted.state, "active");
    assert_eq!(granted.lease_version, 1);
    assert_eq!(granted.fence, 5);
    assert!(!granted.replayed);
    assert_eq!(s.granted("cl1", "s1", "a1", "w1", 5, 8, "soon").lease_version, 8);
    let stored = StoredOperation {
        request_hash: s.request_hash("claim.acquire", "r1"),
        result: claim_document(&granted),
    };
    assert_eq!(stored.request_hash, "claim.acquire:r1");
    match s.claim(Some(&stored), None, "other", "other", true, 9, Some("x")).unwrap() {
        ClaimStep::Replay(again) => {
            assert!(again.replayed);
            assert_eq!(again.id, "cl1");
            assert_eq!(again.fence, 5);
            assert_eq!(again.expires_at, "soon");
        }
        _ => panic!("acquired"),
    }
    assert_eq!(replay_claim(&Doc::new().json()).state, "active");
}

#[test]
fn fences_grow() {
    assert_eq!(next_fence(None), 1);
    assert_eq!(next_fence(Some(1)), 2);
    assert_eq!(next_fence(Some(41)), 42);
    let s = store();
    assert!(s.require_fence(Some((2, "a1")), "a1", 2).is_ok());
    assert!(matches!(s.require_fence(Some((2, "a1")), "a1", 1), Err(PgError::StaleFence)));
    assert!(matches!(s.require_fence(Some((2, "a1")), "a2", 2), Err(PgError::StaleFence)));
    assert!(matches!(s.require_fence(None, "a1", 2), Err(PgError::LeaseExpired)));
}

#[test]
fn holders_renew_what_has_not_expired() {
    let s = store();
    match s.renew(None, Some(&held("active")), "a1", "active").unwrap() {
        RenewStep::Extend { lease_version } => assert_eq!(lease_version, 8),
        _ => panic!("replayed"),
    }
    assert!(matches!(
        s.renew(None, Some(&held("active")), "a1", "expired"),
        Err(PgError::LeaseExpired)
    ));
    assert!(matches!(
        s.renew(None, Some(&held("released")), "a1", "active"),
        Err(PgError::LeaseExpired)
    ));
    assert!(matches!(
        s.renew(None, Some(&held("active")), "a2", "active"),
        Err(PgError::Forbidden)
    ));
    let mut last = held("active");
    last.lease_version = i64::MAX;
    assert!(matches!(s.renew(None, Some(&last), "a2", "active"), Err(PgError::Forbidden)));
    assert!(matches!(s.renew(None, Some(&last), "a1", "expired"), Err(PgError::LeaseExpired)));
    match s.renew(None, None, "a1", "active") {
        Err(PgError::Protocol(m)) => assert_eq!(m, "claim not found"),
        _ => panic!("renewed"),
    }
    let stored = StoredOperation { request_hash: "x".into(), result: Doc::new().json() };
    assert!(matches!(s.renew(Some(&stored), None, "a", "b").unwrap(), RenewStep::Replay(_)));
}

#[test]
fn holders_give_up_what_is_active() {
    let s = store();
    assert!(s.release(Some(&held("active")), "a1").is_ok());
    assert!(s.handoff(Some(&held("active")), "a1").is_ok());
    assert!(matches!(s.release(Some(&held("active")), "a2"), Err(PgError::Forbidden)));
    assert!(matches!(s.handoff(Some(&held("expired")), "a1"), Err(PgError::LeaseExpired)));
    assert!(s.release(None, "a1").is_err());
}

#[test]
fn questions_do_not_renew_a_claim() {
    let s = store();
    assert!(s.wait(Some("t1"), "t1").is_ok());
    match s.wait(Some("t1"), "t2") {
        Err(PgError::Protocol(m)) => assert_eq!(m, "wait must not renew the lease"),
        _ => panic!("asked"),
    }
    assert!(matches!(s.wait(None, "t1"), Err(PgError::LeaseExpired)));
    assert!(s.reply(1).is_ok());
    assert!(s.reply(0).is_err());
}

#[test]
fn sessions_start_active() {
    let r = store().start_session("s1", "a1", "c1", "conv", "w1");
    assert_eq!(r.state, "active");
    assert_eq!(r.conversation_id, "conv");
}
