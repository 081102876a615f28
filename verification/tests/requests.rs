use awr_team_pg::error::PgError;
use awr_team_pg::json;
use awr_team_pg::operator_request::{
    answer, next_revision, one_row, operator_actor, outcome, replay, same_plan, StoredRequest,
};

#[test]
fn the_same_intent_is_answered_with_its_receipt_and_another_refused() {
    let stored = StoredRequest { request_hash: "h1".into(), receipt: json::text("done") };
    let again = replay(Some(&stored), "h1").unwrap().unwrap();
    assert_eq!(again, answer(true, json::text("done")));
    assert_eq!(again.get_bool("replayed"), Some(true));
    assert!(matches!(replay(Some(&stored), "h2"), Err(PgError::IdempotencyConflict)));
    assert!(replay(None, "h1").unwrap().is_none());
    assert_eq!(outcome(None).get_str("outcome"), Some("unknown"));
}

#[test]
fn plans_are_applied_as_they_were_seen() {
    assert!(same_plan("s", "p", "s", "p").is_ok());
    assert!(matches!(same_plan("s", "p", "s", "q"), Err(PgError::PreconditionsChanged)));
    assert!(matches!(same_plan("s", "p", "r", "p"), Err(PgError::PreconditionsChanged)));
}

#[test]
fn writes_that_miss_their_row_are_refused() {
    assert!(one_row(1).is_ok());
    assert!(matches!(one_row(0), Err(PgError::PreconditionsChanged)));
    assert!(matches!(one_row(2), Err(PgError::PreconditionsChanged)));
    assert_eq!(next_revision(Some(9)).unwrap(), 9);
    assert!(matches!(next_revision(None), Err(PgError::PreconditionsChanged)));
    assert_eq!(operator_actor("owner"), "operator:owner");
}
