use awr_team_pg::delivery_adoption::{
    availability_from_completion, cred_status_str, current_selection_for_policy, dep_status_str,
    export_status_str, load_trusted_completion_proof, map_delivery, policy_str, AdoptionCredentialStatus,
    AdoptionFacts, ArtifactRow, CompletionRow, DeliveryAdoptionStore, DeliveryAvailability,
    DeliveryRefusal, DeliveryVersion, DeliveryVersionPolicy, EvidenceLevel, EvidenceRow,
    ExportAuthorizationStatus, HardDependencyStatus, RuntimeRow, StoredDelivery,
};
use awr_team_pg::error::PgError;

fn selected() -> DeliveryVersion {
    DeliveryVersion {
        completion_receipt: "rec".into(),
        contract_sha256: "con".into(),
        artifact_sha256: "art".into(),
        export_scope_sha256: "exp".into(),
    }
}

fn completion(kind: &str) -> CompletionRow {
    CompletionRow {
        work_id: "w".into(),
        contract_hash: "con".into(),
        independence_kind: Some(kind.into()),
        evidence_id: Some("ev".into()),
        approved_by_person_id: Some("person-b".into()),
        submitted_by_person_id: Some("person-a".into()),
        accepted_at_ms: 9,
    }
}

fn evidence(basis: &str) -> EvidenceRow {
    EvidenceRow {
        work_id: "w".into(),
        contract_hash: "con".into(),
        output_digest: Some("art".into()),
        trust_basis: basis.into(),
    }
}

fn message<T>(r: Result<T, PgError>) -> String {
    match r {
        Err(PgError::Protocol(m)) => m,
        _ => panic!("no protocol error"),
    }
}

#[test]
fn proofs_come_from_the_store() {
    let p = load_trusted_completion_proof(
        "w",
        &selected(),
        Some(&completion("team_independent")),
        Some(&evidence("human_review")),
        true,
        true,
    )
    .unwrap();
    assert_eq!(p.completion_receipt_id, "rec");
    assert!(p.team_independent_acceptance);
    assert_eq!(p.reviewer_person_id, "person-b");
    assert_eq!(p.evidence_level, EvidenceLevel::LocallyVerified);
    let q = load_trusted_completion_proof(
        "w",
        &selected(),
        Some(&completion("solo")),
        Some(&evidence("caller_asserted")),
        false,
        true,
    )
    .unwrap();
    assert!(!q.team_independent_acceptance);
    assert_eq!(q.evidence_level, EvidenceLevel::Unknown);
}

#[test]
fn completions_that_do_not_fit_prove_nothing() {
    let missing = "trusted WS-018 completion proof missing";
    let s = selected();
    let c = completion("team_independent");
    let e = evidence("human_review");
    assert_eq!(message(load_trusted_completion_proof("w", &s, None, Some(&e), true, true)), missing);
    assert_eq!(
        message(load_trusted_completion_proof("w2", &s, Some(&c), Some(&e), true, true)),
        "trusted completion contract/work binding mismatch"
    );
    assert_eq!(message(load_trusted_completion_proof("w", &s, Some(&c), None, true, true)), missing);
    assert_eq!(
        message(load_trusted_completion_proof("w", &s, Some(&c), Some(&e), false, true)),
        "trusted completion independent-review binding missing"
    );
    assert_eq!(
        message(load_trusted_completion_proof("w", &s, Some(&c), Some(&e), true, false)),
        "completion evidence id is not a ulid"
    );
    let mut nobody = completion("solo");
    nobody.approved_by_person_id = Some("".into());
    assert_eq!(
        message(load_trusted_completion_proof("w", &s, Some(&nobody), Some(&e), true, true)),
        missing
    );
    let mut early = completion("solo");
    early.accepted_at_ms = -1;
    assert_eq!(
        message(load_trusted_completion_proof("w", &s, Some(&early), Some(&e), true, true)),
        "trusted completion has invalid time"
    );
    let mut other = evidence("human_review");
    other.output_digest = Some("art2".into());
    assert_eq!(
        message(load_trusted_completion_proof("w", &s, Some(&c), Some(&other), true, true)),
        "trusted completion evidence binding mismatch"
    );
}

#[test]
fn missing_artifacts_are_unavailable() {
    let p = load_trusted_completion_proof(
        "w",
        &selected(),
        Some(&completion("solo")),
        Some(&evidence("x")),
        false,
        true,
    )
    .unwrap();
    let row = |digest: &str, state: Option<&str>| ArtifactRow {
        output_digest: Some(digest.into()),
        state: state.map(|s| s.to_string()),
    };
    assert_eq!(
        availability_from_completion(Some(&row("art", None)), &p).unwrap(),
        DeliveryAvailability::Available
    );
    assert_eq!(
        availability_from_completion(Some(&row("art", Some("missing"))), &p).unwrap(),
        DeliveryAvailability::Unavailable
    );
    assert_eq!(
        message(availability_from_completion(Some(&row("x", None)), &p)),
        "trusted completion artifact binding mismatch"
    );
    assert!(availability_from_completion(None, &p).is_err());
}

#[test]
fn contracts_follow_the_selection_and_fixed_deliveries_do_not() {
    let runtime = |state: &str, id: Option<&str>| RuntimeRow {
        state: state.into(),
        selected_completion_id: id.map(|s| s.to_string()),
    };
    let follow = DeliveryVersionPolicy::CurrentContract;
    let s = selected();
    let fixed = current_selection_for_policy(
        DeliveryVersionPolicy::FixedDelivery,
        &s,
        Some(&runtime("completed", Some("new"))),
        true,
    );
    assert!(fixed.unwrap().is_none());
    let now = current_selection_for_policy(follow, &s, Some(&runtime("completed", Some("new"))), true)
        .unwrap()
        .unwrap();
    assert_eq!(now.completion_receipt, "new");
    assert_eq!(now.artifact_sha256, "art");
    let same = current_selection_for_policy(follow, &s, Some(&runtime("completed", Some("rec"))), false);
    assert_eq!(same.unwrap().unwrap().completion_receipt, "rec");
    assert!(current_selection_for_policy(follow, &s, Some(&runtime("running", Some("new"))), true)
        .unwrap()
        .is_none());
    assert!(current_selection_for_policy(follow, &s, Some(&runtime("completed", None)), true)
        .unwrap()
        .is_none());
    assert!(current_selection_for_policy(follow, &s, None, true).unwrap().is_none());
    assert_eq!(
        message(current_selection_for_policy(
            follow,
            &s,
            Some(&runtime("completed", Some("odd"))),
            false
        )),
        "current completion id is not a ulid"
    );
}

#[test]
fn delivery_requests_are_answered_once() {
    let s = DeliveryAdoptionStore::new("postgres://x");
    let stored = StoredDelivery {
        subject_id: "dep".into(),
        op: "register_dependency".into(),
        event_id: "ev".into(),
        event_id_valid: true,
    };
    let r = s.register_dependency("key", Some(&stored), true, true).unwrap().unwrap();
    assert!(r.replayed);
    assert_eq!(r.subject_id, "dep");
    assert_eq!(r.event_id, "ev");
    assert!(s.register_dependency("key", None, false, false).unwrap().is_none());
    assert_eq!(
        message(s.register_dependency("key", None, false, true)),
        "hard delivery dependency id already registered"
    );
    assert_eq!(
        message(s.register_dependency("key", Some(&stored), false, false)),
        "dependency missing for receipt"
    );
    assert_eq!(
        message(s.revoke_dependency("key", Some(&stored), true, true)),
        "delivery credential request_key reused with different op"
    );
    assert_eq!(
        message(s.revoke_dependency("key", None, false, false)),
        "hard delivery dependency missing"
    );
    assert_eq!(
        message(s.grant_export("key", None, false, true)),
        "export authorization id already registered"
    );
    assert_eq!(
        message(s.revoke_export("key", None, false, false)),
        "export authorization missing"
    );
    let odd = StoredDelivery { event_id_valid: false, ..stored.clone() };
    assert_eq!(
        message(s.register_dependency("key", Some(&odd), true, false)),
        "receipt event id is not a ulid"
    );
    assert!(!s.record_receipt("k", "s", "o", "e").replayed);
}

#[test]
fn adoptions_show_what_the_store_holds() {
    let s = DeliveryAdoptionStore::new("postgres://x");
    let good = AdoptionFacts {
        dependency_found: true,
        dependency_matches: true,
        export_found: true,
        export_matches: true,
        credential_exists: false,
    };
    assert!(s.adopt("k", None, false, good).unwrap().is_none());
    let bad = |f: AdoptionFacts| message(s.adopt("k", None, false, f));
    assert_eq!(
        bad(AdoptionFacts { dependency_found: false, ..good }),
        "hard delivery dependency missing"
    );
    assert_eq!(
        bad(AdoptionFacts { dependency_matches: false, ..good }),
        "adoption dependency snapshot does not match store"
    );
    assert_eq!(bad(AdoptionFacts { export_found: false, ..good }), "export authorization missing");
    assert_eq!(
        bad(AdoptionFacts { export_matches: false, ..good }),
        "adoption export authorization snapshot does not match store"
    );
    assert_eq!(
        bad(AdoptionFacts { credential_exists: true, ..good }),
        "adoption credential id already registered"
    );
}

#[test]
fn deliveries_stay_within_the_project() {
    let s = DeliveryAdoptionStore::new("postgres://x");
    assert!(s.admit_dependency("p", "p", "p").is_ok());
    assert_eq!(
        message(s.admit_dependency("p", "p", "q")),
        "delivery dependency project must match tenant project"
    );
    assert!(s.admit_export("p", "p").is_ok());
    assert!(s.admit_export("p", "q").is_err());
    assert!(s.admit_adoption("p", "p", "p").is_ok());
    assert!(s.admit_adoption("p", "q", "p").is_err());
}

#[test]
fn delivery_names_and_refusals() {
    assert_eq!(policy_str(DeliveryVersionPolicy::FixedDelivery), "fixed_delivery");
    assert_eq!(policy_str(DeliveryVersionPolicy::CurrentContract), "current_contract");
    assert_eq!(dep_status_str(HardDependencyStatus::Revoked), "revoked");
    assert_eq!(export_status_str(ExportAuthorizationStatus::Denied), "denied");
    assert_eq!(cred_status_str(AdoptionCredentialStatus::Stale), "stale");
    let text = |r: DeliveryRefusal| match map_delivery(r) {
        PgError::Protocol(m) => m,
        _ => panic!("other error"),
    };
    assert_eq!(text(DeliveryRefusal::InvalidDefinition), "invalid delivery definition");
    assert_eq!(text(DeliveryRefusal::BindingMismatch), "delivery binding mismatch");
    assert_eq!(text(DeliveryRefusal::InvalidTime), "invalid delivery time");
    assert_eq!(
        text(DeliveryRefusal::NotSatisfied { status: "Blocked".into(), reason: "Gone".into() }),
        "delivery not satisfied: Blocked/Gone"
    );
}
