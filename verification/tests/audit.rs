use awr_team_pg::error::PgError;
use awr_team_pg::json;
use awr_team_pg::json::{Doc, Json};
use awr_team_pg::ops_audit::{
    digest_of, record_deny, record_in_tx, redact_summary, sanitize_reason,
    write_from_auth, AuditActor, OpsAuditStore, OpsCategory, OpsDenyWrite, OpsHistoryFilter,
};

#[test]
fn redact_drops_secret_and_chat_keys() {
    let v = redact_summary(
        Doc::new()
            .put("secret_hash", json::text("abc"))
            .put("action", json::text("planning.approve"))
            .put("chat", json::text("hello"))
            .put("token_usage", json::number(9))
            .put("digest", json::text("deadbeef"))
            .json(),
    );
    assert!(v.get("secret_hash").is_none());
    assert!(v.get("chat").is_none());
    assert!(v.get("token_usage").is_none());
    assert_eq!(v.get_str("action"), Some("planning.approve"));
    assert_eq!(v.get_str("digest"), Some("deadbeef"));
}

#[test]
fn sanitize_reason_redacts_secret_words() {
    assert_eq!(sanitize_reason("bearer leaked"), "redacted_deny");
    assert_eq!(sanitize_reason("permission_denied"), "permission_denied");
}

#[test]
fn digest_is_stable_hex() {
    let d = digest_of(&Doc::new().put("a", json::number(1)).json());
    assert_eq!(d.len(), 64);
    assert_eq!(d, digest_of(&Doc::new().put("a", json::number(1)).json()));
}

#[test]
fn digests_are_of_the_compact_form_with_sorted_keys() {
    // The bytes are {"a":1}.
    let d = digest_of(&Doc::new().put("a", json::number(1)).json());
    assert_eq!(d, "015abd7f5cc57a2dd94b7590f04ad8084273905ee33ec5cebeae62276a97f862");
    let ab = Doc::new().put("a", json::number(1)).put("b", json::null()).json();
    let ba = Doc::new().put("b", json::null()).put("a", json::number(1)).json();
    assert_eq!(digest_of(&ab), digest_of(&ba));
}

#[test]
fn long_texts_are_cut_and_stay_cut() {
    let long = "x".repeat(600);
    let doc = Doc::new().put("note", json::text(&long)).put("n", json::number(3)).json();
    let once = redact_summary(doc);
    let note = once.get_str("note").unwrap().to_string();
    assert_eq!(note.len(), 512);
    assert_eq!(note, format!("{}\u{2026}", "x".repeat(509)));
    assert_eq!(once.get_i64("n"), Some(3));
    let twice = redact_summary(once);
    assert_eq!(twice.get_str("note"), Some(note.as_str()));
}

#[test]
fn long_texts_are_cut_between_characters() {
    // The character after the first 508 bytes takes the bytes 509 and 510.
    let across = format!("{}\u{e9}{}", "x".repeat(508), "y".repeat(100));
    let doc = Doc::new().put("note", json::text(&across)).json();
    let once = redact_summary(doc);
    let note = once.get_str("note").unwrap().to_string();
    assert_eq!(note, format!("{}\u{2026}", "x".repeat(508)));
    assert_eq!(note.len(), 511);
    assert_eq!(redact_summary(once).get_str("note"), Some(note.as_str()));
    // Here the character ends with byte 509.
    let fits = format!("{}\u{e9}{}", "x".repeat(507), "y".repeat(100));
    let cut = redact_summary(Doc::new().put("note", json::text(&fits)).json());
    assert_eq!(
        cut.get_str("note").unwrap(),
        format!("{}\u{e9}\u{2026}", "x".repeat(507))
    );
    // Four bytes each: byte 509 splits the character that starts after byte 508.
    let wide = "\u{1f600}".repeat(200);
    let cut = redact_summary(Doc::new().put("note", json::text(&wide)).json());
    assert_eq!(
        cut.get_str("note").unwrap(),
        format!("{}\u{2026}", "\u{1f600}".repeat(127))
    );
    let hidden = Doc::new().put("my_Token", json::text(&across)).json();
    assert_eq!(redact_summary(hidden), Doc::new().json());
    let exact = Doc::new().put("note", json::text(&"x".repeat(512))).json();
    assert_eq!(redact_summary(exact).get_str("note").unwrap().len(), 512);
}

#[test]
fn only_documents_of_fields_are_redacted() {
    assert_eq!(redact_summary(json::text("secret")), json::text("secret"));
}

#[test]
fn reasons_are_trimmed_bounded_and_never_empty() {
    assert_eq!(sanitize_reason("   "), "denied");
    assert_eq!(sanitize_reason(" no_grant \n"), "no_grant");
    assert_eq!(sanitize_reason("the PASSWORD was"), "redacted_deny");
    assert_eq!(sanitize_reason(&"r".repeat(200)), "r".repeat(128));
}

fn actor(snapshot: &str) -> AuditActor {
    AuditActor {
        actor_id: "a1".into(),
        client_id: "c1".into(),
        membership_version: 4,
        policy_version: 2,
        snapshot: snapshot.into(),
    }
}

#[test]
fn only_effects_of_known_categories_are_recorded() {
    let w = write_from_auth(&actor("snap"), OpsCategory::Access, "access.grant", "member");
    assert_eq!(w.source_version.as_deref(), Some("snap"));
    assert_eq!(w.membership_version, Some(4));
    assert!(record_in_tx(&w).is_ok());
    let other = write_from_auth(&actor(""), OpsCategory::Other, "x", "y");
    assert_eq!(other.source_version, None);
    match record_in_tx(&other) {
        Err(PgError::Protocol(m)) => {
            assert_eq!(m, "ops audit success rows require access|planning|delivery")
        }
        _ => panic!("recorded"),
    }
    let mut odd = write_from_auth(&actor(""), OpsCategory::Planning, "x", "y");
    odd.result = "denied";
    match record_in_tx(&odd) {
        Err(PgError::Protocol(m)) => assert_eq!(m, "invalid ops audit result"),
        _ => panic!("recorded"),
    }
}

#[test]
fn denials_need_a_project() {
    let w = OpsDenyWrite {
        category: OpsCategory::Delivery,
        action: "delivery.adopt".into(),
        actor_id: None,
        client_id: None,
        person_id: None,
        target_kind: None,
        target_id: None,
        request_id: None,
        reason_code: "token expired".into(),
    };
    assert_eq!(record_deny(true, &w).unwrap(), "redacted_deny");
    assert!(matches!(record_deny(false, &w), Err(PgError::ProjectNotAvailable)));
}

#[test]
fn readers_without_the_permission_see_themselves_only() {
    let store = OpsAuditStore::new("postgres://x");
    let mut filter = OpsHistoryFilter::default();
    let own = store.read_surface("a1", false, Ok(()), &filter).unwrap();
    assert_eq!(own.actor_scope.as_deref(), Some("a1"));
    assert_eq!(own.limit, 50);
    filter.member_actor_id = Some("a2".into());
    assert!(matches!(
        store.read_surface("a1", false, Ok(()), &filter),
        Err(PgError::Forbidden)
    ));
    let wide = store.read_surface("a1", true, Err(PgError::Forbidden), &filter).unwrap();
    assert_eq!(wide.actor_scope.as_deref(), Some("a2"));
    assert!(matches!(
        store.read_surface("a1", false, Err(PgError::SessionNotFound), &filter),
        Err(PgError::SessionNotFound)
    ));
}

#[test]
fn pages_are_between_one_and_two_hundred() {
    let store = OpsAuditStore::new("postgres://x");
    for (asked, got) in [(-5, 1), (0, 1), (1, 1), (199, 199), (9000, 200)] {
        let filter = OpsHistoryFilter { limit: Some(asked), ..OpsHistoryFilter::default() };
        assert_eq!(store.read_surface("a", true, Ok(()), &filter).unwrap().limit, got);
    }
}

#[test]
fn exports_say_what_they_are() {
    let store = OpsAuditStore::new("postgres://x");
    let filter = OpsHistoryFilter { include_denies: true, ..OpsHistoryFilter::default() };
    let scope = store.read_surface("a", true, Ok(()), &filter).unwrap();
    let page = store.history(&scope, &filter, vec![json::text("r")], vec![json::text("d")]);
    assert_eq!(page.get_str("scope"), Some("project"));
    assert_eq!(page.get_list("denies").unwrap().len(), 1);
    assert!(page.get("export").is_none());
    let export = store.export(&scope, &OpsHistoryFilter::default(), vec![], vec![json::text("d")]);
    assert_eq!(export.get_bool("export"), Some(true));
    assert_eq!(export.get_list("denies").unwrap().len(), 0);
    assert_eq!(
        export.get_str("scope_note"),
        Some("ops_audit_only_no_chat_tool_io_or_token_billing")
    );
    let count = store.count(&scope, &filter, 3, 2);
    assert_eq!(count.get_i64("denies"), Some(2));
    let none: Json = store.count(&scope, &OpsHistoryFilter::default(), 3, 2);
    assert_eq!(none.get_i64("denies"), Some(0));
}
