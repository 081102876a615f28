use awr_team_pg::bootstrap::{quote_ident, Bootstrap, Table};
use awr_team_pg::digest::{digest_of, sha256_hex};
use awr_team_pg::error::PgError;
use awr_team_pg::json;
use awr_team_pg::json::{Doc, Json};
use awr_team_pg::migrate::{check_schema, migrate, EXPECTED_SCHEMA_VERSION};
use awr_team_pg::order;
use awr_team_pg::pool::PgPool;
use awr_team_pg::text;
use awr_team_pg::tx::{
    new_id, request_document, CommandRequest, Executed, StoredCommand, TeamStore,
};

fn request(op: &str, args: Json) -> CommandRequest {
    CommandRequest {
        tenant_id: "t".into(),
        project_id: "p".into(),
        actor_id: "a".into(),
        client_id: "c".into(),
        request_id: "r".into(),
        op: op.into(),
        args,
    }
}

fn touch() -> Json {
    Doc::new().put("work_id", json::text("w1")).put("scope_id", json::text("main")).json()
}

fn message<T>(r: Result<T, PgError>) -> String {
    match r {
        Err(PgError::Protocol(m)) => m,
        _ => panic!("no protocol error"),
    }
}

#[test]
fn commands_are_executed_once() {
    let s = TeamStore::new("postgres://x");
    let req = request("work.touch", touch());
    let (revision, result) = match s.execute(&req, "h", Some(41), None).unwrap() {
        Executed::Apply { revision, event_type, touch, outcome } => {
            assert_eq!(event_type, "command.work.touch");
            assert_eq!(touch.work_id, "w1");
            assert_eq!(outcome.committed_project_revision, "42");
            assert!(!outcome.replayed);
            (revision, outcome.result)
        }
        _ => panic!("replayed"),
    };
    assert_eq!(revision, 42);
    assert_eq!(result.get_i64("revision"), Some(42));
    let stored =
        StoredCommand { request_hash: "h".into(), committed_project_revision: revision, result };
    match s.execute(&req, "h", Some(99), Some(&stored)).unwrap() {
        Executed::Replay(outcome) => {
            assert!(outcome.replayed);
            assert_eq!(outcome.committed_project_revision, "42");
            assert_eq!(outcome.result.get_str("work_id"), Some("w1"));
        }
        _ => panic!("applied twice"),
    }
    assert!(matches!(
        s.execute(&req, "h", Some(i64::MAX), Some(&stored)).unwrap(),
        Executed::Replay(_)
    ));
    assert!(matches!(
        s.execute(&req, "other", Some(99), Some(&stored)),
        Err(PgError::IdempotencyConflict)
    ));
}

#[test]
fn commands_need_a_project_and_their_arguments() {
    let s = TeamStore::new("postgres://x");
    assert!(matches!(
        s.execute(&request("work.touch", touch()), "h", None, None),
        Err(PgError::ProjectNotAvailable)
    ));
    assert_eq!(
        message(s.execute(&request("work.drop", touch()), "h", Some(1), None)),
        "unsupported op work.drop"
    );
    assert_eq!(
        message(s.execute(&request("work.touch", Doc::new().json()), "h", Some(1), None)),
        "work_id required"
    );
    let half = Doc::new().put("work_id", json::text("w")).json();
    assert_eq!(
        message(s.execute(&request("work.touch", half), "h", Some(1), None)),
        "scope_id required"
    );
    let doc = request_document(&request("work.touch", touch()));
    assert_eq!(doc.get_str("tenant_id"), Some("t"));
    assert_eq!(doc.get("args").unwrap().get_str("scope_id"), Some("main"));
}

#[test]
fn identifiers_are_26_digits() {
    let a = new_id();
    assert_eq!(a.len(), 26);
    assert!(a.chars().all(|c| c.is_ascii_digit() || c.is_ascii_uppercase()));
    assert!(!a.contains(['I', 'L', 'O', 'U']));
    assert!(text::identity(&a));
    assert_ne!(a, new_id());
}

#[test]
fn digests_are_those_of_sha256() {
    assert_eq!(
        sha256_hex(b""),
        "e3b0c44298fc1c149afbf4c8996fb92427ae41e4649b934ca495991b7852b855"
    );
    assert_eq!(
        digest_of(&Doc::new().put("a", json::number(1)).json()),
        sha256_hex(b"{\"a\":1}")
    );
    let nested = Doc::new()
        .put("b", Json::Arr(vec![json::null(), json::flag(true), json::text("\"")]))
        .put("a", float(1.5))
        .json();
    assert_eq!(digest_of(&nested), sha256_hex(b"{\"a\":1.5,\"b\":[null,true,\"\\\"\"]}"));
}

fn float(x: f64) -> Json {
    Json::Num(serde_json::Number::from_f64(x).unwrap())
}

#[test]
fn numbers_are_digested_as_they_are() {
    // Numbers that a fast reading of their text would miss by the last digit.
    for x in [-9007199254740993.5, 0.1 + 0.2, 122.416294033786585, 8.41e21, 5e-324, 1.0] {
        let bytes = serde_json::to_vec(&serde_json::Value::from(x)).unwrap();
        assert_eq!(digest_of(&float(x)), sha256_hex(&bytes));
        assert_eq!(digest_of(&float(x).copy()), sha256_hex(&bytes));
    }
    assert_eq!(digest_of(&float(0.1 + 0.2)), sha256_hex(b"0.30000000000000004"));
    assert_eq!(digest_of(&Json::UInt(u64::MAX)), sha256_hex(b"18446744073709551615"));
    assert_eq!(digest_of(&Json::UInt(5)), digest_of(&Json::Int(5)));
    assert_eq!(Json::UInt(5).as_i64(), Some(5));
    assert_eq!(Json::UInt(u64::MAX).as_i64(), None);
    assert_eq!(json::count(3), Json::Int(3));
}

#[test]
fn names_are_quoted_for_sql() {
    assert_eq!(quote_ident("app"), "\"app\"");
    assert_eq!(quote_ident("a\"b"), "\"a\"\"b\"");
    assert_ne!(quote_ident("a\"\"b"), quote_ident("a\"b"));
}

#[test]
fn application_rights_in_sql() {
    let sql = Bootstrap::grant_app("app");
    assert_eq!(sql.len(), 31);
    assert_eq!(sql[0], "GRANT USAGE ON SCHEMA awr_team TO \"app\";");
    assert_eq!(
        sql[1],
        "GRANT SELECT, INSERT, UPDATE, DELETE ON ALL TABLES IN SCHEMA awr_team TO \"app\";"
    );
    assert_eq!(sql[2], "REVOKE UPDATE, DELETE ON awr_team.events FROM \"app\";");
    assert!(sql.contains(&"REVOKE ALL ON awr_team.access_changes FROM \"app\";".to_string()));
    assert_eq!(sql[30], "GRANT SELECT ON awr_team.schema_state TO \"app\";");
    assert_eq!(Table::PlanningApprovals.as_str(), "planning_approvals");
}

#[test]
fn schemas_are_brought_to_the_expected_version() {
    assert_eq!(migrate(None).unwrap(), vec![1, 2, 3, 4, 5, 6]);
    assert_eq!(migrate(Some(4)).unwrap(), vec![5, 6]);
    assert!(migrate(Some(EXPECTED_SCHEMA_VERSION)).unwrap().is_empty());
    match migrate(Some(7)) {
        Err(PgError::SchemaIncompatible(m)) => assert_eq!(m, "schema version 7, expected 6"),
        _ => panic!("migrated"),
    }
    assert!(check_schema(Some(6)).is_ok());
    match check_schema(Some(5)) {
        Err(PgError::SchemaIncompatible(m)) => assert_eq!(m, "schema version 5, expected 6"),
        _ => panic!("accepted"),
    }
    assert!(check_schema(None).is_err());
}

#[test]
fn numbers_are_written_and_read_in_decimal() {
    for n in [0, 7, -1, 10, i64::MAX, i64::MIN] {
        assert_eq!(text::decimal(n), n.to_string());
        assert_eq!(text::parse_int(&n.to_string()), Some(n));
    }
    assert_eq!(text::decimal_count(u64::MAX), u64::MAX.to_string());
    for s in ["", "-", "+", "1a", " 1", "9223372036854775808", "--1"] {
        assert_eq!(text::parse_int(s), s.parse::<i64>().ok());
    }
    assert_eq!(text::parse_int("+5"), Some(5));
    assert_eq!(text::parse_int("007"), Some(7));
}

#[test]
fn texts_are_told_apart_and_trimmed() {
    assert!(text::same("a\u{e9}", "a\u{e9}"));
    assert!(!text::same("a", "b"));
    assert_eq!(text::trim(" \t\u{a0}x y\u{3000}\n"), "x y");
    assert_eq!(text::trim("x"), "x");
    assert!(text::blank("\u{2003}"));
    assert!(!text::blank("."));
    assert!(text::hex(&"0f".repeat(32)));
    assert!(!text::hex("0f"));
    assert_eq!(text::plus("a".to_string(), "b"), "ab");
}

#[test]
fn lists_of_texts_ascend_by_bytes() {
    assert!(order::less("a", "ab"));
    assert!(!order::less("b", "a"));
    assert!(!order::less("a", "a"));
    let list: Vec<String> = vec!["b".into(), "a".into(), "b".into()];
    assert_eq!(order::distinct(&list), vec!["a", "b"]);
    assert!(order::member(&list, "b"));
    assert!(!order::member(&list, "c"));
}

#[test]
fn pools_keep_their_address() {
    assert_eq!(PgPool::new("postgres://h/db").url(), "postgres://h/db");
}

#[test]
fn documents_give_back_what_was_put() {
    let d = Doc::new()
        .put("a", json::text("x"))
        .put("b", Doc::new().put("c", json::number(2)).json())
        .put("a", json::text("later"))
        .json();
    assert_eq!(d.get_str("a"), Some("x"));
    assert_eq!(d.get2("b", "c").unwrap().as_i64(), Some(2));
    assert!(d.get("z").is_none());
    assert_eq!(d.copy(), d);
}
