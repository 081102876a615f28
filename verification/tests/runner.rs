use awr_team_pg::execution::OutboxDelivery;
use awr_team_pg::json;
use awr_team_pg::json::{Doc, Json};
use awr_team_pg::runner::{
    env_digest, observed_paths, ordered_paths, output_digest, CrashPoint, FileRead, FileWrite,
    ReferenceRunner, RunnerStep,
};

fn delivery(scope: Vec<String>) -> OutboxDelivery {
    let item = |path: &str, content: &str| {
        Doc::new().put("path", json::text(path)).put("content", json::text(content)).json()
    };
    let writes = Json::Arr(vec![item("src\\a.rs", "one"), item("", "dropped"), item("b", "two")]);
    OutboxDelivery {
        outbox_id: "o".into(),
        execution_id: "e1".into(),
        effect_key: "k".into(),
        fence: 1,
        fencing_class: "hard_fence".into(),
        declared_scope: json::text_list(&scope),
        payload: Doc::new().put("writes", writes).json(),
        delivery_attempts: 1,
    }
}

#[test]
fn journalled_deliveries_have_no_second_effect() {
    let runner = ReferenceRunner::new("/r");
    let d = delivery(vec![]);
    let first = match runner.handle_delivery(&d, CrashPoint::Never, "/r/worktree", None) {
        RunnerStep::Begin(o) => o,
        _ => panic!("not begun"),
    };
    assert_eq!(first.state, "accepted");
    assert!(first.exactly_once_supported);
    let kept = first.clone();
    match runner.handle_delivery(&d, CrashPoint::BeforeJournal, "/r/worktree", Some(first)) {
        RunnerStep::Done(o) => assert_eq!(o, kept),
        _ => panic!("begun again"),
    }
}

#[test]
fn runners_that_stop_say_how_far_they_came() {
    let runner = ReferenceRunner::new("/r");
    let d = delivery(vec!["src".into(), "b".into()]);
    match runner.handle_delivery(&d, CrashPoint::BeforeJournal, "/w", None) {
        RunnerStep::Done(o) => {
            assert_eq!(o.state, "prepared");
            assert!(!o.unknown);
        }
        _ => panic!("went on"),
    }
    match runner.handle_delivery(&d, CrashPoint::AfterJournalBeforeEffect, "/w", None) {
        RunnerStep::Stop(o) => {
            assert_eq!(o.state, "unknown");
            assert!(o.unknown);
            assert!(!o.started);
        }
        _ => panic!("went on"),
    }
    let begun = match runner.handle_delivery(&d, CrashPoint::AfterEffectBeforeReport, "/w", None) {
        RunnerStep::Begin(o) => o,
        _ => panic!("stopped"),
    };
    let end = runner.finish(
        begun,
        &d,
        CrashPoint::AfterEffectBeforeReport,
        vec!["b".into()],
        "digest".into(),
    );
    assert_eq!(end.state, "unknown");
    assert!(end.started);
    assert_eq!(end.output_digest.as_deref(), Some("digest"));
}

#[test]
fn writes_name_their_paths_with_slashes() {
    let runner = ReferenceRunner::new("/r");
    let d = delivery(vec!["src".into()]);
    let writes: Vec<FileWrite> = runner.writes(&d);
    assert_eq!(writes.len(), 2);
    assert_eq!(writes[0].path, "src\\a.rs");
    assert_eq!(writes[1].content, "two");
    let paths = observed_paths(&writes);
    assert_eq!(paths, vec!["src/a.rs".to_string(), "b".to_string()]);
    let begun = match runner.handle_delivery(&d, CrashPoint::Never, "/w", None) {
        RunnerStep::Begin(o) => o,
        _ => panic!("stopped"),
    };
    let failed = runner.finish(begun, &d, CrashPoint::Never, paths, "x".into());
    assert!(failed.scope_violation);
    assert_eq!(failed.state, "failed");
    let wide = delivery(vec!["src".into(), "b".into()]);
    let begun = match runner.handle_delivery(&wide, CrashPoint::Never, "/w", None) {
        RunnerStep::Begin(o) => o,
        _ => panic!("stopped"),
    };
    let done = runner.finish(begun, &wide, CrashPoint::Never, vec!["src/a.rs".into()], "x".into());
    assert_eq!(done.state, "succeeded");
    assert_eq!(runner.journal_name("e1"), "e1.json");
}

#[test]
fn outputs_are_digested_in_the_order_of_their_paths() {
    let paths: Vec<String> = vec!["b".into(), "a".into(), "b".into()];
    let ordered = ordered_paths(&paths);
    assert_eq!(ordered, vec!["a", "b", "b"]);
    let files = vec![
        FileRead { path: "a".into(), bytes: Some(b"bc".to_vec()) },
        FileRead { path: "d".into(), bytes: None },
    ];
    // The bytes are "abcd".
    assert_eq!(
        output_digest(&files),
        "88d4266fd4e6338d13b845fcf289579d209c897823b9217da3e161936f031589"
    );
    // The bytes are "abc".
    assert_eq!(
        env_digest("abc"),
        "ba7816bf8f01cfea414140de5dae2223b00361a396177a9cb410ff61f20015ad"
    );
}
