use awr_team_pg::error::PgError;
use awr_team_pg::graph::{
    canonicalize, child_contract, paths_conflict, require_main_scope, segment_prefix_overlap,
    validate_required_graph, DependencyEdge, GraphStore, Reservation,
};
use awr_team_pg::json;
use awr_team_pg::json::Doc;

fn edge(from: &str, to: &str, required: bool) -> DependencyEdge {
    DependencyEdge { from: from.into(), to: to.into(), relation: "requires".into(), required }
}

fn names(list: &[&str]) -> Vec<String> {
    list.iter().map(|s| s.to_string()).collect()
}

#[test]
fn prefix_overlaps_segment_wise_not_string_prefix() {
    assert!(paths_conflict(
        "prefix",
        "src/foo",
        "file",
        "src/foo/bar.rs"
    ));
    assert!(!paths_conflict("prefix", "src/a", "file", "src/abc"));
    assert!(paths_conflict("file", "src/a.rs", "file", "src/a.rs"));
    assert!(!paths_conflict("named", "lock-a", "named", "lock-b"));
}

#[test]
fn required_cycle_and_missing_nodes_are_rejected() {
    let nodes: Vec<String> = vec!["a".into(), "b".into()];
    let cycle = vec![
        DependencyEdge {
            from: "a".into(),
            to: "b".into(),
            relation: "requires".into(),
            required: true,
        },
        DependencyEdge {
            from: "b".into(),
            to: "a".into(),
            relation: "requires".into(),
            required: true,
        },
    ];
    assert!(matches!(
        validate_required_graph(&nodes, &cycle),
        Err(PgError::DependencyCycle)
    ));
    let missing = vec![DependencyEdge {
        from: "a".into(),
        to: "z".into(),
        relation: "requires".into(),
        required: true,
    }];
    assert!(matches!(
        validate_required_graph(&nodes, &missing),
        Err(PgError::MissingDependency)
    ));
    assert!(require_main_scope("feature").is_err());
    assert!(require_main_scope("main").is_ok());
}

#[test]
fn conflicts_go_both_ways() {
    for (a, b) in [("src", "src/x.rs"), ("src/a", "src/ab"), ("x", "y")] {
        assert_eq!(
            paths_conflict("prefix", a, "file", b),
            paths_conflict("file", b, "prefix", a)
        );
    }
    assert!(paths_conflict("named", "lock", "named", "lock"));
    assert!(!paths_conflict("named", "src", "file", "src"));
}

#[test]
fn paths_are_compared_in_one_form() {
    assert_eq!(canonicalize("/src/lib.rs/"), "src/lib.rs");
    assert_eq!(canonicalize("src"), "src");
    assert_eq!(canonicalize("///"), "");
    assert!(segment_prefix_overlap("src", "src/a/b"));
    assert!(!segment_prefix_overlap("src/a", "src/b"));
    assert!(paths_conflict("file", "/src/a.rs", "file", "src/a.rs/"));
}

#[test]
fn longer_cycles_are_found_and_chains_are_not() {
    let nodes = names(&["a", "b", "c", "d"]);
    let chain = vec![edge("a", "b", true), edge("b", "c", true), edge("a", "c", true)];
    assert!(validate_required_graph(&nodes, &chain).is_ok());
    let ring = vec![edge("a", "b", true), edge("b", "c", true), edge("c", "a", true)];
    assert!(matches!(validate_required_graph(&nodes, &ring), Err(PgError::DependencyCycle)));
    let own = vec![edge("d", "d", true)];
    assert!(matches!(validate_required_graph(&nodes, &own), Err(PgError::DependencyCycle)));
    let optional = vec![edge("a", "b", true), edge("b", "a", false)];
    assert!(validate_required_graph(&nodes, &optional).is_ok());
    assert!(validate_required_graph(&[], &[]).is_ok());
}

#[test]
fn reservations_in_force_block_what_they_overlap() {
    let store = GraphStore::new("postgres://x");
    let held = vec![Reservation { kind: "prefix".into(), key: "src/net".into() }];
    assert!(matches!(
        store.reserve("file", "src/net/tcp.rs", &held),
        Err(PgError::ResourceConflict)
    ));
    assert!(store.reserve("file", "src/disk.rs", &held).is_ok());
    assert!(store.reserve("file", "src/net/tcp.rs", &[]).is_ok());
}

#[test]
fn edges_are_replaced_in_the_main_scope_only() {
    let store = GraphStore::new("postgres://x");
    let nodes = names(&["a", "b"]);
    assert!(store.replace_edges("main", &nodes, &[edge("a", "b", true)]).is_ok());
    assert!(matches!(
        store.replace_edges("side", &nodes, &[]),
        Err(PgError::ScopeUnsupported)
    ));
    assert!(matches!(
        store.graph_within_budget(&[edge("a", "b", true)], 0),
        Err(PgError::GraphBudgetExceeded)
    ));
    assert!(store.graph_within_budget(&[edge("a", "b", true)], 1).is_ok());
}

#[test]
fn children_take_the_contract_of_their_parent() {
    let parent = Doc::new()
        .put("work_id", json::text("p"))
        .put("goal", json::text("g"))
        .json();
    let child = child_contract(&parent, "c1");
    assert_eq!(child.get_str("work_id"), Some("c1"));
    assert_eq!(child.get_str("external_key"), Some("c1"));
    assert_eq!(child.get_str("goal"), Some("g"));
    let store = GraphStore::new("postgres://x");
    let made = store.propose_split(&names(&["c1", "c2"]), Some(&parent)).unwrap();
    assert_eq!(made.len(), 2);
    assert_eq!(made[1].get_str("work_id"), Some("c2"));
    assert!(matches!(
        store.complete_parent_from_children(true),
        Err(PgError::ParentEvidenceRequired)
    ));
}

#[test]
fn bindings_must_be_there_to_be_valid() {
    let g = GraphStore::new("postgres://x");
    assert_eq!(g.current_binding_valid(Some(true)).unwrap(), true);
    assert_eq!(g.current_binding_valid(Some(false)).unwrap(), false);
    assert!(matches!(g.current_binding_valid(None), Err(PgError::BindingInvalid)));
}

#[test]
fn a_claim_blocks_the_activation_of_another_contract() {
    let g = GraphStore::new("postgres://x");
    assert!(g.activation_blocked_by_claims(0, Some("h1"), "h2").is_ok());
    assert!(g.activation_blocked_by_claims(1, Some("h1"), "h1").is_ok());
    assert!(g.activation_blocked_by_claims(1, None, "h2").is_ok());
    assert!(matches!(
        g.activation_blocked_by_claims(1, Some("h1"), "h2"),
        Err(PgError::ClaimBlocksActivation)
    ));
}
