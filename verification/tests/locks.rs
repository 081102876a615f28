use awr_team_pg::lock_order::{
    resources_lock_order, sort_resource_keys, sort_work_ids, works_lock_order, ResourceLockKey,
};

#[test]
fn work_ids_sort_and_dedup_order_is_stable() {
    let mut ids: Vec<String> = vec!["work-b".into(), "work-a".into(), "work-b".into()];
    sort_work_ids(&mut ids);
    ids.dedup();
    assert_eq!(ids, vec!["work-a".to_string(), "work-b".to_string()]);
}

#[test]
fn resource_keys_sort_by_kind_key_worktree() {
    let mut keys = vec![
        ResourceLockKey::new("file", "src/b.rs", ""),
        ResourceLockKey::new("file", "src/a.rs", "wt-2"),
        ResourceLockKey::new("file", "src/a.rs", "wt-1"),
        ResourceLockKey::new("dir", "src", ""),
    ];
    sort_resource_keys(&mut keys);
    assert_eq!(keys[0].kind, "dir");
    assert_eq!(keys[1].key, "src/a.rs");
    assert_eq!(keys[1].worktree_id, "wt-1");
    assert_eq!(keys[2].worktree_id, "wt-2");
    assert_eq!(keys[3].key, "src/b.rs");
}

#[test]
fn two_requests_lock_common_works_in_one_order() {
    let a: Vec<String> = vec!["w3".into(), "w1".into(), "w2".into()];
    let b: Vec<String> = vec!["w2".into(), "w3".into(), "w2".into()];
    let x = works_lock_order(&a);
    let y = works_lock_order(&b);
    assert_eq!(x, vec!["w1".to_string(), "w2".to_string(), "w3".to_string()]);
    assert_eq!(y, vec!["w2".to_string(), "w3".to_string()]);
}

#[test]
fn resource_locks_are_taken_once_each() {
    let keys = vec![
        ResourceLockKey::new("file", "b", ""),
        ResourceLockKey::new("file", "a", ""),
        ResourceLockKey::new("file", "b", ""),
    ];
    let order = resources_lock_order(&keys);
    assert_eq!(order.len(), 2);
    assert_eq!(order[0].key, "a");
    assert_eq!(order[1].key, "b");
}

#[test]
fn order_goes_by_bytes() {
    let mut ids: Vec<String> = vec!["\u{e9}".into(), "z".into(), "Z".into(), "".into()];
    sort_work_ids(&mut ids);
    assert_eq!(ids, vec!["", "Z", "z", "\u{e9}"]);
}
