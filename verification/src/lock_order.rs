//! The one order in which rows are locked.
//!
//! A writer that needs several row locks takes them in this order, so that two
//! writers cannot wait for each other:
//!
//! 1. the project barrier: the admission row, then the project row;
//! 2. authority rows: tenants, actors, credentials, memberships, grants;
//! 3. dependency and graph snapshot rows;
//! 4. tasks, in ascending order of their work ids;
//! 5. resource reservations, in ascending order of kind, key and worktree;
//! 6. receipts and events, appended under the locks that are held.
//!
//! The row of a task is locked before the row of a claim on it.
use crate::order;
use crate::text;
use vstd::prelude::*;

verus! {

broadcast use {vstd::seq_lib::group_to_multiset_ensures, vstd::multiset::group_multiset_axioms};

/// What a resource reservation row is found and sorted by.
#[derive(Clone, Debug, Eq, PartialEq, Ord, PartialOrd)]
pub struct ResourceLockKey {
    pub kind: String,
    pub key: String,
    /// Empty for a binding that is shared between worktrees.
    pub worktree_id: String,
}

/// The model of a resource key: kind, key and worktree.
pub struct KeyView {
    pub kind: Seq<char>,
    pub key: Seq<char>,
    pub worktree_id: Seq<char>,
}

impl View for ResourceLockKey {
    type V = KeyView;

    open spec fn view(&self) -> KeyView {
        KeyView { kind: self.kind@, key: self.key@, worktree_id: self.worktree_id@ }
    }
}

impl ResourceLockKey {
    pub fn new(kind: &str, key: &str, worktree_id: &str) -> (r: ResourceLockKey)
        ensures
            r@ == (KeyView { kind: kind@, key: key@, worktree_id: worktree_id@ }),
    {
        ResourceLockKey {
            kind: kind.to_owned(),
            key: key.to_owned(),
            worktree_id: worktree_id.to_owned(),
        }
    }

    /// A copy of the key.
    pub fn copy(&self) -> (r: ResourceLockKey)
        ensures
            r == *self,
    {
        ResourceLockKey {
            kind: self.kind.clone(),
            key: self.key.clone(),
            worktree_id: self.worktree_id.clone(),
        }
    }
}

/// The order of resource keys: by kind, then by key, then by worktree.
pub open spec fn key_lt(a: KeyView, b: KeyView) -> bool {
    ||| order::text_lt(a.kind, b.kind)
    ||| a.kind == b.kind && order::text_lt(a.key, b.key)
    ||| a.kind == b.kind && a.key == b.key && order::text_lt(a.worktree_id, b.worktree_id)
}

/// The reflexive order of resource keys.
pub open spec fn key_le(a: KeyView, b: KeyView) -> bool {
    a == b || key_lt(a, b)
}

/// The order of resource keys is transitive.
pub proof fn key_lt_transitive(a: KeyView, b: KeyView, c: KeyView)
    requires
        key_lt(a, b),
        key_lt(b, c),
    ensures
        key_lt(a, c),
{
    if order::text_lt(a.kind, b.kind) && order::text_lt(b.kind, c.kind) {
        order::text_lt_transitive(a.kind, b.kind, c.kind);
    }
    if order::text_lt(a.key, b.key) && order::text_lt(b.key, c.key) {
        order::text_lt_transitive(a.key, b.key, c.key);
    }
    if order::text_lt(a.worktree_id, b.worktree_id) && order::text_lt(
        b.worktree_id,
        c.worktree_id,
    ) {
        order::text_lt_transitive(a.worktree_id, b.worktree_id, c.worktree_id);
    }
}

/// Of two different resource keys one stands before the other, and only one.
pub proof fn key_lt_total(a: KeyView, b: KeyView)
    ensures
        a == b || key_lt(a, b) || key_lt(b, a),
        !(key_lt(a, b) && key_lt(b, a)),
        !key_lt(a, a),
{
    order::text_lt_total(a.kind, b.kind);
    order::text_lt_total(a.key, b.key);
    order::text_lt_total(a.worktree_id, b.worktree_id);
    order::text_lt_irreflexive(a.kind);
    order::text_lt_irreflexive(a.key);
    order::text_lt_irreflexive(a.worktree_id);
    if key_lt(a, b) && key_lt(b, a) {
        key_lt_transitive(a, b, a);
    }
}

fn key_less(a: &ResourceLockKey, b: &ResourceLockKey) -> (r: bool)
    ensures
        r == key_lt(a@, b@),
{
    if order::less(a.kind.as_str(), b.kind.as_str()) {
        return true;
    }
    if !text::same(a.kind.as_str(), b.kind.as_str()) {
        return false;
    }
    if order::less(a.key.as_str(), b.key.as_str()) {
        return true;
    }
    text::same(a.key.as_str(), b.key.as_str()) && order::less(
        a.worktree_id.as_str(),
        b.worktree_id.as_str(),
    )
}

/// The ids stand in ascending order; equal ids stand side by side.
pub open spec fn ids_sorted(ids: Seq<String>) -> bool {
    forall|i: int, j: int|
        0 <= i < j < ids.len() ==> order::text_le(#[trigger] ids[i]@, #[trigger] ids[j]@)
}

/// The keys stand in ascending order; equal keys stand side by side.
pub open spec fn keys_sorted(keys: Seq<ResourceLockKey>) -> bool {
    forall|i: int, j: int| 0 <= i < j < keys.len() ==> key_le(#[trigger] keys[i]@, #[trigger] keys[j]@)
}

proof fn swap_keeps_members<T>(s: Seq<T>, i: int, j: int)
    requires
        0 <= i < s.len(),
        0 <= j < s.len(),
    ensures
        s.update(i, s[j]).update(j, s[i]).to_multiset() == s.to_multiset(),
{
    broadcast use vstd::multiset::group_multiset_properties;

    vstd::seq_lib::to_multiset_update(s, i, s[j]);
    vstd::seq_lib::to_multiset_update(s.update(i, s[j]), j, s[i]);
    vstd::seq_lib::to_multiset_contains(s, s[i]);
    vstd::seq_lib::to_multiset_contains(s, s[j]);
    assert(s.contains(s[i]));
    assert(s.contains(s[j]));
    let after = s.update(i, s[j]).update(j, s[i]);
    if i == j {
        assert(after =~= s);
    } else {
        assert(s.update(i, s[j])[j] == s[j]);
        assert(after.to_multiset() =~= s.to_multiset());
    }
}

/// Sorts work ids in place.
pub fn sort_work_ids(work_ids: &mut [String])
    ensures
        ids_sorted(final(work_ids)@),
        final(work_ids)@.to_multiset() == old(work_ids)@.to_multiset(),
        text::texts(final(work_ids)@).to_multiset() == text::texts(old(work_ids)@).to_multiset(),
{
    let n: usize = work_ids.len();
    let mut i: usize = 0;
    while i < n
        invariant
            i <= n,
            n == work_ids@.len(),
            ids_sorted(work_ids@.take(i as int)),
            work_ids@.to_multiset() == old(work_ids)@.to_multiset(),
            text::texts(work_ids@).to_multiset() == text::texts(old(work_ids)@).to_multiset(),
        decreases n - i,
    {
        let mut j: usize = i;
        proof {
            let s = work_ids@;
            assert forall|a: int, b: int| 0 <= a < b < i implies order::text_le(
                #[trigger] s[a]@,
                #[trigger] s[b]@,
            ) by {
                assert(order::text_le(s.take(i as int)[a]@, s.take(i as int)[b]@));
            }
        }
        while j > 0 && order::less(work_ids[j].as_str(), work_ids[j - 1].as_str())
            invariant
                j <= i < n,
                n == work_ids@.len(),
                work_ids@.to_multiset() == old(work_ids)@.to_multiset(),
                text::texts(work_ids@).to_multiset() == text::texts(old(work_ids)@).to_multiset(),
                forall|a: int, b: int|
                    0 <= a < b <= i && a != j && b != j ==> order::text_le(
                        #[trigger] work_ids@[a]@,
                        #[trigger] work_ids@[b]@,
                    ),
                forall|b: int| j < b <= i ==> order::text_le(work_ids@[j as int]@, #[trigger] work_ids@[b]@),
            decreases j,
        {
            let ghost before = work_ids@;
            let lower = work_ids[j].clone();
            let upper = work_ids[j - 1].clone();
            work_ids[j - 1] = lower;
            work_ids[j] = upper;
            proof {
                assert(work_ids@ =~= before.update(j - 1, before[j as int]).update(
                    j as int,
                    before[j - 1],
                ));
                swap_keeps_members(before, j - 1, j as int);
                let texts = text::texts(before);
                assert(text::texts(work_ids@) =~= texts.update(j - 1, texts[j as int]).update(
                    j as int,
                    texts[j - 1],
                ));
                swap_keeps_members(texts, j - 1, j as int);
            }
            j = j - 1;
        }
        proof {
            let s = work_ids@;
            if j > 0 {
                order::text_lt_total(s[j as int]@, s[j - 1]@);
            }
            assert forall|a: int, b: int| 0 <= a < b < i + 1 implies order::text_le(
                #[trigger] s.take(i + 1)[a]@,
                #[trigger] s.take(i + 1)[b]@,
            ) by {
                assert(s.take(i + 1)[a] == s[a] && s.take(i + 1)[b] == s[b]);
                if b == j && a < j - 1 {
                    assert(order::text_le(s[a]@, s[j - 1]@));
                    if order::text_lt(s[a]@, s[j - 1]@) && order::text_lt(s[j - 1]@, s[j as int]@) {
                        order::text_lt_transitive(s[a]@, s[j - 1]@, s[j as int]@);
                    }
                }
            }
        }
        i = i + 1;
    }
    assert(work_ids@.take(n as int) =~= work_ids@);
}

/// Sorts resource keys in place.
pub fn sort_resource_keys(keys: &mut [ResourceLockKey])
    ensures
        keys_sorted(final(keys)@),
        final(keys)@.to_multiset() == old(keys)@.to_multiset(),
{
    let n: usize = keys.len();
    let mut i: usize = 0;
    while i < n
        invariant
            i <= n,
            n == keys@.len(),
            keys_sorted(keys@.take(i as int)),
            keys@.to_multiset() == old(keys)@.to_multiset(),
        decreases n - i,
    {
        let mut j: usize = i;
        proof {
            let s = keys@;
            assert forall|a: int, b: int| 0 <= a < b < i implies key_le(
                #[trigger] s[a]@,
                #[trigger] s[b]@,
            ) by {
                assert(key_le(s.take(i as int)[a]@, s.take(i as int)[b]@));
            }
        }
        while j > 0 && key_less(&keys[j], &keys[j - 1])
            invariant
                j <= i < n,
                n == keys@.len(),
                keys@.to_multiset() == old(keys)@.to_multiset(),
                forall|a: int, b: int|
                    0 <= a < b <= i && a != j && b != j ==> key_le(
                        #[trigger] keys@[a]@,
                        #[trigger] keys@[b]@,
                    ),
                forall|b: int| j < b <= i ==> key_le(keys@[j as int]@, #[trigger] keys@[b]@),
            decreases j,
        {
            let ghost before = keys@;
            let lower = keys[j].copy();
            let upper = keys[j - 1].copy();
            keys[j - 1] = lower;
            keys[j] = upper;
            proof {
                assert(keys@ =~= before.update(j - 1, before[j as int]).update(
                    j as int,
                    before[j - 1],
                ));
                swap_keeps_members(before, j - 1, j as int);
            }
            j = j - 1;
        }
        proof {
            let s = keys@;
            if j > 0 {
                key_lt_total(s[j as int]@, s[j - 1]@);
            }
            assert forall|a: int, b: int| 0 <= a < b < i + 1 implies key_le(
                #[trigger] s.take(i + 1)[a]@,
                #[trigger] s.take(i + 1)[b]@,
            ) by {
                assert(s.take(i + 1)[a] == s[a] && s.take(i + 1)[b] == s[b]);
                if b == j && a < j - 1 {
                    assert(key_le(s[a]@, s[j - 1]@));
                    if key_lt(s[a]@, s[j - 1]@) && key_lt(s[j - 1]@, s[j as int]@) {
                        key_lt_transitive(s[a]@, s[j - 1]@, s[j as int]@);
                    }
                }
            }
        }
        i = i + 1;
    }
    assert(keys@.take(n as int) =~= keys@);
}

/// Each key of the list stands before those that follow it.
pub open spec fn keys_ascending(keys: Seq<KeyView>) -> bool {
    forall|i: int, j: int| 0 <= i < j < keys.len() ==> key_lt(#[trigger] keys[i], #[trigger] keys[j])
}

/// The models of the keys of a list.
pub open spec fn key_views(keys: Seq<ResourceLockKey>) -> Seq<KeyView> {
    keys.map_values(|k: ResourceLockKey| k@)
}

/// The order in which the task rows of a request are locked: its work ids,
/// ascending and each once.
pub fn works_lock_order(work_ids: &[String]) -> (r: Vec<String>)
    ensures
        order::ascending(text::texts(r@)),
        order::same_members(text::texts(r@), text::texts(work_ids@)),
{
    order::distinct(work_ids)
}

/// The order in which the reservation rows of a request are locked: its keys,
/// ascending and each once.
pub fn resources_lock_order(keys: &[ResourceLockKey]) -> (r: Vec<ResourceLockKey>)
    ensures
        keys_ascending(key_views(r@)),
        forall|x: KeyView| #[trigger] key_views(r@).contains(x) <==> key_views(keys@).contains(x),
{
    let mut ordered: Vec<ResourceLockKey> = Vec::new();
    let mut n: usize = 0;
    while n < keys.len()
        invariant
            n <= keys.len(),
            ordered@ == keys@.take(n as int),
        decreases keys.len() - n,
    {
        ordered.push(keys[n].copy());
        n = n + 1;
        assert(ordered@ =~= keys@.take(n as int));
    }
    assert(ordered@ =~= keys@);
    sort_resource_keys(ordered.as_mut_slice());
    proof {
        let a = ordered@;
        let b = keys@;
        assert forall|x: KeyView| #[trigger] key_views(a).contains(x) <==> key_views(b).contains(x) by {
            if key_views(a).contains(x) {
                let k = choose|k: int| 0 <= k < a.len() && key_views(a)[k] == x;
                assert(a.contains(a[k]));
                vstd::seq_lib::to_multiset_contains(a, a[k]);
                vstd::seq_lib::to_multiset_contains(b, a[k]);
                let m = choose|m: int| 0 <= m < b.len() && b[m] == a[k];
                assert(key_views(b)[m] == x);
            }
            if key_views(b).contains(x) {
                let k = choose|k: int| 0 <= k < b.len() && key_views(b)[k] == x;
                assert(b.contains(b[k]));
                vstd::seq_lib::to_multiset_contains(b, b[k]);
                vstd::seq_lib::to_multiset_contains(a, b[k]);
                let m = choose|m: int| 0 <= m < a.len() && a[m] == b[k];
                assert(key_views(a)[m] == x);
            }
        }
    }
    let mut out: Vec<ResourceLockKey> = Vec::new();
    let ghost all = key_views(ordered@);
    let mut i: usize = 0;
    while i < ordered.len()
        invariant
            i <= ordered.len(),
            all == key_views(ordered@),
            keys_sorted(ordered@),
            keys_ascending(key_views(out@)),
            i == 0 <==> out@.len() == 0,
            i > 0 ==> key_views(out@).last() == all[i - 1],
            forall|y: KeyView| #[trigger]
                key_views(out@).contains(y) <==> all.take(i as int).contains(y),
        decreases ordered.len() - i,
    {
        let ghost before = key_views(out@);
        let ghost now = all.take(i as int + 1);
        proof {
            assert forall|y: KeyView| now.contains(y) <==> (all.take(i as int).contains(y) || y
                == all[i as int]) by {
                assert(now[i as int] == all[i as int]);
                if all.take(i as int).contains(y) {
                    let k = choose|k: int| 0 <= k < i && all.take(i as int)[k] == y;
                    assert(now[k] == y);
                }
                if now.contains(y) {
                    let k = choose|k: int| 0 <= k <= i && now[k] == y;
                    if k < i {
                        assert(all.take(i as int)[k] == y);
                    }
                }
            }
        }
        let fresh = out.len() == 0 || key_less(&out[out.len() - 1], &ordered[i]);
        proof {
            if i > 0 {
                assert(key_le(ordered@[i - 1]@, ordered@[i as int]@));
                key_lt_total(all[i - 1], all[i as int]);
            }
        }
        if fresh {
            proof {
                assert forall|k: int| 0 <= k < before.len() implies key_lt(
                    #[trigger] before[k],
                    all[i as int],
                ) by {
                    if k < before.len() - 1 {
                        key_lt_transitive(before[k], before.last(), all[i as int]);
                    }
                }
            }
            out.push(ordered[i].copy());
            proof {
                let after = key_views(out@);
                assert(after =~= before.push(all[i as int]));
                assert forall|y: KeyView| #[trigger] after.contains(y) <==> now.contains(y) by {
                    if before.contains(y) {
                        let k = choose|k: int| 0 <= k < before.len() && before[k] == y;
                        assert(after[k] == y);
                    }
                    assert(after[before.len() as int] == all[i as int]);
                    if after.contains(y) {
                        let k = choose|k: int| 0 <= k < after.len() && after[k] == y;
                        if k < before.len() {
                            assert(before[k] == y);
                        }
                    }
                }
            }
        } else {
            proof {
                assert(before.last() == all[i as int]);
                assert(before.contains(before.last()));
            }
        }
        i = i + 1;
    }
    assert(all.take(i as int) =~= all);
    out
}

/// Two writers take the task rows that both need in the same order: a row that
/// one of them takes first, the other takes first too.
pub proof fn task_locks_never_cross(a: Seq<Seq<char>>, b: Seq<Seq<char>>, i: int, j: int, k: int, m: int)
    requires
        order::ascending(a),
        order::ascending(b),
        0 <= i < j < a.len(),
        0 <= k < b.len(),
        0 <= m < b.len(),
        a[i] == b[k],
        a[j] == b[m],
    ensures
        k < m,
{
    order::text_lt_asymmetric(a[i], a[j]);
    order::text_lt_irreflexive(a[i]);
}

/// Two writers take the reservation rows that both need in the same order.
pub proof fn resource_locks_never_cross(a: Seq<KeyView>, b: Seq<KeyView>, i: int, j: int, k: int, m: int)
    requires
        keys_ascending(a),
        keys_ascending(b),
        0 <= i < j < a.len(),
        0 <= k < b.len(),
        0 <= m < b.len(),
        a[i] == b[k],
        a[j] == b[m],
    ensures
        k < m,
{
    key_lt_total(a[i], a[j]);
    key_lt_total(a[i], a[i]);
}

/// Writers that need the same task rows lock the same list of rows, however
/// each of them names the works.
pub proof fn task_lock_order_is_canonical(
    first: Seq<Seq<char>>,
    second: Seq<Seq<char>>,
    first_order: Seq<Seq<char>>,
    second_order: Seq<Seq<char>>,
)
    requires
        order::same_members(first, second),
        order::ascending(first_order),
        order::same_members(first_order, first),
        order::ascending(second_order),
        order::same_members(second_order, second),
    ensures
        first_order == second_order,
{
    assert(order::same_members(first_order, second_order)) by {
        assert forall|x: Seq<char>| #[trigger] first_order.contains(x)
            <==> second_order.contains(x) by {
            assert(first.contains(x) <==> second.contains(x));
        }
    }
    order::ascending_is_unique(first_order, second_order);
}

/// Keys are ordered by their kind first, then by their key, and by their worktree last.
pub proof fn keys_are_ordered_by_kind_first(a: KeyView, b: KeyView)
    ensures
        order::text_lt(a.kind, b.kind) ==> key_lt(a, b),
        a.kind == b.kind && order::text_lt(a.key, b.key) ==> key_lt(a, b),
        a.kind == b.kind && a.key == b.key && order::text_lt(a.worktree_id, b.worktree_id) ==> key_lt(
            a,
            b,
        ),
        key_lt(a, b) ==> order::text_le(a.kind, b.kind),
        key_lt(a, b) && a.kind == b.kind ==> order::text_le(a.key, b.key),
        key_lt(a, b) && a.kind == b.kind && a.key == b.key ==> order::text_lt(
            a.worktree_id,
            b.worktree_id,
        ),
{
    order::text_lt_irreflexive(a.kind);
    order::text_lt_irreflexive(a.key);
}

/// What is sorted stands in order, place by place, and locks are taken each once.
pub proof fn sorted_lists_stand_in_order(
    ids: Seq<String>,
    keys: Seq<ResourceLockKey>,
    locks: Seq<KeyView>,
    i: int,
    j: int,
)
    requires
        0 <= i < j,
    ensures
        ids_sorted(ids) && j < ids.len() ==> order::text_le(ids[i]@, ids[j]@),
        keys_sorted(keys) && j < keys.len() ==> keys[i]@ == keys[j]@ || key_lt(keys[i]@, keys[j]@),
        keys_ascending(locks) && j < locks.len() ==> key_lt(locks[i], locks[j]) && locks[i] != locks[j],
        j < keys.len() ==> key_views(keys)[i] == keys[i]@,
{
    if keys_ascending(locks) && j < locks.len() {
        key_lt_total(locks[i], locks[i]);
    }
}

/// A key stands before another or is the same; of two different keys one stands before the other.
pub proof fn equal_keys_stand_together(a: KeyView, b: KeyView)
    ensures
        key_le(a, a),
        key_lt(a, b) ==> key_le(a, b),
        a != b && !key_lt(a, b) ==> !key_le(a, b),
{
}

} // verus!
