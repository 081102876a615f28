//! The order of texts, and lists of texts kept in ascending order without
//! repetition.
use crate::text;
use vstd::prelude::*;
use vstd::utf8::*;

verus! {

/// `a` and `b` agree on their first `n` bytes, and there `a` ends or has the smaller byte.
pub open spec fn precedes_at(a: Seq<u8>, b: Seq<u8>, n: int) -> bool {
    &&& 0 <= n <= a.len()
    &&& n < b.len()
    &&& forall|i: int| 0 <= i < n ==> a[i] == b[i]
    &&& n == a.len() || a[n] < b[n]
}

/// The lexicographic order of byte sequences.
pub open spec fn bytes_lt(a: Seq<u8>, b: Seq<u8>) -> bool {
    exists|n: int| precedes_at(a, b, n)
}

/// The order of texts: that of their UTF-8 bytes.
pub open spec fn text_lt(a: Seq<char>, b: Seq<char>) -> bool {
    bytes_lt(encode_utf8(a), encode_utf8(b))
}

/// The reflexive order of texts.
pub open spec fn text_le(a: Seq<char>, b: Seq<char>) -> bool {
    a == b || text_lt(a, b)
}

/// No text stands before itself.
pub proof fn text_lt_irreflexive(a: Seq<char>)
    ensures
        !text_lt(a, a),
{
}

/// The order of texts is transitive.
pub proof fn text_lt_transitive(a: Seq<char>, b: Seq<char>, c: Seq<char>)
    requires
        text_lt(a, b),
        text_lt(b, c),
    ensures
        text_lt(a, c),
{
    let (x, y, z) = (encode_utf8(a), encode_utf8(b), encode_utf8(c));
    let n = choose|n: int| precedes_at(x, y, n);
    let m = choose|m: int| precedes_at(y, z, m);
    let k = if n <= m { n } else { m };
    assert(precedes_at(x, z, k));
}

proof fn first_difference(a: Seq<u8>, b: Seq<u8>, n: int)
    requires
        0 <= n <= a.len(),
        n <= b.len(),
        forall|i: int| 0 <= i < n ==> a[i] == b[i],
    ensures
        a == b || bytes_lt(a, b) || bytes_lt(b, a),
    decreases a.len() - n,
{
    if n == a.len() && n == b.len() {
        assert(a =~= b);
    } else if n == a.len() {
        assert(precedes_at(a, b, n));
    } else if n == b.len() {
        assert(precedes_at(b, a, n));
    } else if a[n] < b[n] {
        assert(precedes_at(a, b, n));
    } else if b[n] < a[n] {
        assert(precedes_at(b, a, n));
    } else {
        first_difference(a, b, n + 1);
    }
}

/// Of two different texts one stands before the other.
pub proof fn text_lt_total(a: Seq<char>, b: Seq<char>)
    ensures
        a == b || text_lt(a, b) || text_lt(b, a),
{
    first_difference(encode_utf8(a), encode_utf8(b), 0);
    text::encoding_is_injective(a, b);
}

/// Two texts do not both stand before each other.
pub proof fn text_lt_asymmetric(a: Seq<char>, b: Seq<char>)
    requires
        text_lt(a, b),
    ensures
        !text_lt(b, a),
{
    if text_lt(b, a) {
        text_lt_transitive(a, b, a);
    }
}

/// Whether `a` stands before `b`.
pub fn less(a: &str, b: &str) -> (r: bool)
    ensures
        r == text_lt(a@, b@),
{
    let x = a.as_bytes();
    let y = b.as_bytes();
    let mut i: usize = 0;
    while i < x.len() && i < y.len()
        invariant
            i <= x.len(),
            i <= y.len(),
            x@ == encode_utf8(a@),
            y@ == encode_utf8(b@),
            forall|j: int| 0 <= j < i ==> x@[j] == y@[j],
        decreases x.len() - i,
    {
        if x[i] < y[i] {
            assert(precedes_at(x@, y@, i as int));
            return true;
        }
        if y[i] < x[i] {
            proof {
                assert(precedes_at(y@, x@, i as int));
                text_lt_asymmetric(b@, a@);
            }
            return false;
        }
        i = i + 1;
    }
    if i < y.len() {
        assert(precedes_at(x@, y@, i as int));
        return true;
    }
    proof {
        if i < x.len() {
            assert(precedes_at(y@, x@, i as int));
            text_lt_asymmetric(b@, a@);
        } else {
            assert(x@ =~= y@);
            text_lt_irreflexive(a@);
        }
    }
    false
}

/// Each text of the list stands before those that follow it.
pub open spec fn ascending(list: Seq<Seq<char>>) -> bool {
    forall|i: int, j: int| 0 <= i < j < list.len() ==> text_lt(#[trigger] list[i], #[trigger] list[j])
}

/// The two lists hold the same texts.
pub open spec fn same_members(a: Seq<Seq<char>>, b: Seq<Seq<char>>) -> bool {
    forall|x: Seq<char>| #[trigger] a.contains(x) <==> b.contains(x)
}

/// `list` is the ascending list of the texts for which `wanted` holds.
pub open spec fn lists_exactly(list: Seq<Seq<char>>, wanted: spec_fn(Seq<char>) -> bool) -> bool {
    &&& ascending(list)
    &&& forall|x: Seq<char>| #[trigger] list.contains(x) <==> wanted(x)
}

proof fn ascending_heads_agree(a: Seq<Seq<char>>, b: Seq<Seq<char>>, n: int)
    requires
        ascending(a),
        ascending(b),
        same_members(a, b),
        0 <= n < a.len(),
        n < b.len(),
        forall|i: int| 0 <= i < n ==> a[i] == b[i],
    ensures
        a[n] == b[n],
{
    assert(a.contains(a[n]));
    assert(b.contains(b[n]));
    assert(a.contains(b[n]));
    let j = choose|j: int| 0 <= j < b.len() && b[j] == a[n];
    let k = choose|k: int| 0 <= k < a.len() && a[k] == b[n];
    assert(j >= n) by {
        if j < n {
            assert(a[j] == a[n]);
            text_lt_irreflexive(a[n]);
        }
    }
    assert(k >= n) by {
        if k < n {
            assert(b[k] == b[n]);
            text_lt_irreflexive(b[n]);
        }
    }
    if j > n && k > n {
        text_lt_asymmetric(b[n], b[j]);
    }
}

proof fn ascending_agree_up_to(a: Seq<Seq<char>>, b: Seq<Seq<char>>, n: int)
    requires
        ascending(a),
        ascending(b),
        same_members(a, b),
        0 <= n <= a.len(),
        n <= b.len(),
    ensures
        forall|i: int| 0 <= i < n ==> a[i] == b[i],
    decreases n,
{
    if n > 0 {
        ascending_agree_up_to(a, b, n - 1);
        ascending_heads_agree(a, b, n - 1);
    }
}

proof fn ascending_not_longer(a: Seq<Seq<char>>, b: Seq<Seq<char>>)
    requires
        ascending(a),
        ascending(b),
        same_members(a, b),
    ensures
        a.len() <= b.len(),
{
    if a.len() > b.len() {
        ascending_agree_up_to(a, b, b.len() as int);
        let x = a[b.len() as int];
        assert(a.contains(x));
        let j = choose|j: int| 0 <= j < b.len() && b[j] == x;
        assert(a[j] == x);
        text_lt_irreflexive(x);
    }
}

/// A set of texts has only one ascending list.
pub proof fn ascending_is_unique(a: Seq<Seq<char>>, b: Seq<Seq<char>>)
    requires
        ascending(a),
        ascending(b),
        same_members(a, b),
    ensures
        a == b,
{
    ascending_not_longer(a, b);
    assert(same_members(b, a));
    ascending_not_longer(b, a);
    ascending_agree_up_to(a, b, a.len() as int);
    assert(a =~= b);
}

/// Whether a list holds a text.
pub fn member(list: &[String], x: &str) -> (r: bool)
    ensures
        r == text::texts(list@).contains(x@),
{
    let mut i: usize = 0;
    while i < list.len()
        invariant
            i <= list.len(),
            forall|j: int| 0 <= j < i ==> #[trigger] text::texts(list@)[j] != x@,
        decreases list.len() - i,
    {
        if text::same(list[i].as_str(), x) {
            assert(text::texts(list@)[i as int] == x@);
            return true;
        }
        i = i + 1;
    }
    false
}

/// The first `k + 1` texts of a list are the first `k` and one more.
pub proof fn take_one_more(all: Seq<Seq<char>>, k: int)
    requires
        0 <= k < all.len(),
    ensures
        forall|w: Seq<char>| #[trigger]
            all.take(k + 1).contains(w) <==> (all.take(k).contains(w) || w == all[k]),
{
    let now = all.take(k + 1);
    let before = all.take(k);
    assert forall|w: Seq<char>| #[trigger] now.contains(w) <==> (before.contains(w) || w
        == all[k]) by {
        if before.contains(w) {
            let j = choose|j: int| 0 <= j < before.len() && before[j] == w;
            assert(now[j] == w);
        }
        if w == all[k] {
            assert(now[k] == w);
        }
        if now.contains(w) {
            let j = choose|j: int| 0 <= j < now.len() && now[j] == w;
            if j < k {
                assert(before[j] == w);
            }
        }
    }
}

/// Puts a text into an ascending list, unless it is there already.
pub fn insert(list: &mut Vec<String>, x: &str)
    requires
        ascending(text::texts(old(list)@)),
    ensures
        ascending(text::texts(final(list)@)),
        forall|y: Seq<char>| #[trigger]
            text::texts(final(list)@).contains(y) <==> (text::texts(old(list)@).contains(y) || y == x@),
{
    let ghost before = text::texts(list@);
    let mut i: usize = 0;
    while i < list.len() && less(list[i].as_str(), x)
        invariant
            i <= list.len(),
            before == text::texts(list@),
            forall|j: int| 0 <= j < i ==> text_lt(#[trigger] before[j], x@),
        decreases list.len() - i,
    {
        i = i + 1;
    }
    if i < list.len() && text::same(list[i].as_str(), x) {
        assert(before[i as int] == x@);
        return;
    }
    proof {
        if i < before.len() {
            text_lt_total(before[i as int], x@);
        }
        assert forall|j: int| i <= j < before.len() implies text_lt(x@, #[trigger] before[j]) by {
            if j > i {
                text_lt_transitive(x@, before[i as int], before[j]);
            }
        }
    }
    list.insert(i, x.to_owned());
    proof {
        let after = text::texts(list@);
        assert(after =~= before.insert(i as int, x@));
        assert forall|y: Seq<char>| #[trigger] after.contains(y) <==> (before.contains(y) || y
            == x@) by {
            if before.contains(y) {
                let k = choose|k: int| 0 <= k < before.len() && before[k] == y;
                if k < i {
                    assert(after[k] == y);
                } else {
                    assert(after[k + 1] == y);
                }
            }
            if y == x@ {
                assert(after[i as int] == y);
            }
            if after.contains(y) {
                let k = choose|k: int| 0 <= k < after.len() && after[k] == y;
                if k < i {
                    assert(before[k] == y);
                } else if k > i {
                    assert(before[k - 1] == y);
                }
            }
        }
    }
}

/// The ascending list of the texts of a list.
pub fn distinct(list: &[String]) -> (r: Vec<String>)
    ensures
        ascending(text::texts(r@)),
        same_members(text::texts(r@), text::texts(list@)),
{
    let mut out: Vec<String> = Vec::new();
    let ghost all = text::texts(list@);
    let mut i: usize = 0;
    while i < list.len()
        invariant
            i <= list.len(),
            all == text::texts(list@),
            ascending(text::texts(out@)),
            forall|y: Seq<char>| #[trigger]
                text::texts(out@).contains(y) <==> all.take(i as int).contains(y),
        decreases list.len() - i,
    {
        insert(&mut out, list[i].as_str());
        proof {
            take_one_more(all, i as int);
        }
        i = i + 1;
    }
    assert(all.take(i as int) =~= all);
    out
}

/// Texts are ordered by the first byte in which they differ, and a text before every longer one that
/// begins with it.
pub proof fn texts_are_ordered_by_their_bytes(a: Seq<char>, b: Seq<char>, n: int)
    requires
        0 <= n <= encode_utf8(a).len(),
        n < encode_utf8(b).len(),
        forall|i: int| 0 <= i < n ==> #[trigger] encode_utf8(a)[i] == encode_utf8(b)[i],
        n < encode_utf8(a).len() ==> encode_utf8(a)[n] < encode_utf8(b)[n],
    ensures
        text_lt(a, b),
        text_le(a, b),
        !text_lt(b, a),
        !text_le(b, a),
{
    assert(precedes_at(encode_utf8(a), encode_utf8(b), n));
    text_lt_asymmetric(a, b);
    if a == b {
        text_lt_irreflexive(a);
    }
}

/// A list of exactly the texts for which something holds has each of them once, and in order.
pub proof fn exact_lists_have_each_once(
    list: Seq<Seq<char>>,
    wanted: spec_fn(Seq<char>) -> bool,
    x: Seq<char>,
    i: int,
    j: int,
)
    requires
        lists_exactly(list, wanted),
    ensures
        list.contains(x) <==> wanted(x),
        0 <= i < j < list.len() ==> text_lt(list[i], list[j]) && list[i] != list[j],
{
    if 0 <= i < j < list.len() && list[i] == list[j] {
        text_lt_irreflexive(list[i]);
    }
}

/// Two lists have the same texts where each has every text of the other.
pub proof fn same_lists_have_the_same_texts(a: Seq<Seq<char>>, b: Seq<Seq<char>>, x: Seq<char>)
    requires
        same_members(a, b),
    ensures
        a.contains(x) <==> b.contains(x),
{
}

} // verus!
