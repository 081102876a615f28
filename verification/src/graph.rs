//! The dependency graph of a project, and the resources that its works reserve.
use crate::error::{protocol, Fault, PgError, PgResult};
use crate::error;
use crate::json;
use crate::json::{Json, JsonView};
use crate::pool::PgPool;
use crate::text;
use vstd::prelude::*;

verus! {

#[derive(Clone, Debug, PartialEq, Eq)]
pub struct DependencyEdge {
    pub from: String,
    pub to: String,
    pub relation: String,
    pub required: bool,
}

#[derive(Clone, Debug)]
pub struct SplitProposal {
    pub id: String,
    pub parent_work_id: String,
    pub child_work_ids: Vec<String>,
}

/// A path without the slashes at both ends.
pub open spec fn without_outer_slashes(path: Seq<char>) -> Seq<char> {
    choose|inner: Seq<char>| text::is_trimmed(path, inner, text::only('/'))
}

/// A path with slashes in place of backslashes.
pub open spec fn with_slashes(path: Seq<char>) -> Seq<char> {
    path.map_values(
        |c: char|
            if c == '\\' {
                '/'
            } else {
                c
            },
    )
}

/// The form in which paths are compared.
pub open spec fn canonical(path: Seq<char>) -> Seq<char> {
    with_slashes(without_outer_slashes(path))
}

/// The pieces of a path between its slashes, the empty ones too.
pub open spec fn pieces(path: Seq<char>) -> Seq<Seq<char>>
    decreases path.len(),
{
    if path.len() == 0 {
        seq![Seq::empty()]
    } else {
        let before = pieces(path.drop_last());
        if path.last() == '/' {
            before.push(Seq::empty())
        } else {
            before.update(before.len() - 1, before.last().push(path.last()))
        }
    }
}

/// The segments of a path: its pieces that are not empty.
pub open spec fn segments(path: Seq<char>) -> Seq<Seq<char>> {
    pieces(path).filter(|p: Seq<char>| p.len() > 0)
}

/// One of the paths is a prefix of the other, segment by segment, and neither is empty.
pub open spec fn overlap(a: Seq<char>, b: Seq<char>) -> bool {
    let x = segments(a);
    let y = segments(b);
    &&& x.len() > 0
    &&& y.len() > 0
    &&& forall|i: int| 0 <= i < x.len() && i < y.len() ==> #[trigger] x[i] == y[i]
}

/// Two resources cannot be reserved at the same time.
pub open spec fn conflict(
    kind_a: Seq<char>,
    key_a: Seq<char>,
    kind_b: Seq<char>,
    key_b: Seq<char>,
) -> bool {
    if kind_a == "named"@ || kind_b == "named"@ {
        kind_a == kind_b && key_a == key_b
    } else if kind_a == "file"@ && kind_b == "file"@ {
        canonical(key_a) == canonical(key_b)
    } else {
        overlap(canonical(key_a), canonical(key_b))
    }
}

fn slash_chars(chars: &Vec<char>, from: usize, to: usize) -> (r: String)
    requires
        from <= to <= chars@.len(),
    ensures
        r@ == with_slashes(chars@.subrange(from as int, to as int)),
{
    let ghost inner = chars@.subrange(from as int, to as int);
    let mut out = String::new();
    let mut i: usize = from;
    assert(out@ =~= with_slashes(inner).take(0));
    while i < to
        invariant
            from <= i <= to <= chars@.len(),
            inner == chars@.subrange(from as int, to as int),
            out@ == with_slashes(inner).take(i - from),
        decreases to - i,
    {
        let c = chars[i];
        out.push(
            if c == '\\' {
                '/'
            } else {
                c
            },
        );
        i = i + 1;
        assert(out@ =~= with_slashes(inner).take(i - from));
    }
    assert(out@ =~= with_slashes(inner));
    out
}

/// A path with slashes in place of backslashes.
pub(crate) fn slash_path(path: &str) -> (r: String)
    ensures
        r@ == with_slashes(path@),
{
    let chars = text::chars_of(path);
    assert(chars@.subrange(0, chars@.len() as int) =~= path@);
    slash_chars(&chars, 0, chars.len())
}

/// The form in which paths are compared.
pub fn canonicalize(path: &str) -> (r: String)
    ensures
        r@ == canonical(path@),
{
    let chars = text::chars_of(path);
    let mut from: usize = 0;
    while from < chars.len() && chars[from] == '/'
        invariant
            from <= chars.len(),
            chars@ == path@,
            forall|i: int| 0 <= i < from ==> #[trigger] path@[i] == '/',
        decreases chars.len() - from,
    {
        from = from + 1;
    }
    let mut to: usize = chars.len();
    while to > from && chars[to - 1] == '/'
        invariant
            from <= to <= chars.len(),
            chars@ == path@,
            forall|i: int| to <= i < path@.len() ==> #[trigger] path@[i] == '/',
        decreases to,
    {
        to = to - 1;
    }
    let ghost inner = path@.subrange(from as int, to as int);
    proof {
        assert(text::trimmed_at(path@, inner, text::only('/'), from as int, to as int));
        assert(text::is_trimmed(path@, inner, text::only('/')));
        text::trimming_is_unique(
            path@,
            inner,
            without_outer_slashes(path@),
            text::only('/'),
        );
    }
    slash_chars(&chars, from, to)
}

/// The models of the pieces in hand.
spec fn char_lists(list: Seq<Vec<char>>) -> Seq<Seq<char>> {
    list.map_values(|v: Vec<char>| v@)
}

proof fn filter_push(list: Seq<Seq<char>>, wanted: spec_fn(Seq<char>) -> bool, last: Seq<char>)
    ensures
        list.push(last).filter(wanted) == if wanted(last) {
            list.filter(wanted).push(last)
        } else {
            list.filter(wanted)
        },
{
    reveal(Seq::filter);
    assert(list.push(last).drop_last() =~= list);
}

/// Splits a path into its segments.
fn split_segments(path: &str) -> (r: Vec<Vec<char>>)
    ensures
        char_lists(r@) == segments(path@),
{
    let chars = text::chars_of(path);
    let ghost wanted = |p: Seq<char>| p.len() > 0;
    let mut done: Vec<Vec<char>> = Vec::new();
    let mut current: Vec<char> = Vec::new();
    let ghost mut closed: Seq<Seq<char>> = Seq::empty();
    proof {
        assert(path@.take(0) =~= Seq::empty());
        assert(closed.push(current@) =~= pieces(path@.take(0)));
        assert(closed.filter(wanted) =~= Seq::empty()) by {
            reveal(Seq::filter);
        }
        assert(char_lists(done@) =~= closed.filter(wanted));
    }
    let mut i: usize = 0;
    while i < chars.len()
        invariant
            i <= chars.len(),
            chars@ == path@,
            wanted == (|p: Seq<char>| p.len() > 0),
            closed.push(current@) == pieces(path@.take(i as int)),
            char_lists(done@) == closed.filter(wanted),
        decreases chars.len() - i,
    {
        let c: char = chars[i];
        let ghost before = pieces(path@.take(i as int));
        proof {
            assert(path@.take(i + 1).drop_last() =~= path@.take(i as int));
            assert(path@.take(i + 1).last() == c);
        }
        if c == '/' {
            let ghost ended = current@;
            proof {
                filter_push(closed, wanted, ended);
            }
            if current.len() > 0 {
                let mut fresh: Vec<char> = Vec::new();
                std::mem::swap(&mut fresh, &mut current);
                let ghost kept = char_lists(done@);
                done.push(fresh);
                assert(char_lists(done@) =~= kept.push(ended));
            }
            proof {
                closed = closed.push(ended);
                assert(current@ =~= Seq::<char>::empty());
                assert(closed == before);
            }
        } else {
            let ghost open = current@;
            current.push(c);
            assert(closed.push(current@) =~= before.update(
                before.len() - 1,
                before.last().push(c),
            ));
        }
        i = i + 1;
    }
    assert(path@.take(i as int) =~= path@);
    proof {
        filter_push(closed, wanted, current@);
    }
    if current.len() > 0 {
        let ghost kept = char_lists(done@);
        let ghost ended = current@;
        done.push(current);
        assert(char_lists(done@) =~= kept.push(ended));
    }
    done
}

/// Whether one path is a prefix of the other, segment by segment.
pub fn segment_prefix_overlap(a: &str, b: &str) -> (r: bool)
    ensures
        r == overlap(a@, b@),
{
    let x = split_segments(a);
    let y = split_segments(b);
    proof {
        assert(char_lists(x@).len() == x@.len());
        assert(char_lists(y@).len() == y@.len());
    }
    if x.len() == 0 || y.len() == 0 {
        return false;
    }
    let mut i: usize = 0;
    while i < x.len() && i < y.len()
        invariant
            i <= x.len(),
            i <= y.len(),
            x.len() > 0,
            y.len() > 0,
            char_lists(x@) == segments(a@),
            char_lists(y@) == segments(b@),
            forall|j: int| 0 <= j < i ==> #[trigger] segments(a@)[j] == segments(b@)[j],
        decreases x.len() - i,
    {
        let s = &x[i];
        let t = &y[i];
        assert(segments(a@)[i as int] == s@ && segments(b@)[i as int] == t@);
        if s.len() != t.len() {
            return false;
        }
        let mut k: usize = 0;
        while k < s.len()
            invariant
                k <= s.len(),
                s.len() == t.len(),
                i < x.len(),
                i < y.len(),
                segments(a@)[i as int] == s@,
                segments(b@)[i as int] == t@,
                char_lists(x@) == segments(a@),
                char_lists(y@) == segments(b@),
                forall|j: int| 0 <= j < k ==> s@[j] == t@[j],
            decreases s.len() - k,
        {
            if s[k] != t[k] {
                assert(segments(a@)[i as int] != segments(b@)[i as int]);
                return false;
            }
            k = k + 1;
        }
        assert(s@ =~= t@);
        i = i + 1;
    }
    true
}

/// Whether two resources cannot be reserved at the same time. Named resources
/// conflict with themselves only; two files where they are the same file; any
/// other two where one path lies under the other.
pub fn paths_conflict(kind_a: &str, key_a: &str, kind_b: &str, key_b: &str) -> (r: bool)
    ensures
        r == conflict(kind_a@, key_a@, kind_b@, key_b@),
{
    if text::same(kind_a, "named") || text::same(kind_b, "named") {
        return text::same(kind_a, kind_b) && text::same(key_a, key_b);
    }
    let a = canonicalize(key_a);
    let b = canonicalize(key_b);
    if text::same(kind_a, "file") && text::same(kind_b, "file") {
        return text::same(a.as_str(), b.as_str());
    }
    segment_prefix_overlap(a.as_str(), b.as_str())
}

/// A conflict goes both ways.
pub proof fn conflict_is_symmetric(
    kind_a: Seq<char>,
    key_a: Seq<char>,
    kind_b: Seq<char>,
    key_b: Seq<char>,
)
    ensures
        conflict(kind_a, key_a, kind_b, key_b) == conflict(kind_b, key_b, kind_a, key_a),
{
    let x = segments(canonical(key_a));
    let y = segments(canonical(key_b));
    if overlap(canonical(key_a), canonical(key_b)) {
        assert forall|i: int| 0 <= i < y.len() && i < x.len() implies #[trigger] y[i] == x[i] by {
            assert(x[i] == y[i]);
        }
    }
    if overlap(canonical(key_b), canonical(key_a)) {
        assert forall|i: int| 0 <= i < x.len() && i < y.len() implies #[trigger] x[i] == y[i] by {
            assert(y[i] == x[i]);
        }
    }
}

/// A resource conflicts with itself, unless its path has no segment.
pub proof fn conflict_is_reflexive(kind: Seq<char>, key: Seq<char>)
    requires
        kind == "named"@ || kind == "file"@ || segments(canonical(key)).len() > 0,
    ensures
        conflict(kind, key, kind, key),
{
}

/// Why an edge alone makes the graph invalid: an end that is no node of the graph, or both
/// ends the same.
pub open spec fn edge_fault(nodes: Seq<Seq<char>>, edge: DependencyEdge) -> Option<Fault> {
    if !edge.required {
        None
    } else if !nodes.contains(edge.from@) || !nodes.contains(edge.to@) {
        Some(Fault::MissingDependency)
    } else if edge.from@ == edge.to@ {
        Some(Fault::DependencyCycle)
    } else {
        None
    }
}

/// The fault of the first edge, from position `i` on, that has one.
pub open spec fn first_edge_fault(
    nodes: Seq<Seq<char>>,
    edges: Seq<DependencyEdge>,
    i: int,
) -> Option<Fault>
    decreases edges.len() - i,
{
    if i < 0 || i >= edges.len() {
        None
    } else if edge_fault(nodes, edges[i]) is Some {
        edge_fault(nodes, edges[i])
    } else {
        first_edge_fault(nodes, edges, i + 1)
    }
}

/// `walk` names required edges, each of which starts where the one before it ends, and the
/// last of which ends where the first starts.
pub open spec fn is_cycle(edges: Seq<DependencyEdge>, walk: Seq<int>) -> bool {
    &&& walk.len() > 0
    &&& forall|i: int|
        0 <= i < walk.len() ==> 0 <= #[trigger] walk[i] < edges.len() && edges[walk[i]].required
    &&& forall|i: int, j: int|
        0 <= i < walk.len() && 0 <= j < walk.len() && j == i + 1 ==> edges[#[trigger] walk[i]].to@
            == edges[#[trigger] walk[j]].from@
    &&& edges[walk.last()].to@ == edges[walk[0]].from@
}

/// The required edges close a cycle.
pub open spec fn has_cycle(edges: Seq<DependencyEdge>) -> bool {
    exists|walk: Seq<int>| is_cycle(edges, walk)
}

/// Whether the required edges of a graph join known nodes without a cycle; else why not.
pub open spec fn graph_validity(
    nodes: Seq<Seq<char>>,
    edges: Seq<DependencyEdge>,
) -> Result<(), Fault> {
    match first_edge_fault(nodes, edges, 0) {
        Some(f) => Err(f),
        None => if has_cycle(edges) {
            Err(Fault::DependencyCycle)
        } else {
            Ok(())
        },
    }
}

/// The place of a text in a list: the first where it stands.
fn position(nodes: &[String], x: &str) -> (r: Option<usize>)
    ensures
        match r {
            Some(i) => {
                &&& i < nodes@.len()
                &&& nodes@[i as int]@ == x@
                &&& stands_first_at(nodes@, x@, i)
            },
            None => !text::texts(nodes@).contains(x@),
        },
{
    let mut i: usize = 0;
    while i < nodes.len()
        invariant
            i <= nodes.len(),
            forall|j: int| 0 <= j < i ==> #[trigger] nodes@[j]@ != x@,
        decreases nodes.len() - i,
    {
        if text::same(nodes[i].as_str(), x) {
            proof {
                reveal(stands_first_at);
            }
            return Some(i);
        }
        i = i + 1;
    }
    assert forall|j: int| 0 <= j < nodes@.len() implies text::texts(nodes@)[j] != x@ by {
        assert(nodes@[j]@ != x@);
    }
    None
}

/// `x` stands in the list at `place`, and nowhere before.
#[verifier::opaque]
spec fn stands_first_at(nodes: Seq<String>, x: Seq<char>, place: usize) -> bool {
    &&& place < nodes.len()
    &&& nodes[place as int]@ == x
    &&& forall|j: int| 0 <= j < place ==> #[trigger] nodes[j]@ != x
}

proof fn place_is_unique(nodes: Seq<String>, x: Seq<char>, a: usize, b: usize)
    requires
        stands_first_at(nodes, x, a),
        stands_first_at(nodes, x, b),
    ensures
        a == b,
{
    reveal(stands_first_at);
    if a < b {
        assert(nodes[a as int]@ != x);
    }
    if b < a {
        assert(nodes[b as int]@ != x);
    }
}

proof fn place_names_one_node(nodes: Seq<String>, x: Seq<char>, y: Seq<char>, a: usize)
    requires
        stands_first_at(nodes, x, a),
        stands_first_at(nodes, y, a),
    ensures
        x == y,
{
    reveal(stands_first_at);
}

/// The ends of the required edges, by the places of their nodes.
spec fn ends_placed(
    nodes: Seq<String>,
    edges: Seq<DependencyEdge>,
    froms: Seq<usize>,
    tos: Seq<usize>,
) -> bool {
    &&& froms.len() == edges.len()
    &&& tos.len() == edges.len()
    &&& forall|e: int|
        0 <= e < edges.len() && (#[trigger] edges[e]).required ==> {
            &&& froms[e] < nodes.len()
            &&& tos[e] < nodes.len()
            &&& stands_first_at(nodes, edges[e].from@, froms[e])
            &&& stands_first_at(nodes, edges[e].to@, tos[e])
        }
}

proof fn ranks_increase_along_walk(
    nodes: Seq<String>,
    edges: Seq<DependencyEdge>,
    froms: Seq<usize>,
    tos: Seq<usize>,
    rank: Seq<usize>,
    walk: Seq<int>,
    k: int,
)
    requires
        ends_placed(nodes, edges, froms, tos),
        is_cycle(edges, walk),
        rank.len() == nodes.len(),
        forall|e: int|
            0 <= e < edges.len() && (#[trigger] edges[e]).required ==> rank[froms[e] as int]
                < rank[tos[e] as int],
        0 <= k < walk.len(),
    ensures
        rank[froms[walk[0]] as int] < rank[tos[walk[k]] as int],
    decreases k,
{
    assert(edges[walk[k]].required);
    if k > 0 {
        ranks_increase_along_walk(nodes, edges, froms, tos, rank, walk, k - 1);
        assert(edges[walk[k - 1]].required);
        assert(edges[walk[k - 1]].to@ == edges[walk[k]].from@);
        place_is_unique(nodes, edges[walk[k]].from@, tos[walk[k - 1]], froms[walk[k]]);
    }
}

proof fn ranked_graph_has_no_cycle(
    nodes: Seq<String>,
    edges: Seq<DependencyEdge>,
    froms: Seq<usize>,
    tos: Seq<usize>,
    rank: Seq<usize>,
)
    requires
        ends_placed(nodes, edges, froms, tos),
        rank.len() == nodes.len(),
        forall|e: int|
            0 <= e < edges.len() && (#[trigger] edges[e]).required ==> rank[froms[e] as int]
                < rank[tos[e] as int],
    ensures
        !has_cycle(edges),
{
    if has_cycle(edges) {
        let walk = choose|walk: Seq<int>| is_cycle(edges, walk);
        let last = walk.len() - 1;
        ranks_increase_along_walk(nodes, edges, froms, tos, rank, walk, last);
        assert(edges[walk[0]].required);
        assert(edges[walk[last]].required);
        place_is_unique(nodes, edges[walk[0]].from@, tos[walk[last]], froms[walk[0]]);
    }
}

/// A required edge into node `i` from a node that is left.
spec fn feeds(
    edges: Seq<DependencyEdge>,
    froms: Seq<usize>,
    tos: Seq<usize>,
    left: Seq<bool>,
    i: int,
    e: int,
) -> bool {
    &&& 0 <= e < edges.len()
    &&& edges[e].required
    &&& tos[e] == i
    &&& left[froms[e] as int]
}

/// Some required edge into node `i` from a node that is left.
spec fn feeding_edge(
    edges: Seq<DependencyEdge>,
    froms: Seq<usize>,
    tos: Seq<usize>,
    left: Seq<bool>,
    i: int,
) -> int {
    choose|e: int| feeds(edges, froms, tos, left, i, e)
}

/// The node `k` feeding edges back from `start`.
spec fn ancestor(
    edges: Seq<DependencyEdge>,
    froms: Seq<usize>,
    tos: Seq<usize>,
    left: Seq<bool>,
    start: int,
    k: nat,
) -> int
    decreases k,
{
    if k == 0 {
        start
    } else {
        froms[feeding_edge(
            edges,
            froms,
            tos,
            left,
            ancestor(edges, froms, tos, left, start, (k - 1) as nat),
        )] as int
    }
}

/// Every node that is left is fed by a node that is left.
spec fn all_fed(
    edges: Seq<DependencyEdge>,
    froms: Seq<usize>,
    tos: Seq<usize>,
    left: Seq<bool>,
) -> bool {
    forall|i: int| 0 <= i < left.len() && #[trigger] left[i] ==> exists|e: int| feeds(edges, froms, tos, left, i, e)
}

proof fn ancestors_are_left(
    nodes: Seq<String>,
    edges: Seq<DependencyEdge>,
    froms: Seq<usize>,
    tos: Seq<usize>,
    left: Seq<bool>,
    start: int,
    k: nat,
)
    requires
        ends_placed(nodes, edges, froms, tos),
        left.len() == nodes.len(),
        all_fed(edges, froms, tos, left),
        0 <= start < left.len(),
        left[start],
    ensures
        0 <= ancestor(edges, froms, tos, left, start, k) < left.len(),
        left[ancestor(edges, froms, tos, left, start, k)],
        feeds(
            edges,
            froms,
            tos,
            left,
            ancestor(edges, froms, tos, left, start, k),
            feeding_edge(edges, froms, tos, left, ancestor(edges, froms, tos, left, start, k)),
        ),
    decreases k,
{
    if k > 0 {
        ancestors_are_left(nodes, edges, froms, tos, left, start, (k - 1) as nat);
        let e = feeding_edge(
            edges,
            froms,
            tos,
            left,
            ancestor(edges, froms, tos, left, start, (k - 1) as nat),
        );
        assert(edges[e].required);
    }
    let i = ancestor(edges, froms, tos, left, start, k);
    assert(left[i]);
    assert(exists|e: int| feeds(edges, froms, tos, left, i, e));
}

/// More places than values: two places hold the same value.
proof fn two_agree(values: Seq<int>, bound: nat)
    requires
        values.len() > bound,
        forall|i: int| 0 <= i < values.len() ==> 0 <= #[trigger] values[i] < bound,
    ensures
        exists|a: int, b: int| 0 <= a < b < values.len() && #[trigger] values[a] == #[trigger] values[b],
{
    if values.no_duplicates() {
        values.unique_seq_to_set();
        let range = vstd::set_lib::set_int_range(0, bound as int);
        vstd::set_lib::lemma_int_range(0, bound as int);
        assert(values.to_set().subset_of(range));
        vstd::set_lib::lemma_len_subset(values.to_set(), range);
    } else {
        let (a, b) = choose|a: int, b: int|
            0 <= a < values.len() && 0 <= b < values.len() && a != b && values[a] == values[b];
        if a < b {
            assert(values[a] == values[b]);
        } else {
            assert(values[b] == values[a]);
        }
    }
}

proof fn fed_nodes_close_a_cycle(
    nodes: Seq<String>,
    edges: Seq<DependencyEdge>,
    froms: Seq<usize>,
    tos: Seq<usize>,
    left: Seq<bool>,
    start: int,
)
    requires
        ends_placed(nodes, edges, froms, tos),
        left.len() == nodes.len(),
        all_fed(edges, froms, tos, left),
        0 <= start < left.len(),
        left[start],
    ensures
        has_cycle(edges),
{
    let n = nodes.len();
    let node = |k: int| ancestor(edges, froms, tos, left, start, k as nat);
    let trail = Seq::new(n + 1, node);
    assert forall|k: int| 0 <= k < trail.len() implies 0 <= #[trigger] trail[k] < n by {
        ancestors_are_left(nodes, edges, froms, tos, left, start, k as nat);
    }
    two_agree(trail, n);
    let (a, b) = choose|a: int, b: int|
        0 <= a < b < trail.len() && #[trigger] trail[a] == #[trigger] trail[b];
    close_trail(nodes, edges, froms, tos, left, start, a, b);
}

proof fn close_trail(
    nodes: Seq<String>,
    edges: Seq<DependencyEdge>,
    froms: Seq<usize>,
    tos: Seq<usize>,
    left: Seq<bool>,
    start: int,
    a: int,
    b: int,
)
    requires
        ends_placed(nodes, edges, froms, tos),
        left.len() == nodes.len(),
        all_fed(edges, froms, tos, left),
        0 <= start < left.len(),
        left[start],
        0 <= a < b,
        ancestor(edges, froms, tos, left, start, a as nat) == ancestor(
            edges,
            froms,
            tos,
            left,
            start,
            b as nat,
        ),
    ensures
        has_cycle(edges),
{
    let walk = Seq::new(
        (b - a) as nat,
        |i: int| feeding_edge(
            edges,
            froms,
            tos,
            left,
            ancestor(edges, froms, tos, left, start, (b - 1 - i) as nat),
        ),
    );
    assert forall|i: int| 0 <= i < walk.len() implies {
        &&& 0 <= #[trigger] walk[i] < edges.len()
        &&& edges[walk[i]].required
        &&& tos[walk[i]] == ancestor(edges, froms, tos, left, start, (b - 1 - i) as nat)
        &&& froms[walk[i]] == ancestor(edges, froms, tos, left, start, (b - i) as nat)
        &&& stands_first_at(nodes, edges[walk[i]].from@, froms[walk[i]])
        &&& stands_first_at(nodes, edges[walk[i]].to@, tos[walk[i]])
    } by {
        ancestors_are_left(nodes, edges, froms, tos, left, start, (b - 1 - i) as nat);
    }
    assert forall|i: int, j: int|
        0 <= i < walk.len() && 0 <= j < walk.len() && j == i + 1 implies edges[#[trigger] walk[i]].to@
        == edges[#[trigger] walk[j]].from@ by {
        place_names_one_node(nodes, edges[walk[i]].to@, edges[walk[j]].from@, tos[walk[i]]);
    }
    let last = walk.len() - 1;
    assert(walk.last() == walk[last]);
    place_names_one_node(nodes, edges[walk[last]].to@, edges[walk[0]].from@, tos[walk[last]]);
    assert(is_cycle(edges, walk));
}

/// Whether a required edge leads into node `i` from a node that is left.
fn is_fed(
    edges: &[DependencyEdge],
    froms: &Vec<usize>,
    tos: &Vec<usize>,
    left: &Vec<bool>,
    i: usize,
) -> (r: bool)
    requires
        froms.len() == edges@.len(),
        tos.len() == edges@.len(),
        forall|e: int|
            0 <= e < edges@.len() && (#[trigger] edges@[e]).required ==> froms@[e] < left.len(),
    ensures
        r == exists|e: int| feeds(edges@, froms@, tos@, left@, i as int, e),
{
    let mut e: usize = 0;
    while e < edges.len()
        invariant
            e <= edges.len(),
            froms.len() == edges@.len(),
            tos.len() == edges@.len(),
            forall|k: int|
                0 <= k < edges@.len() && (#[trigger] edges@[k]).required ==> froms@[k] < left.len(),
            forall|k: int| 0 <= k < e ==> !feeds(edges@, froms@, tos@, left@, i as int, k),
        decreases edges.len() - e,
    {
        if edges[e].required && tos[e] == i && left[froms[e]] {
            assert(feeds(edges@, froms@, tos@, left@, i as int, e as int));
            return true;
        }
        assert(!feeds(edges@, froms@, tos@, left@, i as int, e as int));
        e = e + 1;
    }
    false
}

/// A node that is left and that no node that is left feeds.
fn find_unfed(
    edges: &[DependencyEdge],
    froms: &Vec<usize>,
    tos: &Vec<usize>,
    left: &Vec<bool>,
) -> (r: Option<usize>)
    requires
        froms.len() == edges@.len(),
        tos.len() == edges@.len(),
        forall|e: int|
            0 <= e < edges@.len() && (#[trigger] edges@[e]).required ==> froms@[e] < left.len(),
    ensures
        match r {
            Some(i) => {
                &&& i < left.len()
                &&& left@[i as int]
                &&& forall|e: int| !feeds(edges@, froms@, tos@, left@, i as int, e)
            },
            None => all_fed(edges@, froms@, tos@, left@),
        },
{
    let mut i: usize = 0;
    while i < left.len()
        invariant
            i <= left.len(),
            froms.len() == edges@.len(),
            tos.len() == edges@.len(),
            forall|e: int|
                0 <= e < edges@.len() && (#[trigger] edges@[e]).required ==> froms@[e] < left.len(),
            forall|k: int|
                0 <= k < i && #[trigger] left@[k] ==> exists|e: int|
                    feeds(edges@, froms@, tos@, left@, k, e),
        decreases left.len() - i,
    {
        if left[i] && !is_fed(edges, froms, tos, left, i) {
            return Some(i);
        }
        i = i + 1;
    }
    None
}

/// Checks that the required edges of a graph join known nodes and close no cycle.
pub fn validate_required_graph(nodes: &[String], edges: &[DependencyEdge]) -> (r: PgResult<()>)
    ensures
        error::checked(r) == graph_validity(text::texts(nodes@), edges@),
{
    let ghost names = text::texts(nodes@);
    let mut froms: Vec<usize> = Vec::new();
    let mut tos: Vec<usize> = Vec::new();
    let mut e: usize = 0;
    while e < edges.len()
        invariant
            e <= edges.len(),
            names == text::texts(nodes@),
            first_edge_fault(names, edges@, 0) == first_edge_fault(names, edges@, e as int),
            ends_placed(nodes@, edges@.take(e as int), froms@, tos@),
        decreases edges.len() - e,
    {
        let edge = &edges[e];
        let ghost done = edges@.take(e as int);
        let ghost (f0, t0) = (froms@, tos@);
        if edge.required {
            let from = position(nodes, edge.from.as_str());
            let to = position(nodes, edge.to.as_str());
            match (from, to) {
                (Some(f), Some(t)) => {
                    assert(names[f as int] == edge.from@ && names[t as int] == edge.to@);
                    if text::same(edge.from.as_str(), edge.to.as_str()) {
                        return Err(PgError::DependencyCycle);
                    }
                    froms.push(f);
                    tos.push(t);
                },
                _ => {
                    return Err(PgError::MissingDependency);
                },
            }
        } else {
            froms.push(0);
            tos.push(0);
        }
        proof {
            let now = edges@.take(e + 1);
            assert forall|k: int| 0 <= k < now.len() && (#[trigger] now[k]).required implies {
                &&& froms@[k] < nodes@.len()
                &&& tos@[k] < nodes@.len()
                &&& stands_first_at(nodes@, now[k].from@, froms@[k])
                &&& stands_first_at(nodes@, now[k].to@, tos@[k])
            } by {
                if k < e {
                    assert(done[k] == now[k]);
                    assert(done[k].required);
                    assert(froms@[k] == f0[k] && tos@[k] == t0[k]);
                }
            }
        }
        e = e + 1;
    }
    assert(edges@.take(e as int) =~= edges@);
    match rank_nodes(edges, &froms, &tos, nodes.len()) {
        Some(rank) => {
            proof {
                ranked_graph_has_no_cycle(nodes@, edges@, froms@, tos@, rank@);
            }
            Ok(())
        },
        None => {
            proof {
                let (left, start) = choose|left: Seq<bool>, start: int|
                    stuck(edges@, froms@, tos@, nodes@.len(), left, start);
                fed_nodes_close_a_cycle(nodes@, edges@, froms@, tos@, left, start);
            }
            Err(PgError::DependencyCycle)
        },
    }
}

/// The ends of the required edges are places below `n`.
spec fn ends_below(edges: Seq<DependencyEdge>, froms: Seq<usize>, tos: Seq<usize>, n: nat) -> bool {
    &&& froms.len() == edges.len()
    &&& tos.len() == edges.len()
    &&& forall|e: int|
        0 <= e < edges.len() && (#[trigger] edges[e]).required ==> froms[e] < n && tos[e] < n
}

/// A node is left, and every node that is left is fed by one that is left.
spec fn stuck(
    edges: Seq<DependencyEdge>,
    froms: Seq<usize>,
    tos: Seq<usize>,
    n: nat,
    left: Seq<bool>,
    start: int,
) -> bool {
    &&& left.len() == n
    &&& all_fed(edges, froms, tos, left)
    &&& 0 <= start < left.len()
    &&& left[start]
}

/// The nodes that are taken have been ranked, each above those that feed it.
spec fn ranked(
    edges: Seq<DependencyEdge>,
    froms: Seq<usize>,
    tos: Seq<usize>,
    left: Seq<bool>,
    rank: Seq<usize>,
    taken: usize,
) -> bool {
    &&& forall|i: int| 0 <= i < left.len() && !#[trigger] left[i] ==> rank[i] < taken
    &&& forall|e: int|
        0 <= e < edges.len() && (#[trigger] edges[e]).required && !left[tos[e] as int]
            ==> !left[froms[e] as int] && rank[froms[e] as int] < rank[tos[e] as int]
}

proof fn taking_keeps_ranked(
    edges: Seq<DependencyEdge>,
    froms: Seq<usize>,
    tos: Seq<usize>,
    left: Seq<bool>,
    rank: Seq<usize>,
    taken: usize,
    i: int,
)
    requires
        ends_below(edges, froms, tos, left.len()),
        rank.len() == left.len(),
        ranked(edges, froms, tos, left, rank, taken),
        0 <= i < left.len(),
        left[i],
        forall|e: int| !feeds(edges, froms, tos, left, i, e),
        taken < usize::MAX,
    ensures
        ranked(edges, froms, tos, left.update(i, false), rank.update(i, taken), (taken + 1) as usize),
{
    let left2 = left.update(i, false);
    let rank2 = rank.update(i, taken);
    assert forall|e: int|
        0 <= e < edges.len() && (#[trigger] edges[e]).required && !left2[tos[e] as int] implies !left2[froms[e] as int]
        && rank2[froms[e] as int] < rank2[tos[e] as int] by {
        assert(!feeds(edges, froms, tos, left, i, e));
        if tos[e] == i {
            assert(!left[froms[e] as int]);
        }
    }
}

/// Ranks the nodes so that every required edge leads from a lower rank to a higher one; or
/// none, where some nodes feed each other.
fn rank_nodes(edges: &[DependencyEdge], froms: &Vec<usize>, tos: &Vec<usize>, n: usize) -> (r: Option<
    Vec<usize>,
>)
    requires
        ends_below(edges@, froms@, tos@, n as nat),
    ensures
        match r {
            Some(rank) => {
                &&& rank@.len() == n
                &&& forall|e: int|
                    0 <= e < edges@.len() && (#[trigger] edges@[e]).required
                        ==> rank@[froms@[e] as int] < rank@[tos@[e] as int]
            },
            None => exists|left: Seq<bool>, start: int|
                stuck(edges@, froms@, tos@, n as nat, left, start),
        },
{
    let mut left: Vec<bool> = Vec::new();
    let mut rank: Vec<usize> = Vec::new();
    while left.len() < n
        invariant
            left.len() <= n,
            rank.len() == left.len(),
            forall|i: int| 0 <= i < left.len() ==> #[trigger] left@[i],
        decreases n - left.len(),
    {
        left.push(true);
        rank.push(0);
    }
    let mut taken: usize = 0;
    proof {
        all_left(left@);
    }
    while taken < n
        invariant
            taken <= n,
            left.len() == n,
            rank.len() == n,
            ends_below(edges@, froms@, tos@, n as nat),
            ranked(edges@, froms@, tos@, left@, rank@, taken),
            count_left(left@) == n - taken,
        decreases n - taken,
    {
        match find_unfed(edges, froms, tos, &left) {
            Some(i) => {
                proof {
                    taking_keeps_ranked(edges@, froms@, tos@, left@, rank@, taken, i as int);
                    count_after_taking(left@, i as int);
                }
                left.set(i, false);
                rank.set(i, taken);
                taken = taken + 1;
            },
            None => {
                proof {
                    let start = some_left(left@);
                    assert(stuck(edges@, froms@, tos@, n as nat, left@, start));
                }
                return None;
            },
        }
    }
    proof {
        none_left(left@);
    }
    Some(rank)
}

/// How many nodes are left.
spec fn count_left(left: Seq<bool>) -> int
    decreases left.len(),
{
    if left.len() == 0 {
        0
    } else {
        count_left(left.drop_last()) + if left.last() {
            1int
        } else {
            0int
        }
    }
}

proof fn all_left(left: Seq<bool>)
    requires
        forall|i: int| 0 <= i < left.len() ==> #[trigger] left[i],
    ensures
        count_left(left) == left.len(),
    decreases left.len(),
{
    if left.len() > 0 {
        all_left(left.drop_last());
    }
}

proof fn count_after_taking(left: Seq<bool>, i: int)
    requires
        0 <= i < left.len(),
        left[i],
    ensures
        count_left(left.update(i, false)) == count_left(left) - 1,
    decreases left.len(),
{
    let after = left.update(i, false);
    if i == left.len() - 1 {
        assert(after.drop_last() =~= left.drop_last());
    } else {
        assert(after.drop_last() =~= left.drop_last().update(i, false));
        count_after_taking(left.drop_last(), i);
    }
}

proof fn count_is_natural(left: Seq<bool>)
    ensures
        count_left(left) >= 0,
    decreases left.len(),
{
    if left.len() > 0 {
        count_is_natural(left.drop_last());
    }
}

proof fn some_left(left: Seq<bool>) -> (i: int)
    requires
        count_left(left) > 0,
    ensures
        0 <= i < left.len(),
        left[i],
    decreases left.len(),
{
    if left.last() {
        left.len() - 1
    } else {
        let i = some_left(left.drop_last());
        assert(left[i]);
        i
    }
}

proof fn none_left(left: Seq<bool>)
    requires
        count_left(left) == 0,
    ensures
        forall|i: int| 0 <= i < left.len() ==> !#[trigger] left[i],
    decreases left.len(),
{
    if left.len() > 0 {
        count_is_natural(left.drop_last());
        none_left(left.drop_last());
        assert forall|i: int| 0 <= i < left.len() implies !#[trigger] left[i] by {
            if i < left.len() - 1 {
                assert(left[i] == left.drop_last()[i]);
            }
        }
    }
}

/// Only the scope `main` is served.
pub fn require_main_scope(scope_id: &str) -> (r: PgResult<()>)
    ensures
        error::checked(r) == (if scope_id@ == "main"@ {
            Ok(())
        } else {
            Err(Fault::ScopeUnsupported)
        }),
{
    if !text::same(scope_id, "main") {
        return Err(PgError::ScopeUnsupported);
    }
    Ok(())
}

/// A row of the reservations in force.
#[derive(Clone, Debug)]
pub struct Reservation {
    pub kind: String,
    pub key: String,
}

/// The document of a child's contract: the parent's, with the child's name in it.
pub open spec fn child_contract_doc(parent: JsonView, child: Seq<char>) -> JsonView {
    json::with_field(
        json::with_field(parent, "work_id"@, JsonView::Str(child)),
        "external_key"@,
        JsonView::Str(child),
    )
}

/// The contract that a split gives to a child: the parent's, with the child's name in it.
pub fn child_contract(parent: &Json, child: &str) -> (r: Json)
    ensures
        r.model() == child_contract_doc(parent.model(), child@),
{
    parent.copy().with("work_id", json::text(child)).with("external_key", json::text(child))
}

/// The rules of the dependency graph and of reservations, for one database.
pub struct GraphStore {
    pub pool: PgPool,
}

impl GraphStore {
    pub fn new(url: &str) -> (r: GraphStore)
        ensures
            r.pool.address() == url@,
    {
        GraphStore { pool: PgPool::new(url) }
    }

    /// Whether the edges of a scope may be replaced: the scope must be served, and the new
    /// graph valid.
    pub fn replace_edges(
        &self,
        scope_id: &str,
        nodes: &[String],
        edges: &[DependencyEdge],
    ) -> (r: PgResult<()>)
        ensures
            error::checked(r) == (if scope_id@ != "main"@ {
                Err(Fault::ScopeUnsupported)
            } else {
                graph_validity(text::texts(nodes@), edges@)
            }),
    {
        require_main_scope(scope_id)?;
        validate_required_graph(nodes, edges)
    }

    /// Whether a resource may be reserved beside the reservations in force.
    pub fn reserve(&self, kind: &str, key: &str, in_force: &[Reservation]) -> (r: PgResult<()>)
        ensures
            error::checked(r) == (if exists|i: int|
                0 <= i < in_force@.len() && conflict(
                    kind@,
                    key@,
                    (#[trigger] in_force@[i]).kind@,
                    in_force@[i].key@,
                ) {
                Err(Fault::ResourceConflict)
            } else {
                Ok(())
            }),
    {
        let mut i: usize = 0;
        while i < in_force.len()
            invariant
                i <= in_force.len(),
                forall|j: int|
                    0 <= j < i ==> !conflict(
                        kind@,
                        key@,
                        (#[trigger] in_force@[j]).kind@,
                        in_force@[j].key@,
                    ),
            decreases in_force.len() - i,
        {
            if paths_conflict(kind, key, in_force[i].kind.as_str(), in_force[i].key.as_str()) {
                return Err(PgError::ResourceConflict);
            }
            i = i + 1;
        }
        Ok(())
    }

    /// A split has children, and its parent a contract: the contracts of the children, in
    /// their order.
    pub fn propose_split(&self, children: &[String], parent: Option<&Json>) -> (r: PgResult<Vec<Json>>)
        ensures
            match r {
                Ok(contracts) => {
                    &&& children@.len() > 0
                    &&& parent is Some
                    &&& contracts@.len() == children@.len()
                    &&& forall|i: int|
                        0 <= i < children@.len() ==> (#[trigger] contracts@[i]).model()
                            == child_contract_doc(parent->Some_0.model(), children@[i]@)
                },
                Err(e) => if children@.len() == 0 {
                    e@ == Fault::Protocol("split requires children"@)
                } else {
                    parent is None && e@ == Fault::Protocol("parent contract missing"@)
                },
            },
    {
        if children.len() == 0 {
            return Err(protocol("split requires children"));
        }
        match parent {
            None => Err(protocol("parent contract missing")),
            Some(p) => {
                let mut out: Vec<Json> = Vec::new();
                let mut i: usize = 0;
                while i < children.len()
                    invariant
                        i <= children.len(),
                        out.len() == i,
                        forall|j: int|
                            0 <= j < i ==> (#[trigger] out@[j]).model() == child_contract_doc(
                                p.model(),
                                children@[j]@,
                            ),
                    decreases children.len() - i,
                {
                    out.push(child_contract(p, children[i].as_str()));
                    i = i + 1;
                }
                Ok(out)
            },
        }
    }

    /// A parent is never complete by its children alone: it needs evidence of its own.
    pub fn complete_parent_from_children(&self, proposal_accepted: bool) -> (r: PgResult<()>)
        ensures
            error::checked(r) == (if proposal_accepted {
                Err::<(), Fault>(Fault::ParentEvidenceRequired)
            } else {
                Err(Fault::Protocol("split proposal missing"@))
            }),
    {
        if !proposal_accepted {
            return Err(protocol("split proposal missing"));
        }
        Err(PgError::ParentEvidenceRequired)
    }

    /// Whether a binding is valid; a binding that does not exist is refused.
    pub fn current_binding_valid(&self, binding: Option<bool>) -> (r: PgResult<bool>)
        ensures
            match r {
                Ok(valid) => binding == Some(valid),
                Err(e) => binding is None && e@ == Fault::BindingInvalid,
            },
    {
        match binding {
            Some(valid) => Ok(valid),
            None => Err(PgError::BindingInvalid),
        }
    }

    /// A work that is claimed keeps its contract: activation of another one is refused.
    pub fn activation_blocked_by_claims(
        &self,
        active_claims: i64,
        current_contract_hash: Option<&str>,
        new_contract_hash: &str,
    ) -> (r: PgResult<()>)
        ensures
            error::checked(r) == (if active_claims != 0 && current_contract_hash is Some
                && current_contract_hash->Some_0@ != new_contract_hash@ {
                Err(Fault::ClaimBlocksActivation)
            } else {
                Ok(())
            }),
    {
        if active_claims == 0 {
            return Ok(());
        }
        match current_contract_hash {
            Some(hash) => {
                if !text::same(hash, new_contract_hash) {
                    return Err(PgError::ClaimBlocksActivation);
                }
                Ok(())
            },
            None => Ok(()),
        }
    }

    /// A graph has at most `max_edges` edges.
    pub fn graph_within_budget(&self, edges: &[DependencyEdge], max_edges: usize) -> (r: PgResult<()>)
        ensures
            error::checked(r) == (if edges@.len() > max_edges {
                Err(Fault::GraphBudgetExceeded)
            } else {
                Ok(())
            }),
    {
        if edges.len() > max_edges {
            return Err(PgError::GraphBudgetExceeded);
        }
        Ok(())
    }
}

/// What may be reserved beside some reservations may be reserved beside any part of them.
pub proof fn fewer_reservations_block_less(
    kind: Seq<char>,
    key: Seq<char>,
    in_force: Seq<Reservation>,
    part: Seq<Reservation>,
)
    requires
        forall|i: int|
            0 <= i < in_force.len() ==> !conflict(
                kind,
                key,
                (#[trigger] in_force[i]).kind@,
                in_force[i].key@,
            ),
        forall|i: int| 0 <= i < part.len() ==> in_force.contains(#[trigger] part[i]),
    ensures
        forall|i: int|
            0 <= i < part.len() ==> !conflict(kind, key, (#[trigger] part[i]).kind@, part[i].key@),
{
    assert forall|i: int| 0 <= i < part.len() implies !conflict(
        kind,
        key,
        (#[trigger] part[i]).kind@,
        part[i].key@,
    ) by {
        assert(in_force.contains(part[i]));
        let j = choose|j: int| 0 <= j < in_force.len() && in_force[j] == part[i];
        assert(!conflict(kind, key, in_force[j].kind@, in_force[j].key@));
    }
}

proof fn pieces_are_some(path: Seq<char>)
    ensures
        pieces(path).len() > 0,
    decreases path.len(),
{
    if path.len() > 0 {
        pieces_are_some(path.drop_last());
    }
}

proof fn pieces_of_joined(a: Seq<char>, b: Seq<char>)
    ensures
        pieces(a.push('/') + b) == pieces(a) + pieces(b),
    decreases b.len(),
{
    let joined = a.push('/') + b;
    if b.len() == 0 {
        assert(joined =~= a.push('/'));
        assert(joined.drop_last() =~= a);
        assert(pieces(joined) =~= pieces(a) + pieces(b));
    } else {
        pieces_of_joined(a, b.drop_last());
        pieces_are_some(b.drop_last());
        assert(joined.drop_last() =~= a.push('/') + b.drop_last());
        assert(pieces(joined) =~= pieces(a) + pieces(b));
    }
}

/// The segments of two paths that a slash joins are the segments of the one and then those of the
/// other. A text without a slash is one segment, and the empty text is none.
pub proof fn segments_of_joined(a: Seq<char>, b: Seq<char>)
    ensures
        segments(a.push('/') + b) == segments(a) + segments(b),
        segments(Seq::empty()) == Seq::<Seq<char>>::empty(),
        a.len() > 0 && !a.contains('/') ==> segments(a) == seq![a],
{
    let wanted = |p: Seq<char>| p.len() > 0;
    pieces_of_joined(a, b);
    Seq::filter_distributes_over_add(pieces(a), pieces(b), wanted);
    assert(Seq::<Seq<char>>::empty().filter(wanted) =~= Seq::empty()) by {
        reveal(Seq::filter);
    }
    filter_push(Seq::empty(), wanted, Seq::empty());
    assert(pieces(Seq::empty()) =~= Seq::<Seq<char>>::empty().push(Seq::empty()));
    if a.len() > 0 && !a.contains('/') {
        one_piece(a);
        filter_push(Seq::empty(), wanted, a);
        assert(pieces(a) =~= Seq::<Seq<char>>::empty().push(a));
        assert(segments(a) =~= seq![a]);
    }
}

proof fn one_piece(s: Seq<char>)
    requires
        !s.contains('/'),
    ensures
        pieces(s) == seq![s],
    decreases s.len(),
{
    if s.len() > 0 {
        assert forall|i: int| 0 <= i < s.drop_last().len() implies s.drop_last()[i] != '/' by {
            assert(s.contains(s[i]));
        }
        one_piece(s.drop_last());
        assert(s.contains(s.last()));
        assert(s.drop_last().push(s.last()) =~= s);
        assert(pieces(s) =~= seq![s]);
    } else {
        assert(s =~= Seq::empty());
    }
}

proof fn segments_without_ends(path: Seq<char>, from: int, to: int)
    requires
        0 <= from <= to <= path.len(),
        forall|i: int| 0 <= i < from ==> #[trigger] path[i] == '/',
        forall|i: int| to <= i < path.len() ==> #[trigger] path[i] == '/',
    ensures
        segments(with_slashes(path)) == segments(with_slashes(path.subrange(from, to))),
    decreases from + (path.len() - to),
{
    let nothing = Seq::<char>::empty();
    if from > 0 {
        let rest = path.drop_first();
        assert(with_slashes(path) =~= nothing.push('/') + with_slashes(rest));
        segments_of_joined(nothing, with_slashes(rest));
        assert(segments(with_slashes(path)) =~= segments(with_slashes(rest)));
        assert forall|i: int| 0 <= i < from - 1 implies #[trigger] rest[i] == '/' by {
            assert(rest[i] == path[i + 1]);
        }
        assert forall|i: int| to - 1 <= i < rest.len() implies #[trigger] rest[i] == '/' by {
            assert(rest[i] == path[i + 1]);
        }
        segments_without_ends(rest, from - 1, to - 1);
        assert(rest.subrange(from - 1, to - 1) =~= path.subrange(from, to));
    } else if to < path.len() {
        let rest = path.drop_last();
        assert(path[path.len() - 1] == '/');
        assert(with_slashes(path) =~= with_slashes(rest).push('/') + nothing);
        segments_of_joined(with_slashes(rest), nothing);
        assert(segments(with_slashes(path)) =~= segments(with_slashes(rest)));
        segments_without_ends(rest, from, to);
        assert(rest.subrange(from, to) =~= path.subrange(from, to));
    } else {
        assert(path.subrange(from, to) =~= path);
    }
}

proof fn a_trimmed_path(path: Seq<char>, n: nat)
    requires
        n <= path.len(),
        forall|i: int| 0 <= i < n ==> #[trigger] path[i] == '/',
    ensures
        exists|inner: Seq<char>| text::is_trimmed(path, inner, text::only('/')),
    decreases path.len() - n,
{
    if n < path.len() && path[n as int] == '/' {
        a_trimmed_path(path, n + 1);
    } else if n == path.len() {
        assert(text::trimmed_at(
            path,
            path.subrange(n as int, n as int),
            text::only('/'),
            n as int,
            n as int,
        ));
        assert(text::is_trimmed(path, path.subrange(n as int, n as int), text::only('/')));
    } else {
        a_trimmed_tail(path, n as int, path.len() as int);
    }
}

proof fn a_trimmed_tail(path: Seq<char>, from: int, to: int)
    requires
        0 <= from < to <= path.len(),
        forall|i: int| 0 <= i < from ==> #[trigger] path[i] == '/',
        forall|i: int| to <= i < path.len() ==> #[trigger] path[i] == '/',
        path[from] != '/',
    ensures
        exists|inner: Seq<char>| text::is_trimmed(path, inner, text::only('/')),
    decreases to,
{
    if path[to - 1] == '/' {
        a_trimmed_tail(path, from, to - 1);
    } else {
        assert(text::trimmed_at(path, path.subrange(from, to), text::only('/'), from, to));
        assert(text::is_trimmed(path, path.subrange(from, to), text::only('/')));
    }
}

/// The slashes at both ends of a path have no part in its segments, and a backslash parts segments as
/// a slash does.
pub proof fn canonical_keeps_segments(path: Seq<char>)
    ensures
        segments(canonical(path)) == segments(
            path.map_values(
                |c: char|
                    if c == '\\' {
                        '/'
                    } else {
                        c
                    },
            ),
        ),
{
    a_trimmed_path(path, 0);
    let inner = without_outer_slashes(path);
    let (from, to) = choose|from: int, to: int| #[trigger]
        text::trimmed_at(path, inner, text::only('/'), from, to);
    segments_without_ends(path, from, to);
    assert(with_slashes(path) =~= path.map_values(
        |c: char|
            if c == '\\' {
                '/'
            } else {
                c
            },
    ));
}

proof fn segments_need_a_character(path: Seq<char>, at: int)
    requires
        0 <= at < path.len(),
        path[at] != '/',
    ensures
        segments(path).len() > 0,
    decreases path.len(),
{
    let wanted = |p: Seq<char>| p.len() > 0;
    pieces_are_some(path.drop_last());
    let before = pieces(path.drop_last());
    if path.last() == '/' {
        filter_push(before, wanted, Seq::empty());
        segments_need_a_character(path.drop_last(), at);
    } else {
        let head = before.drop_last();
        let last = before.last().push(path.last());
        filter_push(head, wanted, last);
        assert(pieces(path) =~= head.push(last));
    }
}

/// Two paths of which at least one is a directory conflict exactly where the segments of the one begin
/// with those of the other, and both have some.
pub proof fn directories_conflict_with_what_they_hold(
    kind_a: Seq<char>,
    key_a: Seq<char>,
    kind_b: Seq<char>,
    key_b: Seq<char>,
)
    requires
        kind_a == "prefix"@ || kind_b == "prefix"@,
        kind_a != "named"@,
        kind_b != "named"@,
    ensures
        conflict(kind_a, key_a, kind_b, key_b) <==> {
            let a = segments(canonical(key_a));
            let b = segments(canonical(key_b));
            a.len() > 0 && b.len() > 0 && (a.is_prefix_of(b) || b.is_prefix_of(a))
        },
{
    reveal_strlit("prefix");
    reveal_strlit("file");
    reveal_strlit("named");
    assert("prefix"@.len() == 6 && "file"@.len() == 4);
    let a = segments(canonical(key_a));
    let b = segments(canonical(key_b));
    if conflict(kind_a, key_a, kind_b, key_b) {
        if a.len() <= b.len() {
            assert(a =~= b.subrange(0, a.len() as int));
        } else {
            assert(b =~= a.subrange(0, b.len() as int));
        }
    }
}

/// A directory conflicts with every path below it, whether that is reserved as a file or as a
/// directory. Both slashes part a path from what lies below.
pub proof fn nested_paths_conflict(
    kind: Seq<char>,
    dir: Seq<char>,
    parted: char,
    rest: Seq<char>,
    at: int,
)
    requires
        kind == "file"@ || kind == "prefix"@,
        parted == '/' || parted == '\\',
        0 <= at < dir.len(),
        dir[at] != '/' && dir[at] != '\\',
    ensures
        conflict("prefix"@, dir, kind, dir.push(parted) + rest),
        conflict(kind, dir.push(parted) + rest, "prefix"@, dir),
        conflict("prefix"@, dir, kind, dir),
        conflict(kind, dir, "prefix"@, dir.push(parted) + rest),
{
    reveal_strlit("prefix");
    reveal_strlit("file");
    reveal_strlit("named");
    assert("prefix"@.len() == 6 && "file"@.len() == 4 && "named"@.len() == 5);
    let below = dir.push(parted) + rest;
    canonical_keeps_segments(dir);
    canonical_keeps_segments(below);
    assert(with_slashes(below) =~= with_slashes(dir).push('/') + with_slashes(rest));
    assert(with_slashes(below) =~= below.map_values(
        |c: char|
            if c == '\\' {
                '/'
            } else {
                c
            },
    ));
    segments_of_joined(with_slashes(dir), with_slashes(rest));
    segments_need_a_character(with_slashes(dir), at);
    let a = segments(canonical(dir));
    let b = segments(canonical(below));
    assert(a =~= b.subrange(0, a.len() as int));
    assert(a =~= a.subrange(0, a.len() as int));
    directories_conflict_with_what_they_hold("prefix"@, dir, kind, below);
    directories_conflict_with_what_they_hold(kind, below, "prefix"@, dir);
    directories_conflict_with_what_they_hold("prefix"@, dir, kind, dir);
    directories_conflict_with_what_they_hold(kind, dir, "prefix"@, below);
}

/// Two paths that part ways below a directory do not conflict, and neither does anything below them.
pub proof fn siblings_do_not_conflict(
    kind_a: Seq<char>,
    kind_b: Seq<char>,
    dir: Seq<char>,
    name_a: Seq<char>,
    name_b: Seq<char>,
    rest_a: Seq<char>,
    rest_b: Seq<char>,
)
    requires
        kind_a == "file"@ || kind_a == "prefix"@,
        kind_b == "file"@ || kind_b == "prefix"@,
        name_a != name_b,
        name_a.len() > 0 && !name_a.contains('/') && !name_a.contains('\\'),
        name_b.len() > 0 && !name_b.contains('/') && !name_b.contains('\\'),
    ensures
        !conflict(
            kind_a,
            dir.push('/') + (name_a.push('/') + rest_a),
            kind_b,
            dir.push('/') + (name_b.push('/') + rest_b),
        ),
{
    reveal_strlit("prefix");
    reveal_strlit("file");
    reveal_strlit("named");
    assert("prefix"@.len() == 6 && "file"@.len() == 4 && "named"@.len() == 5);
    let key_a = dir.push('/') + (name_a.push('/') + rest_a);
    let key_b = dir.push('/') + (name_b.push('/') + rest_b);
    segments_below(dir, name_a, rest_a);
    segments_below(dir, name_b, rest_b);
    let n = segments(with_slashes(dir)).len() as int;
    let a = segments(canonical(key_a));
    let b = segments(canonical(key_b));
    assert(a[n] == name_a);
    assert(b[n] == name_b);
    assert(a != b);
    if kind_a == "file"@ && kind_b == "file"@ {
        assert(canonical(key_a) != canonical(key_b));
    }
}

proof fn segments_below(dir: Seq<char>, name: Seq<char>, rest: Seq<char>)
    requires
        name.len() > 0 && !name.contains('/') && !name.contains('\\'),
    ensures
        segments(canonical(dir.push('/') + (name.push('/') + rest))) == segments(with_slashes(dir)) + (
        seq![name] + segments(with_slashes(rest))),
{
    let key = dir.push('/') + (name.push('/') + rest);
    canonical_keeps_segments(key);
    assert forall|i: int| 0 <= i < name.len() implies with_slashes(name)[i] == name[i] by {
        assert(name.contains(name[i]));
    }
    assert(with_slashes(name) =~= name);
    assert(with_slashes(key) =~= with_slashes(dir).push('/') + (name.push('/') + with_slashes(rest)));
    assert(with_slashes(key) =~= key.map_values(
        |c: char|
            if c == '\\' {
                '/'
            } else {
                c
            },
    ));
    segments_of_joined(with_slashes(dir), name.push('/') + with_slashes(rest));
    segments_of_joined(name, with_slashes(rest));
}

/// Two files conflict where their paths are the same but for slashes at both ends, and for
/// backslashes in place of slashes.
pub proof fn files_conflict_with_themselves_only(a: Seq<char>, b: Seq<char>)
    requires
        a.len() > 0 ==> a[0] != '/' && a.last() != '/',
        b.len() > 0 ==> b[0] != '/' && b.last() != '/',
    ensures
        conflict("file"@, a, "file"@, b) <==> {
            &&& a.len() == b.len()
            &&& forall|i: int|
                0 <= i < a.len() ==> #[trigger] a[i] == b[i] || (a[i] == '/' && b[i] == '\\') || (
                a[i] == '\\' && b[i] == '/')
        },
        conflict("file"@, seq!['/'] + a.push('/'), "file"@, b) == conflict("file"@, a, "file"@, b),
{
    reveal_strlit("file");
    reveal_strlit("named");
    assert("file"@.len() == 4 && "named"@.len() == 5);
    let outer = seq!['/'] + a.push('/');
    assert(a.subrange(0, a.len() as int) =~= a);
    assert(b.subrange(0, b.len() as int) =~= b);
    assert(outer.subrange(1, a.len() as int + 1) =~= a);
    trimmed_between(a, 0, a.len() as int);
    trimmed_between(b, 0, b.len() as int);
    trimmed_between(outer, 1, a.len() as int + 1);
    same_with_slashes(a, b);
}

proof fn trimmed_between(path: Seq<char>, from: int, to: int)
    requires
        0 <= from <= to <= path.len(),
        forall|i: int| 0 <= i < from ==> #[trigger] path[i] == '/',
        forall|i: int| to <= i < path.len() ==> #[trigger] path[i] == '/',
        from < to ==> path[from] != '/' && path[to - 1] != '/',
    ensures
        without_outer_slashes(path) == path.subrange(from, to),
{
    let inner = path.subrange(from, to);
    assert(text::trimmed_at(path, inner, text::only('/'), from, to));
    assert(text::is_trimmed(path, inner, text::only('/')));
    text::trimming_is_unique(path, inner, without_outer_slashes(path), text::only('/'));
}

proof fn same_with_slashes(a: Seq<char>, b: Seq<char>)
    ensures
        with_slashes(a) == with_slashes(b) <==> {
            &&& a.len() == b.len()
            &&& forall|i: int|
                0 <= i < a.len() ==> #[trigger] a[i] == b[i] || (a[i] == '/' && b[i] == '\\') || (
                a[i] == '\\' && b[i] == '/')
        },
{
    let x = with_slashes(a);
    let y = with_slashes(b);
    assert(x.len() == a.len() && y.len() == b.len());
    if x == y {
        assert forall|i: int| 0 <= i < a.len() implies #[trigger] a[i] == b[i] || (a[i] == '/' && b[i]
            == '\\') || (a[i] == '\\' && b[i] == '/') by {
            assert(x[i] == y[i]);
        }
    } else if a.len() == b.len() {
        assert(!(x =~= y));
        let i = choose|i: int| 0 <= i < x.len() && x[i] != y[i];
        assert(a[i] != b[i]);
    }
}

/// A named resource conflicts with the resource of the same name and with no path.
pub proof fn names_conflict_with_themselves_only(a: Seq<char>, kind: Seq<char>, b: Seq<char>)
    requires
        kind == "named"@ || kind == "file"@ || kind == "prefix"@,
    ensures
        conflict("named"@, a, kind, b) <==> (kind == "named"@ && a == b),
        conflict(kind, b, "named"@, a) <==> (kind == "named"@ && a == b),
{
}

/// A text is reached from another by required edges, one after the other.
pub open spec fn is_route(edges: Seq<DependencyEdge>, route: Seq<Seq<char>>) -> bool {
    forall|i: int|
        0 <= i < route.len() - 1 ==> exists|e: int|
            0 <= e < edges.len() && (#[trigger] edges[e]).required && edges[e].from@
                == #[trigger] route[i] && edges[e].to@ == route[i + 1]
}

/// A graph in which some work is reached from itself by required edges is refused.
pub proof fn circular_graphs_are_refused(
    nodes: Seq<Seq<char>>,
    edges: Seq<DependencyEdge>,
    route: Seq<Seq<char>>,
)
    requires
        is_route(edges, route),
        route.len() >= 2,
        route[0] == route.last(),
    ensures
        graph_validity(nodes, edges) is Err,
{
    let walk = Seq::new(
        (route.len() - 1) as nat,
        |i: int|
            choose|e: int|
                0 <= e < edges.len() && (#[trigger] edges[e]).required && edges[e].from@ == route[i]
                    && edges[e].to@ == route[i + 1],
    );
    assert forall|i: int| 0 <= i < walk.len() implies 0 <= #[trigger] walk[i] < edges.len()
        && edges[walk[i]].required && edges[walk[i]].from@ == route[i] && edges[walk[i]].to@ == route[i
        + 1] by {
        let from = route[i];
    }
    assert(is_cycle(edges, walk));
}

proof fn first_fault_is_a_fault(nodes: Seq<Seq<char>>, edges: Seq<DependencyEdge>, i: int)
    requires
        0 <= i,
    ensures
        first_edge_fault(nodes, edges, i) is Some ==> exists|k: int|
            i <= k < edges.len() && first_edge_fault(nodes, edges, i) == #[trigger] edge_fault(
                nodes,
                edges[k],
            ) && forall|m: int|
                i <= m < k ==> #[trigger] edge_fault(nodes, edges[m]) is None,
        first_edge_fault(nodes, edges, i) is None ==> forall|k: int|
            i <= k < edges.len() ==> #[trigger] edge_fault(nodes, edges[k]) is None,
    decreases edges.len() - i,
{
    if i < edges.len() {
        if edge_fault(nodes, edges[i]) is Some {
            assert(first_edge_fault(nodes, edges, i) == edge_fault(nodes, edges[i]));
        } else {
            first_fault_is_a_fault(nodes, edges, i + 1);
            if first_edge_fault(nodes, edges, i) is Some {
                let k = choose|k: int|
                    i + 1 <= k < edges.len() && first_edge_fault(nodes, edges, i + 1)
                        == #[trigger] edge_fault(nodes, edges[k]) && forall|m: int|
                        i + 1 <= m < k ==> #[trigger] edge_fault(nodes, edges[m]) is None;
                assert(first_edge_fault(nodes, edges, i) == edge_fault(nodes, edges[k]));
            }
        }
    }
}

/// A graph whose required edges join works of the project, and whose works can be numbered so that
/// every required edge leads to a higher number, is accepted.
pub proof fn ordered_graphs_are_accepted(
    nodes: Seq<Seq<char>>,
    edges: Seq<DependencyEdge>,
    number: spec_fn(Seq<char>) -> int,
)
    requires
        forall|e: int|
            0 <= e < edges.len() && (#[trigger] edges[e]).required ==> nodes.contains(edges[e].from@)
                && nodes.contains(edges[e].to@) && number(edges[e].from@) < number(edges[e].to@),
    ensures
        graph_validity(nodes, edges) == Ok::<(), Fault>(()),
{
    first_fault_is_a_fault(nodes, edges, 0);
    if first_edge_fault(nodes, edges, 0) is Some {
        let k = choose|k: int|
            0 <= k < edges.len() && first_edge_fault(nodes, edges, 0) == #[trigger] edge_fault(
                nodes,
                edges[k],
            );
        assert(edges[k].required);
    }
    if has_cycle(edges) {
        let walk = choose|walk: Seq<int>| is_cycle(edges, walk);
        numbers_grow(edges, walk, number, walk.len() - 1);
        assert(edges[walk[0]].required);
        let last = walk[walk.len() - 1];
        assert(edges[last].to@ == edges[walk[0]].from@);
    }
}

proof fn numbers_grow(
    edges: Seq<DependencyEdge>,
    walk: Seq<int>,
    number: spec_fn(Seq<char>) -> int,
    i: int,
)
    requires
        is_cycle(edges, walk),
        0 <= i < walk.len(),
        forall|e: int|
            0 <= e < edges.len() && (#[trigger] edges[e]).required ==> number(edges[e].from@) < number(
                edges[e].to@,
            ),
    ensures
        number(edges[walk[0]].from@) < number(edges[walk[i]].to@),
    decreases i,
{
    assert(edges[walk[i]].required);
    if i > 0 {
        numbers_grow(edges, walk, number, i - 1);
        assert(edges[walk[i - 1]].to@ == edges[walk[i]].from@);
    }
}

/// An accepted graph has every required edge between two different works of the project. A dependency
/// is called missing only where some required edge names a work that the project does not have, and a
/// graph in which one does is never accepted.
pub proof fn accepted_graphs_are_complete(
    nodes: Seq<Seq<char>>,
    edges: Seq<DependencyEdge>,
    e: int,
)
    requires
        0 <= e < edges.len(),
        edges[e].required,
    ensures
        graph_validity(nodes, edges) is Ok ==> nodes.contains(edges[e].from@) && nodes.contains(
            edges[e].to@,
        ) && edges[e].from@ != edges[e].to@,
        (forall|k: int|
            0 <= k < edges.len() && (#[trigger] edges[k]).required ==> nodes.contains(edges[k].from@)
                && nodes.contains(edges[k].to@)) ==> graph_validity(nodes, edges) != Err::<(), Fault>(
            Fault::MissingDependency,
        ),
        (forall|k: int| 0 <= k < edges.len() ==> (#[trigger] edges[k]).from@ != edges[k].to@) && !(
        nodes.contains(edges[e].from@) && nodes.contains(edges[e].to@)) ==> graph_validity(nodes, edges)
            == Err::<(), Fault>(Fault::MissingDependency),
{
    first_fault_is_a_fault(nodes, edges, 0);
    assert(edge_fault(nodes, edges[e]) is None ==> nodes.contains(edges[e].from@));
    if first_edge_fault(nodes, edges, 0) is Some {
        let k = choose|k: int|
            0 <= k < edges.len() && first_edge_fault(nodes, edges, 0) == #[trigger] edge_fault(
                nodes,
                edges[k],
            );
        assert(edges[k].required);
    }
}

/// The contract of a part has the name of the part, and is that of the whole in everything else.
pub proof fn parts_inherit_the_contract(parent: JsonView, child: Seq<char>, key: Seq<char>)
    requires
        parent is Obj,
    ensures
        json::field(child_contract_doc(parent, child), "work_id"@) == Some(JsonView::Str(child)),
        json::field(child_contract_doc(parent, child), "external_key"@) == Some(JsonView::Str(child)),
        key != "work_id"@ && key != "external_key"@ ==> json::field(
            child_contract_doc(parent, child),
            key,
        ) == json::field(parent, key),
{
    reveal_strlit("work_id");
    reveal_strlit("external_key");
    assert("work_id"@.len() == 7 && "external_key"@.len() == 12);
    let v = JsonView::Str(child);
    let once = json::with_field(parent, "work_id"@, v);
    json::set_fields_are_read(parent, "work_id"@, v, "work_id"@);
    json::set_fields_are_read(parent, "work_id"@, v, key);
    json::set_fields_are_read(once, "external_key"@, v, "work_id"@);
    json::set_fields_are_read(once, "external_key"@, v, "external_key"@);
    json::set_fields_are_read(once, "external_key"@, v, key);
}

} // verus!
