//! Which action a command stands for.
use crate::text;
use vstd::prelude::*;

verus! {

/// The authority that a command needs.
#[derive(Clone, Copy, Debug, PartialEq, Eq, Structural)]
pub enum DomainAuthority {
    /// One that a role grants.
    Role,
    Attest,
    Reconcile,
}

/// An operation: the authority that it needs where it is a command, and the action that it stands
/// for where it is one of those that roles speak of.
#[derive(Clone, Debug)]
pub struct Operation {
    pub op: String,
    pub authority: Option<DomainAuthority>,
    pub action: Option<String>,
}

/// The place of an operation in a catalogue.
pub open spec fn place_of(catalogue: Seq<Operation>, op: Seq<char>) -> Option<int>
    decreases catalogue.len(),
{
    if catalogue.len() == 0 {
        None
    } else {
        match place_of(catalogue.drop_last(), op) {
            Some(i) => Some(i),
            None => if catalogue.last().op@ == op {
                Some(catalogue.len() - 1)
            } else {
                None
            },
        }
    }
}

fn find(catalogue: &Vec<Operation>, op: &str) -> (r: Option<usize>)
    ensures
        match r {
            Some(i) => i < catalogue.len() && place_of(catalogue@, op@) == Some(i as int),
            None => place_of(catalogue@, op@) is None,
        },
{
    let mut found: Option<usize> = None;
    let mut i: usize = 0;
    while i < catalogue.len()
        invariant
            i <= catalogue.len(),
            match found {
                Some(k) => k < i && place_of(catalogue@.take(i as int), op@) == Some(k as int),
                None => place_of(catalogue@.take(i as int), op@) is None,
            },
        decreases catalogue.len() - i,
    {
        assert(catalogue@.take(i + 1).drop_last() =~= catalogue@.take(i as int));
        if found.is_none() && text::same(catalogue[i].op.as_str(), op) {
            found = Some(i);
        }
        i = i + 1;
    }
    assert(catalogue@.take(i as int) =~= catalogue@);
    found
}

/// The authority that an operation needs; none where it is not a command.
pub open spec fn authority_of(catalogue: Seq<Operation>, op: Seq<char>) -> Option<DomainAuthority> {
    match place_of(catalogue, op) {
        Some(i) => catalogue[i].authority,
        None => None,
    }
}

/// The authority that an operation needs; none where it is not a command.
pub fn command_authority(catalogue: &Vec<Operation>, op: &str) -> (r: Option<DomainAuthority>)
    ensures
        r == authority_of(catalogue@, op@),
{
    match find(catalogue, op) {
        Some(i) => catalogue[i].authority,
        None => None,
    }
}

/// The action that an operation stands for.
pub open spec fn action_of(catalogue: Seq<Operation>, op: Seq<char>) -> Option<Seq<char>> {
    match place_of(catalogue, op) {
        Some(i) => text::opt(catalogue[i].action),
        None => None,
    }
}

/// The action that an operation stands for.
pub fn command_business_action(catalogue: &Vec<Operation>, op: &str) -> (r: Option<String>)
    ensures
        text::opt(r) == action_of(catalogue@, op@),
{
    match find(catalogue, op) {
        Some(i) => text::copy_opt(&catalogue[i].action),
        None => None,
    }
}

/// Every command with the action that it stands for.
pub open spec fn matrix_of(catalogue: Seq<Operation>) -> Seq<(Seq<char>, Option<Seq<char>>)>
    decreases catalogue.len(),
{
    if catalogue.len() == 0 {
        Seq::empty()
    } else {
        let before = matrix_of(catalogue.drop_last());
        let o = catalogue.last();
        if o.authority is Some {
            before.push((o.op@, text::opt(o.action)))
        } else {
            before
        }
    }
}

/// The model of a matrix.
pub open spec fn rows(list: Seq<(String, Option<String>)>) -> Seq<(Seq<char>, Option<Seq<char>>)> {
    list.map_values(|r: (String, Option<String>)| (r.0@, text::opt(r.1)))
}

/// Every command of a catalogue, in its order, with the action that it stands for. What is no
/// command is left out.
pub fn command_action_matrix(catalogue: &Vec<Operation>) -> (r: Vec<(String, Option<String>)>)
    ensures
        rows(r@) == matrix_of(catalogue@),
{
    let mut out: Vec<(String, Option<String>)> = Vec::new();
    let mut i: usize = 0;
    assert(rows(out@) =~= Seq::empty());
    while i < catalogue.len()
        invariant
            i <= catalogue.len(),
            rows(out@) == matrix_of(catalogue@.take(i as int)),
        decreases catalogue.len() - i,
    {
        assert(catalogue@.take(i + 1).drop_last() =~= catalogue@.take(i as int));
        let ghost before = out@;
        let o = &catalogue[i];
        if o.authority.is_some() {
            out.push((o.op.as_str().to_owned(), text::copy_opt(&o.action)));
            assert(rows(out@) =~= rows(before).push((o.op@, text::opt(o.action))));
        }
        i = i + 1;
    }
    assert(catalogue@.take(i as int) =~= catalogue@);
    out
}

/// A command stands for an action exactly where its authority is one that a role grants.
pub open spec fn is_covered(o: Operation) -> bool {
    match o.authority {
        None => true,
        Some(DomainAuthority::Role) => o.action is Some,
        Some(_) => o.action is None,
    }
}

/// Whether every command of a catalogue stands for an action or needs a special authority, and
/// none does both.
pub fn commands_are_covered(catalogue: &Vec<Operation>) -> (r: bool)
    ensures
        r == forall|i: int| 0 <= i < catalogue.len() ==> is_covered(#[trigger] catalogue@[i]),
{
    let mut i: usize = 0;
    while i < catalogue.len()
        invariant
            i <= catalogue.len(),
            forall|j: int| 0 <= j < i ==> is_covered(#[trigger] catalogue@[j]),
        decreases catalogue.len() - i,
    {
        let o = &catalogue[i];
        let covered = match o.authority {
            None => true,
            Some(DomainAuthority::Role) => o.action.is_some(),
            Some(_) => o.action.is_none(),
        };
        if !covered {
            assert(!is_covered(catalogue@[i as int]));
            return false;
        }
        i = i + 1;
    }
    true
}

/// Every command of a catalogue has its row, and every row is one of a command.
pub proof fn every_command_has_a_row(catalogue: Seq<Operation>, i: int)
    requires
        0 <= i < catalogue.len(),
    ensures
        catalogue[i].authority is Some ==> matrix_of(catalogue).contains(
            (catalogue[i].op@, text::opt(catalogue[i].action)),
        ),
        forall|k: int|
            0 <= k < matrix_of(catalogue).len() ==> exists|j: int|
                0 <= j < catalogue.len() && (#[trigger] catalogue[j]).authority is Some && (
                #[trigger] matrix_of(catalogue)[k]) == (
                    catalogue[j].op@,
                    text::opt(catalogue[j].action),
                ),
    decreases catalogue.len(),
{
    let head = catalogue.drop_last();
    let before = matrix_of(head);
    let all = matrix_of(catalogue);
    if head.len() > 0 {
        let h = if i < head.len() {
            i
        } else {
            0
        };
        every_command_has_a_row(head, h);
        if i < head.len() && catalogue[i].authority is Some {
            let row = (catalogue[i].op@, text::opt(catalogue[i].action));
            let k = before.index_of(row);
            assert(all[k] == row);
        }
    }
    if i == catalogue.len() - 1 && catalogue[i].authority is Some {
        assert(all[all.len() - 1] == (catalogue[i].op@, text::opt(catalogue[i].action)));
    }
    assert forall|k: int| 0 <= k < all.len() implies exists|j: int|
        0 <= j < catalogue.len() && (#[trigger] catalogue[j]).authority is Some && (
        #[trigger] all[k]) == (catalogue[j].op@, text::opt(catalogue[j].action)) by {
        if k < before.len() {
            assert(all[k] == before[k]);
            let j = choose|j: int|
                0 <= j < head.len() && (#[trigger] head[j]).authority is Some && before[k] == (
                    head[j].op@,
                    text::opt(head[j].action),
                );
            assert(catalogue[j] == head[j]);
        } else {
            let j = catalogue.len() - 1;
            assert(catalogue[j].authority is Some);
        }
    }
}

/// A command has the authority and the action of its first entry in the catalogue, and none where the
/// catalogue has no entry for it.
pub proof fn commands_have_their_entry(catalogue: Seq<Operation>, op: Seq<char>, i: int)
    requires
        0 <= i < catalogue.len(),
        catalogue[i].op@ == op,
        forall|j: int| 0 <= j < i ==> (#[trigger] catalogue[j]).op@ != op,
    ensures
        authority_of(catalogue, op) == catalogue[i].authority,
        action_of(catalogue, op) == text::opt(catalogue[i].action),
{
    first_place(catalogue, op, i);
}

proof fn first_place(catalogue: Seq<Operation>, op: Seq<char>, i: int)
    requires
        0 <= i < catalogue.len(),
        catalogue[i].op@ == op,
        forall|j: int| 0 <= j < i ==> (#[trigger] catalogue[j]).op@ != op,
    ensures
        place_of(catalogue, op) == Some(i),
    decreases catalogue.len(),
{
    let head = catalogue.drop_last();
    if i < head.len() {
        assert(head[i] == catalogue[i]);
        first_place(head, op, i);
    } else {
        assert forall|j: int| 0 <= j < head.len() implies (#[trigger] head[j]).op@ != op by {
            assert(head[j] == catalogue[j]);
        }
        no_place(head, op);
    }
}

proof fn no_place(catalogue: Seq<Operation>, op: Seq<char>)
    requires
        forall|j: int| 0 <= j < catalogue.len() ==> (#[trigger] catalogue[j]).op@ != op,
    ensures
        place_of(catalogue, op) is None,
    decreases catalogue.len(),
{
    if catalogue.len() > 0 {
        let head = catalogue.drop_last();
        assert forall|j: int| 0 <= j < head.len() implies (#[trigger] head[j]).op@ != op by {
            assert(head[j] == catalogue[j]);
        }
        no_place(head, op);
        assert(catalogue[catalogue.len() - 1].op@ != op);
    }
}

/// A command that the catalogue does not have needs no authority and stands for no action.
pub proof fn unknown_commands_have_nothing(catalogue: Seq<Operation>, op: Seq<char>)
    requires
        forall|j: int| 0 <= j < catalogue.len() ==> (#[trigger] catalogue[j]).op@ != op,
    ensures
        authority_of(catalogue, op) is None,
        action_of(catalogue, op) is None,
{
    no_place(catalogue, op);
}

/// An entry is covered where its authority is one that a role grants and it stands for an action, where
/// its authority is another and it stands for none, and where it needs none.
pub proof fn roles_grant_actions(o: Operation)
    ensures
        o.authority is None ==> is_covered(o),
        o.authority == Some(DomainAuthority::Role) ==> (is_covered(o) <==> o.action is Some),
        o.authority == Some(DomainAuthority::Attest) || o.authority == Some(DomainAuthority::Reconcile)
            ==> (is_covered(o) <==> o.action is None),
{
}

/// The matrix has one row for every command with an authority, in the order of the catalogue.
pub proof fn the_matrix_keeps_the_order(catalogue: Seq<Operation>, o: Operation)
    ensures
        o.authority is Some ==> matrix_of(catalogue.push(o)) == matrix_of(catalogue).push(
            (o.op@, text::opt(o.action)),
        ),
        o.authority is None ==> matrix_of(catalogue.push(o)) == matrix_of(catalogue),
        matrix_of(Seq::empty()).len() == 0,
{
    assert(catalogue.push(o).drop_last() =~= catalogue);
}

} // verus!
