//! Plans of the operator commands: rows of the store, each with what is to be done
//! about it or why nothing is.
use crate::json;
use crate::json::{Json, JsonView};
use crate::order;
use crate::text;
use vstd::prelude::*;

verus! {

/// How many items of a list a plan repeats as a sample.
pub const SAMPLE_LIMIT: usize = 50;

/// The workstream that a work belongs to, since which version.
#[derive(Clone, Debug, PartialEq, Eq)]
pub struct OwnershipBinding {
    pub workstream_id: String,
    pub ownership_version: i64,
}

/// A binding that may be absent, as a value.
pub open spec fn binding_value(b: Option<&OwnershipBinding>) -> Option<OwnershipBinding> {
    match b {
        Some(x) => Some(*x),
        None => None,
    }
}

/// The binding of one work.
#[derive(Clone, Debug)]
pub struct OwnedWork {
    pub work_id: String,
    pub binding: OwnershipBinding,
}

/// The binding of a work in a list: that of the last entry that names the work.
pub open spec fn binding_of(list: Seq<OwnedWork>, work_id: Seq<char>) -> Option<OwnershipBinding>
    decreases list.len(),
{
    if list.len() == 0 {
        None
    } else if list.last().work_id@ == work_id {
        Some(list.last().binding)
    } else {
        binding_of(list.drop_last(), work_id)
    }
}

/// The binding of a work in a list.
pub fn find_binding<'a>(list: &'a [OwnedWork], work_id: &str) -> (r: Option<&'a OwnershipBinding>)
    ensures
        match r {
            Some(b) => binding_of(list@, work_id@) == Some(*b),
            None => binding_of(list@, work_id@) is None,
        },
{
    let mut n: usize = list.len();
    assert(list@.take(n as int) =~= list@);
    while n > 0
        invariant
            n <= list.len(),
            binding_of(list@, work_id@) == binding_of(list@.take(n as int), work_id@),
        decreases n,
    {
        assert(list@.take(n as int).last() == list@[n - 1]);
        assert(list@.take(n as int).drop_last() =~= list@.take(n - 1));
        if text::same(list[n - 1].work_id.as_str(), work_id) {
            return Some(&list[n - 1].binding);
        }
        n = n - 1;
    }
    None
}

/// The works of a list.
pub open spec fn owned_works(list: Seq<OwnedWork>) -> Seq<Seq<char>> {
    list.map_values(|w: OwnedWork| w.work_id@)
}

/// The works of a list, ascending and each once.
pub fn owned_work_ids(list: &[OwnedWork]) -> (r: Vec<String>)
    ensures
        order::ascending(text::texts(r@)),
        order::same_members(text::texts(r@), owned_works(list@)),
{
    let mut ids: Vec<String> = Vec::new();
    let mut i: usize = 0;
    while i < list.len()
        invariant
            i <= list.len(),
            ids.len() == i,
            forall|j: int| 0 <= j < i ==> #[trigger] ids@[j]@ == list@[j].work_id@,
        decreases list.len() - i,
    {
        ids.push(list[i].work_id.clone());
        i = i + 1;
    }
    assert(text::texts(ids@) =~= owned_works(list@));
    order::distinct(ids.as_slice())
}

/// What a row gets: a workstream, and with some rows an epoch and an executor's client.
#[derive(Clone, Debug, PartialEq, Eq)]
pub struct Target {
    pub workstream_id: String,
    pub ownership_version: i64,
    pub coordinator_epoch: Option<String>,
    pub executor_client_id: Option<String>,
}

/// The model of a target.
pub struct TargetView {
    pub workstream_id: Seq<char>,
    pub ownership_version: i64,
    pub coordinator_epoch: Option<Seq<char>>,
    pub executor_client_id: Option<Seq<char>>,
}

impl View for Target {
    type V = TargetView;

    open spec fn view(&self) -> TargetView {
        TargetView {
            workstream_id: self.workstream_id@,
            ownership_version: self.ownership_version,
            coordinator_epoch: text::opt(self.coordinator_epoch),
            executor_client_id: text::opt(self.executor_client_id),
        }
    }
}

/// One row of a plan.
pub struct Item {
    pub kind: &'static str,
    pub id: String,
    /// What is done about the row; `refuse` where nothing is.
    pub action: &'static str,
    /// Why nothing is done; empty where something is.
    pub reason: &'static str,
    pub target: Option<Target>,
    pub doc: Json,
}

/// The model of a row of a plan.
pub struct ItemView {
    pub kind: Seq<char>,
    pub id: Seq<char>,
    pub action: Seq<char>,
    pub reason: Seq<char>,
    pub target: Option<TargetView>,
    pub doc: JsonView,
}

impl View for Item {
    type V = ItemView;

    open spec fn view(&self) -> ItemView {
        ItemView {
            kind: self.kind@,
            id: self.id@,
            action: self.action@,
            reason: self.reason@,
            target: match self.target {
                Some(t) => Some(t@),
                None => None,
            },
            doc: self.doc.model(),
        }
    }
}

/// The models of the rows of a list.
pub open spec fn item_views(list: Seq<Item>) -> Seq<ItemView> {
    list.map_values(|i: Item| i@)
}

/// The rows of a list about which something is done.
pub open spec fn acted_on(list: Seq<ItemView>) -> Seq<ItemView> {
    list.filter(|i: ItemView| i.action != "refuse"@)
}

/// The rows of a list about which nothing is done.
pub open spec fn refused(list: Seq<ItemView>) -> Seq<ItemView> {
    list.filter(|i: ItemView| i.action == "refuse"@)
}

/// How many rows of a list satisfy a condition.
pub open spec fn tally(list: Seq<ItemView>, condition: spec_fn(ItemView) -> bool) -> nat {
    list.filter(condition).len()
}

/// The documents of the rows of a list.
pub open spec fn docs(list: Seq<ItemView>) -> Seq<JsonView> {
    list.map_values(|i: ItemView| i.doc)
}

/// The rows of a list from which a plan's sample is made.
pub open spec fn sample(list: Seq<ItemView>) -> Seq<ItemView> {
    if list.len() <= SAMPLE_LIMIT {
        list
    } else {
        list.take(SAMPLE_LIMIT as int)
    }
}

/// The filter of a list with one more row.
pub proof fn filter_one_more(
    list: Seq<ItemView>,
    item: ItemView,
    condition: spec_fn(ItemView) -> bool,
)
    ensures
        list.push(item).filter(condition) == if condition(item) {
            list.filter(condition).push(item)
        } else {
            list.filter(condition)
        },
{
    reveal(Seq::filter);
    assert(list.push(item).drop_last() =~= list);
}

/// The filter of nothing.
pub proof fn filter_nothing(condition: spec_fn(ItemView) -> bool)
    ensures
        Seq::<ItemView>::empty().filter(condition) == Seq::<ItemView>::empty(),
{
    reveal(Seq::filter);
}

/// The two lists of a plan.
pub struct Lists {
    pub actionable: Vec<Item>,
    pub refused: Vec<Item>,
}

/// The lists hold the given rows, parted by whether something is done about them.
pub open spec fn lists_hold(lists: Lists, all: Seq<ItemView>) -> bool {
    &&& item_views(lists.actionable@) == acted_on(all)
    &&& item_views(lists.refused@) == refused(all)
}

impl Lists {
    /// No rows.
    pub fn new() -> (r: Lists)
        ensures
            lists_hold(r, Seq::empty()),
    {
        let r = Lists { actionable: Vec::new(), refused: Vec::new() };
        proof {
            filter_nothing(|i: ItemView| i.action != "refuse"@);
            filter_nothing(|i: ItemView| i.action == "refuse"@);
            assert(item_views(r.actionable@) =~= Seq::empty());
            assert(item_views(r.refused@) =~= Seq::empty());
        }
        r
    }

    /// Puts one more row at the end of its list.
    pub fn add_item(&mut self, item: Item)
        ensures
            forall|all: Seq<ItemView>|
                lists_hold(*old(self), all) ==> #[trigger] lists_hold(*final(self), all.push(item@)),
    {
        let ghost before = *self;
        let ghost view = item@;
        let is_refusal = text::same(item.action, "refuse");
        if is_refusal {
            self.refused.push(item);
            assert(item_views(self.refused@) =~= item_views(before.refused@).push(view));
        } else {
            self.actionable.push(item);
            assert(item_views(self.actionable@) =~= item_views(before.actionable@).push(view));
        }
        proof {
            assert forall|all: Seq<ItemView>| lists_hold(before, all) implies #[trigger] lists_hold(
                *self,
                all.push(view),
            ) by {
                filter_one_more(all, view, |i: ItemView| i.action != "refuse"@);
                filter_one_more(all, view, |i: ItemView| i.action == "refuse"@);
            }
        }
    }
}

/// Which rows are counted.
enum Counted<'a> {
    Kind(&'a str),
    Action { kind: &'a str, action: &'a str },
    Reason(&'a str),
}

impl<'a> Counted<'a> {
    spec fn holds(self, i: ItemView) -> bool {
        match self {
            Counted::Kind(kind) => i.kind == kind@,
            Counted::Action { kind, action } => i.kind == kind@ && i.action == action@,
            Counted::Reason(reason) => i.reason == reason@,
        }
    }

    fn is(&self, i: &Item) -> (r: bool)
        ensures
            r == self.holds(i@),
    {
        match self {
            Counted::Kind(kind) => text::same(i.kind, kind),
            Counted::Action { kind, action } => text::same(i.kind, kind) && text::same(
                i.action,
                action,
            ),
            Counted::Reason(reason) => text::same(i.reason, reason),
        }
    }
}

fn count(list: &Vec<Item>, counted: Counted<'_>) -> (r: usize)
    ensures
        r == tally(item_views(list@), |i: ItemView| counted.holds(i)),
        r <= list@.len(),
{
    let ghost all = item_views(list@);
    let ghost wanted = |i: ItemView| counted.holds(i);
    let mut n: usize = 0;
    let mut i: usize = 0;
    proof {
        assert(all.take(0) =~= Seq::empty());
        filter_nothing(wanted);
    }
    while i < list.len()
        invariant
            i <= list.len(),
            n <= i,
            all == item_views(list@),
            wanted == (|i: ItemView| counted.holds(i)),
            n == tally(all.take(i as int), wanted),
        decreases list.len() - i,
    {
        proof {
            assert(all.take(i + 1) =~= all.take(i as int).push(all[i as int]));
            filter_one_more(all.take(i as int), all[i as int], wanted);
            assert(all[i as int] == list@[i as int]@);
        }
        if counted.is(&list[i]) {
            n = n + 1;
        }
        i = i + 1;
    }
    assert(all.take(i as int) =~= all);
    n
}

/// How many rows of a list are of a kind.
pub fn count_kind(list: &Vec<Item>, kind: &str) -> (r: usize)
    ensures
        r == tally(item_views(list@), |i: ItemView| i.kind == kind@),
        r <= list@.len(),
{
    let counted = Counted::Kind(kind);
    assert((|i: ItemView| counted.holds(i)) =~= (|i: ItemView| i.kind == kind@));
    count(list, counted)
}

/// How many rows of a list are of a kind and get an action.
pub fn count_action(list: &Vec<Item>, kind: &str, action: &str) -> (r: usize)
    ensures
        r == tally(item_views(list@), |i: ItemView| i.kind == kind@ && i.action == action@),
        r <= list@.len(),
{
    let counted = Counted::Action { kind, action };
    assert((|i: ItemView| counted.holds(i)) =~= (|i: ItemView|
        i.kind == kind@ && i.action == action@));
    count(list, counted)
}

/// How many rows of a list are refused for a reason.
pub fn count_reason(list: &Vec<Item>, reason: &str) -> (r: usize)
    ensures
        r == tally(item_views(list@), |i: ItemView| i.reason == reason@),
        r <= list@.len(),
{
    let counted = Counted::Reason(reason);
    assert((|i: ItemView| counted.holds(i)) =~= (|i: ItemView| i.reason == reason@));
    count(list, counted)
}

/// The documents of the first rows of a list, at most `limit` of them.
fn first_docs(list: &Vec<Item>, limit: usize) -> (r: Json)
    ensures
        r.model() == JsonView::Arr(
            docs(
                if item_views(list@).len() <= limit {
                    item_views(list@)
                } else {
                    item_views(list@).take(limit as int)
                },
            ),
        ),
{
    let mut out: Vec<Json> = Vec::new();
    let mut i: usize = 0;
    while i < list.len() && i < limit
        invariant
            i <= list.len(),
            i <= limit,
            out.len() == i,
            forall|j: int| 0 <= j < i ==> #[trigger] out@[j].model() == list@[j].doc.model(),
        decreases list.len() - i,
    {
        out.push(list[i].doc.copy());
        i = i + 1;
    }
    proof {
        let all = item_views(list@);
        let some = if all.len() <= limit {
            all
        } else {
            all.take(limit as int)
        };
        assert(json::models(out@) =~= docs(some));
    }
    json::list(out)
}

/// The documents of the rows of a list.
pub fn all_docs(list: &Vec<Item>) -> (r: Json)
    ensures
        r.model() == JsonView::Arr(docs(item_views(list@))),
{
    assert(item_views(list@).len() == list@.len());
    first_docs(list, list.len())
}

/// The documents of a list's sample.
pub fn sample_docs(list: &Vec<Item>) -> (r: Json)
    ensures
        r.model() == JsonView::Arr(docs(sample(item_views(list@)))),
{
    first_docs(list, SAMPLE_LIMIT)
}

/// What is known of a project when a plan is made.
#[derive(Clone, Debug)]
pub struct ProjectRow {
    pub status: String,
    pub coordinator_epoch: String,
    pub project_revision: i64,
    pub source_snapshot_id: Option<String>,
}

/// Every row of a plan is in one of its two lists, and in only one.
pub proof fn lists_part_the_rows(lists: Lists, all: Seq<ItemView>, item: ItemView)
    requires
        lists_hold(lists, all),
        all.contains(item),
    ensures
        item_views(lists.actionable@).contains(item) <==> item.action != "refuse"@,
        item_views(lists.refused@).contains(item) <==> item.action == "refuse"@,
{
    let i = choose|i: int| 0 <= i < all.len() && all[i] == item;
    if item.action != "refuse"@ {
        all.lemma_filter_contains(|i: ItemView| i.action != "refuse"@, i);
    } else {
        all.lemma_filter_contains(|i: ItemView| i.action == "refuse"@, i);
    }
    if acted_on(all).contains(item) {
        let k = choose|k: int| 0 <= k < acted_on(all).len() && acted_on(all)[k] == item;
        all.lemma_filter_pred(|i: ItemView| i.action != "refuse"@, k);
    }
    if refused(all).contains(item) {
        let k = choose|k: int| 0 <= k < refused(all).len() && refused(all)[k] == item;
        all.lemma_filter_pred(|i: ItemView| i.action == "refuse"@, k);
    }
}

/// A binding that is found is that of an entry for the work, and the last one counts. None is found
/// exactly where no entry is for the work.
pub proof fn bindings_are_of_their_work(list: Seq<OwnedWork>, work_id: Seq<char>, w: OwnedWork)
    ensures
        binding_of(list, work_id) is Some <==> exists|i: int|
            0 <= i < list.len() && (#[trigger] list[i]).work_id@ == work_id,
        binding_of(list, work_id) matches Some(b) ==> exists|i: int|
            0 <= i < list.len() && (#[trigger] list[i]).work_id@ == work_id && list[i].binding == b,
        w.work_id@ == work_id ==> binding_of(list.push(w), work_id) == Some(w.binding),
        w.work_id@ != work_id ==> binding_of(list.push(w), work_id) == binding_of(list, work_id),
    decreases list.len(),
{
    assert(list.push(w).drop_last() =~= list);
    if list.len() > 0 {
        let before = list.drop_last();
        bindings_are_of_their_work(before, work_id, w);
        if list.last().work_id@ == work_id {
            assert(list[list.len() - 1].work_id@ == work_id);
        } else {
            assert forall|i: int| 0 <= i < before.len() implies #[trigger] before[i] == list[i] by {}
            if exists|i: int| 0 <= i < list.len() && (#[trigger] list[i]).work_id@ == work_id {
                let i = choose|i: int| 0 <= i < list.len() && (#[trigger] list[i]).work_id@ == work_id;
                assert(before[i].work_id@ == work_id);
            }
            if binding_of(list, work_id) is Some {
                let i = choose|i: int|
                    0 <= i < before.len() && (#[trigger] before[i]).work_id@ == work_id
                        && before[i].binding == binding_of(list, work_id)->Some_0;
                assert(list[i].work_id@ == work_id && list[i].binding == binding_of(
                    list,
                    work_id,
                )->Some_0);
            }
        }
    }
}

/// The works that are owned are those of the entries, one for one.
pub proof fn owned_works_are_those_of_the_entries(list: Seq<OwnedWork>, i: int)
    requires
        0 <= i < list.len(),
    ensures
        owned_works(list).len() == list.len(),
        owned_works(list)[i] == list[i].work_id@,
{
}

/// Every row of a plan is either acted on or refused, never both and never neither.
pub proof fn plans_account_for_every_row(list: Seq<ItemView>)
    ensures
        acted_on(list).len() + refused(list).len() == list.len(),
        forall|i: int|
            0 <= i < acted_on(list).len() ==> list.contains(#[trigger] acted_on(list)[i]) && acted_on(
                list,
            )[i].action != "refuse"@,
        forall|i: int|
            0 <= i < refused(list).len() ==> list.contains(#[trigger] refused(list)[i]) && refused(
                list,
            )[i].action == "refuse"@,
    decreases list.len(),
{
    let acts = |i: ItemView| i.action != "refuse"@;
    let refuses = |i: ItemView| i.action == "refuse"@;
    if list.len() == 0 {
        filter_nothing(acts);
        filter_nothing(refuses);
        assert(list =~= Seq::<ItemView>::empty());
    } else {
        let before = list.drop_last();
        plans_account_for_every_row(before);
        assert(list =~= before.push(list.last()));
        filter_one_more(before, list.last(), acts);
        filter_one_more(before, list.last(), refuses);
        assert forall|i: int| 0 <= i < acted_on(list).len() implies list.contains(
            #[trigger] acted_on(list)[i],
        ) && acted_on(list)[i].action != "refuse"@ by {
            if i < acted_on(before).len() {
                assert(before.contains(acted_on(before)[i]));
                let k = choose|k: int| 0 <= k < before.len() && before[k] == acted_on(before)[i];
                assert(list[k] == acted_on(list)[i]);
            } else {
                assert(list[list.len() - 1] == acted_on(list)[i]);
            }
        }
        assert forall|i: int| 0 <= i < refused(list).len() implies list.contains(
            #[trigger] refused(list)[i],
        ) && refused(list)[i].action == "refuse"@ by {
            if i < refused(before).len() {
                assert(before.contains(refused(before)[i]));
                let k = choose|k: int| 0 <= k < before.len() && before[k] == refused(before)[i];
                assert(list[k] == refused(list)[i]);
            } else {
                assert(list[list.len() - 1] == refused(list)[i]);
            }
        }
    }
}

/// One more row counts where the condition holds of it, and nowhere else; no row counts for nothing.
pub proof fn rows_are_tallied(list: Seq<ItemView>, item: ItemView, condition: spec_fn(ItemView) -> bool)
    ensures
        tally(Seq::empty(), condition) == 0,
        tally(list.push(item), condition) == tally(list, condition) + if condition(item) {
            1nat
        } else {
            0nat
        },
{
    filter_nothing(condition);
    filter_one_more(list, item, condition);
}

/// A sample is the first fifty rows, or all where there are fewer.
pub proof fn samples_are_the_first_rows(list: Seq<ItemView>, i: int)
    ensures
        sample(list).len() <= 50,
        sample(list).len() == list.len() || sample(list).len() == 50 && list.len() > 50,
        0 <= i < sample(list).len() ==> sample(list)[i] == list[i],
{
}

/// The documents of rows are those of the rows, one for one.
pub proof fn rows_are_told_by_their_documents(list: Seq<ItemView>, i: int)
    requires
        0 <= i < list.len(),
    ensures
        docs(list).len() == list.len(),
        docs(list)[i] == list[i].doc,
{
}

} // verus!
