//! Writing a published plan back to the source, and activating it.
//!
//! A request is activated once. Works that a plan affects must have been stopped, and what cannot
//! be shown to be unaffected keeps the whole project waiting. The source is written at most once
//! for each request, and never over what somebody else has written.
use crate::error;
use crate::error::{protocol, Fault, PgError, PgResult};
use crate::json;
use crate::json::{Doc, Json, JsonView};
use crate::order;
use crate::source_planning::{DraftChange, SourceStore};
use crate::text;
use vstd::prelude::*;
use vstd::utf8::*;

verus! {

broadcast use {vstd::string::group_string_axioms, vstd::utf8::group_utf8_lib};

/// Whether an activation may go on, and what it affects.
#[derive(Clone, Debug, Default)]
pub struct ActivationImpactGate {
    pub impact_proven: bool,
    pub allow_activation: bool,
    pub affected_work_ids: Vec<String>,
    pub unrelated_work_ids: Vec<String>,
    /// Works that were stopped or reconciled for this request.
    pub stopped_work_ids: Vec<String>,
    pub refuse_reason: Option<String>,
    pub recovery_actions: Vec<String>,
}

/// The model of a gate.
pub struct GateView {
    pub impact_proven: bool,
    pub allow_activation: bool,
    pub affected_work_ids: Seq<Seq<char>>,
    pub unrelated_work_ids: Seq<Seq<char>>,
    pub stopped_work_ids: Seq<Seq<char>>,
    pub refuse_reason: Option<Seq<char>>,
    pub recovery_actions: Seq<Seq<char>>,
}

impl View for ActivationImpactGate {
    type V = GateView;

    open spec fn view(&self) -> GateView {
        GateView {
            impact_proven: self.impact_proven,
            allow_activation: self.allow_activation,
            affected_work_ids: text::texts(self.affected_work_ids@),
            unrelated_work_ids: text::texts(self.unrelated_work_ids@),
            stopped_work_ids: text::texts(self.stopped_work_ids@),
            refuse_reason: text::opt(self.refuse_reason),
            recovery_actions: text::texts(self.recovery_actions@),
        }
    }
}

/// A request to write a published plan back.
#[derive(Clone, Debug)]
pub struct WritebackActivateRequest {
    pub request_id: String,
    pub publish_receipt_id: String,
    /// The directory of the source.
    pub source_root: String,
    /// The ledger, below that directory.
    pub ledger_relative_path: String,
    /// Left false where the impact cannot be shown: the request is then refused.
    pub impact_proven: bool,
    /// Works of which it was recorded that they were stopped or reconciled.
    pub stopped_work_ids: Vec<String>,
}

/// A candidate names a work: as one that it changes, has changed or splits into.
pub open spec fn names_work(c: DraftChange, w: Seq<char>) -> bool {
    ||| c.work_id@ == w
    ||| text::opt(c.before_work_id) == Some(w)
    ||| text::texts(c.split_children@).contains(w)
}

/// Some change names a work.
pub open spec fn named(changes: Seq<DraftChange>, w: Seq<char>) -> bool {
    exists|i: int| 0 <= i < changes.len() && names_work(#[trigger] changes[i], w)
}

/// The texts of lists.
pub open spec fn lists(all: Seq<Vec<String>>) -> Seq<Seq<Seq<char>>> {
    all.map_values(|v: Vec<String>| text::texts(v@))
}

/// A work is affected by a plan, going by the first `k` works of the project: the plan names it, or
/// it is one of them and has observed a work that was affected before it.
pub open spec fn affects(
    changes: Seq<DraftChange>,
    works: Seq<Seq<char>>,
    observed: Seq<Seq<Seq<char>>>,
    k: nat,
    w: Seq<char>,
) -> bool
    decreases k, 0int,
{
    if k == 0 {
        named(changes, w)
    } else {
        let j = (k - 1) as nat;
        ||| affects(changes, works, observed, j, w)
        ||| w == works[j as int] && observes_affected(changes, works, observed, j)
    }
}

/// The work at a place has observed a work that was affected before it.
pub open spec fn observes_affected(
    changes: Seq<DraftChange>,
    works: Seq<Seq<char>>,
    observed: Seq<Seq<Seq<char>>>,
    j: nat,
) -> bool
    decreases j, 1int,
{
    exists|i: int|
        0 <= i < observed[j as int].len() && affects(
            changes,
            works,
            observed,
            j,
            #[trigger] observed[j as int][i],
        )
}

proof fn affected_stays_affected(
    changes: Seq<DraftChange>,
    works: Seq<Seq<char>>,
    observed: Seq<Seq<Seq<char>>>,
    j: nat,
    k: nat,
    w: Seq<char>,
)
    requires
        j <= k,
        affects(changes, works, observed, j, w),
    ensures
        affects(changes, works, observed, k, w),
    decreases k,
{
    if j < k {
        affected_stays_affected(changes, works, observed, j, (k - 1) as nat, w);
    }
}

fn add_named(out: &mut Vec<String>, c: &DraftChange)
    requires
        order::ascending(text::texts(old(out)@)),
    ensures
        order::ascending(text::texts(final(out)@)),
        forall|w: Seq<char>| #[trigger]
            text::texts(final(out)@).contains(w) <==> (text::texts(old(out)@).contains(w)
                || names_work(*c, w)),
{
    order::insert(out, c.work_id.as_str());
    if let Some(before) = &c.before_work_id {
        order::insert(out, before.as_str());
    }
    let ghost start = text::texts(out@);
    let ghost children = text::texts(c.split_children@);
    let mut i: usize = 0;
    while i < c.split_children.len()
        invariant
            i <= c.split_children.len(),
            children == text::texts(c.split_children@),
            order::ascending(text::texts(out@)),
            forall|w: Seq<char>| #[trigger]
                text::texts(out@).contains(w) <==> (start.contains(w) || children.take(
                    i as int,
                ).contains(w)),
        decreases c.split_children.len() - i,
    {
        proof {
            assert(children[i as int] == c.split_children@[i as int]@);
            order::take_one_more(children, i as int);
        }
        order::insert(out, c.split_children[i].as_str());
        i = i + 1;
    }
    assert(children.take(i as int) =~= children);
}

/// The works that a plan affects, ascending.
pub fn affected_works(
    changes: &Vec<DraftChange>,
    works: &Vec<String>,
    observed: &Vec<Vec<String>>,
) -> (r: Vec<String>)
    requires
        observed.len() == works.len(),
    ensures
        order::lists_exactly(
            text::texts(r@),
            |w: Seq<char>|
                affects(
                    changes@,
                    text::texts(works@),
                    lists(observed@),
                    works@.len(),
                    w,
                ),
        ),
{
    let ghost names = text::texts(works@);
    let ghost seen = lists(observed@);
    let mut out: Vec<String> = Vec::new();
    let mut i: usize = 0;
    while i < changes.len()
        invariant
            i <= changes.len(),
            order::ascending(text::texts(out@)),
            forall|w: Seq<char>| #[trigger]
                text::texts(out@).contains(w) <==> named(changes@.take(i as int), w),
        decreases changes.len() - i,
    {
        let ghost before = changes@.take(i as int);
        let ghost now = changes@.take(i + 1);
        add_named(&mut out, &changes[i]);
        proof {
            assert forall|w: Seq<char>| named(now, w) <==> (named(before, w) || names_work(
                changes@[i as int],
                w,
            )) by {
                if named(before, w) {
                    let j = choose|j: int| 0 <= j < before.len() && names_work(#[trigger] before[j], w);
                    assert(names_work(now[j], w));
                }
                if names_work(changes@[i as int], w) {
                    assert(names_work(now[i as int], w));
                }
                if named(now, w) {
                    let j = choose|j: int| 0 <= j < now.len() && names_work(#[trigger] now[j], w);
                    if j < i {
                        assert(names_work(before[j], w));
                    }
                }
            }
        }
        i = i + 1;
    }
    assert(changes@.take(i as int) =~= changes@);
    let mut k: usize = 0;
    while k < works.len()
        invariant
            k <= works.len(),
            observed.len() == works.len(),
            names == text::texts(works@),
            seen == lists(observed@),
            order::ascending(text::texts(out@)),
            forall|w: Seq<char>| #[trigger]
                text::texts(out@).contains(w) <==> affects(changes@, names, seen, k as nat, w),
        decreases works.len() - k,
    {
        let list = &observed[k];
        let ghost texts = text::texts(list@);
        assert(seen[k as int] == texts);
        assert(names[k as int] == works@[k as int]@);
        let mut hit = false;
        let mut m: usize = 0;
        while m < list.len() && !hit
            invariant
                m <= list.len(),
                texts == text::texts(list@),
                seen[k as int] == texts,
                forall|w: Seq<char>| #[trigger]
                    text::texts(out@).contains(w) <==> affects(changes@, names, seen, k as nat, w),
                hit ==> observes_affected(changes@, names, seen, k as nat),
                !hit ==> forall|j: int|
                    0 <= j < m ==> !affects(changes@, names, seen, k as nat, #[trigger] texts[j]),
            decreases list.len() - m,
        {
            assert(texts[m as int] == list@[m as int]@);
            if order::member(out.as_slice(), list[m].as_str()) {
                assert(affects(changes@, names, seen, k as nat, seen[k as int][m as int]));
                hit = true;
            }
            m = m + 1;
        }
        proof {
            let now = k as nat;
            assert(hit == observes_affected(changes@, names, seen, now));
            assert forall|w: Seq<char>| affects(changes@, names, seen, now + 1, w) <==> (affects(
                changes@,
                names,
                seen,
                now,
                w,
            ) || (w == names[k as int] && hit)) by {}
        }
        if hit {
            order::insert(&mut out, works[k].as_str());
        }
        k = k + 1;
    }
    out
}

/// The works of a project that a plan does not affect, in their order.
pub open spec fn unaffected(works: Seq<Seq<char>>, affected: Seq<Seq<char>>) -> Seq<Seq<char>> {
    works.filter(|w: Seq<char>| !affected.contains(w))
}

/// The works of a project that a plan does not affect, in their order.
pub fn unrelated_works(works: &Vec<String>, affected: &Vec<String>) -> (r: Vec<String>)
    ensures
        text::texts(r@) == unaffected(text::texts(works@), text::texts(affected@)),
{
    let ghost names = text::texts(works@);
    let ghost hit = text::texts(affected@);
    let mut out: Vec<String> = Vec::new();
    let mut i: usize = 0;
    proof {
        reveal(Seq::filter);
        assert(names.take(0) =~= Seq::empty());
        assert(text::texts(out@) =~= unaffected(names.take(0), hit));
    }
    while i < works.len()
        invariant
            i <= works.len(),
            names == text::texts(works@),
            hit == text::texts(affected@),
            text::texts(out@) == unaffected(names.take(i as int), hit),
        decreases works.len() - i,
    {
        let ghost before = out@;
        proof {
            reveal(Seq::filter);
            assert(names[i as int] == works@[i as int]@);
            assert(names.take(i + 1).drop_last() =~= names.take(i as int));
        }
        if !order::member(affected.as_slice(), works[i].as_str()) {
            out.push(works[i].as_str().to_owned());
            assert(text::texts(out@) =~= text::texts(before).push(names[i as int]));
        }
        i = i + 1;
    }
    assert(names.take(i as int) =~= names);
    out
}

/// Every work of a project is either affected by a plan or not, and never both.
pub proof fn plans_part_the_project(
    changes: Seq<DraftChange>,
    works: Seq<Seq<char>>,
    observed: Seq<Seq<Seq<char>>>,
    affected: Seq<Seq<char>>,
    w: Seq<char>,
)
    requires
        observed.len() == works.len(),
        order::lists_exactly(
            affected,
            |x: Seq<char>| affects(changes, works, observed, works.len(), x),
        ),
        works.contains(w),
    ensures
        unaffected(works, affected).contains(w) <==> !affected.contains(w),
{
    let pred = |x: Seq<char>| !affected.contains(x);
    works.filter_lemma(pred);
    if pred(w) {
        let i = works.index_of(w);
        assert(works[i] == w);
        assert(unaffected(works, affected).contains(works[i]));
    }
    if unaffected(works, affected).contains(w) {
        let i = unaffected(works, affected).index_of(w);
        assert(pred(unaffected(works, affected)[i]));
    }
}

/// A work that a plan names is affected, and so is a work of the project that has observed one that
/// the plan names.
pub proof fn observers_of_changed_works_are_affected(
    changes: Seq<DraftChange>,
    works: Seq<Seq<char>>,
    observed: Seq<Seq<Seq<char>>>,
    named_work: Seq<char>,
    place: int,
)
    requires
        observed.len() == works.len(),
        named(changes, named_work),
        0 <= place < works.len(),
    ensures
        affects(changes, works, observed, works.len(), named_work),
        observed[place].contains(named_work) ==> affects(
            changes,
            works,
            observed,
            works.len(),
            works[place],
        ),
{
    affected_stays_affected(changes, works, observed, 0, works.len(), named_work);
    if observed[place].contains(named_work) {
        let k = place as nat;
        affected_stays_affected(changes, works, observed, 0, k, named_work);
        let i = observed[place].index_of(named_work);
        assert(affects(changes, works, observed, k, observed[k as int][i]));
        assert(observes_affected(changes, works, observed, k));
        assert(affects(changes, works, observed, k + 1, works[place]));
        affected_stays_affected(changes, works, observed, k + 1, works.len(), works[place]);
    }
}

/// What runs in a work that a plan affects.
#[derive(Clone, Debug)]
pub struct AffectedWork {
    pub work_id: String,
    pub active_claims: i64,
    pub nonterminal_executions: i64,
}

/// The names of affected works.
pub open spec fn work_ids(list: Seq<AffectedWork>) -> Seq<Seq<char>> {
    list.map_values(|a: AffectedWork| a.work_id@)
}

/// The affected works that still have to be stopped: those in which something runs, and of which
/// nobody has recorded that they were stopped.
pub open spec fn still_running(list: Seq<AffectedWork>, stopped: Seq<Seq<char>>) -> Seq<Seq<char>>
    decreases list.len(),
{
    if list.len() == 0 {
        Seq::empty()
    } else {
        let before = still_running(list.drop_last(), stopped);
        let a = list.last();
        if (a.active_claims > 0 || a.nonterminal_executions > 0) && !stopped.contains(a.work_id@) {
            before.push(a.work_id@)
        } else {
            before
        }
    }
}

/// Why a work keeps an activation waiting.
pub open spec fn stop_reason(w: Seq<char>) -> Seq<char> {
    "affected work "@ + w
        + " requires explicit stop/reconcile/replan (cancel/expiry/end-session do not prove process stopped)"@
}

/// What has to be done in a work that keeps an activation waiting.
pub open spec fn stop_action(w: Seq<char>) -> Seq<char> {
    "stop and reconcile work "@ + w
}

/// What has to be done in any case before a refused activation is tried again.
pub open spec fn general_actions() -> Seq<Seq<char>> {
    Seq::<Seq<char>>::empty().push(
        "recompute affected set from planning candidate diffs"@,
    ).push("recheck operation read-sets for live claims and nonterminal executions"@).push(
        "explicitly stop/reconcile/replan affected works before retry"@,
    )
}

/// Whether an activation may go on: only where its impact was shown, and nothing runs any more in
/// what it affects.
pub open spec fn gated(
    affected: Seq<AffectedWork>,
    unrelated: Seq<Seq<char>>,
    stopped: Seq<Seq<char>>,
    impact_proven: bool,
) -> GateView {
    let running = still_running(affected, stopped);
    GateView {
        impact_proven,
        allow_activation: impact_proven && running.len() == 0,
        affected_work_ids: work_ids(affected),
        unrelated_work_ids: unrelated,
        stopped_work_ids: stopped,
        refuse_reason: if !impact_proven {
            Some(
                "activation impact cannot be proven; retaining project-wide active-claim barrier"@,
            )
        } else if running.len() == 0 {
            None
        } else {
            Some(stop_reason(running.last()))
        },
        recovery_actions: if !impact_proven {
            general_actions()
        } else {
            general_actions() + running.map_values(|w: Seq<char>| stop_action(w))
        },
    }
}

fn affected_ids(list: &Vec<AffectedWork>) -> (r: Vec<String>)
    ensures
        text::texts(r@) == work_ids(list@),
{
    let mut out: Vec<String> = Vec::new();
    let mut i: usize = 0;
    while i < list.len()
        invariant
            i <= list.len(),
            out.len() == i,
            forall|j: int| 0 <= j < i ==> #[trigger] out@[j]@ == list@[j].work_id@,
        decreases list.len() - i,
    {
        out.push(list[i].work_id.as_str().to_owned());
        i = i + 1;
    }
    assert(text::texts(out@) =~= work_ids(list@));
    out
}

/// Whether an activation may go on.
pub fn build_impact_gate(
    affected: &Vec<AffectedWork>,
    unrelated: &Vec<String>,
    stopped: &Vec<String>,
    impact_proven: bool,
) -> (r: ActivationImpactGate)
    ensures
        r@ == gated(affected@, text::texts(unrelated@), text::texts(stopped@), impact_proven),
{
    let ghost gone = text::texts(stopped@);
    let ghost act = |w: Seq<char>| stop_action(w);
    let mut recovery: Vec<String> = Vec::new();
    recovery.push("recompute affected set from planning candidate diffs".to_owned());
    recovery.push(
        "recheck operation read-sets for live claims and nonterminal executions".to_owned(),
    );
    recovery.push("explicitly stop/reconcile/replan affected works before retry".to_owned());
    assert(text::texts(recovery@) =~= general_actions());
    if !impact_proven {
        return ActivationImpactGate {
            impact_proven: false,
            allow_activation: false,
            affected_work_ids: affected_ids(affected),
            unrelated_work_ids: text::copy_list(unrelated.as_slice()),
            stopped_work_ids: text::copy_list(stopped.as_slice()),
            refuse_reason: Some(
                "activation impact cannot be proven; retaining project-wide active-claim barrier".to_owned(),
            ),
            recovery_actions: recovery,
        };
    }
    let mut allow = true;
    let mut refuse: Option<String> = None;
    let mut i: usize = 0;
    assert(text::texts(recovery@) =~= general_actions() + still_running(
        affected@.take(0),
        gone,
    ).map_values(act));
    while i < affected.len()
        invariant
            i <= affected.len(),
            gone == text::texts(stopped@),
            act == (|w: Seq<char>| stop_action(w)),
            text::texts(recovery@) == general_actions() + still_running(
                affected@.take(i as int),
                gone,
            ).map_values(act),
            allow == (still_running(affected@.take(i as int), gone).len() == 0),
            text::opt(refuse) == (if allow {
                None
            } else {
                Some(stop_reason(still_running(affected@.take(i as int), gone).last()))
            }),
        decreases affected.len() - i,
    {
        let a = &affected[i];
        let ghost before = still_running(affected@.take(i as int), gone);
        let ghost told = text::texts(recovery@);
        assert(affected@.take(i + 1).drop_last() =~= affected@.take(i as int));
        let live = a.active_claims > 0 || a.nonterminal_executions > 0;
        if live && !order::member(stopped.as_slice(), a.work_id.as_str()) {
            allow = false;
            let reason = text::plus("affected work ".to_owned(), a.work_id.as_str());
            refuse = Some(
                text::plus(
                    reason,
                    " requires explicit stop/reconcile/replan (cancel/expiry/end-session do not prove process stopped)",
                ),
            );
            recovery.push(text::plus("stop and reconcile work ".to_owned(), a.work_id.as_str()));
            proof {
                let w = a.work_id@;
                assert(text::texts(recovery@) =~= told.push(stop_action(w)));
                assert(before.push(w).map_values(act) =~= before.map_values(act).push(act(w)));
                assert(general_actions() + before.push(w).map_values(act) =~= (general_actions()
                    + before.map_values(act)).push(act(w)));
            }
        }
        i = i + 1;
    }
    assert(affected@.take(i as int) =~= affected@);
    ActivationImpactGate {
        impact_proven: true,
        allow_activation: allow,
        affected_work_ids: affected_ids(affected),
        unrelated_work_ids: text::copy_list(unrelated.as_slice()),
        stopped_work_ids: text::copy_list(stopped.as_slice()),
        refuse_reason: refuse,
        recovery_actions: recovery,
    }
}

proof fn running_works_are_listed(
    list: Seq<AffectedWork>,
    stopped: Seq<Seq<char>>,
    i: int,
)
    requires
        0 <= i < list.len(),
        list[i].active_claims > 0 || list[i].nonterminal_executions > 0,
        !stopped.contains(list[i].work_id@),
    ensures
        still_running(list, stopped).len() > 0,
    decreases list.len(),
{
    if i < list.len() - 1 {
        running_works_are_listed(list.drop_last(), stopped, i);
    }
}

proof fn nothing_runs(list: Seq<AffectedWork>, stopped: Seq<Seq<char>>)
    requires
        forall|i: int|
            0 <= i < list.len() ==> (list[i].active_claims <= 0 && list[i].nonterminal_executions
                <= 0) || stopped.contains(#[trigger] list[i].work_id@),
    ensures
        still_running(list, stopped).len() == 0,
    decreases list.len(),
{
    if list.len() > 0 {
        let head = list.drop_last();
        assert forall|i: int| 0 <= i < head.len() implies (head[i].active_claims <= 0
            && head[i].nonterminal_executions <= 0) || stopped.contains(#[trigger] head[i].work_id@) by {
            assert(head[i].work_id@ == list[i].work_id@);
        }
        nothing_runs(head, stopped);
        assert(list[list.len() - 1].work_id@ == list.last().work_id@);
    }
}

/// An activation goes on exactly where its impact was shown and every affected work in which
/// something runs was recorded as stopped.
pub proof fn activation_waits_for_running_works(
    affected: Seq<AffectedWork>,
    unrelated: Seq<Seq<char>>,
    stopped: Seq<Seq<char>>,
    impact_proven: bool,
)
    ensures
        gated(affected, unrelated, stopped, impact_proven).allow_activation <==> impact_proven
            && forall|i: int|
            0 <= i < affected.len() ==> (affected[i].active_claims <= 0
                && affected[i].nonterminal_executions <= 0) || stopped.contains(
                #[trigger] affected[i].work_id@,
            ),
{
    if exists|i: int|
        0 <= i < affected.len() && !((affected[i].active_claims <= 0
            && affected[i].nonterminal_executions <= 0) || stopped.contains(
            #[trigger] affected[i].work_id@,
        )) {
        let i = choose|i: int|
            0 <= i < affected.len() && !((affected[i].active_claims <= 0
                && affected[i].nonterminal_executions <= 0) || stopped.contains(
                #[trigger] affected[i].work_id@,
            ));
        running_works_are_listed(affected, stopped, i);
    } else {
        nothing_runs(affected, stopped);
    }
}

/// A gate, as a document.
pub open spec fn gate_doc(g: GateView) -> JsonView {
    JsonView::Obj(
        json::no_fields().push(("impact_proven"@, JsonView::Bool(g.impact_proven))).push(
            ("allow_activation"@, JsonView::Bool(g.allow_activation)),
        ).push(("affected_work_ids"@, json::text_items(g.affected_work_ids))).push(
            ("unrelated_work_ids"@, json::text_items(g.unrelated_work_ids)),
        ).push(("stopped_work_ids"@, json::text_items(g.stopped_work_ids))).push(
            ("refuse_reason"@, json::opt_item(g.refuse_reason)),
        ).push(("recovery_actions"@, json::text_items(g.recovery_actions))),
    )
}

fn gate_document(g: &ActivationImpactGate) -> (r: Json)
    ensures
        r.model() == gate_doc(g@),
{
    Doc::new().put("impact_proven", json::flag(g.impact_proven)).put(
        "allow_activation",
        json::flag(g.allow_activation),
    ).put("affected_work_ids", json::text_list(g.affected_work_ids.as_slice())).put(
        "unrelated_work_ids",
        json::text_list(g.unrelated_work_ids.as_slice()),
    ).put("stopped_work_ids", json::text_list(g.stopped_work_ids.as_slice())).put(
        "refuse_reason",
        json::opt_text(text::as_opt_str(&g.refuse_reason)),
    ).put("recovery_actions", json::text_list(g.recovery_actions.as_slice())).json()
}

/// Why an activation is refused.
pub open spec fn gate_fault(g: GateView) -> Fault {
    if !g.impact_proven {
        Fault::ActivationImpactUnproven(
            match g.refuse_reason {
                Some(m) => m,
                None => "impact unproven"@,
            },
        )
    } else {
        Fault::WritebackRefused(
            match g.refuse_reason {
                Some(m) => m,
                None => "writeback refused"@,
            },
        )
    }
}

/// Why an activation is refused.
pub fn gate_refusal(g: &ActivationImpactGate) -> (r: PgError)
    ensures
        r@ == gate_fault(g@),
{
    let reason = text::copy_opt(&g.refuse_reason);
    if !g.impact_proven {
        return PgError::ActivationImpactUnproven(
            match reason {
                Some(m) => m,
                None => "impact unproven".to_owned(),
            },
        );
    }
    PgError::WritebackRefused(
        match reason {
            Some(m) => m,
            None => "writeback refused".to_owned(),
        },
    )
}

/// A publication as it is stored.
#[derive(Clone, Debug)]
pub struct PublishRow {
    pub candidate_id: String,
    pub candidate_digest: String,
    pub approval_id: String,
    pub publisher_actor_id: String,
    pub source_writeback_pending: bool,
    pub activation_receipt_id: Option<String>,
}

/// What a request to write a plan back leads to.
#[derive(Debug)]
pub enum WritebackStep {
    /// The publication was activated before, under this receipt.
    Recorded { activation_receipt_id: String },
    /// The activation is refused: what is journalled of it.
    Refused { gate: ActivationImpactGate, body: Json },
    /// The source is written next.
    Proceed { gate: ActivationImpactGate },
}

/// The model of what a request to write a plan back leads to.
pub enum WritebackView {
    Recorded { activation_receipt_id: Seq<char> },
    Refused { gate: GateView, body: JsonView },
    Proceed { gate: GateView },
}

impl View for WritebackStep {
    type V = WritebackView;

    open spec fn view(&self) -> WritebackView {
        match self {
            WritebackStep::Recorded { activation_receipt_id } => WritebackView::Recorded {
                activation_receipt_id: activation_receipt_id@,
            },
            WritebackStep::Refused { gate, body } => WritebackView::Refused {
                gate: gate@,
                body: body.model(),
            },
            WritebackStep::Proceed { gate } => WritebackView::Proceed { gate: gate@ },
        }
    }
}

/// What is journalled of a refused activation.
pub open spec fn refused_doc(
    gate: GateView,
    candidate_id: Seq<char>,
    candidate_digest: Seq<char>,
) -> JsonView {
    JsonView::Obj(
        json::no_fields().push(("gate"@, gate_doc(gate))).push(
            ("candidate_id"@, JsonView::Str(candidate_id)),
        ).push(("candidate_digest"@, JsonView::Str(candidate_digest))),
    )
}

/// What a request to write a plan back leads to. The publication must be there and pending, its
/// approval must be of the same content, and the candidate must be published.
pub open spec fn written_back(
    publish: Option<&PublishRow>,
    approved_digest: Seq<char>,
    candidate_state: Option<Seq<char>>,
    gate: GateView,
) -> Result<WritebackView, Fault> {
    match publish {
        None => Err(Fault::Protocol("publish receipt not found"@)),
        Some(p) => match p.activation_receipt_id {
            Some(id) => Ok(WritebackView::Recorded { activation_receipt_id: id@ }),
            None => if !p.source_writeback_pending {
                Err(Fault::Protocol("publish receipt is not pending source writeback"@))
            } else if approved_digest != p.candidate_digest@ {
                Err(Fault::StaleApproval)
            } else if candidate_state is None {
                Err(Fault::Protocol("planning candidate not found"@))
            } else if candidate_state != Some("published"@) {
                Err(Fault::Protocol("writeback requires a published planning candidate"@))
            } else if !gate.allow_activation {
                Ok(
                    WritebackView::Refused {
                        gate,
                        body: refused_doc(gate, p.candidate_id@, p.candidate_digest@),
                    },
                )
            } else {
                Ok(WritebackView::Proceed { gate })
            },
        },
    }
}

/// How far an earlier try of the same request has come.
#[derive(Clone, Debug)]
pub struct JournalRow {
    pub phase: String,
    pub before_fingerprint: String,
    pub after_fingerprint: String,
}

/// What is done about the source.
#[derive(Clone, Copy, Debug, PartialEq, Eq, Structural)]
pub enum SourceResume {
    /// The plan is applied to what the source holds, checked, and written.
    Fresh,
    /// An earlier try has written the source; it is not written again.
    Landed,
    /// An earlier try has not written the source; what it meant to write is made again.
    Rewrite,
}

impl SourceResume {
    /// Whether the journal is told that the plan was checked: only a first try tells it.
    pub fn journals_validation(&self) -> (r: bool)
        ensures
            r == (*self is Fresh),
    {
        *self == SourceResume::Fresh
    }

    /// Whether the source is written: not where an earlier try has written it.
    pub fn writes_source(&self) -> (r: bool)
        ensures
            r == !(*self is Landed),
    {
        *self != SourceResume::Landed
    }
}

/// An earlier try has come so far that the source may have been written.
pub open spec fn may_have_written(phase: Seq<char>) -> bool {
    phase == "validated"@ || phase == "source_written"@ || phase == "pg_activating"@
}

/// What is done about the source, by what an earlier try has left in the journal and by what the
/// source holds now.
pub open spec fn resumed(prior: Option<&JournalRow>, disk: Seq<char>) -> Result<
    SourceResume,
    Fault,
> {
    match prior {
        None => Ok(SourceResume::Fresh),
        Some(j) => if !may_have_written(j.phase@) {
            Ok(SourceResume::Fresh)
        } else if disk == j.after_fingerprint@ {
            Ok(SourceResume::Landed)
        } else if disk == j.before_fingerprint@ {
            Ok(SourceResume::Rewrite)
        } else {
            Err(
                Fault::Protocol(
                    "authoritative source changed externally; refusing overwrite of others' work"@,
                ),
            )
        },
    }
}

/// The source is not written twice for one request, and not over what others have written since.
pub proof fn sources_are_written_once(row: JournalRow, disk: Seq<char>)
    requires
        may_have_written(row.phase@),
    ensures
        disk == row.after_fingerprint@ ==> resumed(Some(&row), disk) == Ok::<SourceResume, Fault>(
            SourceResume::Landed,
        ),
        disk != row.after_fingerprint@ && disk != row.before_fingerprint@ ==> resumed(
            Some(&row),
            disk,
        ) is Err,
        resumed(Some(&row), disk) != Ok::<SourceResume, Fault>(SourceResume::Fresh),
{
}

/// A publication that was activated is not activated again, whatever is asked of it.
pub proof fn publications_are_activated_once(
    publish: PublishRow,
    approved_digest: Seq<char>,
    candidate_state: Option<Seq<char>>,
    gate: GateView,
)
    requires
        publish.activation_receipt_id is Some,
    ensures
        written_back(Some(&publish), approved_digest, candidate_state, gate) == Ok::<
            WritebackView,
            Fault,
        >(
            WritebackView::Recorded {
                activation_receipt_id: publish.activation_receipt_id->Some_0@,
            },
        ),
{
}

/// Only a pending publication of approved content is written back, and only through its gate.
pub proof fn writeback_needs_approved_content(
    publish: Option<&PublishRow>,
    approved_digest: Seq<char>,
    candidate_state: Option<Seq<char>>,
    gate: GateView,
)
    requires
        written_back(publish, approved_digest, candidate_state, gate) matches Ok(
            WritebackView::Proceed { .. },
        ),
    ensures
        publish is Some,
        publish->Some_0.source_writeback_pending,
        publish->Some_0.candidate_digest@ == approved_digest,
        candidate_state == Some("published"@),
        gate.allow_activation,
{
}

/// What an activation was made of.
#[derive(Clone, Debug)]
pub struct ActivationFacts {
    pub request_id: String,
    pub publish_receipt_id: String,
    pub candidate_id: String,
    pub candidate_digest: String,
    pub approval_id: String,
    pub approver_actor_id: String,
    pub publisher_actor_id: String,
    pub source_version: String,
    pub activated_snapshot_id: String,
    pub authority_epoch: String,
    pub affected_work_ids: Vec<String>,
    pub unrelated_work_ids: Vec<String>,
    pub before_fingerprint: String,
    pub after_fingerprint: String,
    pub recovery_actions: Vec<String>,
}

/// The audit of an activation.
pub open spec fn audit_doc(f: ActivationFacts) -> JsonView {
    JsonView::Obj(
        json::no_fields().push(("request_id"@, JsonView::Str(f.request_id@))).push(
            ("publish_receipt_id"@, JsonView::Str(f.publish_receipt_id@)),
        ).push(("candidate_id"@, JsonView::Str(f.candidate_id@))).push(
            ("candidate_digest"@, JsonView::Str(f.candidate_digest@)),
        ).push(("approval_id"@, JsonView::Str(f.approval_id@))).push(
            ("approver_actor_id"@, JsonView::Str(f.approver_actor_id@)),
        ).push(("publisher_actor_id"@, JsonView::Str(f.publisher_actor_id@))).push(
            ("source_version"@, JsonView::Str(f.source_version@)),
        ).push(("activated_snapshot_id"@, JsonView::Str(f.activated_snapshot_id@))).push(
            ("authority_epoch"@, JsonView::Str(f.authority_epoch@)),
        ).push(("affected_work_ids"@, json::text_items(text::texts(f.affected_work_ids@)))).push(
            ("unrelated_work_ids"@, json::text_items(text::texts(f.unrelated_work_ids@))),
        ).push(("before_fingerprint"@, JsonView::Str(f.before_fingerprint@))).push(
            ("after_fingerprint"@, JsonView::Str(f.after_fingerprint@)),
        ).push(("recovery_actions"@, json::text_items(text::texts(f.recovery_actions@)))),
    )
}

/// The answer to an activation.
pub open spec fn activated_doc(receipt_id: Seq<char>, f: ActivationFacts) -> JsonView {
    JsonView::Obj(
        json::no_fields().push(("already_recorded"@, JsonView::Bool(false))).push(
            ("receipt_id"@, JsonView::Str(receipt_id)),
        ).push(("request_id"@, JsonView::Str(f.request_id@))).push(
            ("candidate_id"@, JsonView::Str(f.candidate_id@)),
        ).push(("candidate_digest"@, JsonView::Str(f.candidate_digest@))).push(
            ("approver_actor_id"@, JsonView::Str(f.approver_actor_id@)),
        ).push(("source_version"@, JsonView::Str(f.source_version@))).push(
            ("activated_snapshot_id"@, JsonView::Str(f.activated_snapshot_id@)),
        ).push(("authority_epoch"@, JsonView::Str(f.authority_epoch@))).push(
            ("before_fingerprint"@, JsonView::Str(f.before_fingerprint@)),
        ).push(("after_fingerprint"@, JsonView::Str(f.after_fingerprint@))).push(
            ("affected_work_ids"@, json::text_items(text::texts(f.affected_work_ids@))),
        ).push(
            ("unrelated_work_ids"@, json::text_items(text::texts(f.unrelated_work_ids@))),
        ).push(("source_bytes_written"@, JsonView::Bool(true))).push(
            ("source_writeback_pending"@, JsonView::Bool(false)),
        ).push(("audit"@, audit_doc(f))),
    )
}

/// The answer where an activation was made before.
pub open spec fn recorded_doc(receipt: JsonView) -> JsonView {
    JsonView::Obj(
        json::no_fields().push(("already_recorded"@, JsonView::Bool(true))).push(
            ("receipt"@, receipt),
        ),
    )
}

/// The receipt of an activation as it is stored.
#[derive(Debug)]
pub struct ActivationReceipt {
    pub receipt_id: String,
    pub request_id: String,
    pub candidate_id: String,
    pub candidate_digest: String,
    pub publish_receipt_id: String,
    pub approval_id: String,
    pub approver_actor_id: String,
    pub publisher_actor_id: String,
    pub source_version: String,
    pub activated_snapshot_id: String,
    pub authority_epoch: String,
    pub before_fingerprint: String,
    pub after_fingerprint: String,
    pub affected_work_ids: Json,
    pub unrelated_work_ids: Json,
    pub audit: Json,
    pub created_at: String,
}

/// The receipt of an activation, as a document.
pub open spec fn receipt_doc(r: ActivationReceipt) -> JsonView {
    JsonView::Obj(
        json::no_fields().push(("receipt_id"@, JsonView::Str(r.receipt_id@))).push(
            ("request_id"@, JsonView::Str(r.request_id@)),
        ).push(("candidate_id"@, JsonView::Str(r.candidate_id@))).push(
            ("candidate_digest"@, JsonView::Str(r.candidate_digest@)),
        ).push(("publish_receipt_id"@, JsonView::Str(r.publish_receipt_id@))).push(
            ("approval_id"@, JsonView::Str(r.approval_id@)),
        ).push(("approver_actor_id"@, JsonView::Str(r.approver_actor_id@))).push(
            ("publisher_actor_id"@, JsonView::Str(r.publisher_actor_id@)),
        ).push(("source_version"@, JsonView::Str(r.source_version@))).push(
            ("activated_snapshot_id"@, JsonView::Str(r.activated_snapshot_id@)),
        ).push(("authority_epoch"@, JsonView::Str(r.authority_epoch@))).push(
            ("before_fingerprint"@, JsonView::Str(r.before_fingerprint@)),
        ).push(("after_fingerprint"@, JsonView::Str(r.after_fingerprint@))).push(
            ("affected_work_ids"@, r.affected_work_ids.model()),
        ).push(("unrelated_work_ids"@, r.unrelated_work_ids.model())).push(
            ("audit"@, r.audit.model()),
        ).push(("created_at"@, JsonView::Str(r.created_at@))),
    )
}

/// What is journalled when a phase is reached: its name, and the digest of what is written where
/// there is one.
pub open spec fn phase_doc(phase: Seq<char>, bundle_digest: Option<Seq<char>>) -> JsonView {
    let head = json::no_fields().push(("phase"@, JsonView::Str(phase)));
    JsonView::Obj(
        match bundle_digest {
            Some(d) => head.push(("bundle_digest"@, JsonView::Str(d))),
            None => head,
        },
    )
}

/// What writing back offers.
pub open spec fn writeback_capabilities_doc() -> JsonView {
    JsonView::Obj(
        json::no_fields().push(("source_writeback"@, JsonView::Str("tmcp_022"@))).push(
            ("precise_patch_fingerprint_recovery"@, JsonView::Bool(true)),
        ).push(("barrier_lock_order"@, JsonView::Str("ws023"@))).push(
            ("selective_replan"@, JsonView::Str("ws032"@)),
        ).push(("project_claim_barrier_retained_when_unproven"@, JsonView::Bool(true))).push(
            ("cancel_expiry_session_end_prove_process_stopped"@, JsonView::Bool(false)),
        ).push(("runtime_fields_writable_via_source"@, JsonView::Bool(false))).push(
            ("source_status_is_completion_receipt"@, JsonView::Bool(false)),
        ).push(("idempotent_request_id"@, JsonView::Bool(true))).push(
            ("queryable_activation_receipt"@, JsonView::Bool(true)),
        ),
    )
}

/// A proposal of the source as it is stored.
#[derive(Clone, Debug)]
pub struct ProposalRow {
    pub state: String,
    pub manifest_digest: String,
}

impl SourceStore {
    /// Whether a request names itself, so that it can be answered once.
    pub fn admit_writeback(&self, req: &WritebackActivateRequest) -> (r: PgResult<()>)
        ensures
            error::checked(r) == (if text::is_blank(req.request_id@) || encode_utf8(
                req.request_id@,
            ).len() > 200 {
                Err(Fault::Protocol("request_id required for idempotent writeback"@))
            } else {
                Ok(())
            }),
    {
        if text::blank(req.request_id.as_str()) || req.request_id.as_str().as_bytes().len() > 200 {
            return Err(protocol("request_id required for idempotent writeback"));
        }
        Ok(())
    }

    /// The answer where an activation was made before.
    pub fn recorded_document(&self, receipt: Json) -> (r: Json)
        ensures
            r.model() == recorded_doc(receipt.model()),
    {
        Doc::new().put("already_recorded", json::flag(true)).put("receipt", receipt).json()
    }

    /// What a request to write a plan back leads to.
    pub fn activate_planning_writeback(
        &self,
        publish: Option<&PublishRow>,
        approved_digest: &str,
        candidate_state: Option<&str>,
        gate: ActivationImpactGate,
    ) -> (r: PgResult<WritebackStep>)
        ensures
            match r {
                Ok(step) => written_back(
                    publish,
                    approved_digest@,
                    text::opt_str(candidate_state),
                    gate@,
                ) == Ok::<WritebackView, Fault>(step@),
                Err(e) => written_back(
                    publish,
                    approved_digest@,
                    text::opt_str(candidate_state),
                    gate@,
                ) == Err::<WritebackView, Fault>(e@),
            },
    {
        let p = match publish {
            Some(p) => p,
            None => {
                return Err(protocol("publish receipt not found"));
            },
        };
        if let Some(id) = &p.activation_receipt_id {
            return Ok(
                WritebackStep::Recorded { activation_receipt_id: id.as_str().to_owned() },
            );
        }
        if !p.source_writeback_pending {
            return Err(protocol("publish receipt is not pending source writeback"));
        }
        if !text::same(approved_digest, p.candidate_digest.as_str()) {
            return Err(PgError::StaleApproval);
        }
        match candidate_state {
            None => {
                return Err(protocol("planning candidate not found"));
            },
            Some(state) => {
                if !text::same(state, "published") {
                    return Err(protocol("writeback requires a published planning candidate"));
                }
            },
        }
        if !gate.allow_activation {
            let body = Doc::new().put("gate", gate_document(&gate)).put(
                "candidate_id",
                json::text(p.candidate_id.as_str()),
            ).put("candidate_digest", json::text(p.candidate_digest.as_str())).json();
            return Ok(WritebackStep::Refused { gate, body });
        }
        Ok(WritebackStep::Proceed { gate })
    }

    /// What is done about the source.
    pub fn resume_source(&self, prior: Option<&JournalRow>, disk_fingerprint: &str) -> (r: PgResult<
        SourceResume,
    >)
        ensures
            match r {
                Ok(s) => resumed(prior, disk_fingerprint@) == Ok::<SourceResume, Fault>(s),
                Err(e) => resumed(prior, disk_fingerprint@) == Err::<SourceResume, Fault>(e@),
            },
    {
        let j = match prior {
            Some(j) => j,
            None => {
                return Ok(SourceResume::Fresh);
            },
        };
        let phase = j.phase.as_str();
        if !text::same(phase, "validated") && !text::same(phase, "source_written") && !text::same(
            phase,
            "pg_activating",
        ) {
            return Ok(SourceResume::Fresh);
        }
        if text::same(disk_fingerprint, j.after_fingerprint.as_str()) {
            return Ok(SourceResume::Landed);
        }
        if text::same(disk_fingerprint, j.before_fingerprint.as_str()) {
            return Ok(SourceResume::Rewrite);
        }
        Err(
            protocol("authoritative source changed externally; refusing overwrite of others' work"),
        )
    }

    /// Whether what is made again is what the earlier try meant to write.
    pub fn admit_rewrite(&self, journal: &JournalRow, rebuilt_fingerprint: &str) -> (r: PgResult<
        (),
    >)
        ensures
            error::checked(r) == (if rebuilt_fingerprint@ == journal.after_fingerprint@ {
                Ok(())
            } else {
                Err(
                    Fault::Protocol("resume rebuild fingerprint diverged from journal intent"@),
                )
            }),
    {
        if !text::same(rebuilt_fingerprint, journal.after_fingerprint.as_str()) {
            return Err(protocol("resume rebuild fingerprint diverged from journal intent"));
        }
        Ok(())
    }

    /// What is journalled when a phase is reached.
    pub fn phase_document(&self, phase: &str, bundle_digest: Option<&str>) -> (r: Json)
        ensures
            r.model() == phase_doc(phase@, text::opt_str(bundle_digest)),
    {
        let head = Doc::new().put("phase", json::text(phase));
        match bundle_digest {
            Some(d) => head.put("bundle_digest", json::text(d)).json(),
            None => head.json(),
        }
    }

    /// The audit of an activation.
    pub fn audit_document(&self, f: &ActivationFacts) -> (r: Json)
        ensures
            r.model() == audit_doc(*f),
    {
        Doc::new().put("request_id", json::text(f.request_id.as_str())).put(
            "publish_receipt_id",
            json::text(f.publish_receipt_id.as_str()),
        ).put("candidate_id", json::text(f.candidate_id.as_str())).put(
            "candidate_digest",
            json::text(f.candidate_digest.as_str()),
        ).put("approval_id", json::text(f.approval_id.as_str())).put(
            "approver_actor_id",
            json::text(f.approver_actor_id.as_str()),
        ).put("publisher_actor_id", json::text(f.publisher_actor_id.as_str())).put(
            "source_version",
            json::text(f.source_version.as_str()),
        ).put("activated_snapshot_id", json::text(f.activated_snapshot_id.as_str())).put(
            "authority_epoch",
            json::text(f.authority_epoch.as_str()),
        ).put("affected_work_ids", json::text_list(f.affected_work_ids.as_slice())).put(
            "unrelated_work_ids",
            json::text_list(f.unrelated_work_ids.as_slice()),
        ).put("before_fingerprint", json::text(f.before_fingerprint.as_str())).put(
            "after_fingerprint",
            json::text(f.after_fingerprint.as_str()),
        ).put("recovery_actions", json::text_list(f.recovery_actions.as_slice())).json()
    }

    /// The answer to an activation.
    pub fn activated_document(&self, receipt_id: &str, f: &ActivationFacts) -> (r: Json)
        ensures
            r.model() == activated_doc(receipt_id@, *f),
    {
        Doc::new().put("already_recorded", json::flag(false)).put(
            "receipt_id",
            json::text(receipt_id),
        ).put("request_id", json::text(f.request_id.as_str())).put(
            "candidate_id",
            json::text(f.candidate_id.as_str()),
        ).put("candidate_digest", json::text(f.candidate_digest.as_str())).put(
            "approver_actor_id",
            json::text(f.approver_actor_id.as_str()),
        ).put("source_version", json::text(f.source_version.as_str())).put(
            "activated_snapshot_id",
            json::text(f.activated_snapshot_id.as_str()),
        ).put("authority_epoch", json::text(f.authority_epoch.as_str())).put(
            "before_fingerprint",
            json::text(f.before_fingerprint.as_str()),
        ).put("after_fingerprint", json::text(f.after_fingerprint.as_str())).put(
            "affected_work_ids",
            json::text_list(f.affected_work_ids.as_slice()),
        ).put("unrelated_work_ids", json::text_list(f.unrelated_work_ids.as_slice())).put(
            "source_bytes_written",
            json::flag(true),
        ).put("source_writeback_pending", json::flag(false)).put(
            "audit",
            self.audit_document(f),
        ).json()
    }

    /// Whether the source may be approved on the ground of an approved plan: the proposal must be
    /// there, of the same content, still open to approval, and the plan approved.
    pub fn record_writeback_source_approval(
        &self,
        proposal: Option<&ProposalRow>,
        candidate_digest: &str,
        plan_approved: bool,
    ) -> (r: PgResult<()>)
        ensures
            error::checked(r) == (match proposal {
                None => Err(Fault::Protocol("writeback proposal not found"@)),
                Some(p) => if p.manifest_digest@ != candidate_digest@ {
                    Err(Fault::StaleApproval)
                } else if p.state@ != "pending"@ && p.state@ != "approved"@ {
                    Err(Fault::CandidateNotApproved)
                } else if !plan_approved {
                    Err(Fault::CandidateNotApproved)
                } else {
                    Ok(())
                },
            }),
    {
        let p = match proposal {
            Some(p) => p,
            None => {
                return Err(protocol("writeback proposal not found"));
            },
        };
        if !text::same(p.manifest_digest.as_str(), candidate_digest) {
            return Err(PgError::StaleApproval);
        }
        if !text::same(p.state.as_str(), "pending") && !text::same(p.state.as_str(), "approved") {
            return Err(PgError::CandidateNotApproved);
        }
        if !plan_approved {
            return Err(PgError::CandidateNotApproved);
        }
        Ok(())
    }

    /// Whether the receipt of an activation may be read: by one who may publish or read works.
    pub fn get_planning_activation_receipt(&self, publish: PgResult<()>, read: PgResult<()>) -> (r:
        PgResult<()>)
        ensures
            publish is Ok ==> r is Ok,
            publish is Err ==> r == read,
    {
        match publish {
            Ok(_) => Ok(()),
            Err(_) => read,
        }
    }

    /// The receipt of an activation, as a document.
    pub fn activation_receipt_document(&self, row: &ActivationReceipt) -> (r: Json)
        ensures
            r.model() == receipt_doc(*row),
    {
        Doc::new().put("receipt_id", json::text(row.receipt_id.as_str())).put(
            "request_id",
            json::text(row.request_id.as_str()),
        ).put("candidate_id", json::text(row.candidate_id.as_str())).put(
            "candidate_digest",
            json::text(row.candidate_digest.as_str()),
        ).put("publish_receipt_id", json::text(row.publish_receipt_id.as_str())).put(
            "approval_id",
            json::text(row.approval_id.as_str()),
        ).put("approver_actor_id", json::text(row.approver_actor_id.as_str())).put(
            "publisher_actor_id",
            json::text(row.publisher_actor_id.as_str()),
        ).put("source_version", json::text(row.source_version.as_str())).put(
            "activated_snapshot_id",
            json::text(row.activated_snapshot_id.as_str()),
        ).put("authority_epoch", json::text(row.authority_epoch.as_str())).put(
            "before_fingerprint",
            json::text(row.before_fingerprint.as_str()),
        ).put("after_fingerprint", json::text(row.after_fingerprint.as_str())).put(
            "affected_work_ids",
            row.affected_work_ids.copy(),
        ).put("unrelated_work_ids", row.unrelated_work_ids.copy()).put(
            "audit",
            row.audit.copy(),
        ).put("created_at", json::text(row.created_at.as_str())).json()
    }

    /// What writing back offers.
    pub fn planning_writeback_capabilities() -> (r: Json)
        ensures
            r.model() == writeback_capabilities_doc(),
    {
        Doc::new().put("source_writeback", json::text("tmcp_022")).put(
            "precise_patch_fingerprint_recovery",
            json::flag(true),
        ).put("barrier_lock_order", json::text("ws023")).put(
            "selective_replan",
            json::text("ws032"),
        ).put("project_claim_barrier_retained_when_unproven", json::flag(true)).put(
            "cancel_expiry_session_end_prove_process_stopped",
            json::flag(false),
        ).put("runtime_fields_writable_via_source", json::flag(false)).put(
            "source_status_is_completion_receipt",
            json::flag(false),
        ).put("idempotent_request_id", json::flag(true)).put(
            "queryable_activation_receipt",
            json::flag(true),
        ).json()
    }

    /// The name of the file that is written before it takes the place of the ledger.
    pub fn temporary_name(&self, file_name: Option<&str>) -> (r: String)
        ensures
            r@ == "."@ + (match text::opt_str(file_name) {
                Some(n) => n,
                None => "ledger"@,
            }) + ".tmcp022.tmp"@,
    {
        let name = match file_name {
            Some(n) => n,
            None => "ledger",
        };
        text::plus(text::plus(".".to_owned(), name), ".tmcp022.tmp")
    }
}

/// Every work that a change of the plan speaks of is affected: the work itself, the one that it was
/// before, and every part that it is split into.
pub proof fn works_of_a_plan_are_affected(
    changes: Seq<DraftChange>,
    works: Seq<Seq<char>>,
    observed: Seq<Seq<Seq<char>>>,
    affected: Seq<Seq<char>>,
    c: int,
    i: int,
)
    requires
        observed.len() == works.len(),
        order::lists_exactly(
            affected,
            |x: Seq<char>| affects(changes, works, observed, works.len(), x),
        ),
        0 <= c < changes.len(),
    ensures
        affected.contains(changes[c].work_id@),
        changes[c].before_work_id is Some ==> affected.contains(changes[c].before_work_id->Some_0@),
        0 <= i < changes[c].split_children@.len() ==> affected.contains(changes[c].split_children@[i]@),
{
    assert(names_work(changes[c], changes[c].work_id@));
    affected_stays_affected(changes, works, observed, 0, works.len(), changes[c].work_id@);
    if changes[c].before_work_id is Some {
        let before = changes[c].before_work_id->Some_0@;
        assert(names_work(changes[c], before));
        affected_stays_affected(changes, works, observed, 0, works.len(), before);
    }
    if 0 <= i < changes[c].split_children@.len() {
        let child = changes[c].split_children@[i]@;
        assert(text::texts(changes[c].split_children@)[i] == child);
        assert(names_work(changes[c], child));
        affected_stays_affected(changes, works, observed, 0, works.len(), child);
    }
}

/// A work is affected along any chain of works of the project, each after the one before, in which the
/// first has observed a work that the plan speaks of, and each other one the one before it.
pub proof fn observations_carry_on(
    changes: Seq<DraftChange>,
    works: Seq<Seq<char>>,
    observed: Seq<Seq<Seq<char>>>,
    affected: Seq<Seq<char>>,
    c: int,
    chain: Seq<int>,
)
    requires
        observed.len() == works.len(),
        order::lists_exactly(
            affected,
            |x: Seq<char>| affects(changes, works, observed, works.len(), x),
        ),
        0 <= c < changes.len(),
        chain.len() > 0,
        forall|i: int| 0 <= i < chain.len() ==> 0 <= #[trigger] chain[i] < works.len(),
        forall|i: int, j: int| 0 <= i < j < chain.len() ==> #[trigger] chain[i] < #[trigger] chain[j],
        observed[chain[0]].contains(changes[c].work_id@),
        forall|i: int, j: int|
            0 <= i < chain.len() && j == i + 1 && j < chain.len() ==> observed[#[trigger] chain[j]].contains(
                works[#[trigger] chain[i]],
            ),
    ensures
        affected.contains(works[chain.last()]),
{
    chain_is_affected(changes, works, observed, c, chain, chain.len() - 1);
    let k = (chain.last() + 1) as nat;
    affected_stays_affected(changes, works, observed, k, works.len(), works[chain.last()]);
}

proof fn chain_is_affected(
    changes: Seq<DraftChange>,
    works: Seq<Seq<char>>,
    observed: Seq<Seq<Seq<char>>>,
    c: int,
    chain: Seq<int>,
    n: int,
)
    requires
        observed.len() == works.len(),
        0 <= c < changes.len(),
        0 <= n < chain.len(),
        forall|i: int| 0 <= i < chain.len() ==> 0 <= #[trigger] chain[i] < works.len(),
        forall|i: int, j: int| 0 <= i < j < chain.len() ==> #[trigger] chain[i] < #[trigger] chain[j],
        observed[chain[0]].contains(changes[c].work_id@),
        forall|i: int, j: int|
            0 <= i < chain.len() && j == i + 1 && j < chain.len() ==> observed[#[trigger] chain[j]].contains(
                works[#[trigger] chain[i]],
            ),
    ensures
        affects(changes, works, observed, (chain[n] + 1) as nat, works[chain[n]]),
    decreases n,
{
    let at = chain[n];
    let seen = if n == 0 {
        changes[c].work_id@
    } else {
        works[chain[n - 1]]
    };
    if n == 0 {
        assert(names_work(changes[c], seen));
        affected_stays_affected(changes, works, observed, 0, at as nat, seen);
    } else {
        chain_is_affected(changes, works, observed, c, chain, n - 1);
        assert(chain[n - 1] < chain[n]);
        affected_stays_affected(
            changes,
            works,
            observed,
            (chain[n - 1] + 1) as nat,
            at as nat,
            seen,
        );
        assert(observed[chain[n]].contains(works[chain[n - 1]]));
    }
    let i = observed[at].index_of(seen);
    assert(affects(changes, works, observed, at as nat, observed[at][i]));
    assert(observes_affected(changes, works, observed, at as nat));
}

/// Nothing else is affected: a work that is affected is one that some change speaks of, or a work of
/// the project that has observed an affected work.
pub proof fn nothing_else_is_affected(
    changes: Seq<DraftChange>,
    works: Seq<Seq<char>>,
    observed: Seq<Seq<Seq<char>>>,
    affected: Seq<Seq<char>>,
    w: Seq<char>,
)
    requires
        observed.len() == works.len(),
        order::lists_exactly(
            affected,
            |x: Seq<char>| affects(changes, works, observed, works.len(), x),
        ),
        affected.contains(w),
    ensures
        (exists|c: int|
            0 <= c < changes.len() && ((#[trigger] changes[c]).work_id@ == w || text::opt(
                changes[c].before_work_id,
            ) == Some(w) || text::texts(changes[c].split_children@).contains(w))) || (exists|j: int|
            0 <= j < works.len() && #[trigger] works[j] == w && exists|i: int|
                0 <= i < observed[j].len() && affected.contains(#[trigger] observed[j][i])),
{
    affected_for_a_reason(changes, works, observed, works.len(), w);
    if !named(changes, w) {
        let j = choose|j: int|
            0 <= j < works.len() && #[trigger] works[j] == w && observes_affected(
                changes,
                works,
                observed,
                j as nat,
            );
        let i = choose|i: int|
            0 <= i < observed[j].len() && affects(
                changes,
                works,
                observed,
                j as nat,
                #[trigger] observed[j][i],
            );
        affected_stays_affected(changes, works, observed, j as nat, works.len(), observed[j][i]);
        assert(affected.contains(observed[j][i]));
    }
}

proof fn affected_for_a_reason(
    changes: Seq<DraftChange>,
    works: Seq<Seq<char>>,
    observed: Seq<Seq<Seq<char>>>,
    k: nat,
    w: Seq<char>,
)
    requires
        k <= works.len(),
        affects(changes, works, observed, k, w),
    ensures
        named(changes, w) || exists|j: int|
            0 <= j < k && #[trigger] works[j] == w && observes_affected(
                changes,
                works,
                observed,
                j as nat,
            ),
    decreases k,
{
    if k > 0 {
        let j = (k - 1) as nat;
        if affects(changes, works, observed, j, w) {
            affected_for_a_reason(changes, works, observed, j, w);
        } else {
            assert(works[j as int] == w);
        }
    }
}

/// A work is listed as unrelated exactly where the project has it and the plan does not affect it.
pub proof fn unrelated_works_are_the_rest(
    works: Seq<Seq<char>>,
    affected: Seq<Seq<char>>,
    w: Seq<char>,
)
    ensures
        unaffected(works, affected).contains(w) <==> works.contains(w) && !affected.contains(w),
        unaffected(works, affected).len() <= works.len(),
{
    let pred = |x: Seq<char>| !affected.contains(x);
    let rest = unaffected(works, affected);
    works.lemma_filter_len(pred);
    if rest.contains(w) {
        let i = rest.index_of(w);
        works.lemma_filter_pred(pred, i);
        works.lemma_filter_contains_rev(pred, w);
    }
    if works.contains(w) && !affected.contains(w) {
        works.lemma_filter_contains(pred, works.index_of(w));
    }
}

proof fn running_works(list: Seq<AffectedWork>, stopped: Seq<Seq<char>>, w: Seq<char>)
    ensures
        still_running(list, stopped).contains(w) <==> exists|i: int|
            0 <= i < list.len() && (#[trigger] list[i]).work_id@ == w && (list[i].active_claims > 0
                || list[i].nonterminal_executions > 0) && !stopped.contains(w),
    decreases list.len(),
{
    let all = still_running(list, stopped);
    if list.len() > 0 {
        let head = list.drop_last();
        let before = still_running(head, stopped);
        let a = list.last();
        running_works(head, stopped, w);
        assert(before.push(a.work_id@).contains(w) <==> before.contains(w) || a.work_id@ == w) by {
            if before.contains(w) {
                let i = before.index_of(w);
                assert(before.push(a.work_id@)[i] == w);
            }
            assert(before.push(a.work_id@)[before.len() as int] == a.work_id@);
        }
        if before.contains(w) {
            let i = choose|i: int|
                0 <= i < head.len() && (#[trigger] head[i]).work_id@ == w && (head[i].active_claims > 0
                    || head[i].nonterminal_executions > 0) && !stopped.contains(w);
            assert(list[i] == head[i]);
        }
        assert(list[list.len() - 1] == a);
        if exists|i: int|
            0 <= i < list.len() && (#[trigger] list[i]).work_id@ == w && (list[i].active_claims > 0
                || list[i].nonterminal_executions > 0) && !stopped.contains(w) {
            let i = choose|i: int|
                0 <= i < list.len() && (#[trigger] list[i]).work_id@ == w && (list[i].active_claims > 0
                    || list[i].nonterminal_executions > 0) && !stopped.contains(w);
            if i < head.len() {
                assert(head[i] == list[i]);
            }
        }
    }
}

/// What a gate tells: the works that are affected, unrelated and stopped, as they were given; a reason
/// exactly where it is closed; and what has to be done in each work that keeps it closed.
pub proof fn gates_tell_why_they_are_closed(
    affected: Seq<AffectedWork>,
    unrelated: Seq<Seq<char>>,
    stopped: Seq<Seq<char>>,
    impact_proven: bool,
    i: int,
)
    requires
        0 <= i < affected.len(),
    ensures
        ({
            let g = gated(affected, unrelated, stopped, impact_proven);
            let runs = (affected[i].active_claims > 0 || affected[i].nonterminal_executions > 0)
                && !stopped.contains(affected[i].work_id@);
            &&& g.impact_proven == impact_proven
            &&& g.affected_work_ids.len() == affected.len()
            &&& g.affected_work_ids[i] == affected[i].work_id@
            &&& g.unrelated_work_ids == unrelated
            &&& g.stopped_work_ids == stopped
            &&& g.refuse_reason is None <==> g.allow_activation
            &&& runs ==> !g.allow_activation
            &&& !impact_proven ==> !g.allow_activation && g.refuse_reason == Some(
                "activation impact cannot be proven; retaining project-wide active-claim barrier"@,
            ) && g.recovery_actions.len() == 3
            &&& runs && impact_proven ==> g.recovery_actions.contains(
                "stop and reconcile work "@ + affected[i].work_id@,
            )
            &&& !runs && impact_proven && (forall|j: int|
                0 <= j < affected.len() && #[trigger] affected[j].work_id@ == affected[i].work_id@ ==> (
                affected[j].active_claims <= 0 && affected[j].nonterminal_executions <= 0)
                    || stopped.contains(affected[j].work_id@)) ==> g.refuse_reason != Some(
                stop_reason(affected[i].work_id@),
            )
        }),
{
    let running = still_running(affected, stopped);
    let g = gated(affected, unrelated, stopped, impact_proven);
    let w = affected[i].work_id@;
    running_works(affected, stopped, w);
    if running.contains(w) && impact_proven {
        let k = running.index_of(w);
        let all = general_actions() + running.map_values(|w: Seq<char>| stop_action(w));
        assert(all[3 + k] == stop_action(w));
        assert(all.contains("stop and reconcile work "@ + w));
    }
    if running.len() > 0 {
        assert(running.contains(running.last()));
        if stop_reason(running.last()) == stop_reason(w) {
            reasons_name_their_work(running.last(), w);
        }
    }
}

/// The reason that a gate is closed for names one work.
pub proof fn reasons_name_their_work(a: Seq<char>, b: Seq<char>)
    ensures
        stop_reason(a) == stop_reason(b) ==> a == b,
        stop_action(a) == stop_action(b) ==> a == b,
{
    let head = "affected work "@;
    let tail = " requires explicit stop/reconcile/replan (cancel/expiry/end-session do not prove process stopped)"@;
    if stop_reason(a) == stop_reason(b) {
        assert(stop_reason(a).len() == head.len() + a.len() + tail.len());
        assert(stop_reason(b).len() == head.len() + b.len() + tail.len());
        assert forall|i: int| 0 <= i < a.len() implies a[i] == b[i] by {
            assert(stop_reason(a)[head.len() + i] == a[i]);
            assert(stop_reason(b)[head.len() + i] == b[i]);
        }
        assert(a =~= b);
    }
    if stop_action(a) == stop_action(b) {
        let head = "stop and reconcile work "@;
        assert(stop_action(a).len() == head.len() + a.len());
        assert(stop_action(b).len() == head.len() + b.len());
        assert forall|i: int| 0 <= i < a.len() implies a[i] == b[i] by {
            assert(stop_action(a)[head.len() + i] == a[i]);
            assert(stop_action(b)[head.len() + i] == b[i]);
        }
        assert(a =~= b);
    }
}

/// A closed gate is answered with its reason: as an impact that was not shown, or as a refusal.
pub proof fn closed_gates_are_refused(g: GateView)
    ensures
        g.refuse_reason matches Some(m) ==> {
            &&& !g.impact_proven ==> gate_fault(g) == Fault::ActivationImpactUnproven(m)
            &&& g.impact_proven ==> gate_fault(g) == Fault::WritebackRefused(m)
        },
        g.refuse_reason is None ==> {
            &&& !g.impact_proven ==> gate_fault(g) == Fault::ActivationImpactUnproven(
                "impact unproven"@,
            )
            &&& g.impact_proven ==> gate_fault(g) == Fault::WritebackRefused("writeback refused"@)
        },
{
}

/// A publication that was not activated yet is written back exactly where it is pending, its approval
/// is of the same content, its candidate is published, and activation is allowed. Anything else is
/// answered with a fault, each of its own kind.
pub proof fn writeback_goes_by_the_publication(
    p: PublishRow,
    approved: Seq<char>,
    state: Option<Seq<char>>,
    gate: GateView,
)
    requires
        p.activation_receipt_id is None,
    ensures
        ({
            let answer = written_back(Some(&p), approved, state, gate);
            let fresh = p.source_writeback_pending && approved == p.candidate_digest@;
            &&& !p.source_writeback_pending ==> answer == Err::<WritebackView, Fault>(
                Fault::Protocol("publish receipt is not pending source writeback"@),
            )
            &&& p.source_writeback_pending && approved != p.candidate_digest@ ==> answer == Err::<
                WritebackView,
                Fault,
            >(Fault::StaleApproval)
            &&& fresh && state is None ==> answer == Err::<WritebackView, Fault>(
                Fault::Protocol("planning candidate not found"@),
            )
            &&& fresh && state is Some && state != Some("published"@) ==> answer == Err::<
                WritebackView,
                Fault,
            >(Fault::Protocol("writeback requires a published planning candidate"@))
            &&& fresh && state == Some("published"@) && gate.allow_activation ==> answer == Ok::<
                WritebackView,
                Fault,
            >(WritebackView::Proceed { gate })
            &&& fresh && state == Some("published"@) && !gate.allow_activation ==> (answer matches Ok(
                WritebackView::Refused { gate: told, body },
            ) && told == gate && json::field(body, "candidate_id"@) == Some(
                JsonView::Str(p.candidate_id@),
            ) && json::field(body, "candidate_digest"@) == Some(JsonView::Str(p.candidate_digest@))
                && json::field(body, "gate"@) == Some(gate_doc(gate)))
        }),
        written_back(None, approved, state, gate) == Err::<WritebackView, Fault>(
            Fault::Protocol("publish receipt not found"@),
        ),
{
    refusals_tell_the_candidate(gate, p.candidate_id@, p.candidate_digest@);
}

/// What an earlier try left in the journal decides about the source. One that has not come as far as
/// checking it starts anew. After that, a source that holds what was meant to be written is taken as
/// written, one that holds what was there before is written, and any other is somebody else's.
pub proof fn sources_are_resumed(j: JournalRow, disk: Seq<char>)
    ensures
        ({
            let answer = resumed(Some(&j), disk);
            let begun = j.phase@ == "validated"@ || j.phase@ == "source_written"@ || j.phase@
                == "pg_activating"@;
            &&& !begun ==> answer == Ok::<SourceResume, Fault>(SourceResume::Fresh)
            &&& begun && disk == j.after_fingerprint@ ==> answer == Ok::<SourceResume, Fault>(
                SourceResume::Landed,
            )
            &&& begun && disk != j.after_fingerprint@ && disk == j.before_fingerprint@ ==> answer
                == Ok::<SourceResume, Fault>(SourceResume::Rewrite)
            &&& begun && disk != j.after_fingerprint@ && disk != j.before_fingerprint@ ==> answer
                == Err::<SourceResume, Fault>(
                Fault::Protocol(
                    "authoritative source changed externally; refusing overwrite of others' work"@,
                ),
            )
        }),
        resumed(None, disk) == Ok::<SourceResume, Fault>(SourceResume::Fresh),
{
}

/// A phase is journalled under its name, with the digest of what is written where there is one.
pub proof fn phases_are_journalled(phase: Seq<char>, digest: Seq<char>)
    ensures
        json::field(phase_doc(phase, Some(digest)), "phase"@) == Some(JsonView::Str(phase)),
        json::field(phase_doc(phase, None), "phase"@) == Some(JsonView::Str(phase)),
        json::field(phase_doc(phase, Some(digest)), "bundle_digest"@) == Some(JsonView::Str(digest)),
        json::field(phase_doc(phase, None), "bundle_digest"@) is None,
{
    reveal_strlit("phase");
    reveal_strlit("bundle_digest");
    assert("phase"@.len() == 5 && "bundle_digest"@.len() == 13);
    let f = phase_doc(phase, Some(digest))->Obj_0;
    let g = phase_doc(phase, None)->Obj_0;
    json::field_is_first(f, "phase"@, 0);
    json::field_is_first(f, "bundle_digest"@, 1);
    json::field_is_first(g, "phase"@, 0);
    json::field_is_absent(g, "bundle_digest"@);
}

/// A gate is told with each of its parts under its own name.
pub proof fn gates_are_told(g: GateView)
    ensures
        json::field(gate_doc(g), "impact_proven"@) == Some(JsonView::Bool(g.impact_proven)),
        json::field(gate_doc(g), "allow_activation"@) == Some(JsonView::Bool(g.allow_activation)),
        json::field(gate_doc(g), "affected_work_ids"@) == Some(json::text_items(g.affected_work_ids)),
        json::field(gate_doc(g), "unrelated_work_ids"@) == Some(json::text_items(g.unrelated_work_ids)),
        json::field(gate_doc(g), "stopped_work_ids"@) == Some(json::text_items(g.stopped_work_ids)),
        json::field(gate_doc(g), "refuse_reason"@) == Some(json::opt_item(g.refuse_reason)),
        json::field(gate_doc(g), "recovery_actions"@) == Some(json::text_items(g.recovery_actions)),
{
    reveal_strlit("impact_proven");
    reveal_strlit("allow_activation");
    reveal_strlit("affected_work_ids");
    reveal_strlit("unrelated_work_ids");
    reveal_strlit("stopped_work_ids");
    reveal_strlit("refuse_reason");
    reveal_strlit("recovery_actions");
    assert("impact_proven"@.len() == 13);
    assert("allow_activation"@.len() == 16);
    assert("affected_work_ids"@.len() == 17);
    assert("unrelated_work_ids"@.len() == 18);
    assert("stopped_work_ids"@.len() == 16);
    assert("refuse_reason"@.len() == 13);
    assert("recovery_actions"@.len() == 16);
    assert("impact_proven"@[0] == 'i');
    assert("refuse_reason"@[0] == 'r');
    assert("allow_activation"@[0] == 'a');
    assert("stopped_work_ids"@[0] == 's');
    assert("recovery_actions"@[0] == 'r');
    let f = gate_doc(g)->Obj_0;
    json::field_is_first(f, "impact_proven"@, 0);
    json::field_is_first(f, "allow_activation"@, 1);
    json::field_is_first(f, "affected_work_ids"@, 2);
    json::field_is_first(f, "unrelated_work_ids"@, 3);
    json::field_is_first(f, "stopped_work_ids"@, 4);
    json::field_is_first(f, "refuse_reason"@, 5);
    json::field_is_first(f, "recovery_actions"@, 6);
}

/// A refused activation is journalled with its gate and its candidate.
pub proof fn refusals_tell_the_candidate(gate: GateView, candidate_id: Seq<char>, candidate_digest: Seq<char>)
    ensures
        json::field(refused_doc(gate, candidate_id, candidate_digest), "gate"@) == Some(gate_doc(gate)),
        json::field(refused_doc(gate, candidate_id, candidate_digest), "candidate_id"@) == Some(JsonView::Str(candidate_id)),
        json::field(refused_doc(gate, candidate_id, candidate_digest), "candidate_digest"@) == Some(JsonView::Str(candidate_digest)),
{
    reveal_strlit("gate");
    reveal_strlit("candidate_id");
    reveal_strlit("candidate_digest");
    assert("gate"@.len() == 4);
    assert("candidate_id"@.len() == 12);
    assert("candidate_digest"@.len() == 16);
    let f = refused_doc(gate, candidate_id, candidate_digest)->Obj_0;
    json::field_is_first(f, "gate"@, 0);
    json::field_is_first(f, "candidate_id"@, 1);
    json::field_is_first(f, "candidate_digest"@, 2);
}

/// The audit of an activation names who approved and who published what, and what the source held
/// before and after.
pub proof fn activations_are_audited(f: ActivationFacts)
    ensures
        json::field(audit_doc(f), "request_id"@) == Some(JsonView::Str(f.request_id@)),
        json::field(audit_doc(f), "publish_receipt_id"@) == Some(JsonView::Str(f.publish_receipt_id@)),
        json::field(audit_doc(f), "candidate_id"@) == Some(JsonView::Str(f.candidate_id@)),
        json::field(audit_doc(f), "candidate_digest"@) == Some(JsonView::Str(f.candidate_digest@)),
        json::field(audit_doc(f), "approval_id"@) == Some(JsonView::Str(f.approval_id@)),
        json::field(audit_doc(f), "approver_actor_id"@) == Some(JsonView::Str(f.approver_actor_id@)),
        json::field(audit_doc(f), "publisher_actor_id"@) == Some(JsonView::Str(f.publisher_actor_id@)),
        json::field(audit_doc(f), "source_version"@) == Some(JsonView::Str(f.source_version@)),
        json::field(audit_doc(f), "activated_snapshot_id"@) == Some(JsonView::Str(f.activated_snapshot_id@)),
        json::field(audit_doc(f), "authority_epoch"@) == Some(JsonView::Str(f.authority_epoch@)),
        json::field(audit_doc(f), "affected_work_ids"@) == Some(json::text_items(text::texts(f.affected_work_ids@))),
        json::field(audit_doc(f), "unrelated_work_ids"@) == Some(json::text_items(text::texts(f.unrelated_work_ids@))),
        json::field(audit_doc(f), "before_fingerprint"@) == Some(JsonView::Str(f.before_fingerprint@)),
        json::field(audit_doc(f), "after_fingerprint"@) == Some(JsonView::Str(f.after_fingerprint@)),
        json::field(audit_doc(f), "recovery_actions"@) == Some(json::text_items(text::texts(f.recovery_actions@))),
{
    reveal_strlit("request_id");
    reveal_strlit("publish_receipt_id");
    reveal_strlit("candidate_id");
    reveal_strlit("candidate_digest");
    reveal_strlit("approval_id");
    reveal_strlit("approver_actor_id");
    reveal_strlit("publisher_actor_id");
    reveal_strlit("source_version");
    reveal_strlit("activated_snapshot_id");
    reveal_strlit("authority_epoch");
    reveal_strlit("affected_work_ids");
    reveal_strlit("unrelated_work_ids");
    reveal_strlit("before_fingerprint");
    reveal_strlit("after_fingerprint");
    reveal_strlit("recovery_actions");
    assert("request_id"@.len() == 10);
    assert("publish_receipt_id"@.len() == 18);
    assert("candidate_id"@.len() == 12);
    assert("candidate_digest"@.len() == 16);
    assert("approval_id"@.len() == 11);
    assert("approver_actor_id"@.len() == 17);
    assert("publisher_actor_id"@.len() == 18);
    assert("source_version"@.len() == 14);
    assert("activated_snapshot_id"@.len() == 21);
    assert("authority_epoch"@.len() == 15);
    assert("affected_work_ids"@.len() == 17);
    assert("unrelated_work_ids"@.len() == 18);
    assert("before_fingerprint"@.len() == 18);
    assert("after_fingerprint"@.len() == 17);
    assert("recovery_actions"@.len() == 16);
    assert("publish_receipt_id"@[7] == '_');
    assert("publisher_actor_id"@[7] == 'e');
    assert("publish_receipt_id"@[0] == 'p');
    assert("unrelated_work_ids"@[0] == 'u');
    assert("before_fingerprint"@[0] == 'b');
    assert("publisher_actor_id"@[0] == 'p');
    assert("candidate_digest"@[0] == 'c');
    assert("recovery_actions"@[0] == 'r');
    assert("approver_actor_id"@[1] == 'p');
    assert("affected_work_ids"@[1] == 'f');
    assert("after_fingerprint"@[1] == 'f');
    assert("affected_work_ids"@[2] == 'f');
    assert("after_fingerprint"@[2] == 't');
    let f = audit_doc(f)->Obj_0;
    json::field_is_first(f, "request_id"@, 0);
    json::field_is_first(f, "publish_receipt_id"@, 1);
    json::field_is_first(f, "candidate_id"@, 2);
    json::field_is_first(f, "candidate_digest"@, 3);
    json::field_is_first(f, "approval_id"@, 4);
    json::field_is_first(f, "approver_actor_id"@, 5);
    json::field_is_first(f, "publisher_actor_id"@, 6);
    json::field_is_first(f, "source_version"@, 7);
    json::field_is_first(f, "activated_snapshot_id"@, 8);
    json::field_is_first(f, "authority_epoch"@, 9);
    json::field_is_first(f, "affected_work_ids"@, 10);
    json::field_is_first(f, "unrelated_work_ids"@, 11);
    json::field_is_first(f, "before_fingerprint"@, 12);
    json::field_is_first(f, "after_fingerprint"@, 13);
    json::field_is_first(f, "recovery_actions"@, 14);
}

/// The answer to an activation names what was activated, and says that the source was written.
pub proof fn activations_are_answered(receipt_id: Seq<char>, f: ActivationFacts)
    ensures
        json::field(activated_doc(receipt_id, f), "already_recorded"@) == Some(JsonView::Bool(false)),
        json::field(activated_doc(receipt_id, f), "receipt_id"@) == Some(JsonView::Str(receipt_id)),
        json::field(activated_doc(receipt_id, f), "request_id"@) == Some(JsonView::Str(f.request_id@)),
        json::field(activated_doc(receipt_id, f), "candidate_id"@) == Some(JsonView::Str(f.candidate_id@)),
        json::field(activated_doc(receipt_id, f), "candidate_digest"@) == Some(JsonView::Str(f.candidate_digest@)),
        json::field(activated_doc(receipt_id, f), "approver_actor_id"@) == Some(JsonView::Str(f.approver_actor_id@)),
        json::field(activated_doc(receipt_id, f), "source_version"@) == Some(JsonView::Str(f.source_version@)),
        json::field(activated_doc(receipt_id, f), "activated_snapshot_id"@) == Some(JsonView::Str(f.activated_snapshot_id@)),
        json::field(activated_doc(receipt_id, f), "authority_epoch"@) == Some(JsonView::Str(f.authority_epoch@)),
        json::field(activated_doc(receipt_id, f), "before_fingerprint"@) == Some(JsonView::Str(f.before_fingerprint@)),
        json::field(activated_doc(receipt_id, f), "after_fingerprint"@) == Some(JsonView::Str(f.after_fingerprint@)),
        json::field(activated_doc(receipt_id, f), "affected_work_ids"@) == Some(json::text_items(text::texts(f.affected_work_ids@))),
        json::field(activated_doc(receipt_id, f), "unrelated_work_ids"@) == Some(json::text_items(text::texts(f.unrelated_work_ids@))),
        json::field(activated_doc(receipt_id, f), "source_bytes_written"@) == Some(JsonView::Bool(true)),
        json::field(activated_doc(receipt_id, f), "source_writeback_pending"@) == Some(JsonView::Bool(false)),
        json::field(activated_doc(receipt_id, f), "audit"@) == Some(audit_doc(f)),
{
    reveal_strlit("already_recorded");
    reveal_strlit("receipt_id");
    reveal_strlit("request_id");
    reveal_strlit("candidate_id");
    reveal_strlit("candidate_digest");
    reveal_strlit("approver_actor_id");
    reveal_strlit("source_version");
    reveal_strlit("activated_snapshot_id");
    reveal_strlit("authority_epoch");
    reveal_strlit("before_fingerprint");
    reveal_strlit("after_fingerprint");
    reveal_strlit("affected_work_ids");
    reveal_strlit("unrelated_work_ids");
    reveal_strlit("source_bytes_written");
    reveal_strlit("source_writeback_pending");
    reveal_strlit("audit");
    assert("already_recorded"@.len() == 16);
    assert("receipt_id"@.len() == 10);
    assert("request_id"@.len() == 10);
    assert("candidate_id"@.len() == 12);
    assert("candidate_digest"@.len() == 16);
    assert("approver_actor_id"@.len() == 17);
    assert("source_version"@.len() == 14);
    assert("activated_snapshot_id"@.len() == 21);
    assert("authority_epoch"@.len() == 15);
    assert("before_fingerprint"@.len() == 18);
    assert("after_fingerprint"@.len() == 17);
    assert("affected_work_ids"@.len() == 17);
    assert("unrelated_work_ids"@.len() == 18);
    assert("source_bytes_written"@.len() == 20);
    assert("source_writeback_pending"@.len() == 24);
    assert("audit"@.len() == 5);
    assert("already_recorded"@[0] == 'a');
    assert("candidate_digest"@[0] == 'c');
    assert("receipt_id"@[2] == 'c');
    assert("request_id"@[2] == 'q');
    assert("approver_actor_id"@[1] == 'p');
    assert("after_fingerprint"@[1] == 'f');
    assert("affected_work_ids"@[1] == 'f');
    assert("after_fingerprint"@[2] == 't');
    assert("affected_work_ids"@[2] == 'f');
    assert("before_fingerprint"@[0] == 'b');
    assert("unrelated_work_ids"@[0] == 'u');
    let f = activated_doc(receipt_id, f)->Obj_0;
    json::field_is_first(f, "already_recorded"@, 0);
    json::field_is_first(f, "receipt_id"@, 1);
    json::field_is_first(f, "request_id"@, 2);
    json::field_is_first(f, "candidate_id"@, 3);
    json::field_is_first(f, "candidate_digest"@, 4);
    json::field_is_first(f, "approver_actor_id"@, 5);
    json::field_is_first(f, "source_version"@, 6);
    json::field_is_first(f, "activated_snapshot_id"@, 7);
    json::field_is_first(f, "authority_epoch"@, 8);
    json::field_is_first(f, "before_fingerprint"@, 9);
    json::field_is_first(f, "after_fingerprint"@, 10);
    json::field_is_first(f, "affected_work_ids"@, 11);
    json::field_is_first(f, "unrelated_work_ids"@, 12);
    json::field_is_first(f, "source_bytes_written"@, 13);
    json::field_is_first(f, "source_writeback_pending"@, 14);
    json::field_is_first(f, "audit"@, 15);
}

/// The receipt of an activation is told with each of its parts under its own name.
pub proof fn receipts_are_told(r: ActivationReceipt)
    ensures
        json::field(receipt_doc(r), "receipt_id"@) == Some(JsonView::Str(r.receipt_id@)),
        json::field(receipt_doc(r), "request_id"@) == Some(JsonView::Str(r.request_id@)),
        json::field(receipt_doc(r), "candidate_id"@) == Some(JsonView::Str(r.candidate_id@)),
        json::field(receipt_doc(r), "candidate_digest"@) == Some(JsonView::Str(r.candidate_digest@)),
        json::field(receipt_doc(r), "publish_receipt_id"@) == Some(JsonView::Str(r.publish_receipt_id@)),
        json::field(receipt_doc(r), "approval_id"@) == Some(JsonView::Str(r.approval_id@)),
        json::field(receipt_doc(r), "approver_actor_id"@) == Some(JsonView::Str(r.approver_actor_id@)),
        json::field(receipt_doc(r), "publisher_actor_id"@) == Some(JsonView::Str(r.publisher_actor_id@)),
        json::field(receipt_doc(r), "source_version"@) == Some(JsonView::Str(r.source_version@)),
        json::field(receipt_doc(r), "activated_snapshot_id"@) == Some(JsonView::Str(r.activated_snapshot_id@)),
        json::field(receipt_doc(r), "authority_epoch"@) == Some(JsonView::Str(r.authority_epoch@)),
        json::field(receipt_doc(r), "before_fingerprint"@) == Some(JsonView::Str(r.before_fingerprint@)),
        json::field(receipt_doc(r), "after_fingerprint"@) == Some(JsonView::Str(r.after_fingerprint@)),
        json::field(receipt_doc(r), "affected_work_ids"@) == Some(r.affected_work_ids.model()),
        json::field(receipt_doc(r), "unrelated_work_ids"@) == Some(r.unrelated_work_ids.model()),
        json::field(receipt_doc(r), "audit"@) == Some(r.audit.model()),
        json::field(receipt_doc(r), "created_at"@) == Some(JsonView::Str(r.created_at@)),
{
    reveal_strlit("receipt_id");
    reveal_strlit("request_id");
    reveal_strlit("candidate_id");
    reveal_strlit("candidate_digest");
    reveal_strlit("publish_receipt_id");
    reveal_strlit("approval_id");
    reveal_strlit("approver_actor_id");
    reveal_strlit("publisher_actor_id");
    reveal_strlit("source_version");
    reveal_strlit("activated_snapshot_id");
    reveal_strlit("authority_epoch");
    reveal_strlit("before_fingerprint");
    reveal_strlit("after_fingerprint");
    reveal_strlit("affected_work_ids");
    reveal_strlit("unrelated_work_ids");
    reveal_strlit("audit");
    reveal_strlit("created_at");
    assert("receipt_id"@.len() == 10);
    assert("request_id"@.len() == 10);
    assert("candidate_id"@.len() == 12);
    assert("candidate_digest"@.len() == 16);
    assert("publish_receipt_id"@.len() == 18);
    assert("approval_id"@.len() == 11);
    assert("approver_actor_id"@.len() == 17);
    assert("publisher_actor_id"@.len() == 18);
    assert("source_version"@.len() == 14);
    assert("activated_snapshot_id"@.len() == 21);
    assert("authority_epoch"@.len() == 15);
    assert("before_fingerprint"@.len() == 18);
    assert("after_fingerprint"@.len() == 17);
    assert("affected_work_ids"@.len() == 17);
    assert("unrelated_work_ids"@.len() == 18);
    assert("audit"@.len() == 5);
    assert("created_at"@.len() == 10);
    assert("receipt_id"@[2] == 'c');
    assert("request_id"@[2] == 'q');
    assert("receipt_id"@[0] == 'r');
    assert("created_at"@[0] == 'c');
    assert("request_id"@[0] == 'r');
    assert("publish_receipt_id"@[7] == '_');
    assert("publisher_actor_id"@[7] == 'e');
    assert("publish_receipt_id"@[0] == 'p');
    assert("before_fingerprint"@[0] == 'b');
    assert("unrelated_work_ids"@[0] == 'u');
    assert("publisher_actor_id"@[0] == 'p');
    assert("approver_actor_id"@[1] == 'p');
    assert("after_fingerprint"@[1] == 'f');
    assert("affected_work_ids"@[1] == 'f');
    assert("after_fingerprint"@[2] == 't');
    assert("affected_work_ids"@[2] == 'f');
    let f = receipt_doc(r)->Obj_0;
    json::field_is_first(f, "receipt_id"@, 0);
    json::field_is_first(f, "request_id"@, 1);
    json::field_is_first(f, "candidate_id"@, 2);
    json::field_is_first(f, "candidate_digest"@, 3);
    json::field_is_first(f, "publish_receipt_id"@, 4);
    json::field_is_first(f, "approval_id"@, 5);
    json::field_is_first(f, "approver_actor_id"@, 6);
    json::field_is_first(f, "publisher_actor_id"@, 7);
    json::field_is_first(f, "source_version"@, 8);
    json::field_is_first(f, "activated_snapshot_id"@, 9);
    json::field_is_first(f, "authority_epoch"@, 10);
    json::field_is_first(f, "before_fingerprint"@, 11);
    json::field_is_first(f, "after_fingerprint"@, 12);
    json::field_is_first(f, "affected_work_ids"@, 13);
    json::field_is_first(f, "unrelated_work_ids"@, 14);
    json::field_is_first(f, "audit"@, 15);
    json::field_is_first(f, "created_at"@, 16);
}

/// An activation that was recorded is answered with its receipt.
pub proof fn recorded_activations_are_told(receipt: JsonView)
    ensures
        json::field(recorded_doc(receipt), "already_recorded"@) == Some(JsonView::Bool(true)),
        json::field(recorded_doc(receipt), "receipt"@) == Some(receipt),
{
    reveal_strlit("already_recorded");
    reveal_strlit("receipt");
    assert("already_recorded"@.len() == 16);
    assert("receipt"@.len() == 7);
    let f = recorded_doc(receipt)->Obj_0;
    json::field_is_first(f, "already_recorded"@, 0);
    json::field_is_first(f, "receipt"@, 1);
}

/// What writing back offers: a barrier stays where nothing proves that it may go, and no status in a source completes a work.
pub proof fn capabilities_are_told()
    ensures
        json::field(writeback_capabilities_doc(), "source_writeback"@) == Some(JsonView::Str("tmcp_022"@)),
        json::field(writeback_capabilities_doc(), "precise_patch_fingerprint_recovery"@) == Some(JsonView::Bool(true)),
        json::field(writeback_capabilities_doc(), "barrier_lock_order"@) == Some(JsonView::Str("ws023"@)),
        json::field(writeback_capabilities_doc(), "selective_replan"@) == Some(JsonView::Str("ws032"@)),
        json::field(writeback_capabilities_doc(), "project_claim_barrier_retained_when_unproven"@) == Some(JsonView::Bool(true)),
        json::field(writeback_capabilities_doc(), "cancel_expiry_session_end_prove_process_stopped"@) == Some(JsonView::Bool(false)),
        json::field(writeback_capabilities_doc(), "runtime_fields_writable_via_source"@) == Some(JsonView::Bool(false)),
        json::field(writeback_capabilities_doc(), "source_status_is_completion_receipt"@) == Some(JsonView::Bool(false)),
        json::field(writeback_capabilities_doc(), "idempotent_request_id"@) == Some(JsonView::Bool(true)),
        json::field(writeback_capabilities_doc(), "queryable_activation_receipt"@) == Some(JsonView::Bool(true)),
{
    reveal_strlit("source_writeback");
    reveal_strlit("precise_patch_fingerprint_recovery");
    reveal_strlit("barrier_lock_order");
    reveal_strlit("selective_replan");
    reveal_strlit("project_claim_barrier_retained_when_unproven");
    reveal_strlit("cancel_expiry_session_end_prove_process_stopped");
    reveal_strlit("runtime_fields_writable_via_source");
    reveal_strlit("source_status_is_completion_receipt");
    reveal_strlit("idempotent_request_id");
    reveal_strlit("queryable_activation_receipt");
    assert("source_writeback"@.len() == 16);
    assert("precise_patch_fingerprint_recovery"@.len() == 34);
    assert("barrier_lock_order"@.len() == 18);
    assert("selective_replan"@.len() == 16);
    assert("project_claim_barrier_retained_when_unproven"@.len() == 44);
    assert("cancel_expiry_session_end_prove_process_stopped"@.len() == 47);
    assert("runtime_fields_writable_via_source"@.len() == 34);
    assert("source_status_is_completion_receipt"@.len() == 35);
    assert("idempotent_request_id"@.len() == 21);
    assert("queryable_activation_receipt"@.len() == 28);
    assert("source_writeback"@[1] == 'o');
    assert("selective_replan"@[1] == 'e');
    assert("precise_patch_fingerprint_recovery"@[0] == 'p');
    assert("runtime_fields_writable_via_source"@[0] == 'r');
    let f = writeback_capabilities_doc()->Obj_0;
    json::field_is_first(f, "source_writeback"@, 0);
    json::field_is_first(f, "precise_patch_fingerprint_recovery"@, 1);
    json::field_is_first(f, "barrier_lock_order"@, 2);
    json::field_is_first(f, "selective_replan"@, 3);
    json::field_is_first(f, "project_claim_barrier_retained_when_unproven"@, 4);
    json::field_is_first(f, "cancel_expiry_session_end_prove_process_stopped"@, 5);
    json::field_is_first(f, "runtime_fields_writable_via_source"@, 6);
    json::field_is_first(f, "source_status_is_completion_receipt"@, 7);
    json::field_is_first(f, "idempotent_request_id"@, 8);
    json::field_is_first(f, "queryable_activation_receipt"@, 9);
}

/// What is always to be done before a refused activation is tried again, in this order.
pub proof fn refusals_tell_what_to_do()
    ensures
        general_actions().len() == 3,
        general_actions()[0] == "recompute affected set from planning candidate diffs"@,
        general_actions()[1]
            == "recheck operation read-sets for live claims and nonterminal executions"@,
        general_actions()[2] == "explicitly stop/reconcile/replan affected works before retry"@,
{
}

/// The works of a list are those of its entries, one for one.
pub proof fn listed_works_are_those_of_the_entries(list: Seq<AffectedWork>, i: int)
    requires
        0 <= i < list.len(),
    ensures
        work_ids(list).len() == list.len(),
        work_ids(list)[i] == list[i].work_id@,
{
}

} // verus!
