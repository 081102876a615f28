//! What a change of one work means for the works that depend on it: which
//! dependencies are looked at again, what happens to an execution that is under
//! way, and how a planning change blocks the works that it touches.
use crate::error::{protocol, Fault, PgError, PgResult};
use crate::json;
use crate::json::{Doc, Json, JsonView};
use crate::order;
use crate::pool::PgPool;
use crate::text;
use vstd::prelude::*;

verus! {

#[derive(Clone, Copy, Debug, Eq, PartialEq, Structural)]
pub enum ProviderChangeKind {
    NewVersionOrProgress,
    CurrentSelectionChanged,
    DeliveryRevoked,
    PinnedArtifactUnavailable,
}

impl ProviderChangeKind {
    /// The name of the kind in requests and rows.
    pub open spec fn name(self) -> Seq<char> {
        match self {
            ProviderChangeKind::NewVersionOrProgress => "new_version_or_progress"@,
            ProviderChangeKind::CurrentSelectionChanged => "current_selection_changed"@,
            ProviderChangeKind::DeliveryRevoked => "delivery_revoked"@,
            ProviderChangeKind::PinnedArtifactUnavailable => "pinned_artifact_unavailable"@,
        }
    }

    pub fn as_str(self) -> (r: &'static str)
        ensures
            r@ == self.name(),
    {
        match self {
            ProviderChangeKind::NewVersionOrProgress => "new_version_or_progress",
            ProviderChangeKind::CurrentSelectionChanged => "current_selection_changed",
            ProviderChangeKind::DeliveryRevoked => "delivery_revoked",
            ProviderChangeKind::PinnedArtifactUnavailable => "pinned_artifact_unavailable",
        }
    }

    /// The kind with the given name.
    pub fn parse(s: &str) -> (r: PgResult<ProviderChangeKind>)
        ensures
            match r {
                Ok(k) => k.name() == s@,
                Err(e) => e@ == Fault::Protocol("unknown provider change kind"@)
                    && forall|k: ProviderChangeKind| #[trigger] k.name() != s@,
            },
    {
        if text::same(s, "new_version_or_progress") {
            Ok(ProviderChangeKind::NewVersionOrProgress)
        } else if text::same(s, "current_selection_changed") {
            Ok(ProviderChangeKind::CurrentSelectionChanged)
        } else if text::same(s, "delivery_revoked") {
            Ok(ProviderChangeKind::DeliveryRevoked)
        } else if text::same(s, "pinned_artifact_unavailable") {
            Ok(ProviderChangeKind::PinnedArtifactUnavailable)
        } else {
            Err(protocol("unknown provider change kind"))
        }
    }
}

/// Each kind of change has a name of its own, so that a name read back gives the kind that
/// was written.
pub proof fn change_names_are_distinct(a: ProviderChangeKind, b: ProviderChangeKind)
    ensures
        a.name() == b.name() ==> a == b,
{
    reveal_strlit("new_version_or_progress");
    reveal_strlit("current_selection_changed");
    reveal_strlit("delivery_revoked");
    reveal_strlit("pinned_artifact_unavailable");
    assert("new_version_or_progress"@.len() == 23);
    assert("current_selection_changed"@.len() == 25);
    assert("delivery_revoked"@.len() == 16);
    assert("pinned_artifact_unavailable"@.len() == 27);
}

/// A dependency of one work on the delivery of another.
#[derive(Clone, Debug, PartialEq, Eq)]
pub struct AdoptedConsumerEdge {
    pub dependency_id: String,
    pub consumer_work_id: String,
    pub provider_work_id: String,
    /// `fixed_delivery` or `current_contract`
    pub policy: String,
    pub credential_status: String,
    pub assessment_status: String,
}

/// The works that a change of a provider makes look at their dependency again, those that
/// keep it, and those that it does not touch.
#[derive(Clone, Debug, PartialEq, Eq)]
pub struct SelectiveInvalidationPlan {
    pub provider_work_id: String,
    pub change: ProviderChangeKind,
    pub reevaluate: Vec<String>,
    pub leave_valid: Vec<String>,
    pub unaffected_work_ids: Vec<String>,
}

/// A dependency on a fixed delivery outlives progress of its provider; any other change, any
/// other policy and a revoked credential or assessment make it look again.
pub open spec fn must_reevaluate(edge: AdoptedConsumerEdge, change: ProviderChangeKind) -> bool {
    ||| edge.credential_status@ == "revoked"@
    ||| edge.assessment_status@ == "revoked"@
    ||| edge.policy@ != "fixed_delivery"@
    ||| change is DeliveryRevoked
    ||| change is PinnedArtifactUnavailable
}

/// `work` depends on `provider` by one of the edges.
pub open spec fn consumes(
    edges: Seq<AdoptedConsumerEdge>,
    provider: Seq<char>,
    work: Seq<char>,
) -> bool {
    exists|i: int|
        0 <= i < edges.len() && (#[trigger] edges[i]).provider_work_id@ == provider
            && edges[i].consumer_work_id@ == work
}

/// `work` depends on `provider` by an edge of which `must_reevaluate` is `again`.
pub open spec fn consumes_and(
    edges: Seq<AdoptedConsumerEdge>,
    provider: Seq<char>,
    change: ProviderChangeKind,
    again: bool,
    work: Seq<char>,
) -> bool {
    exists|i: int|
        0 <= i < edges.len() && (#[trigger] edges[i]).provider_work_id@ == provider
            && edges[i].consumer_work_id@ == work && must_reevaluate(edges[i], change) == again
}

/// `plan` is the plan for a change of `provider`.
pub open spec fn is_plan(
    plan: SelectiveInvalidationPlan,
    provider: Seq<char>,
    change: ProviderChangeKind,
    edges: Seq<AdoptedConsumerEdge>,
    works: Seq<Seq<char>>,
) -> bool {
    &&& plan.provider_work_id@ == provider
    &&& plan.change == change
    &&& order::lists_exactly(
        text::texts(plan.reevaluate@),
        |w: Seq<char>| consumes_and(edges, provider, change, true, w),
    )
    &&& order::lists_exactly(
        text::texts(plan.leave_valid@),
        |w: Seq<char>| consumes_and(edges, provider, change, false, w),
    )
    &&& order::lists_exactly(
        text::texts(plan.unaffected_work_ids@),
        |w: Seq<char>| works.contains(w) && w != provider && !consumes(edges, provider, w),
    )
}

fn needs(edge: &AdoptedConsumerEdge, change: ProviderChangeKind) -> (r: bool)
    ensures
        r == must_reevaluate(*edge, change),
{
    if text::same(edge.credential_status.as_str(), "revoked") || text::same(
        edge.assessment_status.as_str(),
        "revoked",
    ) {
        return true;
    }
    let fixed = text::same(edge.policy.as_str(), "fixed_delivery");
    match change {
        ProviderChangeKind::NewVersionOrProgress => !fixed,
        ProviderChangeKind::CurrentSelectionChanged => !fixed,
        ProviderChangeKind::DeliveryRevoked => true,
        ProviderChangeKind::PinnedArtifactUnavailable => true,
    }
}

/// Selects the works that look at their dependency on a provider again.
pub fn select_downstream_reevaluation(
    provider_work_id: &str,
    change: ProviderChangeKind,
    consumers: &[AdoptedConsumerEdge],
    all_project_work_ids: &[String],
) -> (r: SelectiveInvalidationPlan)
    ensures
        is_plan(r, provider_work_id@, change, consumers@, text::texts(all_project_work_ids@)),
{
    let mut reevaluate: Vec<String> = Vec::new();
    let mut leave_valid: Vec<String> = Vec::new();
    let mut consumer_ids: Vec<String> = Vec::new();
    let ghost provider = provider_work_id@;
    let mut i: usize = 0;
    while i < consumers.len()
        invariant
            i <= consumers.len(),
            provider == provider_work_id@,
            order::lists_exactly(
                text::texts(reevaluate@),
                |w: Seq<char>| consumes_and(consumers@.take(i as int), provider, change, true, w),
            ),
            order::lists_exactly(
                text::texts(leave_valid@),
                |w: Seq<char>| consumes_and(consumers@.take(i as int), provider, change, false, w),
            ),
            order::lists_exactly(
                text::texts(consumer_ids@),
                |w: Seq<char>| consumes(consumers@.take(i as int), provider, w),
            ),
        decreases consumers.len() - i,
    {
        let edge = &consumers[i];
        let ghost before = consumers@.take(i as int);
        let ghost now = consumers@.take(i + 1);
        proof {
            assert(now =~= before.push(*edge));
            assert forall|w: Seq<char>| #[trigger] consumes(now, provider, w) == (consumes(
                before,
                provider,
                w,
            ) || (edge.provider_work_id@ == provider && edge.consumer_work_id@ == w)) by {
                one_more_edge(before, *edge, provider, change, w);
            }
            assert forall|w: Seq<char>| #[trigger] consumes_and(now, provider, change, true, w) == (
            consumes_and(before, provider, change, true, w) || (edge.provider_work_id@ == provider
                && edge.consumer_work_id@ == w && must_reevaluate(*edge, change))) by {
                one_more_edge(before, *edge, provider, change, w);
            }
            assert forall|w: Seq<char>| #[trigger] consumes_and(now, provider, change, false, w) == (
            consumes_and(before, provider, change, false, w) || (edge.provider_work_id@ == provider
                && edge.consumer_work_id@ == w && !must_reevaluate(*edge, change))) by {
                one_more_edge(before, *edge, provider, change, w);
            }
        }
        if text::same(edge.provider_work_id.as_str(), provider_work_id) {
            order::insert(&mut consumer_ids, edge.consumer_work_id.as_str());
            if needs(edge, change) {
                order::insert(&mut reevaluate, edge.consumer_work_id.as_str());
            } else {
                order::insert(&mut leave_valid, edge.consumer_work_id.as_str());
            }
        }
        i = i + 1;
    }
    assert(consumers@.take(i as int) =~= consumers@);
    let mut unaffected: Vec<String> = Vec::new();
    let ghost works = text::texts(all_project_work_ids@);
    let mut k: usize = 0;
    while k < all_project_work_ids.len()
        invariant
            k <= all_project_work_ids.len(),
            provider == provider_work_id@,
            works == text::texts(all_project_work_ids@),
            order::lists_exactly(
                text::texts(consumer_ids@),
                |w: Seq<char>| consumes(consumers@, provider, w),
            ),
            order::lists_exactly(
                text::texts(unaffected@),
                |w: Seq<char>|
                    works.take(k as int).contains(w) && w != provider && !consumes(
                        consumers@,
                        provider,
                        w,
                    ),
            ),
        decreases all_project_work_ids.len() - k,
    {
        let work = all_project_work_ids[k].as_str();
        proof {
            assert(works[k as int] == work@);
            order::take_one_more(works, k as int);
        }
        if !text::same(work, provider_work_id) && !order::member(consumer_ids.as_slice(), work) {
            order::insert(&mut unaffected, work);
        }
        k = k + 1;
    }
    assert(works.take(k as int) =~= works);
    SelectiveInvalidationPlan {
        provider_work_id: provider_work_id.to_owned(),
        change,
        reevaluate,
        leave_valid,
        unaffected_work_ids: unaffected,
    }
}

proof fn one_more_edge(
    before: Seq<AdoptedConsumerEdge>,
    edge: AdoptedConsumerEdge,
    provider: Seq<char>,
    change: ProviderChangeKind,
    w: Seq<char>,
)
    ensures
        consumes(before.push(edge), provider, w) == (consumes(before, provider, w) || (
        edge.provider_work_id@ == provider && edge.consumer_work_id@ == w)),
        forall|again: bool| #[trigger]
            consumes_and(before.push(edge), provider, change, again, w) == (consumes_and(
                before,
                provider,
                change,
                again,
                w,
            ) || (edge.provider_work_id@ == provider && edge.consumer_work_id@ == w
                && must_reevaluate(edge, change) == again)),
{
    let now = before.push(edge);
    let n = before.len() as int;
    assert(now[n] == edge);
    if consumes(before, provider, w) {
        let j = choose|j: int|
            0 <= j < before.len() && (#[trigger] before[j]).provider_work_id@ == provider
                && before[j].consumer_work_id@ == w;
        assert(now[j] == before[j]);
    }
    if consumes(now, provider, w) {
        let j = choose|j: int|
            0 <= j < now.len() && (#[trigger] now[j]).provider_work_id@ == provider
                && now[j].consumer_work_id@ == w;
        if j < n {
            assert(now[j] == before[j]);
        }
    }
    assert forall|again: bool| #[trigger] consumes_and(now, provider, change, again, w) == (
    consumes_and(before, provider, change, again, w) || (edge.provider_work_id@ == provider
        && edge.consumer_work_id@ == w && must_reevaluate(edge, change) == again)) by {
        if consumes_and(before, provider, change, again, w) {
            let j = choose|j: int|
                0 <= j < before.len() && (#[trigger] before[j]).provider_work_id@ == provider
                    && before[j].consumer_work_id@ == w && must_reevaluate(before[j], change)
                    == again;
            assert(now[j] == before[j]);
        }
        if consumes_and(now, provider, change, again, w) {
            let j = choose|j: int|
                0 <= j < now.len() && (#[trigger] now[j]).provider_work_id@ == provider
                    && now[j].consumer_work_id@ == w && must_reevaluate(now[j], change) == again;
            if j < n {
                assert(now[j] == before[j]);
            }
        }
    }
}

/// The binding of a work to the provider becomes invalid where the work looks again, unless it
/// keeps its dependency by a fixed delivery as well.
pub open spec fn loses_binding(plan: SelectiveInvalidationPlan, work: Seq<char>) -> bool {
    text::texts(plan.reevaluate@).contains(work) && !text::texts(plan.leave_valid@).contains(work)
}

/// Whether the binding of `downstream` to `upstream` is valid after the plan was carried out,
/// where `valid` says whether it was before.
pub open spec fn binding_after(
    plan: SelectiveInvalidationPlan,
    downstream: Seq<char>,
    upstream: Seq<char>,
    valid: bool,
) -> bool {
    valid && !(upstream == plan.provider_work_id@ && loses_binding(plan, downstream))
}

fn losing_binding(plan: &SelectiveInvalidationPlan) -> (r: Vec<String>)
    ensures
        order::lists_exactly(text::texts(r@), |w: Seq<char>| loses_binding(*plan, w)),
{
    let mut out: Vec<String> = Vec::new();
    let ghost all = text::texts(plan.reevaluate@);
    let mut i: usize = 0;
    while i < plan.reevaluate.len()
        invariant
            i <= plan.reevaluate.len(),
            all == text::texts(plan.reevaluate@),
            order::ascending(text::texts(out@)),
            forall|w: Seq<char>| #[trigger]
                text::texts(out@).contains(w) <==> all.take(i as int).contains(w) && !text::texts(
                    plan.leave_valid@,
                ).contains(w),
        decreases plan.reevaluate.len() - i,
    {
        proof {
            order::take_one_more(all, i as int);
        }
        let work = plan.reevaluate[i].as_str();
        if !order::member(plan.leave_valid.as_slice(), work) {
            order::insert(&mut out, work);
        }
        i = i + 1;
    }
    assert(all.take(i as int) =~= all);
    out
}

/// A plan makes a binding invalid only where the binding is to the provider and its work looks
/// again. A work that keeps its dependency by a fixed delivery keeps its binding, every binding to
/// another provider stays as it was, and no binding becomes valid.
pub proof fn only_affected_bindings_change(
    plan: SelectiveInvalidationPlan,
    provider: Seq<char>,
    change: ProviderChangeKind,
    edges: Seq<AdoptedConsumerEdge>,
    works: Seq<Seq<char>>,
    downstream: Seq<char>,
    upstream: Seq<char>,
    valid: bool,
)
    requires
        is_plan(plan, provider, change, edges, works),
    ensures
        upstream != provider ==> binding_after(plan, downstream, upstream, valid) == valid,
        !consumes_and(edges, provider, change, true, downstream) ==> binding_after(
            plan,
            downstream,
            upstream,
            valid,
        ) == valid,
        consumes_and(edges, provider, change, false, downstream) ==> binding_after(
            plan,
            downstream,
            upstream,
            valid,
        ) == valid,
        consumes_and(edges, provider, change, true, downstream) && !consumes_and(
            edges,
            provider,
            change,
            false,
            downstream,
        ) ==> !binding_after(plan, downstream, provider, valid),
        binding_after(plan, downstream, upstream, valid) ==> valid,
{
}

/// A work that depends on a provider only by fixed deliveries that nobody revoked keeps its
/// dependency through any progress of the provider.
pub proof fn fixed_delivery_survives_progress(
    plan: SelectiveInvalidationPlan,
    provider: Seq<char>,
    change: ProviderChangeKind,
    edges: Seq<AdoptedConsumerEdge>,
    works: Seq<Seq<char>>,
    work: Seq<char>,
)
    requires
        is_plan(plan, provider, change, edges, works),
        change is NewVersionOrProgress || change is CurrentSelectionChanged,
        forall|i: int|
            0 <= i < edges.len() && (#[trigger] edges[i]).consumer_work_id@ == work
                && edges[i].provider_work_id@ == provider ==> edges[i].policy@
                == "fixed_delivery"@ && edges[i].credential_status@ != "revoked"@
                && edges[i].assessment_status@ != "revoked"@,
    ensures
        !text::texts(plan.reevaluate@).contains(work),
        consumes(edges, provider, work) ==> text::texts(plan.leave_valid@).contains(work),
{
    if consumes(edges, provider, work) {
        let i = choose|i: int|
            0 <= i < edges.len() && (#[trigger] edges[i]).provider_work_id@ == provider
                && edges[i].consumer_work_id@ == work;
        assert(!must_reevaluate(edges[i], change));
        assert(consumes_and(edges, provider, change, false, work));
    }
}

/// A revoked delivery, an artifact that is gone, a revoked credential or assessment and a dependency
/// on the current contract always lead to a new look.
pub proof fn revocation_always_reevaluates(
    plan: SelectiveInvalidationPlan,
    provider: Seq<char>,
    change: ProviderChangeKind,
    edges: Seq<AdoptedConsumerEdge>,
    works: Seq<Seq<char>>,
    i: int,
)
    requires
        is_plan(plan, provider, change, edges, works),
        0 <= i < edges.len(),
        edges[i].provider_work_id@ == provider,
        change is DeliveryRevoked || change is PinnedArtifactUnavailable
            || edges[i].credential_status@ == "revoked"@ || edges[i].assessment_status@ == "revoked"@
            || edges[i].policy@ != "fixed_delivery"@,
    ensures
        text::texts(plan.reevaluate@).contains(edges[i].consumer_work_id@),
{
    assert(consumes_and(edges, provider, change, true, edges[i].consumer_work_id@));
}

/// Every work of the project but the provider is looked at again, keeps its dependency, or is
/// not touched; and a work that is not touched is in neither of the other lists.
pub proof fn plan_covers_the_project(
    plan: SelectiveInvalidationPlan,
    provider: Seq<char>,
    change: ProviderChangeKind,
    edges: Seq<AdoptedConsumerEdge>,
    works: Seq<Seq<char>>,
    work: Seq<char>,
)
    requires
        is_plan(plan, provider, change, edges, works),
        works.contains(work),
        work != provider,
    ensures
        text::texts(plan.reevaluate@).contains(work) || text::texts(plan.leave_valid@).contains(work)
            || text::texts(plan.unaffected_work_ids@).contains(work),
        text::texts(plan.unaffected_work_ids@).contains(work) ==> !text::texts(
            plan.reevaluate@,
        ).contains(work) && !text::texts(plan.leave_valid@).contains(work),
{
    if consumes(edges, provider, work) {
        let i = choose|i: int|
            0 <= i < edges.len() && (#[trigger] edges[i]).provider_work_id@ == provider
                && edges[i].consumer_work_id@ == work;
        assert(consumes_and(edges, provider, change, must_reevaluate(edges[i], change), work));
    } else {
        assert(!consumes_and(edges, provider, change, true, work));
        assert(!consumes_and(edges, provider, change, false, work));
    }
}

/// The points of an execution at which its dependencies are looked at again.
#[derive(Clone, Copy, Debug, Eq, PartialEq, Structural)]
pub enum ExecutionBoundary {
    Prepare,
    Dispatch,
    Complete,
}

impl ExecutionBoundary {
    /// The name of the boundary in requests and rows.
    pub open spec fn name(self) -> Seq<char> {
        match self {
            ExecutionBoundary::Prepare => "prepare"@,
            ExecutionBoundary::Dispatch => "dispatch"@,
            ExecutionBoundary::Complete => "complete"@,
        }
    }

    pub fn as_str(self) -> (r: &'static str)
        ensures
            r@ == self.name(),
    {
        match self {
            ExecutionBoundary::Prepare => "prepare",
            ExecutionBoundary::Dispatch => "dispatch",
            ExecutionBoundary::Complete => "complete",
        }
    }

    /// The boundary with the given name.
    pub fn parse(s: &str) -> (r: PgResult<ExecutionBoundary>)
        ensures
            match r {
                Ok(b) => b.name() == s@,
                Err(e) => e@ == Fault::Protocol("unknown execution boundary"@)
                    && forall|b: ExecutionBoundary| #[trigger] b.name() != s@,
            },
    {
        if text::same(s, "prepare") {
            Ok(ExecutionBoundary::Prepare)
        } else if text::same(s, "dispatch") {
            Ok(ExecutionBoundary::Dispatch)
        } else if text::same(s, "complete") {
            Ok(ExecutionBoundary::Complete)
        } else {
            Err(protocol("unknown execution boundary"))
        }
    }
}

/// Each boundary has a name of its own.
pub proof fn boundary_names_are_distinct(a: ExecutionBoundary, b: ExecutionBoundary)
    ensures
        a.name() == b.name() ==> a == b,
{
    reveal_strlit("prepare");
    reveal_strlit("dispatch");
    reveal_strlit("complete");
    assert("prepare"@.len() == 7);
    assert("dispatch"@[0] == 'd');
    assert("complete"@[0] == 'c');
    assert("dispatch"@.len() == 8);
}

#[derive(Clone, Copy, Debug, Eq, PartialEq, Structural)]
pub enum BoundaryDecision {
    Allow,
    BlockNewEffects,
    KeepEffectsAssignRecovery,
}

impl BoundaryDecision {
    /// The name of the decision in rows.
    pub open spec fn name(self) -> Seq<char> {
        match self {
            BoundaryDecision::Allow => "allow"@,
            BoundaryDecision::BlockNewEffects => "block_new_effects"@,
            BoundaryDecision::KeepEffectsAssignRecovery => "keep_effects_assign_recovery"@,
        }
    }

    pub fn as_str(self) -> (r: &'static str)
        ensures
            r@ == self.name(),
    {
        match self {
            BoundaryDecision::Allow => "allow",
            BoundaryDecision::BlockNewEffects => "block_new_effects",
            BoundaryDecision::KeepEffectsAssignRecovery => "keep_effects_assign_recovery",
        }
    }

    /// The decision with the given name.
    pub fn parse(s: &str) -> (r: PgResult<BoundaryDecision>)
        ensures
            match r {
                Ok(d) => d.name() == s@,
                Err(e) => e@ == Fault::Protocol("unknown boundary decision"@)
                    && forall|d: BoundaryDecision| #[trigger] d.name() != s@,
            },
    {
        if text::same(s, "allow") {
            Ok(BoundaryDecision::Allow)
        } else if text::same(s, "block_new_effects") {
            Ok(BoundaryDecision::BlockNewEffects)
        } else if text::same(s, "keep_effects_assign_recovery") {
            Ok(BoundaryDecision::KeepEffectsAssignRecovery)
        } else {
            Err(protocol("unknown boundary decision"))
        }
    }
}

/// Each decision has a name of its own.
pub proof fn decision_names_are_distinct(a: BoundaryDecision, b: BoundaryDecision)
    ensures
        a.name() == b.name() ==> a == b,
{
    reveal_strlit("allow");
    reveal_strlit("block_new_effects");
    reveal_strlit("keep_effects_assign_recovery");
    assert("allow"@.len() == 5);
    assert("block_new_effects"@.len() == 17);
    assert("keep_effects_assign_recovery"@.len() == 28);
}

/// What is known of a work when its execution reaches a boundary.
#[derive(Clone, Debug, PartialEq, Eq)]
pub struct BoundarySnapshot {
    pub boundary: ExecutionBoundary,
    pub work_id: String,
    pub execution_id: Option<String>,
    pub dependencies_satisfied: bool,
    pub revoke_or_invalidation_observed: bool,
    pub has_real_effects: bool,
    pub unrelated_work_ids: Vec<String>,
}

#[derive(Clone, Debug, PartialEq, Eq)]
pub struct BoundaryRevalidation {
    pub decision: BoundaryDecision,
    pub recovery_duty: bool,
    pub erase_effects: bool,
    pub unrelated_may_continue: bool,
    pub reason: String,
}

/// The model of a revalidation.
pub struct RevalidationView {
    pub decision: BoundaryDecision,
    pub recovery_duty: bool,
    pub erase_effects: bool,
    pub unrelated_may_continue: bool,
    pub reason: Seq<char>,
}

impl View for BoundaryRevalidation {
    type V = RevalidationView;

    open spec fn view(&self) -> RevalidationView {
        RevalidationView {
            decision: self.decision,
            recovery_duty: self.recovery_duty,
            erase_effects: self.erase_effects,
            unrelated_may_continue: self.unrelated_may_continue,
            reason: self.reason@,
        }
    }
}

/// An execution goes on where its dependencies are satisfied and nothing was revoked. Else one
/// with real effects keeps them and owes a recovery, and one without is stopped.
pub open spec fn revalidated(
    boundary: ExecutionBoundary,
    satisfied: bool,
    revoked: bool,
    has_effects: bool,
) -> RevalidationView {
    if satisfied && !revoked {
        RevalidationView {
            decision: BoundaryDecision::Allow,
            recovery_duty: false,
            erase_effects: false,
            unrelated_may_continue: true,
            reason: "dependencies satisfied at boundary"@,
        }
    } else if has_effects {
        RevalidationView {
            decision: BoundaryDecision::KeepEffectsAssignRecovery,
            recovery_duty: true,
            erase_effects: false,
            unrelated_may_continue: true,
            reason: "mid-execution invalidation retains effects and recovery duty"@,
        }
    } else {
        RevalidationView {
            decision: BoundaryDecision::BlockNewEffects,
            recovery_duty: false,
            erase_effects: false,
            unrelated_may_continue: true,
            reason: match boundary {
                ExecutionBoundary::Prepare => "prepare revalidation blocked revoke/stale race"@,
                ExecutionBoundary::Dispatch => "dispatch revalidation blocked revoke/stale race"@,
                ExecutionBoundary::Complete => "complete revalidation blocked revoke/stale race"@,
            },
        }
    }
}

/// Decides what happens to an execution at a boundary.
pub fn revalidate_execution_boundary(snapshot: &BoundarySnapshot) -> (r: BoundaryRevalidation)
    ensures
        r@ == revalidated(
            snapshot.boundary,
            snapshot.dependencies_satisfied,
            snapshot.revoke_or_invalidation_observed,
            snapshot.has_real_effects,
        ),
{
    if snapshot.dependencies_satisfied && !snapshot.revoke_or_invalidation_observed {
        return BoundaryRevalidation {
            decision: BoundaryDecision::Allow,
            recovery_duty: false,
            erase_effects: false,
            unrelated_may_continue: true,
            reason: "dependencies satisfied at boundary".to_owned(),
        };
    }
    if snapshot.has_real_effects {
        return BoundaryRevalidation {
            decision: BoundaryDecision::KeepEffectsAssignRecovery,
            recovery_duty: true,
            erase_effects: false,
            unrelated_may_continue: true,
            reason: "mid-execution invalidation retains effects and recovery duty".to_owned(),
        };
    }
    let reason = match snapshot.boundary {
        ExecutionBoundary::Prepare => "prepare revalidation blocked revoke/stale race",
        ExecutionBoundary::Dispatch => "dispatch revalidation blocked revoke/stale race",
        ExecutionBoundary::Complete => "complete revalidation blocked revoke/stale race",
    };
    BoundaryRevalidation {
        decision: BoundaryDecision::BlockNewEffects,
        recovery_duty: false,
        erase_effects: false,
        unrelated_may_continue: true,
        reason: reason.to_owned(),
    }
}

/// Whatever is observed at a boundary, effects are never erased, other works go on, a
/// recovery is owed exactly where effects are kept, and a revocation never passes.
pub proof fn boundaries_never_erase_effects(
    boundary: ExecutionBoundary,
    satisfied: bool,
    revoked: bool,
    has_effects: bool,
)
    ensures
        ({
            let r = revalidated(boundary, satisfied, revoked, has_effects);
            &&& !r.erase_effects
            &&& r.unrelated_may_continue
            &&& r.recovery_duty == (r.decision is KeepEffectsAssignRecovery)
            &&& r.decision is Allow <==> satisfied && !revoked
            &&& r.decision is KeepEffectsAssignRecovery ==> has_effects
        }),
{
}

#[derive(Clone, Debug, PartialEq, Eq)]
pub struct CancelSplitRelation {
    pub kind: String,
    pub from_work_id: String,
    pub to_work_id: String,
}

impl CancelSplitRelation {
    /// A copy of the relation.
    pub fn copy(&self) -> (r: CancelSplitRelation)
        ensures
            r == *self,
    {
        CancelSplitRelation {
            kind: self.kind.clone(),
            from_work_id: self.from_work_id.clone(),
            to_work_id: self.to_work_id.clone(),
        }
    }
}

/// A change of the plan, with the works that it touches.
#[derive(Clone, Debug, PartialEq, Eq)]
pub struct ScopedPlanningChange {
    pub change_id: String,
    pub discovered_by: String,
    pub old_graph_version: String,
    pub new_graph_version: String,
    pub old_acceptance_contract: String,
    pub new_acceptance_contract: String,
    pub affected_work_ids: Vec<String>,
    pub cancel_split_relations: Vec<CancelSplitRelation>,
    pub continue_conditions: Vec<String>,
    pub status: String,
    pub confirmed_by: Option<String>,
}

#[derive(Clone, Debug)]
pub struct SelectiveInvalidateRequest {
    pub request_key: String,
    pub event_id: String,
    pub provider_work_id: String,
    pub change: ProviderChangeKind,
    pub consumers: Vec<AdoptedConsumerEdge>,
    pub all_project_work_ids: Vec<String>,
    pub now_ms: i64,
}

#[derive(Clone, Debug)]
pub struct BoundaryRevalidateRequest {
    pub request_key: String,
    pub check_id: String,
    pub snapshot: BoundarySnapshot,
    pub now_ms: i64,
}

#[derive(Clone, Debug)]
pub struct RecordPlanningChangeRequest {
    pub request_key: String,
    pub change_id: String,
    pub discovered_by: String,
    pub old_graph_version: String,
    pub new_graph_version: String,
    pub old_acceptance_contract: String,
    pub new_acceptance_contract: String,
    pub affected_work_ids: Vec<String>,
    pub cancel_split_relations: Vec<CancelSplitRelation>,
    pub continue_conditions: Vec<String>,
    pub all_project_work_ids: Vec<String>,
    pub now_ms: i64,
}

#[derive(Clone, Debug)]
pub struct DecidePlanningChangeRequest {
    pub request_key: String,
    pub change_id: String,
    pub actor_id: String,
    pub now_ms: i64,
}

#[derive(Clone, Debug)]
pub struct SelectiveInvalidationReceipt {
    pub request_key: String,
    pub subject_id: String,
    pub op: String,
    pub event_id: String,
    pub replayed: bool,
    pub created_at_ms: i64,
}

/// The model of a receipt.
pub struct ReceiptView {
    pub request_key: Seq<char>,
    pub subject_id: Seq<char>,
    pub op: Seq<char>,
    pub event_id: Seq<char>,
    pub replayed: bool,
    pub created_at_ms: i64,
}

impl View for SelectiveInvalidationReceipt {
    type V = ReceiptView;

    open spec fn view(&self) -> ReceiptView {
        ReceiptView {
            request_key: self.request_key@,
            subject_id: self.subject_id@,
            op: self.op@,
            event_id: self.event_id@,
            replayed: self.replayed,
            created_at_ms: self.created_at_ms,
        }
    }
}

/// A receipt as it is stored.
#[derive(Clone, Debug)]
pub struct ReceiptRow {
    pub request_key: String,
    pub subject_id: String,
    pub op: String,
    pub event_id: String,
    pub created_at_ms: i64,
}

/// The receipt of a request that is answered again.
pub open spec fn replay_of(row: ReceiptRow) -> ReceiptView {
    ReceiptView {
        request_key: row.request_key@,
        subject_id: row.subject_id@,
        op: row.op@,
        event_id: row.event_id@,
        replayed: true,
        created_at_ms: row.created_at_ms,
    }
}

/// The receipt of a request that is answered for the first time.
pub open spec fn fresh_receipt(
    request_key: Seq<char>,
    subject_id: Seq<char>,
    op: Seq<char>,
    now_ms: i64,
) -> ReceiptView {
    ReceiptView {
        request_key,
        subject_id,
        op,
        event_id: subject_id,
        replayed: false,
        created_at_ms: now_ms,
    }
}

/// What a stored receipt means for a request with the same key: none, a replay where it is of
/// the same operation, a conflict where it is of another.
pub open spec fn receipt_lookup(row: Option<&ReceiptRow>, op: Seq<char>) -> Result<
    Option<ReceiptView>,
    Fault,
> {
    match row {
        None => Ok(None),
        Some(r) => if r.op@ == op {
            Ok(Some(replay_of(*r)))
        } else {
            Err(Fault::IdempotencyConflict)
        },
    }
}

/// The model of a lookup.
pub open spec fn lookup_view(r: PgResult<Option<SelectiveInvalidationReceipt>>) -> Result<
    Option<ReceiptView>,
    Fault,
> {
    match r {
        Ok(None) => Ok(None),
        Ok(Some(receipt)) => Ok(Some(receipt@)),
        Err(e) => Err(e@),
    }
}

fn load_receipt(row: Option<&ReceiptRow>, op: &str) -> (r: PgResult<
    Option<SelectiveInvalidationReceipt>,
>)
    ensures
        lookup_view(r) == receipt_lookup(row, op@),
{
    match row {
        None => Ok(None),
        Some(stored) => {
            if !text::same(stored.op.as_str(), op) {
                return Err(PgError::IdempotencyConflict);
            }
            Ok(
                Some(
                    SelectiveInvalidationReceipt {
                        request_key: stored.request_key.clone(),
                        subject_id: stored.subject_id.clone(),
                        op: stored.op.clone(),
                        event_id: stored.event_id.clone(),
                        replayed: true,
                        created_at_ms: stored.created_at_ms,
                    },
                ),
            )
        },
    }
}

fn new_receipt(request_key: &str, subject_id: &str, op: &str, now_ms: i64) -> (r:
    SelectiveInvalidationReceipt)
    ensures
        r@ == fresh_receipt(request_key@, subject_id@, op@, now_ms),
{
    SelectiveInvalidationReceipt {
        request_key: request_key.to_owned(),
        subject_id: subject_id.to_owned(),
        op: op.to_owned(),
        event_id: subject_id.to_owned(),
        replayed: false,
        created_at_ms: now_ms,
    }
}

/// The row of a plan, as a document.
pub open spec fn plan_doc(plan: SelectiveInvalidationPlan) -> JsonView {
    JsonView::Obj(
        json::no_fields().push(("provider_work_id"@, JsonView::Str(plan.provider_work_id@))).push(
            ("change"@, JsonView::Str(plan.change.name())),
        ).push(("reevaluate"@, json::text_items(text::texts(plan.reevaluate@)))).push(
            ("leave_valid"@, json::text_items(text::texts(plan.leave_valid@))),
        ).push(
            ("unaffected_work_ids"@, json::text_items(text::texts(plan.unaffected_work_ids@))),
        ),
    )
}

/// The row of a revalidation, as a document.
pub open spec fn boundary_doc(
    snapshot: BoundarySnapshot,
    decision: RevalidationView,
) -> JsonView {
    JsonView::Obj(
        json::no_fields().push(("work_id"@, JsonView::Str(snapshot.work_id@))).push(
            ("execution_id"@, json::opt_item(text::opt(snapshot.execution_id))),
        ).push(("boundary"@, JsonView::Str(snapshot.boundary.name()))).push(
            ("decision"@, JsonView::Str(decision.decision.name())),
        ).push(("recovery_duty"@, JsonView::Bool(decision.recovery_duty))).push(
            ("erase_effects"@, JsonView::Bool(decision.erase_effects)),
        ).push(
            ("unrelated_may_continue"@, JsonView::Bool(decision.unrelated_may_continue)),
        ).push(("reason"@, JsonView::Str(decision.reason))).push(
            ("unrelated_work_ids"@, json::text_items(text::texts(snapshot.unrelated_work_ids@))),
        ),
    )
}

/// A selective invalidation to store.
pub struct Invalidation {
    pub plan: SelectiveInvalidationPlan,
    /// The works whose binding to the provider becomes invalid.
    pub invalidated: Vec<String>,
    pub body: Json,
    pub receipt: SelectiveInvalidationReceipt,
}

/// A revalidation to store.
pub struct Revalidation {
    pub decision: BoundaryRevalidation,
    pub body: Json,
    pub receipt: SelectiveInvalidationReceipt,
}

/// A planning change to store, with the works that it leaves alone.
pub struct RecordedChange {
    pub change: ScopedPlanningChange,
    pub unrelated: Vec<String>,
    pub body: Json,
    pub receipt: SelectiveInvalidationReceipt,
}

/// A decision on a planning change to store.
pub struct ChangeDecision {
    pub status: String,
    pub confirmed_by: String,
    pub receipt: SelectiveInvalidationReceipt,
}

/// The rules of invalidation and planning changes, for one database.
pub struct SelectiveInvalidationStore {
    pub pool: PgPool,
}

/// The works of a list that are not among the affected ones, ascending.
pub fn unrelated_of(affected: &[String], all: &[String]) -> (r: Vec<String>)
    ensures
        order::lists_exactly(
            text::texts(r@),
            |w: Seq<char>|
                text::texts(all@).contains(w) && !text::texts(affected@).contains(w),
        ),
{
    let mut out: Vec<String> = Vec::new();
    let ghost works = text::texts(all@);
    let ghost hit = text::texts(affected@);
    let mut k: usize = 0;
    while k < all.len()
        invariant
            k <= all.len(),
            works == text::texts(all@),
            hit == text::texts(affected@),
            order::lists_exactly(
                text::texts(out@),
                |w: Seq<char>| works.take(k as int).contains(w) && !hit.contains(w),
            ),
        decreases all.len() - k,
    {
        let work = all[k].as_str();
        proof {
            assert(works[k as int] == work@);
            order::take_one_more(works, k as int);
        }
        if !order::member(affected, work) {
            order::insert(&mut out, work);
        }
        k = k + 1;
    }
    assert(works.take(k as int) =~= works);
    out
}

/// The relations of a list, as documents.
pub open spec fn relation_doc(relation: CancelSplitRelation) -> JsonView {
    JsonView::Obj(
        json::no_fields().push(("kind"@, JsonView::Str(relation.kind@))).push(
            ("from_work_id"@, JsonView::Str(relation.from_work_id@)),
        ).push(("to_work_id"@, JsonView::Str(relation.to_work_id@))),
    )
}

/// A planning change, as a document.
pub open spec fn change_doc(change: ScopedPlanningChange) -> JsonView {
    JsonView::Obj(
        json::no_fields().push(("change_id"@, JsonView::Str(change.change_id@))).push(
            ("discovered_by"@, JsonView::Str(change.discovered_by@)),
        ).push(("old_graph_version"@, JsonView::Str(change.old_graph_version@))).push(
            ("new_graph_version"@, JsonView::Str(change.new_graph_version@)),
        ).push(("old_acceptance_contract"@, JsonView::Str(change.old_acceptance_contract@))).push(
            ("new_acceptance_contract"@, JsonView::Str(change.new_acceptance_contract@)),
        ).push(
            ("affected_work_ids"@, json::text_items(text::texts(change.affected_work_ids@))),
        ).push(
            (
                "cancel_split_relations"@,
                JsonView::Arr(
                    change.cancel_split_relations@.map_values(
                        |c: CancelSplitRelation| relation_doc(c),
                    ),
                ),
            ),
        ).push(
            ("continue_conditions"@, json::text_items(text::texts(change.continue_conditions@))),
        ).push(("status"@, JsonView::Str(change.status@))).push(
            ("confirmed_by"@, json::opt_item(text::opt(change.confirmed_by))),
        ),
    )
}

fn relation_document(c: &CancelSplitRelation) -> (r: Json)
    ensures
        r.model() == relation_doc(*c),
{
    Doc::new().put("kind", json::text(c.kind.as_str())).put(
        "from_work_id",
        json::text(c.from_work_id.as_str()),
    ).put("to_work_id", json::text(c.to_work_id.as_str())).json()
}

/// The relations of a planning change, as a document.
pub fn relations_document(relations: &[CancelSplitRelation]) -> (r: Json)
    ensures
        r.model() == JsonView::Arr(
            relations@.map_values(|c: CancelSplitRelation| relation_doc(c)),
        ),
{
    json::list_of(relations, relation_document, Ghost(|c: CancelSplitRelation| relation_doc(c)))
}

/// A planning change, as a document.
pub fn change_document(change: &ScopedPlanningChange) -> (r: Json)
    ensures
        r.model() == change_doc(*change),
{
    Doc::new().put("change_id", json::text(change.change_id.as_str())).put(
        "discovered_by",
        json::text(change.discovered_by.as_str()),
    ).put("old_graph_version", json::text(change.old_graph_version.as_str())).put(
        "new_graph_version",
        json::text(change.new_graph_version.as_str()),
    ).put("old_acceptance_contract", json::text(change.old_acceptance_contract.as_str())).put(
        "new_acceptance_contract",
        json::text(change.new_acceptance_contract.as_str()),
    ).put("affected_work_ids", json::text_list(change.affected_work_ids.as_slice())).put(
        "cancel_split_relations",
        relations_document(change.cancel_split_relations.as_slice()),
    ).put("continue_conditions", json::text_list(change.continue_conditions.as_slice())).put(
        "status",
        json::text(change.status.as_str()),
    ).put("confirmed_by", json::opt_text(text::as_opt_str(&change.confirmed_by))).json()
}

fn copy_relations(list: &Vec<CancelSplitRelation>) -> (r: Vec<CancelSplitRelation>)
    ensures
        r@ == list@,
{
    let mut out: Vec<CancelSplitRelation> = Vec::new();
    let mut i: usize = 0;
    while i < list.len()
        invariant
            i <= list.len(),
            out@ == list@.take(i as int),
        decreases list.len() - i,
    {
        out.push(list[i].copy());
        i = i + 1;
        assert(out@ =~= list@.take(i as int));
    }
    assert(out@ =~= list@);
    out
}

/// The name of the decision on a planning change, as an operation.
pub open spec fn decision_op(confirm: bool) -> Seq<char> {
    if confirm {
        "confirm_planning_change"@
    } else {
        "reject_planning_change"@
    }
}

impl SelectiveInvalidationStore {
    pub fn new(url: &str) -> (r: SelectiveInvalidationStore)
        ensures
            r.pool.address() == url@,
    {
        SelectiveInvalidationStore { pool: PgPool::new(url) }
    }

    /// Whether an invalidation request is answered again, goes on, or is refused.
    pub fn admit_selective_invalidation(
        &self,
        req: &SelectiveInvalidateRequest,
        stored: Option<&ReceiptRow>,
    ) -> (r: PgResult<Option<SelectiveInvalidationReceipt>>)
        ensures
            lookup_view(r) == (if req.now_ms < 0 || req.request_key@.len() == 0
                || req.event_id@.len() == 0 {
                Err(Fault::Protocol("invalid selective invalidate request"@))
            } else {
                receipt_lookup(stored, "selective_invalidate"@)
            }),
    {
        if req.now_ms < 0 || req.request_key.as_str().is_empty() || req.event_id.as_str().is_empty() {
            return Err(protocol("invalid selective invalidate request"));
        }
        load_receipt(stored, "selective_invalidate")
    }

    /// The invalidation that an admitted request asks for. Only the bindings of works that look
    /// again become invalid; a work that keeps its dependency by a fixed delivery keeps its binding.
    pub fn apply_selective_invalidation(&self, req: &SelectiveInvalidateRequest) -> (r: Invalidation)
        ensures
            is_plan(
                r.plan,
                req.provider_work_id@,
                req.change,
                req.consumers@,
                text::texts(req.all_project_work_ids@),
            ),
            order::lists_exactly(
                text::texts(r.invalidated@),
                |w: Seq<char>| loses_binding(r.plan, w),
            ),
            r.body.model() == plan_doc(r.plan),
            r.receipt@ == fresh_receipt(
                req.request_key@,
                req.event_id@,
                "selective_invalidate"@,
                req.now_ms,
            ),
    {
        let plan = select_downstream_reevaluation(
            req.provider_work_id.as_str(),
            req.change,
            req.consumers.as_slice(),
            req.all_project_work_ids.as_slice(),
        );
        let body = Doc::new().put(
            "provider_work_id",
            json::text(plan.provider_work_id.as_str()),
        ).put("change", json::text(plan.change.as_str())).put(
            "reevaluate",
            json::text_list(plan.reevaluate.as_slice()),
        ).put("leave_valid", json::text_list(plan.leave_valid.as_slice())).put(
            "unaffected_work_ids",
            json::text_list(plan.unaffected_work_ids.as_slice()),
        ).json();
        let receipt = new_receipt(
            req.request_key.as_str(),
            req.event_id.as_str(),
            "selective_invalidate",
            req.now_ms,
        );
        let invalidated = losing_binding(&plan);
        Invalidation { plan, invalidated, body, receipt }
    }

    /// A stored plan.
    pub fn load_plan(
        &self,
        provider_work_id: String,
        change_kind: &str,
        reevaluate: Vec<String>,
        leave_valid: Vec<String>,
        unaffected_work_ids: Vec<String>,
    ) -> (r: PgResult<SelectiveInvalidationPlan>)
        ensures
            match r {
                Ok(plan) => {
                    &&& plan.change.name() == change_kind@
                    &&& plan.provider_work_id == provider_work_id
                    &&& plan.reevaluate == reevaluate
                    &&& plan.leave_valid == leave_valid
                    &&& plan.unaffected_work_ids == unaffected_work_ids
                },
                Err(e) => e@ == Fault::Protocol("unknown provider change kind"@)
                    && forall|k: ProviderChangeKind| #[trigger] k.name() != change_kind@,
            },
    {
        match ProviderChangeKind::parse(change_kind) {
            Ok(change) => Ok(
                SelectiveInvalidationPlan {
                    provider_work_id,
                    change,
                    reevaluate,
                    leave_valid,
                    unaffected_work_ids,
                },
            ),
            Err(e) => Err(e),
        }
    }

    /// Whether a revalidation request is answered again, goes on, or is refused.
    pub fn admit_boundary_revalidation(
        &self,
        req: &BoundaryRevalidateRequest,
        stored: Option<&ReceiptRow>,
    ) -> (r: PgResult<Option<SelectiveInvalidationReceipt>>)
        ensures
            lookup_view(r) == (if req.now_ms < 0 || req.request_key@.len() == 0
                || req.check_id@.len() == 0 {
                Err(Fault::Protocol("invalid boundary revalidate request"@))
            } else {
                receipt_lookup(stored, "boundary_revalidate"@)
            }),
    {
        if req.now_ms < 0 || req.request_key.as_str().is_empty() || req.check_id.as_str().is_empty() {
            return Err(protocol("invalid boundary revalidate request"));
        }
        load_receipt(stored, "boundary_revalidate")
    }

    /// The revalidation that an admitted request asks for, given how many planning blocks and
    /// invalid bindings the work has at that moment. Either counts as a revocation.
    pub fn revalidate_boundary(
        &self,
        req: &BoundaryRevalidateRequest,
        planning_blocks: i64,
        invalid_bindings: i64,
    ) -> (r: Revalidation)
        ensures
            ({
                let stopped = planning_blocks > 0 || invalid_bindings > 0;
                &&& r.decision@ == revalidated(
                    req.snapshot.boundary,
                    req.snapshot.dependencies_satisfied && !stopped,
                    req.snapshot.revoke_or_invalidation_observed || stopped,
                    req.snapshot.has_real_effects,
                )
                &&& r.body.model() == boundary_doc(req.snapshot, r.decision@)
                &&& r.receipt@ == fresh_receipt(
                    req.request_key@,
                    req.check_id@,
                    "boundary_revalidate"@,
                    req.now_ms,
                )
            }),
    {
        let stopped = planning_blocks > 0 || invalid_bindings > 0;
        let snapshot = BoundarySnapshot {
            boundary: req.snapshot.boundary,
            work_id: req.snapshot.work_id.clone(),
            execution_id: text::copy_opt(&req.snapshot.execution_id),
            dependencies_satisfied: req.snapshot.dependencies_satisfied && !stopped,
            revoke_or_invalidation_observed: req.snapshot.revoke_or_invalidation_observed
                || stopped,
            has_real_effects: req.snapshot.has_real_effects,
            unrelated_work_ids: text::copy_list(req.snapshot.unrelated_work_ids.as_slice()),
        };
        let decision = revalidate_execution_boundary(&snapshot);
        let body = Doc::new().put("work_id", json::text(snapshot.work_id.as_str())).put(
            "execution_id",
            json::opt_text(text::as_opt_str(&snapshot.execution_id)),
        ).put("boundary", json::text(snapshot.boundary.as_str())).put(
            "decision",
            json::text(decision.decision.as_str()),
        ).put("recovery_duty", json::flag(decision.recovery_duty)).put(
            "erase_effects",
            json::flag(decision.erase_effects),
        ).put("unrelated_may_continue", json::flag(decision.unrelated_may_continue)).put(
            "reason",
            json::text(decision.reason.as_str()),
        ).put("unrelated_work_ids", json::text_list(snapshot.unrelated_work_ids.as_slice())).json();
        let receipt = new_receipt(
            req.request_key.as_str(),
            req.check_id.as_str(),
            "boundary_revalidate",
            req.now_ms,
        );
        Revalidation { decision, body, receipt }
    }

    /// A stored revalidation.
    pub fn load_boundary(
        &self,
        decision: &str,
        recovery_duty: bool,
        erase_effects: bool,
        unrelated_may_continue: bool,
        reason: String,
    ) -> (r: PgResult<BoundaryRevalidation>)
        ensures
            match r {
                Ok(b) => {
                    &&& b.decision.name() == decision@
                    &&& b.recovery_duty == recovery_duty
                    &&& b.erase_effects == erase_effects
                    &&& b.unrelated_may_continue == unrelated_may_continue
                    &&& b.reason == reason
                },
                Err(e) => e@ == Fault::Protocol("unknown boundary decision"@)
                    && forall|d: BoundaryDecision| #[trigger] d.name() != decision@,
            },
    {
        match BoundaryDecision::parse(decision) {
            Ok(d) => Ok(
                BoundaryRevalidation {
                    decision: d,
                    recovery_duty,
                    erase_effects,
                    unrelated_may_continue,
                    reason,
                },
            ),
            Err(e) => Err(e),
        }
    }

    /// Whether a planning change is answered again, goes on, or is refused.
    pub fn admit_planning_change(
        &self,
        req: &RecordPlanningChangeRequest,
        stored: Option<&ReceiptRow>,
    ) -> (r: PgResult<Option<SelectiveInvalidationReceipt>>)
        ensures
            lookup_view(r) == (if req.now_ms < 0 || req.request_key@.len() == 0
                || req.change_id@.len() == 0 || req.affected_work_ids@.len() == 0 {
                Err(Fault::Protocol("invalid planning change request"@))
            } else if req.old_graph_version@ == req.new_graph_version@
                && req.old_acceptance_contract@ == req.new_acceptance_contract@ {
                Err(Fault::Protocol("planning change must alter graph or acceptance contract"@))
            } else {
                receipt_lookup(stored, "record_planning_change"@)
            }),
    {
        if req.now_ms < 0 || req.request_key.as_str().is_empty() || req.change_id.as_str().is_empty()
            || req.affected_work_ids.len() == 0 {
            return Err(protocol("invalid planning change request"));
        }
        if text::same(req.old_graph_version.as_str(), req.new_graph_version.as_str()) && text::same(
            req.old_acceptance_contract.as_str(),
            req.new_acceptance_contract.as_str(),
        ) {
            return Err(protocol("planning change must alter graph or acceptance contract"));
        }
        load_receipt(stored, "record_planning_change")
    }

    /// The planning change that an admitted request records. Its works are blocked until it is
    /// decided.
    pub fn record_planning_change(&self, req: &RecordPlanningChangeRequest) -> (r: RecordedChange)
        ensures
            order::ascending(text::texts(r.change.affected_work_ids@)),
            order::same_members(
                text::texts(r.change.affected_work_ids@),
                text::texts(req.affected_work_ids@),
            ),
            order::lists_exactly(
                text::texts(r.unrelated@),
                |w: Seq<char>|
                    text::texts(req.all_project_work_ids@).contains(w) && !text::texts(
                        req.affected_work_ids@,
                    ).contains(w),
            ),
            r.change.change_id == req.change_id,
            r.change.discovered_by == req.discovered_by,
            r.change.old_graph_version == req.old_graph_version,
            r.change.new_graph_version == req.new_graph_version,
            r.change.old_acceptance_contract == req.old_acceptance_contract,
            r.change.new_acceptance_contract == req.new_acceptance_contract,
            r.change.cancel_split_relations@ == req.cancel_split_relations@,
            r.change.continue_conditions@ == req.continue_conditions@,
            r.change.status@ == "affected_blocked"@,
            r.change.confirmed_by is None,
            r.body.model() == change_doc(r.change),
            r.receipt@ == fresh_receipt(
                req.request_key@,
                req.change_id@,
                "record_planning_change"@,
                req.now_ms,
            ),
    {
        let affected = order::distinct(req.affected_work_ids.as_slice());
        let unrelated = unrelated_of(affected.as_slice(), req.all_project_work_ids.as_slice());
        let change = ScopedPlanningChange {
            change_id: req.change_id.clone(),
            discovered_by: req.discovered_by.clone(),
            old_graph_version: req.old_graph_version.clone(),
            new_graph_version: req.new_graph_version.clone(),
            old_acceptance_contract: req.old_acceptance_contract.clone(),
            new_acceptance_contract: req.new_acceptance_contract.clone(),
            affected_work_ids: affected,
            cancel_split_relations: copy_relations(&req.cancel_split_relations),
            continue_conditions: text::copy_list(req.continue_conditions.as_slice()),
            status: "affected_blocked".to_owned(),
            confirmed_by: None,
        };
        let body = change_document(&change);
        let receipt = new_receipt(
            req.request_key.as_str(),
            req.change_id.as_str(),
            "record_planning_change",
            req.now_ms,
        );
        RecordedChange { change, unrelated, body, receipt }
    }

    /// Whether a decision on a planning change is answered again, goes on, or is refused.
    pub fn admit_planning_decision(
        &self,
        req: &DecidePlanningChangeRequest,
        confirm: bool,
        stored: Option<&ReceiptRow>,
    ) -> (r: PgResult<Option<SelectiveInvalidationReceipt>>)
        ensures
            lookup_view(r) == (if req.now_ms < 0 || req.request_key@.len() == 0
                || req.actor_id@.len() == 0 {
                Err(Fault::Protocol("invalid planning decision request"@))
            } else {
                receipt_lookup(stored, decision_op(confirm))
            }),
    {
        if req.now_ms < 0 || req.request_key.as_str().is_empty() || req.actor_id.as_str().is_empty() {
            return Err(protocol("invalid planning decision request"));
        }
        load_receipt(
            stored,
            if confirm {
                "confirm_planning_change"
            } else {
                "reject_planning_change"
            },
        )
    }

    /// The decision on a planning change of the given status. Only a change that still blocks
    /// its works can be decided; either decision lifts the blocks.
    pub fn decide_planning_change(
        &self,
        req: &DecidePlanningChangeRequest,
        confirm: bool,
        current_status: Option<&str>,
    ) -> (r: PgResult<ChangeDecision>)
        ensures
            match r {
                Ok(d) => {
                    &&& current_status is Some
                    &&& current_status->Some_0@ == "affected_blocked"@
                    &&& d.status@ == (if confirm {
                        "confirmed"@
                    } else {
                        "rejected"@
                    })
                    &&& d.confirmed_by == req.actor_id
                    &&& d.receipt@ == fresh_receipt(
                        req.request_key@,
                        req.change_id@,
                        decision_op(confirm),
                        req.now_ms,
                    )
                },
                Err(e) => match current_status {
                    None => e@ == Fault::Protocol("planning change missing"@),
                    Some(s) => s@ != "affected_blocked"@ && e@ == Fault::Protocol(
                        "only affected_blocked planning changes can be decided"@,
                    ),
                },
            },
    {
        match current_status {
            None => Err(protocol("planning change missing")),
            Some(status) => {
                if !text::same(status, "affected_blocked") {
                    return Err(protocol("only affected_blocked planning changes can be decided"));
                }
                let op = if confirm {
                    "confirm_planning_change"
                } else {
                    "reject_planning_change"
                };
                Ok(
                    ChangeDecision {
                        status: (if confirm {
                            "confirmed"
                        } else {
                            "rejected"
                        }).to_owned(),
                        confirmed_by: req.actor_id.clone(),
                        receipt: new_receipt(
                            req.request_key.as_str(),
                            req.change_id.as_str(),
                            op,
                            req.now_ms,
                        ),
                    },
                )
            },
        }
    }
}

/// Planning blocks and invalid bindings stop an execution, whatever its request says.
pub proof fn open_blocks_never_pass(
    boundary: ExecutionBoundary,
    satisfied: bool,
    revoked: bool,
    has_effects: bool,
    planning_blocks: i64,
    invalid_bindings: i64,
)
    requires
        planning_blocks > 0 || invalid_bindings > 0,
    ensures
        ({
            let stopped = planning_blocks > 0 || invalid_bindings > 0;
            !(revalidated(boundary, satisfied && !stopped, revoked || stopped, has_effects).decision
                is Allow)
        }),
{
}

/// A planning change is decided once: the status that either decision gives is none that can
/// be decided.
pub proof fn a_change_is_decided_once(confirm: bool)
    ensures
        (if confirm {
            "confirmed"@
        } else {
            "rejected"@
        }) != "affected_blocked"@,
{
    reveal_strlit("confirmed");
    reveal_strlit("rejected");
    reveal_strlit("affected_blocked");
    assert("confirmed"@.len() == 9);
    assert("rejected"@.len() == 8);
    assert("affected_blocked"@.len() == 16);
}

/// The works that a planning change touches and those that it leaves alone are the works of
/// the project, each in one of the two lists.
pub proof fn affected_and_unrelated_part_the_project(
    affected: Seq<Seq<char>>,
    unrelated: Seq<Seq<char>>,
    works: Seq<Seq<char>>,
    work: Seq<char>,
)
    requires
        order::lists_exactly(
            unrelated,
            |w: Seq<char>| works.contains(w) && !affected.contains(w),
        ),
        works.contains(work),
    ensures
        unrelated.contains(work) <==> !affected.contains(work),
{
}

/// At every boundary an execution goes on exactly where its dependencies are satisfied and nothing was
/// revoked. One that may not go on and has real effects keeps them, and a recovery is owed; without
/// real effects it is kept from having any, and nothing is owed.
pub proof fn real_effects_are_recovered(
    boundary: ExecutionBoundary,
    satisfied: bool,
    revoked: bool,
    has_effects: bool,
)
    ensures
        ({
            let r = revalidated(boundary, satisfied, revoked, has_effects);
            &&& r.decision is Allow <==> satisfied && !revoked
            &&& r.decision is KeepEffectsAssignRecovery <==> has_effects && !(satisfied && !revoked)
            &&& r.decision is BlockNewEffects <==> !has_effects && !(satisfied && !revoked)
            &&& r.recovery_duty <==> has_effects && !(satisfied && !revoked)
            &&& !r.erase_effects
            &&& r.unrelated_may_continue
            &&& r.reason.len() > 0
        }),
        revalidated(boundary, satisfied, true, has_effects).decision == revalidated(
            boundary,
            false,
            revoked,
            has_effects,
        ).decision,
{
    reveal_strlit("dependencies satisfied at boundary");
    reveal_strlit("mid-execution invalidation retains effects and recovery duty");
    reveal_strlit("prepare revalidation blocked revoke/stale race");
    reveal_strlit("dispatch revalidation blocked revoke/stale race");
    reveal_strlit("complete revalidation blocked revoke/stale race");
    assert("dependencies satisfied at boundary"@[0] == 'd');
    assert("mid-execution invalidation retains effects and recovery duty"@[0] == 'm');
    assert("prepare revalidation blocked revoke/stale race"@[0] == 'p');
    assert("dispatch revalidation blocked revoke/stale race"@[0] == 'd');
    assert("complete revalidation blocked revoke/stale race"@[0] == 'c');
}

/// What a boundary is told for a reason: that the dependencies hold, that effects are kept, or which
/// boundary was blocked.
pub proof fn boundaries_tell_why(boundary: ExecutionBoundary, satisfied: bool, revoked: bool)
    ensures
        revalidated(boundary, true, false, satisfied).reason == "dependencies satisfied at boundary"@,
        revalidated(boundary, satisfied, true, true).reason
            == "mid-execution invalidation retains effects and recovery duty"@,
        revalidated(boundary, false, revoked, false).reason == boundary.name()
            + " revalidation blocked revoke/stale race"@,
{
    reveal_strlit("prepare");
    reveal_strlit("dispatch");
    reveal_strlit("complete");
    reveal_strlit(" revalidation blocked revoke/stale race");
    reveal_strlit("prepare revalidation blocked revoke/stale race");
    reveal_strlit("dispatch revalidation blocked revoke/stale race");
    reveal_strlit("complete revalidation blocked revoke/stale race");
    let tail = " revalidation blocked revoke/stale race"@;
    assert("prepare"@ + tail =~= "prepare revalidation blocked revoke/stale race"@);
    assert("dispatch"@ + tail =~= "dispatch revalidation blocked revoke/stale race"@);
    assert("complete"@ + tail =~= "complete revalidation blocked revoke/stale race"@);
}

/// The names under which changes, boundaries and decisions are stored.
pub proof fn stored_names_are_spelled()
    ensures
        ProviderChangeKind::NewVersionOrProgress.name() == "new_version_or_progress"@,
        ProviderChangeKind::CurrentSelectionChanged.name() == "current_selection_changed"@,
        ProviderChangeKind::DeliveryRevoked.name() == "delivery_revoked"@,
        ProviderChangeKind::PinnedArtifactUnavailable.name() == "pinned_artifact_unavailable"@,
        ExecutionBoundary::Prepare.name() == "prepare"@,
        ExecutionBoundary::Dispatch.name() == "dispatch"@,
        ExecutionBoundary::Complete.name() == "complete"@,
        BoundaryDecision::Allow.name() == "allow"@,
        BoundaryDecision::BlockNewEffects.name() == "block_new_effects"@,
        BoundaryDecision::KeepEffectsAssignRecovery.name() == "keep_effects_assign_recovery"@,
{
}

/// Which list of a plan a dependency on the provider puts its work into, by the fields of the
/// dependency. A work that depends on another provider only is in neither.
pub proof fn dependencies_decide_the_plan(
    plan: SelectiveInvalidationPlan,
    provider: Seq<char>,
    change: ProviderChangeKind,
    edges: Seq<AdoptedConsumerEdge>,
    works: Seq<Seq<char>>,
    i: int,
    work: Seq<char>,
)
    requires
        is_plan(plan, provider, change, edges, works),
        0 <= i < edges.len(),
    ensures
        edges[i].provider_work_id@ == provider && edges[i].policy@ == "fixed_delivery"@
            && edges[i].credential_status@ != "revoked"@ && edges[i].assessment_status@ != "revoked"@
            && (change is NewVersionOrProgress || change is CurrentSelectionChanged) ==> text::texts(
            plan.leave_valid@,
        ).contains(edges[i].consumer_work_id@),
        edges[i].provider_work_id@ == provider ==> !text::texts(plan.unaffected_work_ids@).contains(
            edges[i].consumer_work_id@,
        ),
        (forall|k: int|
            0 <= k < edges.len() && (#[trigger] edges[k]).consumer_work_id@ == work
                ==> edges[k].provider_work_id@ != provider) ==> !text::texts(plan.reevaluate@).contains(
            work,
        ) && !text::texts(plan.leave_valid@).contains(work) && (works.contains(work) && work != provider
            ==> text::texts(plan.unaffected_work_ids@).contains(work)),
        (change is DeliveryRevoked || change is PinnedArtifactUnavailable)
            ==> !text::texts(plan.leave_valid@).contains(work),
        !text::texts(plan.unaffected_work_ids@).contains(provider),
        text::texts(plan.unaffected_work_ids@).contains(work) ==> works.contains(work),
        plan.provider_work_id@ == provider,
        plan.change == change,
{
    if edges[i].provider_work_id@ == provider {
        assert(consumes(edges, provider, edges[i].consumer_work_id@));
        assert(consumes_and(
            edges,
            provider,
            change,
            must_reevaluate(edges[i], change),
            edges[i].consumer_work_id@,
        ));
    }
}

/// A binding becomes invalid by a plan where its work looks again and keeps nothing. That holds of
/// every work that depends on a provider whose delivery was revoked.
pub proof fn revocations_invalidate_bindings(
    plan: SelectiveInvalidationPlan,
    provider: Seq<char>,
    edges: Seq<AdoptedConsumerEdge>,
    works: Seq<Seq<char>>,
    i: int,
    upstream: Seq<char>,
    valid: bool,
)
    requires
        is_plan(plan, provider, ProviderChangeKind::DeliveryRevoked, edges, works),
        0 <= i < edges.len(),
        edges[i].provider_work_id@ == provider,
    ensures
        loses_binding(plan, edges[i].consumer_work_id@),
        !binding_after(plan, edges[i].consumer_work_id@, provider, valid),
        upstream != provider ==> binding_after(plan, edges[i].consumer_work_id@, upstream, valid)
            == valid,
{
    assert(consumes_and(
        edges,
        provider,
        ProviderChangeKind::DeliveryRevoked,
        true,
        edges[i].consumer_work_id@,
    ));
}

/// A receipt that is stored answers its request again for the same operation only, and is marked as
/// given before. A new one is of its request and time.
pub proof fn receipts_answer_one_operation(row: ReceiptRow, op: Seq<char>, key: Seq<char>, now: i64)
    ensures
        receipt_lookup(None, op) == Ok::<Option<ReceiptView>, Fault>(None),
        row.op@ != op ==> receipt_lookup(Some(&row), op) == Err::<Option<ReceiptView>, Fault>(
            Fault::IdempotencyConflict,
        ),
        row.op@ == op ==> (receipt_lookup(Some(&row), op) matches Ok(Some(r)) && r.replayed
            && r.request_key == row.request_key@ && r.subject_id == row.subject_id@ && r.op == op
            && r.event_id == row.event_id@ && r.created_at_ms == row.created_at_ms),
        ({
            let r = fresh_receipt(key, row.subject_id@, op, now);
            &&& !r.replayed
            &&& r.request_key == key
            &&& r.subject_id == row.subject_id@
            &&& r.event_id == row.subject_id@
            &&& r.op == op
            &&& r.created_at_ms == now
        }),
        decision_op(true) == "confirm_planning_change"@,
        decision_op(false) == "reject_planning_change"@,
{
}

/// A plan is told with each of its lists under its own name.
pub proof fn plans_are_told(plan: SelectiveInvalidationPlan)
    ensures
        json::field(plan_doc(plan), "provider_work_id"@) == Some(JsonView::Str(plan.provider_work_id@)),
        json::field(plan_doc(plan), "change"@) == Some(JsonView::Str(plan.change.name())),
        json::field(plan_doc(plan), "reevaluate"@) == Some(json::text_items(text::texts(plan.reevaluate@))),
        json::field(plan_doc(plan), "leave_valid"@) == Some(json::text_items(text::texts(plan.leave_valid@))),
        json::field(plan_doc(plan), "unaffected_work_ids"@) == Some(json::text_items(text::texts(plan.unaffected_work_ids@))),
{
    reveal_strlit("provider_work_id");
    reveal_strlit("change");
    reveal_strlit("reevaluate");
    reveal_strlit("leave_valid");
    reveal_strlit("unaffected_work_ids");
    assert("provider_work_id"@.len() == 16);
    assert("change"@.len() == 6);
    assert("reevaluate"@.len() == 10);
    assert("leave_valid"@.len() == 11);
    assert("unaffected_work_ids"@.len() == 19);
    let f = plan_doc(plan)->Obj_0;
    json::field_is_first(f, "provider_work_id"@, 0);
    json::field_is_first(f, "change"@, 1);
    json::field_is_first(f, "reevaluate"@, 2);
    json::field_is_first(f, "leave_valid"@, 3);
    json::field_is_first(f, "unaffected_work_ids"@, 4);
}

/// A check at a boundary is told with its work, its decision and what is owed.
pub proof fn boundary_checks_are_told(snapshot: BoundarySnapshot, decision: RevalidationView)
    ensures
        json::field(boundary_doc(snapshot, decision), "work_id"@) == Some(JsonView::Str(snapshot.work_id@)),
        json::field(boundary_doc(snapshot, decision), "execution_id"@) == Some(json::opt_item(text::opt(snapshot.execution_id))),
        json::field(boundary_doc(snapshot, decision), "boundary"@) == Some(JsonView::Str(snapshot.boundary.name())),
        json::field(boundary_doc(snapshot, decision), "decision"@) == Some(JsonView::Str(decision.decision.name())),
        json::field(boundary_doc(snapshot, decision), "recovery_duty"@) == Some(JsonView::Bool(decision.recovery_duty)),
        json::field(boundary_doc(snapshot, decision), "erase_effects"@) == Some(JsonView::Bool(decision.erase_effects)),
        json::field(boundary_doc(snapshot, decision), "unrelated_may_continue"@) == Some(JsonView::Bool(decision.unrelated_may_continue)),
        json::field(boundary_doc(snapshot, decision), "reason"@) == Some(JsonView::Str(decision.reason)),
        json::field(boundary_doc(snapshot, decision), "unrelated_work_ids"@) == Some(json::text_items(text::texts(snapshot.unrelated_work_ids@))),
{
    reveal_strlit("work_id");
    reveal_strlit("execution_id");
    reveal_strlit("boundary");
    reveal_strlit("decision");
    reveal_strlit("recovery_duty");
    reveal_strlit("erase_effects");
    reveal_strlit("unrelated_may_continue");
    reveal_strlit("reason");
    reveal_strlit("unrelated_work_ids");
    assert("work_id"@.len() == 7);
    assert("execution_id"@.len() == 12);
    assert("boundary"@.len() == 8);
    assert("decision"@.len() == 8);
    assert("recovery_duty"@.len() == 13);
    assert("erase_effects"@.len() == 13);
    assert("unrelated_may_continue"@.len() == 22);
    assert("reason"@.len() == 6);
    assert("unrelated_work_ids"@.len() == 18);
    assert("boundary"@[0] == 'b');
    assert("decision"@[0] == 'd');
    assert("recovery_duty"@[0] == 'r');
    assert("erase_effects"@[0] == 'e');
    let f = boundary_doc(snapshot, decision)->Obj_0;
    json::field_is_first(f, "work_id"@, 0);
    json::field_is_first(f, "execution_id"@, 1);
    json::field_is_first(f, "boundary"@, 2);
    json::field_is_first(f, "decision"@, 3);
    json::field_is_first(f, "recovery_duty"@, 4);
    json::field_is_first(f, "erase_effects"@, 5);
    json::field_is_first(f, "unrelated_may_continue"@, 6);
    json::field_is_first(f, "reason"@, 7);
    json::field_is_first(f, "unrelated_work_ids"@, 8);
}

/// A relation is told with its kind and the works that it leads from and to.
pub proof fn relations_are_told(relation: CancelSplitRelation)
    ensures
        json::field(relation_doc(relation), "kind"@) == Some(JsonView::Str(relation.kind@)),
        json::field(relation_doc(relation), "from_work_id"@) == Some(JsonView::Str(relation.from_work_id@)),
        json::field(relation_doc(relation), "to_work_id"@) == Some(JsonView::Str(relation.to_work_id@)),
{
    reveal_strlit("kind");
    reveal_strlit("from_work_id");
    reveal_strlit("to_work_id");
    assert("kind"@.len() == 4);
    assert("from_work_id"@.len() == 12);
    assert("to_work_id"@.len() == 10);
    let f = relation_doc(relation)->Obj_0;
    json::field_is_first(f, "kind"@, 0);
    json::field_is_first(f, "from_work_id"@, 1);
    json::field_is_first(f, "to_work_id"@, 2);
}

/// A planning change is told with what it was and what it became, each under its own name.
pub proof fn planning_changes_are_told(change: ScopedPlanningChange)
    ensures
        json::field(change_doc(change), "change_id"@) == Some(JsonView::Str(change.change_id@)),
        json::field(change_doc(change), "discovered_by"@) == Some(JsonView::Str(change.discovered_by@)),
        json::field(change_doc(change), "old_graph_version"@) == Some(JsonView::Str(change.old_graph_version@)),
        json::field(change_doc(change), "new_graph_version"@) == Some(JsonView::Str(change.new_graph_version@)),
        json::field(change_doc(change), "old_acceptance_contract"@) == Some(JsonView::Str(change.old_acceptance_contract@)),
        json::field(change_doc(change), "new_acceptance_contract"@) == Some(JsonView::Str(change.new_acceptance_contract@)),
        json::field(change_doc(change), "affected_work_ids"@) == Some(json::text_items(text::texts(change.affected_work_ids@))),
        json::field(change_doc(change), "cancel_split_relations"@) == Some(JsonView::Arr( change.cancel_split_relations@.map_values( |c: CancelSplitRelation| relation_doc(c), ), )),
        json::field(change_doc(change), "continue_conditions"@) == Some(json::text_items(text::texts(change.continue_conditions@))),
        json::field(change_doc(change), "status"@) == Some(JsonView::Str(change.status@)),
        json::field(change_doc(change), "confirmed_by"@) == Some(json::opt_item(text::opt(change.confirmed_by))),
{
    reveal_strlit("change_id");
    reveal_strlit("discovered_by");
    reveal_strlit("old_graph_version");
    reveal_strlit("new_graph_version");
    reveal_strlit("old_acceptance_contract");
    reveal_strlit("new_acceptance_contract");
    reveal_strlit("affected_work_ids");
    reveal_strlit("cancel_split_relations");
    reveal_strlit("continue_conditions");
    reveal_strlit("status");
    reveal_strlit("confirmed_by");
    assert("change_id"@.len() == 9);
    assert("discovered_by"@.len() == 13);
    assert("old_graph_version"@.len() == 17);
    assert("new_graph_version"@.len() == 17);
    assert("old_acceptance_contract"@.len() == 23);
    assert("new_acceptance_contract"@.len() == 23);
    assert("affected_work_ids"@.len() == 17);
    assert("cancel_split_relations"@.len() == 22);
    assert("continue_conditions"@.len() == 19);
    assert("status"@.len() == 6);
    assert("confirmed_by"@.len() == 12);
    assert("old_graph_version"@[0] == 'o');
    assert("new_graph_version"@[0] == 'n');
    assert("affected_work_ids"@[0] == 'a');
    assert("old_acceptance_contract"@[0] == 'o');
    assert("new_acceptance_contract"@[0] == 'n');
    let f = change_doc(change)->Obj_0;
    json::field_is_first(f, "change_id"@, 0);
    json::field_is_first(f, "discovered_by"@, 1);
    json::field_is_first(f, "old_graph_version"@, 2);
    json::field_is_first(f, "new_graph_version"@, 3);
    json::field_is_first(f, "old_acceptance_contract"@, 4);
    json::field_is_first(f, "new_acceptance_contract"@, 5);
    json::field_is_first(f, "affected_work_ids"@, 6);
    json::field_is_first(f, "cancel_split_relations"@, 7);
    json::field_is_first(f, "continue_conditions"@, 8);
    json::field_is_first(f, "status"@, 9);
    json::field_is_first(f, "confirmed_by"@, 10);
}

/// A receipt that is given again is the stored one, in each of its values, and says so.
pub proof fn stored_receipts_are_given_again(row: ReceiptRow)
    ensures
        replay_of(row).request_key == row.request_key@,
        replay_of(row).subject_id == row.subject_id@,
        replay_of(row).op == row.op@,
        replay_of(row).event_id == row.event_id@,
        replay_of(row).created_at_ms == row.created_at_ms,
        replay_of(row).replayed,
{
}

} // verus!
