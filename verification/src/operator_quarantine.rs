//! Recovery of active claims and of executions that have no workstream.
//!
//! These are the rows that history migration refuses. An active claim is released or
//! revoked; an execution that has not ended becomes unknown and blocks its work until
//! somebody reconciles it. Nothing here invents an executor, an actor or a receipt.
use crate::error;
use crate::error::{protocol, Fault, PgError, PgResult};
use crate::json;
use crate::json::{Doc, Json, JsonView};
use crate::operator_plan;
use crate::operator_plan::{
    Item,
    ItemView,
    Lists,
    OwnedWork,
    OwnershipBinding,
    ProjectRow,
    Target,
    TargetView,
};
use crate::operator_request;
use crate::text;
use vstd::prelude::*;

verus! {

pub const PROTOCOL: &'static str = "awr-operator-claim-execution-recovery-v1";

/// The refusal of a request of this command that is not well formed.
pub open spec fn invalid_request() -> Fault {
    Fault::Protocol("invalid operator claim/execution recovery request"@)
}

fn invalid() -> (r: PgError)
    ensures
        r@ == invalid_request(),
{
    protocol("invalid operator claim/execution recovery request")
}

/// What happens to an active claim that no ownership accounts for.
#[derive(Clone, Copy, Debug, PartialEq, Eq, Structural)]
pub enum ClaimDisposition {
    Release,
    Quarantine,
}

impl ClaimDisposition {
    /// The name of the disposition in requests.
    pub open spec fn name(self) -> Seq<char> {
        match self {
            ClaimDisposition::Release => "release"@,
            ClaimDisposition::Quarantine => "quarantine"@,
        }
    }

    pub fn parse(s: &str) -> (r: PgResult<ClaimDisposition>)
        ensures
            match r {
                Ok(d) => d.name() == s@,
                Err(e) => e@ == invalid_request() && forall|d: ClaimDisposition|
                    #[trigger] d.name() != s@,
            },
    {
        if text::same(s, "release") {
            Ok(ClaimDisposition::Release)
        } else if text::same(s, "quarantine") {
            Ok(ClaimDisposition::Quarantine)
        } else {
            Err(invalid())
        }
    }

    pub fn as_str(self) -> (r: &'static str)
        ensures
            r@ == self.name(),
    {
        match self {
            ClaimDisposition::Release => "release",
            ClaimDisposition::Quarantine => "quarantine",
        }
    }
}

/// Each disposition has a name of its own.
pub proof fn disposition_names_are_distinct(a: ClaimDisposition, b: ClaimDisposition)
    ensures
        a.name() == b.name() ==> a == b,
{
    reveal_strlit("release");
    reveal_strlit("quarantine");
    assert("release"@.len() == 7);
    assert("quarantine"@.len() == 10);
}

/// What is done about a claim.
#[derive(Clone, Debug, PartialEq, Eq)]
pub enum ClaimDecision {
    AttributeAndRelease {
        workstream_id: String,
        ownership_version: i64,
        coordinator_epoch: String,
    },
    Release,
    Quarantine,
    Refuse { reason: &'static str },
}

/// The model of a decision on a claim.
pub enum ClaimDecisionView {
    AttributeAndRelease {
        workstream_id: Seq<char>,
        ownership_version: i64,
        coordinator_epoch: Seq<char>,
    },
    Release,
    Quarantine,
    Refuse { reason: Seq<char> },
}

impl View for ClaimDecision {
    type V = ClaimDecisionView;

    open spec fn view(&self) -> ClaimDecisionView {
        match self {
            ClaimDecision::AttributeAndRelease {
                workstream_id,
                ownership_version,
                coordinator_epoch,
            } => ClaimDecisionView::AttributeAndRelease {
                workstream_id: workstream_id@,
                ownership_version: *ownership_version,
                coordinator_epoch: coordinator_epoch@,
            },
            ClaimDecision::Release => ClaimDecisionView::Release,
            ClaimDecision::Quarantine => ClaimDecisionView::Quarantine,
            ClaimDecision::Refuse { reason } => ClaimDecisionView::Refuse { reason: reason@ },
        }
    }
}

/// What is done about an execution.
#[derive(Clone, Debug, PartialEq, Eq)]
pub enum ExecutionDecision {
    QuarantineUnknown,
    Refuse { reason: &'static str },
}

/// The model of a decision on an execution.
pub enum ExecutionDecisionView {
    QuarantineUnknown,
    Refuse { reason: Seq<char> },
}

impl View for ExecutionDecision {
    type V = ExecutionDecisionView;

    open spec fn view(&self) -> ExecutionDecisionView {
        match self {
            ExecutionDecision::QuarantineUnknown => ExecutionDecisionView::QuarantineUnknown,
            ExecutionDecision::Refuse { reason } => ExecutionDecisionView::Refuse {
                reason: reason@,
            },
        }
    }
}

/// The decision on a claim: only active ones are touched; one without a workstream gets the
/// one that owns its work now and is released; any other follows the disposition.
pub open spec fn claim_decision(
    state: Seq<char>,
    attributed: bool,
    work_id: Seq<char>,
    ownership: Option<OwnershipBinding>,
    project_epoch: Seq<char>,
    disposition: ClaimDisposition,
) -> ClaimDecisionView {
    if state != "active"@ {
        ClaimDecisionView::Refuse { reason: "claim_not_active"@ }
    } else if !attributed && ownership is Some && work_id.len() > 0 && project_epoch.len() > 0 {
        ClaimDecisionView::AttributeAndRelease {
            workstream_id: ownership->Some_0.workstream_id@,
            ownership_version: ownership->Some_0.ownership_version,
            coordinator_epoch: project_epoch,
        }
    } else {
        match disposition {
            ClaimDisposition::Release => ClaimDecisionView::Release,
            ClaimDisposition::Quarantine => ClaimDecisionView::Quarantine,
        }
    }
}

/// An execution has ended.
pub open spec fn is_terminal(state: Seq<char>) -> bool {
    state == "succeeded"@ || state == "failed"@ || state == "cancelled"@
}

/// The decision on an execution: it is never attributed here; one that has not ended becomes
/// unknown.
pub open spec fn execution_decision(
    attributed: bool,
    state: Seq<char>,
    has_explicit_executor_client_id: bool,
) -> ExecutionDecisionView {
    if attributed {
        ExecutionDecisionView::Refuse { reason: "attributed_execution_use_execution_reconcile"@ }
    } else if has_explicit_executor_client_id {
        ExecutionDecisionView::Refuse { reason: "use_execution_attribution_protocol"@ }
    } else if is_terminal(state) {
        ExecutionDecisionView::Refuse {
            reason: "terminal_unattributed_execution_requires_explicit_attribution_protocol"@,
        }
    } else {
        ExecutionDecisionView::QuarantineUnknown
    }
}

pub fn classify_claim(
    state: &str,
    workstream_id: Option<&str>,
    work_id: &str,
    ownership: Option<&OwnershipBinding>,
    project_epoch: &str,
    disposition: ClaimDisposition,
) -> (r: ClaimDecision)
    ensures
        r@ == claim_decision(
            state@,
            workstream_id is Some,
            work_id@,
            operator_plan::binding_value(ownership),
            project_epoch@,
            disposition,
        ),
{
    if !text::same(state, "active") {
        return ClaimDecision::Refuse { reason: "claim_not_active" };
    }
    if workstream_id.is_none() {
        if let Some(o) = ownership {
            if !work_id.is_empty() && !project_epoch.is_empty() {
                return ClaimDecision::AttributeAndRelease {
                    workstream_id: o.workstream_id.clone(),
                    ownership_version: o.ownership_version,
                    coordinator_epoch: project_epoch.to_owned(),
                };
            }
        }
    }
    match disposition {
        ClaimDisposition::Release => ClaimDecision::Release,
        ClaimDisposition::Quarantine => ClaimDecision::Quarantine,
    }
}

pub fn classify_execution(
    workstream_id: Option<&str>,
    state: &str,
    _session_id: Option<&str>,
    _claim_id: Option<&str>,
    has_explicit_executor_client_id: bool,
) -> (r: ExecutionDecision)
    ensures
        r@ == execution_decision(
            workstream_id is Some,
            state@,
            has_explicit_executor_client_id,
        ),
{
    if workstream_id.is_some() {
        return ExecutionDecision::Refuse {
            reason: "attributed_execution_use_execution_reconcile",
        };
    }
    if has_explicit_executor_client_id {
        return ExecutionDecision::Refuse { reason: "use_execution_attribution_protocol" };
    }
    if text::same(state, "succeeded") || text::same(state, "failed") || text::same(
        state,
        "cancelled",
    ) {
        return ExecutionDecision::Refuse {
            reason: "terminal_unattributed_execution_requires_explicit_attribution_protocol",
        };
    }
    ExecutionDecision::QuarantineUnknown
}

/// A claim with its decision, as a document.
pub open spec fn claim_doc(
    id: Seq<char>,
    work_id: Seq<char>,
    state: Seq<char>,
    workstream_id: Option<Seq<char>>,
    d: ClaimDecisionView,
) -> JsonView {
    let head = json::no_fields().push(("kind"@, JsonView::Str("claim"@))).push(
        ("id"@, JsonView::Str(id)),
    ).push(("work_id"@, JsonView::Str(work_id))).push(("state"@, JsonView::Str(state))).push(
        ("workstream_id"@, json::opt_item(workstream_id)),
    );
    match d {
        ClaimDecisionView::AttributeAndRelease {
            workstream_id,
            ownership_version,
            coordinator_epoch,
        } => JsonView::Obj(
            head.push(("action"@, JsonView::Str("attribute_and_release"@))).push(
                ("target_workstream_id"@, JsonView::Str(workstream_id)),
            ).push(
                (
                    "ownership_version"@,
                    JsonView::Str(text::decimal_form(ownership_version as int)),
                ),
            ).push(("coordinator_epoch"@, JsonView::Str(coordinator_epoch))).push(
                ("forges_identity"@, JsonView::Bool(false)),
            ),
        ),
        ClaimDecisionView::Release => JsonView::Obj(
            head.push(("action"@, JsonView::Str("release"@))).push(
                ("forges_identity"@, JsonView::Bool(false)),
            ),
        ),
        ClaimDecisionView::Quarantine => JsonView::Obj(
            head.push(("action"@, JsonView::Str("quarantine"@))).push(
                ("target_state"@, JsonView::Str("revoked"@)),
            ).push(("forges_identity"@, JsonView::Bool(false))),
        ),
        ClaimDecisionView::Refuse { reason } => JsonView::Obj(
            head.push(("action"@, JsonView::Str("refuse"@))).push(
                ("reason"@, JsonView::Str(reason)),
            ),
        ),
    }
}

/// A claim with its decision, as a document.
pub fn claim_decision_json(
    id: &str,
    work_id: &str,
    state: &str,
    workstream_id: Option<&str>,
    d: &ClaimDecision,
) -> (r: Json)
    ensures
        r.model() == claim_doc(id@, work_id@, state@, text::opt_str(workstream_id), d@),
{
    let head = Doc::new().put("kind", json::text("claim")).put("id", json::text(id)).put(
        "work_id",
        json::text(work_id),
    ).put("state", json::text(state)).put("workstream_id", json::opt_text(workstream_id));
    match d {
        ClaimDecision::AttributeAndRelease {
            workstream_id,
            ownership_version,
            coordinator_epoch,
        } => head.put("action", json::text("attribute_and_release")).put(
            "target_workstream_id",
            json::text(workstream_id.as_str()),
        ).put("ownership_version", json::text(text::decimal(*ownership_version).as_str())).put(
            "coordinator_epoch",
            json::text(coordinator_epoch.as_str()),
        ).put("forges_identity", json::flag(false)).json(),
        ClaimDecision::Release => head.put("action", json::text("release")).put(
            "forges_identity",
            json::flag(false),
        ).json(),
        ClaimDecision::Quarantine => head.put("action", json::text("quarantine")).put(
            "target_state",
            json::text("revoked"),
        ).put("forges_identity", json::flag(false)).json(),
        ClaimDecision::Refuse { reason } => head.put("action", json::text("refuse")).put(
            "reason",
            json::text(reason),
        ).json(),
    }
}

/// An execution with its decision, as a document.
pub open spec fn execution_doc(
    id: Seq<char>,
    work_id: Seq<char>,
    state: Seq<char>,
    workstream_id: Option<Seq<char>>,
    d: ExecutionDecisionView,
) -> JsonView {
    let head = json::no_fields().push(("kind"@, JsonView::Str("execution"@))).push(
        ("id"@, JsonView::Str(id)),
    ).push(("work_id"@, JsonView::Str(work_id))).push(("state"@, JsonView::Str(state))).push(
        ("workstream_id"@, json::opt_item(workstream_id)),
    );
    match d {
        ExecutionDecisionView::QuarantineUnknown => JsonView::Obj(
            head.push(("action"@, JsonView::Str("quarantine_unknown"@))).push(
                ("target_state"@, JsonView::Str("unknown"@)),
            ).push(("forges_identity"@, JsonView::Bool(false))).push(
                ("executor_client_id_set"@, JsonView::Bool(false)),
            ),
        ),
        ExecutionDecisionView::Refuse { reason } => JsonView::Obj(
            head.push(("action"@, JsonView::Str("refuse"@))).push(
                ("reason"@, JsonView::Str(reason)),
            ).push(("forges_identity"@, JsonView::Bool(false))),
        ),
    }
}

/// An execution with its decision, as a document.
pub fn execution_decision_json(
    id: &str,
    work_id: &str,
    state: &str,
    workstream_id: Option<&str>,
    d: &ExecutionDecision,
) -> (r: Json)
    ensures
        r.model() == execution_doc(id@, work_id@, state@, text::opt_str(workstream_id), d@),
{
    let head = Doc::new().put("kind", json::text("execution")).put("id", json::text(id)).put(
        "work_id",
        json::text(work_id),
    ).put("state", json::text(state)).put("workstream_id", json::opt_text(workstream_id));
    match d {
        ExecutionDecision::QuarantineUnknown => head.put(
            "action",
            json::text("quarantine_unknown"),
        ).put("target_state", json::text("unknown")).put("forges_identity", json::flag(false)).put(
            "executor_client_id_set",
            json::flag(false),
        ).json(),
        ExecutionDecision::Refuse { reason } => head.put("action", json::text("refuse")).put(
            "reason",
            json::text(reason),
        ).put("forges_identity", json::flag(false)).json(),
    }
}

/// A claim as it is stored.
#[derive(Clone, Debug)]
pub struct ClaimRow {
    pub id: String,
    pub work_id: String,
    pub state: String,
    pub workstream_id: Option<String>,
}

/// An execution as it is stored.
#[derive(Clone, Debug)]
pub struct ExecutionRow {
    pub id: String,
    pub work_id: String,
    pub state: String,
    pub workstream_id: Option<String>,
    pub session_id: Option<String>,
    pub claim_id: Option<String>,
}

/// A claim in a plan.
pub open spec fn claim_item(
    row: ClaimRow,
    ownership: Seq<OwnedWork>,
    epoch: Seq<char>,
    disposition: ClaimDisposition,
) -> ItemView {
    let d = claim_decision(
        row.state@,
        row.workstream_id is Some,
        row.work_id@,
        operator_plan::binding_of(ownership, row.work_id@),
        epoch,
        disposition,
    );
    ItemView {
        kind: "claim"@,
        id: row.id@,
        action: match d {
            ClaimDecisionView::AttributeAndRelease { .. } => "attribute_and_release"@,
            ClaimDecisionView::Release => "release"@,
            ClaimDecisionView::Quarantine => "quarantine"@,
            ClaimDecisionView::Refuse { .. } => "refuse"@,
        },
        reason: match d {
            ClaimDecisionView::Refuse { reason } => reason,
            _ => ""@,
        },
        target: match d {
            ClaimDecisionView::AttributeAndRelease {
                workstream_id,
                ownership_version,
                coordinator_epoch,
            } => Some(
                TargetView {
                    workstream_id,
                    ownership_version,
                    coordinator_epoch: Some(coordinator_epoch),
                    executor_client_id: None,
                },
            ),
            _ => None,
        },
        doc: claim_doc(row.id@, row.work_id@, row.state@, text::opt(row.workstream_id), d),
    }
}

/// An execution in a plan.
pub open spec fn execution_item(row: ExecutionRow) -> ItemView {
    let d = execution_decision(row.workstream_id is Some, row.state@, false);
    ItemView {
        kind: "execution"@,
        id: row.id@,
        action: match d {
            ExecutionDecisionView::QuarantineUnknown => "quarantine_unknown"@,
            ExecutionDecisionView::Refuse { .. } => "refuse"@,
        },
        reason: match d {
            ExecutionDecisionView::Refuse { reason } => reason,
            _ => ""@,
        },
        target: None,
        doc: execution_doc(row.id@, row.work_id@, row.state@, text::opt(row.workstream_id), d),
    }
}

fn make_claim_item(
    row: &ClaimRow,
    ownership: &[OwnedWork],
    epoch: &str,
    disposition: ClaimDisposition,
) -> (r: Item)
    ensures
        r@ == claim_item(*row, ownership@, epoch@, disposition),
{
    let d = classify_claim(
        row.state.as_str(),
        text::as_opt_str(&row.workstream_id),
        row.work_id.as_str(),
        operator_plan::find_binding(ownership, row.work_id.as_str()),
        epoch,
        disposition,
    );
    let doc = claim_decision_json(
        row.id.as_str(),
        row.work_id.as_str(),
        row.state.as_str(),
        text::as_opt_str(&row.workstream_id),
        &d,
    );
    let id = row.id.clone();
    match d {
        ClaimDecision::AttributeAndRelease {
            workstream_id,
            ownership_version,
            coordinator_epoch,
        } => Item {
            kind: "claim",
            id,
            action: "attribute_and_release",
            reason: "",
            target: Some(
                Target {
                    workstream_id,
                    ownership_version,
                    coordinator_epoch: Some(coordinator_epoch),
                    executor_client_id: None,
                },
            ),
            doc,
        },
        ClaimDecision::Release => Item {
            kind: "claim",
            id,
            action: "release",
            reason: "",
            target: None,
            doc,
        },
        ClaimDecision::Quarantine => Item {
            kind: "claim",
            id,
            action: "quarantine",
            reason: "",
            target: None,
            doc,
        },
        ClaimDecision::Refuse { reason } => Item {
            kind: "claim",
            id,
            action: "refuse",
            reason,
            target: None,
            doc,
        },
    }
}

fn make_execution_item(row: &ExecutionRow) -> (r: Item)
    ensures
        r@ == execution_item(*row),
{
    let d = classify_execution(
        text::as_opt_str(&row.workstream_id),
        row.state.as_str(),
        text::as_opt_str(&row.session_id),
        text::as_opt_str(&row.claim_id),
        false,
    );
    let doc = execution_decision_json(
        row.id.as_str(),
        row.work_id.as_str(),
        row.state.as_str(),
        text::as_opt_str(&row.workstream_id),
        &d,
    );
    match d {
        ExecutionDecision::QuarantineUnknown => Item {
            kind: "execution",
            id: row.id.clone(),
            action: "quarantine_unknown",
            reason: "",
            target: None,
            doc,
        },
        ExecutionDecision::Refuse { reason } => Item {
            kind: "execution",
            id: row.id.clone(),
            action: "refuse",
            reason,
            target: None,
            doc,
        },
    }
}

/// The rows of a plan: the claims, then the executions.
pub open spec fn plan_items(
    claims: Seq<ClaimRow>,
    executions: Seq<ExecutionRow>,
    ownership: Seq<OwnedWork>,
    epoch: Seq<char>,
    disposition: ClaimDisposition,
) -> Seq<ItemView> {
    claims.map_values(|c: ClaimRow| claim_item(c, ownership, epoch, disposition))
        + executions.map_values(|e: ExecutionRow| execution_item(e))
}

/// The number of rows with a kind and an action, as a document.
pub open spec fn action_count(
    list: Seq<ItemView>,
    kind: Seq<char>,
    action: Seq<char>,
) -> JsonView {
    json::count_item(
        operator_plan::tally(
            list,
            |i: ItemView| i.kind == kind && i.action == action,
        ) as usize,
    )
}

/// The number of rows of a kind, as a document.
pub open spec fn kind_count(list: Seq<ItemView>, kind: Seq<char>) -> JsonView {
    json::count_item(operator_plan::tally(list, |i: ItemView| i.kind == kind) as usize)
}

/// The counts of a plan.
pub open spec fn counts_doc(acted: Seq<ItemView>, refused: Seq<ItemView>) -> JsonView {
    JsonView::Obj(
        json::no_fields().push(("actionable"@, json::count_item(acted.len() as usize))).push(
            ("refused"@, json::count_item(refused.len() as usize)),
        ).push(
            (
                "claims_attribute_and_release"@,
                action_count(acted, "claim"@, "attribute_and_release"@),
            ),
        ).push(("claims_release"@, action_count(acted, "claim"@, "release"@))).push(
            ("claims_quarantine"@, action_count(acted, "claim"@, "quarantine"@)),
        ).push(
            (
                "executions_quarantine_unknown"@,
                action_count(acted, "execution"@, "quarantine_unknown"@),
            ),
        ).push(("claims_refused"@, kind_count(refused, "claim"@))).push(
            ("executions_refused"@, kind_count(refused, "execution"@)),
        ),
    )
}

fn counts_document(lists: &Lists) -> (r: Json)
    ensures
        r.model() == counts_doc(
            operator_plan::item_views(lists.actionable@),
            operator_plan::item_views(lists.refused@),
        ),
{
    assert(operator_plan::item_views(lists.actionable@).len() == lists.actionable@.len());
    assert(operator_plan::item_views(lists.refused@).len() == lists.refused@.len());
    let acted = &lists.actionable;
    let refused = &lists.refused;
    Doc::new().put("actionable", json::count(acted.len())).put(
        "refused",
        json::count(refused.len()),
    ).put(
        "claims_attribute_and_release",
        json::count(operator_plan::count_action(acted, "claim", "attribute_and_release")),
    ).put(
        "claims_release",
        json::count(operator_plan::count_action(acted, "claim", "release")),
    ).put(
        "claims_quarantine",
        json::count(operator_plan::count_action(acted, "claim", "quarantine")),
    ).put(
        "executions_quarantine_unknown",
        json::count(operator_plan::count_action(acted, "execution", "quarantine_unknown")),
    ).put("claims_refused", json::count(operator_plan::count_kind(refused, "claim"))).put(
        "executions_refused",
        json::count(operator_plan::count_kind(refused, "execution")),
    ).json()
}

/// The ids of the rows of a kind: first those that something is done about, then the others.
pub open spec fn ids_of_kind(
    acted: Seq<ItemView>,
    refused: Seq<ItemView>,
    kind: Seq<char>,
) -> Seq<Seq<char>> {
    (acted + refused).filter(|i: ItemView| i.kind == kind).map_values(|i: ItemView| i.id)
}

fn push_ids(out: &mut Vec<String>, list: &Vec<Item>, kind: &str)
    ensures
        text::texts(final(out)@) == text::texts(old(out)@) + operator_plan::item_views(list@).filter(
            |i: ItemView| i.kind == kind@,
        ).map_values(|i: ItemView| i.id),
{
    let ghost all = operator_plan::item_views(list@);
    let ghost wanted = |i: ItemView| i.kind == kind@;
    let ghost name = |i: ItemView| i.id;
    let ghost start = text::texts(out@);
    let mut i: usize = 0;
    proof {
        assert(all.take(0) =~= Seq::empty());
        operator_plan::filter_nothing(wanted);
        assert(start + all.take(0).filter(wanted).map_values(name) =~= start);
    }
    while i < list.len()
        invariant
            i <= list.len(),
            all == operator_plan::item_views(list@),
            wanted == (|i: ItemView| i.kind == kind@),
            name == (|i: ItemView| i.id),
            text::texts(out@) == start + all.take(i as int).filter(wanted).map_values(name),
        decreases list.len() - i,
    {
        let ghost before = text::texts(out@);
        proof {
            assert(all.take(i + 1) =~= all.take(i as int).push(all[i as int]));
            operator_plan::filter_one_more(all.take(i as int), all[i as int], wanted);
            assert(all[i as int] == list@[i as int]@);
        }
        if text::same(list[i].kind, kind) {
            out.push(list[i].id.clone());
            proof {
                assert(text::texts(out@) =~= before.push(all[i as int].id));
                let kept = all.take(i as int).filter(wanted);
                assert(kept.push(all[i as int]).map_values(name) =~= kept.map_values(name).push(
                    all[i as int].id,
                ));
                assert(start + kept.map_values(name).push(all[i as int].id) =~= (start
                    + kept.map_values(name)).push(all[i as int].id));
            }
        }
        i = i + 1;
    }
    assert(all.take(i as int) =~= all);
}

fn kind_ids(lists: &Lists, kind: &str) -> (r: Vec<String>)
    ensures
        text::texts(r@) == ids_of_kind(
            operator_plan::item_views(lists.actionable@),
            operator_plan::item_views(lists.refused@),
            kind@,
        ),
{
    let mut out: Vec<String> = Vec::new();
    assert(text::texts(out@) =~= Seq::empty());
    push_ids(&mut out, &lists.actionable, kind);
    push_ids(&mut out, &lists.refused, kind);
    proof {
        let a = operator_plan::item_views(lists.actionable@);
        let b = operator_plan::item_views(lists.refused@);
        let wanted = |i: ItemView| i.kind == kind@;
        let name = |i: ItemView| i.id;
        Seq::filter_distributes_over_add(a, b, wanted);
        assert((a.filter(wanted) + b.filter(wanted)).map_values(name) =~= a.filter(
            wanted,
        ).map_values(name) + b.filter(wanted).map_values(name));
        assert(Seq::<Seq<char>>::empty() + a.filter(wanted).map_values(name) =~= a.filter(
            wanted,
        ).map_values(name));
    }
    out
}

/// What the state digest of a plan is of.
pub open spec fn state_doc(
    tenant: Seq<char>,
    project: Seq<char>,
    row: ProjectRow,
    disposition: ClaimDisposition,
    acted: Seq<ItemView>,
    refused: Seq<ItemView>,
) -> JsonView {
    JsonView::Obj(
        json::no_fields().push(("tenant_id"@, JsonView::Str(tenant))).push(
            ("project_id"@, JsonView::Str(project)),
        ).push(("project_status"@, JsonView::Str(row.status@))).push(
            ("coordinator_epoch"@, JsonView::Str(row.coordinator_epoch@)),
        ).push(
            (
                "project_revision"@,
                JsonView::Str(text::decimal_form(row.project_revision as int)),
            ),
        ).push(("source_snapshot_id"@, json::opt_item(text::opt(row.source_snapshot_id)))).push(
            ("claim_disposition"@, JsonView::Str(disposition.name())),
        ).push(
            ("active_claim_ids"@, json::text_items(ids_of_kind(acted, refused, "claim"@))),
        ).push(
            (
                "unattributed_execution_ids"@,
                json::text_items(ids_of_kind(acted, refused, "execution"@)),
            ),
        ),
    )
}

/// What this command does.
pub open spec fn safe_subset() -> Seq<Seq<char>> {
    Seq::empty().push("active_claim_release"@).push("active_claim_quarantine"@).push(
        "active_claim_attribute_and_release"@,
    ).push("unattributed_nonterminal_execution_quarantine_unknown"@)
}

/// What this command never does.
pub open spec fn unsafe_excluded() -> Seq<Seq<char>> {
    Seq::empty().push("silent_execution_attribution"@).push("executor_client_id_invention"@).push(
        "use_execution_attribution_for_reviewed_client_id"@,
    ).push("completion_receipt_rewrite"@).push("automatic_resume"@)
}

fn safe_list() -> (r: Json)
    ensures
        r.model() == json::text_items(safe_subset()),
{
    let mut list = operator_request::no_names();
    operator_request::add_name(&mut list, "active_claim_release");
    operator_request::add_name(&mut list, "active_claim_quarantine");
    operator_request::add_name(&mut list, "active_claim_attribute_and_release");
    operator_request::add_name(&mut list, "unattributed_nonterminal_execution_quarantine_unknown");
    operator_request::name_list(&list)
}

fn unsafe_list() -> (r: Json)
    ensures
        r.model() == json::text_items(unsafe_excluded()),
{
    let mut list = operator_request::no_names();
    operator_request::add_name(&mut list, "silent_execution_attribution");
    operator_request::add_name(&mut list, "executor_client_id_invention");
    operator_request::add_name(&mut list, "use_execution_attribution_for_reviewed_client_id");
    operator_request::add_name(&mut list, "completion_receipt_rewrite");
    operator_request::add_name(&mut list, "automatic_resume");
    operator_request::name_list(&list)
}

/// What the plan digest of a plan is of.
pub open spec fn body_doc(
    tenant: Seq<char>,
    project: Seq<char>,
    operator: Seq<char>,
    disposition: ClaimDisposition,
    acted: Seq<ItemView>,
    refused: Seq<ItemView>,
) -> JsonView {
    JsonView::Obj(
        json::no_fields().push(("protocol"@, JsonView::Str(PROTOCOL@))).push(
            ("protocol_version"@, JsonView::Int(1)),
        ).push(("read_only_preview"@, JsonView::Bool(true))).push(
            ("mutation_on_preview"@, JsonView::Bool(false)),
        ).push(("operator_role"@, JsonView::Str(operator))).push(
            ("tenant_id"@, JsonView::Str(tenant)),
        ).push(("project_id"@, JsonView::Str(project))).push(
            ("claim_disposition"@, JsonView::Str(disposition.name())),
        ).push(("safe_subset"@, json::text_items(safe_subset()))).push(
            ("unsafe_excluded"@, json::text_items(unsafe_excluded())),
        ).push(("forges_identity"@, JsonView::Bool(false))).push(
            (
                "local_file_access"@,
                JsonView::Str("not_server_acl_or_confidentiality_sandbox"@),
            ),
        ).push(("frontend_filtering"@, JsonView::Bool(false))).push(
            ("counts"@, counts_doc(acted, refused)),
        ).push(("actionable"@, JsonView::Arr(operator_plan::docs(acted)))).push(
            ("refused"@, JsonView::Arr(operator_plan::docs(refused))),
        ).push(
            (
                "actionable_sample"@,
                JsonView::Arr(operator_plan::docs(operator_plan::sample(acted))),
            ),
        ).push(
            (
                "refused_sample"@,
                JsonView::Arr(operator_plan::docs(operator_plan::sample(refused))),
            ),
        ),
    )
}

/// A recovery that is planned.
pub struct QuarantinePlan {
    pub lists: Lists,
    pub disposition: ClaimDisposition,
    /// What the state digest is of.
    pub state: Json,
    /// What the plan digest is of.
    pub body: Json,
}

/// The plan of a recovery.
pub open spec fn is_plan(
    plan: QuarantinePlan,
    tenant: Seq<char>,
    project: Seq<char>,
    operator: Seq<char>,
    row: ProjectRow,
    disposition: ClaimDisposition,
    claims: Seq<ClaimRow>,
    executions: Seq<ExecutionRow>,
    ownership: Seq<OwnedWork>,
) -> bool {
    let all = plan_items(claims, executions, ownership, row.coordinator_epoch@, disposition);
    let acted = operator_plan::acted_on(all);
    let refused = operator_plan::refused(all);
    &&& operator_plan::lists_hold(plan.lists, all)
    &&& plan.disposition == disposition
    &&& plan.state.model() == state_doc(tenant, project, row, disposition, acted, refused)
    &&& plan.body.model() == body_doc(tenant, project, operator, disposition, acted, refused)
}

/// Plans the recovery of an active project.
pub fn build_plan(
    tenant: &str,
    project: &str,
    operator: &str,
    row: &ProjectRow,
    disposition: ClaimDisposition,
    ownership: &[OwnedWork],
    claims: &[ClaimRow],
    executions: &[ExecutionRow],
) -> (r: PgResult<QuarantinePlan>)
    ensures
        match r {
            Ok(plan) => row.status@ == "active"@ && is_plan(
                plan,
                tenant@,
                project@,
                operator@,
                *row,
                disposition,
                claims@,
                executions@,
                ownership@,
            ),
            Err(e) => row.status@ != "active"@ && e@ == Fault::ProjectNotAvailable,
        },
{
    if !text::same(row.status.as_str(), "active") {
        return Err(PgError::ProjectNotAvailable);
    }
    let epoch = row.coordinator_epoch.as_str();
    let ghost all = plan_items(claims@, executions@, ownership@, epoch@, disposition);
    let mut lists = Lists::new();
    let mut i: usize = 0;
    assert(all.take(0) =~= Seq::empty());
    while i < claims.len()
        invariant
            i <= claims.len(),
            all == plan_items(claims@, executions@, ownership@, epoch@, disposition),
            operator_plan::lists_hold(lists, all.take(i as int)),
        decreases claims.len() - i,
    {
        let item = make_claim_item(&claims[i], ownership, epoch, disposition);
        assert(item@ == all[i as int]);
        assert(all.take(i + 1) =~= all.take(i as int).push(item@));
        lists.add_item(item);
        i = i + 1;
    }
    let mut k: usize = 0;
    while k < executions.len()
        invariant
            k <= executions.len(),
            all == plan_items(claims@, executions@, ownership@, epoch@, disposition),
            operator_plan::lists_hold(lists, all.take(claims@.len() + k)),
        decreases executions.len() - k,
    {
        let item = make_execution_item(&executions[k]);
        let ghost n = claims@.len() + k;
        assert(item@ == all[n]);
        assert(all.take(n + 1) =~= all.take(n).push(item@));
        lists.add_item(item);
        k = k + 1;
    }
    assert(all.take(claims@.len() + k) =~= all);
    let state = Doc::new().put("tenant_id", json::text(tenant)).put(
        "project_id",
        json::text(project),
    ).put("project_status", json::text(row.status.as_str())).put(
        "coordinator_epoch",
        json::text(epoch),
    ).put("project_revision", json::text(text::decimal(row.project_revision).as_str())).put(
        "source_snapshot_id",
        json::opt_text(text::as_opt_str(&row.source_snapshot_id)),
    ).put("claim_disposition", json::text(disposition.as_str())).put(
        "active_claim_ids",
        json::text_list(kind_ids(&lists, "claim").as_slice()),
    ).put(
        "unattributed_execution_ids",
        json::text_list(kind_ids(&lists, "execution").as_slice()),
    ).json();
    let body = Doc::new().put("protocol", json::text(PROTOCOL)).put(
        "protocol_version",
        json::number(1),
    ).put("read_only_preview", json::flag(true)).put("mutation_on_preview", json::flag(false)).put(
        "operator_role",
        json::text(operator),
    ).put("tenant_id", json::text(tenant)).put("project_id", json::text(project)).put(
        "claim_disposition",
        json::text(disposition.as_str()),
    ).put("safe_subset", safe_list()).put("unsafe_excluded", unsafe_list()).put(
        "forges_identity",
        json::flag(false),
    ).put(
        "local_file_access",
        json::text("not_server_acl_or_confidentiality_sandbox"),
    ).put("frontend_filtering", json::flag(false)).put("counts", counts_document(&lists)).put(
        "actionable",
        operator_plan::all_docs(&lists.actionable),
    ).put("refused", operator_plan::all_docs(&lists.refused)).put(
        "actionable_sample",
        operator_plan::sample_docs(&lists.actionable),
    ).put("refused_sample", operator_plan::sample_docs(&lists.refused)).json();
    Ok(QuarantinePlan { lists, disposition, state, body })
}

/// A request to apply a plan.
pub struct QuarantineRequest {
    pub tenant: String,
    pub project: String,
    pub request: String,
    pub expected_state: String,
    pub expected_plan: String,
}

/// What the hash of a request is of.
pub open spec fn intent_doc(q: QuarantineRequest, disposition: ClaimDisposition) -> JsonView {
    JsonView::Obj(
        json::no_fields().push(("protocol"@, JsonView::Str(PROTOCOL@))).push(
            ("tenant_id"@, JsonView::Str(q.tenant@)),
        ).push(("project_id"@, JsonView::Str(q.project@))).push(
            ("expected_state"@, JsonView::Str(q.expected_state@)),
        ).push(("expected_plan"@, JsonView::Str(q.expected_plan@))).push(
            ("claim_disposition"@, JsonView::Str(disposition.name())),
        ),
    )
}

/// The receipt of an applied plan.
pub open spec fn receipt_doc(
    q: QuarantineRequest,
    disposition: ClaimDisposition,
    intent_hash: Seq<char>,
    operator: Seq<char>,
    revision: i64,
    acted: Seq<ItemView>,
    refused: Seq<ItemView>,
) -> JsonView {
    JsonView::Obj(
        json::no_fields().push(("protocol"@, JsonView::Str(PROTOCOL@))).push(
            ("request_id"@, JsonView::Str(q.request@)),
        ).push(("request_hash"@, JsonView::Str(intent_hash))).push(
            ("operator_role"@, JsonView::Str(operator)),
        ).push(("tenant_id"@, JsonView::Str(q.tenant@))).push(
            ("project_id"@, JsonView::Str(q.project@)),
        ).push(("claim_disposition"@, JsonView::Str(disposition.name()))).push(
            ("state_digest"@, JsonView::Str(q.expected_state@)),
        ).push(("plan_digest"@, JsonView::Str(q.expected_plan@))).push(
            ("project_revision"@, JsonView::Str(text::decimal_form(revision as int))),
        ).push(("applied"@, JsonView::Arr(operator_plan::docs(acted)))).push(
            ("refused"@, JsonView::Arr(operator_plan::docs(refused))),
        ).push(("counts"@, counts_doc(acted, refused))).push(
            ("identity_forged"@, JsonView::Bool(false)),
        ).push(("executor_client_id_invented"@, JsonView::Bool(false))).push(
            ("completion_receipts_modified"@, JsonView::Bool(false)),
        ).push(("execution_authorized"@, JsonView::Bool(false))).push(
            ("automatic_resume"@, JsonView::Bool(false)),
        ).push(("recovery_barrier_required"@, JsonView::Bool(true))).push(
            ("stop_or_reconcile_required"@, JsonView::Bool(true)),
        ).push(("state_basis"@, JsonView::Str("at_commit"@))),
    )
}

/// A plan, as the operator sees it.
pub open spec fn preview_doc(
    operator: Seq<char>,
    plan: QuarantinePlan,
    state_digest: Seq<char>,
    plan_digest: Seq<char>,
) -> JsonView {
    let acted = operator_plan::item_views(plan.lists.actionable@);
    let refused = operator_plan::item_views(plan.lists.refused@);
    JsonView::Obj(
        json::no_fields().push(("protocol"@, JsonView::Str(PROTOCOL@))).push(
            ("applied"@, JsonView::Bool(false)),
        ).push(("operator_role"@, JsonView::Str(operator))).push(
            ("claim_disposition"@, JsonView::Str(plan.disposition.name())),
        ).push(("state_digest"@, JsonView::Str(state_digest))).push(
            ("plan_digest"@, JsonView::Str(plan_digest)),
        ).push(("state"@, plan.state.model())).push(("counts"@, counts_doc(acted, refused))).push(
            ("actionable"@, JsonView::Arr(operator_plan::docs(acted))),
        ).push(("refused"@, JsonView::Arr(operator_plan::docs(refused)))).push(
            ("safe_subset"@, json::text_items(safe_subset())),
        ).push(("unsafe_excluded"@, json::text_items(unsafe_excluded()))).push(
            (
                "next_action"@,
                JsonView::Str(
                    "Review actionable/refused; apply with exact state_digest, plan_digest, and the same claim_disposition. Executions never receive a forged executor_client_id here; use execution-attribution-* for reviewed client ids."@,
                ),
            ),
        ),
    )
}

/// What an applied plan leaves behind.
pub struct QuarantineApplied {
    pub receipt: Json,
    pub event: Json,
}

/// What is written to one row.
pub enum QuarantineWrite<'a> {
    /// The claim becomes released.
    ReleaseClaim { id: &'a str },
    /// The claim becomes revoked.
    RevokeClaim { id: &'a str },
    /// The claim gets its workstream and becomes released.
    AttributeClaim {
        id: &'a str,
        workstream_id: &'a str,
        ownership_version: i64,
        coordinator_epoch: &'a str,
    },
    /// The execution becomes unknown, and its work blocked until it is reconciled.
    UnknownExecution { id: &'a str },
}

/// The model of a write.
pub enum QuarantineWriteView {
    ReleaseClaim { id: Seq<char> },
    RevokeClaim { id: Seq<char> },
    AttributeClaim {
        id: Seq<char>,
        workstream_id: Seq<char>,
        ownership_version: i64,
        coordinator_epoch: Seq<char>,
    },
    UnknownExecution { id: Seq<char> },
}

impl<'a> View for QuarantineWrite<'a> {
    type V = QuarantineWriteView;

    open spec fn view(&self) -> QuarantineWriteView {
        match self {
            QuarantineWrite::ReleaseClaim { id } => QuarantineWriteView::ReleaseClaim { id: id@ },
            QuarantineWrite::RevokeClaim { id } => QuarantineWriteView::RevokeClaim { id: id@ },
            QuarantineWrite::AttributeClaim {
                id,
                workstream_id,
                ownership_version,
                coordinator_epoch,
            } => QuarantineWriteView::AttributeClaim {
                id: id@,
                workstream_id: workstream_id@,
                ownership_version: *ownership_version,
                coordinator_epoch: coordinator_epoch@,
            },
            QuarantineWrite::UnknownExecution { id } => QuarantineWriteView::UnknownExecution {
                id: id@,
            },
        }
    }
}

/// The write that a row of a plan asks for; none where its kind and action do not fit.
pub open spec fn write_of(item: ItemView) -> Option<QuarantineWriteView> {
    if item.kind == "claim"@ && item.action == "release"@ {
        Some(QuarantineWriteView::ReleaseClaim { id: item.id })
    } else if item.kind == "claim"@ && item.action == "quarantine"@ {
        Some(QuarantineWriteView::RevokeClaim { id: item.id })
    } else if item.kind == "claim"@ && item.action == "attribute_and_release"@ {
        match item.target {
            Some(t) => match t.coordinator_epoch {
                Some(e) => Some(
                    QuarantineWriteView::AttributeClaim {
                        id: item.id,
                        workstream_id: t.workstream_id,
                        ownership_version: t.ownership_version,
                        coordinator_epoch: e,
                    },
                ),
                None => None,
            },
            None => None,
        }
    } else if item.kind == "execution"@ && item.action == "quarantine_unknown"@ {
        Some(QuarantineWriteView::UnknownExecution { id: item.id })
    } else {
        None
    }
}

/// The rules of claim and execution recovery.
pub struct OperatorQuarantine;

impl OperatorQuarantine {
    /// Whether the names of a question are well formed.
    pub fn admit_names(tenant: &str, project: &str, request: Option<&str>) -> (r: PgResult<()>)
        ensures
            error::checked(r) == (if text::is_identity(tenant@) && text::is_identity(project@) && (
            request is Some ==> text::is_identity(request->Some_0@)) {
                Ok(())
            } else {
                Err(invalid_request())
            }),
    {
        let request_ok = match request {
            Some(s) => text::identity(s),
            None => true,
        };
        if !text::identity(tenant) || !text::identity(project) || !request_ok {
            return Err(invalid());
        }
        Ok(())
    }

    /// Whether a request to apply a plan is well formed; its disposition.
    pub fn admit_apply(q: &QuarantineRequest, claim_disposition: &str) -> (r: PgResult<
        ClaimDisposition,
    >)
        ensures
            match r {
                Ok(d) => text::is_identity(q.tenant@) && text::is_identity(q.project@)
                    && text::is_identity(q.request@) && text::is_hex(q.expected_state@)
                    && text::is_hex(q.expected_plan@) && d.name() == claim_disposition@,
                Err(e) => e@ == invalid_request() && !(text::is_identity(q.tenant@)
                    && text::is_identity(q.project@) && text::is_identity(q.request@)
                    && text::is_hex(q.expected_state@) && text::is_hex(q.expected_plan@) && exists|
                    d: ClaimDisposition,
                | #[trigger] d.name() == claim_disposition@),
            },
    {
        if !text::identity(q.tenant.as_str()) || !text::identity(q.project.as_str())
            || !text::identity(q.request.as_str()) || !text::hex(q.expected_state.as_str())
            || !text::hex(q.expected_plan.as_str()) {
            return Err(invalid());
        }
        ClaimDisposition::parse(claim_disposition)
    }

    /// What the hash of a request is of.
    pub fn intent(q: &QuarantineRequest, disposition: ClaimDisposition) -> (r: Json)
        ensures
            r.model() == intent_doc(*q, disposition),
    {
        Doc::new().put("protocol", json::text(PROTOCOL)).put(
            "tenant_id",
            json::text(q.tenant.as_str()),
        ).put("project_id", json::text(q.project.as_str())).put(
            "expected_state",
            json::text(q.expected_state.as_str()),
        ).put("expected_plan", json::text(q.expected_plan.as_str())).put(
            "claim_disposition",
            json::text(disposition.as_str()),
        ).json()
    }

    /// A plan, as the operator sees it.
    pub fn preview(
        operator: &str,
        plan: &QuarantinePlan,
        state_digest: &str,
        plan_digest: &str,
    ) -> (r: Json)
        ensures
            r.model() == preview_doc(operator@, *plan, state_digest@, plan_digest@),
    {
        Doc::new().put("protocol", json::text(PROTOCOL)).put("applied", json::flag(false)).put(
            "operator_role",
            json::text(operator),
        ).put("claim_disposition", json::text(plan.disposition.as_str())).put(
            "state_digest",
            json::text(state_digest),
        ).put("plan_digest", json::text(plan_digest)).put("state", plan.state.copy()).put(
            "counts",
            counts_document(&plan.lists),
        ).put("actionable", operator_plan::all_docs(&plan.lists.actionable)).put(
            "refused",
            operator_plan::all_docs(&plan.lists.refused),
        ).put("safe_subset", safe_list()).put("unsafe_excluded", unsafe_list()).put(
            "next_action",
            json::text(
                "Review actionable/refused; apply with exact state_digest, plan_digest, and the same claim_disposition. Executions never receive a forged executor_client_id here; use execution-attribution-* for reviewed client ids.",
            ),
        ).json()
    }

    /// What became of a request.
    pub fn outcome(receipt: Option<Json>) -> (r: Json)
        ensures
            r.model() == operator_request::outcome_doc(
                match receipt {
                    Some(d) => Some(d.model()),
                    None => None,
                },
            ),
    {
        operator_request::outcome(receipt)
    }

    /// The write that a row of a plan asks for.
    pub fn write<'a>(item: &'a Item) -> (r: PgResult<QuarantineWrite<'a>>)
        ensures
            match r {
                Ok(w) => write_of(item@) == Some(w@),
                Err(e) => write_of(item@) is None && e@ == invalid_request(),
            },
    {
        let claim = text::same(item.kind, "claim");
        if claim && text::same(item.action, "release") {
            return Ok(QuarantineWrite::ReleaseClaim { id: item.id.as_str() });
        }
        if claim && text::same(item.action, "quarantine") {
            return Ok(QuarantineWrite::RevokeClaim { id: item.id.as_str() });
        }
        if claim && text::same(item.action, "attribute_and_release") {
            return match &item.target {
                Some(t) => match &t.coordinator_epoch {
                    Some(e) => Ok(
                        QuarantineWrite::AttributeClaim {
                            id: item.id.as_str(),
                            workstream_id: t.workstream_id.as_str(),
                            ownership_version: t.ownership_version,
                            coordinator_epoch: e.as_str(),
                        },
                    ),
                    None => Err(invalid()),
                },
                None => Err(invalid()),
            };
        }
        if text::same(item.kind, "execution") && text::same(item.action, "quarantine_unknown") {
            return Ok(QuarantineWrite::UnknownExecution { id: item.id.as_str() });
        }
        Err(invalid())
    }

    /// What an applied plan leaves behind.
    pub fn apply(
        q: &QuarantineRequest,
        intent_hash: &str,
        operator: &str,
        plan: &QuarantinePlan,
        revision: i64,
    ) -> (r: QuarantineApplied)
        ensures
            r.receipt.model() == receipt_doc(
                *q,
                plan.disposition,
                intent_hash@,
                operator@,
                revision,
                operator_plan::item_views(plan.lists.actionable@),
                operator_plan::item_views(plan.lists.refused@),
            ),
            r.event.model() == JsonView::Obj(
                json::no_fields().push(("operator_role"@, JsonView::Str(operator@))).push(
                    ("request_id"@, JsonView::Str(q.request@)),
                ).push(
                    ("applied_count"@, json::count_item(plan.lists.actionable@.len() as usize)),
                ).push(
                    ("refused_count"@, json::count_item(plan.lists.refused@.len() as usize)),
                ).push(("claim_disposition"@, JsonView::Str(plan.disposition.name()))),
            ),
    {
        let receipt = Doc::new().put("protocol", json::text(PROTOCOL)).put(
            "request_id",
            json::text(q.request.as_str()),
        ).put("request_hash", json::text(intent_hash)).put(
            "operator_role",
            json::text(operator),
        ).put("tenant_id", json::text(q.tenant.as_str())).put(
            "project_id",
            json::text(q.project.as_str()),
        ).put("claim_disposition", json::text(plan.disposition.as_str())).put(
            "state_digest",
            json::text(q.expected_state.as_str()),
        ).put("plan_digest", json::text(q.expected_plan.as_str())).put(
            "project_revision",
            json::text(text::decimal(revision).as_str()),
        ).put("applied", operator_plan::all_docs(&plan.lists.actionable)).put(
            "refused",
            operator_plan::all_docs(&plan.lists.refused),
        ).put("counts", counts_document(&plan.lists)).put("identity_forged", json::flag(false)).put(
            "executor_client_id_invented",
            json::flag(false),
        ).put("completion_receipts_modified", json::flag(false)).put(
            "execution_authorized",
            json::flag(false),
        ).put("automatic_resume", json::flag(false)).put(
            "recovery_barrier_required",
            json::flag(true),
        ).put("stop_or_reconcile_required", json::flag(true)).put(
            "state_basis",
            json::text("at_commit"),
        ).json();
        let event = Doc::new().put("operator_role", json::text(operator)).put(
            "request_id",
            json::text(q.request.as_str()),
        ).put("applied_count", json::count(plan.lists.actionable.len())).put(
            "refused_count",
            json::count(plan.lists.refused.len()),
        ).put("claim_disposition", json::text(plan.disposition.as_str())).json();
        QuarantineApplied { receipt, event }
    }
}

proof fn names_differ()
    ensures
        "claim"@ != "execution"@,
        "release"@ != "quarantine"@,
        "release"@ != "attribute_and_release"@,
        "quarantine"@ != "attribute_and_release"@,
        "refuse"@ != "release"@,
        "refuse"@ != "quarantine"@,
        "refuse"@ != "attribute_and_release"@,
        "refuse"@ != "quarantine_unknown"@,
{
    reveal_strlit("claim");
    reveal_strlit("execution");
    reveal_strlit("release");
    reveal_strlit("quarantine");
    reveal_strlit("attribute_and_release");
    reveal_strlit("refuse");
    reveal_strlit("quarantine_unknown");
    assert("claim"@.len() == 5);
    assert("execution"@.len() == 9);
    assert("release"@.len() == 7);
    assert("quarantine"@.len() == 10);
    assert("attribute_and_release"@.len() == 21);
    assert("refuse"@.len() == 6);
    assert("quarantine_unknown"@.len() == 18);
}

/// An execution never gets a workstream here, and one that has ended is never touched; a claim
/// that has a workstream keeps it; and what a claim gets is what owns its work now.
pub proof fn recovery_invents_nothing(
    claim: ClaimRow,
    execution: ExecutionRow,
    ownership: Seq<OwnedWork>,
    epoch: Seq<char>,
    disposition: ClaimDisposition,
)
    ensures
        ({
            let c = claim_item(claim, ownership, epoch, disposition);
            let e = execution_item(execution);
            &&& e.target is None
            &&& is_terminal(execution.state@) ==> e.action == "refuse"@
            &&& claim.workstream_id is Some ==> c.target is None
            &&& claim.state@ != "active"@ ==> c.action == "refuse"@
            &&& c.target is Some ==> {
                &&& c.target->Some_0.executor_client_id is None
                &&& operator_plan::binding_of(ownership, claim.work_id@) is Some
                &&& c.target->Some_0.workstream_id == operator_plan::binding_of(
                    ownership,
                    claim.work_id@,
                )->Some_0.workstream_id@
                &&& c.target->Some_0.coordinator_epoch == Some(epoch)
            }
        }),
{
}

/// Every row of a plan that is not refused asks for a write.
pub proof fn acted_rows_are_written(
    claim: ClaimRow,
    execution: ExecutionRow,
    ownership: Seq<OwnedWork>,
    epoch: Seq<char>,
    disposition: ClaimDisposition,
)
    ensures
        ({
            let c = claim_item(claim, ownership, epoch, disposition);
            let e = execution_item(execution);
            &&& c.action != "refuse"@ <==> write_of(c) is Some
            &&& e.action != "refuse"@ <==> write_of(e) is Some
        }),
{
    names_differ();
}

/// The names of what is done with a claim.
pub proof fn dispositions_are_spelled()
    ensures
        ClaimDisposition::Release.name() == "release"@,
        ClaimDisposition::Quarantine.name() == "quarantine"@,
{
}

/// A claim that is not active is refused. An active one that belongs to no workstream, but whose work is
/// owned, goes to the owner under the epoch of the project and is released. Any other active one is
/// released or quarantined, as was asked.
pub proof fn active_claims_are_ended(
    state: Seq<char>,
    attributed: bool,
    work_id: Seq<char>,
    ownership: Option<OwnershipBinding>,
    epoch: Seq<char>,
    disposition: ClaimDisposition,
)
    ensures
        ({
            let d = claim_decision(state, attributed, work_id, ownership, epoch, disposition);
            &&& d is Refuse <==> state != "active"@
            &&& d is Refuse ==> d->reason == "claim_not_active"@
            &&& d is AttributeAndRelease <==> state == "active"@ && !attributed && ownership is Some
                && work_id.len() > 0 && epoch.len() > 0
            &&& d is AttributeAndRelease ==> d->workstream_id == ownership->Some_0.workstream_id@
                && d->ownership_version == ownership->Some_0.ownership_version
                && d->coordinator_epoch == epoch
            &&& d is Release ==> disposition is Release
            &&& d is Quarantine ==> disposition is Quarantine
        }),
{
}

/// An execution is made unknown exactly where it belongs to no workstream, names no executor and has not
/// ended. Each other is refused with the protocol that is for it.
pub proof fn open_executions_become_unknown(
    attributed: bool,
    state: Seq<char>,
    has_executor: bool,
)
    ensures
        ({
            let d = execution_decision(attributed, state, has_executor);
            &&& d is QuarantineUnknown <==> !attributed && !has_executor && state != "succeeded"@
                && state != "failed"@ && state != "cancelled"@
            &&& attributed ==> d == (ExecutionDecisionView::Refuse {
                reason: "attributed_execution_use_execution_reconcile"@,
            })
            &&& !attributed && has_executor ==> d == (ExecutionDecisionView::Refuse {
                reason: "use_execution_attribution_protocol"@,
            })
            &&& !attributed && !has_executor && d is Refuse ==> d->reason
                == "terminal_unattributed_execution_requires_explicit_attribution_protocol"@
        }),
{
}

/// A claim stands in a plan under its own name, with what was decided of it.
pub proof fn claims_stand_in_the_plan(
    row: ClaimRow,
    ownership: Seq<OwnedWork>,
    epoch: Seq<char>,
    disposition: ClaimDisposition,
)
    ensures
        ({
            let item = claim_item(row, ownership, epoch, disposition);
            let d = claim_decision(
                row.state@,
                row.workstream_id is Some,
                row.work_id@,
                operator_plan::binding_of(ownership, row.work_id@),
                epoch,
                disposition,
            );
            &&& item.kind == "claim"@
            &&& item.id == row.id@
            &&& item.action == match d {
                ClaimDecisionView::AttributeAndRelease { .. } => "attribute_and_release"@,
                ClaimDecisionView::Release => "release"@,
                ClaimDecisionView::Quarantine => "quarantine"@,
                ClaimDecisionView::Refuse { .. } => "refuse"@,
            }
            &&& row.state@ != "active"@ ==> item.reason == "claim_not_active"@
            &&& row.state@ == "active"@ ==> item.reason == ""@
            &&& item.target is Some <==> d is AttributeAndRelease
            &&& item.target matches Some(t) ==> t.workstream_id == d->workstream_id
                && t.ownership_version == d->ownership_version && t.coordinator_epoch == Some(epoch)
                && t.executor_client_id is None
            &&& item.doc == claim_doc(
                row.id@,
                row.work_id@,
                row.state@,
                text::opt(row.workstream_id),
                d,
            )
        }),
{
}

/// An execution stands in a plan under its own name, and gets nothing there.
pub proof fn executions_stand_in_the_plan(row: ExecutionRow)
    ensures
        ({
            let item = execution_item(row);
            let open = row.state@ != "succeeded"@ && row.state@ != "failed"@ && row.state@
                != "cancelled"@;
            &&& item.kind == "execution"@
            &&& item.id == row.id@
            &&& item.target is None
            &&& row.workstream_id is None && open ==> item.action == "quarantine_unknown"@
                && item.reason == ""@
            &&& row.workstream_id is Some ==> item.action == "refuse"@ && item.reason
                == "attributed_execution_use_execution_reconcile"@
            &&& row.workstream_id is None && !open ==> item.action == "refuse"@ && item.reason
                == "terminal_unattributed_execution_requires_explicit_attribution_protocol"@
            &&& item.doc == execution_doc(
                row.id@,
                row.work_id@,
                row.state@,
                text::opt(row.workstream_id),
                execution_decision(row.workstream_id is Some, row.state@, false),
            )
        }),
{
}

/// A plan holds every claim and then every execution, each once and in its place.
pub proof fn plans_hold_claims_and_executions(
    claims: Seq<ClaimRow>,
    executions: Seq<ExecutionRow>,
    ownership: Seq<OwnedWork>,
    epoch: Seq<char>,
    disposition: ClaimDisposition,
    i: int,
)
    ensures
        ({
            let items = plan_items(claims, executions, ownership, epoch, disposition);
            &&& items.len() == claims.len() + executions.len()
            &&& 0 <= i < claims.len() ==> items[i] == claim_item(
                claims[i],
                ownership,
                epoch,
                disposition,
            )
            &&& 0 <= i < executions.len() ==> items[claims.len() + i] == execution_item(
                executions[i],
            )
        }),
{
}

/// Rows are counted one by one, by kind and by what is done with them.
pub proof fn rows_are_counted_by_action(
    list: Seq<ItemView>,
    item: ItemView,
    kind: Seq<char>,
    action: Seq<char>,
)
    requires
        list.len() < i32::MAX,
    ensures
        kind_count(Seq::empty(), kind) == JsonView::Int(0),
        action_count(Seq::empty(), kind, action) == JsonView::Int(0),
        kind_count(list, kind) is Int,
        action_count(list, kind, action) is Int,
        kind_count(list.push(item), kind) == JsonView::Int(
            kind_count(list, kind)->Int_0 + if item.kind == kind {
                1int
            } else {
                0int
            },
        ),
        action_count(list.push(item), kind, action) == JsonView::Int(
            action_count(list, kind, action)->Int_0 + if item.kind == kind && item.action == action {
                1int
            } else {
                0int
            },
        ),
{
    let of_kind = |i: ItemView| i.kind == kind;
    let of_action = |i: ItemView| i.kind == kind && i.action == action;
    operator_plan::filter_nothing(of_kind);
    operator_plan::filter_nothing(of_action);
    operator_plan::filter_one_more(list, item, of_kind);
    operator_plan::filter_one_more(list, item, of_action);
    list.lemma_filter_len(of_kind);
    list.lemma_filter_len(of_action);
}

/// The names of a kind are those of the rows of the kind, acted on or refused.
pub proof fn names_of_a_kind_are_listed(
    acted: Seq<ItemView>,
    refused: Seq<ItemView>,
    item: ItemView,
    kind: Seq<char>,
)
    ensures
        ids_of_kind(Seq::empty(), Seq::empty(), kind).len() == 0,
        item.kind == kind ==> ids_of_kind(acted, refused.push(item), kind) == ids_of_kind(
            acted,
            refused,
            kind,
        ).push(item.id),
        item.kind != kind ==> ids_of_kind(acted, refused.push(item), kind) == ids_of_kind(
            acted,
            refused,
            kind,
        ),
        ids_of_kind(acted, Seq::empty(), kind) == ids_of_kind(Seq::empty(), acted, kind),
{
    let of_kind = |i: ItemView| i.kind == kind;
    operator_plan::filter_nothing(of_kind);
    assert(Seq::<ItemView>::empty() + Seq::<ItemView>::empty() =~= Seq::<ItemView>::empty());
    assert(acted + refused.push(item) =~= (acted + refused).push(item));
    operator_plan::filter_one_more(acted + refused, item, of_kind);
    assert(acted + Seq::<ItemView>::empty() =~= Seq::<ItemView>::empty() + acted);
}

/// What is written is of the row it is for: a claim is released, revoked or given to its owner, and an
/// execution becomes unknown. A refused row is not written.
pub proof fn writes_end_what_they_name(item: ItemView)
    ensures
        item.kind == "claim"@ && item.action == "release"@ ==> write_of(item) == Some(
            QuarantineWriteView::ReleaseClaim { id: item.id },
        ),
        item.kind == "claim"@ && item.action == "quarantine"@ ==> write_of(item) == Some(
            QuarantineWriteView::RevokeClaim { id: item.id },
        ),
        item.kind == "claim"@ && item.action == "attribute_and_release"@ ==> (write_of(item) is Some
            <==> item.target is Some && item.target->Some_0.coordinator_epoch is Some),
        item.kind == "claim"@ && item.action == "attribute_and_release"@ && write_of(item) is Some
            ==> write_of(item) == Some(
            QuarantineWriteView::AttributeClaim {
                id: item.id,
                workstream_id: item.target->Some_0.workstream_id,
                ownership_version: item.target->Some_0.ownership_version,
                coordinator_epoch: item.target->Some_0.coordinator_epoch->Some_0,
            },
        ),
        item.kind == "execution"@ && item.action == "quarantine_unknown"@ ==> write_of(item) == Some(
            QuarantineWriteView::UnknownExecution { id: item.id },
        ),
        item.action == "refuse"@ ==> write_of(item) is None,
{
    names_differ();
}

/// What recovery touches and what it leaves alone.
pub proof fn recovery_keeps_to_the_safe_subset()
    ensures
        safe_subset().len() == 4,
        safe_subset()[0] == "active_claim_release"@,
        safe_subset()[1] == "active_claim_quarantine"@,
        safe_subset()[2] == "active_claim_attribute_and_release"@,
        safe_subset()[3] == "unattributed_nonterminal_execution_quarantine_unknown"@,
        unsafe_excluded().len() == 5,
        unsafe_excluded()[0] == "silent_execution_attribution"@,
        unsafe_excluded()[1] == "executor_client_id_invention"@,
        unsafe_excluded()[2] == "use_execution_attribution_for_reviewed_client_id"@,
        unsafe_excluded()[3] == "completion_receipt_rewrite"@,
        unsafe_excluded()[4] == "automatic_resume"@,
{
}

/// A plan holds the rows of its project and the disposition that was asked for, and tells them.
pub proof fn recovery_plans_are_of_their_project(
    plan: QuarantinePlan,
    tenant: Seq<char>,
    project: Seq<char>,
    operator: Seq<char>,
    row: ProjectRow,
    disposition: ClaimDisposition,
    claims: Seq<ClaimRow>,
    executions: Seq<ExecutionRow>,
    ownership: Seq<OwnedWork>,
)
    requires
        is_plan(
            plan,
            tenant,
            project,
            operator,
            row,
            disposition,
            claims,
            executions,
            ownership,
        ),
    ensures
        plan.disposition == disposition,
        plan.lists.actionable@.len() + plan.lists.refused@.len() == claims.len() + executions.len(),
        ({
            let acted = operator_plan::item_views(plan.lists.actionable@);
            let refused = operator_plan::item_views(plan.lists.refused@);
            &&& plan.state.model() == state_doc(tenant, project, row, disposition, acted, refused)
            &&& plan.body.model() == body_doc(tenant, project, operator, disposition, acted, refused)
        }),
{
    operator_plan::plans_account_for_every_row(
        plan_items(claims, executions, ownership, row.coordinator_epoch@, disposition),
    );
}

/// A claim that goes to its owner is told with the owner, and nothing is forged.
pub proof fn attributed_claims_are_told(id: Seq<char>, work_id: Seq<char>, state: Seq<char>, workstream_id: Option<Seq<char>>, to: Seq<char>, ownership_version: i64, coordinator_epoch: Seq<char>)
    ensures
        json::field(claim_doc(id, work_id, state, workstream_id, ClaimDecisionView::AttributeAndRelease { workstream_id: to, ownership_version, coordinator_epoch }), "kind"@) == Some(JsonView::Str("claim"@)),
        json::field(claim_doc(id, work_id, state, workstream_id, ClaimDecisionView::AttributeAndRelease { workstream_id: to, ownership_version, coordinator_epoch }), "id"@) == Some(JsonView::Str(id)),
        json::field(claim_doc(id, work_id, state, workstream_id, ClaimDecisionView::AttributeAndRelease { workstream_id: to, ownership_version, coordinator_epoch }), "work_id"@) == Some(JsonView::Str(work_id)),
        json::field(claim_doc(id, work_id, state, workstream_id, ClaimDecisionView::AttributeAndRelease { workstream_id: to, ownership_version, coordinator_epoch }), "state"@) == Some(JsonView::Str(state)),
        json::field(claim_doc(id, work_id, state, workstream_id, ClaimDecisionView::AttributeAndRelease { workstream_id: to, ownership_version, coordinator_epoch }), "workstream_id"@) == Some(json::opt_item(workstream_id)),
        json::field(claim_doc(id, work_id, state, workstream_id, ClaimDecisionView::AttributeAndRelease { workstream_id: to, ownership_version, coordinator_epoch }), "action"@) == Some(JsonView::Str("attribute_and_release"@)),
        json::field(claim_doc(id, work_id, state, workstream_id, ClaimDecisionView::AttributeAndRelease { workstream_id: to, ownership_version, coordinator_epoch }), "target_workstream_id"@) == Some(JsonView::Str(to)),
        json::field(claim_doc(id, work_id, state, workstream_id, ClaimDecisionView::AttributeAndRelease { workstream_id: to, ownership_version, coordinator_epoch }), "ownership_version"@) == Some(JsonView::Str(text::decimal_form(ownership_version as int))),
        json::field(claim_doc(id, work_id, state, workstream_id, ClaimDecisionView::AttributeAndRelease { workstream_id: to, ownership_version, coordinator_epoch }), "coordinator_epoch"@) == Some(JsonView::Str(coordinator_epoch)),
        json::field(claim_doc(id, work_id, state, workstream_id, ClaimDecisionView::AttributeAndRelease { workstream_id: to, ownership_version, coordinator_epoch }), "forges_identity"@) == Some(JsonView::Bool(false)),
{
    reveal_strlit("kind");
    reveal_strlit("id");
    reveal_strlit("work_id");
    reveal_strlit("state");
    reveal_strlit("workstream_id");
    reveal_strlit("action");
    reveal_strlit("target_workstream_id");
    reveal_strlit("ownership_version");
    reveal_strlit("coordinator_epoch");
    reveal_strlit("forges_identity");
    assert("kind"@.len() == 4);
    assert("id"@.len() == 2);
    assert("work_id"@.len() == 7);
    assert("state"@.len() == 5);
    assert("workstream_id"@.len() == 13);
    assert("action"@.len() == 6);
    assert("target_workstream_id"@.len() == 20);
    assert("ownership_version"@.len() == 17);
    assert("coordinator_epoch"@.len() == 17);
    assert("forges_identity"@.len() == 15);
    assert("ownership_version"@[0] == 'o');
    assert("coordinator_epoch"@[0] == 'c');
    let f = claim_doc(id, work_id, state, workstream_id, ClaimDecisionView::AttributeAndRelease { workstream_id: to, ownership_version, coordinator_epoch })->Obj_0;
    json::field_is_first(f, "kind"@, 0);
    json::field_is_first(f, "id"@, 1);
    json::field_is_first(f, "work_id"@, 2);
    json::field_is_first(f, "state"@, 3);
    json::field_is_first(f, "workstream_id"@, 4);
    json::field_is_first(f, "action"@, 5);
    json::field_is_first(f, "target_workstream_id"@, 6);
    json::field_is_first(f, "ownership_version"@, 7);
    json::field_is_first(f, "coordinator_epoch"@, 8);
    json::field_is_first(f, "forges_identity"@, 9);
}

/// A claim that is released is told as such.
pub proof fn released_claims_are_told(id: Seq<char>, work_id: Seq<char>, state: Seq<char>, workstream_id: Option<Seq<char>>)
    ensures
        json::field(claim_doc(id, work_id, state, workstream_id, ClaimDecisionView::Release), "kind"@) == Some(JsonView::Str("claim"@)),
        json::field(claim_doc(id, work_id, state, workstream_id, ClaimDecisionView::Release), "id"@) == Some(JsonView::Str(id)),
        json::field(claim_doc(id, work_id, state, workstream_id, ClaimDecisionView::Release), "work_id"@) == Some(JsonView::Str(work_id)),
        json::field(claim_doc(id, work_id, state, workstream_id, ClaimDecisionView::Release), "state"@) == Some(JsonView::Str(state)),
        json::field(claim_doc(id, work_id, state, workstream_id, ClaimDecisionView::Release), "workstream_id"@) == Some(json::opt_item(workstream_id)),
        json::field(claim_doc(id, work_id, state, workstream_id, ClaimDecisionView::Release), "action"@) == Some(JsonView::Str("release"@)),
        json::field(claim_doc(id, work_id, state, workstream_id, ClaimDecisionView::Release), "forges_identity"@) == Some(JsonView::Bool(false)),
{
    reveal_strlit("kind");
    reveal_strlit("id");
    reveal_strlit("work_id");
    reveal_strlit("state");
    reveal_strlit("workstream_id");
    reveal_strlit("action");
    reveal_strlit("forges_identity");
    assert("kind"@.len() == 4);
    assert("id"@.len() == 2);
    assert("work_id"@.len() == 7);
    assert("state"@.len() == 5);
    assert("workstream_id"@.len() == 13);
    assert("action"@.len() == 6);
    assert("forges_identity"@.len() == 15);
    let f = claim_doc(id, work_id, state, workstream_id, ClaimDecisionView::Release)->Obj_0;
    json::field_is_first(f, "kind"@, 0);
    json::field_is_first(f, "id"@, 1);
    json::field_is_first(f, "work_id"@, 2);
    json::field_is_first(f, "state"@, 3);
    json::field_is_first(f, "workstream_id"@, 4);
    json::field_is_first(f, "action"@, 5);
    json::field_is_first(f, "forges_identity"@, 6);
}

/// A claim that is quarantined is told as to be revoked.
pub proof fn quarantined_claims_are_told(id: Seq<char>, work_id: Seq<char>, state: Seq<char>, workstream_id: Option<Seq<char>>)
    ensures
        json::field(claim_doc(id, work_id, state, workstream_id, ClaimDecisionView::Quarantine), "kind"@) == Some(JsonView::Str("claim"@)),
        json::field(claim_doc(id, work_id, state, workstream_id, ClaimDecisionView::Quarantine), "id"@) == Some(JsonView::Str(id)),
        json::field(claim_doc(id, work_id, state, workstream_id, ClaimDecisionView::Quarantine), "work_id"@) == Some(JsonView::Str(work_id)),
        json::field(claim_doc(id, work_id, state, workstream_id, ClaimDecisionView::Quarantine), "state"@) == Some(JsonView::Str(state)),
        json::field(claim_doc(id, work_id, state, workstream_id, ClaimDecisionView::Quarantine), "workstream_id"@) == Some(json::opt_item(workstream_id)),
        json::field(claim_doc(id, work_id, state, workstream_id, ClaimDecisionView::Quarantine), "action"@) == Some(JsonView::Str("quarantine"@)),
        json::field(claim_doc(id, work_id, state, workstream_id, ClaimDecisionView::Quarantine), "target_state"@) == Some(JsonView::Str("revoked"@)),
        json::field(claim_doc(id, work_id, state, workstream_id, ClaimDecisionView::Quarantine), "forges_identity"@) == Some(JsonView::Bool(false)),
{
    reveal_strlit("kind");
    reveal_strlit("id");
    reveal_strlit("work_id");
    reveal_strlit("state");
    reveal_strlit("workstream_id");
    reveal_strlit("action");
    reveal_strlit("target_state");
    reveal_strlit("forges_identity");
    assert("kind"@.len() == 4);
    assert("id"@.len() == 2);
    assert("work_id"@.len() == 7);
    assert("state"@.len() == 5);
    assert("workstream_id"@.len() == 13);
    assert("action"@.len() == 6);
    assert("target_state"@.len() == 12);
    assert("forges_identity"@.len() == 15);
    let f = claim_doc(id, work_id, state, workstream_id, ClaimDecisionView::Quarantine)->Obj_0;
    json::field_is_first(f, "kind"@, 0);
    json::field_is_first(f, "id"@, 1);
    json::field_is_first(f, "work_id"@, 2);
    json::field_is_first(f, "state"@, 3);
    json::field_is_first(f, "workstream_id"@, 4);
    json::field_is_first(f, "action"@, 5);
    json::field_is_first(f, "target_state"@, 6);
    json::field_is_first(f, "forges_identity"@, 7);
}

/// A claim that is refused is told with the reason.
pub proof fn refused_claims_are_told(id: Seq<char>, work_id: Seq<char>, state: Seq<char>, workstream_id: Option<Seq<char>>, reason: Seq<char>)
    ensures
        json::field(claim_doc(id, work_id, state, workstream_id, ClaimDecisionView::Refuse { reason }), "kind"@) == Some(JsonView::Str("claim"@)),
        json::field(claim_doc(id, work_id, state, workstream_id, ClaimDecisionView::Refuse { reason }), "id"@) == Some(JsonView::Str(id)),
        json::field(claim_doc(id, work_id, state, workstream_id, ClaimDecisionView::Refuse { reason }), "work_id"@) == Some(JsonView::Str(work_id)),
        json::field(claim_doc(id, work_id, state, workstream_id, ClaimDecisionView::Refuse { reason }), "state"@) == Some(JsonView::Str(state)),
        json::field(claim_doc(id, work_id, state, workstream_id, ClaimDecisionView::Refuse { reason }), "workstream_id"@) == Some(json::opt_item(workstream_id)),
        json::field(claim_doc(id, work_id, state, workstream_id, ClaimDecisionView::Refuse { reason }), "action"@) == Some(JsonView::Str("refuse"@)),
        json::field(claim_doc(id, work_id, state, workstream_id, ClaimDecisionView::Refuse { reason }), "reason"@) == Some(JsonView::Str(reason)),
{
    reveal_strlit("kind");
    reveal_strlit("id");
    reveal_strlit("work_id");
    reveal_strlit("state");
    reveal_strlit("workstream_id");
    reveal_strlit("action");
    reveal_strlit("reason");
    assert("kind"@.len() == 4);
    assert("id"@.len() == 2);
    assert("work_id"@.len() == 7);
    assert("state"@.len() == 5);
    assert("workstream_id"@.len() == 13);
    assert("action"@.len() == 6);
    assert("reason"@.len() == 6);
    assert("action"@[0] == 'a');
    assert("reason"@[0] == 'r');
    let f = claim_doc(id, work_id, state, workstream_id, ClaimDecisionView::Refuse { reason })->Obj_0;
    json::field_is_first(f, "kind"@, 0);
    json::field_is_first(f, "id"@, 1);
    json::field_is_first(f, "work_id"@, 2);
    json::field_is_first(f, "state"@, 3);
    json::field_is_first(f, "workstream_id"@, 4);
    json::field_is_first(f, "action"@, 5);
    json::field_is_first(f, "reason"@, 6);
}

/// An execution that becomes unknown is told as such, without an executor.
pub proof fn unknown_executions_are_told(id: Seq<char>, work_id: Seq<char>, state: Seq<char>, workstream_id: Option<Seq<char>>)
    ensures
        json::field(execution_doc(id, work_id, state, workstream_id, ExecutionDecisionView::QuarantineUnknown), "kind"@) == Some(JsonView::Str("execution"@)),
        json::field(execution_doc(id, work_id, state, workstream_id, ExecutionDecisionView::QuarantineUnknown), "id"@) == Some(JsonView::Str(id)),
        json::field(execution_doc(id, work_id, state, workstream_id, ExecutionDecisionView::QuarantineUnknown), "work_id"@) == Some(JsonView::Str(work_id)),
        json::field(execution_doc(id, work_id, state, workstream_id, ExecutionDecisionView::QuarantineUnknown), "state"@) == Some(JsonView::Str(state)),
        json::field(execution_doc(id, work_id, state, workstream_id, ExecutionDecisionView::QuarantineUnknown), "workstream_id"@) == Some(json::opt_item(workstream_id)),
        json::field(execution_doc(id, work_id, state, workstream_id, ExecutionDecisionView::QuarantineUnknown), "action"@) == Some(JsonView::Str("quarantine_unknown"@)),
        json::field(execution_doc(id, work_id, state, workstream_id, ExecutionDecisionView::QuarantineUnknown), "target_state"@) == Some(JsonView::Str("unknown"@)),
        json::field(execution_doc(id, work_id, state, workstream_id, ExecutionDecisionView::QuarantineUnknown), "forges_identity"@) == Some(JsonView::Bool(false)),
        json::field(execution_doc(id, work_id, state, workstream_id, ExecutionDecisionView::QuarantineUnknown), "executor_client_id_set"@) == Some(JsonView::Bool(false)),
{
    reveal_strlit("kind");
    reveal_strlit("id");
    reveal_strlit("work_id");
    reveal_strlit("state");
    reveal_strlit("workstream_id");
    reveal_strlit("action");
    reveal_strlit("target_state");
    reveal_strlit("forges_identity");
    reveal_strlit("executor_client_id_set");
    assert("kind"@.len() == 4);
    assert("id"@.len() == 2);
    assert("work_id"@.len() == 7);
    assert("state"@.len() == 5);
    assert("workstream_id"@.len() == 13);
    assert("action"@.len() == 6);
    assert("target_state"@.len() == 12);
    assert("forges_identity"@.len() == 15);
    assert("executor_client_id_set"@.len() == 22);
    let f = execution_doc(id, work_id, state, workstream_id, ExecutionDecisionView::QuarantineUnknown)->Obj_0;
    json::field_is_first(f, "kind"@, 0);
    json::field_is_first(f, "id"@, 1);
    json::field_is_first(f, "work_id"@, 2);
    json::field_is_first(f, "state"@, 3);
    json::field_is_first(f, "workstream_id"@, 4);
    json::field_is_first(f, "action"@, 5);
    json::field_is_first(f, "target_state"@, 6);
    json::field_is_first(f, "forges_identity"@, 7);
    json::field_is_first(f, "executor_client_id_set"@, 8);
}

/// An execution that is refused is told with the reason.
pub proof fn refused_executions_are_told(id: Seq<char>, work_id: Seq<char>, state: Seq<char>, workstream_id: Option<Seq<char>>, reason: Seq<char>)
    ensures
        json::field(execution_doc(id, work_id, state, workstream_id, ExecutionDecisionView::Refuse { reason }), "kind"@) == Some(JsonView::Str("execution"@)),
        json::field(execution_doc(id, work_id, state, workstream_id, ExecutionDecisionView::Refuse { reason }), "id"@) == Some(JsonView::Str(id)),
        json::field(execution_doc(id, work_id, state, workstream_id, ExecutionDecisionView::Refuse { reason }), "work_id"@) == Some(JsonView::Str(work_id)),
        json::field(execution_doc(id, work_id, state, workstream_id, ExecutionDecisionView::Refuse { reason }), "state"@) == Some(JsonView::Str(state)),
        json::field(execution_doc(id, work_id, state, workstream_id, ExecutionDecisionView::Refuse { reason }), "workstream_id"@) == Some(json::opt_item(workstream_id)),
        json::field(execution_doc(id, work_id, state, workstream_id, ExecutionDecisionView::Refuse { reason }), "action"@) == Some(JsonView::Str("refuse"@)),
        json::field(execution_doc(id, work_id, state, workstream_id, ExecutionDecisionView::Refuse { reason }), "reason"@) == Some(JsonView::Str(reason)),
        json::field(execution_doc(id, work_id, state, workstream_id, ExecutionDecisionView::Refuse { reason }), "forges_identity"@) == Some(JsonView::Bool(false)),
{
    reveal_strlit("kind");
    reveal_strlit("id");
    reveal_strlit("work_id");
    reveal_strlit("state");
    reveal_strlit("workstream_id");
    reveal_strlit("action");
    reveal_strlit("reason");
    reveal_strlit("forges_identity");
    assert("kind"@.len() == 4);
    assert("id"@.len() == 2);
    assert("work_id"@.len() == 7);
    assert("state"@.len() == 5);
    assert("workstream_id"@.len() == 13);
    assert("action"@.len() == 6);
    assert("reason"@.len() == 6);
    assert("forges_identity"@.len() == 15);
    assert("action"@[0] == 'a');
    assert("reason"@[0] == 'r');
    let f = execution_doc(id, work_id, state, workstream_id, ExecutionDecisionView::Refuse { reason })->Obj_0;
    json::field_is_first(f, "kind"@, 0);
    json::field_is_first(f, "id"@, 1);
    json::field_is_first(f, "work_id"@, 2);
    json::field_is_first(f, "state"@, 3);
    json::field_is_first(f, "workstream_id"@, 4);
    json::field_is_first(f, "action"@, 5);
    json::field_is_first(f, "reason"@, 6);
    json::field_is_first(f, "forges_identity"@, 7);
}

/// Counts are of what is done with the rows, by kind.
pub proof fn recovery_counts_are_told(acted: Seq<ItemView>, refused: Seq<ItemView>)
    ensures
        json::field(counts_doc(acted, refused), "actionable"@) == Some(json::count_item(acted.len() as usize)),
        json::field(counts_doc(acted, refused), "refused"@) == Some(json::count_item(refused.len() as usize)),
        json::field(counts_doc(acted, refused), "claims_attribute_and_release"@) == Some(action_count(acted, "claim"@, "attribute_and_release"@)),
        json::field(counts_doc(acted, refused), "claims_release"@) == Some(action_count(acted, "claim"@, "release"@)),
        json::field(counts_doc(acted, refused), "claims_quarantine"@) == Some(action_count(acted, "claim"@, "quarantine"@)),
        json::field(counts_doc(acted, refused), "executions_quarantine_unknown"@) == Some(action_count(acted, "execution"@, "quarantine_unknown"@)),
        json::field(counts_doc(acted, refused), "claims_refused"@) == Some(kind_count(refused, "claim"@)),
        json::field(counts_doc(acted, refused), "executions_refused"@) == Some(kind_count(refused, "execution"@)),
{
    reveal_strlit("actionable");
    reveal_strlit("refused");
    reveal_strlit("claims_attribute_and_release");
    reveal_strlit("claims_release");
    reveal_strlit("claims_quarantine");
    reveal_strlit("executions_quarantine_unknown");
    reveal_strlit("claims_refused");
    reveal_strlit("executions_refused");
    assert("actionable"@.len() == 10);
    assert("refused"@.len() == 7);
    assert("claims_attribute_and_release"@.len() == 28);
    assert("claims_release"@.len() == 14);
    assert("claims_quarantine"@.len() == 17);
    assert("executions_quarantine_unknown"@.len() == 29);
    assert("claims_refused"@.len() == 14);
    assert("executions_refused"@.len() == 18);
    assert("claims_release"@[9] == 'l');
    assert("claims_refused"@[9] == 'f');
    let f = counts_doc(acted, refused)->Obj_0;
    json::field_is_first(f, "actionable"@, 0);
    json::field_is_first(f, "refused"@, 1);
    json::field_is_first(f, "claims_attribute_and_release"@, 2);
    json::field_is_first(f, "claims_release"@, 3);
    json::field_is_first(f, "claims_quarantine"@, 4);
    json::field_is_first(f, "executions_quarantine_unknown"@, 5);
    json::field_is_first(f, "claims_refused"@, 6);
    json::field_is_first(f, "executions_refused"@, 7);
}

/// The state that a plan was made for is that of the project, with the rows it is about.
pub proof fn recovery_states_are_told(tenant: Seq<char>, project: Seq<char>, row: ProjectRow, disposition: ClaimDisposition, acted: Seq<ItemView>, refused: Seq<ItemView>)
    ensures
        json::field(state_doc(tenant, project, row, disposition, acted, refused), "tenant_id"@) == Some(JsonView::Str(tenant)),
        json::field(state_doc(tenant, project, row, disposition, acted, refused), "project_id"@) == Some(JsonView::Str(project)),
        json::field(state_doc(tenant, project, row, disposition, acted, refused), "project_status"@) == Some(JsonView::Str(row.status@)),
        json::field(state_doc(tenant, project, row, disposition, acted, refused), "coordinator_epoch"@) == Some(JsonView::Str(row.coordinator_epoch@)),
        json::field(state_doc(tenant, project, row, disposition, acted, refused), "project_revision"@) == Some(JsonView::Str(text::decimal_form(row.project_revision as int))),
        json::field(state_doc(tenant, project, row, disposition, acted, refused), "source_snapshot_id"@) == Some(json::opt_item(text::opt(row.source_snapshot_id))),
        json::field(state_doc(tenant, project, row, disposition, acted, refused), "claim_disposition"@) == Some(JsonView::Str(disposition.name())),
        json::field(state_doc(tenant, project, row, disposition, acted, refused), "active_claim_ids"@) == Some(json::text_items(ids_of_kind(acted, refused, "claim"@))),
        json::field(state_doc(tenant, project, row, disposition, acted, refused), "unattributed_execution_ids"@) == Some(json::text_items(ids_of_kind(acted, refused, "execution"@))),
{
    reveal_strlit("tenant_id");
    reveal_strlit("project_id");
    reveal_strlit("project_status");
    reveal_strlit("coordinator_epoch");
    reveal_strlit("project_revision");
    reveal_strlit("source_snapshot_id");
    reveal_strlit("claim_disposition");
    reveal_strlit("active_claim_ids");
    reveal_strlit("unattributed_execution_ids");
    assert("tenant_id"@.len() == 9);
    assert("project_id"@.len() == 10);
    assert("project_status"@.len() == 14);
    assert("coordinator_epoch"@.len() == 17);
    assert("project_revision"@.len() == 16);
    assert("source_snapshot_id"@.len() == 18);
    assert("claim_disposition"@.len() == 17);
    assert("active_claim_ids"@.len() == 16);
    assert("unattributed_execution_ids"@.len() == 26);
    assert("coordinator_epoch"@[1] == 'o');
    assert("claim_disposition"@[1] == 'l');
    assert("project_revision"@[0] == 'p');
    assert("active_claim_ids"@[0] == 'a');
    let f = state_doc(tenant, project, row, disposition, acted, refused)->Obj_0;
    json::field_is_first(f, "tenant_id"@, 0);
    json::field_is_first(f, "project_id"@, 1);
    json::field_is_first(f, "project_status"@, 2);
    json::field_is_first(f, "coordinator_epoch"@, 3);
    json::field_is_first(f, "project_revision"@, 4);
    json::field_is_first(f, "source_snapshot_id"@, 5);
    json::field_is_first(f, "claim_disposition"@, 6);
    json::field_is_first(f, "active_claim_ids"@, 7);
    json::field_is_first(f, "unattributed_execution_ids"@, 8);
}

/// A plan tells what it would do, and changes nothing itself.
pub proof fn recovery_plans_are_told(tenant: Seq<char>, project: Seq<char>, operator: Seq<char>, disposition: ClaimDisposition, acted: Seq<ItemView>, refused: Seq<ItemView>)
    ensures
        json::field(body_doc(tenant, project, operator, disposition, acted, refused), "protocol"@) == Some(JsonView::Str("awr-operator-claim-execution-recovery-v1"@)),
        json::field(body_doc(tenant, project, operator, disposition, acted, refused), "protocol_version"@) == Some(JsonView::Int(1)),
        json::field(body_doc(tenant, project, operator, disposition, acted, refused), "read_only_preview"@) == Some(JsonView::Bool(true)),
        json::field(body_doc(tenant, project, operator, disposition, acted, refused), "mutation_on_preview"@) == Some(JsonView::Bool(false)),
        json::field(body_doc(tenant, project, operator, disposition, acted, refused), "operator_role"@) == Some(JsonView::Str(operator)),
        json::field(body_doc(tenant, project, operator, disposition, acted, refused), "tenant_id"@) == Some(JsonView::Str(tenant)),
        json::field(body_doc(tenant, project, operator, disposition, acted, refused), "project_id"@) == Some(JsonView::Str(project)),
        json::field(body_doc(tenant, project, operator, disposition, acted, refused), "claim_disposition"@) == Some(JsonView::Str(disposition.name())),
        json::field(body_doc(tenant, project, operator, disposition, acted, refused), "safe_subset"@) == Some(json::text_items(safe_subset())),
        json::field(body_doc(tenant, project, operator, disposition, acted, refused), "unsafe_excluded"@) == Some(json::text_items(unsafe_excluded())),
        json::field(body_doc(tenant, project, operator, disposition, acted, refused), "forges_identity"@) == Some(JsonView::Bool(false)),
        json::field(body_doc(tenant, project, operator, disposition, acted, refused), "local_file_access"@) == Some(JsonView::Str("not_server_acl_or_confidentiality_sandbox"@)),
        json::field(body_doc(tenant, project, operator, disposition, acted, refused), "frontend_filtering"@) == Some(JsonView::Bool(false)),
        json::field(body_doc(tenant, project, operator, disposition, acted, refused), "counts"@) == Some(counts_doc(acted, refused)),
        json::field(body_doc(tenant, project, operator, disposition, acted, refused), "actionable"@) == Some(JsonView::Arr(operator_plan::docs(acted))),
        json::field(body_doc(tenant, project, operator, disposition, acted, refused), "refused"@) == Some(JsonView::Arr(operator_plan::docs(refused))),
        json::field(body_doc(tenant, project, operator, disposition, acted, refused), "actionable_sample"@) == Some(JsonView::Arr(operator_plan::docs(operator_plan::sample(acted)))),
        json::field(body_doc(tenant, project, operator, disposition, acted, refused), "refused_sample"@) == Some(JsonView::Arr(operator_plan::docs(operator_plan::sample(refused)))),
{
    reveal_strlit("protocol");
    reveal_strlit("protocol_version");
    reveal_strlit("read_only_preview");
    reveal_strlit("mutation_on_preview");
    reveal_strlit("operator_role");
    reveal_strlit("tenant_id");
    reveal_strlit("project_id");
    reveal_strlit("claim_disposition");
    reveal_strlit("safe_subset");
    reveal_strlit("unsafe_excluded");
    reveal_strlit("forges_identity");
    reveal_strlit("local_file_access");
    reveal_strlit("frontend_filtering");
    reveal_strlit("counts");
    reveal_strlit("actionable");
    reveal_strlit("refused");
    reveal_strlit("actionable_sample");
    reveal_strlit("refused_sample");
    assert("protocol"@.len() == 8);
    assert("protocol_version"@.len() == 16);
    assert("read_only_preview"@.len() == 17);
    assert("mutation_on_preview"@.len() == 19);
    assert("operator_role"@.len() == 13);
    assert("tenant_id"@.len() == 9);
    assert("project_id"@.len() == 10);
    assert("claim_disposition"@.len() == 17);
    assert("safe_subset"@.len() == 11);
    assert("unsafe_excluded"@.len() == 15);
    assert("forges_identity"@.len() == 15);
    assert("local_file_access"@.len() == 17);
    assert("frontend_filtering"@.len() == 18);
    assert("counts"@.len() == 6);
    assert("actionable"@.len() == 10);
    assert("refused"@.len() == 7);
    assert("actionable_sample"@.len() == 17);
    assert("refused_sample"@.len() == 14);
    assert("read_only_preview"@[0] == 'r');
    assert("claim_disposition"@[0] == 'c');
    assert("local_file_access"@[0] == 'l');
    assert("actionable_sample"@[0] == 'a');
    assert("project_id"@[0] == 'p');
    assert("actionable"@[0] == 'a');
    assert("unsafe_excluded"@[0] == 'u');
    assert("forges_identity"@[0] == 'f');
    let f = body_doc(tenant, project, operator, disposition, acted, refused)->Obj_0;
    json::field_is_first(f, "protocol"@, 0);
    json::field_is_first(f, "protocol_version"@, 1);
    json::field_is_first(f, "read_only_preview"@, 2);
    json::field_is_first(f, "mutation_on_preview"@, 3);
    json::field_is_first(f, "operator_role"@, 4);
    json::field_is_first(f, "tenant_id"@, 5);
    json::field_is_first(f, "project_id"@, 6);
    json::field_is_first(f, "claim_disposition"@, 7);
    json::field_is_first(f, "safe_subset"@, 8);
    json::field_is_first(f, "unsafe_excluded"@, 9);
    json::field_is_first(f, "forges_identity"@, 10);
    json::field_is_first(f, "local_file_access"@, 11);
    json::field_is_first(f, "frontend_filtering"@, 12);
    json::field_is_first(f, "counts"@, 13);
    json::field_is_first(f, "actionable"@, 14);
    json::field_is_first(f, "refused"@, 15);
    json::field_is_first(f, "actionable_sample"@, 16);
    json::field_is_first(f, "refused_sample"@, 17);
}

/// The intent of a request is its project, what it expects and what becomes of claims, not its name.
pub proof fn recovery_requests_are_told(q: QuarantineRequest, disposition: ClaimDisposition)
    ensures
        json::field(intent_doc(q, disposition), "protocol"@) == Some(JsonView::Str("awr-operator-claim-execution-recovery-v1"@)),
        json::field(intent_doc(q, disposition), "tenant_id"@) == Some(JsonView::Str(q.tenant@)),
        json::field(intent_doc(q, disposition), "project_id"@) == Some(JsonView::Str(q.project@)),
        json::field(intent_doc(q, disposition), "expected_state"@) == Some(JsonView::Str(q.expected_state@)),
        json::field(intent_doc(q, disposition), "expected_plan"@) == Some(JsonView::Str(q.expected_plan@)),
        json::field(intent_doc(q, disposition), "claim_disposition"@) == Some(JsonView::Str(disposition.name())),
{
    reveal_strlit("protocol");
    reveal_strlit("tenant_id");
    reveal_strlit("project_id");
    reveal_strlit("expected_state");
    reveal_strlit("expected_plan");
    reveal_strlit("claim_disposition");
    assert("protocol"@.len() == 8);
    assert("tenant_id"@.len() == 9);
    assert("project_id"@.len() == 10);
    assert("expected_state"@.len() == 14);
    assert("expected_plan"@.len() == 13);
    assert("claim_disposition"@.len() == 17);
    let f = intent_doc(q, disposition)->Obj_0;
    json::field_is_first(f, "protocol"@, 0);
    json::field_is_first(f, "tenant_id"@, 1);
    json::field_is_first(f, "project_id"@, 2);
    json::field_is_first(f, "expected_state"@, 3);
    json::field_is_first(f, "expected_plan"@, 4);
    json::field_is_first(f, "claim_disposition"@, 5);
}

/// A receipt names its request and tells what was done; nothing is forged, authorized or resumed.
pub proof fn recovery_receipts_are_told(q: QuarantineRequest, disposition: ClaimDisposition, intent_hash: Seq<char>, operator: Seq<char>, revision: i64, acted: Seq<ItemView>, refused: Seq<ItemView>)
    ensures
        json::field(receipt_doc(q, disposition, intent_hash, operator, revision, acted, refused), "protocol"@) == Some(JsonView::Str("awr-operator-claim-execution-recovery-v1"@)),
        json::field(receipt_doc(q, disposition, intent_hash, operator, revision, acted, refused), "request_id"@) == Some(JsonView::Str(q.request@)),
        json::field(receipt_doc(q, disposition, intent_hash, operator, revision, acted, refused), "request_hash"@) == Some(JsonView::Str(intent_hash)),
        json::field(receipt_doc(q, disposition, intent_hash, operator, revision, acted, refused), "operator_role"@) == Some(JsonView::Str(operator)),
        json::field(receipt_doc(q, disposition, intent_hash, operator, revision, acted, refused), "tenant_id"@) == Some(JsonView::Str(q.tenant@)),
        json::field(receipt_doc(q, disposition, intent_hash, operator, revision, acted, refused), "project_id"@) == Some(JsonView::Str(q.project@)),
        json::field(receipt_doc(q, disposition, intent_hash, operator, revision, acted, refused), "claim_disposition"@) == Some(JsonView::Str(disposition.name())),
        json::field(receipt_doc(q, disposition, intent_hash, operator, revision, acted, refused), "state_digest"@) == Some(JsonView::Str(q.expected_state@)),
        json::field(receipt_doc(q, disposition, intent_hash, operator, revision, acted, refused), "plan_digest"@) == Some(JsonView::Str(q.expected_plan@)),
        json::field(receipt_doc(q, disposition, intent_hash, operator, revision, acted, refused), "project_revision"@) == Some(JsonView::Str(text::decimal_form(revision as int))),
        json::field(receipt_doc(q, disposition, intent_hash, operator, revision, acted, refused), "applied"@) == Some(JsonView::Arr(operator_plan::docs(acted))),
        json::field(receipt_doc(q, disposition, intent_hash, operator, revision, acted, refused), "refused"@) == Some(JsonView::Arr(operator_plan::docs(refused))),
        json::field(receipt_doc(q, disposition, intent_hash, operator, revision, acted, refused), "counts"@) == Some(counts_doc(acted, refused)),
        json::field(receipt_doc(q, disposition, intent_hash, operator, revision, acted, refused), "identity_forged"@) == Some(JsonView::Bool(false)),
        json::field(receipt_doc(q, disposition, intent_hash, operator, revision, acted, refused), "executor_client_id_invented"@) == Some(JsonView::Bool(false)),
        json::field(receipt_doc(q, disposition, intent_hash, operator, revision, acted, refused), "completion_receipts_modified"@) == Some(JsonView::Bool(false)),
        json::field(receipt_doc(q, disposition, intent_hash, operator, revision, acted, refused), "execution_authorized"@) == Some(JsonView::Bool(false)),
        json::field(receipt_doc(q, disposition, intent_hash, operator, revision, acted, refused), "automatic_resume"@) == Some(JsonView::Bool(false)),
        json::field(receipt_doc(q, disposition, intent_hash, operator, revision, acted, refused), "recovery_barrier_required"@) == Some(JsonView::Bool(true)),
        json::field(receipt_doc(q, disposition, intent_hash, operator, revision, acted, refused), "stop_or_reconcile_required"@) == Some(JsonView::Bool(true)),
        json::field(receipt_doc(q, disposition, intent_hash, operator, revision, acted, refused), "state_basis"@) == Some(JsonView::Str("at_commit"@)),
{
    reveal_strlit("protocol");
    reveal_strlit("request_id");
    reveal_strlit("request_hash");
    reveal_strlit("operator_role");
    reveal_strlit("tenant_id");
    reveal_strlit("project_id");
    reveal_strlit("claim_disposition");
    reveal_strlit("state_digest");
    reveal_strlit("plan_digest");
    reveal_strlit("project_revision");
    reveal_strlit("applied");
    reveal_strlit("refused");
    reveal_strlit("counts");
    reveal_strlit("identity_forged");
    reveal_strlit("executor_client_id_invented");
    reveal_strlit("completion_receipts_modified");
    reveal_strlit("execution_authorized");
    reveal_strlit("automatic_resume");
    reveal_strlit("recovery_barrier_required");
    reveal_strlit("stop_or_reconcile_required");
    reveal_strlit("state_basis");
    assert("protocol"@.len() == 8);
    assert("request_id"@.len() == 10);
    assert("request_hash"@.len() == 12);
    assert("operator_role"@.len() == 13);
    assert("tenant_id"@.len() == 9);
    assert("project_id"@.len() == 10);
    assert("claim_disposition"@.len() == 17);
    assert("state_digest"@.len() == 12);
    assert("plan_digest"@.len() == 11);
    assert("project_revision"@.len() == 16);
    assert("applied"@.len() == 7);
    assert("refused"@.len() == 7);
    assert("counts"@.len() == 6);
    assert("identity_forged"@.len() == 15);
    assert("executor_client_id_invented"@.len() == 27);
    assert("completion_receipts_modified"@.len() == 28);
    assert("execution_authorized"@.len() == 20);
    assert("automatic_resume"@.len() == 16);
    assert("recovery_barrier_required"@.len() == 25);
    assert("stop_or_reconcile_required"@.len() == 26);
    assert("state_basis"@.len() == 11);
    assert("request_id"@[0] == 'r');
    assert("project_id"@[0] == 'p');
    assert("request_hash"@[0] == 'r');
    assert("state_digest"@[0] == 's');
    assert("plan_digest"@[0] == 'p');
    assert("state_basis"@[0] == 's');
    assert("project_revision"@[0] == 'p');
    assert("automatic_resume"@[0] == 'a');
    assert("applied"@[0] == 'a');
    assert("refused"@[0] == 'r');
    let f = receipt_doc(q, disposition, intent_hash, operator, revision, acted, refused)->Obj_0;
    json::field_is_first(f, "protocol"@, 0);
    json::field_is_first(f, "request_id"@, 1);
    json::field_is_first(f, "request_hash"@, 2);
    json::field_is_first(f, "operator_role"@, 3);
    json::field_is_first(f, "tenant_id"@, 4);
    json::field_is_first(f, "project_id"@, 5);
    json::field_is_first(f, "claim_disposition"@, 6);
    json::field_is_first(f, "state_digest"@, 7);
    json::field_is_first(f, "plan_digest"@, 8);
    json::field_is_first(f, "project_revision"@, 9);
    json::field_is_first(f, "applied"@, 10);
    json::field_is_first(f, "refused"@, 11);
    json::field_is_first(f, "counts"@, 12);
    json::field_is_first(f, "identity_forged"@, 13);
    json::field_is_first(f, "executor_client_id_invented"@, 14);
    json::field_is_first(f, "completion_receipts_modified"@, 15);
    json::field_is_first(f, "execution_authorized"@, 16);
    json::field_is_first(f, "automatic_resume"@, 17);
    json::field_is_first(f, "recovery_barrier_required"@, 18);
    json::field_is_first(f, "stop_or_reconcile_required"@, 19);
    json::field_is_first(f, "state_basis"@, 20);
}

/// A preview tells the plan and the digests that it is applied under; nothing was applied.
pub proof fn recovery_previews_are_told(operator: Seq<char>, plan: QuarantinePlan, state_digest: Seq<char>, plan_digest: Seq<char>)
    ensures
        json::field(preview_doc(operator, plan, state_digest, plan_digest), "protocol"@) == Some(JsonView::Str("awr-operator-claim-execution-recovery-v1"@)),
        json::field(preview_doc(operator, plan, state_digest, plan_digest), "applied"@) == Some(JsonView::Bool(false)),
        json::field(preview_doc(operator, plan, state_digest, plan_digest), "operator_role"@) == Some(JsonView::Str(operator)),
        json::field(preview_doc(operator, plan, state_digest, plan_digest), "claim_disposition"@) == Some(JsonView::Str(plan.disposition.name())),
        json::field(preview_doc(operator, plan, state_digest, plan_digest), "state_digest"@) == Some(JsonView::Str(state_digest)),
        json::field(preview_doc(operator, plan, state_digest, plan_digest), "plan_digest"@) == Some(JsonView::Str(plan_digest)),
        json::field(preview_doc(operator, plan, state_digest, plan_digest), "state"@) == Some(plan.state.model()),
        json::field(preview_doc(operator, plan, state_digest, plan_digest), "counts"@) == Some(counts_doc(operator_plan::item_views(plan.lists.actionable@), operator_plan::item_views(plan.lists.refused@))),
        json::field(preview_doc(operator, plan, state_digest, plan_digest), "actionable"@) == Some(JsonView::Arr(operator_plan::docs(operator_plan::item_views(plan.lists.actionable@)))),
        json::field(preview_doc(operator, plan, state_digest, plan_digest), "refused"@) == Some(JsonView::Arr(operator_plan::docs(operator_plan::item_views(plan.lists.refused@)))),
        json::field(preview_doc(operator, plan, state_digest, plan_digest), "safe_subset"@) == Some(json::text_items(safe_subset())),
        json::field(preview_doc(operator, plan, state_digest, plan_digest), "unsafe_excluded"@) == Some(json::text_items(unsafe_excluded())),
        json::field(preview_doc(operator, plan, state_digest, plan_digest), "next_action"@) == Some(JsonView::Str( "Review actionable/refused; apply with exact state_digest, plan_digest, and the same claim_disposition. Executions never receive a forged executor_client_id here; use execution-attribution-* for reviewed client ids."@, )),
{
    reveal_strlit("protocol");
    reveal_strlit("applied");
    reveal_strlit("operator_role");
    reveal_strlit("claim_disposition");
    reveal_strlit("state_digest");
    reveal_strlit("plan_digest");
    reveal_strlit("state");
    reveal_strlit("counts");
    reveal_strlit("actionable");
    reveal_strlit("refused");
    reveal_strlit("safe_subset");
    reveal_strlit("unsafe_excluded");
    reveal_strlit("next_action");
    assert("protocol"@.len() == 8);
    assert("applied"@.len() == 7);
    assert("operator_role"@.len() == 13);
    assert("claim_disposition"@.len() == 17);
    assert("state_digest"@.len() == 12);
    assert("plan_digest"@.len() == 11);
    assert("state"@.len() == 5);
    assert("counts"@.len() == 6);
    assert("actionable"@.len() == 10);
    assert("refused"@.len() == 7);
    assert("safe_subset"@.len() == 11);
    assert("unsafe_excluded"@.len() == 15);
    assert("next_action"@.len() == 11);
    assert("applied"@[0] == 'a');
    assert("refused"@[0] == 'r');
    assert("plan_digest"@[0] == 'p');
    assert("safe_subset"@[0] == 's');
    assert("next_action"@[0] == 'n');
    let f = preview_doc(operator, plan, state_digest, plan_digest)->Obj_0;
    json::field_is_first(f, "protocol"@, 0);
    json::field_is_first(f, "applied"@, 1);
    json::field_is_first(f, "operator_role"@, 2);
    json::field_is_first(f, "claim_disposition"@, 3);
    json::field_is_first(f, "state_digest"@, 4);
    json::field_is_first(f, "plan_digest"@, 5);
    json::field_is_first(f, "state"@, 6);
    json::field_is_first(f, "counts"@, 7);
    json::field_is_first(f, "actionable"@, 8);
    json::field_is_first(f, "refused"@, 9);
    json::field_is_first(f, "safe_subset"@, 10);
    json::field_is_first(f, "unsafe_excluded"@, 11);
    json::field_is_first(f, "next_action"@, 12);
}

/// A request that is not well formed is told as such.
pub proof fn malformed_requests_are_told()
    ensures
        invalid_request() == Fault::Protocol("invalid operator claim/execution recovery request"@),
{
}

} // verus!
