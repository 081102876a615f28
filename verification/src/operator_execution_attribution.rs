//! Attribution of executions to a client that an operator has reviewed.
//!
//! Only executions that a reviewed plan names are looked at. One is attributed where
//! it has a session and a claim, its work is owned, and the reviewed client is the one
//! that the session was recorded for. The client is never inferred.
use crate::error;
use crate::error::{protocol, Fault, PgError, PgResult};
use crate::json;
use crate::json::{Doc, Json, JsonView};
use crate::operator_plan;
use crate::operator_plan::{
    Item,
    ItemView,
    Lists,
    OwnedWork,
    OwnershipBinding,
    ProjectRow,
    Target,
    TargetView,
};
use crate::operator_request;
use crate::text;
use vstd::prelude::*;

verus! {

pub const PROTOCOL: &'static str = "awr-operator-execution-attribution-v1";

pub const MAX_ATTRIBUTIONS: usize = 256;

/// The refusal of a request of this command that is not well formed.
pub open spec fn invalid_request() -> Fault {
    Fault::Protocol("invalid operator execution attribution request"@)
}

fn invalid() -> (r: PgError)
    ensures
        r@ == invalid_request(),
{
    protocol("invalid operator execution attribution request")
}

/// An execution and the client that was reviewed for it.
#[derive(Clone, Debug, PartialEq, Eq)]
pub struct ExecutionAttributionEntry {
    pub execution_id: String,
    pub executor_client_id: String,
}

/// A reviewed plan.
#[derive(Clone, Debug, PartialEq, Eq)]
pub struct ExecutionAttributionPlan {
    pub protocol_version: u32,
    pub tenant_id: String,
    pub project_id: String,
    pub attributions: Vec<ExecutionAttributionEntry>,
}

/// Every entry names an execution and a client, and no execution is named twice.
pub open spec fn entries_ok(entries: Seq<ExecutionAttributionEntry>) -> bool {
    &&& forall|i: int|
        0 <= i < entries.len() ==> text::is_identity((#[trigger] entries[i]).execution_id@)
            && text::is_identity(entries[i].executor_client_id@)
    &&& forall|i: int, j: int|
        0 <= i < j < entries.len() ==> (#[trigger] entries[i]).execution_id@
            != (#[trigger] entries[j]).execution_id@
}

/// The client that was reviewed for an execution: that of the last entry that names it.
pub open spec fn reviewed_client(
    entries: Seq<ExecutionAttributionEntry>,
    execution_id: Seq<char>,
) -> Option<Seq<char>>
    decreases entries.len(),
{
    if entries.len() == 0 {
        None
    } else if entries.last().execution_id@ == execution_id {
        Some(entries.last().executor_client_id@)
    } else {
        reviewed_client(entries.drop_last(), execution_id)
    }
}

/// A reviewed plan, as a document.
pub open spec fn plan_value_doc(plan: ExecutionAttributionPlan) -> JsonView {
    JsonView::Obj(
        json::no_fields().push(("protocol_version"@, JsonView::Int(plan.protocol_version as int))).push(
            ("tenant_id"@, JsonView::Str(plan.tenant_id@)),
        ).push(("project_id"@, JsonView::Str(plan.project_id@))).push(
            (
                "attributions"@,
                JsonView::Arr(
                    plan.attributions@.map_values(|e: ExecutionAttributionEntry| entry_doc(e)),
                ),
            ),
        ),
    )
}

/// An entry of a reviewed plan, as a document.
pub open spec fn entry_doc(entry: ExecutionAttributionEntry) -> JsonView {
    JsonView::Obj(
        json::no_fields().push(("execution_id"@, JsonView::Str(entry.execution_id@))).push(
            ("executor_client_id"@, JsonView::Str(entry.executor_client_id@)),
        ),
    )
}

impl ExecutionAttributionPlan {
    /// The plan is of the known protocol, and its entries are well formed and not too many.
    pub open spec fn well_formed(&self) -> bool {
        &&& self.protocol_version == 1
        &&& text::is_identity(self.tenant_id@)
        &&& text::is_identity(self.project_id@)
        &&& 0 < self.attributions@.len() <= MAX_ATTRIBUTIONS
        &&& entries_ok(self.attributions@)
    }

    pub fn validate(&self) -> (r: PgResult<()>)
        ensures
            error::checked(r) == (if self.well_formed() {
                Ok(())
            } else {
                Err(invalid_request())
            }),
    {
        if self.protocol_version != 1 || !text::identity(self.tenant_id.as_str())
            || !text::identity(self.project_id.as_str()) || self.attributions.len() == 0
            || self.attributions.len() > MAX_ATTRIBUTIONS {
            return Err(invalid());
        }
        let entries = &self.attributions;
        let mut i: usize = 0;
        while i < entries.len()
            invariant
                i <= entries.len(),
                entries == &self.attributions,
                forall|k: int|
                    0 <= k < i ==> text::is_identity((#[trigger] entries@[k]).execution_id@)
                        && text::is_identity(entries@[k].executor_client_id@),
                forall|k: int, j: int|
                    0 <= k < j < i ==> (#[trigger] entries@[k]).execution_id@
                        != (#[trigger] entries@[j]).execution_id@,
            decreases entries.len() - i,
        {
            let a = &entries[i];
            if !text::identity(a.execution_id.as_str()) || !text::identity(
                a.executor_client_id.as_str(),
            ) {
                return Err(invalid());
            }
            let mut j: usize = 0;
            while j < i
                invariant
                    j <= i < entries.len(),
                    entries == &self.attributions,
                    a == &entries@[i as int],
                    forall|k: int|
                        0 <= k < j ==> (#[trigger] entries@[k]).execution_id@ != a.execution_id@,
                decreases i - j,
            {
                if text::same(entries[j].execution_id.as_str(), a.execution_id.as_str()) {
                    assert(entries@[j as int].execution_id@ == entries@[i as int].execution_id@);
                    return Err(invalid());
                }
                j = j + 1;
            }
            i = i + 1;
        }
        Ok(())
    }

    /// The client that was reviewed for an execution.
    pub fn reviewed_map(&self, execution_id: &str) -> (r: Option<&str>)
        ensures
            text::opt_str(r) == reviewed_client(self.attributions@, execution_id@),
    {
        let entries = &self.attributions;
        let mut n: usize = entries.len();
        assert(entries@.take(n as int) =~= entries@);
        while n > 0
            invariant
                n <= entries.len(),
                entries == &self.attributions,
                reviewed_client(entries@, execution_id@) == reviewed_client(
                    entries@.take(n as int),
                    execution_id@,
                ),
            decreases n,
        {
            assert(entries@.take(n as int).last() == entries@[n - 1]);
            assert(entries@.take(n as int).drop_last() =~= entries@.take(n - 1));
            if text::same(entries[n - 1].execution_id.as_str(), execution_id) {
                return Some(entries[n - 1].executor_client_id.as_str());
            }
            n = n - 1;
        }
        None
    }

    /// The plan, as a document.
    pub fn document(&self) -> (r: Json)
        ensures
            r.model() == plan_value_doc(*self),
    {
        let mut out: Vec<Json> = Vec::new();
        let entries = &self.attributions;
        let mut i: usize = 0;
        while i < entries.len()
            invariant
                i <= entries.len(),
                out.len() == i,
                entries == &self.attributions,
                forall|j: int| 0 <= j < i ==> #[trigger] out@[j].model() == entry_doc(entries@[j]),
            decreases entries.len() - i,
        {
            let e = &entries[i];
            let item = Doc::new().put("execution_id", json::text(e.execution_id.as_str())).put(
                "executor_client_id",
                json::text(e.executor_client_id.as_str()),
            ).json();
            out.push(item);
            i = i + 1;
        }
        assert(json::models(out@) =~= self.attributions@.map_values(
            |e: ExecutionAttributionEntry| entry_doc(e),
        ));
        Doc::new().put("protocol_version", json::number(self.protocol_version as i64)).put(
            "tenant_id",
            json::text(self.tenant_id.as_str()),
        ).put("project_id", json::text(self.project_id.as_str())).put(
            "attributions",
            json::list(out),
        ).json()
    }
}

/// In a well-formed plan the client that was reviewed for an execution is that of its entry.
pub proof fn reviewed_client_is_its_entry(entries: Seq<ExecutionAttributionEntry>, i: int)
    requires
        entries_ok(entries),
        0 <= i < entries.len(),
    ensures
        reviewed_client(entries, entries[i].execution_id@) == Some(entries[i].executor_client_id@),
    decreases entries.len(),
{
    if i < entries.len() - 1 {
        let rest = entries.drop_last();
        assert(entries.last() == entries[entries.len() - 1]);
        assert(rest[i] == entries[i]);
        assert(entries_ok(rest)) by {
            assert forall|k: int| 0 <= k < rest.len() implies text::is_identity(
                (#[trigger] rest[k]).execution_id@,
            ) && text::is_identity(rest[k].executor_client_id@) by {
                assert(rest[k] == entries[k]);
            }
            assert forall|k: int, j: int| 0 <= k < j < rest.len() implies (#[trigger] rest[k]).execution_id@
                != (#[trigger] rest[j]).execution_id@ by {
                assert(rest[k] == entries[k] && rest[j] == entries[j]);
            }
        }
        reviewed_client_is_its_entry(rest, i);
    }
}

/// What is done about an execution.
#[derive(Clone, Debug, PartialEq, Eq)]
pub enum AttributionDecision {
    Attribute {
        workstream_id: String,
        ownership_version: i64,
        coordinator_epoch: String,
        executor_client_id: String,
    },
    Refuse { reason: &'static str },
}

/// The model of a decision.
pub enum AttributionView {
    Attribute {
        workstream_id: Seq<char>,
        ownership_version: i64,
        coordinator_epoch: Seq<char>,
        executor_client_id: Seq<char>,
    },
    Refuse { reason: Seq<char> },
}

impl View for AttributionDecision {
    type V = AttributionView;

    open spec fn view(&self) -> AttributionView {
        match self {
            AttributionDecision::Attribute {
                workstream_id,
                ownership_version,
                coordinator_epoch,
                executor_client_id,
            } => AttributionView::Attribute {
                workstream_id: workstream_id@,
                ownership_version: *ownership_version,
                coordinator_epoch: coordinator_epoch@,
                executor_client_id: executor_client_id@,
            },
            AttributionDecision::Refuse { reason } => AttributionView::Refuse { reason: reason@ },
        }
    }
}

/// A text that is there and not empty.
pub open spec fn given(s: Option<Seq<char>>) -> bool {
    s is Some && s->Some_0.len() > 0
}

/// The decision on an execution: the first reason against it, or the attribution.
pub open spec fn attribution(
    attributed: bool,
    session_id: Option<Seq<char>>,
    claim_id: Option<Seq<char>>,
    ownership: Option<OwnershipBinding>,
    project_epoch: Seq<char>,
    reviewed: Option<Seq<char>>,
    session_client: Option<Seq<char>>,
) -> AttributionView {
    if attributed {
        AttributionView::Refuse { reason: "already_attributed_use_execution_reconcile"@ }
    } else if !given(reviewed) {
        AttributionView::Refuse { reason: "reviewed_executor_client_id_required"@ }
    } else if !given(session_id) {
        AttributionView::Refuse { reason: "check_requires_session_id"@ }
    } else if !given(claim_id) {
        AttributionView::Refuse { reason: "check_requires_claim_id"@ }
    } else if !given(session_client) {
        AttributionView::Refuse { reason: "session_missing_cannot_verify_executor_client_id"@ }
    } else if session_client != reviewed {
        AttributionView::Refuse { reason: "reviewed_executor_client_id_mismatch_session"@ }
    } else if ownership is None {
        AttributionView::Refuse { reason: "work_id_missing_from_current_ownership"@ }
    } else if project_epoch.len() == 0 {
        AttributionView::Refuse { reason: "project_coordinator_epoch_missing"@ }
    } else {
        AttributionView::Attribute {
            workstream_id: ownership->Some_0.workstream_id@,
            ownership_version: ownership->Some_0.ownership_version,
            coordinator_epoch: project_epoch,
            executor_client_id: reviewed->Some_0,
        }
    }
}

fn is_given(s: Option<&str>) -> (r: bool)
    ensures
        r == given(text::opt_str(s)),
{
    match s {
        Some(t) => !t.is_empty(),
        None => false,
    }
}

pub fn classify_execution_attribution(
    workstream_id: Option<&str>,
    _state: &str,
    session_id: Option<&str>,
    claim_id: Option<&str>,
    ownership: Option<&OwnershipBinding>,
    project_epoch: &str,
    reviewed_executor_client_id: Option<&str>,
    session_client_id: Option<&str>,
) -> (r: AttributionDecision)
    ensures
        r@ == attribution(
            workstream_id is Some,
            text::opt_str(session_id),
            text::opt_str(claim_id),
            operator_plan::binding_value(ownership),
            project_epoch@,
            text::opt_str(reviewed_executor_client_id),
            text::opt_str(session_client_id),
        ),
{
    if workstream_id.is_some() {
        return AttributionDecision::Refuse {
            reason: "already_attributed_use_execution_reconcile",
        };
    }
    if !is_given(reviewed_executor_client_id) {
        return AttributionDecision::Refuse { reason: "reviewed_executor_client_id_required" };
    }
    if !is_given(session_id) {
        return AttributionDecision::Refuse { reason: "check_requires_session_id" };
    }
    if !is_given(claim_id) {
        return AttributionDecision::Refuse { reason: "check_requires_claim_id" };
    }
    if !is_given(session_client_id) {
        return AttributionDecision::Refuse {
            reason: "session_missing_cannot_verify_executor_client_id",
        };
    }
    if !text::same_opt(session_client_id, reviewed_executor_client_id) {
        return AttributionDecision::Refuse {
            reason: "reviewed_executor_client_id_mismatch_session",
        };
    }
    match (ownership, reviewed_executor_client_id) {
        (Some(o), Some(reviewed)) => {
            if project_epoch.is_empty() {
                return AttributionDecision::Refuse { reason: "project_coordinator_epoch_missing" };
            }
            AttributionDecision::Attribute {
                workstream_id: o.workstream_id.clone(),
                ownership_version: o.ownership_version,
                coordinator_epoch: project_epoch.to_owned(),
                executor_client_id: reviewed.to_owned(),
            }
        },
        _ => AttributionDecision::Refuse { reason: "work_id_missing_from_current_ownership" },
    }
}

/// An execution as it is stored, with the client that its session was recorded for.
#[derive(Clone, Debug)]
pub struct FoundExecution {
    pub id: String,
    pub work_id: String,
    pub state: String,
    pub workstream_id: Option<String>,
    pub session_id: Option<String>,
    pub claim_id: Option<String>,
    pub session_client_id: Option<String>,
}

/// What was found for an execution that a plan names.
#[derive(Clone, Debug)]
pub struct Lookup {
    pub execution_id: String,
    pub found: Option<FoundExecution>,
}

/// An execution with its decision, as a document.
pub open spec fn decision_doc(
    id: Seq<char>,
    work_id: Seq<char>,
    state: Seq<char>,
    session_id: Option<Seq<char>>,
    claim_id: Option<Seq<char>>,
    session_client_id: Option<Seq<char>>,
    d: AttributionView,
) -> JsonView {
    let head = json::no_fields().push(("kind"@, JsonView::Str("execution"@))).push(
        ("id"@, JsonView::Str(id)),
    ).push(("work_id"@, JsonView::Str(work_id))).push(("state"@, JsonView::Str(state))).push(
        ("session_id"@, json::opt_item(session_id)),
    ).push(("claim_id"@, json::opt_item(claim_id))).push(
        ("observed_session_client_id"@, json::opt_item(session_client_id)),
    );
    match d {
        AttributionView::Attribute {
            workstream_id,
            ownership_version,
            coordinator_epoch,
            executor_client_id,
        } => JsonView::Obj(
            head.push(("action"@, JsonView::Str("attribute"@))).push(
                ("target_workstream_id"@, JsonView::Str(workstream_id)),
            ).push(
                (
                    "ownership_version"@,
                    JsonView::Str(text::decimal_form(ownership_version as int)),
                ),
            ).push(("coordinator_epoch"@, JsonView::Str(coordinator_epoch))).push(
                ("executor_client_id"@, JsonView::Str(executor_client_id)),
            ).push(("forges_identity"@, JsonView::Bool(false))).push(
                ("executor_client_id_invented"@, JsonView::Bool(false)),
            ).push(("completion_receipts_modified"@, JsonView::Bool(false))),
        ),
        AttributionView::Refuse { reason } => JsonView::Obj(
            head.push(("action"@, JsonView::Str("refuse"@))).push(
                ("reason"@, JsonView::Str(reason)),
            ).push(("forges_identity"@, JsonView::Bool(false))).push(
                ("executor_client_id_invented"@, JsonView::Bool(false)),
            ),
        ),
    }
}

/// An execution with its decision, as a document.
pub fn decision_json(
    id: &str,
    work_id: &str,
    state: &str,
    session_id: Option<&str>,
    claim_id: Option<&str>,
    session_client_id: Option<&str>,
    d: &AttributionDecision,
) -> (r: Json)
    ensures
        r.model() == decision_doc(
            id@,
            work_id@,
            state@,
            text::opt_str(session_id),
            text::opt_str(claim_id),
            text::opt_str(session_client_id),
            d@,
        ),
{
    let head = Doc::new().put("kind", json::text("execution")).put("id", json::text(id)).put(
        "work_id",
        json::text(work_id),
    ).put("state", json::text(state)).put("session_id", json::opt_text(session_id)).put(
        "claim_id",
        json::opt_text(claim_id),
    ).put("observed_session_client_id", json::opt_text(session_client_id));
    match d {
        AttributionDecision::Attribute {
            workstream_id,
            ownership_version,
            coordinator_epoch,
            executor_client_id,
        } => head.put("action", json::text("attribute")).put(
            "target_workstream_id",
            json::text(workstream_id.as_str()),
        ).put("ownership_version", json::text(text::decimal(*ownership_version).as_str())).put(
            "coordinator_epoch",
            json::text(coordinator_epoch.as_str()),
        ).put("executor_client_id", json::text(executor_client_id.as_str())).put(
            "forges_identity",
            json::flag(false),
        ).put("executor_client_id_invented", json::flag(false)).put(
            "completion_receipts_modified",
            json::flag(false),
        ).json(),
        AttributionDecision::Refuse { reason } => head.put("action", json::text("refuse")).put(
            "reason",
            json::text(reason),
        ).put("forges_identity", json::flag(false)).put(
            "executor_client_id_invented",
            json::flag(false),
        ).json(),
    }
}

/// An execution that was not found, as a document.
pub open spec fn missing_doc(execution_id: Seq<char>) -> JsonView {
    JsonView::Obj(
        json::no_fields().push(("kind"@, JsonView::Str("execution"@))).push(
            ("id"@, JsonView::Str(execution_id)),
        ).push(("action"@, JsonView::Str("refuse"@))).push(
            ("reason"@, JsonView::Str("execution_not_found"@)),
        ).push(("forges_identity"@, JsonView::Bool(false))).push(
            ("executor_client_id_invented"@, JsonView::Bool(false)),
        ),
    )
}

/// The decision on an execution that was found.
pub open spec fn found_decision(
    row: FoundExecution,
    entries: Seq<ExecutionAttributionEntry>,
    ownership: Seq<OwnedWork>,
    epoch: Seq<char>,
) -> AttributionView {
    attribution(
        row.workstream_id is Some,
        text::opt(row.session_id),
        text::opt(row.claim_id),
        operator_plan::binding_of(ownership, row.work_id@),
        epoch,
        reviewed_client(entries, row.id@),
        text::opt(row.session_client_id),
    )
}

/// An execution that was found, in a plan.
pub open spec fn found_item(
    row: FoundExecution,
    entries: Seq<ExecutionAttributionEntry>,
    ownership: Seq<OwnedWork>,
    epoch: Seq<char>,
) -> ItemView {
    let d = found_decision(row, entries, ownership, epoch);
    ItemView {
        kind: "execution"@,
        id: row.id@,
        action: match d {
            AttributionView::Attribute { .. } => "attribute"@,
            AttributionView::Refuse { .. } => "refuse"@,
        },
        reason: match d {
            AttributionView::Attribute { .. } => ""@,
            AttributionView::Refuse { reason } => reason,
        },
        target: match d {
            AttributionView::Attribute {
                workstream_id,
                ownership_version,
                coordinator_epoch,
                executor_client_id,
            } => Some(
                TargetView {
                    workstream_id,
                    ownership_version,
                    coordinator_epoch: Some(coordinator_epoch),
                    executor_client_id: Some(executor_client_id),
                },
            ),
            AttributionView::Refuse { .. } => None,
        },
        doc: decision_doc(
            row.id@,
            row.work_id@,
            row.state@,
            text::opt(row.session_id),
            text::opt(row.claim_id),
            text::opt(row.session_client_id),
            d,
        ),
    }
}

/// An execution that was not found, in a plan.
pub open spec fn missing_item(execution_id: Seq<char>) -> ItemView {
    ItemView {
        kind: "execution"@,
        id: execution_id,
        action: "refuse"@,
        reason: "execution_not_found"@,
        target: None,
        doc: missing_doc(execution_id),
    }
}

/// The rows of a plan for the executions that were found.
pub open spec fn found_items(
    lookups: Seq<Lookup>,
    entries: Seq<ExecutionAttributionEntry>,
    ownership: Seq<OwnedWork>,
    epoch: Seq<char>,
) -> Seq<ItemView>
    decreases lookups.len(),
{
    if lookups.len() == 0 {
        Seq::empty()
    } else {
        let before = found_items(lookups.drop_last(), entries, ownership, epoch);
        match lookups.last().found {
            Some(row) => before.push(found_item(row, entries, ownership, epoch)),
            None => before,
        }
    }
}

/// The rows of a plan for the executions that were not found.
pub open spec fn missing_items(lookups: Seq<Lookup>) -> Seq<ItemView>
    decreases lookups.len(),
{
    if lookups.len() == 0 {
        Seq::empty()
    } else {
        let before = missing_items(lookups.drop_last());
        match lookups.last().found {
            Some(_) => before,
            None => before.push(missing_item(lookups.last().execution_id@)),
        }
    }
}

/// The executions that are attributed.
pub open spec fn plan_acted(
    lookups: Seq<Lookup>,
    entries: Seq<ExecutionAttributionEntry>,
    ownership: Seq<OwnedWork>,
    epoch: Seq<char>,
) -> Seq<ItemView> {
    operator_plan::acted_on(found_items(lookups, entries, ownership, epoch))
}

/// The executions that are refused: those that were found, then those that were not.
pub open spec fn plan_refused(
    lookups: Seq<Lookup>,
    entries: Seq<ExecutionAttributionEntry>,
    ownership: Seq<OwnedWork>,
    epoch: Seq<char>,
) -> Seq<ItemView> {
    operator_plan::refused(found_items(lookups, entries, ownership, epoch)) + missing_items(lookups)
}

fn make_item(
    row: &FoundExecution,
    plan: &ExecutionAttributionPlan,
    ownership: &[OwnedWork],
    epoch: &str,
) -> (r: Item)
    ensures
        r@ == found_item(*row, plan.attributions@, ownership@, epoch@),
{
    let d = classify_execution_attribution(
        text::as_opt_str(&row.workstream_id),
        row.state.as_str(),
        text::as_opt_str(&row.session_id),
        text::as_opt_str(&row.claim_id),
        operator_plan::find_binding(ownership, row.work_id.as_str()),
        epoch,
        plan.reviewed_map(row.id.as_str()),
        text::as_opt_str(&row.session_client_id),
    );
    let doc = decision_json(
        row.id.as_str(),
        row.work_id.as_str(),
        row.state.as_str(),
        text::as_opt_str(&row.session_id),
        text::as_opt_str(&row.claim_id),
        text::as_opt_str(&row.session_client_id),
        &d,
    );
    match d {
        AttributionDecision::Attribute {
            workstream_id,
            ownership_version,
            coordinator_epoch,
            executor_client_id,
        } => Item {
            kind: "execution",
            id: row.id.clone(),
            action: "attribute",
            reason: "",
            target: Some(
                Target {
                    workstream_id,
                    ownership_version,
                    coordinator_epoch: Some(coordinator_epoch),
                    executor_client_id: Some(executor_client_id),
                },
            ),
            doc,
        },
        AttributionDecision::Refuse { reason } => Item {
            kind: "execution",
            id: row.id.clone(),
            action: "refuse",
            reason,
            target: None,
            doc,
        },
    }
}

fn make_missing(execution_id: &str) -> (r: Item)
    ensures
        r@ == missing_item(execution_id@),
{
    let doc = Doc::new().put("kind", json::text("execution")).put(
        "id",
        json::text(execution_id),
    ).put("action", json::text("refuse")).put("reason", json::text("execution_not_found")).put(
        "forges_identity",
        json::flag(false),
    ).put("executor_client_id_invented", json::flag(false)).json();
    Item {
        kind: "execution",
        id: execution_id.to_owned(),
        action: "refuse",
        reason: "execution_not_found",
        target: None,
        doc,
    }
}

/// The number of rows refused for a reason, as a document.
pub open spec fn reason_count(list: Seq<ItemView>, reason: Seq<char>) -> JsonView {
    json::count_item(operator_plan::tally(list, |i: ItemView| i.reason == reason) as usize)
}

/// The counts of a plan.
pub open spec fn counts_doc(acted: Seq<ItemView>, refused: Seq<ItemView>) -> JsonView {
    JsonView::Obj(
        json::no_fields().push(("actionable"@, json::count_item(acted.len() as usize))).push(
            ("refused"@, json::count_item(refused.len() as usize)),
        ).push(
            (
                "executions_attribute"@,
                json::count_item(
                    operator_plan::tally(
                        acted,
                        |i: ItemView| i.kind == "execution"@ && i.action == "attribute"@,
                    ) as usize,
                ),
            ),
        ).push(
            (
                "refused_check_requires_session_id"@,
                reason_count(refused, "check_requires_session_id"@),
            ),
        ).push(
            (
                "refused_check_requires_claim_id"@,
                reason_count(refused, "check_requires_claim_id"@),
            ),
        ).push(
            (
                "refused_session_missing"@,
                reason_count(refused, "session_missing_cannot_verify_executor_client_id"@),
            ),
        ).push(
            (
                "refused_client_mismatch"@,
                reason_count(refused, "reviewed_executor_client_id_mismatch_session"@),
            ),
        ).push(
            (
                "refused_missing_ownership"@,
                reason_count(refused, "work_id_missing_from_current_ownership"@),
            ),
        ).push(
            (
                "refused_already_attributed"@,
                reason_count(refused, "already_attributed_use_execution_reconcile"@),
            ),
        ).push(("refused_not_found"@, reason_count(refused, "execution_not_found"@))),
    )
}

fn counts_document(lists: &Lists) -> (r: Json)
    ensures
        r.model() == counts_doc(
            operator_plan::item_views(lists.actionable@),
            operator_plan::item_views(lists.refused@),
        ),
{
    assert(operator_plan::item_views(lists.actionable@).len() == lists.actionable@.len());
    assert(operator_plan::item_views(lists.refused@).len() == lists.refused@.len());
    let acted = &lists.actionable;
    let refused = &lists.refused;
    Doc::new().put("actionable", json::count(acted.len())).put(
        "refused",
        json::count(refused.len()),
    ).put(
        "executions_attribute",
        json::count(operator_plan::count_action(acted, "execution", "attribute")),
    ).put(
        "refused_check_requires_session_id",
        json::count(operator_plan::count_reason(refused, "check_requires_session_id")),
    ).put(
        "refused_check_requires_claim_id",
        json::count(operator_plan::count_reason(refused, "check_requires_claim_id")),
    ).put(
        "refused_session_missing",
        json::count(
            operator_plan::count_reason(
                refused,
                "session_missing_cannot_verify_executor_client_id",
            ),
        ),
    ).put(
        "refused_client_mismatch",
        json::count(
            operator_plan::count_reason(refused, "reviewed_executor_client_id_mismatch_session"),
        ),
    ).put(
        "refused_missing_ownership",
        json::count(
            operator_plan::count_reason(refused, "work_id_missing_from_current_ownership"),
        ),
    ).put(
        "refused_already_attributed",
        json::count(
            operator_plan::count_reason(refused, "already_attributed_use_execution_reconcile"),
        ),
    ).put(
        "refused_not_found",
        json::count(operator_plan::count_reason(refused, "execution_not_found")),
    ).json()
}

/// What the state digest of a plan is of.
pub open spec fn state_doc(plan: ExecutionAttributionPlan, row: ProjectRow) -> JsonView {
    JsonView::Obj(
        json::no_fields().push(("tenant_id"@, JsonView::Str(plan.tenant_id@))).push(
            ("project_id"@, JsonView::Str(plan.project_id@)),
        ).push(("project_status"@, JsonView::Str(row.status@))).push(
            ("coordinator_epoch"@, JsonView::Str(row.coordinator_epoch@)),
        ).push(
            (
                "project_revision"@,
                JsonView::Str(text::decimal_form(row.project_revision as int)),
            ),
        ).push(("source_snapshot_id"@, json::opt_item(text::opt(row.source_snapshot_id)))).push(
            (
                "attribution_execution_ids"@,
                json::text_items(
                    plan.attributions@.map_values(
                        |e: ExecutionAttributionEntry| e.execution_id@,
                    ),
                ),
            ),
        ).push(
            (
                "attribution_executor_client_ids"@,
                json::text_items(
                    plan.attributions@.map_values(
                        |e: ExecutionAttributionEntry| e.executor_client_id@,
                    ),
                ),
            ),
        ),
    )
}

/// What makes an execution safe to attribute.
pub open spec fn safe_subset() -> Seq<Seq<char>> {
    Seq::empty().push("unattributed_execution_with_session_and_claim"@).push(
        "current_ownership_binding"@,
    ).push("reviewed_executor_client_id_matching_session"@)
}

/// What this command never does.
pub open spec fn unsafe_excluded() -> Seq<Seq<char>> {
    Seq::empty().push("silent_executor_client_id_invention"@).push(
        "attribution_without_session_or_claim"@,
    ).push("completion_receipt_rewrite"@).push("automatic_resume"@).push(
        "execution_authorization"@,
    )
}

fn safe_list() -> (r: Json)
    ensures
        r.model() == json::text_items(safe_subset()),
{
    let mut list = operator_request::no_names();
    operator_request::add_name(&mut list, "unattributed_execution_with_session_and_claim");
    operator_request::add_name(&mut list, "current_ownership_binding");
    operator_request::add_name(&mut list, "reviewed_executor_client_id_matching_session");
    operator_request::name_list(&list)
}

fn unsafe_list() -> (r: Json)
    ensures
        r.model() == json::text_items(unsafe_excluded()),
{
    let mut list = operator_request::no_names();
    operator_request::add_name(&mut list, "silent_executor_client_id_invention");
    operator_request::add_name(&mut list, "attribution_without_session_or_claim");
    operator_request::add_name(&mut list, "completion_receipt_rewrite");
    operator_request::add_name(&mut list, "automatic_resume");
    operator_request::add_name(&mut list, "execution_authorization");
    operator_request::name_list(&list)
}

/// What the plan digest of a plan is of.
pub open spec fn body_doc(
    plan: ExecutionAttributionPlan,
    operator: Seq<char>,
    acted: Seq<ItemView>,
    refused: Seq<ItemView>,
) -> JsonView {
    JsonView::Obj(
        json::no_fields().push(("protocol"@, JsonView::Str(PROTOCOL@))).push(
            ("protocol_version"@, JsonView::Int(1)),
        ).push(("read_only_preview"@, JsonView::Bool(true))).push(
            ("mutation_on_preview"@, JsonView::Bool(false)),
        ).push(("operator_role"@, JsonView::Str(operator))).push(
            ("tenant_id"@, JsonView::Str(plan.tenant_id@)),
        ).push(("project_id"@, JsonView::Str(plan.project_id@))).push(
            ("plan"@, plan_value_doc(plan)),
        ).push(("safe_subset"@, json::text_items(safe_subset()))).push(
            ("unsafe_excluded"@, json::text_items(unsafe_excluded())),
        ).push(("forges_identity"@, JsonView::Bool(false))).push(
            (
                "local_file_access"@,
                JsonView::Str("not_server_acl_or_confidentiality_sandbox"@),
            ),
        ).push(("frontend_filtering"@, JsonView::Bool(false))).push(
            ("counts"@, counts_doc(acted, refused)),
        ).push(("actionable"@, JsonView::Arr(operator_plan::docs(acted)))).push(
            ("refused"@, JsonView::Arr(operator_plan::docs(refused))),
        ).push(
            (
                "actionable_sample"@,
                JsonView::Arr(operator_plan::docs(operator_plan::sample(acted))),
            ),
        ).push(
            (
                "refused_sample"@,
                JsonView::Arr(operator_plan::docs(operator_plan::sample(refused))),
            ),
        ),
    )
}

/// An attribution that is planned.
pub struct BuiltPlan {
    pub lists: Lists,
    /// What the state digest is of.
    pub state: Json,
    /// What the plan digest is of.
    pub body: Json,
}

/// The plan of an attribution.
pub open spec fn is_plan(
    built: BuiltPlan,
    plan: ExecutionAttributionPlan,
    operator: Seq<char>,
    row: ProjectRow,
    lookups: Seq<Lookup>,
    ownership: Seq<OwnedWork>,
) -> bool {
    let acted = plan_acted(lookups, plan.attributions@, ownership, row.coordinator_epoch@);
    let refused = plan_refused(lookups, plan.attributions@, ownership, row.coordinator_epoch@);
    &&& operator_plan::item_views(built.lists.actionable@) == acted
    &&& operator_plan::item_views(built.lists.refused@) == refused
    &&& built.state.model() == state_doc(plan, row)
    &&& built.body.model() == body_doc(plan, operator, acted, refused)
}

fn entry_ids(plan: &ExecutionAttributionPlan) -> (r: (Vec<String>, Vec<String>))
    ensures
        text::texts(r.0@) == plan.attributions@.map_values(
            |e: ExecutionAttributionEntry| e.execution_id@,
        ),
        text::texts(r.1@) == plan.attributions@.map_values(
            |e: ExecutionAttributionEntry| e.executor_client_id@,
        ),
{
    let mut ids: Vec<String> = Vec::new();
    let mut clients: Vec<String> = Vec::new();
    let entries = &plan.attributions;
    let mut i: usize = 0;
    while i < entries.len()
        invariant
            i <= entries.len(),
            ids.len() == i,
            clients.len() == i,
            entries == &plan.attributions,
            forall|j: int| 0 <= j < i ==> #[trigger] ids@[j]@ == entries@[j].execution_id@,
            forall|j: int| 0 <= j < i ==> #[trigger] clients@[j]@ == entries@[j].executor_client_id@,
        decreases entries.len() - i,
    {
        ids.push(entries[i].execution_id.clone());
        clients.push(entries[i].executor_client_id.clone());
        i = i + 1;
    }
    assert(text::texts(ids@) =~= plan.attributions@.map_values(
        |e: ExecutionAttributionEntry| e.execution_id@,
    ));
    assert(text::texts(clients@) =~= plan.attributions@.map_values(
        |e: ExecutionAttributionEntry| e.executor_client_id@,
    ));
    (ids, clients)
}

/// Plans the attribution of the executions that a reviewed plan names, in an active project.
pub fn build_plan(
    plan: &ExecutionAttributionPlan,
    operator: &str,
    row: &ProjectRow,
    ownership: &[OwnedWork],
    lookups: &[Lookup],
) -> (r: PgResult<BuiltPlan>)
    ensures
        match r {
            Ok(built) => row.status@ == "active"@ && is_plan(
                built,
                *plan,
                operator@,
                *row,
                lookups@,
                ownership@,
            ),
            Err(e) => row.status@ != "active"@ && e@ == Fault::ProjectNotAvailable,
        },
{
    if !text::same(row.status.as_str(), "active") {
        return Err(PgError::ProjectNotAvailable);
    }
    let epoch = row.coordinator_epoch.as_str();
    let ghost entries = plan.attributions@;
    let mut lists = Lists::new();
    let mut missing: Vec<Item> = Vec::new();
    let mut i: usize = 0;
    assert(operator_plan::item_views(missing@) =~= missing_items(lookups@.take(0)));
    assert(found_items(lookups@.take(0), entries, ownership@, epoch@) =~= Seq::empty());
    while i < lookups.len()
        invariant
            i <= lookups.len(),
            entries == plan.attributions@,
            operator_plan::lists_hold(
                lists,
                found_items(lookups@.take(i as int), entries, ownership@, epoch@),
            ),
            operator_plan::item_views(missing@) == missing_items(lookups@.take(i as int)),
        decreases lookups.len() - i,
    {
        assert(lookups@.take(i + 1).drop_last() =~= lookups@.take(i as int));
        assert(lookups@.take(i + 1).last() == lookups@[i as int]);
        match &lookups[i].found {
            Some(found) => {
                let item = make_item(found, plan, ownership, epoch);
                lists.add_item(item);
            },
            None => {
                let item = make_missing(lookups[i].execution_id.as_str());
                let ghost before = operator_plan::item_views(missing@);
                missing.push(item);
                assert(operator_plan::item_views(missing@) =~= before.push(item@));
            },
        }
        i = i + 1;
    }
    assert(lookups@.take(i as int) =~= lookups@);
    let ghost refused_found = operator_plan::item_views(lists.refused@);
    let ghost absent = operator_plan::item_views(missing@);
    let Lists { actionable, refused } = lists;
    let mut refused = refused;
    refused.append(&mut missing);
    proof {
        assert(operator_plan::item_views(refused@) =~= refused_found + absent);
    }
    let lists = Lists { actionable, refused };
    let (ids, clients) = entry_ids(plan);
    let state = Doc::new().put("tenant_id", json::text(plan.tenant_id.as_str())).put(
        "project_id",
        json::text(plan.project_id.as_str()),
    ).put("project_status", json::text(row.status.as_str())).put(
        "coordinator_epoch",
        json::text(epoch),
    ).put("project_revision", json::text(text::decimal(row.project_revision).as_str())).put(
        "source_snapshot_id",
        json::opt_text(text::as_opt_str(&row.source_snapshot_id)),
    ).put("attribution_execution_ids", json::text_list(ids.as_slice())).put(
        "attribution_executor_client_ids",
        json::text_list(clients.as_slice()),
    ).json();
    let body = Doc::new().put("protocol", json::text(PROTOCOL)).put(
        "protocol_version",
        json::number(1),
    ).put("read_only_preview", json::flag(true)).put("mutation_on_preview", json::flag(false)).put(
        "operator_role",
        json::text(operator),
    ).put("tenant_id", json::text(plan.tenant_id.as_str())).put(
        "project_id",
        json::text(plan.project_id.as_str()),
    ).put("plan", plan.document()).put("safe_subset", safe_list()).put(
        "unsafe_excluded",
        unsafe_list(),
    ).put("forges_identity", json::flag(false)).put(
        "local_file_access",
        json::text("not_server_acl_or_confidentiality_sandbox"),
    ).put("frontend_filtering", json::flag(false)).put("counts", counts_document(&lists)).put(
        "actionable",
        operator_plan::all_docs(&lists.actionable),
    ).put("refused", operator_plan::all_docs(&lists.refused)).put(
        "actionable_sample",
        operator_plan::sample_docs(&lists.actionable),
    ).put("refused_sample", operator_plan::sample_docs(&lists.refused)).json();
    Ok(BuiltPlan { lists, state, body })
}

/// A request to apply a plan.
pub struct AttributionRequest {
    pub request: String,
    pub expected_state: String,
    pub expected_plan: String,
}

/// What the hash of a request is of.
pub open spec fn intent_doc(plan: ExecutionAttributionPlan, q: AttributionRequest) -> JsonView {
    JsonView::Obj(
        json::no_fields().push(("protocol"@, JsonView::Str(PROTOCOL@))).push(
            ("tenant_id"@, JsonView::Str(plan.tenant_id@)),
        ).push(("project_id"@, JsonView::Str(plan.project_id@))).push(
            ("expected_state"@, JsonView::Str(q.expected_state@)),
        ).push(("expected_plan"@, JsonView::Str(q.expected_plan@))).push(
            ("plan"@, plan_value_doc(plan)),
        ),
    )
}

/// The receipt of an applied plan.
pub open spec fn receipt_doc(
    plan: ExecutionAttributionPlan,
    q: AttributionRequest,
    intent_hash: Seq<char>,
    operator: Seq<char>,
    revision: i64,
    acted: Seq<ItemView>,
    refused: Seq<ItemView>,
) -> JsonView {
    JsonView::Obj(
        json::no_fields().push(("protocol"@, JsonView::Str(PROTOCOL@))).push(
            ("request_id"@, JsonView::Str(q.request@)),
        ).push(("request_hash"@, JsonView::Str(intent_hash))).push(
            ("operator_role"@, JsonView::Str(operator)),
        ).push(("tenant_id"@, JsonView::Str(plan.tenant_id@))).push(
            ("project_id"@, JsonView::Str(plan.project_id@)),
        ).push(("state_digest"@, JsonView::Str(q.expected_state@))).push(
            ("plan_digest"@, JsonView::Str(q.expected_plan@)),
        ).push(("project_revision"@, JsonView::Str(text::decimal_form(revision as int)))).push(
            ("applied"@, JsonView::Arr(operator_plan::docs(acted))),
        ).push(("refused"@, JsonView::Arr(operator_plan::docs(refused)))).push(
            ("counts"@, counts_doc(acted, refused)),
        ).push(("identity_forged"@, JsonView::Bool(false))).push(
            ("executor_client_id_invented"@, JsonView::Bool(false)),
        ).push(("completion_receipts_modified"@, JsonView::Bool(false))).push(
            ("execution_authorized"@, JsonView::Bool(false)),
        ).push(("automatic_resume"@, JsonView::Bool(false))).push(
            ("state_basis"@, JsonView::Str("at_commit"@)),
        ),
    )
}

/// A plan, as the operator sees it.
pub open spec fn preview_doc(
    operator: Seq<char>,
    built: BuiltPlan,
    state_digest: Seq<char>,
    plan_digest: Seq<char>,
) -> JsonView {
    let acted = operator_plan::item_views(built.lists.actionable@);
    let refused = operator_plan::item_views(built.lists.refused@);
    JsonView::Obj(
        json::no_fields().push(("protocol"@, JsonView::Str(PROTOCOL@))).push(
            ("applied"@, JsonView::Bool(false)),
        ).push(("operator_role"@, JsonView::Str(operator))).push(
            ("state_digest"@, JsonView::Str(state_digest)),
        ).push(("plan_digest"@, JsonView::Str(plan_digest))).push(
            ("state"@, built.state.model()),
        ).push(("counts"@, counts_doc(acted, refused))).push(
            ("actionable"@, JsonView::Arr(operator_plan::docs(acted))),
        ).push(("refused"@, JsonView::Arr(operator_plan::docs(refused)))).push(
            ("safe_subset"@, json::text_items(safe_subset())),
        ).push(("unsafe_excluded"@, json::text_items(unsafe_excluded()))).push(
            (
                "next_action"@,
                JsonView::Str(
                    "Review actionable/refused; apply with exact state_digest and plan_digest. executor_client_id must be reviewed and match the session; it is never invented."@,
                ),
            ),
        ),
    )
}

/// What an applied plan leaves behind.
pub struct AttributionApplied {
    pub receipt: Json,
    pub event: Json,
}

/// What is written to one execution.
pub struct AttributionWrite<'a> {
    pub id: &'a str,
    pub workstream_id: &'a str,
    pub ownership_version: i64,
    pub coordinator_epoch: &'a str,
    pub executor_client_id: &'a str,
}

/// A row of a plan asks for a write: it is to be attributed, with an epoch and a client.
pub open spec fn asks_write(item: ItemView) -> bool {
    item.action == "attribute"@ && item.target is Some && item.target->Some_0.coordinator_epoch
        is Some && item.target->Some_0.executor_client_id is Some
}

/// The rules of execution attribution.
pub struct OperatorExecutionAttribution;

impl OperatorExecutionAttribution {
    /// Whether the names of a question are well formed.
    pub fn admit_names(tenant: &str, project: &str, request: &str) -> (r: PgResult<()>)
        ensures
            error::checked(r) == (if text::is_identity(tenant@) && text::is_identity(project@)
                && text::is_identity(request@) {
                Ok(())
            } else {
                Err(invalid_request())
            }),
    {
        if !text::identity(tenant) || !text::identity(project) || !text::identity(request) {
            return Err(invalid());
        }
        Ok(())
    }

    /// Whether a request to apply a plan is well formed.
    pub fn admit_apply(plan: &ExecutionAttributionPlan, q: &AttributionRequest) -> (r: PgResult<()>)
        ensures
            error::checked(r) == (if plan.well_formed() && text::is_identity(q.request@)
                && text::is_hex(q.expected_state@) && text::is_hex(q.expected_plan@) {
                Ok(())
            } else {
                Err(invalid_request())
            }),
    {
        plan.validate()?;
        if !text::identity(q.request.as_str()) || !text::hex(q.expected_state.as_str())
            || !text::hex(q.expected_plan.as_str()) {
            return Err(invalid());
        }
        Ok(())
    }

    /// What the hash of a request is of.
    pub fn intent(plan: &ExecutionAttributionPlan, q: &AttributionRequest) -> (r: Json)
        ensures
            r.model() == intent_doc(*plan, *q),
    {
        Doc::new().put("protocol", json::text(PROTOCOL)).put(
            "tenant_id",
            json::text(plan.tenant_id.as_str()),
        ).put("project_id", json::text(plan.project_id.as_str())).put(
            "expected_state",
            json::text(q.expected_state.as_str()),
        ).put("expected_plan", json::text(q.expected_plan.as_str())).put(
            "plan",
            plan.document(),
        ).json()
    }

    /// A plan, as the operator sees it.
    pub fn preview(operator: &str, built: &BuiltPlan, state_digest: &str, plan_digest: &str) -> (r:
        Json)
        ensures
            r.model() == preview_doc(operator@, *built, state_digest@, plan_digest@),
    {
        Doc::new().put("protocol", json::text(PROTOCOL)).put("applied", json::flag(false)).put(
            "operator_role",
            json::text(operator),
        ).put("state_digest", json::text(state_digest)).put(
            "plan_digest",
            json::text(plan_digest),
        ).put("state", built.state.copy()).put("counts", counts_document(&built.lists)).put(
            "actionable",
            operator_plan::all_docs(&built.lists.actionable),
        ).put("refused", operator_plan::all_docs(&built.lists.refused)).put(
            "safe_subset",
            safe_list(),
        ).put("unsafe_excluded", unsafe_list()).put(
            "next_action",
            json::text(
                "Review actionable/refused; apply with exact state_digest and plan_digest. executor_client_id must be reviewed and match the session; it is never invented.",
            ),
        ).json()
    }

    /// What became of a request.
    pub fn outcome(receipt: Option<Json>) -> (r: Json)
        ensures
            r.model() == operator_request::outcome_doc(
                match receipt {
                    Some(d) => Some(d.model()),
                    None => None,
                },
            ),
    {
        operator_request::outcome(receipt)
    }

    /// The write that a row of a plan asks for.
    pub fn write<'a>(item: &'a Item) -> (r: PgResult<AttributionWrite<'a>>)
        ensures
            match r {
                Ok(w) => {
                    &&& asks_write(item@)
                    &&& w.id@ == item@.id
                    &&& w.workstream_id@ == item@.target->Some_0.workstream_id
                    &&& w.ownership_version == item@.target->Some_0.ownership_version
                    &&& Some(w.coordinator_epoch@) == item@.target->Some_0.coordinator_epoch
                    &&& Some(w.executor_client_id@) == item@.target->Some_0.executor_client_id
                },
                Err(e) => !asks_write(item@) && e@ == invalid_request(),
            },
    {
        if !text::same(item.action, "attribute") {
            return Err(invalid());
        }
        match &item.target {
            Some(t) => match (&t.coordinator_epoch, &t.executor_client_id) {
                (Some(e), Some(c)) => Ok(
                    AttributionWrite {
                        id: item.id.as_str(),
                        workstream_id: t.workstream_id.as_str(),
                        ownership_version: t.ownership_version,
                        coordinator_epoch: e.as_str(),
                        executor_client_id: c.as_str(),
                    },
                ),
                _ => Err(invalid()),
            },
            None => Err(invalid()),
        }
    }

    /// What an applied plan leaves behind.
    pub fn apply(
        plan: &ExecutionAttributionPlan,
        q: &AttributionRequest,
        intent_hash: &str,
        operator: &str,
        built: &BuiltPlan,
        revision: i64,
    ) -> (r: AttributionApplied)
        ensures
            r.receipt.model() == receipt_doc(
                *plan,
                *q,
                intent_hash@,
                operator@,
                revision,
                operator_plan::item_views(built.lists.actionable@),
                operator_plan::item_views(built.lists.refused@),
            ),
            r.event.model() == JsonView::Obj(
                json::no_fields().push(("operator_role"@, JsonView::Str(operator@))).push(
                    ("request_id"@, JsonView::Str(q.request@)),
                ).push(
                    ("applied_count"@, json::count_item(built.lists.actionable@.len() as usize)),
                ).push(
                    ("refused_count"@, json::count_item(built.lists.refused@.len() as usize)),
                ),
            ),
    {
        let receipt = Doc::new().put("protocol", json::text(PROTOCOL)).put(
            "request_id",
            json::text(q.request.as_str()),
        ).put("request_hash", json::text(intent_hash)).put(
            "operator_role",
            json::text(operator),
        ).put("tenant_id", json::text(plan.tenant_id.as_str())).put(
            "project_id",
            json::text(plan.project_id.as_str()),
        ).put("state_digest", json::text(q.expected_state.as_str())).put(
            "plan_digest",
            json::text(q.expected_plan.as_str()),
        ).put("project_revision", json::text(text::decimal(revision).as_str())).put(
            "applied",
            operator_plan::all_docs(&built.lists.actionable),
        ).put("refused", operator_plan::all_docs(&built.lists.refused)).put(
            "counts",
            counts_document(&built.lists),
        ).put("identity_forged", json::flag(false)).put(
            "executor_client_id_invented",
            json::flag(false),
        ).put("completion_receipts_modified", json::flag(false)).put(
            "execution_authorized",
            json::flag(false),
        ).put("automatic_resume", json::flag(false)).put(
            "state_basis",
            json::text("at_commit"),
        ).json();
        let event = Doc::new().put("operator_role", json::text(operator)).put(
            "request_id",
            json::text(q.request.as_str()),
        ).put("applied_count", json::count(built.lists.actionable.len())).put(
            "refused_count",
            json::count(built.lists.refused.len()),
        ).json();
        AttributionApplied { receipt, event }
    }
}

/// An executor's client is never invented: an execution is attributed only to the client that
/// the plan names for it, and only where the session was recorded for the same client.
pub proof fn the_client_is_never_invented(
    row: FoundExecution,
    entries: Seq<ExecutionAttributionEntry>,
    ownership: Seq<OwnedWork>,
    epoch: Seq<char>,
)
    ensures
        ({
            let item = found_item(row, entries, ownership, epoch);
            item.target is Some ==> {
                &&& item.target->Some_0.executor_client_id == reviewed_client(entries, row.id@)
                &&& item.target->Some_0.executor_client_id == text::opt(row.session_client_id)
                &&& given(text::opt(row.session_id))
                &&& given(text::opt(row.claim_id))
                &&& row.workstream_id is None
                &&& operator_plan::binding_of(ownership, row.work_id@) is Some
            }
        }),
{
}

/// An execution that the plan does not name is refused, whatever its session says.
pub proof fn unreviewed_executions_are_refused(
    row: FoundExecution,
    entries: Seq<ExecutionAttributionEntry>,
    ownership: Seq<OwnedWork>,
    epoch: Seq<char>,
)
    requires
        reviewed_client(entries, row.id@) is None,
    ensures
        found_item(row, entries, ownership, epoch).action == "refuse"@,
{
}

/// A plan is accepted exactly where it is of the one version that is known, names its project, and names
/// between one and two hundred and fifty-six executions, each once and each with a client.
pub proof fn plans_name_each_execution_once(plan: ExecutionAttributionPlan, i: int, j: int)
    ensures
        plan.well_formed() ==> {
            &&& plan.protocol_version == 1
            &&& text::is_identity(plan.tenant_id@)
            &&& text::is_identity(plan.project_id@)
            &&& 1 <= plan.attributions@.len() <= 256
        },
        plan.well_formed() && 0 <= i < j < plan.attributions@.len() ==> plan.attributions@[i].execution_id@
            != plan.attributions@[j].execution_id@,
        plan.well_formed() && 0 <= i < plan.attributions@.len() ==> text::is_identity(
            plan.attributions@[i].execution_id@,
        ) && text::is_identity(plan.attributions@[i].executor_client_id@),
        plan.protocol_version == 1 && text::is_identity(plan.tenant_id@) && text::is_identity(
            plan.project_id@,
        ) && 1 <= plan.attributions@.len() <= 256 && (forall|k: int|
            0 <= k < plan.attributions@.len() ==> text::is_identity(
                (#[trigger] plan.attributions@[k]).execution_id@,
            ) && text::is_identity(plan.attributions@[k].executor_client_id@)) && (forall|k: int, l: int|
            0 <= k < l < plan.attributions@.len() ==> (#[trigger] plan.attributions@[k]).execution_id@
                != (#[trigger] plan.attributions@[l]).execution_id@) ==> plan.well_formed(),
{
}

/// The client of an execution is the one that the plan names for it, and there is none where the plan
/// does not name the execution.
pub proof fn clients_are_those_of_the_plan(
    entries: Seq<ExecutionAttributionEntry>,
    entry: ExecutionAttributionEntry,
    execution_id: Seq<char>,
)
    ensures
        reviewed_client(Seq::empty(), execution_id) is None,
        entry.execution_id@ == execution_id ==> reviewed_client(entries.push(entry), execution_id)
            == Some(entry.executor_client_id@),
        entry.execution_id@ != execution_id ==> reviewed_client(entries.push(entry), execution_id)
            == reviewed_client(entries, execution_id),
{
    assert(entries.push(entry).drop_last() =~= entries);
}

/// An execution is attributed exactly where it belongs to no workstream yet, has a session and a claim,
/// its session was recorded for the client that the plan names, its work is owned and the project has an
/// epoch. It then goes to the owner, under the epoch and with that client.
pub proof fn executions_are_attributed_as_reviewed(
    row: FoundExecution,
    entries: Seq<ExecutionAttributionEntry>,
    ownership: Seq<OwnedWork>,
    epoch: Seq<char>,
)
    ensures
        ({
            let d = found_decision(row, entries, ownership, epoch);
            let owner = operator_plan::binding_of(ownership, row.work_id@);
            let client = reviewed_client(entries, row.id@);
            &&& d is Attribute <==> {
                &&& row.workstream_id is None
                &&& client is Some && client->Some_0.len() > 0
                &&& row.session_id is Some && row.session_id->Some_0@.len() > 0
                &&& row.claim_id is Some && row.claim_id->Some_0@.len() > 0
                &&& row.session_client_id is Some && row.session_client_id->Some_0@
                    == client->Some_0
                &&& owner is Some
                &&& epoch.len() > 0
            }
            &&& d is Attribute ==> {
                &&& d->workstream_id == owner->Some_0.workstream_id@
                &&& d->ownership_version == owner->Some_0.ownership_version
                &&& d->coordinator_epoch == epoch
                &&& d->executor_client_id == client->Some_0
            }
        }),
{
}

/// Each refusal has its reason, and the first that applies is told.
pub proof fn refusals_tell_what_is_missing(
    session_id: Option<Seq<char>>,
    claim_id: Option<Seq<char>>,
    owner: Option<OwnershipBinding>,
    epoch: Seq<char>,
    client: Seq<char>,
    session_client: Option<Seq<char>>,
)
    requires
        client.len() > 0,
    ensures
        attribution(true, session_id, claim_id, owner, epoch, Some(client), session_client) == (
        AttributionView::Refuse { reason: "already_attributed_use_execution_reconcile"@ }),
        attribution(false, session_id, claim_id, owner, epoch, None, session_client) == (
        AttributionView::Refuse { reason: "reviewed_executor_client_id_required"@ }),
        attribution(false, None, claim_id, owner, epoch, Some(client), session_client) == (
        AttributionView::Refuse { reason: "check_requires_session_id"@ }),
        session_id is Some && session_id->Some_0.len() > 0 ==> {
            &&& attribution(false, session_id, None, owner, epoch, Some(client), session_client) == (
            AttributionView::Refuse { reason: "check_requires_claim_id"@ })
            &&& claim_id is Some && claim_id->Some_0.len() > 0 ==> {
                &&& attribution(false, session_id, claim_id, owner, epoch, Some(client), None) == (
                AttributionView::Refuse {
                    reason: "session_missing_cannot_verify_executor_client_id"@,
                })
                &&& session_client is Some && session_client->Some_0.len() > 0 && session_client
                    != Some(client) ==> attribution(
                    false,
                    session_id,
                    claim_id,
                    owner,
                    epoch,
                    Some(client),
                    session_client,
                ) == (AttributionView::Refuse {
                    reason: "reviewed_executor_client_id_mismatch_session"@,
                })
                &&& attribution(
                    false,
                    session_id,
                    claim_id,
                    None,
                    epoch,
                    Some(client),
                    Some(client),
                ) == (AttributionView::Refuse { reason: "work_id_missing_from_current_ownership"@ })
                &&& owner is Some ==> attribution(
                    false,
                    session_id,
                    claim_id,
                    owner,
                    Seq::empty(),
                    Some(client),
                    Some(client),
                ) == (AttributionView::Refuse { reason: "project_coordinator_epoch_missing"@ })
            }
        },
{
}

/// An execution stands in a plan under its own name, with what was decided of it.
pub proof fn found_executions_stand_in_the_plan(
    row: FoundExecution,
    entries: Seq<ExecutionAttributionEntry>,
    ownership: Seq<OwnedWork>,
    epoch: Seq<char>,
)
    ensures
        ({
            let item = found_item(row, entries, ownership, epoch);
            let d = found_decision(row, entries, ownership, epoch);
            &&& item.kind == "execution"@
            &&& item.id == row.id@
            &&& d is Attribute ==> item.action == "attribute"@ && item.reason == ""@ && item.target
                == Some(
                TargetView {
                    workstream_id: d->workstream_id,
                    ownership_version: d->ownership_version,
                    coordinator_epoch: Some(d->coordinator_epoch),
                    executor_client_id: Some(d->executor_client_id),
                },
            ) && asks_write(item)
            &&& d is Refuse ==> item.action == "refuse"@ && item.reason == d->reason && item.target
                is None && !asks_write(item)
            &&& item.doc == decision_doc(
                row.id@,
                row.work_id@,
                row.state@,
                text::opt(row.session_id),
                text::opt(row.claim_id),
                text::opt(row.session_client_id),
                d,
            )
        }),
{
}

/// An execution that was not found is refused as such.
pub proof fn missing_executions_are_refused(execution_id: Seq<char>)
    ensures
        missing_item(execution_id).kind == "execution"@,
        missing_item(execution_id).id == execution_id,
        missing_item(execution_id).action == "refuse"@,
        missing_item(execution_id).reason == "execution_not_found"@,
        missing_item(execution_id).target is None,
        missing_item(execution_id).doc == missing_doc(execution_id),
{
}

/// Every lookup gives one row: that of the execution where it was found, and a refusal where it was not.
pub proof fn every_lookup_gives_one_row(
    lookups: Seq<Lookup>,
    lookup: Lookup,
    entries: Seq<ExecutionAttributionEntry>,
    ownership: Seq<OwnedWork>,
    epoch: Seq<char>,
)
    ensures
        found_items(lookups, entries, ownership, epoch).len() + missing_items(lookups).len()
            == lookups.len(),
        lookup.found matches Some(row) ==> found_items(
            lookups.push(lookup),
            entries,
            ownership,
            epoch,
        ) == found_items(lookups, entries, ownership, epoch).push(
            found_item(row, entries, ownership, epoch),
        ) && missing_items(lookups.push(lookup)) == missing_items(lookups),
        lookup.found is None ==> found_items(lookups.push(lookup), entries, ownership, epoch)
            == found_items(lookups, entries, ownership, epoch) && missing_items(lookups.push(lookup))
            == missing_items(lookups).push(missing_item(lookup.execution_id@)),
    decreases lookups.len(),
{
    assert(lookups.push(lookup).drop_last() =~= lookups);
    if lookups.len() > 0 {
        every_lookup_gives_one_row(lookups.drop_last(), lookup, entries, ownership, epoch);
    }
}

/// A plan acts on executions that were found, and refuses the rest of them and all that were not found:
/// no lookup is left out.
pub proof fn attribution_plans_account_for_every_lookup(
    lookups: Seq<Lookup>,
    entries: Seq<ExecutionAttributionEntry>,
    ownership: Seq<OwnedWork>,
    epoch: Seq<char>,
    i: int,
)
    requires
        0 <= i < lookups.len(),
    ensures
        plan_acted(lookups, entries, ownership, epoch).len() + plan_refused(
            lookups,
            entries,
            ownership,
            epoch,
        ).len() == lookups.len(),
        lookups[i].found is None ==> plan_refused(lookups, entries, ownership, epoch).contains(
            missing_item(lookups[i].execution_id@),
        ),
        forall|k: int|
            0 <= k < plan_acted(lookups, entries, ownership, epoch).len() ==> (#[trigger] plan_acted(
                lookups,
                entries,
                ownership,
                epoch,
            )[k]).action != "refuse"@,
{
    let found = found_items(lookups, entries, ownership, epoch);
    operator_plan::plans_account_for_every_row(found);
    every_lookup_gives_one_row(lookups, lookups[i], entries, ownership, epoch);
    if lookups[i].found is None {
        missing_lookups_are_listed(lookups, i);
        let missing = missing_items(lookups);
        let item = missing_item(lookups[i].execution_id@);
        let k = choose|k: int| 0 <= k < missing.len() && missing[k] == item;
        let refused = operator_plan::refused(found);
        assert((refused + missing)[refused.len() + k] == item);
    }
}

proof fn missing_lookups_are_listed(lookups: Seq<Lookup>, i: int)
    requires
        0 <= i < lookups.len(),
        lookups[i].found is None,
    ensures
        missing_items(lookups).contains(missing_item(lookups[i].execution_id@)),
    decreases lookups.len(),
{
    let item = missing_item(lookups[i].execution_id@);
    let before = missing_items(lookups.drop_last());
    if i == lookups.len() - 1 {
        assert(missing_items(lookups)[before.len() as int] == item);
    } else {
        missing_lookups_are_listed(lookups.drop_last(), i);
        let k = choose|k: int| 0 <= k < before.len() && before[k] == item;
        assert(missing_items(lookups)[k] == item);
    }
}

/// Refusals are counted one by one, by their reason.
pub proof fn refusals_are_counted_by_reason(list: Seq<ItemView>, item: ItemView, reason: Seq<char>)
    requires
        list.len() < i32::MAX,
    ensures
        reason_count(Seq::empty(), reason) == JsonView::Int(0),
        reason_count(list, reason) is Int,
        reason_count(list.push(item), reason) == JsonView::Int(
            reason_count(list, reason)->Int_0 + if item.reason == reason {
                1int
            } else {
                0int
            },
        ),
{
    let condition = |i: ItemView| i.reason == reason;
    operator_plan::filter_nothing(condition);
    operator_plan::filter_one_more(list, item, condition);
    list.lemma_filter_len(condition);
}

/// What attribution touches and what it leaves alone.
pub proof fn attribution_keeps_to_the_safe_subset()
    ensures
        safe_subset().len() == 3,
        safe_subset()[0] == "unattributed_execution_with_session_and_claim"@,
        safe_subset()[1] == "current_ownership_binding"@,
        safe_subset()[2] == "reviewed_executor_client_id_matching_session"@,
        unsafe_excluded().len() == 5,
        unsafe_excluded()[0] == "silent_executor_client_id_invention"@,
        unsafe_excluded()[1] == "attribution_without_session_or_claim"@,
        unsafe_excluded()[2] == "completion_receipt_rewrite"@,
        unsafe_excluded()[3] == "automatic_resume"@,
        unsafe_excluded()[4] == "execution_authorization"@,
{
}

/// A row is written exactly where it is attributed, to a workstream under an epoch and with a client.
pub proof fn attributed_rows_ask_for_a_write(item: ItemView)
    ensures
        asks_write(item) ==> item.action == "attribute"@ && item.target is Some,
        item.action == "attribute"@ && item.target is Some && item.target->Some_0.coordinator_epoch
            is Some && item.target->Some_0.executor_client_id is Some ==> asks_write(item),
        item.target is Some && (item.target->Some_0.coordinator_epoch is None
            || item.target->Some_0.executor_client_id is None) ==> !asks_write(item),
{
}

/// A plan that was built holds the rows of its executions, and tells them.
pub proof fn built_plans_are_of_their_project(
    built: BuiltPlan,
    plan: ExecutionAttributionPlan,
    operator: Seq<char>,
    row: ProjectRow,
    lookups: Seq<Lookup>,
    ownership: Seq<OwnedWork>,
)
    requires
        is_plan(built, plan, operator, row, lookups, ownership),
    ensures
        built.lists.actionable@.len() + built.lists.refused@.len() == lookups.len(),
        built.state.model() == state_doc(plan, row),
        built.body.model() == body_doc(
            plan,
            operator,
            operator_plan::item_views(built.lists.actionable@),
            operator_plan::item_views(built.lists.refused@),
        ),
{
    if lookups.len() > 0 {
        attribution_plans_account_for_every_lookup(
            lookups,
            plan.attributions@,
            ownership,
            row.coordinator_epoch@,
            0,
        );
    } else {
        operator_plan::plans_account_for_every_row(
            found_items(lookups, plan.attributions@, ownership, row.coordinator_epoch@),
        );
    }
}

/// An execution that is attributed is told with what it goes to; nothing is forged or invented.
pub proof fn attributed_executions_are_told(id: Seq<char>, work_id: Seq<char>, state: Seq<char>, session_id: Option<Seq<char>>, claim_id: Option<Seq<char>>, session_client_id: Option<Seq<char>>, workstream_id: Seq<char>, ownership_version: i64, coordinator_epoch: Seq<char>, executor_client_id: Seq<char>)
    ensures
        json::field(decision_doc(id, work_id, state, session_id, claim_id, session_client_id, AttributionView::Attribute { workstream_id, ownership_version, coordinator_epoch, executor_client_id }), "kind"@) == Some(JsonView::Str("execution"@)),
        json::field(decision_doc(id, work_id, state, session_id, claim_id, session_client_id, AttributionView::Attribute { workstream_id, ownership_version, coordinator_epoch, executor_client_id }), "id"@) == Some(JsonView::Str(id)),
        json::field(decision_doc(id, work_id, state, session_id, claim_id, session_client_id, AttributionView::Attribute { workstream_id, ownership_version, coordinator_epoch, executor_client_id }), "work_id"@) == Some(JsonView::Str(work_id)),
        json::field(decision_doc(id, work_id, state, session_id, claim_id, session_client_id, AttributionView::Attribute { workstream_id, ownership_version, coordinator_epoch, executor_client_id }), "state"@) == Some(JsonView::Str(state)),
        json::field(decision_doc(id, work_id, state, session_id, claim_id, session_client_id, AttributionView::Attribute { workstream_id, ownership_version, coordinator_epoch, executor_client_id }), "session_id"@) == Some(json::opt_item(session_id)),
        json::field(decision_doc(id, work_id, state, session_id, claim_id, session_client_id, AttributionView::Attribute { workstream_id, ownership_version, coordinator_epoch, executor_client_id }), "claim_id"@) == Some(json::opt_item(claim_id)),
        json::field(decision_doc(id, work_id, state, session_id, claim_id, session_client_id, AttributionView::Attribute { workstream_id, ownership_version, coordinator_epoch, executor_client_id }), "observed_session_client_id"@) == Some(json::opt_item(session_client_id)),
        json::field(decision_doc(id, work_id, state, session_id, claim_id, session_client_id, AttributionView::Attribute { workstream_id, ownership_version, coordinator_epoch, executor_client_id }), "action"@) == Some(JsonView::Str("attribute"@)),
        json::field(decision_doc(id, work_id, state, session_id, claim_id, session_client_id, AttributionView::Attribute { workstream_id, ownership_version, coordinator_epoch, executor_client_id }), "target_workstream_id"@) == Some(JsonView::Str(workstream_id)),
        json::field(decision_doc(id, work_id, state, session_id, claim_id, session_client_id, AttributionView::Attribute { workstream_id, ownership_version, coordinator_epoch, executor_client_id }), "ownership_version"@) == Some(JsonView::Str(text::decimal_form(ownership_version as int))),
        json::field(decision_doc(id, work_id, state, session_id, claim_id, session_client_id, AttributionView::Attribute { workstream_id, ownership_version, coordinator_epoch, executor_client_id }), "coordinator_epoch"@) == Some(JsonView::Str(coordinator_epoch)),
        json::field(decision_doc(id, work_id, state, session_id, claim_id, session_client_id, AttributionView::Attribute { workstream_id, ownership_version, coordinator_epoch, executor_client_id }), "executor_client_id"@) == Some(JsonView::Str(executor_client_id)),
        json::field(decision_doc(id, work_id, state, session_id, claim_id, session_client_id, AttributionView::Attribute { workstream_id, ownership_version, coordinator_epoch, executor_client_id }), "forges_identity"@) == Some(JsonView::Bool(false)),
        json::field(decision_doc(id, work_id, state, session_id, claim_id, session_client_id, AttributionView::Attribute { workstream_id, ownership_version, coordinator_epoch, executor_client_id }), "executor_client_id_invented"@) == Some(JsonView::Bool(false)),
        json::field(decision_doc(id, work_id, state, session_id, claim_id, session_client_id, AttributionView::Attribute { workstream_id, ownership_version, coordinator_epoch, executor_client_id }), "completion_receipts_modified"@) == Some(JsonView::Bool(false)),
{
    reveal_strlit("kind");
    reveal_strlit("id");
    reveal_strlit("work_id");
    reveal_strlit("state");
    reveal_strlit("session_id");
    reveal_strlit("claim_id");
    reveal_strlit("observed_session_client_id");
    reveal_strlit("action");
    reveal_strlit("target_workstream_id");
    reveal_strlit("ownership_version");
    reveal_strlit("coordinator_epoch");
    reveal_strlit("executor_client_id");
    reveal_strlit("forges_identity");
    reveal_strlit("executor_client_id_invented");
    reveal_strlit("completion_receipts_modified");
    assert("kind"@.len() == 4);
    assert("id"@.len() == 2);
    assert("work_id"@.len() == 7);
    assert("state"@.len() == 5);
    assert("session_id"@.len() == 10);
    assert("claim_id"@.len() == 8);
    assert("observed_session_client_id"@.len() == 26);
    assert("action"@.len() == 6);
    assert("target_workstream_id"@.len() == 20);
    assert("ownership_version"@.len() == 17);
    assert("coordinator_epoch"@.len() == 17);
    assert("executor_client_id"@.len() == 18);
    assert("forges_identity"@.len() == 15);
    assert("executor_client_id_invented"@.len() == 27);
    assert("completion_receipts_modified"@.len() == 28);
    assert("ownership_version"@[0] == 'o');
    assert("coordinator_epoch"@[0] == 'c');
    let f = decision_doc(id, work_id, state, session_id, claim_id, session_client_id, AttributionView::Attribute { workstream_id, ownership_version, coordinator_epoch, executor_client_id })->Obj_0;
    json::field_is_first(f, "kind"@, 0);
    json::field_is_first(f, "id"@, 1);
    json::field_is_first(f, "work_id"@, 2);
    json::field_is_first(f, "state"@, 3);
    json::field_is_first(f, "session_id"@, 4);
    json::field_is_first(f, "claim_id"@, 5);
    json::field_is_first(f, "observed_session_client_id"@, 6);
    json::field_is_first(f, "action"@, 7);
    json::field_is_first(f, "target_workstream_id"@, 8);
    json::field_is_first(f, "ownership_version"@, 9);
    json::field_is_first(f, "coordinator_epoch"@, 10);
    json::field_is_first(f, "executor_client_id"@, 11);
    json::field_is_first(f, "forges_identity"@, 12);
    json::field_is_first(f, "executor_client_id_invented"@, 13);
    json::field_is_first(f, "completion_receipts_modified"@, 14);
}

/// An execution that is refused is told with the reason.
pub proof fn refused_executions_are_told(id: Seq<char>, work_id: Seq<char>, state: Seq<char>, session_id: Option<Seq<char>>, claim_id: Option<Seq<char>>, session_client_id: Option<Seq<char>>, reason: Seq<char>)
    ensures
        json::field(decision_doc(id, work_id, state, session_id, claim_id, session_client_id, AttributionView::Refuse { reason }), "kind"@) == Some(JsonView::Str("execution"@)),
        json::field(decision_doc(id, work_id, state, session_id, claim_id, session_client_id, AttributionView::Refuse { reason }), "id"@) == Some(JsonView::Str(id)),
        json::field(decision_doc(id, work_id, state, session_id, claim_id, session_client_id, AttributionView::Refuse { reason }), "work_id"@) == Some(JsonView::Str(work_id)),
        json::field(decision_doc(id, work_id, state, session_id, claim_id, session_client_id, AttributionView::Refuse { reason }), "state"@) == Some(JsonView::Str(state)),
        json::field(decision_doc(id, work_id, state, session_id, claim_id, session_client_id, AttributionView::Refuse { reason }), "session_id"@) == Some(json::opt_item(session_id)),
        json::field(decision_doc(id, work_id, state, session_id, claim_id, session_client_id, AttributionView::Refuse { reason }), "claim_id"@) == Some(json::opt_item(claim_id)),
        json::field(decision_doc(id, work_id, state, session_id, claim_id, session_client_id, AttributionView::Refuse { reason }), "observed_session_client_id"@) == Some(json::opt_item(session_client_id)),
        json::field(decision_doc(id, work_id, state, session_id, claim_id, session_client_id, AttributionView::Refuse { reason }), "action"@) == Some(JsonView::Str("refuse"@)),
        json::field(decision_doc(id, work_id, state, session_id, claim_id, session_client_id, AttributionView::Refuse { reason }), "reason"@) == Some(JsonView::Str(reason)),
        json::field(decision_doc(id, work_id, state, session_id, claim_id, session_client_id, AttributionView::Refuse { reason }), "forges_identity"@) == Some(JsonView::Bool(false)),
        json::field(decision_doc(id, work_id, state, session_id, claim_id, session_client_id, AttributionView::Refuse { reason }), "executor_client_id_invented"@) == Some(JsonView::Bool(false)),
{
    reveal_strlit("kind");
    reveal_strlit("id");
    reveal_strlit("work_id");
    reveal_strlit("state");
    reveal_strlit("session_id");
    reveal_strlit("claim_id");
    reveal_strlit("observed_session_client_id");
    reveal_strlit("action");
    reveal_strlit("reason");
    reveal_strlit("forges_identity");
    reveal_strlit("executor_client_id_invented");
    assert("kind"@.len() == 4);
    assert("id"@.len() == 2);
    assert("work_id"@.len() == 7);
    assert("state"@.len() == 5);
    assert("session_id"@.len() == 10);
    assert("claim_id"@.len() == 8);
    assert("observed_session_client_id"@.len() == 26);
    assert("action"@.len() == 6);
    assert("reason"@.len() == 6);
    assert("forges_identity"@.len() == 15);
    assert("executor_client_id_invented"@.len() == 27);
    assert("action"@[0] == 'a');
    assert("reason"@[0] == 'r');
    let f = decision_doc(id, work_id, state, session_id, claim_id, session_client_id, AttributionView::Refuse { reason })->Obj_0;
    json::field_is_first(f, "kind"@, 0);
    json::field_is_first(f, "id"@, 1);
    json::field_is_first(f, "work_id"@, 2);
    json::field_is_first(f, "state"@, 3);
    json::field_is_first(f, "session_id"@, 4);
    json::field_is_first(f, "claim_id"@, 5);
    json::field_is_first(f, "observed_session_client_id"@, 6);
    json::field_is_first(f, "action"@, 7);
    json::field_is_first(f, "reason"@, 8);
    json::field_is_first(f, "forges_identity"@, 9);
    json::field_is_first(f, "executor_client_id_invented"@, 10);
}

/// An execution that was not found is told as refused for that.
pub proof fn missing_executions_are_told(execution_id: Seq<char>)
    ensures
        json::field(missing_doc(execution_id), "kind"@) == Some(JsonView::Str("execution"@)),
        json::field(missing_doc(execution_id), "id"@) == Some(JsonView::Str(execution_id)),
        json::field(missing_doc(execution_id), "action"@) == Some(JsonView::Str("refuse"@)),
        json::field(missing_doc(execution_id), "reason"@) == Some(JsonView::Str("execution_not_found"@)),
        json::field(missing_doc(execution_id), "forges_identity"@) == Some(JsonView::Bool(false)),
        json::field(missing_doc(execution_id), "executor_client_id_invented"@) == Some(JsonView::Bool(false)),
{
    reveal_strlit("kind");
    reveal_strlit("id");
    reveal_strlit("action");
    reveal_strlit("reason");
    reveal_strlit("forges_identity");
    reveal_strlit("executor_client_id_invented");
    assert("kind"@.len() == 4);
    assert("id"@.len() == 2);
    assert("action"@.len() == 6);
    assert("reason"@.len() == 6);
    assert("forges_identity"@.len() == 15);
    assert("executor_client_id_invented"@.len() == 27);
    assert("action"@[0] == 'a');
    assert("reason"@[0] == 'r');
    let f = missing_doc(execution_id)->Obj_0;
    json::field_is_first(f, "kind"@, 0);
    json::field_is_first(f, "id"@, 1);
    json::field_is_first(f, "action"@, 2);
    json::field_is_first(f, "reason"@, 3);
    json::field_is_first(f, "forges_identity"@, 4);
    json::field_is_first(f, "executor_client_id_invented"@, 5);
}

/// An entry of a plan is told with each of its values under the name of the value.
pub proof fn entries_are_told(entry: ExecutionAttributionEntry)
    ensures
        json::field(entry_doc(entry), "execution_id"@) == Some(JsonView::Str(entry.execution_id@)),
        json::field(entry_doc(entry), "executor_client_id"@) == Some(JsonView::Str(entry.executor_client_id@)),
{
    reveal_strlit("execution_id");
    reveal_strlit("executor_client_id");
    assert("execution_id"@.len() == 12);
    assert("executor_client_id"@.len() == 18);
    let f = entry_doc(entry)->Obj_0;
    json::field_is_first(f, "execution_id"@, 0);
    json::field_is_first(f, "executor_client_id"@, 1);
}

/// A plan is told as it was given, entry by entry.
pub proof fn plan_values_are_told(plan: ExecutionAttributionPlan)
    ensures
        json::field(plan_value_doc(plan), "protocol_version"@) == Some(JsonView::Int(plan.protocol_version as int)),
        json::field(plan_value_doc(plan), "tenant_id"@) == Some(JsonView::Str(plan.tenant_id@)),
        json::field(plan_value_doc(plan), "project_id"@) == Some(JsonView::Str(plan.project_id@)),
{
    reveal_strlit("protocol_version");
    reveal_strlit("tenant_id");
    reveal_strlit("project_id");
    reveal_strlit("attributions");
    assert("protocol_version"@.len() == 16);
    assert("tenant_id"@.len() == 9);
    assert("project_id"@.len() == 10);
    assert("attributions"@.len() == 12);
    let f = plan_value_doc(plan)->Obj_0;
    json::field_is_first(f, "protocol_version"@, 0);
    json::field_is_first(f, "tenant_id"@, 1);
    json::field_is_first(f, "project_id"@, 2);
    json::field_is_first(f, "attributions"@, 3);
}

/// Counts are of what is attributed, and of what is refused by its reason.
pub proof fn attribution_counts_are_told(acted: Seq<ItemView>, refused: Seq<ItemView>)
    ensures
        json::field(counts_doc(acted, refused), "actionable"@) == Some(json::count_item(acted.len() as usize)),
        json::field(counts_doc(acted, refused), "refused"@) == Some(json::count_item(refused.len() as usize)),
        json::field(counts_doc(acted, refused), "refused_check_requires_session_id"@) == Some(reason_count(refused, "check_requires_session_id"@)),
        json::field(counts_doc(acted, refused), "refused_check_requires_claim_id"@) == Some(reason_count(refused, "check_requires_claim_id"@)),
        json::field(counts_doc(acted, refused), "refused_session_missing"@) == Some(reason_count(refused, "session_missing_cannot_verify_executor_client_id"@)),
        json::field(counts_doc(acted, refused), "refused_client_mismatch"@) == Some(reason_count(refused, "reviewed_executor_client_id_mismatch_session"@)),
        json::field(counts_doc(acted, refused), "refused_missing_ownership"@) == Some(reason_count(refused, "work_id_missing_from_current_ownership"@)),
        json::field(counts_doc(acted, refused), "refused_already_attributed"@) == Some(reason_count(refused, "already_attributed_use_execution_reconcile"@)),
        json::field(counts_doc(acted, refused), "refused_not_found"@) == Some(reason_count(refused, "execution_not_found"@)),
{
    reveal_strlit("actionable");
    reveal_strlit("refused");
    reveal_strlit("executions_attribute");
    reveal_strlit("refused_check_requires_session_id");
    reveal_strlit("refused_check_requires_claim_id");
    reveal_strlit("refused_session_missing");
    reveal_strlit("refused_client_mismatch");
    reveal_strlit("refused_missing_ownership");
    reveal_strlit("refused_already_attributed");
    reveal_strlit("refused_not_found");
    assert("actionable"@.len() == 10);
    assert("refused"@.len() == 7);
    assert("executions_attribute"@.len() == 20);
    assert("refused_check_requires_session_id"@.len() == 33);
    assert("refused_check_requires_claim_id"@.len() == 31);
    assert("refused_session_missing"@.len() == 23);
    assert("refused_client_mismatch"@.len() == 23);
    assert("refused_missing_ownership"@.len() == 25);
    assert("refused_already_attributed"@.len() == 26);
    assert("refused_not_found"@.len() == 17);
    assert("refused_session_missing"@[8] == 's');
    assert("refused_client_mismatch"@[8] == 'c');
    let f = counts_doc(acted, refused)->Obj_0;
    json::field_is_first(f, "actionable"@, 0);
    json::field_is_first(f, "refused"@, 1);
    json::field_is_first(f, "executions_attribute"@, 2);
    json::field_is_first(f, "refused_check_requires_session_id"@, 3);
    json::field_is_first(f, "refused_check_requires_claim_id"@, 4);
    json::field_is_first(f, "refused_session_missing"@, 5);
    json::field_is_first(f, "refused_client_mismatch"@, 6);
    json::field_is_first(f, "refused_missing_ownership"@, 7);
    json::field_is_first(f, "refused_already_attributed"@, 8);
    json::field_is_first(f, "refused_not_found"@, 9);
}

/// The state that a plan was made for is that of the project, with the executions it is about.
pub proof fn attribution_states_are_told(plan: ExecutionAttributionPlan, row: ProjectRow)
    ensures
        json::field(state_doc(plan, row), "tenant_id"@) == Some(JsonView::Str(plan.tenant_id@)),
        json::field(state_doc(plan, row), "project_id"@) == Some(JsonView::Str(plan.project_id@)),
        json::field(state_doc(plan, row), "project_status"@) == Some(JsonView::Str(row.status@)),
        json::field(state_doc(plan, row), "coordinator_epoch"@) == Some(JsonView::Str(row.coordinator_epoch@)),
        json::field(state_doc(plan, row), "project_revision"@) == Some(JsonView::Str(text::decimal_form(row.project_revision as int))),
        json::field(state_doc(plan, row), "source_snapshot_id"@) == Some(json::opt_item(text::opt(row.source_snapshot_id))),
{
    reveal_strlit("tenant_id");
    reveal_strlit("project_id");
    reveal_strlit("project_status");
    reveal_strlit("coordinator_epoch");
    reveal_strlit("project_revision");
    reveal_strlit("source_snapshot_id");
    reveal_strlit("attribution_execution_ids");
    reveal_strlit("attribution_executor_client_ids");
    assert("tenant_id"@.len() == 9);
    assert("project_id"@.len() == 10);
    assert("project_status"@.len() == 14);
    assert("coordinator_epoch"@.len() == 17);
    assert("project_revision"@.len() == 16);
    assert("source_snapshot_id"@.len() == 18);
    assert("attribution_execution_ids"@.len() == 25);
    assert("attribution_executor_client_ids"@.len() == 31);
    let f = state_doc(plan, row)->Obj_0;
    json::field_is_first(f, "tenant_id"@, 0);
    json::field_is_first(f, "project_id"@, 1);
    json::field_is_first(f, "project_status"@, 2);
    json::field_is_first(f, "coordinator_epoch"@, 3);
    json::field_is_first(f, "project_revision"@, 4);
    json::field_is_first(f, "source_snapshot_id"@, 5);
    json::field_is_first(f, "attribution_execution_ids"@, 6);
    json::field_is_first(f, "attribution_executor_client_ids"@, 7);
}

/// A plan tells what it would do, and changes nothing itself.
pub proof fn attribution_plans_are_told(plan: ExecutionAttributionPlan, operator: Seq<char>, acted: Seq<ItemView>, refused: Seq<ItemView>)
    ensures
        json::field(body_doc(plan, operator, acted, refused), "protocol"@) == Some(JsonView::Str("awr-operator-execution-attribution-v1"@)),
        json::field(body_doc(plan, operator, acted, refused), "protocol_version"@) == Some(JsonView::Int(1)),
        json::field(body_doc(plan, operator, acted, refused), "read_only_preview"@) == Some(JsonView::Bool(true)),
        json::field(body_doc(plan, operator, acted, refused), "mutation_on_preview"@) == Some(JsonView::Bool(false)),
        json::field(body_doc(plan, operator, acted, refused), "operator_role"@) == Some(JsonView::Str(operator)),
        json::field(body_doc(plan, operator, acted, refused), "tenant_id"@) == Some(JsonView::Str(plan.tenant_id@)),
        json::field(body_doc(plan, operator, acted, refused), "project_id"@) == Some(JsonView::Str(plan.project_id@)),
        json::field(body_doc(plan, operator, acted, refused), "plan"@) == Some(plan_value_doc(plan)),
        json::field(body_doc(plan, operator, acted, refused), "safe_subset"@) == Some(json::text_items(safe_subset())),
        json::field(body_doc(plan, operator, acted, refused), "unsafe_excluded"@) == Some(json::text_items(unsafe_excluded())),
        json::field(body_doc(plan, operator, acted, refused), "forges_identity"@) == Some(JsonView::Bool(false)),
        json::field(body_doc(plan, operator, acted, refused), "local_file_access"@) == Some(JsonView::Str("not_server_acl_or_confidentiality_sandbox"@)),
        json::field(body_doc(plan, operator, acted, refused), "frontend_filtering"@) == Some(JsonView::Bool(false)),
        json::field(body_doc(plan, operator, acted, refused), "counts"@) == Some(counts_doc(acted, refused)),
        json::field(body_doc(plan, operator, acted, refused), "actionable"@) == Some(JsonView::Arr(operator_plan::docs(acted))),
        json::field(body_doc(plan, operator, acted, refused), "refused"@) == Some(JsonView::Arr(operator_plan::docs(refused))),
        json::field(body_doc(plan, operator, acted, refused), "actionable_sample"@) == Some(JsonView::Arr(operator_plan::docs(operator_plan::sample(acted)))),
        json::field(body_doc(plan, operator, acted, refused), "refused_sample"@) == Some(JsonView::Arr(operator_plan::docs(operator_plan::sample(refused)))),
{
    reveal_strlit("protocol");
    reveal_strlit("protocol_version");
    reveal_strlit("read_only_preview");
    reveal_strlit("mutation_on_preview");
    reveal_strlit("operator_role");
    reveal_strlit("tenant_id");
    reveal_strlit("project_id");
    reveal_strlit("plan");
    reveal_strlit("safe_subset");
    reveal_strlit("unsafe_excluded");
    reveal_strlit("forges_identity");
    reveal_strlit("local_file_access");
    reveal_strlit("frontend_filtering");
    reveal_strlit("counts");
    reveal_strlit("actionable");
    reveal_strlit("refused");
    reveal_strlit("actionable_sample");
    reveal_strlit("refused_sample");
    assert("protocol"@.len() == 8);
    assert("protocol_version"@.len() == 16);
    assert("read_only_preview"@.len() == 17);
    assert("mutation_on_preview"@.len() == 19);
    assert("operator_role"@.len() == 13);
    assert("tenant_id"@.len() == 9);
    assert("project_id"@.len() == 10);
    assert("plan"@.len() == 4);
    assert("safe_subset"@.len() == 11);
    assert("unsafe_excluded"@.len() == 15);
    assert("forges_identity"@.len() == 15);
    assert("local_file_access"@.len() == 17);
    assert("frontend_filtering"@.len() == 18);
    assert("counts"@.len() == 6);
    assert("actionable"@.len() == 10);
    assert("refused"@.len() == 7);
    assert("actionable_sample"@.len() == 17);
    assert("refused_sample"@.len() == 14);
    assert("read_only_preview"@[0] == 'r');
    assert("local_file_access"@[0] == 'l');
    assert("actionable_sample"@[0] == 'a');
    assert("project_id"@[0] == 'p');
    assert("actionable"@[0] == 'a');
    assert("unsafe_excluded"@[0] == 'u');
    assert("forges_identity"@[0] == 'f');
    let f = body_doc(plan, operator, acted, refused)->Obj_0;
    json::field_is_first(f, "protocol"@, 0);
    json::field_is_first(f, "protocol_version"@, 1);
    json::field_is_first(f, "read_only_preview"@, 2);
    json::field_is_first(f, "mutation_on_preview"@, 3);
    json::field_is_first(f, "operator_role"@, 4);
    json::field_is_first(f, "tenant_id"@, 5);
    json::field_is_first(f, "project_id"@, 6);
    json::field_is_first(f, "plan"@, 7);
    json::field_is_first(f, "safe_subset"@, 8);
    json::field_is_first(f, "unsafe_excluded"@, 9);
    json::field_is_first(f, "forges_identity"@, 10);
    json::field_is_first(f, "local_file_access"@, 11);
    json::field_is_first(f, "frontend_filtering"@, 12);
    json::field_is_first(f, "counts"@, 13);
    json::field_is_first(f, "actionable"@, 14);
    json::field_is_first(f, "refused"@, 15);
    json::field_is_first(f, "actionable_sample"@, 16);
    json::field_is_first(f, "refused_sample"@, 17);
}

/// The intent of a request is its plan and what it expects, not its name.
pub proof fn attribution_requests_are_told(plan: ExecutionAttributionPlan, q: AttributionRequest)
    ensures
        json::field(intent_doc(plan, q), "protocol"@) == Some(JsonView::Str("awr-operator-execution-attribution-v1"@)),
        json::field(intent_doc(plan, q), "tenant_id"@) == Some(JsonView::Str(plan.tenant_id@)),
        json::field(intent_doc(plan, q), "project_id"@) == Some(JsonView::Str(plan.project_id@)),
        json::field(intent_doc(plan, q), "expected_state"@) == Some(JsonView::Str(q.expected_state@)),
        json::field(intent_doc(plan, q), "expected_plan"@) == Some(JsonView::Str(q.expected_plan@)),
        json::field(intent_doc(plan, q), "plan"@) == Some(plan_value_doc(plan)),
{
    reveal_strlit("protocol");
    reveal_strlit("tenant_id");
    reveal_strlit("project_id");
    reveal_strlit("expected_state");
    reveal_strlit("expected_plan");
    reveal_strlit("plan");
    assert("protocol"@.len() == 8);
    assert("tenant_id"@.len() == 9);
    assert("project_id"@.len() == 10);
    assert("expected_state"@.len() == 14);
    assert("expected_plan"@.len() == 13);
    assert("plan"@.len() == 4);
    let f = intent_doc(plan, q)->Obj_0;
    json::field_is_first(f, "protocol"@, 0);
    json::field_is_first(f, "tenant_id"@, 1);
    json::field_is_first(f, "project_id"@, 2);
    json::field_is_first(f, "expected_state"@, 3);
    json::field_is_first(f, "expected_plan"@, 4);
    json::field_is_first(f, "plan"@, 5);
}

/// A receipt names its request and tells what was done; nothing is forged, invented, authorized or resumed.
pub proof fn attribution_receipts_are_told(plan: ExecutionAttributionPlan, q: AttributionRequest, intent_hash: Seq<char>, operator: Seq<char>, revision: i64, acted: Seq<ItemView>, refused: Seq<ItemView>)
    ensures
        json::field(receipt_doc(plan, q, intent_hash, operator, revision, acted, refused), "protocol"@) == Some(JsonView::Str("awr-operator-execution-attribution-v1"@)),
        json::field(receipt_doc(plan, q, intent_hash, operator, revision, acted, refused), "request_id"@) == Some(JsonView::Str(q.request@)),
        json::field(receipt_doc(plan, q, intent_hash, operator, revision, acted, refused), "request_hash"@) == Some(JsonView::Str(intent_hash)),
        json::field(receipt_doc(plan, q, intent_hash, operator, revision, acted, refused), "operator_role"@) == Some(JsonView::Str(operator)),
        json::field(receipt_doc(plan, q, intent_hash, operator, revision, acted, refused), "tenant_id"@) == Some(JsonView::Str(plan.tenant_id@)),
        json::field(receipt_doc(plan, q, intent_hash, operator, revision, acted, refused), "project_id"@) == Some(JsonView::Str(plan.project_id@)),
        json::field(receipt_doc(plan, q, intent_hash, operator, revision, acted, refused), "state_digest"@) == Some(JsonView::Str(q.expected_state@)),
        json::field(receipt_doc(plan, q, intent_hash, operator, revision, acted, refused), "plan_digest"@) == Some(JsonView::Str(q.expected_plan@)),
        json::field(receipt_doc(plan, q, intent_hash, operator, revision, acted, refused), "project_revision"@) == Some(JsonView::Str(text::decimal_form(revision as int))),
        json::field(receipt_doc(plan, q, intent_hash, operator, revision, acted, refused), "applied"@) == Some(JsonView::Arr(operator_plan::docs(acted))),
        json::field(receipt_doc(plan, q, intent_hash, operator, revision, acted, refused), "refused"@) == Some(JsonView::Arr(operator_plan::docs(refused))),
        json::field(receipt_doc(plan, q, intent_hash, operator, revision, acted, refused), "counts"@) == Some(counts_doc(acted, refused)),
        json::field(receipt_doc(plan, q, intent_hash, operator, revision, acted, refused), "identity_forged"@) == Some(JsonView::Bool(false)),
        json::field(receipt_doc(plan, q, intent_hash, operator, revision, acted, refused), "executor_client_id_invented"@) == Some(JsonView::Bool(false)),
        json::field(receipt_doc(plan, q, intent_hash, operator, revision, acted, refused), "completion_receipts_modified"@) == Some(JsonView::Bool(false)),
        json::field(receipt_doc(plan, q, intent_hash, operator, revision, acted, refused), "execution_authorized"@) == Some(JsonView::Bool(false)),
        json::field(receipt_doc(plan, q, intent_hash, operator, revision, acted, refused), "automatic_resume"@) == Some(JsonView::Bool(false)),
        json::field(receipt_doc(plan, q, intent_hash, operator, revision, acted, refused), "state_basis"@) == Some(JsonView::Str("at_commit"@)),
{
    reveal_strlit("protocol");
    reveal_strlit("request_id");
    reveal_strlit("request_hash");
    reveal_strlit("operator_role");
    reveal_strlit("tenant_id");
    reveal_strlit("project_id");
    reveal_strlit("state_digest");
    reveal_strlit("plan_digest");
    reveal_strlit("project_revision");
    reveal_strlit("applied");
    reveal_strlit("refused");
    reveal_strlit("counts");
    reveal_strlit("identity_forged");
    reveal_strlit("executor_client_id_invented");
    reveal_strlit("completion_receipts_modified");
    reveal_strlit("execution_authorized");
    reveal_strlit("automatic_resume");
    reveal_strlit("state_basis");
    assert("protocol"@.len() == 8);
    assert("request_id"@.len() == 10);
    assert("request_hash"@.len() == 12);
    assert("operator_role"@.len() == 13);
    assert("tenant_id"@.len() == 9);
    assert("project_id"@.len() == 10);
    assert("state_digest"@.len() == 12);
    assert("plan_digest"@.len() == 11);
    assert("project_revision"@.len() == 16);
    assert("applied"@.len() == 7);
    assert("refused"@.len() == 7);
    assert("counts"@.len() == 6);
    assert("identity_forged"@.len() == 15);
    assert("executor_client_id_invented"@.len() == 27);
    assert("completion_receipts_modified"@.len() == 28);
    assert("execution_authorized"@.len() == 20);
    assert("automatic_resume"@.len() == 16);
    assert("state_basis"@.len() == 11);
    assert("request_id"@[0] == 'r');
    assert("project_id"@[0] == 'p');
    assert("request_hash"@[0] == 'r');
    assert("state_digest"@[0] == 's');
    assert("plan_digest"@[0] == 'p');
    assert("state_basis"@[0] == 's');
    assert("project_revision"@[0] == 'p');
    assert("automatic_resume"@[0] == 'a');
    assert("applied"@[0] == 'a');
    assert("refused"@[0] == 'r');
    let f = receipt_doc(plan, q, intent_hash, operator, revision, acted, refused)->Obj_0;
    json::field_is_first(f, "protocol"@, 0);
    json::field_is_first(f, "request_id"@, 1);
    json::field_is_first(f, "request_hash"@, 2);
    json::field_is_first(f, "operator_role"@, 3);
    json::field_is_first(f, "tenant_id"@, 4);
    json::field_is_first(f, "project_id"@, 5);
    json::field_is_first(f, "state_digest"@, 6);
    json::field_is_first(f, "plan_digest"@, 7);
    json::field_is_first(f, "project_revision"@, 8);
    json::field_is_first(f, "applied"@, 9);
    json::field_is_first(f, "refused"@, 10);
    json::field_is_first(f, "counts"@, 11);
    json::field_is_first(f, "identity_forged"@, 12);
    json::field_is_first(f, "executor_client_id_invented"@, 13);
    json::field_is_first(f, "completion_receipts_modified"@, 14);
    json::field_is_first(f, "execution_authorized"@, 15);
    json::field_is_first(f, "automatic_resume"@, 16);
    json::field_is_first(f, "state_basis"@, 17);
}

/// A preview tells the plan and the digests that it is applied under; nothing was applied.
pub proof fn attribution_previews_are_told(operator: Seq<char>, built: BuiltPlan, state_digest: Seq<char>, plan_digest: Seq<char>)
    ensures
        json::field(preview_doc(operator, built, state_digest, plan_digest), "protocol"@) == Some(JsonView::Str("awr-operator-execution-attribution-v1"@)),
        json::field(preview_doc(operator, built, state_digest, plan_digest), "applied"@) == Some(JsonView::Bool(false)),
        json::field(preview_doc(operator, built, state_digest, plan_digest), "operator_role"@) == Some(JsonView::Str(operator)),
        json::field(preview_doc(operator, built, state_digest, plan_digest), "state_digest"@) == Some(JsonView::Str(state_digest)),
        json::field(preview_doc(operator, built, state_digest, plan_digest), "plan_digest"@) == Some(JsonView::Str(plan_digest)),
        json::field(preview_doc(operator, built, state_digest, plan_digest), "state"@) == Some(built.state.model()),
        json::field(preview_doc(operator, built, state_digest, plan_digest), "counts"@) == Some(counts_doc(operator_plan::item_views(built.lists.actionable@), operator_plan::item_views(built.lists.refused@))),
        json::field(preview_doc(operator, built, state_digest, plan_digest), "actionable"@) == Some(JsonView::Arr(operator_plan::docs(operator_plan::item_views(built.lists.actionable@)))),
        json::field(preview_doc(operator, built, state_digest, plan_digest), "refused"@) == Some(JsonView::Arr(operator_plan::docs(operator_plan::item_views(built.lists.refused@)))),
        json::field(preview_doc(operator, built, state_digest, plan_digest), "safe_subset"@) == Some(json::text_items(safe_subset())),
        json::field(preview_doc(operator, built, state_digest, plan_digest), "unsafe_excluded"@) == Some(json::text_items(unsafe_excluded())),
        json::field(preview_doc(operator, built, state_digest, plan_digest), "next_action"@) == Some(JsonView::Str( "Review actionable/refused; apply with exact state_digest and plan_digest. executor_client_id must be reviewed and match the session; it is never invented."@, )),
{
    reveal_strlit("protocol");
    reveal_strlit("applied");
    reveal_strlit("operator_role");
    reveal_strlit("state_digest");
    reveal_strlit("plan_digest");
    reveal_strlit("state");
    reveal_strlit("counts");
    reveal_strlit("actionable");
    reveal_strlit("refused");
    reveal_strlit("safe_subset");
    reveal_strlit("unsafe_excluded");
    reveal_strlit("next_action");
    assert("protocol"@.len() == 8);
    assert("applied"@.len() == 7);
    assert("operator_role"@.len() == 13);
    assert("state_digest"@.len() == 12);
    assert("plan_digest"@.len() == 11);
    assert("state"@.len() == 5);
    assert("counts"@.len() == 6);
    assert("actionable"@.len() == 10);
    assert("refused"@.len() == 7);
    assert("safe_subset"@.len() == 11);
    assert("unsafe_excluded"@.len() == 15);
    assert("next_action"@.len() == 11);
    assert("applied"@[0] == 'a');
    assert("refused"@[0] == 'r');
    assert("plan_digest"@[0] == 'p');
    assert("safe_subset"@[0] == 's');
    assert("next_action"@[0] == 'n');
    let f = preview_doc(operator, built, state_digest, plan_digest)->Obj_0;
    json::field_is_first(f, "protocol"@, 0);
    json::field_is_first(f, "applied"@, 1);
    json::field_is_first(f, "operator_role"@, 2);
    json::field_is_first(f, "state_digest"@, 3);
    json::field_is_first(f, "plan_digest"@, 4);
    json::field_is_first(f, "state"@, 5);
    json::field_is_first(f, "counts"@, 6);
    json::field_is_first(f, "actionable"@, 7);
    json::field_is_first(f, "refused"@, 8);
    json::field_is_first(f, "safe_subset"@, 9);
    json::field_is_first(f, "unsafe_excluded"@, 10);
    json::field_is_first(f, "next_action"@, 11);
}

/// A plan is told entry by entry, and the state it was made for lists its executions and their clients in
/// the same order.
pub proof fn entries_stay_in_their_places(plan: ExecutionAttributionPlan, row: ProjectRow, i: int)
    requires
        0 <= i < plan.attributions@.len(),
    ensures
        json::field(plan_value_doc(plan), "attributions"@) matches Some(JsonView::Arr(items))
            && items.len() == plan.attributions@.len() && items[i] == entry_doc(plan.attributions@[i]),
        json::field(state_doc(plan, row), "attribution_execution_ids"@) matches Some(
            JsonView::Arr(items),
        ) && items.len() == plan.attributions@.len() && items[i] == JsonView::Str(
            plan.attributions@[i].execution_id@,
        ),
        json::field(state_doc(plan, row), "attribution_executor_client_ids"@) matches Some(
            JsonView::Arr(items),
        ) && items.len() == plan.attributions@.len() && items[i] == JsonView::Str(
            plan.attributions@[i].executor_client_id@,
        ),
{
    reveal_strlit("protocol_version");
    reveal_strlit("tenant_id");
    reveal_strlit("project_id");
    reveal_strlit("attributions");
    reveal_strlit("project_status");
    reveal_strlit("coordinator_epoch");
    reveal_strlit("project_revision");
    reveal_strlit("source_snapshot_id");
    reveal_strlit("attribution_execution_ids");
    reveal_strlit("attribution_executor_client_ids");
    assert("protocol_version"@.len() == 16);
    assert("tenant_id"@.len() == 9);
    assert("project_id"@.len() == 10);
    assert("attributions"@.len() == 12);
    assert("project_status"@.len() == 14);
    assert("coordinator_epoch"@.len() == 17);
    assert("project_revision"@.len() == 16);
    assert("source_snapshot_id"@.len() == 18);
    assert("attribution_execution_ids"@.len() == 25);
    assert("attribution_executor_client_ids"@.len() == 31);
    assert("project_revision"@[3] == 'j');
    assert("protocol_version"@[3] == 't');
    json::field_is_first(plan_value_doc(plan)->Obj_0, "attributions"@, 3);
    let f = state_doc(plan, row)->Obj_0;
    json::field_is_first(f, "attribution_execution_ids"@, 6);
    json::field_is_first(f, "attribution_executor_client_ids"@, 7);
}

/// A request that is not well formed is told as such.
pub proof fn malformed_requests_are_told()
    ensures
        invalid_request() == Fault::Protocol("invalid operator execution attribution request"@),
{
}

} // verus!
