//! Attribution of history that was written before its project had workstreams.
//!
//! A plan is made first and applied only with the digests that the operator has
//! seen. Sessions, claims that are no longer active and events get the workstream
//! that owns their work now. Active claims and executions are refused: nothing here
//! invents an actor or an executor.
use crate::error;
use crate::error::{protocol, Fault, PgError, PgResult};
use crate::json;
use crate::json::{Doc, Json, JsonView};
use crate::operator_plan;
use crate::operator_plan::{
    Item,
    ItemView,
    Lists,
    OwnedWork,
    OwnershipBinding,
    ProjectRow,
    Target,
    TargetView,
};
use crate::operator_request;
use crate::order;
use crate::text;
use vstd::prelude::*;

verus! {

pub const PROTOCOL: &'static str = "awr-operator-history-migration-v1";

/// The refusal of a request of this command that is not well formed.
pub open spec fn invalid_request() -> Fault {
    Fault::Protocol("invalid operator history migration request"@)
}

fn invalid() -> (r: PgError)
    ensures
        r@ == invalid_request(),
{
    protocol("invalid operator history migration request")
}

#[derive(Clone, Copy, Debug, PartialEq, Eq, Structural)]
pub enum HistoryKind {
    Session,
    Claim,
    Event,
    Execution,
}

impl HistoryKind {
    /// The name of the kind in plans.
    pub open spec fn name(self) -> Seq<char> {
        match self {
            HistoryKind::Session => "session"@,
            HistoryKind::Claim => "claim"@,
            HistoryKind::Event => "event"@,
            HistoryKind::Execution => "execution"@,
        }
    }

    pub fn as_str(self) -> (r: &'static str)
        ensures
            r@ == self.name(),
    {
        match self {
            HistoryKind::Session => "session",
            HistoryKind::Claim => "claim",
            HistoryKind::Event => "event",
            HistoryKind::Execution => "execution",
        }
    }
}

/// What is done about a row of history.
#[derive(Clone, Debug, PartialEq, Eq)]
pub enum HistoryDecision {
    Attribute {
        workstream_id: String,
        ownership_version: i64,
        coordinator_epoch: Option<String>,
    },
    Refuse { reason: &'static str },
}

/// The model of a decision.
pub enum HistoryDecisionView {
    Attribute {
        workstream_id: Seq<char>,
        ownership_version: i64,
        coordinator_epoch: Option<Seq<char>>,
    },
    Refuse { reason: Seq<char> },
}

impl View for HistoryDecision {
    type V = HistoryDecisionView;

    open spec fn view(&self) -> HistoryDecisionView {
        match self {
            HistoryDecision::Attribute { workstream_id, ownership_version, coordinator_epoch } => {
                HistoryDecisionView::Attribute {
                    workstream_id: workstream_id@,
                    ownership_version: *ownership_version,
                    coordinator_epoch: text::opt(*coordinator_epoch),
                }
            },
            HistoryDecision::Refuse { reason } => HistoryDecisionView::Refuse { reason: reason@ },
        }
    }
}

/// A session gets the workstream that owns its work.
pub open spec fn session_decision(
    work_id: Seq<char>,
    ownership: Option<OwnershipBinding>,
) -> HistoryDecisionView {
    match ownership {
        Some(o) => if work_id.len() > 0 {
            HistoryDecisionView::Attribute {
                workstream_id: o.workstream_id@,
                ownership_version: o.ownership_version,
                coordinator_epoch: None,
            }
        } else {
            HistoryDecisionView::Refuse { reason: "work_id_missing_from_current_ownership"@ }
        },
        None => HistoryDecisionView::Refuse { reason: "work_id_missing_from_current_ownership"@ },
    }
}

/// A claim that is not active gets the workstream that owns its work, and the epoch.
pub open spec fn claim_decision(
    state: Seq<char>,
    work_id: Seq<char>,
    ownership: Option<OwnershipBinding>,
    project_epoch: Seq<char>,
) -> HistoryDecisionView {
    if state == "active"@ {
        HistoryDecisionView::Refuse {
            reason: "active_unattributed_claim_requires_manual_recovery"@,
        }
    } else if ownership is Some && work_id.len() > 0 && project_epoch.len() > 0 {
        HistoryDecisionView::Attribute {
            workstream_id: ownership->Some_0.workstream_id@,
            ownership_version: ownership->Some_0.ownership_version,
            coordinator_epoch: Some(project_epoch),
        }
    } else {
        HistoryDecisionView::Refuse { reason: "work_id_missing_from_current_ownership"@ }
    }
}

/// An event gets the workstream that owns its work, if it names one.
pub open spec fn event_decision(
    work_id: Option<Seq<char>>,
    ownership: Option<OwnershipBinding>,
) -> HistoryDecisionView {
    if work_id is None || work_id->Some_0.len() == 0 {
        HistoryDecisionView::Refuse { reason: "event_lacks_work_id"@ }
    } else {
        match ownership {
            Some(o) => HistoryDecisionView::Attribute {
                workstream_id: o.workstream_id@,
                ownership_version: o.ownership_version,
                coordinator_epoch: None,
            },
            None => HistoryDecisionView::Refuse {
                reason: "work_id_missing_from_current_ownership"@,
            },
        }
    }
}

/// An execution is refused: attributing it would need an executor that nobody named.
pub open spec fn execution_decision() -> HistoryDecisionView {
    HistoryDecisionView::Refuse {
        reason: "use_execution_attribution_protocol_for_reviewed_executor_client_id"@,
    }
}

pub fn classify_session(work_id: &str, ownership: Option<&OwnershipBinding>) -> (r: HistoryDecision)
    ensures
        r@ == session_decision(work_id@, operator_plan::binding_value(ownership)),
{
    match ownership {
        Some(o) => {
            if !work_id.is_empty() {
                HistoryDecision::Attribute {
                    workstream_id: o.workstream_id.clone(),
                    ownership_version: o.ownership_version,
                    coordinator_epoch: None,
                }
            } else {
                HistoryDecision::Refuse { reason: "work_id_missing_from_current_ownership" }
            }
        },
        None => HistoryDecision::Refuse { reason: "work_id_missing_from_current_ownership" },
    }
}

pub fn classify_claim(
    state: &str,
    work_id: &str,
    ownership: Option<&OwnershipBinding>,
    project_epoch: &str,
) -> (r: HistoryDecision)
    ensures
        r@ == claim_decision(state@, work_id@, operator_plan::binding_value(ownership), project_epoch@),
{
    if text::same(state, "active") {
        return HistoryDecision::Refuse {
            reason: "active_unattributed_claim_requires_manual_recovery",
        };
    }
    match ownership {
        Some(o) => {
            if !work_id.is_empty() && !project_epoch.is_empty() {
                HistoryDecision::Attribute {
                    workstream_id: o.workstream_id.clone(),
                    ownership_version: o.ownership_version,
                    coordinator_epoch: Some(project_epoch.to_owned()),
                }
            } else {
                HistoryDecision::Refuse { reason: "work_id_missing_from_current_ownership" }
            }
        },
        None => HistoryDecision::Refuse { reason: "work_id_missing_from_current_ownership" },
    }
}

pub fn classify_event(work_id: Option<&str>, ownership: Option<&OwnershipBinding>) -> (r:
    HistoryDecision)
    ensures
        r@ == event_decision(text::opt_str(work_id), operator_plan::binding_value(ownership)),
{
    let named = match work_id {
        Some(w) => !w.is_empty(),
        None => false,
    };
    if !named {
        return HistoryDecision::Refuse { reason: "event_lacks_work_id" };
    }
    match ownership {
        Some(o) => HistoryDecision::Attribute {
            workstream_id: o.workstream_id.clone(),
            ownership_version: o.ownership_version,
            coordinator_epoch: None,
        },
        None => HistoryDecision::Refuse { reason: "work_id_missing_from_current_ownership" },
    }
}

pub fn classify_execution() -> (r: HistoryDecision)
    ensures
        r@ == execution_decision(),
{
    HistoryDecision::Refuse {
        reason: "use_execution_attribution_protocol_for_reviewed_executor_client_id",
    }
}

/// A row of history with its decision, as a document.
pub open spec fn decision_doc(
    kind: HistoryKind,
    id: Seq<char>,
    work_id: Option<Seq<char>>,
    d: HistoryDecisionView,
) -> JsonView {
    let head = json::no_fields().push(("kind"@, JsonView::Str(kind.name()))).push(
        ("id"@, JsonView::Str(id)),
    );
    match d {
        HistoryDecisionView::Attribute { workstream_id, ownership_version, coordinator_epoch } => {
            let named = match work_id {
                Some(w) => head.push(("work_id"@, JsonView::Str(w))),
                None => head,
            };
            let body = named.push(("action"@, JsonView::Str("attribute"@))).push(
                ("workstream_id"@, JsonView::Str(workstream_id)),
            ).push(
                (
                    "ownership_version"@,
                    JsonView::Str(text::decimal_form(ownership_version as int)),
                ),
            );
            match coordinator_epoch {
                Some(e) => JsonView::Obj(body.push(("coordinator_epoch"@, JsonView::Str(e)))),
                None => JsonView::Obj(body),
            }
        },
        HistoryDecisionView::Refuse { reason } => JsonView::Obj(
            head.push(("work_id"@, json::opt_item(work_id))).push(
                ("action"@, JsonView::Str("refuse"@)),
            ).push(("reason"@, JsonView::Str(reason))),
        ),
    }
}

/// A row of history with its decision, as a document.
pub fn decision_json(kind: HistoryKind, id: &str, work_id: Option<&str>, d: &HistoryDecision) -> (r:
    Json)
    ensures
        r.model() == decision_doc(kind, id@, text::opt_str(work_id), d@),
{
    let head = Doc::new().put("kind", json::text(kind.as_str())).put("id", json::text(id));
    match d {
        HistoryDecision::Attribute { workstream_id, ownership_version, coordinator_epoch } => {
            let named = match work_id {
                Some(w) => head.put("work_id", json::text(w)),
                None => head,
            };
            let body = named.put("action", json::text("attribute")).put(
                "workstream_id",
                json::text(workstream_id.as_str()),
            ).put(
                "ownership_version",
                json::text(text::decimal(*ownership_version).as_str()),
            );
            match coordinator_epoch {
                Some(e) => body.put("coordinator_epoch", json::text(e.as_str())).json(),
                None => body.json(),
            }
        },
        HistoryDecision::Refuse { reason } => head.put("work_id", json::opt_text(work_id)).put(
            "action",
            json::text("refuse"),
        ).put("reason", json::text(reason)).json(),
    }
}

/// A row of a plan.
pub open spec fn plan_item(
    kind: HistoryKind,
    id: Seq<char>,
    work_id: Option<Seq<char>>,
    d: HistoryDecisionView,
) -> ItemView {
    ItemView {
        kind: kind.name(),
        id,
        action: match d {
            HistoryDecisionView::Attribute { .. } => "attribute"@,
            HistoryDecisionView::Refuse { .. } => "refuse"@,
        },
        reason: match d {
            HistoryDecisionView::Attribute { .. } => ""@,
            HistoryDecisionView::Refuse { reason } => reason,
        },
        target: match d {
            HistoryDecisionView::Attribute {
                workstream_id,
                ownership_version,
                coordinator_epoch,
            } => Some(
                TargetView {
                    workstream_id,
                    ownership_version,
                    coordinator_epoch,
                    executor_client_id: None,
                },
            ),
            HistoryDecisionView::Refuse { .. } => None,
        },
        doc: decision_doc(kind, id, work_id, d),
    }
}

fn make_item(kind: HistoryKind, id: &str, work_id: Option<&str>, d: HistoryDecision) -> (r: Item)
    ensures
        r@ == plan_item(kind, id@, text::opt_str(work_id), d@),
{
    let doc = decision_json(kind, id, work_id, &d);
    match d {
        HistoryDecision::Attribute { workstream_id, ownership_version, coordinator_epoch } => Item {
            kind: kind.as_str(),
            id: id.to_owned(),
            action: "attribute",
            reason: "",
            target: Some(
                Target {
                    workstream_id,
                    ownership_version,
                    coordinator_epoch,
                    executor_client_id: None,
                },
            ),
            doc,
        },
        HistoryDecision::Refuse { reason } => Item {
            kind: kind.as_str(),
            id: id.to_owned(),
            action: "refuse",
            reason,
            target: None,
            doc,
        },
    }
}

/// A row that has no workstream.
#[derive(Clone, Debug)]
pub struct HistoryRow {
    pub kind: HistoryKind,
    pub id: String,
    pub work_id: Option<String>,
    /// The state of a claim; empty for other rows.
    pub state: String,
}

/// The decision on a row of history.
pub open spec fn row_decision(
    row: HistoryRow,
    ownership: Seq<OwnedWork>,
    epoch: Seq<char>,
) -> HistoryDecisionView {
    let work = match row.work_id {
        Some(w) => w@,
        None => Seq::empty(),
    };
    let owner = if row.work_id is Some {
        operator_plan::binding_of(ownership, work)
    } else {
        None
    };
    match row.kind {
        HistoryKind::Session => session_decision(work, owner),
        HistoryKind::Claim => claim_decision(row.state@, work, owner, epoch),
        HistoryKind::Event => event_decision(text::opt(row.work_id), owner),
        HistoryKind::Execution => execution_decision(),
    }
}

/// The rows of a plan, in the order of the rows of history.
pub open spec fn plan_items(
    rows: Seq<HistoryRow>,
    ownership: Seq<OwnedWork>,
    epoch: Seq<char>,
) -> Seq<ItemView> {
    rows.map_values(
        |r: HistoryRow|
            plan_item(r.kind, r.id@, text::opt(r.work_id), row_decision(r, ownership, epoch)),
    )
}

/// The number of rows of a kind, as a document.
pub open spec fn kind_count(list: Seq<ItemView>, kind: Seq<char>) -> JsonView {
    json::count_item(operator_plan::tally(list, |i: ItemView| i.kind == kind) as usize)
}

/// The counts of a plan.
pub open spec fn counts_doc(acted: Seq<ItemView>, refused: Seq<ItemView>) -> JsonView {
    JsonView::Obj(
        json::no_fields().push(("attributable"@, json::count_item(acted.len() as usize))).push(
            ("refused"@, json::count_item(refused.len() as usize)),
        ).push(("sessions_attributable"@, kind_count(acted, "session"@))).push(
            ("claims_attributable"@, kind_count(acted, "claim"@)),
        ).push(("events_attributable"@, kind_count(acted, "event"@))).push(
            ("executions_attributable"@, JsonView::Int(0)),
        ).push(("sessions_refused"@, kind_count(refused, "session"@))).push(
            ("claims_refused"@, kind_count(refused, "claim"@)),
        ).push(("events_refused"@, kind_count(refused, "event"@))).push(
            ("executions_refused"@, kind_count(refused, "execution"@)),
        ),
    )
}

fn counts_document(lists: &Lists) -> (r: Json)
    ensures
        r.model() == counts_doc(
            operator_plan::item_views(lists.actionable@),
            operator_plan::item_views(lists.refused@),
        ),
{
    assert(operator_plan::item_views(lists.actionable@).len() == lists.actionable@.len());
    assert(operator_plan::item_views(lists.refused@).len() == lists.refused@.len());
    let acted = &lists.actionable;
    let refused = &lists.refused;
    Doc::new().put("attributable", json::count(acted.len())).put(
        "refused",
        json::count(refused.len()),
    ).put(
        "sessions_attributable",
        json::count(operator_plan::count_kind(acted, "session")),
    ).put("claims_attributable", json::count(operator_plan::count_kind(acted, "claim"))).put(
        "events_attributable",
        json::count(operator_plan::count_kind(acted, "event")),
    ).put("executions_attributable", json::number(0)).put(
        "sessions_refused",
        json::count(operator_plan::count_kind(refused, "session")),
    ).put("claims_refused", json::count(operator_plan::count_kind(refused, "claim"))).put(
        "events_refused",
        json::count(operator_plan::count_kind(refused, "event")),
    ).put(
        "executions_refused",
        json::count(operator_plan::count_kind(refused, "execution")),
    ).json()
}

/// How many rows of history are of a kind.
pub open spec fn rows_of_kind(rows: Seq<HistoryRow>, kind: HistoryKind) -> nat {
    rows.filter(|r: HistoryRow| r.kind == kind).len()
}

fn count_rows(rows: &[HistoryRow], kind: HistoryKind) -> (r: usize)
    ensures
        r == rows_of_kind(rows@, kind),
{
    let ghost wanted = |r: HistoryRow| r.kind == kind;
    let mut n: usize = 0;
    let mut i: usize = 0;
    proof {
        assert(rows@.take(0) =~= Seq::empty());
        reveal(Seq::filter);
    }
    while i < rows.len()
        invariant
            i <= rows.len(),
            n <= i,
            wanted == (|r: HistoryRow| r.kind == kind),
            n == rows@.take(i as int).filter(wanted).len(),
        decreases rows.len() - i,
    {
        proof {
            reveal(Seq::filter);
            assert(rows@.take(i + 1).drop_last() =~= rows@.take(i as int));
            assert(rows@.take(i + 1).last() == rows@[i as int]);
        }
        if rows[i].kind == kind {
            n = n + 1;
        }
        i = i + 1;
    }
    assert(rows@.take(i as int) =~= rows@);
    n
}

/// What the state digest of a plan is of.
pub open spec fn is_state_doc(
    doc: JsonView,
    tenant: Seq<char>,
    project: Seq<char>,
    row: ProjectRow,
    rows: Seq<HistoryRow>,
    ownership: Seq<OwnedWork>,
) -> bool {
    exists|works: Seq<Seq<char>>|
        order::ascending(works) && #[trigger] order::same_members(
            works,
            operator_plan::owned_works(ownership),
        ) && doc == JsonView::Obj(
            json::no_fields().push(("tenant_id"@, JsonView::Str(tenant))).push(
                ("project_id"@, JsonView::Str(project)),
            ).push(("project_status"@, JsonView::Str(row.status@))).push(
                ("coordinator_epoch"@, JsonView::Str(row.coordinator_epoch@)),
            ).push(
                (
                    "project_revision"@,
                    JsonView::Str(text::decimal_form(row.project_revision as int)),
                ),
            ).push(
                ("source_snapshot_id"@, json::opt_item(text::opt(row.source_snapshot_id))),
            ).push(("ownership_work_ids"@, json::text_items(works))).push(
                (
                    "unattributed"@,
                    JsonView::Obj(
                        json::no_fields().push(
                            (
                                "sessions"@,
                                json::count_item(
                                    rows_of_kind(rows, HistoryKind::Session) as usize,
                                ),
                            ),
                        ).push(
                            (
                                "claims"@,
                                json::count_item(rows_of_kind(rows, HistoryKind::Claim) as usize),
                            ),
                        ).push(
                            (
                                "events"@,
                                json::count_item(rows_of_kind(rows, HistoryKind::Event) as usize),
                            ),
                        ).push(
                            (
                                "executions"@,
                                json::count_item(
                                    rows_of_kind(rows, HistoryKind::Execution) as usize,
                                ),
                            ),
                        ),
                    ),
                ),
            ),
        )
}

/// The rows that are attributed.
pub open spec fn safe_subset() -> Seq<Seq<char>> {
    Seq::empty().push("session"@).push("inactive_claim"@).push("event_with_work_id"@)
}

/// The rows that are left alone.
pub open spec fn unsafe_excluded() -> Seq<Seq<char>> {
    Seq::empty().push("execution"@).push("active_claim"@).push("completion_receipt"@).push(
        "evidence"@,
    ).push("trust_grade"@)
}

fn safe_list() -> (r: Json)
    ensures
        r.model() == json::text_items(safe_subset()),
{
    let mut list = operator_request::no_names();
    operator_request::add_name(&mut list, "session");
    operator_request::add_name(&mut list, "inactive_claim");
    operator_request::add_name(&mut list, "event_with_work_id");
    operator_request::name_list(&list)
}

fn unsafe_list() -> (r: Json)
    ensures
        r.model() == json::text_items(unsafe_excluded()),
{
    let mut list = operator_request::no_names();
    operator_request::add_name(&mut list, "execution");
    operator_request::add_name(&mut list, "active_claim");
    operator_request::add_name(&mut list, "completion_receipt");
    operator_request::add_name(&mut list, "evidence");
    operator_request::add_name(&mut list, "trust_grade");
    operator_request::name_list(&list)
}

/// What the plan digest of a plan is of.
pub open spec fn body_doc(
    tenant: Seq<char>,
    project: Seq<char>,
    operator: Seq<char>,
    acted: Seq<ItemView>,
    refused: Seq<ItemView>,
) -> JsonView {
    JsonView::Obj(
        json::no_fields().push(("protocol"@, JsonView::Str(PROTOCOL@))).push(
            ("protocol_version"@, JsonView::Int(1)),
        ).push(("read_only_preview"@, JsonView::Bool(true))).push(
            ("mutation_on_preview"@, JsonView::Bool(false)),
        ).push(("operator_role"@, JsonView::Str(operator))).push(
            ("tenant_id"@, JsonView::Str(tenant)),
        ).push(("project_id"@, JsonView::Str(project))).push(
            ("attribution_basis"@, JsonView::Str("current_workstream_ownership"@)),
        ).push(("safe_subset"@, json::text_items(safe_subset()))).push(
            ("unsafe_excluded"@, json::text_items(unsafe_excluded())),
        ).push(("forges_identity"@, JsonView::Bool(false))).push(
            (
                "local_file_access"@,
                JsonView::Str("not_server_acl_or_confidentiality_sandbox"@),
            ),
        ).push(("frontend_filtering"@, JsonView::Bool(false))).push(
            ("counts"@, counts_doc(acted, refused)),
        ).push(("attributable"@, JsonView::Arr(operator_plan::docs(acted)))).push(
            ("refused"@, JsonView::Arr(operator_plan::docs(refused))),
        ).push(
            (
                "attributable_sample"@,
                JsonView::Arr(operator_plan::docs(operator_plan::sample(acted))),
            ),
        ).push(
            (
                "refused_sample"@,
                JsonView::Arr(operator_plan::docs(operator_plan::sample(refused))),
            ),
        ),
    )
}

/// A migration that is planned.
pub struct HistoryPlan {
    pub lists: Lists,
    /// What the state digest is of.
    pub state: Json,
    /// What the plan digest is of.
    pub body: Json,
}

/// The plan of a migration.
pub open spec fn is_plan(
    plan: HistoryPlan,
    tenant: Seq<char>,
    project: Seq<char>,
    operator: Seq<char>,
    row: ProjectRow,
    rows: Seq<HistoryRow>,
    ownership: Seq<OwnedWork>,
) -> bool {
    let all = plan_items(rows, ownership, row.coordinator_epoch@);
    &&& operator_plan::lists_hold(plan.lists, all)
    &&& is_state_doc(plan.state.model(), tenant, project, row, rows, ownership)
    &&& plan.body.model() == body_doc(
        tenant,
        project,
        operator,
        operator_plan::acted_on(all),
        operator_plan::refused(all),
    )
}

/// Plans the migration of an active project.
pub fn build_plan(
    tenant: &str,
    project: &str,
    operator: &str,
    row: &ProjectRow,
    ownership: &[OwnedWork],
    rows: &[HistoryRow],
) -> (r: PgResult<HistoryPlan>)
    ensures
        match r {
            Ok(plan) => row.status@ == "active"@ && is_plan(
                plan,
                tenant@,
                project@,
                operator@,
                *row,
                rows@,
                ownership@,
            ),
            Err(e) => row.status@ != "active"@ && e@ == Fault::ProjectNotAvailable,
        },
{
    if !text::same(row.status.as_str(), "active") {
        return Err(PgError::ProjectNotAvailable);
    }
    let epoch = row.coordinator_epoch.as_str();
    let ghost all = plan_items(rows@, ownership@, epoch@);
    let mut lists = Lists::new();
    let mut i: usize = 0;
    assert(all.take(0) =~= Seq::empty());
    while i < rows.len()
        invariant
            i <= rows.len(),
            epoch@ == row.coordinator_epoch@,
            all == plan_items(rows@, ownership@, epoch@),
            operator_plan::lists_hold(lists, all.take(i as int)),
        decreases rows.len() - i,
    {
        let h = &rows[i];
        let work = text::as_opt_str(&h.work_id);
        let owner = match work {
            Some(w) => operator_plan::find_binding(ownership, w),
            None => None,
        };
        proof {
            reveal_strlit("");
            assert(""@ =~= Seq::empty());
        }
        let named = match work {
            Some(w) => w,
            None => "",
        };
        let d = match h.kind {
            HistoryKind::Session => classify_session(named, owner),
            HistoryKind::Claim => classify_claim(h.state.as_str(), named, owner, epoch),
            HistoryKind::Event => classify_event(work, owner),
            HistoryKind::Execution => classify_execution(),
        };
        let item = make_item(h.kind, h.id.as_str(), work, d);
        assert(item@ == all[i as int]);
        let ghost before = all.take(i as int);
        assert(all.take(i + 1) =~= before.push(item@));
        lists.add_item(item);
        i = i + 1;
    }
    assert(all.take(i as int) =~= all);
    let works = operator_plan::owned_work_ids(ownership);
    let unattributed = Doc::new().put(
        "sessions",
        json::count(count_rows(rows, HistoryKind::Session)),
    ).put("claims", json::count(count_rows(rows, HistoryKind::Claim))).put(
        "events",
        json::count(count_rows(rows, HistoryKind::Event)),
    ).put("executions", json::count(count_rows(rows, HistoryKind::Execution))).json();
    let state = Doc::new().put("tenant_id", json::text(tenant)).put(
        "project_id",
        json::text(project),
    ).put("project_status", json::text(row.status.as_str())).put(
        "coordinator_epoch",
        json::text(epoch),
    ).put("project_revision", json::text(text::decimal(row.project_revision).as_str())).put(
        "source_snapshot_id",
        json::opt_text(text::as_opt_str(&row.source_snapshot_id)),
    ).put("ownership_work_ids", json::text_list(works.as_slice())).put(
        "unattributed",
        unattributed,
    ).json();
    let body = Doc::new().put("protocol", json::text(PROTOCOL)).put(
        "protocol_version",
        json::number(1),
    ).put("read_only_preview", json::flag(true)).put("mutation_on_preview", json::flag(false)).put(
        "operator_role",
        json::text(operator),
    ).put("tenant_id", json::text(tenant)).put("project_id", json::text(project)).put(
        "attribution_basis",
        json::text("current_workstream_ownership"),
    ).put("safe_subset", safe_list()).put("unsafe_excluded", unsafe_list()).put(
        "forges_identity",
        json::flag(false),
    ).put(
        "local_file_access",
        json::text("not_server_acl_or_confidentiality_sandbox"),
    ).put("frontend_filtering", json::flag(false)).put("counts", counts_document(&lists)).put(
        "attributable",
        operator_plan::all_docs(&lists.actionable),
    ).put("refused", operator_plan::all_docs(&lists.refused)).put(
        "attributable_sample",
        operator_plan::sample_docs(&lists.actionable),
    ).put("refused_sample", operator_plan::sample_docs(&lists.refused)).json();
    assert(order::same_members(text::texts(works@), operator_plan::owned_works(ownership@)));
    Ok(HistoryPlan { lists, state, body })
}

/// A request to apply a plan.
pub struct HistoryRequest {
    pub tenant: String,
    pub project: String,
    pub request: String,
    pub expected_state: String,
    pub expected_plan: String,
}

/// What the hash of a request is of.
pub open spec fn intent_doc(q: HistoryRequest) -> JsonView {
    JsonView::Obj(
        json::no_fields().push(("protocol"@, JsonView::Str(PROTOCOL@))).push(
            ("tenant_id"@, JsonView::Str(q.tenant@)),
        ).push(("project_id"@, JsonView::Str(q.project@))).push(
            ("expected_state"@, JsonView::Str(q.expected_state@)),
        ).push(("expected_plan"@, JsonView::Str(q.expected_plan@))),
    )
}

/// The receipt of an applied plan.
pub open spec fn receipt_doc(
    q: HistoryRequest,
    intent_hash: Seq<char>,
    operator: Seq<char>,
    revision: i64,
    acted: Seq<ItemView>,
    refused: Seq<ItemView>,
) -> JsonView {
    JsonView::Obj(
        json::no_fields().push(("protocol"@, JsonView::Str(PROTOCOL@))).push(
            ("request_id"@, JsonView::Str(q.request@)),
        ).push(("request_hash"@, JsonView::Str(intent_hash))).push(
            ("operator_role"@, JsonView::Str(operator)),
        ).push(("tenant_id"@, JsonView::Str(q.tenant@))).push(
            ("project_id"@, JsonView::Str(q.project@)),
        ).push(("state_digest"@, JsonView::Str(q.expected_state@))).push(
            ("plan_digest"@, JsonView::Str(q.expected_plan@)),
        ).push(("project_revision"@, JsonView::Str(text::decimal_form(revision as int)))).push(
            ("attributed"@, JsonView::Arr(operator_plan::docs(acted))),
        ).push(("refused"@, JsonView::Arr(operator_plan::docs(refused)))).push(
            ("counts"@, counts_doc(acted, refused)),
        ).push(("completion_receipts_modified"@, JsonView::Bool(false))).push(
            ("executions_modified"@, JsonView::Bool(false)),
        ).push(("identity_forged"@, JsonView::Bool(false))).push(
            ("execution_authorized"@, JsonView::Bool(false)),
        ).push(("automatic_resume"@, JsonView::Bool(false))).push(
            ("state_basis"@, JsonView::Str("at_commit"@)),
        ),
    )
}

/// A plan, as the operator sees it.
pub open spec fn preview_doc(
    operator: Seq<char>,
    plan: HistoryPlan,
    state_digest: Seq<char>,
    plan_digest: Seq<char>,
) -> JsonView {
    let acted = operator_plan::item_views(plan.lists.actionable@);
    let refused = operator_plan::item_views(plan.lists.refused@);
    JsonView::Obj(
        json::no_fields().push(("protocol"@, JsonView::Str(PROTOCOL@))).push(
            ("applied"@, JsonView::Bool(false)),
        ).push(("operator_role"@, JsonView::Str(operator))).push(
            ("state_digest"@, JsonView::Str(state_digest)),
        ).push(("plan_digest"@, JsonView::Str(plan_digest))).push(
            ("state"@, plan.state.model()),
        ).push(("counts"@, counts_doc(acted, refused))).push(
            ("attributable"@, JsonView::Arr(operator_plan::docs(acted))),
        ).push(("refused"@, JsonView::Arr(operator_plan::docs(refused)))).push(
            ("safe_subset"@, json::text_items(safe_subset())),
        ).push(("unsafe_excluded"@, json::text_items(unsafe_excluded()))).push(
            ("attribution_basis"@, JsonView::Str("current_workstream_ownership"@)),
        ).push(
            (
                "next_action"@,
                JsonView::Str(
                    "Review attributable/refused lists; apply with exact state_digest and plan_digest. Executions and active claims stay refused; use access quarantine-* for those."@,
                ),
            ),
        ),
    )
}

/// What an applied plan leaves behind.
pub struct HistoryApplied {
    pub receipt: Json,
    pub event: Json,
}

/// What is written to one row.
pub enum HistoryWrite<'a> {
    Session { id: &'a str, workstream_id: &'a str, ownership_version: i64 },
    Claim { id: &'a str, workstream_id: &'a str, ownership_version: i64, coordinator_epoch: &'a str },
    Event { id: &'a str, workstream_id: &'a str },
}

/// The model of a write.
pub enum HistoryWriteView {
    Session { id: Seq<char>, workstream_id: Seq<char>, ownership_version: i64 },
    Claim {
        id: Seq<char>,
        workstream_id: Seq<char>,
        ownership_version: i64,
        coordinator_epoch: Seq<char>,
    },
    Event { id: Seq<char>, workstream_id: Seq<char> },
}

impl<'a> View for HistoryWrite<'a> {
    type V = HistoryWriteView;

    open spec fn view(&self) -> HistoryWriteView {
        match self {
            HistoryWrite::Session { id, workstream_id, ownership_version } => {
                HistoryWriteView::Session {
                    id: id@,
                    workstream_id: workstream_id@,
                    ownership_version: *ownership_version,
                }
            },
            HistoryWrite::Claim { id, workstream_id, ownership_version, coordinator_epoch } => {
                HistoryWriteView::Claim {
                    id: id@,
                    workstream_id: workstream_id@,
                    ownership_version: *ownership_version,
                    coordinator_epoch: coordinator_epoch@,
                }
            },
            HistoryWrite::Event { id, workstream_id } => HistoryWriteView::Event {
                id: id@,
                workstream_id: workstream_id@,
            },
        }
    }
}

/// The write that a row of a plan asks for: a row of another kind, or without a target, asks
/// for none.
pub open spec fn write_of(item: ItemView) -> Option<HistoryWriteView> {
    match item.target {
        Some(t) => if item.kind == "session"@ {
            Some(
                HistoryWriteView::Session {
                    id: item.id,
                    workstream_id: t.workstream_id,
                    ownership_version: t.ownership_version,
                },
            )
        } else if item.kind == "claim"@ && t.coordinator_epoch is Some {
            Some(
                HistoryWriteView::Claim {
                    id: item.id,
                    workstream_id: t.workstream_id,
                    ownership_version: t.ownership_version,
                    coordinator_epoch: t.coordinator_epoch->Some_0,
                },
            )
        } else if item.kind == "event"@ {
            Some(HistoryWriteView::Event { id: item.id, workstream_id: t.workstream_id })
        } else {
            None
        },
        None => None,
    }
}

/// The rules of history migration.
pub struct OperatorHistory;

impl OperatorHistory {
    /// Whether the names of a question are well formed.
    pub fn admit_names(tenant: &str, project: &str, request: Option<&str>) -> (r: PgResult<()>)
        ensures
            error::checked(r) == (if text::is_identity(tenant@) && text::is_identity(project@) && (
            request is Some ==> text::is_identity(request->Some_0@)) {
                Ok(())
            } else {
                Err(invalid_request())
            }),
    {
        let request_ok = match request {
            Some(s) => text::identity(s),
            None => true,
        };
        if !text::identity(tenant) || !text::identity(project) || !request_ok {
            return Err(invalid());
        }
        Ok(())
    }

    /// Whether a request to apply a plan is well formed.
    pub fn admit_apply(q: &HistoryRequest) -> (r: PgResult<()>)
        ensures
            error::checked(r) == (if text::is_identity(q.tenant@) && text::is_identity(q.project@)
                && text::is_identity(q.request@) && text::is_hex(q.expected_state@) && text::is_hex(
                q.expected_plan@,
            ) {
                Ok(())
            } else {
                Err(invalid_request())
            }),
    {
        if !text::identity(q.tenant.as_str()) || !text::identity(q.project.as_str())
            || !text::identity(q.request.as_str()) || !text::hex(q.expected_state.as_str())
            || !text::hex(q.expected_plan.as_str()) {
            return Err(invalid());
        }
        Ok(())
    }

    /// What the hash of a request is of.
    pub fn intent(q: &HistoryRequest) -> (r: Json)
        ensures
            r.model() == intent_doc(*q),
    {
        Doc::new().put("protocol", json::text(PROTOCOL)).put(
            "tenant_id",
            json::text(q.tenant.as_str()),
        ).put("project_id", json::text(q.project.as_str())).put(
            "expected_state",
            json::text(q.expected_state.as_str()),
        ).put("expected_plan", json::text(q.expected_plan.as_str())).json()
    }

    /// A plan, as the operator sees it.
    pub fn preview(operator: &str, plan: &HistoryPlan, state_digest: &str, plan_digest: &str) -> (r:
        Json)
        ensures
            r.model() == preview_doc(operator@, *plan, state_digest@, plan_digest@),
    {
        Doc::new().put("protocol", json::text(PROTOCOL)).put("applied", json::flag(false)).put(
            "operator_role",
            json::text(operator),
        ).put("state_digest", json::text(state_digest)).put(
            "plan_digest",
            json::text(plan_digest),
        ).put("state", plan.state.copy()).put("counts", counts_document(&plan.lists)).put(
            "attributable",
            operator_plan::all_docs(&plan.lists.actionable),
        ).put("refused", operator_plan::all_docs(&plan.lists.refused)).put(
            "safe_subset",
            safe_list(),
        ).put("unsafe_excluded", unsafe_list()).put(
            "attribution_basis",
            json::text("current_workstream_ownership"),
        ).put(
            "next_action",
            json::text(
                "Review attributable/refused lists; apply with exact state_digest and plan_digest. Executions and active claims stay refused; use access quarantine-* for those.",
            ),
        ).json()
    }

    /// What became of a request.
    pub fn outcome(receipt: Option<Json>) -> (r: Json)
        ensures
            r.model() == operator_request::outcome_doc(
                match receipt {
                    Some(d) => Some(d.model()),
                    None => None,
                },
            ),
    {
        operator_request::outcome(receipt)
    }

    /// The write that a row of a plan asks for.
    pub fn write<'a>(item: &'a Item) -> (r: PgResult<HistoryWrite<'a>>)
        ensures
            match r {
                Ok(w) => write_of(item@) == Some(w@),
                Err(e) => write_of(item@) is None && e@ == invalid_request(),
            },
    {
        match &item.target {
            None => Err(invalid()),
            Some(t) => {
                if text::same(item.kind, "session") {
                    Ok(
                        HistoryWrite::Session {
                            id: item.id.as_str(),
                            workstream_id: t.workstream_id.as_str(),
                            ownership_version: t.ownership_version,
                        },
                    )
                } else if text::same(item.kind, "claim") {
                    match &t.coordinator_epoch {
                        Some(e) => Ok(
                            HistoryWrite::Claim {
                                id: item.id.as_str(),
                                workstream_id: t.workstream_id.as_str(),
                                ownership_version: t.ownership_version,
                                coordinator_epoch: e.as_str(),
                            },
                        ),
                        None => {
                            proof {
                                kind_names_differ();
                            }
                            Err(invalid())
                        },
                    }
                } else if text::same(item.kind, "event") {
                    Ok(
                        HistoryWrite::Event {
                            id: item.id.as_str(),
                            workstream_id: t.workstream_id.as_str(),
                        },
                    )
                } else {
                    Err(invalid())
                }
            },
        }
    }

    /// What an applied plan leaves behind.
    pub fn apply(
        q: &HistoryRequest,
        intent_hash: &str,
        operator: &str,
        plan: &HistoryPlan,
        revision: i64,
    ) -> (r: HistoryApplied)
        ensures
            r.receipt.model() == receipt_doc(
                *q,
                intent_hash@,
                operator@,
                revision,
                operator_plan::item_views(plan.lists.actionable@),
                operator_plan::item_views(plan.lists.refused@),
            ),
            r.event.model() == JsonView::Obj(
                json::no_fields().push(("operator_role"@, JsonView::Str(operator@))).push(
                    ("request_id"@, JsonView::Str(q.request@)),
                ).push(
                    (
                        "attributed_count"@,
                        json::count_item(plan.lists.actionable@.len() as usize),
                    ),
                ).push(
                    ("refused_count"@, json::count_item(plan.lists.refused@.len() as usize)),
                ),
            ),
    {
        let receipt = Doc::new().put("protocol", json::text(PROTOCOL)).put(
            "request_id",
            json::text(q.request.as_str()),
        ).put("request_hash", json::text(intent_hash)).put(
            "operator_role",
            json::text(operator),
        ).put("tenant_id", json::text(q.tenant.as_str())).put(
            "project_id",
            json::text(q.project.as_str()),
        ).put("state_digest", json::text(q.expected_state.as_str())).put(
            "plan_digest",
            json::text(q.expected_plan.as_str()),
        ).put("project_revision", json::text(text::decimal(revision).as_str())).put(
            "attributed",
            operator_plan::all_docs(&plan.lists.actionable),
        ).put("refused", operator_plan::all_docs(&plan.lists.refused)).put(
            "counts",
            counts_document(&plan.lists),
        ).put("completion_receipts_modified", json::flag(false)).put(
            "executions_modified",
            json::flag(false),
        ).put("identity_forged", json::flag(false)).put(
            "execution_authorized",
            json::flag(false),
        ).put("automatic_resume", json::flag(false)).put(
            "state_basis",
            json::text("at_commit"),
        ).json();
        let event = Doc::new().put("operator_role", json::text(operator)).put(
            "request_id",
            json::text(q.request.as_str()),
        ).put("attributed_count", json::count(plan.lists.actionable.len())).put(
            "refused_count",
            json::count(plan.lists.refused.len()),
        ).json();
        HistoryApplied { receipt, event }
    }
}

proof fn kind_names_differ()
    ensures
        "session"@ != "claim"@,
        "session"@ != "event"@,
        "claim"@ != "event"@,
        "execution"@ != "session"@,
        "execution"@ != "claim"@,
        "execution"@ != "event"@,
        "attribute"@ != "refuse"@,
{
    reveal_strlit("session");
    reveal_strlit("claim");
    reveal_strlit("event");
    reveal_strlit("execution");
    reveal_strlit("attribute");
    reveal_strlit("refuse");
    assert("session"@.len() == 7);
    assert("claim"@.len() == 5);
    assert("event"@.len() == 5);
    assert("claim"@[0] == 'c');
    assert("event"@[0] == 'e');
    assert("execution"@.len() == 9);
    assert("attribute"@.len() == 9);
    assert("refuse"@.len() == 6);
}

/// An attributed row gets the workstream and the version under which its work is owned now,
/// never an executor; executions and active claims are always refused.
pub proof fn history_follows_current_ownership(
    row: HistoryRow,
    ownership: Seq<OwnedWork>,
    epoch: Seq<char>,
)
    ensures
        ({
            let d = row_decision(row, ownership, epoch);
            let item = plan_item(row.kind, row.id@, text::opt(row.work_id), d);
            &&& row.kind is Execution ==> item.action == "refuse"@
            &&& row.kind is Claim && row.state@ == "active"@ ==> item.action == "refuse"@
            &&& item.target is Some ==> {
                &&& item.action == "attribute"@
                &&& item.target->Some_0.executor_client_id is None
                &&& row.work_id is Some
                &&& operator_plan::binding_of(ownership, row.work_id->Some_0@) is Some
                &&& item.target->Some_0.workstream_id == operator_plan::binding_of(
                    ownership,
                    row.work_id->Some_0@,
                )->Some_0.workstream_id@
                &&& item.target->Some_0.ownership_version == operator_plan::binding_of(
                    ownership,
                    row.work_id->Some_0@,
                )->Some_0.ownership_version
            }
        }),
{
}

/// Every row of a plan that is not refused asks for a write.
pub proof fn attributed_rows_are_written(
    row: HistoryRow,
    ownership: Seq<OwnedWork>,
    epoch: Seq<char>,
)
    ensures
        ({
            let item = plan_item(
                row.kind,
                row.id@,
                text::opt(row.work_id),
                row_decision(row, ownership, epoch),
            );
            item.action != "refuse"@ <==> write_of(item) is Some
        }),
{
    kind_names_differ();
}

/// The names of what history holds.
pub proof fn kinds_of_history_are_spelled()
    ensures
        HistoryKind::Session.name() == "session"@,
        HistoryKind::Claim.name() == "claim"@,
        HistoryKind::Event.name() == "event"@,
        HistoryKind::Execution.name() == "execution"@,
{
}

/// History of a work that is owned now goes to the owner: a session and an event as they are, and a
/// claim that is not active under the epoch of the project.
pub proof fn owned_history_is_attributed(
    row: HistoryRow,
    ownership: Seq<OwnedWork>,
    epoch: Seq<char>,
    i: int,
)
    requires
        0 <= i < ownership.len(),
        row.work_id is Some,
        row.work_id->Some_0@.len() > 0,
        ownership[i].work_id@ == row.work_id->Some_0@,
        forall|j: int| i < j < ownership.len() ==> (#[trigger] ownership[j]).work_id@
            != row.work_id->Some_0@,
    ensures
        row_decision(HistoryRow { kind: HistoryKind::Session, ..row }, ownership, epoch)
            == (HistoryDecisionView::Attribute {
            workstream_id: ownership[i].binding.workstream_id@,
            ownership_version: ownership[i].binding.ownership_version,
            coordinator_epoch: None,
        }),
        row_decision(HistoryRow { kind: HistoryKind::Event, ..row }, ownership, epoch)
            == (HistoryDecisionView::Attribute {
            workstream_id: ownership[i].binding.workstream_id@,
            ownership_version: ownership[i].binding.ownership_version,
            coordinator_epoch: None,
        }),
        row.state@ != "active"@ && epoch.len() > 0 ==> row_decision(
            HistoryRow { kind: HistoryKind::Claim, ..row },
            ownership,
            epoch,
        ) == (HistoryDecisionView::Attribute {
            workstream_id: ownership[i].binding.workstream_id@,
            ownership_version: ownership[i].binding.ownership_version,
            coordinator_epoch: Some(epoch),
        }),
{
    last_binding_counts(ownership, row.work_id->Some_0@, i);
}

proof fn last_binding_counts(ownership: Seq<OwnedWork>, work_id: Seq<char>, i: int)
    requires
        0 <= i < ownership.len(),
        ownership[i].work_id@ == work_id,
        forall|j: int| i < j < ownership.len() ==> (#[trigger] ownership[j]).work_id@ != work_id,
    ensures
        operator_plan::binding_of(ownership, work_id) == Some(ownership[i].binding),
    decreases ownership.len(),
{
    if i < ownership.len() - 1 {
        assert(ownership.last() == ownership[ownership.len() - 1]);
        last_binding_counts(ownership.drop_last(), work_id, i);
    }
}

/// What is refused is refused for a reason: a claim that is active, an execution always, an event that
/// names no work, and everything whose work nobody owns.
pub proof fn refused_history_has_a_reason(
    row: HistoryRow,
    ownership: Seq<OwnedWork>,
    epoch: Seq<char>,
)
    requires
        row.work_id is Some ==> row.work_id->Some_0@.len() == 0 || forall|j: int|
            0 <= j < ownership.len() ==> (#[trigger] ownership[j]).work_id@ != row.work_id->Some_0@,
    ensures
        row_decision(HistoryRow { kind: HistoryKind::Session, ..row }, ownership, epoch)
            == (HistoryDecisionView::Refuse { reason: "work_id_missing_from_current_ownership"@ }),
        row_decision(HistoryRow { kind: HistoryKind::Claim, ..row }, ownership, epoch)
            == (HistoryDecisionView::Refuse {
            reason: if row.state@ == "active"@ {
                "active_unattributed_claim_requires_manual_recovery"@
            } else {
                "work_id_missing_from_current_ownership"@
            },
        }),
        row_decision(HistoryRow { kind: HistoryKind::Event, ..row }, ownership, epoch)
            == (HistoryDecisionView::Refuse {
            reason: if row.work_id is None || row.work_id->Some_0@.len() == 0 {
                "event_lacks_work_id"@
            } else {
                "work_id_missing_from_current_ownership"@
            },
        }),
{
    if row.work_id is Some && row.work_id->Some_0@.len() > 0 {
        unowned_works_have_no_binding(ownership, row.work_id->Some_0@);
    }
}

proof fn unowned_works_have_no_binding(ownership: Seq<OwnedWork>, work_id: Seq<char>)
    requires
        forall|j: int| 0 <= j < ownership.len() ==> (#[trigger] ownership[j]).work_id@ != work_id,
    ensures
        operator_plan::binding_of(ownership, work_id) is None,
    decreases ownership.len(),
{
    if ownership.len() > 0 {
        assert(ownership.last() == ownership[ownership.len() - 1]);
        unowned_works_have_no_binding(ownership.drop_last(), work_id);
    }
}

/// A claim that is active and an execution are refused with the protocol that is for them.
pub proof fn live_history_is_left_alone(
    row: HistoryRow,
    ownership: Seq<OwnedWork>,
    epoch: Seq<char>,
)
    ensures
        row.kind is Claim && row.state@ == "active"@ ==> row_decision(row, ownership, epoch)
            == (HistoryDecisionView::Refuse {
            reason: "active_unattributed_claim_requires_manual_recovery"@,
        }),
        row.kind is Execution ==> row_decision(row, ownership, epoch) == (
        HistoryDecisionView::Refuse {
            reason: "use_execution_attribution_protocol_for_reviewed_executor_client_id"@,
        }),
{
}

/// A plan holds every row once and in its place, under its kind and its name, with what was decided.
pub proof fn plans_hold_every_row(
    rows: Seq<HistoryRow>,
    ownership: Seq<OwnedWork>,
    epoch: Seq<char>,
    i: int,
)
    requires
        0 <= i < rows.len(),
    ensures
        plan_items(rows, ownership, epoch).len() == rows.len(),
        ({
            let item = plan_items(rows, ownership, epoch)[i];
            let d = row_decision(rows[i], ownership, epoch);
            &&& item.id == rows[i].id@
            &&& item.kind == rows[i].kind.name()
            &&& item.doc == decision_doc(rows[i].kind, rows[i].id@, text::opt(rows[i].work_id), d)
            &&& match d {
                HistoryDecisionView::Attribute {
                    workstream_id,
                    ownership_version,
                    coordinator_epoch,
                } => item.action == "attribute"@ && item.reason == ""@ && item.target is Some && {
                    &&& item.target->Some_0.workstream_id == workstream_id
                    &&& item.target->Some_0.ownership_version == ownership_version
                    &&& item.target->Some_0.coordinator_epoch == coordinator_epoch
                },
                HistoryDecisionView::Refuse { reason } => item.action == "refuse"@ && item.reason
                    == reason && item.target is None,
            }
        }),
{
}

/// A plan holds the rows of its project, and tells them.
pub proof fn migration_plans_are_of_their_project(
    plan: HistoryPlan,
    tenant: Seq<char>,
    project: Seq<char>,
    operator: Seq<char>,
    row: ProjectRow,
    rows: Seq<HistoryRow>,
    ownership: Seq<OwnedWork>,
)
    requires
        is_plan(plan, tenant, project, operator, row, rows, ownership),
    ensures
        plan.lists.actionable@.len() + plan.lists.refused@.len() == rows.len(),
        is_state_doc(plan.state.model(), tenant, project, row, rows, ownership),
        plan.body.model() == body_doc(
            tenant,
            project,
            operator,
            operator_plan::item_views(plan.lists.actionable@),
            operator_plan::item_views(plan.lists.refused@),
        ),
{
    operator_plan::plans_account_for_every_row(
        plan_items(rows, ownership, row.coordinator_epoch@),
    );
}

/// The rows of a kind are counted one by one.
pub proof fn rows_are_counted_by_kind(list: Seq<ItemView>, item: ItemView, kind: Seq<char>)
    requires
        list.len() < i32::MAX,
    ensures
        kind_count(Seq::empty(), kind) == JsonView::Int(0),
        item.kind == kind ==> kind_count(list.push(item), kind) == JsonView::Int(
            kind_count(list, kind)->Int_0 + 1,
        ),
        item.kind != kind ==> kind_count(list.push(item), kind) == kind_count(list, kind),
        kind_count(list, kind) is Int,
{
    let condition = |i: ItemView| i.kind == kind;
    operator_plan::filter_nothing(condition);
    operator_plan::filter_one_more(list, item, condition);
    list.lemma_filter_len(condition);
}

/// What is written names the row and what it was attributed to, by the kind of the row.
pub proof fn writes_are_of_their_rows(item: ItemView)
    ensures
        item.target is None ==> write_of(item) is None,
        item.target matches Some(t) ==> {
            &&& item.kind == "session"@ ==> write_of(item) == Some(
                HistoryWriteView::Session {
                    id: item.id,
                    workstream_id: t.workstream_id,
                    ownership_version: t.ownership_version,
                },
            )
            &&& item.kind == "event"@ ==> write_of(item) == Some(
                HistoryWriteView::Event { id: item.id, workstream_id: t.workstream_id },
            )
            &&& item.kind == "claim"@ && t.coordinator_epoch is Some ==> write_of(item) == Some(
                HistoryWriteView::Claim {
                    id: item.id,
                    workstream_id: t.workstream_id,
                    ownership_version: t.ownership_version,
                    coordinator_epoch: t.coordinator_epoch->Some_0,
                },
            )
            &&& item.kind == "claim"@ && t.coordinator_epoch is None ==> write_of(item) is None
            &&& item.kind == "execution"@ ==> write_of(item) is None
        },
{
    kind_names_differ();
}

/// What history migration touches and what it leaves alone.
pub proof fn migration_keeps_to_the_safe_subset()
    ensures
        safe_subset().len() == 3,
        safe_subset()[0] == "session"@,
        safe_subset()[1] == "inactive_claim"@,
        safe_subset()[2] == "event_with_work_id"@,
        unsafe_excluded().len() == 5,
        unsafe_excluded()[0] == "execution"@,
        unsafe_excluded()[1] == "active_claim"@,
        unsafe_excluded()[2] == "completion_receipt"@,
        unsafe_excluded()[3] == "evidence"@,
        unsafe_excluded()[4] == "trust_grade"@,
{
}

/// Rows are counted by their kind as they were read.
pub proof fn read_rows_are_counted(rows: Seq<HistoryRow>, row: HistoryRow, kind: HistoryKind)
    ensures
        rows_of_kind(Seq::empty(), kind) == 0,
        rows_of_kind(rows.push(row), kind) == rows_of_kind(rows, kind) + if row.kind == kind {
            1nat
        } else {
            0nat
        },
{
    reveal(Seq::filter);
    assert(rows.push(row).drop_last() =~= rows);
}

/// A row that is attributed under an epoch is told with what it goes to.
pub proof fn attributions_under_an_epoch_are_told(kind: HistoryKind, id: Seq<char>, work_id: Seq<char>, workstream_id: Seq<char>, ownership_version: i64, epoch: Seq<char>)
    ensures
        json::field(decision_doc(kind, id, Some(work_id), HistoryDecisionView::Attribute { workstream_id, ownership_version, coordinator_epoch: Some(epoch) }), "kind"@) == Some(JsonView::Str(kind.name())),
        json::field(decision_doc(kind, id, Some(work_id), HistoryDecisionView::Attribute { workstream_id, ownership_version, coordinator_epoch: Some(epoch) }), "id"@) == Some(JsonView::Str(id)),
        json::field(decision_doc(kind, id, Some(work_id), HistoryDecisionView::Attribute { workstream_id, ownership_version, coordinator_epoch: Some(epoch) }), "work_id"@) == Some(JsonView::Str(work_id)),
        json::field(decision_doc(kind, id, Some(work_id), HistoryDecisionView::Attribute { workstream_id, ownership_version, coordinator_epoch: Some(epoch) }), "action"@) == Some(JsonView::Str("attribute"@)),
        json::field(decision_doc(kind, id, Some(work_id), HistoryDecisionView::Attribute { workstream_id, ownership_version, coordinator_epoch: Some(epoch) }), "workstream_id"@) == Some(JsonView::Str(workstream_id)),
        json::field(decision_doc(kind, id, Some(work_id), HistoryDecisionView::Attribute { workstream_id, ownership_version, coordinator_epoch: Some(epoch) }), "ownership_version"@) == Some(JsonView::Str(text::decimal_form(ownership_version as int))),
        json::field(decision_doc(kind, id, Some(work_id), HistoryDecisionView::Attribute { workstream_id, ownership_version, coordinator_epoch: Some(epoch) }), "coordinator_epoch"@) == Some(JsonView::Str(epoch)),
{
    reveal_strlit("kind");
    reveal_strlit("id");
    reveal_strlit("work_id");
    reveal_strlit("action");
    reveal_strlit("workstream_id");
    reveal_strlit("ownership_version");
    reveal_strlit("coordinator_epoch");
    assert("kind"@.len() == 4);
    assert("id"@.len() == 2);
    assert("work_id"@.len() == 7);
    assert("action"@.len() == 6);
    assert("workstream_id"@.len() == 13);
    assert("ownership_version"@.len() == 17);
    assert("coordinator_epoch"@.len() == 17);
    assert("ownership_version"@[0] == 'o');
    assert("coordinator_epoch"@[0] == 'c');
    let f = decision_doc(kind, id, Some(work_id), HistoryDecisionView::Attribute { workstream_id, ownership_version, coordinator_epoch: Some(epoch) })->Obj_0;
    json::field_is_first(f, "kind"@, 0);
    json::field_is_first(f, "id"@, 1);
    json::field_is_first(f, "work_id"@, 2);
    json::field_is_first(f, "action"@, 3);
    json::field_is_first(f, "workstream_id"@, 4);
    json::field_is_first(f, "ownership_version"@, 5);
    json::field_is_first(f, "coordinator_epoch"@, 6);
}

/// A row that is attributed is told with what it goes to.
pub proof fn attributions_are_told(kind: HistoryKind, id: Seq<char>, work_id: Seq<char>, workstream_id: Seq<char>, ownership_version: i64)
    ensures
        json::field(decision_doc(kind, id, Some(work_id), HistoryDecisionView::Attribute { workstream_id, ownership_version, coordinator_epoch: None }), "kind"@) == Some(JsonView::Str(kind.name())),
        json::field(decision_doc(kind, id, Some(work_id), HistoryDecisionView::Attribute { workstream_id, ownership_version, coordinator_epoch: None }), "id"@) == Some(JsonView::Str(id)),
        json::field(decision_doc(kind, id, Some(work_id), HistoryDecisionView::Attribute { workstream_id, ownership_version, coordinator_epoch: None }), "work_id"@) == Some(JsonView::Str(work_id)),
        json::field(decision_doc(kind, id, Some(work_id), HistoryDecisionView::Attribute { workstream_id, ownership_version, coordinator_epoch: None }), "action"@) == Some(JsonView::Str("attribute"@)),
        json::field(decision_doc(kind, id, Some(work_id), HistoryDecisionView::Attribute { workstream_id, ownership_version, coordinator_epoch: None }), "workstream_id"@) == Some(JsonView::Str(workstream_id)),
        json::field(decision_doc(kind, id, Some(work_id), HistoryDecisionView::Attribute { workstream_id, ownership_version, coordinator_epoch: None }), "ownership_version"@) == Some(JsonView::Str(text::decimal_form(ownership_version as int))),
{
    reveal_strlit("kind");
    reveal_strlit("id");
    reveal_strlit("work_id");
    reveal_strlit("action");
    reveal_strlit("workstream_id");
    reveal_strlit("ownership_version");
    assert("kind"@.len() == 4);
    assert("id"@.len() == 2);
    assert("work_id"@.len() == 7);
    assert("action"@.len() == 6);
    assert("workstream_id"@.len() == 13);
    assert("ownership_version"@.len() == 17);
    let f = decision_doc(kind, id, Some(work_id), HistoryDecisionView::Attribute { workstream_id, ownership_version, coordinator_epoch: None })->Obj_0;
    json::field_is_first(f, "kind"@, 0);
    json::field_is_first(f, "id"@, 1);
    json::field_is_first(f, "work_id"@, 2);
    json::field_is_first(f, "action"@, 3);
    json::field_is_first(f, "workstream_id"@, 4);
    json::field_is_first(f, "ownership_version"@, 5);
}

/// A row that is refused is told with the reason.
pub proof fn refused_rows_are_told(kind: HistoryKind, id: Seq<char>, work_id: Option<Seq<char>>, reason: Seq<char>)
    ensures
        json::field(decision_doc(kind, id, work_id, HistoryDecisionView::Refuse { reason }), "kind"@) == Some(JsonView::Str(kind.name())),
        json::field(decision_doc(kind, id, work_id, HistoryDecisionView::Refuse { reason }), "id"@) == Some(JsonView::Str(id)),
        json::field(decision_doc(kind, id, work_id, HistoryDecisionView::Refuse { reason }), "work_id"@) == Some(json::opt_item(work_id)),
        json::field(decision_doc(kind, id, work_id, HistoryDecisionView::Refuse { reason }), "action"@) == Some(JsonView::Str("refuse"@)),
        json::field(decision_doc(kind, id, work_id, HistoryDecisionView::Refuse { reason }), "reason"@) == Some(JsonView::Str(reason)),
{
    reveal_strlit("kind");
    reveal_strlit("id");
    reveal_strlit("work_id");
    reveal_strlit("action");
    reveal_strlit("reason");
    assert("kind"@.len() == 4);
    assert("id"@.len() == 2);
    assert("work_id"@.len() == 7);
    assert("action"@.len() == 6);
    assert("reason"@.len() == 6);
    assert("action"@[0] == 'a');
    assert("reason"@[0] == 'r');
    let f = decision_doc(kind, id, work_id, HistoryDecisionView::Refuse { reason })->Obj_0;
    json::field_is_first(f, "kind"@, 0);
    json::field_is_first(f, "id"@, 1);
    json::field_is_first(f, "work_id"@, 2);
    json::field_is_first(f, "action"@, 3);
    json::field_is_first(f, "reason"@, 4);
}

/// Counts are of what is attributed and of what is refused, by kind; no execution is ever attributed.
pub proof fn history_counts_are_told(acted: Seq<ItemView>, refused: Seq<ItemView>)
    ensures
        json::field(counts_doc(acted, refused), "attributable"@) == Some(json::count_item(acted.len() as usize)),
        json::field(counts_doc(acted, refused), "refused"@) == Some(json::count_item(refused.len() as usize)),
        json::field(counts_doc(acted, refused), "sessions_attributable"@) == Some(kind_count(acted, "session"@)),
        json::field(counts_doc(acted, refused), "claims_attributable"@) == Some(kind_count(acted, "claim"@)),
        json::field(counts_doc(acted, refused), "events_attributable"@) == Some(kind_count(acted, "event"@)),
        json::field(counts_doc(acted, refused), "executions_attributable"@) == Some(JsonView::Int(0)),
        json::field(counts_doc(acted, refused), "sessions_refused"@) == Some(kind_count(refused, "session"@)),
        json::field(counts_doc(acted, refused), "claims_refused"@) == Some(kind_count(refused, "claim"@)),
        json::field(counts_doc(acted, refused), "events_refused"@) == Some(kind_count(refused, "event"@)),
        json::field(counts_doc(acted, refused), "executions_refused"@) == Some(kind_count(refused, "execution"@)),
{
    reveal_strlit("attributable");
    reveal_strlit("refused");
    reveal_strlit("sessions_attributable");
    reveal_strlit("claims_attributable");
    reveal_strlit("events_attributable");
    reveal_strlit("executions_attributable");
    reveal_strlit("sessions_refused");
    reveal_strlit("claims_refused");
    reveal_strlit("events_refused");
    reveal_strlit("executions_refused");
    assert("attributable"@.len() == 12);
    assert("refused"@.len() == 7);
    assert("sessions_attributable"@.len() == 21);
    assert("claims_attributable"@.len() == 19);
    assert("events_attributable"@.len() == 19);
    assert("executions_attributable"@.len() == 23);
    assert("sessions_refused"@.len() == 16);
    assert("claims_refused"@.len() == 14);
    assert("events_refused"@.len() == 14);
    assert("executions_refused"@.len() == 18);
    assert("claims_attributable"@[0] == 'c');
    assert("events_attributable"@[0] == 'e');
    assert("claims_refused"@[0] == 'c');
    assert("events_refused"@[0] == 'e');
    let f = counts_doc(acted, refused)->Obj_0;
    json::field_is_first(f, "attributable"@, 0);
    json::field_is_first(f, "refused"@, 1);
    json::field_is_first(f, "sessions_attributable"@, 2);
    json::field_is_first(f, "claims_attributable"@, 3);
    json::field_is_first(f, "events_attributable"@, 4);
    json::field_is_first(f, "executions_attributable"@, 5);
    json::field_is_first(f, "sessions_refused"@, 6);
    json::field_is_first(f, "claims_refused"@, 7);
    json::field_is_first(f, "events_refused"@, 8);
    json::field_is_first(f, "executions_refused"@, 9);
}

/// A plan tells what it would do, by the owners of now, and changes nothing itself.
pub proof fn history_plans_are_told(tenant: Seq<char>, project: Seq<char>, operator: Seq<char>, acted: Seq<ItemView>, refused: Seq<ItemView>)
    ensures
        json::field(body_doc(tenant, project, operator, acted, refused), "protocol"@) == Some(JsonView::Str("awr-operator-history-migration-v1"@)),
        json::field(body_doc(tenant, project, operator, acted, refused), "protocol_version"@) == Some(JsonView::Int(1)),
        json::field(body_doc(tenant, project, operator, acted, refused), "read_only_preview"@) == Some(JsonView::Bool(true)),
        json::field(body_doc(tenant, project, operator, acted, refused), "mutation_on_preview"@) == Some(JsonView::Bool(false)),
        json::field(body_doc(tenant, project, operator, acted, refused), "operator_role"@) == Some(JsonView::Str(operator)),
        json::field(body_doc(tenant, project, operator, acted, refused), "tenant_id"@) == Some(JsonView::Str(tenant)),
        json::field(body_doc(tenant, project, operator, acted, refused), "project_id"@) == Some(JsonView::Str(project)),
        json::field(body_doc(tenant, project, operator, acted, refused), "attribution_basis"@) == Some(JsonView::Str("current_workstream_ownership"@)),
        json::field(body_doc(tenant, project, operator, acted, refused), "safe_subset"@) == Some(json::text_items(safe_subset())),
        json::field(body_doc(tenant, project, operator, acted, refused), "unsafe_excluded"@) == Some(json::text_items(unsafe_excluded())),
        json::field(body_doc(tenant, project, operator, acted, refused), "forges_identity"@) == Some(JsonView::Bool(false)),
        json::field(body_doc(tenant, project, operator, acted, refused), "local_file_access"@) == Some(JsonView::Str("not_server_acl_or_confidentiality_sandbox"@)),
        json::field(body_doc(tenant, project, operator, acted, refused), "frontend_filtering"@) == Some(JsonView::Bool(false)),
        json::field(body_doc(tenant, project, operator, acted, refused), "counts"@) == Some(counts_doc(acted, refused)),
        json::field(body_doc(tenant, project, operator, acted, refused), "attributable"@) == Some(JsonView::Arr(operator_plan::docs(acted))),
        json::field(body_doc(tenant, project, operator, acted, refused), "refused"@) == Some(JsonView::Arr(operator_plan::docs(refused))),
        json::field(body_doc(tenant, project, operator, acted, refused), "attributable_sample"@) == Some(JsonView::Arr(operator_plan::docs(operator_plan::sample(acted)))),
        json::field(body_doc(tenant, project, operator, acted, refused), "refused_sample"@) == Some(JsonView::Arr(operator_plan::docs(operator_plan::sample(refused)))),
{
    reveal_strlit("protocol");
    reveal_strlit("protocol_version");
    reveal_strlit("read_only_preview");
    reveal_strlit("mutation_on_preview");
    reveal_strlit("operator_role");
    reveal_strlit("tenant_id");
    reveal_strlit("project_id");
    reveal_strlit("attribution_basis");
    reveal_strlit("safe_subset");
    reveal_strlit("unsafe_excluded");
    reveal_strlit("forges_identity");
    reveal_strlit("local_file_access");
    reveal_strlit("frontend_filtering");
    reveal_strlit("counts");
    reveal_strlit("attributable");
    reveal_strlit("refused");
    reveal_strlit("attributable_sample");
    reveal_strlit("refused_sample");
    assert("protocol"@.len() == 8);
    assert("protocol_version"@.len() == 16);
    assert("read_only_preview"@.len() == 17);
    assert("mutation_on_preview"@.len() == 19);
    assert("operator_role"@.len() == 13);
    assert("tenant_id"@.len() == 9);
    assert("project_id"@.len() == 10);
    assert("attribution_basis"@.len() == 17);
    assert("safe_subset"@.len() == 11);
    assert("unsafe_excluded"@.len() == 15);
    assert("forges_identity"@.len() == 15);
    assert("local_file_access"@.len() == 17);
    assert("frontend_filtering"@.len() == 18);
    assert("counts"@.len() == 6);
    assert("attributable"@.len() == 12);
    assert("refused"@.len() == 7);
    assert("attributable_sample"@.len() == 19);
    assert("refused_sample"@.len() == 14);
    assert("read_only_preview"@[0] == 'r');
    assert("attribution_basis"@[0] == 'a');
    assert("local_file_access"@[0] == 'l');
    assert("mutation_on_preview"@[0] == 'm');
    assert("attributable_sample"@[0] == 'a');
    assert("unsafe_excluded"@[0] == 'u');
    assert("forges_identity"@[0] == 'f');
    let f = body_doc(tenant, project, operator, acted, refused)->Obj_0;
    json::field_is_first(f, "protocol"@, 0);
    json::field_is_first(f, "protocol_version"@, 1);
    json::field_is_first(f, "read_only_preview"@, 2);
    json::field_is_first(f, "mutation_on_preview"@, 3);
    json::field_is_first(f, "operator_role"@, 4);
    json::field_is_first(f, "tenant_id"@, 5);
    json::field_is_first(f, "project_id"@, 6);
    json::field_is_first(f, "attribution_basis"@, 7);
    json::field_is_first(f, "safe_subset"@, 8);
    json::field_is_first(f, "unsafe_excluded"@, 9);
    json::field_is_first(f, "forges_identity"@, 10);
    json::field_is_first(f, "local_file_access"@, 11);
    json::field_is_first(f, "frontend_filtering"@, 12);
    json::field_is_first(f, "counts"@, 13);
    json::field_is_first(f, "attributable"@, 14);
    json::field_is_first(f, "refused"@, 15);
    json::field_is_first(f, "attributable_sample"@, 16);
    json::field_is_first(f, "refused_sample"@, 17);
}

/// The intent of a request is its project and what it expects, not its name.
pub proof fn history_requests_are_told(q: HistoryRequest)
    ensures
        json::field(intent_doc(q), "protocol"@) == Some(JsonView::Str("awr-operator-history-migration-v1"@)),
        json::field(intent_doc(q), "tenant_id"@) == Some(JsonView::Str(q.tenant@)),
        json::field(intent_doc(q), "project_id"@) == Some(JsonView::Str(q.project@)),
        json::field(intent_doc(q), "expected_state"@) == Some(JsonView::Str(q.expected_state@)),
        json::field(intent_doc(q), "expected_plan"@) == Some(JsonView::Str(q.expected_plan@)),
{
    reveal_strlit("protocol");
    reveal_strlit("tenant_id");
    reveal_strlit("project_id");
    reveal_strlit("expected_state");
    reveal_strlit("expected_plan");
    assert("protocol"@.len() == 8);
    assert("tenant_id"@.len() == 9);
    assert("project_id"@.len() == 10);
    assert("expected_state"@.len() == 14);
    assert("expected_plan"@.len() == 13);
    let f = intent_doc(q)->Obj_0;
    json::field_is_first(f, "protocol"@, 0);
    json::field_is_first(f, "tenant_id"@, 1);
    json::field_is_first(f, "project_id"@, 2);
    json::field_is_first(f, "expected_state"@, 3);
    json::field_is_first(f, "expected_plan"@, 4);
}

/// A receipt names its request and tells what was done; no identity is forged and nothing is authorized.
pub proof fn history_receipts_are_told(q: HistoryRequest, intent_hash: Seq<char>, operator: Seq<char>, revision: i64, acted: Seq<ItemView>, refused: Seq<ItemView>)
    ensures
        json::field(receipt_doc(q, intent_hash, operator, revision, acted, refused), "protocol"@) == Some(JsonView::Str("awr-operator-history-migration-v1"@)),
        json::field(receipt_doc(q, intent_hash, operator, revision, acted, refused), "request_id"@) == Some(JsonView::Str(q.request@)),
        json::field(receipt_doc(q, intent_hash, operator, revision, acted, refused), "request_hash"@) == Some(JsonView::Str(intent_hash)),
        json::field(receipt_doc(q, intent_hash, operator, revision, acted, refused), "operator_role"@) == Some(JsonView::Str(operator)),
        json::field(receipt_doc(q, intent_hash, operator, revision, acted, refused), "tenant_id"@) == Some(JsonView::Str(q.tenant@)),
        json::field(receipt_doc(q, intent_hash, operator, revision, acted, refused), "project_id"@) == Some(JsonView::Str(q.project@)),
        json::field(receipt_doc(q, intent_hash, operator, revision, acted, refused), "state_digest"@) == Some(JsonView::Str(q.expected_state@)),
        json::field(receipt_doc(q, intent_hash, operator, revision, acted, refused), "plan_digest"@) == Some(JsonView::Str(q.expected_plan@)),
        json::field(receipt_doc(q, intent_hash, operator, revision, acted, refused), "project_revision"@) == Some(JsonView::Str(text::decimal_form(revision as int))),
        json::field(receipt_doc(q, intent_hash, operator, revision, acted, refused), "attributed"@) == Some(JsonView::Arr(operator_plan::docs(acted))),
        json::field(receipt_doc(q, intent_hash, operator, revision, acted, refused), "refused"@) == Some(JsonView::Arr(operator_plan::docs(refused))),
        json::field(receipt_doc(q, intent_hash, operator, revision, acted, refused), "counts"@) == Some(counts_doc(acted, refused)),
        json::field(receipt_doc(q, intent_hash, operator, revision, acted, refused), "completion_receipts_modified"@) == Some(JsonView::Bool(false)),
        json::field(receipt_doc(q, intent_hash, operator, revision, acted, refused), "executions_modified"@) == Some(JsonView::Bool(false)),
        json::field(receipt_doc(q, intent_hash, operator, revision, acted, refused), "identity_forged"@) == Some(JsonView::Bool(false)),
        json::field(receipt_doc(q, intent_hash, operator, revision, acted, refused), "execution_authorized"@) == Some(JsonView::Bool(false)),
        json::field(receipt_doc(q, intent_hash, operator, revision, acted, refused), "automatic_resume"@) == Some(JsonView::Bool(false)),
        json::field(receipt_doc(q, intent_hash, operator, revision, acted, refused), "state_basis"@) == Some(JsonView::Str("at_commit"@)),
{
    reveal_strlit("protocol");
    reveal_strlit("request_id");
    reveal_strlit("request_hash");
    reveal_strlit("operator_role");
    reveal_strlit("tenant_id");
    reveal_strlit("project_id");
    reveal_strlit("state_digest");
    reveal_strlit("plan_digest");
    reveal_strlit("project_revision");
    reveal_strlit("attributed");
    reveal_strlit("refused");
    reveal_strlit("counts");
    reveal_strlit("completion_receipts_modified");
    reveal_strlit("executions_modified");
    reveal_strlit("identity_forged");
    reveal_strlit("execution_authorized");
    reveal_strlit("automatic_resume");
    reveal_strlit("state_basis");
    assert("protocol"@.len() == 8);
    assert("request_id"@.len() == 10);
    assert("request_hash"@.len() == 12);
    assert("operator_role"@.len() == 13);
    assert("tenant_id"@.len() == 9);
    assert("project_id"@.len() == 10);
    assert("state_digest"@.len() == 12);
    assert("plan_digest"@.len() == 11);
    assert("project_revision"@.len() == 16);
    assert("attributed"@.len() == 10);
    assert("refused"@.len() == 7);
    assert("counts"@.len() == 6);
    assert("completion_receipts_modified"@.len() == 28);
    assert("executions_modified"@.len() == 19);
    assert("identity_forged"@.len() == 15);
    assert("execution_authorized"@.len() == 20);
    assert("automatic_resume"@.len() == 16);
    assert("state_basis"@.len() == 11);
    assert("request_id"@[0] == 'r');
    assert("project_id"@[0] == 'p');
    assert("attributed"@[0] == 'a');
    assert("request_hash"@[0] == 'r');
    assert("state_digest"@[0] == 's');
    assert("plan_digest"@[0] == 'p');
    assert("state_basis"@[0] == 's');
    assert("project_revision"@[0] == 'p');
    assert("automatic_resume"@[0] == 'a');
    let f = receipt_doc(q, intent_hash, operator, revision, acted, refused)->Obj_0;
    json::field_is_first(f, "protocol"@, 0);
    json::field_is_first(f, "request_id"@, 1);
    json::field_is_first(f, "request_hash"@, 2);
    json::field_is_first(f, "operator_role"@, 3);
    json::field_is_first(f, "tenant_id"@, 4);
    json::field_is_first(f, "project_id"@, 5);
    json::field_is_first(f, "state_digest"@, 6);
    json::field_is_first(f, "plan_digest"@, 7);
    json::field_is_first(f, "project_revision"@, 8);
    json::field_is_first(f, "attributed"@, 9);
    json::field_is_first(f, "refused"@, 10);
    json::field_is_first(f, "counts"@, 11);
    json::field_is_first(f, "completion_receipts_modified"@, 12);
    json::field_is_first(f, "executions_modified"@, 13);
    json::field_is_first(f, "identity_forged"@, 14);
    json::field_is_first(f, "execution_authorized"@, 15);
    json::field_is_first(f, "automatic_resume"@, 16);
    json::field_is_first(f, "state_basis"@, 17);
}

/// A preview tells the plan and the digests that it is applied under; nothing was applied.
pub proof fn history_previews_are_told(operator: Seq<char>, plan: HistoryPlan, state_digest: Seq<char>, plan_digest: Seq<char>)
    ensures
        json::field(preview_doc(operator, plan, state_digest, plan_digest), "protocol"@) == Some(JsonView::Str("awr-operator-history-migration-v1"@)),
        json::field(preview_doc(operator, plan, state_digest, plan_digest), "applied"@) == Some(JsonView::Bool(false)),
        json::field(preview_doc(operator, plan, state_digest, plan_digest), "operator_role"@) == Some(JsonView::Str(operator)),
        json::field(preview_doc(operator, plan, state_digest, plan_digest), "state_digest"@) == Some(JsonView::Str(state_digest)),
        json::field(preview_doc(operator, plan, state_digest, plan_digest), "plan_digest"@) == Some(JsonView::Str(plan_digest)),
        json::field(preview_doc(operator, plan, state_digest, plan_digest), "state"@) == Some(plan.state.model()),
        json::field(preview_doc(operator, plan, state_digest, plan_digest), "counts"@) == Some(counts_doc(operator_plan::item_views(plan.lists.actionable@), operator_plan::item_views(plan.lists.refused@))),
        json::field(preview_doc(operator, plan, state_digest, plan_digest), "attributable"@) == Some(JsonView::Arr(operator_plan::docs(operator_plan::item_views(plan.lists.actionable@)))),
        json::field(preview_doc(operator, plan, state_digest, plan_digest), "refused"@) == Some(JsonView::Arr(operator_plan::docs(operator_plan::item_views(plan.lists.refused@)))),
        json::field(preview_doc(operator, plan, state_digest, plan_digest), "safe_subset"@) == Some(json::text_items(safe_subset())),
        json::field(preview_doc(operator, plan, state_digest, plan_digest), "unsafe_excluded"@) == Some(json::text_items(unsafe_excluded())),
        json::field(preview_doc(operator, plan, state_digest, plan_digest), "attribution_basis"@) == Some(JsonView::Str("current_workstream_ownership"@)),
        json::field(preview_doc(operator, plan, state_digest, plan_digest), "next_action"@) == Some(JsonView::Str( "Review attributable/refused lists; apply with exact state_digest and plan_digest. Executions and active claims stay refused; use access quarantine-* for those."@, )),
{
    reveal_strlit("protocol");
    reveal_strlit("applied");
    reveal_strlit("operator_role");
    reveal_strlit("state_digest");
    reveal_strlit("plan_digest");
    reveal_strlit("state");
    reveal_strlit("counts");
    reveal_strlit("attributable");
    reveal_strlit("refused");
    reveal_strlit("safe_subset");
    reveal_strlit("unsafe_excluded");
    reveal_strlit("attribution_basis");
    reveal_strlit("next_action");
    assert("protocol"@.len() == 8);
    assert("applied"@.len() == 7);
    assert("operator_role"@.len() == 13);
    assert("state_digest"@.len() == 12);
    assert("plan_digest"@.len() == 11);
    assert("state"@.len() == 5);
    assert("counts"@.len() == 6);
    assert("attributable"@.len() == 12);
    assert("refused"@.len() == 7);
    assert("safe_subset"@.len() == 11);
    assert("unsafe_excluded"@.len() == 15);
    assert("attribution_basis"@.len() == 17);
    assert("next_action"@.len() == 11);
    assert("applied"@[0] == 'a');
    assert("refused"@[0] == 'r');
    assert("state_digest"@[0] == 's');
    assert("attributable"@[0] == 'a');
    assert("plan_digest"@[0] == 'p');
    assert("safe_subset"@[0] == 's');
    assert("next_action"@[0] == 'n');
    let f = preview_doc(operator, plan, state_digest, plan_digest)->Obj_0;
    json::field_is_first(f, "protocol"@, 0);
    json::field_is_first(f, "applied"@, 1);
    json::field_is_first(f, "operator_role"@, 2);
    json::field_is_first(f, "state_digest"@, 3);
    json::field_is_first(f, "plan_digest"@, 4);
    json::field_is_first(f, "state"@, 5);
    json::field_is_first(f, "counts"@, 6);
    json::field_is_first(f, "attributable"@, 7);
    json::field_is_first(f, "refused"@, 8);
    json::field_is_first(f, "safe_subset"@, 9);
    json::field_is_first(f, "unsafe_excluded"@, 10);
    json::field_is_first(f, "attribution_basis"@, 11);
    json::field_is_first(f, "next_action"@, 12);
}

/// The state that a plan was made for is that of the project, with what it counted.
pub proof fn states_of_history_are_told(doc: JsonView, tenant: Seq<char>, project: Seq<char>, row: ProjectRow, rows: Seq<HistoryRow>, ownership: Seq<OwnedWork>)
    requires
        is_state_doc(doc, tenant, project, row, rows, ownership),
    ensures
        json::field(doc, "tenant_id"@) == Some(JsonView::Str(tenant)),
        json::field(doc, "project_id"@) == Some(JsonView::Str(project)),
        json::field(doc, "project_status"@) == Some(JsonView::Str(row.status@)),
        json::field(doc, "coordinator_epoch"@) == Some(JsonView::Str(row.coordinator_epoch@)),
        json::field(doc, "project_revision"@) == Some(JsonView::Str(text::decimal_form(row.project_revision as int))),
        json::field(doc, "source_snapshot_id"@) == Some(json::opt_item(text::opt(row.source_snapshot_id))),
{
    reveal_strlit("tenant_id");
    reveal_strlit("project_id");
    reveal_strlit("project_status");
    reveal_strlit("coordinator_epoch");
    reveal_strlit("project_revision");
    reveal_strlit("source_snapshot_id");
    reveal_strlit("ownership_work_ids");
    reveal_strlit("unattributed");
    assert("tenant_id"@.len() == 9);
    assert("project_id"@.len() == 10);
    assert("project_status"@.len() == 14);
    assert("coordinator_epoch"@.len() == 17);
    assert("project_revision"@.len() == 16);
    assert("source_snapshot_id"@.len() == 18);
    assert("ownership_work_ids"@.len() == 18);
    assert("unattributed"@.len() == 12);
    assert("source_snapshot_id"@[0] == 's');
    assert("ownership_work_ids"@[0] == 'o');
    let f = doc->Obj_0;
    json::field_is_first(f, "tenant_id"@, 0);
    json::field_is_first(f, "project_id"@, 1);
    json::field_is_first(f, "project_status"@, 2);
    json::field_is_first(f, "coordinator_epoch"@, 3);
    json::field_is_first(f, "project_revision"@, 4);
    json::field_is_first(f, "source_snapshot_id"@, 5);
    json::field_is_first(f, "ownership_work_ids"@, 6);
    json::field_is_first(f, "unattributed"@, 7);
}

/// The state that a plan was made for counts what belongs to no workstream, by kind, and lists the works
/// that are owned.
pub proof fn unattributed_history_is_counted(
    doc: JsonView,
    tenant: Seq<char>,
    project: Seq<char>,
    row: ProjectRow,
    rows: Seq<HistoryRow>,
    ownership: Seq<OwnedWork>,
)
    requires
        is_state_doc(doc, tenant, project, row, rows, ownership),
    ensures
        ({
            let counts = json::field(doc, "unattributed"@)->Some_0;
            &&& json::field(counts, "sessions"@) == Some(
                json::count_item(rows_of_kind(rows, HistoryKind::Session) as usize),
            )
            &&& json::field(counts, "claims"@) == Some(
                json::count_item(rows_of_kind(rows, HistoryKind::Claim) as usize),
            )
            &&& json::field(counts, "events"@) == Some(
                json::count_item(rows_of_kind(rows, HistoryKind::Event) as usize),
            )
            &&& json::field(counts, "executions"@) == Some(
                json::count_item(rows_of_kind(rows, HistoryKind::Execution) as usize),
            )
        }),
        exists|works: Seq<Seq<char>>|
            order::ascending(works) && #[trigger] order::same_members(
                works,
                operator_plan::owned_works(ownership),
            ) && json::field(doc, "ownership_work_ids"@) == Some(json::text_items(works)),
{
    let works = choose|works: Seq<Seq<char>>|
        order::ascending(works) && #[trigger] order::same_members(
            works,
            operator_plan::owned_works(ownership),
        ) && doc->Obj_0[6] == ("ownership_work_ids"@, json::text_items(works));
    reveal_strlit("tenant_id");
    reveal_strlit("project_id");
    reveal_strlit("project_status");
    reveal_strlit("coordinator_epoch");
    reveal_strlit("project_revision");
    reveal_strlit("source_snapshot_id");
    reveal_strlit("ownership_work_ids");
    reveal_strlit("unattributed");
    reveal_strlit("sessions");
    reveal_strlit("claims");
    reveal_strlit("events");
    reveal_strlit("executions");
    assert("tenant_id"@.len() == 9 && "project_id"@.len() == 10 && "project_status"@.len() == 14
        && "coordinator_epoch"@.len() == 17 && "project_revision"@.len() == 16
        && "source_snapshot_id"@.len() == 18 && "ownership_work_ids"@.len() == 18
        && "unattributed"@.len() == 12);
    assert("source_snapshot_id"@[0] == 's' && "ownership_work_ids"@[0] == 'o');
    assert("sessions"@.len() == 8 && "claims"@.len() == 6 && "events"@.len() == 6
        && "executions"@.len() == 10);
    assert("claims"@[0] == 'c' && "events"@[0] == 'e');
    json::field_is_first(doc->Obj_0, "ownership_work_ids"@, 6);
    json::field_is_first(doc->Obj_0, "unattributed"@, 7);
    let f = doc->Obj_0[7].1->Obj_0;
    json::field_is_first(f, "sessions"@, 0);
    json::field_is_first(f, "claims"@, 1);
    json::field_is_first(f, "events"@, 2);
    json::field_is_first(f, "executions"@, 3);
}

/// A request that is not well formed is told as such.
pub proof fn malformed_requests_are_told()
    ensures
        invalid_request() == Fault::Protocol("invalid operator history migration request"@),
{
}

} // verus!
