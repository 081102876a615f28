//! Planning: suggestions, and draft candidates that are edited, approved and published.
//!
//! A suggestion is never work that can be claimed, and changes nothing that is live. Approving
//! and publishing are separate, and both are bound to the digest of the candidate.
use crate::digest;
use crate::error;
use crate::error::{protocol, Fault, PgError, PgResult};
use crate::json;
use crate::json::{Doc, Json, JsonView};
use crate::ops_audit;
use crate::ops_audit::{AuditActor, OpsAuditWrite, OpsCategory};
use crate::order;
use crate::pool::PgPool;
use crate::text;
use vstd::prelude::*;
use vstd::utf8::*;

verus! {

broadcast use {vstd::string::group_string_axioms, vstd::utf8::group_utf8_lib};

pub const PLANNING_RECEIPT_PROTOCOL: &'static str = "awr-planning-command-receipt-v1";

/// A suggestion as it is submitted.
#[derive(Debug)]
pub struct SuggestionSubmit {
    pub rationale: String,
    pub affected_work_keys: Vec<String>,
    pub proposed_notes: Json,
    /// Must be the authenticated actor where it is given.
    pub author_person_id: Option<String>,
    /// The identity to use again, where the submission is resumed.
    pub predetermined_suggestion_id: Option<String>,
}

/// A change of a task, as far as it is read here, and the whole of it as a document.
#[derive(Debug)]
pub struct DraftChange {
    pub work_id: String,
    pub external_key: String,
    pub completion_policy: String,
    pub split_children: Vec<String>,
    pub before_work_id: Option<String>,
    pub document: Json,
}

/// Who may approve their own ordinary planning, as far as it is read here, and the whole of it as
/// a document.
#[derive(Debug)]
pub struct SelfApprovePolicy {
    pub delivery_completion_policy: String,
    pub document: Json,
}

/// A candidate as it is submitted.
#[derive(Debug)]
pub struct DraftCandidateCreate {
    pub changes: Vec<DraftChange>,
    pub suggestion_ids: Vec<String>,
    pub allowed_spec_roots: Vec<String>,
    pub project_goal_keys: Vec<String>,
    pub self_approve_policy: Option<SelfApprovePolicy>,
    /// Must be the authenticated actor where it is given.
    pub author_person_id: Option<String>,
    /// The identity to use again, where the submission is resumed.
    pub predetermined_candidate_id: Option<String>,
}

/// The receipt of a command that is stored together with what the command writes.
#[derive(Clone, Debug)]
pub struct PlanningCommandBind {
    pub request_id: String,
    pub op: String,
    pub request_hash: String,
}

/// The states of a candidate.
#[derive(Clone, Copy, Debug, PartialEq, Eq, Structural)]
pub enum CandidateState {
    Drafting,
    Approved,
    Published,
    Superseded,
}

impl CandidateState {
    /// The name of the state in stored rows.
    pub open spec fn name(self) -> Seq<char> {
        match self {
            CandidateState::Drafting => "drafting"@,
            CandidateState::Approved => "approved"@,
            CandidateState::Published => "published"@,
            CandidateState::Superseded => "superseded"@,
        }
    }

    /// The state that a name stands for.
    pub open spec fn named(name: Seq<char>) -> Option<CandidateState> {
        if name == "drafting"@ {
            Some(CandidateState::Drafting)
        } else if name == "approved"@ {
            Some(CandidateState::Approved)
        } else if name == "published"@ {
            Some(CandidateState::Published)
        } else if name == "superseded"@ {
            Some(CandidateState::Superseded)
        } else {
            None
        }
    }

    pub fn as_str(self) -> (r: &'static str)
        ensures
            r@ == self.name(),
    {
        match self {
            CandidateState::Drafting => "drafting",
            CandidateState::Approved => "approved",
            CandidateState::Published => "published",
            CandidateState::Superseded => "superseded",
        }
    }

    fn parse(name: &str) -> (r: PgResult<CandidateState>)
        ensures
            match r {
                Ok(s) => CandidateState::named(name@) == Some(s),
                Err(e) => CandidateState::named(name@) is None && e@ == Fault::Protocol(
                    "unknown planning candidate state: "@ + name@,
                ),
            },
    {
        if text::same(name, "drafting") {
            Ok(CandidateState::Drafting)
        } else if text::same(name, "approved") {
            Ok(CandidateState::Approved)
        } else if text::same(name, "published") {
            Ok(CandidateState::Published)
        } else if text::same(name, "superseded") {
            Ok(CandidateState::Superseded)
        } else {
            Err(
                PgError::Protocol(
                    text::plus("unknown planning candidate state: ".to_owned(), name),
                ),
            )
        }
    }
}

/// A stored state is read back as it was.
pub proof fn candidate_states_read_back(s: CandidateState)
    ensures
        CandidateState::named(s.name()) == Some(s),
{
    reveal_strlit("drafting");
    reveal_strlit("approved");
    reveal_strlit("published");
    reveal_strlit("superseded");
    assert("drafting"@.len() == 8);
    assert("drafting"@[0] == 'd');
    assert("approved"@.len() == 8);
    assert("approved"@[0] == 'a');
    assert("published"@.len() == 9);
    assert("superseded"@.len() == 10);
}

/// An approval of a candidate.
#[derive(Clone, Debug)]
pub struct PlanningApproval {
    pub approval_id: String,
    pub candidate_digest: String,
    pub approver_person_id: String,
    pub approver_actor_id: String,
    pub self_approved: bool,
}

/// A suggestion.
#[derive(Debug)]
pub struct PlanningSuggestion {
    pub codec: String,
    pub suggestion_id: String,
    pub project_id: String,
    pub author_person_id: String,
    pub author_actor_id: String,
    pub rationale: String,
    pub version: u32,
    pub baseline_digest: String,
    pub baseline_epoch: String,
    pub affected_work_keys: Vec<String>,
    pub proposed_notes: Json,
    pub state: String,
}

/// A candidate.
#[derive(Debug)]
pub struct PlanningCandidate {
    pub codec: String,
    pub candidate_id: String,
    pub project_id: String,
    pub author_person_id: String,
    pub author_actor_id: String,
    pub baseline_digest: String,
    pub baseline_epoch: String,
    pub draft_revision: u32,
    pub changes: Vec<DraftChange>,
    pub suggestion_ids: Vec<String>,
    pub state: CandidateState,
    pub approval: Option<PlanningApproval>,
    pub allowed_spec_roots: Vec<String>,
    pub project_goal_keys: Vec<String>,
}

/// The source that drafts are made against.
#[derive(Clone, Debug)]
pub struct Baseline {
    pub digest: String,
    pub epoch: String,
}

/// What another part of the system refused.
#[derive(Clone, Debug)]
pub enum TeamRefusal {
    PermissionDenied(String),
    Other(String),
}

/// The refusal that callers see: a permission that is missing, or a review that would become
/// weaker.
pub open spec fn team_fault(r: TeamRefusal) -> Fault {
    match r {
        TeamRefusal::PermissionDenied(m) => if text::holds(m@, "downgraded"@) {
            Fault::PolicyDowngrade
        } else {
            Fault::Forbidden
        },
        TeamRefusal::Other(m) => Fault::Protocol(m@),
    }
}

/// The refusal that callers see.
pub fn map_team(refusal: TeamRefusal) -> (r: PgError)
    ensures
        r@ == team_fault(refusal),
{
    match refusal {
        TeamRefusal::PermissionDenied(m) => {
            let chars = text::chars_of(m.as_str());
            if text::contains(chars.as_slice(), "downgraded") {
                PgError::PolicyDowngrade
            } else {
                PgError::Forbidden
            }
        },
        TeamRefusal::Other(m) => PgError::Protocol(m),
    }
}

/// The texts of a list of texts.
pub open spec fn string_list(v: JsonView) -> Result<Seq<Seq<char>>, Fault> {
    match v {
        JsonView::Arr(items) => if forall|i: int|
            0 <= i < items.len() ==> (#[trigger] items[i]) is Str {
            Ok(items.map_values(|x: JsonView| x->Str_0))
        } else {
            Err(Fault::Protocol("expected string in json array"@))
        },
        _ => Err(Fault::Protocol("expected json string array"@)),
    }
}

/// The model of a list of texts that was read.
pub open spec fn read_list(r: PgResult<Vec<String>>) -> Result<Seq<Seq<char>>, Fault> {
    match r {
        Ok(v) => Ok(text::texts(v@)),
        Err(e) => Err(e@),
    }
}

/// The texts of a list of texts.
pub fn json_string_list(v: &Json) -> (r: PgResult<Vec<String>>)
    ensures
        read_list(r) == string_list(v.model()),
{
    match v {
        Json::Arr(items) => {
            let ghost all = json::models(items@);
            assert(v.model()->Arr_0 =~= all);
            let mut out: Vec<String> = Vec::new();
            let mut i: usize = 0;
            while i < items.len()
                invariant
                    i <= items.len(),
                    out.len() == i,
                    all == json::models(items@),
                    v.model() == JsonView::Arr(all),
                    forall|j: int|
                        0 <= j < i ==> #[trigger] all[j] is Str && out@[j]@ == all[j]->Str_0,
                decreases items.len() - i,
            {
                assert(all[i as int] == items@[i as int].model());
                match &items[i] {
                    Json::Str(s) => {
                        out.push(s.as_str().to_owned());
                    },
                    _ => {
                        assert(!(all[i as int] is Str));
                        return Err(protocol("expected string in json array"));
                    },
                }
                i = i + 1;
            }
            assert(text::texts(out@) =~= all.map_values(|x: JsonView| x->Str_0));
            Ok(out)
        },
        _ => Err(protocol("expected json string array")),
    }
}

/// A list of texts that was stored is read back as it was.
pub proof fn lists_read_back(list: Seq<Seq<char>>)
    ensures
        string_list(json::text_items(list)) == Ok::<Seq<Seq<char>>, Fault>(list),
{
    let items = json::text_items(list)->Arr_0;
    assert(items.map_values(|x: JsonView| x->Str_0) =~= list);
}

/// The identity of something that is submitted: the one that was given before, or a new one.
pub open spec fn chosen_id(predetermined: Option<String>, fresh: Seq<char>) -> Seq<char> {
    match predetermined {
        Some(s) => if text::is_blank(s@) {
            fresh
        } else {
            s@
        },
        None => fresh,
    }
}

fn choose_id(predetermined: &Option<String>, fresh: &str) -> (r: String)
    ensures
        r@ == chosen_id(*predetermined, fresh@),
{
    match predetermined {
        Some(s) => {
            if text::blank(s.as_str()) {
                fresh.to_owned()
            } else {
                s.as_str().to_owned()
            }
        },
        None => fresh.to_owned(),
    }
}

/// What becomes of the receipt and of the audit of a command.
#[derive(Debug)]
pub struct Bound {
    /// The receipt to store, where this command owns it.
    pub receipt: Option<Json>,
    /// The answer of the command.
    pub answer: Json,
    /// Whether the command is recorded in the audit.
    pub audited: bool,
}

/// The receipt of a command.
pub open spec fn receipt_doc(b: PlanningCommandBind, result: JsonView) -> JsonView {
    JsonView::Obj(
        json::no_fields().push(("protocol"@, JsonView::Str(PLANNING_RECEIPT_PROTOCOL@))).push(
            ("request_id"@, JsonView::Str(b.request_id@)),
        ).push(("op"@, JsonView::Str(b.op@))).push(
            ("request_hash"@, JsonView::Str(b.request_hash@)),
        ).push(("result"@, result)).push(("already_recorded"@, JsonView::Bool(false))),
    )
}

/// What becomes of the receipt and of the audit of a command. A receipt that was reserved before
/// is left alone, and an action is recorded once for each request.
pub fn bind_planning_receipt(
    bind: Option<&PlanningCommandBind>,
    reserved: bool,
    already_audited: bool,
    result: Json,
) -> (r: Bound)
    ensures
        match bind {
            Some(b) => {
                &&& r.receipt is Some == !reserved
                &&& r.receipt is Some ==> r.receipt->Some_0.model() == receipt_doc(
                    *b,
                    result.model(),
                )
                &&& r.answer.model() == (if reserved {
                    result.model()
                } else {
                    receipt_doc(*b, result.model())
                })
                &&& r.audited == !already_audited
            },
            None => {
                &&& r.receipt is None
                &&& r.answer.model() == result.model()
                &&& r.audited
            },
        },
{
    match bind {
        Some(b) => {
            if reserved {
                return Bound { receipt: None, answer: result, audited: !already_audited };
            }
            let wrapped = Doc::new().put("protocol", json::text(PLANNING_RECEIPT_PROTOCOL)).put(
                "request_id",
                json::text(b.request_id.as_str()),
            ).put("op", json::text(b.op.as_str())).put(
                "request_hash",
                json::text(b.request_hash.as_str()),
            ).put("result", result).put("already_recorded", json::flag(false)).json();
            Bound { receipt: Some(wrapped.copy()), answer: wrapped, audited: !already_audited }
        },
        None => Bound { receipt: None, answer: result, audited: true },
    }
}

/// What is recorded of a planning command.
pub fn planning_audit(
    auth: &AuditActor,
    action: &str,
    target_kind: &str,
    target_id: Option<&str>,
    change_id: Option<&str>,
    request_id: Option<&str>,
    source_version: Option<&str>,
    summary: Json,
) -> (r: OpsAuditWrite)
    ensures
        r.category == OpsCategory::Planning,
        r.action@ == action@,
        r.result@ == "committed"@,
        r.person_id is None,
        r.actor_id@ == auth.actor_id@,
        r.client_id@ == auth.client_id@,
        r.target_kind@ == target_kind@,
        text::opt(r.target_id) == text::opt_str(target_id),
        r.work_id is None,
        text::opt(r.change_id) == text::opt_str(change_id),
        text::opt(r.request_id) == text::opt_str(request_id),
        r.membership_version == Some(auth.membership_version),
        r.authority_version is None,
        r.policy_version == Some(auth.policy_version),
        text::opt(r.source_version) == text::opt_str(source_version),
        text::opt(r.digest) == Some(digest::doc_digest(summary.model())),
        r.summary.model() == summary.model(),
{
    let mut audit = ops_audit::write_from_auth(auth, OpsCategory::Planning, action, target_kind);
    audit.target_id = text::own_opt(target_id);
    audit.change_id = text::own_opt(change_id);
    audit.request_id = text::own_opt(request_id);
    audit.source_version = text::own_opt(source_version);
    audit.digest = Some(ops_audit::digest_of(&summary));
    audit.summary = summary;
    audit
}

/// A suggestion as it is stored.
#[derive(Clone, Debug)]
pub struct SuggestionRow {
    pub suggestion_id: String,
    pub version: i32,
    pub author_person_id: String,
    pub author_actor_id: String,
    pub rationale: String,
    pub baseline_digest: String,
    pub baseline_epoch: String,
    pub state: String,
}

/// The answer to a suggestion: nothing of it can be claimed, and nothing live has changed.
pub open spec fn suggestion_doc(row: SuggestionRow) -> JsonView {
    JsonView::Obj(
        json::no_fields().push(("suggestion_id"@, JsonView::Str(row.suggestion_id@))).push(
            ("version"@, JsonView::Int(row.version as int)),
        ).push(("author_person_id"@, JsonView::Str(row.author_person_id@))).push(
            ("author_actor_id"@, JsonView::Str(row.author_actor_id@)),
        ).push(("rationale"@, JsonView::Str(row.rationale@))).push(
            ("baseline_digest"@, JsonView::Str(row.baseline_digest@)),
        ).push(("baseline_epoch"@, JsonView::Str(row.baseline_epoch@))).push(
            ("claimable"@, JsonView::Bool(false)),
        ).push(("adds_formal_work"@, JsonView::Bool(false))).push(
            ("mutates_live_deps"@, JsonView::Bool(false)),
        ).push(("mutates_live_acceptance"@, JsonView::Bool(false))).push(
            ("state"@, JsonView::Str(row.state@)),
        ),
    )
}

/// What is recorded of a suggestion.
pub open spec fn suggestion_summary_doc(s: PlanningSuggestion) -> JsonView {
    JsonView::Obj(
        json::no_fields().push(("suggestion_id"@, JsonView::Str(s.suggestion_id@))).push(
            ("baseline_digest"@, JsonView::Str(s.baseline_digest@)),
        ).push(("affected_work_keys"@, json::text_items(text::texts(s.affected_work_keys@)))),
    )
}

/// A candidate that was created before under the same identity.
#[derive(Clone, Debug)]
pub struct CandidateBrief {
    pub candidate_id: String,
    pub draft_revision: i32,
    pub candidate_digest: String,
    pub state: String,
}

/// The answer where a candidate was created before.
pub open spec fn resumed_doc(b: CandidateBrief) -> JsonView {
    JsonView::Obj(
        json::no_fields().push(("candidate_id"@, JsonView::Str(b.candidate_id@))).push(
            ("draft_revision"@, JsonView::Int(b.draft_revision as int)),
        ).push(("candidate_digest"@, JsonView::Str(b.candidate_digest@))).push(
            ("state"@, JsonView::Str(b.state@)),
        ).push(("resumed"@, JsonView::Bool(true))),
    )
}

/// The goals that a candidate serves; delivery where it names none.
pub open spec fn goal_keys(given: Seq<Seq<char>>) -> Seq<Seq<char>> {
    if given.len() == 0 {
        Seq::<Seq<char>>::empty().push("delivery"@)
    } else {
        given
    }
}

/// The head of what is said of a candidate: its identity, its revision and its digest.
pub open spec fn candidate_head(
    candidate_id: Seq<char>,
    draft_revision: int,
    candidate_digest: Seq<char>,
) -> Seq<(Seq<char>, JsonView)> {
    json::no_fields().push(("candidate_id"@, JsonView::Str(candidate_id))).push(
        ("draft_revision"@, JsonView::Int(draft_revision)),
    ).push(("candidate_digest"@, JsonView::Str(candidate_digest)))
}

fn put_head(candidate_id: &str, draft_revision: u32, candidate_digest: &str) -> (r: Doc)
    ensures
        r@ == candidate_head(candidate_id@, draft_revision as int, candidate_digest@),
{
    Doc::new().put("candidate_id", json::text(candidate_id)).put(
        "draft_revision",
        json::number(draft_revision as i64),
    ).put("candidate_digest", json::text(candidate_digest))
}

/// The answer to a new candidate.
pub open spec fn created_doc(
    candidate_id: Seq<char>,
    draft_revision: int,
    candidate_digest: Seq<char>,
    diff: JsonView,
) -> JsonView {
    JsonView::Obj(
        candidate_head(candidate_id, draft_revision, candidate_digest).push(
            ("state"@, JsonView::Str("drafting"@)),
        ).push(("diff"@, diff)).push(("hard_delete_history_allowed"@, JsonView::Bool(false))).push(
            ("forge_completion_via_status_allowed"@, JsonView::Bool(false)),
        ),
    )
}

/// The answer to an edit of a candidate.
pub open spec fn edited_doc(
    candidate_id: Seq<char>,
    draft_revision: int,
    candidate_digest: Seq<char>,
    diff: JsonView,
) -> JsonView {
    JsonView::Obj(
        candidate_head(candidate_id, draft_revision, candidate_digest).push(
            ("state"@, JsonView::Str("drafting"@)),
        ).push(("prior_approval_cleared"@, JsonView::Bool(true))).push(("diff"@, diff)),
    )
}

/// An approval, as a document.
pub open spec fn approval_item(a: Option<PlanningApproval>) -> JsonView {
    match a {
        None => JsonView::Null,
        Some(p) => JsonView::Obj(
            json::no_fields().push(("approval_id"@, JsonView::Str(p.approval_id@))).push(
                ("candidate_digest"@, JsonView::Str(p.candidate_digest@)),
            ).push(("approver_person_id"@, JsonView::Str(p.approver_person_id@))).push(
                ("approver_actor_id"@, JsonView::Str(p.approver_actor_id@)),
            ).push(("self_approved"@, JsonView::Bool(p.self_approved))),
        ),
    }
}

/// The answer to a preview of a candidate.
pub open spec fn preview_doc(c: PlanningCandidate, diff: JsonView) -> JsonView {
    JsonView::Obj(
        json::no_fields().push(("candidate_id"@, JsonView::Str(c.candidate_id@))).push(
            ("state"@, JsonView::Str(c.state.name())),
        ).push(("draft_revision"@, JsonView::Int(c.draft_revision as int))).push(
            ("diff"@, diff),
        ).push(("approval"@, approval_item(c.approval))),
    )
}

/// The answer to an approval.
pub open spec fn approved_doc(
    approval_id: Seq<char>,
    candidate_id: Seq<char>,
    candidate_digest: Seq<char>,
    draft_revision: int,
    self_approved: bool,
    delivery_policy: Seq<char>,
) -> JsonView {
    JsonView::Obj(
        json::no_fields().push(("approval_id"@, JsonView::Str(approval_id))).push(
            ("candidate_id"@, JsonView::Str(candidate_id)),
        ).push(("candidate_digest"@, JsonView::Str(candidate_digest))).push(
            ("draft_revision"@, JsonView::Int(draft_revision)),
        ).push(("self_approved"@, JsonView::Bool(self_approved))).push(
            ("state"@, JsonView::Str("approved"@)),
        ).push(("delivery_completion_policy"@, JsonView::Str(delivery_policy))).push(
            ("independent_review_downgraded"@, JsonView::Bool(false)),
        ),
    )
}

/// What is recorded of an approval.
pub open spec fn approval_summary_doc(
    approval_id: Seq<char>,
    candidate_id: Seq<char>,
    candidate_digest: Seq<char>,
    self_approved: bool,
) -> JsonView {
    JsonView::Obj(
        json::no_fields().push(("approval_id"@, JsonView::Str(approval_id))).push(
            ("candidate_id"@, JsonView::Str(candidate_id)),
        ).push(("candidate_digest"@, JsonView::Str(candidate_digest))).push(
            ("self_approved"@, JsonView::Bool(self_approved)),
        ),
    )
}

/// The answer to a publication: the source is still to be written.
pub open spec fn published_doc(
    receipt_id: Seq<char>,
    candidate_id: Seq<char>,
    candidate_digest: Seq<char>,
    draft_revision: int,
    approval_id: Seq<char>,
) -> JsonView {
    JsonView::Obj(
        json::no_fields().push(("receipt_id"@, JsonView::Str(receipt_id))).push(
            ("candidate_id"@, JsonView::Str(candidate_id)),
        ).push(("candidate_digest"@, JsonView::Str(candidate_digest))).push(
            ("draft_revision"@, JsonView::Int(draft_revision)),
        ).push(("approval_id"@, JsonView::Str(approval_id))).push(
            ("state"@, JsonView::Str("published"@)),
        ).push(("source_writeback_pending"@, JsonView::Bool(true))).push(
            ("source_bytes_written"@, JsonView::Bool(false)),
        ),
    )
}

/// What is recorded of a publication.
pub open spec fn publication_summary_doc(
    receipt_id: Seq<char>,
    candidate_id: Seq<char>,
    candidate_digest: Seq<char>,
    approval_id: Seq<char>,
) -> JsonView {
    JsonView::Obj(
        json::no_fields().push(("receipt_id"@, JsonView::Str(receipt_id))).push(
            ("candidate_id"@, JsonView::Str(candidate_id)),
        ).push(("candidate_digest"@, JsonView::Str(candidate_digest))).push(
            ("approval_id"@, JsonView::Str(approval_id)),
        ),
    )
}

/// What planning offers.
pub open spec fn capabilities_doc(codec: Seq<char>) -> JsonView {
    JsonView::Obj(
        json::no_fields().push(("codec"@, JsonView::Str(codec))).push(
            (
                "actions"@,
                JsonView::Arr(
                    Seq::<JsonView>::empty().push(JsonView::Str("planning.propose"@)).push(
                        JsonView::Str("planning.edit_draft"@),
                    ).push(JsonView::Str("planning.approve"@)).push(
                        JsonView::Str("planning.publish"@),
                    ),
                ),
            ),
        ).push(("suggestion_claimable"@, JsonView::Bool(false))).push(
            ("suggestion_adds_formal_work"@, JsonView::Bool(false)),
        ).push(("hard_delete_history_allowed"@, JsonView::Bool(false))).push(
            ("forge_completion_via_status_allowed"@, JsonView::Bool(false)),
        ).push(("approve_publish_separated"@, JsonView::Bool(true))).push(
            ("approval_bound_to_candidate_digest"@, JsonView::Bool(true)),
        ).push(("source_writeback"@, JsonView::Str("tmcp_022"@))),
    )
}

/// A candidate as it is stored.
#[derive(Debug)]
pub struct CandidateRow {
    pub author_person_id: String,
    pub author_actor_id: String,
    pub baseline_digest: String,
    pub baseline_epoch: String,
    pub draft_revision: u32,
    pub candidate_digest: String,
    pub state: String,
    pub suggestion_ids: Json,
    pub allowed_spec_roots: Json,
    pub project_goal_keys: Json,
}

/// Why a stored candidate cannot be read, if so.
pub open spec fn row_fault(row: CandidateRow) -> Option<Fault> {
    if CandidateState::named(row.state@) is None {
        Some(Fault::Protocol("unknown planning candidate state: "@ + row.state@))
    } else {
        match string_list(row.suggestion_ids.model()) {
            Err(f) => Some(f),
            Ok(_) => match string_list(row.allowed_spec_roots.model()) {
                Err(f) => Some(f),
                Ok(_) => match string_list(row.project_goal_keys.model()) {
                    Err(f) => Some(f),
                    Ok(_) => None,
                },
            },
        }
    }
}

/// A candidate is what a stored row says.
pub open spec fn is_row(
    c: PlanningCandidate,
    codec: Seq<char>,
    project_id: Seq<char>,
    candidate_id: Seq<char>,
    row: CandidateRow,
    changes: Vec<DraftChange>,
) -> bool {
    &&& c.codec@ == codec
    &&& c.candidate_id@ == candidate_id
    &&& c.project_id@ == project_id
    &&& c.author_person_id@ == row.author_person_id@
    &&& c.author_actor_id@ == row.author_actor_id@
    &&& c.baseline_digest@ == row.baseline_digest@
    &&& c.baseline_epoch@ == row.baseline_epoch@
    &&& c.draft_revision == row.draft_revision
    &&& c.changes == changes
    &&& string_list(row.suggestion_ids.model()) == Ok::<Seq<Seq<char>>, Fault>(
        text::texts(c.suggestion_ids@),
    )
    &&& Some(c.state) == CandidateState::named(row.state@)
    &&& c.approval is None
    &&& string_list(row.allowed_spec_roots.model()) == Ok::<Seq<Seq<char>>, Fault>(
        text::texts(c.allowed_spec_roots@),
    )
    &&& string_list(row.project_goal_keys.model()) == Ok::<Seq<Seq<char>>, Fault>(
        text::texts(c.project_goal_keys@),
    )
}

/// The works that a candidate changes, each once, in the order in which they come first.
pub open spec fn changed_works_of(changes: Seq<DraftChange>) -> Seq<Seq<char>>
    decreases changes.len(),
{
    if changes.len() == 0 {
        Seq::empty()
    } else {
        let before = changed_works_of(changes.drop_last());
        let w = changes.last().work_id@;
        if before.contains(w) {
            before
        } else {
            before.push(w)
        }
    }
}

/// The works that a candidate changes, each once, in the order in which they come first.
pub fn changed_works(changes: &Vec<DraftChange>) -> (r: Vec<String>)
    ensures
        text::texts(r@) == changed_works_of(changes@),
{
    let mut out: Vec<String> = Vec::new();
    let mut i: usize = 0;
    assert(text::texts(out@) =~= Seq::empty());
    while i < changes.len()
        invariant
            i <= changes.len(),
            text::texts(out@) == changed_works_of(changes@.take(i as int)),
        decreases changes.len() - i,
    {
        let w = changes[i].work_id.as_str();
        assert(changes@.take(i + 1).drop_last() =~= changes@.take(i as int));
        let ghost before = out@;
        if !order::member(out.as_slice(), w) {
            out.push(w.to_owned());
            assert(text::texts(out@) =~= text::texts(before).push(w@));
        }
        i = i + 1;
    }
    assert(changes@.take(i as int) =~= changes@);
    out
}

/// Every work that a candidate changes is listed, and only those.
pub proof fn changed_works_are_the_changed_works(changes: Seq<DraftChange>, w: Seq<char>)
    ensures
        changed_works_of(changes).contains(w) <==> exists|i: int|
            0 <= i < changes.len() && (#[trigger] changes[i]).work_id@ == w,
        changed_works_of(changes).no_duplicates(),
    decreases changes.len(),
{
    if changes.len() > 0 {
        let head = changes.drop_last();
        let before = changed_works_of(head);
        let last = changes.last().work_id@;
        changed_works_are_the_changed_works(head, w);
        assert forall|x: Seq<char>| before.push(last).contains(x) == (before.contains(x) || x
            == last) by {
            assert(before.push(last)[before.len() as int] == last);
            if before.contains(x) {
                let k = before.index_of(x);
                assert(before.push(last)[k] == x);
            }
        }
        if changed_works_of(changes).contains(w) {
            if before.contains(w) {
                let i = choose|i: int| 0 <= i < head.len() && (#[trigger] head[i]).work_id@ == w;
                assert(changes[i].work_id@ == w);
            } else {
                assert(changes[changes.len() - 1].work_id@ == w);
            }
        }
        if exists|i: int| 0 <= i < changes.len() && (#[trigger] changes[i]).work_id@ == w {
            let i = choose|i: int| 0 <= i < changes.len() && (#[trigger] changes[i]).work_id@ == w;
            if i < head.len() {
                assert(head[i].work_id@ == w);
            }
        }
    }
}

/// What a candidate meets in a work that it changes.
#[derive(Debug)]
pub struct AffectedTaskImpact {
    pub work_id: String,
    pub external_key: String,
    pub work_runtime_state: String,
    pub execution_state: String,
    pub has_active_claim: bool,
    pub review_requirement: String,
}

/// A candidate may be published: it is approved, and the approval is of its current content.
pub open spec fn may_publish(
    state: CandidateState,
    approved_digest: Option<Seq<char>>,
    current_digest: Seq<char>,
) -> bool {
    state == CandidateState::Approved && approved_digest == Some(current_digest)
}

/// The digest that an approval is of.
pub open spec fn digest_approved(a: Option<PlanningApproval>) -> Option<Seq<char>> {
    match a {
        Some(p) => Some(p.candidate_digest@),
        None => None,
    }
}

/// A candidate that is edited needs a new approval: as a draft it is not published at all, and an
/// approval of other content never counts.
pub proof fn edits_need_a_new_approval(
    state: CandidateState,
    approved_digest: Seq<char>,
    edited_digest: Seq<char>,
)
    requires
        approved_digest != edited_digest,
    ensures
        !may_publish(state, Some(approved_digest), edited_digest),
        !may_publish(CandidateState::Drafting, Some(edited_digest), edited_digest),
{
}

/// The rules of the source, for one database.
pub struct SourceStore {
    pub pool: PgPool,
}

impl SourceStore {
    pub fn new(url: &str) -> (r: SourceStore)
        ensures
            r.pool.address() == url@,
    {
        SourceStore { pool: PgPool::new(url) }
    }

    /// A suggestion to store.
    pub fn submit_planning_suggestion(
        &self,
        codec: &str,
        project_id: &str,
        actor_id: &str,
        person_id: &str,
        baseline: &Baseline,
        submit: &SuggestionSubmit,
        fresh_id: &str,
    ) -> (r: PlanningSuggestion)
        ensures
            r.codec@ == codec@,
            r.suggestion_id@ == chosen_id(submit.predetermined_suggestion_id, fresh_id@),
            r.project_id@ == project_id@,
            r.author_person_id@ == person_id@,
            r.author_actor_id@ == actor_id@,
            r.rationale@ == submit.rationale@,
            r.version == 1,
            r.baseline_digest@ == baseline.digest@,
            r.baseline_epoch@ == baseline.epoch@,
            text::texts(r.affected_work_keys@) == text::texts(submit.affected_work_keys@),
            r.proposed_notes.model() == (if submit.proposed_notes.model() is Null {
                JsonView::Obj(json::no_fields())
            } else {
                submit.proposed_notes.model()
            }),
            r.state@ == "open"@,
    {
        let notes = match &submit.proposed_notes {
            Json::Null => Doc::new().json(),
            other => other.copy(),
        };
        PlanningSuggestion {
            codec: codec.to_owned(),
            suggestion_id: choose_id(&submit.predetermined_suggestion_id, fresh_id),
            project_id: project_id.to_owned(),
            author_person_id: person_id.to_owned(),
            author_actor_id: actor_id.to_owned(),
            rationale: submit.rationale.as_str().to_owned(),
            version: 1,
            baseline_digest: baseline.digest.as_str().to_owned(),
            baseline_epoch: baseline.epoch.as_str().to_owned(),
            affected_work_keys: text::copy_list(submit.affected_work_keys.as_slice()),
            proposed_notes: notes,
            state: "open".to_owned(),
        }
    }

    /// The answer to a suggestion.
    pub fn suggestion_document(&self, row: &SuggestionRow) -> (r: Json)
        ensures
            r.model() == suggestion_doc(*row),
    {
        Doc::new().put("suggestion_id", json::text(row.suggestion_id.as_str())).put(
            "version",
            json::number(row.version as i64),
        ).put("author_person_id", json::text(row.author_person_id.as_str())).put(
            "author_actor_id",
            json::text(row.author_actor_id.as_str()),
        ).put("rationale", json::text(row.rationale.as_str())).put(
            "baseline_digest",
            json::text(row.baseline_digest.as_str()),
        ).put("baseline_epoch", json::text(row.baseline_epoch.as_str())).put(
            "claimable",
            json::flag(false),
        ).put("adds_formal_work", json::flag(false)).put(
            "mutates_live_deps",
            json::flag(false),
        ).put("mutates_live_acceptance", json::flag(false)).put(
            "state",
            json::text(row.state.as_str()),
        ).json()
    }

    /// What is recorded of a suggestion.
    pub fn suggestion_summary(&self, s: &PlanningSuggestion) -> (r: Json)
        ensures
            r.model() == suggestion_summary_doc(*s),
    {
        Doc::new().put("suggestion_id", json::text(s.suggestion_id.as_str())).put(
            "baseline_digest",
            json::text(s.baseline_digest.as_str()),
        ).put("affected_work_keys", json::text_list(s.affected_work_keys.as_slice())).json()
    }

    /// The identity of a candidate to create.
    pub fn candidate_identity(&self, create: &DraftCandidateCreate, fresh_id: &str) -> (r: String)
        ensures
            r@ == chosen_id(create.predetermined_candidate_id, fresh_id@),
    {
        choose_id(&create.predetermined_candidate_id, fresh_id)
    }

    /// The answer where a candidate was created before under the same identity.
    pub fn resumed_document(&self, b: &CandidateBrief) -> (r: Json)
        ensures
            r.model() == resumed_doc(*b),
    {
        Doc::new().put("candidate_id", json::text(b.candidate_id.as_str())).put(
            "draft_revision",
            json::number(b.draft_revision as i64),
        ).put("candidate_digest", json::text(b.candidate_digest.as_str())).put(
            "state",
            json::text(b.state.as_str()),
        ).put("resumed", json::flag(true)).json()
    }

    /// A candidate to store: the first revision of a draft, against the current source.
    pub fn create_planning_candidate(
        &self,
        codec: &str,
        project_id: &str,
        actor_id: &str,
        person_id: &str,
        baseline: &Baseline,
        candidate_id: &str,
        create: DraftCandidateCreate,
    ) -> (r: PlanningCandidate)
        ensures
            r.codec@ == codec@,
            r.candidate_id@ == candidate_id@,
            r.project_id@ == project_id@,
            r.author_person_id@ == person_id@,
            r.author_actor_id@ == actor_id@,
            r.baseline_digest@ == baseline.digest@,
            r.baseline_epoch@ == baseline.epoch@,
            r.draft_revision == 1,
            r.changes == create.changes,
            r.suggestion_ids == create.suggestion_ids,
            r.state == CandidateState::Drafting,
            r.approval is None,
            r.allowed_spec_roots == create.allowed_spec_roots,
            text::texts(r.project_goal_keys@) == goal_keys(
                text::texts(create.project_goal_keys@),
            ),
    {
        let goals = if create.project_goal_keys.len() == 0 {
            let mut one: Vec<String> = Vec::new();
            one.push("delivery".to_owned());
            assert(text::texts(one@) =~= Seq::<Seq<char>>::empty().push("delivery"@));
            one
        } else {
            create.project_goal_keys
        };
        PlanningCandidate {
            codec: codec.to_owned(),
            candidate_id: candidate_id.to_owned(),
            project_id: project_id.to_owned(),
            author_person_id: person_id.to_owned(),
            author_actor_id: actor_id.to_owned(),
            baseline_digest: baseline.digest.as_str().to_owned(),
            baseline_epoch: baseline.epoch.as_str().to_owned(),
            draft_revision: 1,
            changes: create.changes,
            suggestion_ids: create.suggestion_ids,
            state: CandidateState::Drafting,
            approval: None,
            allowed_spec_roots: create.allowed_spec_roots,
            project_goal_keys: goals,
        }
    }

    /// The answer to a new candidate.
    pub fn created_document(&self, c: &PlanningCandidate, candidate_digest: &str, diff: Json) -> (r:
        Json)
        ensures
            r.model() == created_doc(
                c.candidate_id@,
                c.draft_revision as int,
                candidate_digest@,
                diff.model(),
            ),
    {
        put_head(c.candidate_id.as_str(), c.draft_revision, candidate_digest).put(
            "state",
            json::text("drafting"),
        ).put("diff", diff).put("hard_delete_history_allowed", json::flag(false)).put(
            "forge_completion_via_status_allowed",
            json::flag(false),
        ).json()
    }

    /// What is recorded of a new or an edited candidate.
    pub fn draft_summary(&self, c: &PlanningCandidate, candidate_digest: &str) -> (r: Json)
        ensures
            r.model() == JsonView::Obj(
                candidate_head(c.candidate_id@, c.draft_revision as int, candidate_digest@),
            ),
    {
        put_head(c.candidate_id.as_str(), c.draft_revision, candidate_digest).json()
    }

    /// The answer to an edit of a candidate.
    pub fn edit_planning_candidate(
        &self,
        c: &PlanningCandidate,
        candidate_digest: &str,
        diff: Json,
    ) -> (r: Json)
        ensures
            r.model() == edited_doc(
                c.candidate_id@,
                c.draft_revision as int,
                candidate_digest@,
                diff.model(),
            ),
    {
        put_head(c.candidate_id.as_str(), c.draft_revision, candidate_digest).put(
            "state",
            json::text("drafting"),
        ).put("prior_approval_cleared", json::flag(true)).put("diff", diff).json()
    }

    /// Whether a candidate may be previewed: only by one who may propose, edit, approve, publish or
    /// read works.
    pub fn admit_preview(
        &self,
        propose: bool,
        edit: bool,
        approve: bool,
        publish: bool,
        read: bool,
    ) -> (r: PgResult<()>)
        ensures
            error::checked(r) == (if propose || edit || approve || publish || read {
                Ok(())
            } else {
                Err(Fault::Forbidden)
            }),
    {
        if !(propose || edit || approve || publish || read) {
            return Err(PgError::Forbidden);
        }
        Ok(())
    }

    /// The answer to a preview of a candidate.
    pub fn preview_planning_candidate(&self, c: &PlanningCandidate, diff: Json) -> (r: Json)
        ensures
            r.model() == preview_doc(*c, diff.model()),
    {
        let approval = match &c.approval {
            None => json::null(),
            Some(p) => Doc::new().put("approval_id", json::text(p.approval_id.as_str())).put(
                "candidate_digest",
                json::text(p.candidate_digest.as_str()),
            ).put("approver_person_id", json::text(p.approver_person_id.as_str())).put(
                "approver_actor_id",
                json::text(p.approver_actor_id.as_str()),
            ).put("self_approved", json::flag(p.self_approved)).json(),
        };
        Doc::new().put("candidate_id", json::text(c.candidate_id.as_str())).put(
            "state",
            json::text(c.state.as_str()),
        ).put("draft_revision", json::number(c.draft_revision as i64)).put("diff", diff).put(
            "approval",
            approval,
        ).json()
    }

    /// A candidate with the approval of its digest.
    pub fn approve_planning_candidate(
        &self,
        candidate: PlanningCandidate,
        approval_id: &str,
        candidate_digest: &str,
        person_id: &str,
        actor_id: &str,
        self_approved: bool,
    ) -> (r: PlanningCandidate)
        ensures
            r.state == CandidateState::Approved,
            r.approval matches Some(a) && a.approval_id@ == approval_id@ && a.candidate_digest@
                == candidate_digest@ && a.approver_person_id@ == person_id@ && a.approver_actor_id@
                == actor_id@ && a.self_approved == self_approved,
            r == (PlanningCandidate { state: r.state, approval: r.approval, ..candidate }),
    {
        let mut candidate = candidate;
        candidate.approval = Some(
            PlanningApproval {
                approval_id: approval_id.to_owned(),
                candidate_digest: candidate_digest.to_owned(),
                approver_person_id: person_id.to_owned(),
                approver_actor_id: actor_id.to_owned(),
                self_approved,
            },
        );
        candidate.state = CandidateState::Approved;
        candidate
    }

    /// The answer to an approval.
    pub fn approved_document(
        &self,
        approval_id: &str,
        candidate_id: &str,
        candidate_digest: &str,
        draft_revision: u32,
        self_approved: bool,
        delivery_policy: &str,
    ) -> (r: Json)
        ensures
            r.model() == approved_doc(
                approval_id@,
                candidate_id@,
                candidate_digest@,
                draft_revision as int,
                self_approved,
                delivery_policy@,
            ),
    {
        Doc::new().put("approval_id", json::text(approval_id)).put(
            "candidate_id",
            json::text(candidate_id),
        ).put("candidate_digest", json::text(candidate_digest)).put(
            "draft_revision",
            json::number(draft_revision as i64),
        ).put("self_approved", json::flag(self_approved)).put("state", json::text("approved")).put(
            "delivery_completion_policy",
            json::text(delivery_policy),
        ).put("independent_review_downgraded", json::flag(false)).json()
    }

    /// What is recorded of an approval.
    pub fn approval_summary(
        &self,
        approval_id: &str,
        candidate_id: &str,
        candidate_digest: &str,
        self_approved: bool,
    ) -> (r: Json)
        ensures
            r.model() == approval_summary_doc(
                approval_id@,
                candidate_id@,
                candidate_digest@,
                self_approved,
            ),
    {
        Doc::new().put("approval_id", json::text(approval_id)).put(
            "candidate_id",
            json::text(candidate_id),
        ).put("candidate_digest", json::text(candidate_digest)).put(
            "self_approved",
            json::flag(self_approved),
        ).json()
    }

    /// Whether a candidate may be published: only one that is approved.
    pub fn admit_publication(&self, candidate: &PlanningCandidate) -> (r: PgResult<()>)
        ensures
            error::checked(r) == (if candidate.state == CandidateState::Approved {
                Ok(())
            } else {
                Err(Fault::CandidateNotApproved)
            }),
    {
        if candidate.state != CandidateState::Approved {
            return Err(PgError::CandidateNotApproved);
        }
        Ok(())
    }

    /// A candidate to publish, with the approval of its current digest. An approval of an earlier
    /// digest does not count.
    pub fn publish_planning_candidate(
        &self,
        candidate: PlanningCandidate,
        current_digest: &str,
        approval: Option<PlanningApproval>,
    ) -> (r: PgResult<PlanningCandidate>)
        ensures
            match r {
                Ok(c) => {
                    &&& may_publish(candidate.state, digest_approved(approval), current_digest@)
                    &&& c == (PlanningCandidate { approval, ..candidate })
                },
                Err(e) => {
                    &&& !may_publish(candidate.state, digest_approved(approval), current_digest@)
                    &&& e@ == Fault::CandidateNotApproved
                },
            },
    {
        self.admit_publication(&candidate)?;
        let a = match approval {
            Some(a) => a,
            None => {
                return Err(PgError::CandidateNotApproved);
            },
        };
        if !text::same(a.candidate_digest.as_str(), current_digest) {
            return Err(PgError::CandidateNotApproved);
        }
        let mut candidate = candidate;
        candidate.approval = Some(a);
        Ok(candidate)
    }

    /// The answer to a publication.
    pub fn published_document(
        &self,
        receipt_id: &str,
        candidate_id: &str,
        candidate_digest: &str,
        draft_revision: u32,
        approval_id: &str,
    ) -> (r: Json)
        ensures
            r.model() == published_doc(
                receipt_id@,
                candidate_id@,
                candidate_digest@,
                draft_revision as int,
                approval_id@,
            ),
    {
        Doc::new().put("receipt_id", json::text(receipt_id)).put(
            "candidate_id",
            json::text(candidate_id),
        ).put("candidate_digest", json::text(candidate_digest)).put(
            "draft_revision",
            json::number(draft_revision as i64),
        ).put("approval_id", json::text(approval_id)).put("state", json::text("published")).put(
            "source_writeback_pending",
            json::flag(true),
        ).put("source_bytes_written", json::flag(false)).json()
    }

    /// What is recorded of a publication.
    pub fn publication_summary(
        &self,
        receipt_id: &str,
        candidate_id: &str,
        candidate_digest: &str,
        approval_id: &str,
    ) -> (r: Json)
        ensures
            r.model() == publication_summary_doc(
                receipt_id@,
                candidate_id@,
                candidate_digest@,
                approval_id@,
            ),
    {
        Doc::new().put("receipt_id", json::text(receipt_id)).put(
            "candidate_id",
            json::text(candidate_id),
        ).put("candidate_digest", json::text(candidate_digest)).put(
            "approval_id",
            json::text(approval_id),
        ).json()
    }

    /// The history of planning is never deleted.
    pub fn delete_planning_history(&self) -> (r: PgResult<()>)
        ensures
            error::checked(r) == Err::<(), Fault>(
                Fault::Protocol("hard-delete of planning history is forbidden"@),
            ),
    {
        Err(protocol("hard-delete of planning history is forbidden"))
    }

    /// What planning offers.
    pub fn planning_capabilities(codec: &str) -> (r: Json)
        ensures
            r.model() == capabilities_doc(codec@),
    {
        let mut actions: Vec<Json> = Vec::new();
        actions.push(json::text("planning.propose"));
        actions.push(json::text("planning.edit_draft"));
        actions.push(json::text("planning.approve"));
        actions.push(json::text("planning.publish"));
        assert(json::models(actions@) =~= Seq::<JsonView>::empty().push(
            JsonView::Str("planning.propose"@),
        ).push(JsonView::Str("planning.edit_draft"@)).push(JsonView::Str("planning.approve"@)).push(
            JsonView::Str("planning.publish"@),
        ));
        Doc::new().put("codec", json::text(codec)).put("actions", json::list(actions)).put(
            "suggestion_claimable",
            json::flag(false),
        ).put("suggestion_adds_formal_work", json::flag(false)).put(
            "hard_delete_history_allowed",
            json::flag(false),
        ).put("forge_completion_via_status_allowed", json::flag(false)).put(
            "approve_publish_separated",
            json::flag(true),
        ).put("approval_bound_to_candidate_digest", json::flag(true)).put(
            "source_writeback",
            json::text("tmcp_022"),
        ).json()
    }

    /// Whether a candidate still stands on the current source. Where the source has moved on, a
    /// new candidate is needed.
    pub fn ensure_baseline_current(&self, candidate: &PlanningCandidate, live: &Baseline) -> (r:
        PgResult<()>)
        ensures
            error::checked(r) == (if candidate.baseline_digest@ == live.digest@
                && candidate.baseline_epoch@ == live.epoch@ {
                Ok(())
            } else {
                Err(Fault::PreconditionsChanged)
            }),
    {
        if !text::same(candidate.baseline_digest.as_str(), live.digest.as_str()) || !text::same(
            candidate.baseline_epoch.as_str(),
            live.epoch.as_str(),
        ) {
            return Err(PgError::PreconditionsChanged);
        }
        Ok(())
    }

    /// The source that drafts are made against: the active snapshot, or a fixed one where nothing
    /// is active yet.
    pub fn current_baseline(&self, snapshot: &str, manifest_digest: &str, epoch: &str) -> (r:
        Baseline)
        ensures
            r.epoch@ == epoch@,
            r.digest@ == (if snapshot@.len() == 0 {
                "sha256:"@ + digest::hex_form(digest::sha256(encode_utf8("empty-baseline"@)))
            } else {
                manifest_digest@
            }),
    {
        if snapshot.is_empty() {
            let empty = digest::sha256_hex("empty-baseline".as_bytes());
            return Baseline {
                digest: text::plus("sha256:".to_owned(), empty.as_str()),
                epoch: epoch.to_owned(),
            };
        }
        Baseline { digest: manifest_digest.to_owned(), epoch: epoch.to_owned() }
    }

    /// Whether the one who asks has any grant for what is asked.
    pub fn admit_grants(&self, any: bool) -> (r: PgResult<()>)
        ensures
            error::checked(r) == (if any {
                Ok(())
            } else {
                Err(Fault::Forbidden)
            }),
    {
        if !any {
            return Err(PgError::Forbidden);
        }
        Ok(())
    }

    /// Whether a work that a candidate changes lies within the grants: the workstream that owns it
    /// must be granted, and the action on the work allowed. A work that no workstream owns is
    /// covered by having any grant.
    pub fn admit_work(&self, stream_granted: Option<bool>, action: PgResult<()>) -> (r: PgResult<
        (),
    >)
        ensures
            match stream_granted {
                None => r is Ok,
                Some(false) => error::checked(r) == Err::<(), Fault>(Fault::Forbidden),
                Some(true) => r == action,
            },
    {
        match stream_granted {
            None => Ok(()),
            Some(granted) => {
                if !granted {
                    return Err(PgError::Forbidden);
                }
                action
            },
        }
    }

    /// Whether a candidate was found.
    pub fn lock_candidate(&self, found: bool) -> (r: PgResult<()>)
        ensures
            error::checked(r) == (if found {
                Ok(())
            } else {
                Err(Fault::Protocol("planning candidate not found"@))
            }),
    {
        if !found {
            return Err(protocol("planning candidate not found"));
        }
        Ok(())
    }

    /// A stored candidate.
    pub fn load_candidate(
        &self,
        codec: &str,
        project_id: &str,
        candidate_id: &str,
        row: Option<CandidateRow>,
        changes: Vec<DraftChange>,
    ) -> (r: PgResult<PlanningCandidate>)
        ensures
            match r {
                Ok(c) => {
                    &&& row is Some
                    &&& row_fault(row->Some_0) is None
                    &&& is_row(c, codec@, project_id@, candidate_id@, row->Some_0, changes)
                },
                Err(e) => if row is None {
                    e@ == Fault::Protocol("planning candidate not found"@)
                } else {
                    row_fault(row->Some_0) == Some(e@)
                },
            },
    {
        let row = match row {
            Some(row) => row,
            None => {
                return Err(protocol("planning candidate not found"));
            },
        };
        let state = CandidateState::parse(row.state.as_str())?;
        let suggestion_ids = json_string_list(&row.suggestion_ids)?;
        let allowed_spec_roots = json_string_list(&row.allowed_spec_roots)?;
        let project_goal_keys = json_string_list(&row.project_goal_keys)?;
        Ok(
            PlanningCandidate {
                codec: codec.to_owned(),
                candidate_id: candidate_id.to_owned(),
                project_id: project_id.to_owned(),
                author_person_id: row.author_person_id,
                author_actor_id: row.author_actor_id,
                baseline_digest: row.baseline_digest,
                baseline_epoch: row.baseline_epoch,
                draft_revision: row.draft_revision,
                changes,
                suggestion_ids,
                state,
                approval: None,
                allowed_spec_roots,
                project_goal_keys,
            },
        )
    }

    /// Whether a candidate still has the content that it was stored with. Only a draft may differ,
    /// since it is about to be stored anew.
    pub fn check_content(&self, state: CandidateState, computed: &str, stored: &str) -> (r: PgResult<
        (),
    >)
        ensures
            error::checked(r) == (if computed@ != stored@ && (state == CandidateState::Approved
                || state == CandidateState::Published) {
                Err(Fault::StaleApproval)
            } else {
                Ok(())
            }),
    {
        if !text::same(computed, stored) && (state == CandidateState::Approved || state
            == CandidateState::Published) {
            return Err(PgError::StaleApproval);
        }
        Ok(())
    }

    /// What a candidate meets in a work that it changes.
    pub fn impact(
        &self,
        change: &DraftChange,
        runtime_state: Option<String>,
        active_claims: i64,
        execution_state: Option<String>,
    ) -> (r: AffectedTaskImpact)
        ensures
            r.work_id@ == change.work_id@,
            r.external_key@ == change.external_key@,
            r.work_runtime_state@ == (match runtime_state {
                Some(s) => s@,
                None => "none"@,
            }),
            r.execution_state@ == (match execution_state {
                Some(s) => s@,
                None => "none"@,
            }),
            r.has_active_claim == (active_claims > 0),
            r.review_requirement@ == change.completion_policy@,
    {
        let work_runtime_state = match runtime_state {
            Some(s) => s,
            None => "none".to_owned(),
        };
        let execution_state = match execution_state {
            Some(s) => s,
            None => "none".to_owned(),
        };
        AffectedTaskImpact {
            work_id: change.work_id.as_str().to_owned(),
            external_key: change.external_key.as_str().to_owned(),
            work_runtime_state,
            execution_state,
            has_active_claim: active_claims > 0,
            review_requirement: change.completion_policy.as_str().to_owned(),
        }
    }
}

/// Whatever a suggestion says, the answer to it says that nothing of it can be claimed, that it
/// adds no work, and that nothing live has changed.
pub proof fn suggestions_change_nothing(row: SuggestionRow)
    ensures
        json::bool_field(suggestion_doc(row), "claimable"@) == Some(false),
        json::bool_field(suggestion_doc(row), "adds_formal_work"@) == Some(false),
        json::bool_field(suggestion_doc(row), "mutates_live_deps"@) == Some(false),
        json::bool_field(suggestion_doc(row), "mutates_live_acceptance"@) == Some(false),
{
    let fields = suggestion_doc(row)->Obj_0;
    reveal_strlit("suggestion_id");
    reveal_strlit("version");
    reveal_strlit("author_person_id");
    reveal_strlit("author_actor_id");
    reveal_strlit("rationale");
    reveal_strlit("baseline_digest");
    reveal_strlit("baseline_epoch");
    reveal_strlit("claimable");
    reveal_strlit("adds_formal_work");
    reveal_strlit("mutates_live_deps");
    reveal_strlit("mutates_live_acceptance");
    assert("suggestion_id"@.len() == 13);
    assert("version"@.len() == 7);
    assert("author_person_id"@.len() == 16);
    assert("author_person_id"@[1] == 'u');
    assert("author_actor_id"@.len() == 15);
    assert("rationale"@.len() == 9);
    assert("rationale"@[0] == 'r');
    assert("baseline_digest"@.len() == 15);
    assert("baseline_epoch"@.len() == 14);
    assert("claimable"@.len() == 9);
    assert("claimable"@[0] == 'c');
    assert("adds_formal_work"@.len() == 16);
    assert("adds_formal_work"@[1] == 'd');
    assert("mutates_live_deps"@.len() == 17);
    assert("mutates_live_acceptance"@.len() == 23);
    json::field_is_first(fields, "claimable"@, 7);
    json::field_is_first(fields, "adds_formal_work"@, 8);
    json::field_is_first(fields, "mutates_live_deps"@, 9);
    json::field_is_first(fields, "mutates_live_acceptance"@, 10);
}

/// A candidate is published exactly where it is approved, and the approval is of what it holds now.
pub proof fn publications_are_of_approved_content(
    state: CandidateState,
    approved: Option<Seq<char>>,
    now: Seq<char>,
)
    ensures
        may_publish(state, approved, now) <==> state is Approved && approved is Some && approved->Some_0
            == now,
        may_publish(CandidateState::Approved, Some(now), now),
        !may_publish(state, None, now),
        !may_publish(CandidateState::Published, approved, now),
        !may_publish(CandidateState::Superseded, approved, now),
{
}

/// The approval that counts is that of the content which was approved.
pub proof fn approvals_are_of_their_content(a: PlanningApproval)
    ensures
        digest_approved(Some(a)) == Some(a.candidate_digest@),
        digest_approved(None) is None,
{
}

/// A submission that is resumed keeps its identity; any other gets a new one.
pub proof fn resumed_submissions_keep_their_identity(given: String, fresh: Seq<char>, i: int)
    requires
        0 <= i < given@.len(),
    ensures
        !text::is_space(given@[i]) ==> chosen_id(Some(given), fresh) == given@,
        text::is_blank(given@) ==> chosen_id(Some(given), fresh) == fresh,
        chosen_id(None, fresh) == fresh,
{
}

/// A plan without a goal is for delivery.
pub proof fn plans_have_a_goal(given: Seq<Seq<char>>)
    ensures
        given.len() > 0 ==> goal_keys(given) == given,
        given.len() == 0 ==> goal_keys(given).len() == 1 && goal_keys(given)[0] == "delivery"@,
        goal_keys(given).len() > 0,
{
}

/// A refusal for want of permission is told as such, and as a downgrade where it speaks of one. Any
/// other keeps its words.
pub proof fn refusals_are_told_apart(m: String)
    ensures
        text::holds(m@, "downgraded"@) ==> team_fault(TeamRefusal::PermissionDenied(m))
            == Fault::PolicyDowngrade,
        !text::holds(m@, "downgraded"@) ==> team_fault(TeamRefusal::PermissionDenied(m))
            == Fault::Forbidden,
        team_fault(TeamRefusal::Other(m)) == Fault::Protocol(m@),
{
}

/// A stored list is read exactly where it is a list of texts, each as it is and in its place.
pub proof fn lists_of_texts_are_read(v: JsonView, i: int)
    ensures
        string_list(v) is Ok <==> (v matches JsonView::Arr(items) && forall|k: int|
            0 <= k < items.len() ==> (#[trigger] items[k]) is Str),
        string_list(v) matches Ok(list) ==> (v matches JsonView::Arr(items) && list.len() == items.len()
            && (0 <= i < items.len() ==> items[i] == JsonView::Str(list[i]))),
        !(v is Arr) ==> string_list(v) == Err::<Seq<Seq<char>>, Fault>(
            Fault::Protocol("expected json string array"@),
        ),
        v is Arr && string_list(v) is Err ==> string_list(v) == Err::<Seq<Seq<char>>, Fault>(
            Fault::Protocol("expected string in json array"@),
        ),
{
    if let JsonView::Arr(items) = v {
        if 0 <= i < items.len() && string_list(v) is Ok {
            assert(items[i] is Str);
        }
    }
}

/// A stored candidate is read exactly where its state is known and its lists are lists of texts.
pub proof fn candidates_are_read_whole(row: CandidateRow)
    ensures
        row_fault(row) is None <==> (row.state@ == "drafting"@ || row.state@ == "approved"@ || row.state@
            == "published"@ || row.state@ == "superseded"@) && string_list(row.suggestion_ids.model()) is Ok
            && string_list(row.allowed_spec_roots.model()) is Ok && string_list(
            row.project_goal_keys.model(),
        ) is Ok,
        row.state@ != "drafting"@ && row.state@ != "approved"@ && row.state@ != "published"@ && row.state@
            != "superseded"@ ==> row_fault(row) == Some(
            Fault::Protocol("unknown planning candidate state: "@ + row.state@),
        ),
        row_fault(row) matches Some(f) ==> f == Fault::Protocol("expected json string array"@) || f
            == Fault::Protocol("expected string in json array"@) || f == Fault::Protocol("unknown planning candidate state: "@ + row.state@),
{
}

/// A candidate that was read is the stored one, in each of its values, and has no approval yet.
pub proof fn read_candidates_are_the_stored_ones(
    c: PlanningCandidate,
    codec: Seq<char>,
    project_id: Seq<char>,
    candidate_id: Seq<char>,
    row: CandidateRow,
    changes: Vec<DraftChange>,
)
    requires
        is_row(c, codec, project_id, candidate_id, row, changes),
    ensures
        c.codec@ == codec,
        c.project_id@ == project_id,
        c.candidate_id@ == candidate_id,
        c.author_person_id@ == row.author_person_id@,
        c.author_actor_id@ == row.author_actor_id@,
        c.baseline_digest@ == row.baseline_digest@,
        c.baseline_epoch@ == row.baseline_epoch@,
        c.draft_revision == row.draft_revision,
        c.changes == changes,
        c.approval is None,
        c.state is Drafting <==> row.state@ == "drafting"@,
        c.state is Approved <==> row.state@ == "approved"@,
        c.state is Published <==> row.state@ == "published"@,
        c.state is Superseded <==> row.state@ == "superseded"@,
        string_list(row.suggestion_ids.model()) == Ok::<Seq<Seq<char>>, Fault>(
            text::texts(c.suggestion_ids@),
        ),
        string_list(row.allowed_spec_roots.model()) == Ok::<Seq<Seq<char>>, Fault>(
            text::texts(c.allowed_spec_roots@),
        ),
        string_list(row.project_goal_keys.model()) == Ok::<Seq<Seq<char>>, Fault>(
            text::texts(c.project_goal_keys@),
        ),
{
    candidate_states_read_back(CandidateState::Drafting);
    candidate_states_read_back(CandidateState::Approved);
    candidate_states_read_back(CandidateState::Published);
    candidate_states_read_back(CandidateState::Superseded);
}

/// The names under which the states of a candidate are stored.
pub proof fn candidate_states_are_spelled()
    ensures
        CandidateState::Drafting.name() == "drafting"@,
        CandidateState::Approved.name() == "approved"@,
        CandidateState::Published.name() == "published"@,
        CandidateState::Superseded.name() == "superseded"@,
{
}

/// A preview tells the approval that a candidate has, with who gave it and for what.
pub proof fn approvals_are_previewed(p: PlanningApproval)
    ensures
        approval_item(None) == JsonView::Null,
        json::field(approval_item(Some(p)), "approval_id"@) == Some(JsonView::Str(p.approval_id@)),
        json::field(approval_item(Some(p)), "candidate_digest"@) == Some(
            JsonView::Str(p.candidate_digest@),
        ),
        json::field(approval_item(Some(p)), "approver_person_id"@) == Some(
            JsonView::Str(p.approver_person_id@),
        ),
        json::field(approval_item(Some(p)), "approver_actor_id"@) == Some(
            JsonView::Str(p.approver_actor_id@),
        ),
        json::field(approval_item(Some(p)), "self_approved"@) == Some(JsonView::Bool(p.self_approved)),
{
    reveal_strlit("approval_id");
    reveal_strlit("candidate_digest");
    reveal_strlit("approver_person_id");
    reveal_strlit("approver_actor_id");
    reveal_strlit("self_approved");
    assert("approval_id"@.len() == 11 && "candidate_digest"@.len() == 16 && "approver_person_id"@.len()
        == 18 && "approver_actor_id"@.len() == 17 && "self_approved"@.len() == 13);
    let f = approval_item(Some(p))->Obj_0;
    json::field_is_first(f, "approval_id"@, 0);
    json::field_is_first(f, "candidate_digest"@, 1);
    json::field_is_first(f, "approver_person_id"@, 2);
    json::field_is_first(f, "approver_actor_id"@, 3);
    json::field_is_first(f, "self_approved"@, 4);
}

/// A new candidate is told as a draft, and that neither its history nor its status can be forged.
pub proof fn created_candidates_are_told(candidate_id: Seq<char>, draft_revision: int, candidate_digest: Seq<char>, diff: JsonView)
    ensures
        json::field(created_doc(candidate_id, draft_revision, candidate_digest, diff), "candidate_id"@) == Some(JsonView::Str(candidate_id)),
        json::field(created_doc(candidate_id, draft_revision, candidate_digest, diff), "draft_revision"@) == Some(JsonView::Int(draft_revision)),
        json::field(created_doc(candidate_id, draft_revision, candidate_digest, diff), "candidate_digest"@) == Some(JsonView::Str(candidate_digest)),
        json::field(created_doc(candidate_id, draft_revision, candidate_digest, diff), "state"@) == Some(JsonView::Str("drafting"@)),
        json::field(created_doc(candidate_id, draft_revision, candidate_digest, diff), "diff"@) == Some(diff),
        json::field(created_doc(candidate_id, draft_revision, candidate_digest, diff), "hard_delete_history_allowed"@) == Some(JsonView::Bool(false)),
        json::field(created_doc(candidate_id, draft_revision, candidate_digest, diff), "forge_completion_via_status_allowed"@) == Some(JsonView::Bool(false)),
{
    reveal_strlit("candidate_id");
    reveal_strlit("draft_revision");
    reveal_strlit("candidate_digest");
    reveal_strlit("state");
    reveal_strlit("diff");
    reveal_strlit("hard_delete_history_allowed");
    reveal_strlit("forge_completion_via_status_allowed");
    assert("candidate_id"@.len() == 12);
    assert("draft_revision"@.len() == 14);
    assert("candidate_digest"@.len() == 16);
    assert("state"@.len() == 5);
    assert("diff"@.len() == 4);
    assert("hard_delete_history_allowed"@.len() == 27);
    assert("forge_completion_via_status_allowed"@.len() == 35);
    let f = created_doc(candidate_id, draft_revision, candidate_digest, diff)->Obj_0;
    json::field_is_first(f, "candidate_id"@, 0);
    json::field_is_first(f, "draft_revision"@, 1);
    json::field_is_first(f, "candidate_digest"@, 2);
    json::field_is_first(f, "state"@, 3);
    json::field_is_first(f, "diff"@, 4);
    json::field_is_first(f, "hard_delete_history_allowed"@, 5);
    json::field_is_first(f, "forge_completion_via_status_allowed"@, 6);
}

/// An edited candidate is told as a draft again, without its approval.
pub proof fn edited_candidates_are_told(candidate_id: Seq<char>, draft_revision: int, candidate_digest: Seq<char>, diff: JsonView)
    ensures
        json::field(edited_doc(candidate_id, draft_revision, candidate_digest, diff), "candidate_id"@) == Some(JsonView::Str(candidate_id)),
        json::field(edited_doc(candidate_id, draft_revision, candidate_digest, diff), "draft_revision"@) == Some(JsonView::Int(draft_revision)),
        json::field(edited_doc(candidate_id, draft_revision, candidate_digest, diff), "candidate_digest"@) == Some(JsonView::Str(candidate_digest)),
        json::field(edited_doc(candidate_id, draft_revision, candidate_digest, diff), "state"@) == Some(JsonView::Str("drafting"@)),
        json::field(edited_doc(candidate_id, draft_revision, candidate_digest, diff), "prior_approval_cleared"@) == Some(JsonView::Bool(true)),
        json::field(edited_doc(candidate_id, draft_revision, candidate_digest, diff), "diff"@) == Some(diff),
{
    reveal_strlit("candidate_id");
    reveal_strlit("draft_revision");
    reveal_strlit("candidate_digest");
    reveal_strlit("state");
    reveal_strlit("prior_approval_cleared");
    reveal_strlit("diff");
    assert("candidate_id"@.len() == 12);
    assert("draft_revision"@.len() == 14);
    assert("candidate_digest"@.len() == 16);
    assert("state"@.len() == 5);
    assert("prior_approval_cleared"@.len() == 22);
    assert("diff"@.len() == 4);
    let f = edited_doc(candidate_id, draft_revision, candidate_digest, diff)->Obj_0;
    json::field_is_first(f, "candidate_id"@, 0);
    json::field_is_first(f, "draft_revision"@, 1);
    json::field_is_first(f, "candidate_digest"@, 2);
    json::field_is_first(f, "state"@, 3);
    json::field_is_first(f, "prior_approval_cleared"@, 4);
    json::field_is_first(f, "diff"@, 5);
}

/// The receipt of a planning command names its request and holds its result.
pub proof fn planning_receipts_are_told(b: PlanningCommandBind, result: JsonView)
    ensures
        json::field(receipt_doc(b, result), "protocol"@) == Some(JsonView::Str(PLANNING_RECEIPT_PROTOCOL@)),
        json::field(receipt_doc(b, result), "request_id"@) == Some(JsonView::Str(b.request_id@)),
        json::field(receipt_doc(b, result), "op"@) == Some(JsonView::Str(b.op@)),
        json::field(receipt_doc(b, result), "request_hash"@) == Some(JsonView::Str(b.request_hash@)),
        json::field(receipt_doc(b, result), "result"@) == Some(result),
        json::field(receipt_doc(b, result), "already_recorded"@) == Some(JsonView::Bool(false)),
{
    reveal_strlit("protocol");
    reveal_strlit("request_id");
    reveal_strlit("op");
    reveal_strlit("request_hash");
    reveal_strlit("result");
    reveal_strlit("already_recorded");
    assert("protocol"@.len() == 8);
    assert("request_id"@.len() == 10);
    assert("op"@.len() == 2);
    assert("request_hash"@.len() == 12);
    assert("result"@.len() == 6);
    assert("already_recorded"@.len() == 16);
    let f = receipt_doc(b, result)->Obj_0;
    json::field_is_first(f, "protocol"@, 0);
    json::field_is_first(f, "request_id"@, 1);
    json::field_is_first(f, "op"@, 2);
    json::field_is_first(f, "request_hash"@, 3);
    json::field_is_first(f, "result"@, 4);
    json::field_is_first(f, "already_recorded"@, 5);
}

/// A suggestion is told with each of its values under the name of the value.
pub proof fn suggestions_are_told(row: SuggestionRow)
    ensures
        json::field(suggestion_doc(row), "suggestion_id"@) == Some(JsonView::Str(row.suggestion_id@)),
        json::field(suggestion_doc(row), "version"@) == Some(JsonView::Int(row.version as int)),
        json::field(suggestion_doc(row), "author_person_id"@) == Some(JsonView::Str(row.author_person_id@)),
        json::field(suggestion_doc(row), "author_actor_id"@) == Some(JsonView::Str(row.author_actor_id@)),
        json::field(suggestion_doc(row), "rationale"@) == Some(JsonView::Str(row.rationale@)),
        json::field(suggestion_doc(row), "baseline_digest"@) == Some(JsonView::Str(row.baseline_digest@)),
        json::field(suggestion_doc(row), "baseline_epoch"@) == Some(JsonView::Str(row.baseline_epoch@)),
        json::field(suggestion_doc(row), "claimable"@) == Some(JsonView::Bool(false)),
        json::field(suggestion_doc(row), "adds_formal_work"@) == Some(JsonView::Bool(false)),
        json::field(suggestion_doc(row), "mutates_live_deps"@) == Some(JsonView::Bool(false)),
        json::field(suggestion_doc(row), "mutates_live_acceptance"@) == Some(JsonView::Bool(false)),
        json::field(suggestion_doc(row), "state"@) == Some(JsonView::Str(row.state@)),
{
    reveal_strlit("suggestion_id");
    reveal_strlit("version");
    reveal_strlit("author_person_id");
    reveal_strlit("author_actor_id");
    reveal_strlit("rationale");
    reveal_strlit("baseline_digest");
    reveal_strlit("baseline_epoch");
    reveal_strlit("claimable");
    reveal_strlit("adds_formal_work");
    reveal_strlit("mutates_live_deps");
    reveal_strlit("mutates_live_acceptance");
    reveal_strlit("state");
    assert("suggestion_id"@.len() == 13);
    assert("version"@.len() == 7);
    assert("author_person_id"@.len() == 16);
    assert("author_actor_id"@.len() == 15);
    assert("rationale"@.len() == 9);
    assert("baseline_digest"@.len() == 15);
    assert("baseline_epoch"@.len() == 14);
    assert("claimable"@.len() == 9);
    assert("adds_formal_work"@.len() == 16);
    assert("mutates_live_deps"@.len() == 17);
    assert("mutates_live_acceptance"@.len() == 23);
    assert("state"@.len() == 5);
    assert("author_person_id"@[1] == 'u');
    assert("adds_formal_work"@[1] == 'd');
    assert("author_actor_id"@[0] == 'a');
    assert("baseline_digest"@[0] == 'b');
    assert("rationale"@[0] == 'r');
    assert("claimable"@[0] == 'c');
    let f = suggestion_doc(row)->Obj_0;
    json::field_is_first(f, "suggestion_id"@, 0);
    json::field_is_first(f, "version"@, 1);
    json::field_is_first(f, "author_person_id"@, 2);
    json::field_is_first(f, "author_actor_id"@, 3);
    json::field_is_first(f, "rationale"@, 4);
    json::field_is_first(f, "baseline_digest"@, 5);
    json::field_is_first(f, "baseline_epoch"@, 6);
    json::field_is_first(f, "claimable"@, 7);
    json::field_is_first(f, "adds_formal_work"@, 8);
    json::field_is_first(f, "mutates_live_deps"@, 9);
    json::field_is_first(f, "mutates_live_acceptance"@, 10);
    json::field_is_first(f, "state"@, 11);
}

/// The summary of a suggestion names it, what it is based on and what it affects.
pub proof fn suggestions_are_summed_up(s: PlanningSuggestion)
    ensures
        json::field(suggestion_summary_doc(s), "suggestion_id"@) == Some(JsonView::Str(s.suggestion_id@)),
        json::field(suggestion_summary_doc(s), "baseline_digest"@) == Some(JsonView::Str(s.baseline_digest@)),
        json::field(suggestion_summary_doc(s), "affected_work_keys"@) == Some(json::text_items(text::texts(s.affected_work_keys@))),
{
    reveal_strlit("suggestion_id");
    reveal_strlit("baseline_digest");
    reveal_strlit("affected_work_keys");
    assert("suggestion_id"@.len() == 13);
    assert("baseline_digest"@.len() == 15);
    assert("affected_work_keys"@.len() == 18);
    let f = suggestion_summary_doc(s)->Obj_0;
    json::field_is_first(f, "suggestion_id"@, 0);
    json::field_is_first(f, "baseline_digest"@, 1);
    json::field_is_first(f, "affected_work_keys"@, 2);
}

/// A candidate that was made before is told as it stands, and as resumed.
pub proof fn resumed_candidates_are_told(b: CandidateBrief)
    ensures
        json::field(resumed_doc(b), "candidate_id"@) == Some(JsonView::Str(b.candidate_id@)),
        json::field(resumed_doc(b), "draft_revision"@) == Some(JsonView::Int(b.draft_revision as int)),
        json::field(resumed_doc(b), "candidate_digest"@) == Some(JsonView::Str(b.candidate_digest@)),
        json::field(resumed_doc(b), "state"@) == Some(JsonView::Str(b.state@)),
        json::field(resumed_doc(b), "resumed"@) == Some(JsonView::Bool(true)),
{
    reveal_strlit("candidate_id");
    reveal_strlit("draft_revision");
    reveal_strlit("candidate_digest");
    reveal_strlit("state");
    reveal_strlit("resumed");
    assert("candidate_id"@.len() == 12);
    assert("draft_revision"@.len() == 14);
    assert("candidate_digest"@.len() == 16);
    assert("state"@.len() == 5);
    assert("resumed"@.len() == 7);
    let f = resumed_doc(b)->Obj_0;
    json::field_is_first(f, "candidate_id"@, 0);
    json::field_is_first(f, "draft_revision"@, 1);
    json::field_is_first(f, "candidate_digest"@, 2);
    json::field_is_first(f, "state"@, 3);
    json::field_is_first(f, "resumed"@, 4);
}

/// A preview tells the candidate as it stands, what it changes and its approval.
pub proof fn previews_are_told(c: PlanningCandidate, diff: JsonView)
    ensures
        json::field(preview_doc(c, diff), "candidate_id"@) == Some(JsonView::Str(c.candidate_id@)),
        json::field(preview_doc(c, diff), "state"@) == Some(JsonView::Str(c.state.name())),
        json::field(preview_doc(c, diff), "draft_revision"@) == Some(JsonView::Int(c.draft_revision as int)),
        json::field(preview_doc(c, diff), "diff"@) == Some(diff),
        json::field(preview_doc(c, diff), "approval"@) == Some(approval_item(c.approval)),
{
    reveal_strlit("candidate_id");
    reveal_strlit("state");
    reveal_strlit("draft_revision");
    reveal_strlit("diff");
    reveal_strlit("approval");
    assert("candidate_id"@.len() == 12);
    assert("state"@.len() == 5);
    assert("draft_revision"@.len() == 14);
    assert("diff"@.len() == 4);
    assert("approval"@.len() == 8);
    let f = preview_doc(c, diff)->Obj_0;
    json::field_is_first(f, "candidate_id"@, 0);
    json::field_is_first(f, "state"@, 1);
    json::field_is_first(f, "draft_revision"@, 2);
    json::field_is_first(f, "diff"@, 3);
    json::field_is_first(f, "approval"@, 4);
}

/// An approval names what was approved, and never lowers what has to be looked at independently.
pub proof fn approvals_are_told(approval_id: Seq<char>, candidate_id: Seq<char>, candidate_digest: Seq<char>, draft_revision: int, self_approved: bool, delivery_policy: Seq<char>)
    ensures
        json::field(approved_doc(approval_id, candidate_id, candidate_digest, draft_revision, self_approved, delivery_policy), "approval_id"@) == Some(JsonView::Str(approval_id)),
        json::field(approved_doc(approval_id, candidate_id, candidate_digest, draft_revision, self_approved, delivery_policy), "candidate_id"@) == Some(JsonView::Str(candidate_id)),
        json::field(approved_doc(approval_id, candidate_id, candidate_digest, draft_revision, self_approved, delivery_policy), "candidate_digest"@) == Some(JsonView::Str(candidate_digest)),
        json::field(approved_doc(approval_id, candidate_id, candidate_digest, draft_revision, self_approved, delivery_policy), "draft_revision"@) == Some(JsonView::Int(draft_revision)),
        json::field(approved_doc(approval_id, candidate_id, candidate_digest, draft_revision, self_approved, delivery_policy), "self_approved"@) == Some(JsonView::Bool(self_approved)),
        json::field(approved_doc(approval_id, candidate_id, candidate_digest, draft_revision, self_approved, delivery_policy), "state"@) == Some(JsonView::Str("approved"@)),
        json::field(approved_doc(approval_id, candidate_id, candidate_digest, draft_revision, self_approved, delivery_policy), "delivery_completion_policy"@) == Some(JsonView::Str(delivery_policy)),
        json::field(approved_doc(approval_id, candidate_id, candidate_digest, draft_revision, self_approved, delivery_policy), "independent_review_downgraded"@) == Some(JsonView::Bool(false)),
{
    reveal_strlit("approval_id");
    reveal_strlit("candidate_id");
    reveal_strlit("candidate_digest");
    reveal_strlit("draft_revision");
    reveal_strlit("self_approved");
    reveal_strlit("state");
    reveal_strlit("delivery_completion_policy");
    reveal_strlit("independent_review_downgraded");
    assert("approval_id"@.len() == 11);
    assert("candidate_id"@.len() == 12);
    assert("candidate_digest"@.len() == 16);
    assert("draft_revision"@.len() == 14);
    assert("self_approved"@.len() == 13);
    assert("state"@.len() == 5);
    assert("delivery_completion_policy"@.len() == 26);
    assert("independent_review_downgraded"@.len() == 29);
    let f = approved_doc(approval_id, candidate_id, candidate_digest, draft_revision, self_approved, delivery_policy)->Obj_0;
    json::field_is_first(f, "approval_id"@, 0);
    json::field_is_first(f, "candidate_id"@, 1);
    json::field_is_first(f, "candidate_digest"@, 2);
    json::field_is_first(f, "draft_revision"@, 3);
    json::field_is_first(f, "self_approved"@, 4);
    json::field_is_first(f, "state"@, 5);
    json::field_is_first(f, "delivery_completion_policy"@, 6);
    json::field_is_first(f, "independent_review_downgraded"@, 7);
}

/// The summary of an approval names it and what was approved.
pub proof fn approvals_are_summed_up(approval_id: Seq<char>, candidate_id: Seq<char>, candidate_digest: Seq<char>, self_approved: bool)
    ensures
        json::field(approval_summary_doc(approval_id, candidate_id, candidate_digest, self_approved), "approval_id"@) == Some(JsonView::Str(approval_id)),
        json::field(approval_summary_doc(approval_id, candidate_id, candidate_digest, self_approved), "candidate_id"@) == Some(JsonView::Str(candidate_id)),
        json::field(approval_summary_doc(approval_id, candidate_id, candidate_digest, self_approved), "candidate_digest"@) == Some(JsonView::Str(candidate_digest)),
        json::field(approval_summary_doc(approval_id, candidate_id, candidate_digest, self_approved), "self_approved"@) == Some(JsonView::Bool(self_approved)),
{
    reveal_strlit("approval_id");
    reveal_strlit("candidate_id");
    reveal_strlit("candidate_digest");
    reveal_strlit("self_approved");
    assert("approval_id"@.len() == 11);
    assert("candidate_id"@.len() == 12);
    assert("candidate_digest"@.len() == 16);
    assert("self_approved"@.len() == 13);
    let f = approval_summary_doc(approval_id, candidate_id, candidate_digest, self_approved)->Obj_0;
    json::field_is_first(f, "approval_id"@, 0);
    json::field_is_first(f, "candidate_id"@, 1);
    json::field_is_first(f, "candidate_digest"@, 2);
    json::field_is_first(f, "self_approved"@, 3);
}

/// A publication names what was published under which approval; the source is not written yet.
pub proof fn publications_are_told(receipt_id: Seq<char>, candidate_id: Seq<char>, candidate_digest: Seq<char>, draft_revision: int, approval_id: Seq<char>)
    ensures
        json::field(published_doc(receipt_id, candidate_id, candidate_digest, draft_revision, approval_id), "receipt_id"@) == Some(JsonView::Str(receipt_id)),
        json::field(published_doc(receipt_id, candidate_id, candidate_digest, draft_revision, approval_id), "candidate_id"@) == Some(JsonView::Str(candidate_id)),
        json::field(published_doc(receipt_id, candidate_id, candidate_digest, draft_revision, approval_id), "candidate_digest"@) == Some(JsonView::Str(candidate_digest)),
        json::field(published_doc(receipt_id, candidate_id, candidate_digest, draft_revision, approval_id), "draft_revision"@) == Some(JsonView::Int(draft_revision)),
        json::field(published_doc(receipt_id, candidate_id, candidate_digest, draft_revision, approval_id), "approval_id"@) == Some(JsonView::Str(approval_id)),
        json::field(published_doc(receipt_id, candidate_id, candidate_digest, draft_revision, approval_id), "state"@) == Some(JsonView::Str("published"@)),
        json::field(published_doc(receipt_id, candidate_id, candidate_digest, draft_revision, approval_id), "source_writeback_pending"@) == Some(JsonView::Bool(true)),
        json::field(published_doc(receipt_id, candidate_id, candidate_digest, draft_revision, approval_id), "source_bytes_written"@) == Some(JsonView::Bool(false)),
{
    reveal_strlit("receipt_id");
    reveal_strlit("candidate_id");
    reveal_strlit("candidate_digest");
    reveal_strlit("draft_revision");
    reveal_strlit("approval_id");
    reveal_strlit("state");
    reveal_strlit("source_writeback_pending");
    reveal_strlit("source_bytes_written");
    assert("receipt_id"@.len() == 10);
    assert("candidate_id"@.len() == 12);
    assert("candidate_digest"@.len() == 16);
    assert("draft_revision"@.len() == 14);
    assert("approval_id"@.len() == 11);
    assert("state"@.len() == 5);
    assert("source_writeback_pending"@.len() == 24);
    assert("source_bytes_written"@.len() == 20);
    let f = published_doc(receipt_id, candidate_id, candidate_digest, draft_revision, approval_id)->Obj_0;
    json::field_is_first(f, "receipt_id"@, 0);
    json::field_is_first(f, "candidate_id"@, 1);
    json::field_is_first(f, "candidate_digest"@, 2);
    json::field_is_first(f, "draft_revision"@, 3);
    json::field_is_first(f, "approval_id"@, 4);
    json::field_is_first(f, "state"@, 5);
    json::field_is_first(f, "source_writeback_pending"@, 6);
    json::field_is_first(f, "source_bytes_written"@, 7);
}

/// The summary of a publication names it, its candidate and its approval.
pub proof fn publications_are_summed_up(receipt_id: Seq<char>, candidate_id: Seq<char>, candidate_digest: Seq<char>, approval_id: Seq<char>)
    ensures
        json::field(publication_summary_doc(receipt_id, candidate_id, candidate_digest, approval_id), "receipt_id"@) == Some(JsonView::Str(receipt_id)),
        json::field(publication_summary_doc(receipt_id, candidate_id, candidate_digest, approval_id), "candidate_id"@) == Some(JsonView::Str(candidate_id)),
        json::field(publication_summary_doc(receipt_id, candidate_id, candidate_digest, approval_id), "candidate_digest"@) == Some(JsonView::Str(candidate_digest)),
        json::field(publication_summary_doc(receipt_id, candidate_id, candidate_digest, approval_id), "approval_id"@) == Some(JsonView::Str(approval_id)),
{
    reveal_strlit("receipt_id");
    reveal_strlit("candidate_id");
    reveal_strlit("candidate_digest");
    reveal_strlit("approval_id");
    assert("receipt_id"@.len() == 10);
    assert("candidate_id"@.len() == 12);
    assert("candidate_digest"@.len() == 16);
    assert("approval_id"@.len() == 11);
    let f = publication_summary_doc(receipt_id, candidate_id, candidate_digest, approval_id)->Obj_0;
    json::field_is_first(f, "receipt_id"@, 0);
    json::field_is_first(f, "candidate_id"@, 1);
    json::field_is_first(f, "candidate_digest"@, 2);
    json::field_is_first(f, "approval_id"@, 3);
}

/// What planning offers: a suggestion is never work by itself, approval and publication are apart, and an approval is of what was approved.
pub proof fn capabilities_are_told(codec: Seq<char>)
    ensures
        json::field(capabilities_doc(codec), "codec"@) == Some(JsonView::Str(codec)),
        json::field(capabilities_doc(codec), "actions"@) == Some(JsonView::Arr( Seq::<JsonView>::empty().push(JsonView::Str("planning.propose"@)).push( JsonView::Str("planning.edit_draft"@), ).push(JsonView::Str("planning.approve"@)).push( JsonView::Str("planning.publish"@), ), )),
        json::field(capabilities_doc(codec), "suggestion_claimable"@) == Some(JsonView::Bool(false)),
        json::field(capabilities_doc(codec), "suggestion_adds_formal_work"@) == Some(JsonView::Bool(false)),
        json::field(capabilities_doc(codec), "hard_delete_history_allowed"@) == Some(JsonView::Bool(false)),
        json::field(capabilities_doc(codec), "forge_completion_via_status_allowed"@) == Some(JsonView::Bool(false)),
        json::field(capabilities_doc(codec), "approve_publish_separated"@) == Some(JsonView::Bool(true)),
        json::field(capabilities_doc(codec), "approval_bound_to_candidate_digest"@) == Some(JsonView::Bool(true)),
        json::field(capabilities_doc(codec), "source_writeback"@) == Some(JsonView::Str("tmcp_022"@)),
{
    reveal_strlit("codec");
    reveal_strlit("actions");
    reveal_strlit("suggestion_claimable");
    reveal_strlit("suggestion_adds_formal_work");
    reveal_strlit("hard_delete_history_allowed");
    reveal_strlit("forge_completion_via_status_allowed");
    reveal_strlit("approve_publish_separated");
    reveal_strlit("approval_bound_to_candidate_digest");
    reveal_strlit("source_writeback");
    assert("codec"@.len() == 5);
    assert("actions"@.len() == 7);
    assert("suggestion_claimable"@.len() == 20);
    assert("suggestion_adds_formal_work"@.len() == 27);
    assert("hard_delete_history_allowed"@.len() == 27);
    assert("forge_completion_via_status_allowed"@.len() == 35);
    assert("approve_publish_separated"@.len() == 25);
    assert("approval_bound_to_candidate_digest"@.len() == 34);
    assert("source_writeback"@.len() == 16);
    assert("suggestion_adds_formal_work"@[0] == 's');
    assert("hard_delete_history_allowed"@[0] == 'h');
    let f = capabilities_doc(codec)->Obj_0;
    json::field_is_first(f, "codec"@, 0);
    json::field_is_first(f, "actions"@, 1);
    json::field_is_first(f, "suggestion_claimable"@, 2);
    json::field_is_first(f, "suggestion_adds_formal_work"@, 3);
    json::field_is_first(f, "hard_delete_history_allowed"@, 4);
    json::field_is_first(f, "forge_completion_via_status_allowed"@, 5);
    json::field_is_first(f, "approve_publish_separated"@, 6);
    json::field_is_first(f, "approval_bound_to_candidate_digest"@, 7);
    json::field_is_first(f, "source_writeback"@, 8);
}

} // verus!
