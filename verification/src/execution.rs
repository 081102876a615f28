//! Executions: a claimed work is prepared, handed to a runner through the outbox, run and
//! reported, and what is unknown is reconciled.
use crate::digest;
use crate::error;
use crate::error::{protocol, Fault, PgError, PgResult};
use crate::graph;
use crate::json;
use crate::json::{Doc, Json, JsonView};
use crate::operation;
use crate::operation::StoredOperation;
use crate::pool::PgPool;
use crate::text;
use vstd::prelude::*;

verus! {

/// An execution as it is reported to callers.
#[derive(Clone, Debug)]
pub struct ExecutionRecord {
    pub id: String,
    pub work_id: String,
    pub session_id: String,
    pub claim_id: String,
    pub fence: i64,
    pub contract_hash: String,
    pub effect_key: String,
    pub state: String,
    pub cancel_requested: bool,
    pub fencing_class: String,
    pub replayed: bool,
}

/// The model of a record.
pub struct RecordView {
    pub id: Seq<char>,
    pub work_id: Seq<char>,
    pub session_id: Seq<char>,
    pub claim_id: Seq<char>,
    pub fence: int,
    pub contract_hash: Seq<char>,
    pub effect_key: Seq<char>,
    pub state: Seq<char>,
    pub cancel_requested: bool,
    pub fencing_class: Seq<char>,
    pub replayed: bool,
}

impl View for ExecutionRecord {
    type V = RecordView;

    open spec fn view(&self) -> RecordView {
        RecordView {
            id: self.id@,
            work_id: self.work_id@,
            session_id: self.session_id@,
            claim_id: self.claim_id@,
            fence: self.fence as int,
            contract_hash: self.contract_hash@,
            effect_key: self.effect_key@,
            state: self.state@,
            cancel_requested: self.cancel_requested,
            fencing_class: self.fencing_class@,
            replayed: self.replayed,
        }
    }
}

/// What a runner gets from the outbox.
#[derive(Debug)]
pub struct OutboxDelivery {
    pub outbox_id: String,
    pub execution_id: String,
    pub effect_key: String,
    pub fence: i64,
    pub fencing_class: String,
    pub declared_scope: Json,
    pub payload: Json,
    pub delivery_attempts: i32,
}

/// An executor of this class applies an effect exactly once.
pub open spec fn applies_once(class: Seq<char>) -> bool {
    class == "hard_fence"@ || class == "queryable_idempotent"@
}

/// Whether an executor of this class applies an effect exactly once.
pub fn exactly_once_supported(fencing_class: &str) -> (r: bool)
    ensures
        r == applies_once(fencing_class@),
{
    text::same(fencing_class, "hard_fence") || text::same(fencing_class, "queryable_idempotent")
}

/// The classes of executors.
pub open spec fn is_fencing_class(class: Seq<char>) -> bool {
    applies_once(class) || class == "uncontrolled"@
}

fn validate_fencing_class(class: &str) -> (r: PgResult<()>)
    ensures
        error::checked(r) == (if is_fencing_class(class@) {
            Ok(())
        } else {
            Err(Fault::Protocol("invalid fencing class"@))
        }),
{
    if exactly_once_supported(class) || text::same(class, "uncontrolled") {
        return Ok(());
    }
    Err(protocol("invalid fencing class"))
}

/// An entry of a declared scope covers a path: it is the path itself, or one lies under the
/// other.
pub open spec fn covers(entry: JsonView, path: Seq<char>) -> bool {
    match entry {
        JsonView::Str(e) => graph::conflict("file"@, path, "file"@, e) || graph::conflict(
            "file"@,
            path,
            "prefix"@,
            e,
        ),
        _ => false,
    }
}

/// The entries of a declared scope; none where it is not a list.
pub open spec fn entries(declared: JsonView) -> Seq<JsonView> {
    match declared {
        JsonView::Arr(items) => items,
        _ => Seq::empty(),
    }
}

/// Some entry of a declared scope covers a path.
pub open spec fn in_scope(declared: JsonView, path: Seq<char>) -> bool {
    exists|i: int| 0 <= i < entries(declared).len() && covers(#[trigger] entries(declared)[i], path)
}

/// Some observed path lies outside the declared scope. What is not declared is outside, so that
/// nothing may be observed where nothing is declared.
pub open spec fn exceeds_scope(declared: JsonView, observed: Seq<Seq<char>>) -> bool {
    exists|i: int| 0 <= i < observed.len() && !in_scope(declared, #[trigger] observed[i])
}

fn path_in_scope(declared: &Json, path: &str) -> (r: bool)
    ensures
        r == in_scope(declared.model(), path@),
{
    match declared {
        Json::Arr(items) => {
            let ghost all = entries(declared.model());
            let mut i: usize = 0;
            while i < items.len()
                invariant
                    i <= items.len(),
                    *declared matches Json::Arr(v) && v == *items,
                    all == entries(declared.model()),
                    forall|j: int| 0 <= j < i ==> !covers(#[trigger] all[j], path@),
                decreases items.len() - i,
            {
                assert(all[i as int] == items@[i as int].model());
                if let Json::Str(entry) = &items[i] {
                    if graph::paths_conflict("file", path, "file", entry.as_str())
                        || graph::paths_conflict("file", path, "prefix", entry.as_str()) {
                        assert(covers(all[i as int], path@));
                        return true;
                    }
                }
                i = i + 1;
            }
            false
        },
        _ => false,
    }
}

/// Whether some observed path lies outside the declared scope.
pub fn scope_exceeded(declared: &Json, observed: &[String]) -> (r: bool)
    ensures
        r == exceeds_scope(declared.model(), text::texts(observed@)),
{
    let ghost all = text::texts(observed@);
    let mut i: usize = 0;
    while i < observed.len()
        invariant
            i <= observed.len(),
            all == text::texts(observed@),
            forall|j: int| 0 <= j < i ==> in_scope(declared.model(), #[trigger] all[j]),
        decreases observed.len() - i,
    {
        assert(all[i as int] == observed@[i as int]@);
        if !path_in_scope(declared, observed[i].as_str()) {
            return true;
        }
        i = i + 1;
    }
    false
}

/// The answer that is stored for a record.
pub open spec fn record_doc(r: RecordView) -> JsonView {
    JsonView::Obj(
        json::no_fields().push(("id"@, JsonView::Str(r.id))).push(
            ("work_id"@, JsonView::Str(r.work_id)),
        ).push(("session_id"@, JsonView::Str(r.session_id))).push(
            ("claim_id"@, JsonView::Str(r.claim_id)),
        ).push(("fence"@, JsonView::Int(r.fence))).push(
            ("contract_hash"@, JsonView::Str(r.contract_hash)),
        ).push(("effect_key"@, JsonView::Str(r.effect_key))).push(
            ("state"@, JsonView::Str(r.state)),
        ).push(("cancel_requested"@, JsonView::Bool(r.cancel_requested))).push(
            ("fencing_class"@, JsonView::Str(r.fencing_class)),
        ),
    )
}

fn record_document(r: &ExecutionRecord) -> (doc: Json)
    ensures
        doc.model() == record_doc(r@),
{
    Doc::new().put("id", json::text(r.id.as_str())).put(
        "work_id",
        json::text(r.work_id.as_str()),
    ).put("session_id", json::text(r.session_id.as_str())).put(
        "claim_id",
        json::text(r.claim_id.as_str()),
    ).put("fence", json::number(r.fence)).put(
        "contract_hash",
        json::text(r.contract_hash.as_str()),
    ).put("effect_key", json::text(r.effect_key.as_str())).put(
        "state",
        json::text(r.state.as_str()),
    ).put("cancel_requested", json::flag(r.cancel_requested)).put(
        "fencing_class",
        json::text(r.fencing_class.as_str()),
    ).json()
}

/// The record that a stored answer gives back.
pub open spec fn replayed_record(doc: JsonView) -> RecordView {
    RecordView {
        id: json::text_or_empty(doc, "id"@),
        work_id: json::text_or_empty(doc, "work_id"@),
        session_id: json::text_or_empty(doc, "session_id"@),
        claim_id: json::text_or_empty(doc, "claim_id"@),
        fence: match json::int_field(doc, "fence"@) {
            Some(n) => n,
            None => 0,
        },
        contract_hash: json::text_or_empty(doc, "contract_hash"@),
        effect_key: json::text_or_empty(doc, "effect_key"@),
        state: json::text_or_empty(doc, "state"@),
        cancel_requested: json::bool_field(doc, "cancel_requested"@) == Some(true),
        fencing_class: json::text_or_empty(doc, "fencing_class"@),
        replayed: true,
    }
}

/// The record that a stored answer gives back.
pub fn replay_execution(result: &Json) -> (r: ExecutionRecord)
    ensures
        r@ == replayed_record(result.model()),
{
    let fence: i64 = match result.get_i64("fence") {
        Some(n) => n,
        None => 0,
    };
    let cancel_requested = match result.get_bool("cancel_requested") {
        Some(b) => b,
        None => false,
    };
    ExecutionRecord {
        id: result.text_or_empty("id").to_owned(),
        work_id: result.text_or_empty("work_id").to_owned(),
        session_id: result.text_or_empty("session_id").to_owned(),
        claim_id: result.text_or_empty("claim_id").to_owned(),
        fence,
        contract_hash: result.text_or_empty("contract_hash").to_owned(),
        effect_key: result.text_or_empty("effect_key").to_owned(),
        state: result.text_or_empty("state").to_owned(),
        cancel_requested,
        fencing_class: result.text_or_empty("fencing_class").to_owned(),
        replayed: true,
    }
}

/// A stored answer gives back the record that it was made of, marked as given before.
pub proof fn records_read_back(r: RecordView)
    ensures
        replayed_record(record_doc(r)) == (RecordView { replayed: true, ..r }),
{
    let fields = record_doc(r)->Obj_0;
    reveal_strlit("id");
    reveal_strlit("work_id");
    reveal_strlit("session_id");
    reveal_strlit("claim_id");
    reveal_strlit("fence");
    reveal_strlit("contract_hash");
    reveal_strlit("effect_key");
    reveal_strlit("state");
    reveal_strlit("cancel_requested");
    reveal_strlit("fencing_class");
    assert("id"@.len() == 2);
    assert("work_id"@.len() == 7);
    assert("session_id"@.len() == 10);
    assert("effect_key"@.len() == 10);
    assert("session_id"@[0] == 's');
    assert("effect_key"@[0] == 'e');
    assert("claim_id"@.len() == 8);
    assert("fence"@.len() == 5);
    assert("state"@.len() == 5);
    assert("fence"@[0] == 'f');
    assert("state"@[0] == 's');
    assert("contract_hash"@.len() == 13);
    assert("fencing_class"@.len() == 13);
    assert("contract_hash"@[0] == 'c');
    assert("fencing_class"@[0] == 'f');
    assert("cancel_requested"@.len() == 16);
    json::field_is_first(fields, "id"@, 0);
    json::field_is_first(fields, "work_id"@, 1);
    json::field_is_first(fields, "session_id"@, 2);
    json::field_is_first(fields, "claim_id"@, 3);
    json::field_is_first(fields, "fence"@, 4);
    json::field_is_first(fields, "contract_hash"@, 5);
    json::field_is_first(fields, "effect_key"@, 6);
    json::field_is_first(fields, "state"@, 7);
    json::field_is_first(fields, "cancel_requested"@, 8);
    json::field_is_first(fields, "fencing_class"@, 9);
}

/// A request to prepare an execution.
#[derive(Debug)]
pub struct PrepareRequest {
    pub claim_id: String,
    pub executor_actor_id: String,
    pub contract_hash: String,
    pub input_digest: String,
    pub fencing_class: String,
    pub declared_scope: Vec<String>,
    pub writes: Json,
}

/// A claim that is active and has not expired.
#[derive(Clone, Debug)]
pub struct LiveClaim {
    pub session_id: String,
    pub work_id: String,
    pub scope_id: String,
    pub actor_id: String,
    pub fence: i64,
}

/// What a request to prepare leads to.
#[derive(Debug)]
pub enum Prepared {
    /// It was answered before.
    Replay(ExecutionRecord),
    /// A new execution is stored, with what the runner gets and what the answer is.
    New { record: ExecutionRecord, payload: Json, result: Json },
}

/// The model of what a request to prepare leads to.
pub enum PreparedView {
    Replay(RecordView),
    New { record: RecordView, payload: JsonView, result: JsonView },
}

impl View for Prepared {
    type V = PreparedView;

    open spec fn view(&self) -> PreparedView {
        match self {
            Prepared::Replay(r) => PreparedView::Replay(r@),
            Prepared::New { record, payload, result } => PreparedView::New {
                record: record@,
                payload: payload.model(),
                result: result.model(),
            },
        }
    }
}

/// By what a request to prepare is known again.
pub open spec fn prepare_hash(req: PrepareRequest) -> Seq<char> {
    "execution.prepare:"@ + req.claim_id@ + ":"@ + req.executor_actor_id@ + ":"@
        + req.contract_hash@ + ":"@ + req.fencing_class@
}

/// By what a request to prepare is known again.
pub fn prepare_request_hash(req: &PrepareRequest) -> (r: String)
    ensures
        r@ == prepare_hash(*req),
{
    let a = text::plus("execution.prepare:".to_owned(), req.claim_id.as_str());
    let b = text::plus(text::plus(a, ":"), req.executor_actor_id.as_str());
    let c = text::plus(text::plus(b, ":"), req.contract_hash.as_str());
    text::plus(text::plus(c, ":"), req.fencing_class.as_str())
}

/// The record of a new execution.
pub open spec fn new_record(
    req: PrepareRequest,
    claim: LiveClaim,
    execution_id: Seq<char>,
) -> RecordView {
    RecordView {
        id: execution_id,
        work_id: claim.work_id@,
        session_id: claim.session_id@,
        claim_id: req.claim_id@,
        fence: claim.fence as int,
        contract_hash: req.contract_hash@,
        effect_key: execution_id,
        state: "prepared"@,
        cancel_requested: false,
        fencing_class: req.fencing_class@,
        replayed: false,
    }
}

/// What the runner gets for a new execution.
pub open spec fn payload_doc(
    req: PrepareRequest,
    claim: LiveClaim,
    execution_id: Seq<char>,
) -> JsonView {
    JsonView::Obj(
        json::no_fields().push(("execution_id"@, JsonView::Str(execution_id))).push(
            ("effect_key"@, JsonView::Str(execution_id)),
        ).push(("work_id"@, JsonView::Str(claim.work_id@))).push(
            ("session_id"@, JsonView::Str(claim.session_id@)),
        ).push(("claim_id"@, JsonView::Str(req.claim_id@))).push(
            ("fence"@, JsonView::Int(claim.fence as int)),
        ).push(("contract_hash"@, JsonView::Str(req.contract_hash@))).push(
            ("input_digest"@, JsonView::Str(req.input_digest@)),
        ).push(("executor_actor_id"@, JsonView::Str(req.executor_actor_id@))).push(
            ("fencing_class"@, JsonView::Str(req.fencing_class@)),
        ).push(
            ("declared_scope"@, json::text_items(text::texts(req.declared_scope@))),
        ).push(("writes"@, req.writes.model())),
    )
}

/// What a request to prepare leads to. Only the holder of a live claim prepares, and not while
/// the work is blocked or has an execution whose outcome is unknown.
pub open spec fn prepared(
    req: PrepareRequest,
    actor_id: Seq<char>,
    stored: Option<&StoredOperation>,
    claim: Option<&LiveClaim>,
    blocked: bool,
    unknown: i64,
    execution_id: Seq<char>,
) -> Result<PreparedView, Fault> {
    if !is_fencing_class(req.fencing_class@) {
        Err(Fault::Protocol("invalid fencing class"@))
    } else {
        match operation::answered(stored, prepare_hash(req)) {
            Err(f) => Err(f),
            Ok(Some(doc)) => Ok(PreparedView::Replay(replayed_record(doc))),
            Ok(None) => match claim {
                None => Err(Fault::LeaseExpired),
                Some(c) => if c.actor_id@ != actor_id {
                    Err(Fault::Forbidden)
                } else if blocked || unknown > 0 {
                    Err(Fault::RecoveryBlocked)
                } else {
                    Ok(
                        PreparedView::New {
                            record: new_record(req, *c, execution_id),
                            payload: payload_doc(req, *c, execution_id),
                            result: record_doc(new_record(req, *c, execution_id)),
                        },
                    )
                },
            },
        }
    }
}

/// A row of the outbox that was taken for delivery.
#[derive(Debug)]
pub struct DispatchRow {
    pub outbox_id: String,
    pub execution_id: String,
    pub payload: Json,
    pub delivery_attempts: i32,
}

/// The delivery of a row of the outbox: what the payload does not say is the id of the
/// execution, no fence, an uncontrolled executor and an empty scope.
pub open spec fn delivers(row: DispatchRow, d: OutboxDelivery) -> bool {
    let p = row.payload.model();
    &&& d.outbox_id@ == row.outbox_id@
    &&& d.execution_id@ == row.execution_id@
    &&& d.effect_key@ == match json::text_field(p, "effect_key"@) {
        Some(s) => s,
        None => row.execution_id@,
    }
    &&& d.fence == match json::int_field(p, "fence"@) {
        Some(n) => n,
        None => 0,
    }
    &&& d.fencing_class@ == match json::text_field(p, "fencing_class"@) {
        Some(s) => s,
        None => "uncontrolled"@,
    }
    &&& d.declared_scope.model() == match json::field(p, "declared_scope"@) {
        Some(v) => v,
        None => JsonView::Arr(Seq::empty()),
    }
    &&& d.payload.model() == p
    &&& d.delivery_attempts == row.delivery_attempts
}

/// An execution as it is stored.
#[derive(Debug)]
pub struct ExecutionRow {
    pub state: String,
    pub fence: i64,
    pub work_id: String,
    pub session_id: Option<String>,
    pub claim_id: Option<String>,
    pub contract_hash: String,
    pub effect_key: Option<String>,
    pub fencing_class: String,
    pub cancel_requested: bool,
    pub declared_scope: Json,
    pub scope_id: String,
}

/// The text of a column that may be absent.
pub open spec fn or_empty(s: Option<String>) -> Seq<char> {
    match s {
        Some(t) => t@,
        None => Seq::empty(),
    }
}

fn text_or_none(s: &Option<String>) -> (r: String)
    ensures
        r@ == or_empty(*s),
{
    match s {
        Some(t) => t.as_str().to_owned(),
        None => {
            let none = String::new();
            assert(none@ =~= Seq::empty());
            none
        },
    }
}

/// The record of a stored execution.
pub open spec fn row_record(id: Seq<char>, row: ExecutionRow) -> RecordView {
    RecordView {
        id,
        work_id: row.work_id@,
        session_id: or_empty(row.session_id),
        claim_id: or_empty(row.claim_id),
        fence: row.fence as int,
        contract_hash: row.contract_hash@,
        effect_key: or_empty(row.effect_key),
        state: row.state@,
        cancel_requested: row.cancel_requested,
        fencing_class: row.fencing_class@,
        replayed: false,
    }
}

/// The execution has not reached a runner.
pub open spec fn not_taken(state: Seq<char>) -> bool {
    state == "prepared"@ || state == "queued"@
}

fn is_not_taken(state: &str) -> (r: bool)
    ensures
        r == not_taken(state@),
{
    text::same(state, "prepared") || text::same(state, "queued")
}

/// The execution has ended.
pub open spec fn has_ended(state: Seq<char>) -> bool {
    state == "succeeded"@ || state == "failed"@ || state == "cancelled"@
}

/// The state of an execution that is handed to a runner.
pub open spec fn dispatched(state: Seq<char>) -> Seq<char> {
    if state == "prepared"@ {
        "queued"@
    } else {
        state
    }
}

/// A move of an execution from one state to another: whether there is anything to write.
pub open spec fn moved(
    row: Option<(Seq<char>, int)>,
    fence: int,
    allowed: Seq<Seq<char>>,
    next: Seq<char>,
) -> Result<bool, Fault> {
    match row {
        None => Err(Fault::ExecutionNotFound),
        Some((state, current)) => if current != fence {
            Err(Fault::StaleFence)
        } else if allowed.contains(state) {
            Ok(true)
        } else if state == next {
            Ok(false)
        } else {
            Err(
                Fault::Protocol(
                    "cannot move execution from "@ + state + " to "@ + next,
                ),
            )
        },
    }
}

/// The model of what a move found.
pub open spec fn found(row: Option<&ExecutionRow>) -> Option<(Seq<char>, int)> {
    match row {
        Some(r) => Some((r.state@, r.fence as int)),
        None => None,
    }
}

/// The model of a move.
pub open spec fn wrote(r: PgResult<bool>) -> Result<bool, Fault> {
    match r {
        Ok(b) => Ok(b),
        Err(e) => Err(e@),
    }
}

/// The states from which an execution is accepted.
pub open spec fn acceptable() -> Seq<Seq<char>> {
    Seq::<Seq<char>>::empty().push("prepared"@).push("queued"@).push("accepted"@)
}

/// The states from which an execution is started.
pub open spec fn startable() -> Seq<Seq<char>> {
    Seq::<Seq<char>>::empty().push("accepted"@).push("running"@)
}

/// What a request to cancel leads to.
#[derive(Debug)]
pub enum Cancelled {
    /// It was answered before.
    Replay(ExecutionRecord),
    /// The state and the mark of the execution are stored, and the answer.
    New { record: ExecutionRecord, result: Json },
}

/// The model of what a request to cancel leads to.
pub enum CancelledView {
    Replay(RecordView),
    New { record: RecordView, result: JsonView },
}

impl View for Cancelled {
    type V = CancelledView;

    open spec fn view(&self) -> CancelledView {
        match self {
            Cancelled::Replay(r) => CancelledView::Replay(r@),
            Cancelled::New { record, result } => CancelledView::New {
                record: record@,
                result: result.model(),
            },
        }
    }
}

/// A stored execution after a request to cancel: one that no runner has taken is cancelled, any
/// other keeps its state and is marked.
pub open spec fn after_cancel(id: Seq<char>, row: ExecutionRow) -> RecordView {
    if not_taken(row.state@) {
        RecordView { state: "cancelled"@, ..row_record(id, row) }
    } else {
        RecordView { cancel_requested: true, ..row_record(id, row) }
    }
}

/// What a request to cancel leads to.
pub open spec fn cancelled(
    execution_id: Seq<char>,
    stored: Option<&StoredOperation>,
    row: Option<&ExecutionRow>,
) -> Result<CancelledView, Fault> {
    match operation::answered(stored, "execution.cancel:"@ + execution_id) {
        Err(f) => Err(f),
        Ok(Some(doc)) => Ok(CancelledView::Replay(replayed_record(doc))),
        Ok(None) => match row {
            None => Err(Fault::ExecutionNotFound),
            Some(r) => Ok(
                CancelledView::New {
                    record: after_cancel(execution_id, *r),
                    result: record_doc(after_cancel(execution_id, *r)),
                },
            ),
        },
    }
}

/// The kinds of receipts.
pub open spec fn is_receipt_kind(kind: Seq<char>) -> bool {
    kind == "caller_asserted"@ || kind == "trusted_executor"@ || kind == "reconcile"@
}

/// The outcomes of an execution.
pub open spec fn is_outcome(outcome: Seq<char>) -> bool {
    outcome == "succeeded"@ || outcome == "failed"@ || outcome == "unknown"@ || outcome
        == "cancelled"@
}

fn outcome_known(outcome: &str) -> (r: bool)
    ensures
        r == is_outcome(outcome@),
{
    text::same(outcome, "succeeded") || text::same(outcome, "failed") || text::same(
        outcome,
        "unknown",
    ) || text::same(outcome, "cancelled")
}

/// What a report leads to.
#[derive(Debug)]
pub enum Reported {
    /// The execution had ended: the receipt is kept, and the execution marked.
    Late,
    /// Paths outside the declared scope were observed: the execution has failed, the receipt says
    /// why, and the report is answered with the refusal.
    OutOfScope { receipt: Json, refusal: PgError },
    /// The execution takes the reported outcome.
    Settled {
        state: String,
        cancel_requested: bool,
        environment_digest: Option<String>,
        unknown_reason: Option<String>,
        result_digest: Option<String>,
        /// The work is blocked, and its reservations are unknown.
        block: bool,
    },
}

/// The model of what a report leads to.
pub enum ReportedView {
    Late,
    OutOfScope { receipt: JsonView, refusal: Fault },
    Settled {
        state: Seq<char>,
        cancel_requested: bool,
        environment_digest: Option<Seq<char>>,
        unknown_reason: Option<Seq<char>>,
        result_digest: Option<Seq<char>>,
        block: bool,
    },
}

impl View for Reported {
    type V = ReportedView;

    open spec fn view(&self) -> ReportedView {
        match self {
            Reported::Late => ReportedView::Late,
            Reported::OutOfScope { receipt, refusal } => ReportedView::OutOfScope {
                receipt: receipt.model(),
                refusal: refusal@,
            },
            Reported::Settled {
                state,
                cancel_requested,
                environment_digest,
                unknown_reason,
                result_digest,
                block,
            } => ReportedView::Settled {
                state: state@,
                cancel_requested: *cancel_requested,
                environment_digest: text::opt(*environment_digest),
                unknown_reason: text::opt(*unknown_reason),
                result_digest: text::opt(*result_digest),
                block: *block,
            },
        }
    }
}

/// The state that a reported outcome leads to: an execution that a runner has taken is not
/// cancelled by a report.
pub open spec fn settled_state(current: Seq<char>, outcome: Seq<char>) -> Seq<char> {
    if outcome == "cancelled"@ && !not_taken(current) {
        current
    } else {
        outcome
    }
}

/// The receipt of a report of paths outside the declared scope.
pub open spec fn violation_doc(observed: Seq<Seq<char>>, payload: JsonView) -> JsonView {
    JsonView::Obj(
        json::no_fields().push(("scope_violation"@, JsonView::Bool(true))).push(
            ("observed_paths"@, json::text_items(observed)),
        ).push(("payload"@, payload)),
    )
}

/// What a report leads to.
pub open spec fn reported(
    receipt_kind: Seq<char>,
    outcome: Seq<char>,
    actor_kind: Option<Seq<char>>,
    row: Option<&ExecutionRow>,
    payload: JsonView,
    observed: Seq<Seq<char>>,
) -> Result<ReportedView, Fault> {
    if !is_receipt_kind(receipt_kind) {
        Err(Fault::Protocol("invalid receipt kind"@))
    } else if !is_outcome(outcome) {
        Err(Fault::Protocol("invalid outcome"@))
    } else if actor_kind is None {
        Err(Fault::Forbidden)
    } else if receipt_kind == "trusted_executor"@ && actor_kind != Some("system"@) {
        Err(Fault::Forbidden)
    } else {
        match row {
            None => Err(Fault::ExecutionNotFound),
            Some(r) => if has_ended(r.state@) && outcome == "cancelled"@ {
                Ok(ReportedView::Late)
            } else if outcome == "succeeded"@ && exceeds_scope(r.declared_scope.model(), observed) {
                Ok(
                    ReportedView::OutOfScope {
                        receipt: violation_doc(observed, payload),
                        refusal: Fault::ScopeExceeded,
                    },
                )
            } else {
                Ok(
                    ReportedView::Settled {
                        state: settled_state(r.state@, outcome),
                        cancel_requested: r.cancel_requested || outcome == "cancelled"@,
                        environment_digest: json::text_field(payload, "environment_digest"@),
                        unknown_reason: json::text_field(payload, "unknown_reason"@),
                        result_digest: json::text_field(payload, "output_digest"@),
                        block: settled_state(r.state@, outcome) == "unknown"@,
                    },
                )
            },
        }
    }
}

/// The state of an execution after a report, and whether its cancellation is asked for.
pub open spec fn after_report(row: ExecutionRow, step: ReportedView) -> (Seq<char>, bool) {
    match step {
        ReportedView::Late => (row.state@, true),
        ReportedView::OutOfScope { .. } => ("failed"@, row.cancel_requested),
        ReportedView::Settled { state, cancel_requested, .. } => (state, cancel_requested),
    }
}

/// With what a report is refused that leaves the execution changed.
pub open spec fn report_refusal(step: ReportedView) -> Option<Fault> {
    match step {
        ReportedView::OutOfScope { refusal, .. } => Some(refusal),
        _ => None,
    }
}

/// What a reconciliation leads to: whether the work is freed.
pub open spec fn reconciled(
    terminal_state: Seq<char>,
    actor_kind: Option<Seq<char>>,
    exists: bool,
    clear_block: bool,
) -> Result<bool, Fault> {
    if !is_outcome(terminal_state) {
        Err(Fault::Protocol("invalid reconcile state"@))
    } else if actor_kind != Some("system"@) {
        Err(Fault::Forbidden)
    } else if !exists {
        Err(Fault::ExecutionNotFound)
    } else {
        Ok(clear_block && terminal_state != "unknown"@)
    }
}

/// The rules of executions, for one database.
pub struct ExecutionStore {
    pub pool: PgPool,
}

impl ExecutionStore {
    pub fn new(url: &str) -> (r: ExecutionStore)
        ensures
            r.pool.address() == url@,
    {
        ExecutionStore { pool: PgPool::new(url) }
    }

    /// What a request to prepare an execution leads to.
    pub fn prepare(
        &self,
        req: &PrepareRequest,
        actor_id: &str,
        stored: Option<&StoredOperation>,
        claim: Option<&LiveClaim>,
        blocked: bool,
        unknown: i64,
        execution_id: &str,
    ) -> (r: PgResult<Prepared>)
        ensures
            match r {
                Ok(p) => prepared(
                    *req,
                    actor_id@,
                    stored,
                    claim,
                    blocked,
                    unknown,
                    execution_id@,
                ) == Ok::<PreparedView, Fault>(p@),
                Err(e) => prepared(
                    *req,
                    actor_id@,
                    stored,
                    claim,
                    blocked,
                    unknown,
                    execution_id@,
                ) == Err::<PreparedView, Fault>(e@),
            },
    {
        validate_fencing_class(req.fencing_class.as_str())?;
        let request_hash = prepare_request_hash(req);
        if let Some(doc) = operation::answer_before(stored, request_hash.as_str())? {
            return Ok(Prepared::Replay(replay_execution(doc)));
        }
        let c = match claim {
            Some(c) => c,
            None => {
                return Err(PgError::LeaseExpired);
            },
        };
        if !text::same(c.actor_id.as_str(), actor_id) {
            return Err(PgError::Forbidden);
        }
        if blocked || unknown > 0 {
            return Err(PgError::RecoveryBlocked);
        }
        let record = ExecutionRecord {
            id: execution_id.to_owned(),
            work_id: c.work_id.as_str().to_owned(),
            session_id: c.session_id.as_str().to_owned(),
            claim_id: req.claim_id.as_str().to_owned(),
            fence: c.fence,
            contract_hash: req.contract_hash.as_str().to_owned(),
            effect_key: execution_id.to_owned(),
            state: "prepared".to_owned(),
            cancel_requested: false,
            fencing_class: req.fencing_class.as_str().to_owned(),
            replayed: false,
        };
        let payload = Doc::new().put("execution_id", json::text(execution_id)).put(
            "effect_key",
            json::text(execution_id),
        ).put("work_id", json::text(c.work_id.as_str())).put(
            "session_id",
            json::text(c.session_id.as_str()),
        ).put("claim_id", json::text(req.claim_id.as_str())).put(
            "fence",
            json::number(c.fence),
        ).put("contract_hash", json::text(req.contract_hash.as_str())).put(
            "input_digest",
            json::text(req.input_digest.as_str()),
        ).put("executor_actor_id", json::text(req.executor_actor_id.as_str())).put(
            "fencing_class",
            json::text(req.fencing_class.as_str()),
        ).put("declared_scope", json::text_list(req.declared_scope.as_slice())).put(
            "writes",
            req.writes.copy(),
        ).json();
        let result = record_document(&record);
        Ok(Prepared::New { record, payload, result })
    }

    /// What a runner gets for a row of the outbox.
    pub fn claim_dispatch(&self, row: Option<DispatchRow>) -> (r: Option<OutboxDelivery>)
        ensures
            match r {
                Some(d) => row is Some && delivers(row->Some_0, d),
                None => row is None,
            },
    {
        let row = match row {
            Some(row) => row,
            None => {
                return None;
            },
        };
        let effect_key = match row.payload.get_str("effect_key") {
            Some(s) => s.to_owned(),
            None => row.execution_id.as_str().to_owned(),
        };
        let fence: i64 = match row.payload.get_i64("fence") {
            Some(n) => n,
            None => 0,
        };
        let fencing_class = match row.payload.get_str("fencing_class") {
            Some(s) => s.to_owned(),
            None => "uncontrolled".to_owned(),
        };
        let declared_scope = match row.payload.get("declared_scope") {
            Some(v) => v.copy(),
            None => {
                let none: Vec<Json> = Vec::new();
                assert(json::models(none@) =~= Seq::empty());
                json::list(none)
            },
        };
        Some(
            OutboxDelivery {
                outbox_id: row.outbox_id,
                execution_id: row.execution_id,
                effect_key,
                fence,
                fencing_class,
                declared_scope,
                payload: row.payload,
                delivery_attempts: row.delivery_attempts,
            },
        )
    }

    /// The state of an execution that is handed to a runner.
    pub fn dispatch_state(&self, state: &str) -> (r: String)
        ensures
            r@ == dispatched(state@),
    {
        if text::same(state, "prepared") {
            "queued".to_owned()
        } else {
            state.to_owned()
        }
    }

    fn transition(
        &self,
        row: Option<&ExecutionRow>,
        fence: i64,
        allowed: &Vec<&'static str>,
        next: &str,
    ) -> (r: PgResult<bool>)
        ensures
            wrote(r) == moved(
                found(row),
                fence as int,
                allowed@.map_values(|s: &'static str| s@),
                next@,
            ),
    {
        let ghost names = allowed@.map_values(|s: &'static str| s@);
        let e = match row {
            Some(e) => e,
            None => {
                return Err(PgError::ExecutionNotFound);
            },
        };
        if e.fence != fence {
            return Err(PgError::StaleFence);
        }
        let mut i: usize = 0;
        while i < allowed.len()
            invariant
                i <= allowed.len(),
                row == Some(e),
                e.fence == fence,
                names == allowed@.map_values(|s: &'static str| s@),
                forall|j: int| 0 <= j < i ==> #[trigger] names[j] != e.state@,
            decreases allowed.len() - i,
        {
            assert(names[i as int] == allowed@[i as int]@);
            if text::same(allowed[i], e.state.as_str()) {
                assert(names.contains(e.state@));
                return Ok(true);
            }
            i = i + 1;
        }
        assert(!names.contains(e.state@));
        if text::same(e.state.as_str(), next) {
            return Ok(false);
        }
        let a = text::plus("cannot move execution from ".to_owned(), e.state.as_str());
        let b = text::plus(text::plus(a, " to "), next);
        Err(PgError::Protocol(b))
    }

    /// Whether an execution is accepted by a runner that knows its fence.
    pub fn accept(&self, row: Option<&ExecutionRow>, fence: i64) -> (r: PgResult<bool>)
        ensures
            wrote(r) == moved(found(row), fence as int, acceptable(), "accepted"@),
    {
        let mut allowed: Vec<&'static str> = Vec::new();
        allowed.push("prepared");
        allowed.push("queued");
        allowed.push("accepted");
        assert(allowed@.map_values(|s: &'static str| s@) =~= acceptable());
        self.transition(row, fence, &allowed, "accepted")
    }

    /// Whether an execution is started by a runner that knows its fence.
    pub fn start(&self, row: Option<&ExecutionRow>, fence: i64) -> (r: PgResult<bool>)
        ensures
            wrote(r) == moved(found(row), fence as int, startable(), "running"@),
    {
        let mut allowed: Vec<&'static str> = Vec::new();
        allowed.push("accepted");
        allowed.push("running");
        assert(allowed@.map_values(|s: &'static str| s@) =~= startable());
        self.transition(row, fence, &allowed, "running")
    }

    /// What a request to cancel leads to.
    pub fn cancel(
        &self,
        execution_id: &str,
        stored: Option<&StoredOperation>,
        row: Option<&ExecutionRow>,
    ) -> (r: PgResult<Cancelled>)
        ensures
            match r {
                Ok(c) => cancelled(execution_id@, stored, row) == Ok::<CancelledView, Fault>(c@),
                Err(e) => cancelled(execution_id@, stored, row) == Err::<CancelledView, Fault>(e@),
            },
    {
        let request_hash = self.cancel_request_hash(execution_id);
        if let Some(doc) = operation::answer_before(stored, request_hash.as_str())? {
            return Ok(Cancelled::Replay(replay_execution(doc)));
        }
        let row = match row {
            Some(row) => row,
            None => {
                return Err(PgError::ExecutionNotFound);
            },
        };
        let mut record = self.get(execution_id, Some(row))?;
        if is_not_taken(row.state.as_str()) {
            record.state = "cancelled".to_owned();
        } else {
            record.cancel_requested = true;
        }
        let result = record_document(&record);
        Ok(Cancelled::New { record, result })
    }

    /// By what a request to cancel is known again.
    pub fn cancel_request_hash(&self, execution_id: &str) -> (r: String)
        ensures
            r@ == "execution.cancel:"@ + execution_id@,
    {
        text::plus("execution.cancel:".to_owned(), execution_id)
    }

    /// What a report leads to.
    pub fn report(
        &self,
        receipt_kind: &str,
        outcome: &str,
        actor_kind: Option<&str>,
        row: Option<&ExecutionRow>,
        payload: &Json,
        observed_paths: &[String],
    ) -> (r: PgResult<Reported>)
        ensures
            match r {
                Ok(step) => reported(
                    receipt_kind@,
                    outcome@,
                    text::opt_str(actor_kind),
                    row,
                    payload.model(),
                    text::texts(observed_paths@),
                ) == Ok::<ReportedView, Fault>(step@),
                Err(e) => reported(
                    receipt_kind@,
                    outcome@,
                    text::opt_str(actor_kind),
                    row,
                    payload.model(),
                    text::texts(observed_paths@),
                ) == Err::<ReportedView, Fault>(e@),
            },
    {
        if !text::same(receipt_kind, "caller_asserted") && !text::same(
            receipt_kind,
            "trusted_executor",
        ) && !text::same(receipt_kind, "reconcile") {
            return Err(protocol("invalid receipt kind"));
        }
        if !outcome_known(outcome) {
            return Err(protocol("invalid outcome"));
        }
        let kind = match actor_kind {
            Some(kind) => kind,
            None => {
                return Err(PgError::Forbidden);
            },
        };
        if text::same(receipt_kind, "trusted_executor") && !text::same(kind, "system") {
            return Err(PgError::Forbidden);
        }
        let row = match row {
            Some(row) => row,
            None => {
                return Err(PgError::ExecutionNotFound);
            },
        };
        let current = row.state.as_str();
        let cancels = text::same(outcome, "cancelled");
        if cancels && (text::same(current, "succeeded") || text::same(current, "failed")
            || text::same(current, "cancelled")) {
            return Ok(Reported::Late);
        }
        if text::same(outcome, "succeeded") && scope_exceeded(&row.declared_scope, observed_paths) {
            let receipt = Doc::new().put("scope_violation", json::flag(true)).put(
                "observed_paths",
                json::text_list(observed_paths),
            ).put("payload", payload.copy()).json();
            return Ok(Reported::OutOfScope { receipt, refusal: PgError::ScopeExceeded });
        }
        let state = if cancels && !is_not_taken(current) {
            current.to_owned()
        } else {
            outcome.to_owned()
        };
        let block = text::same(state.as_str(), "unknown");
        Ok(
            Reported::Settled {
                state,
                cancel_requested: row.cancel_requested || cancels,
                environment_digest: text::own_opt(payload.get_str("environment_digest")),
                unknown_reason: text::own_opt(payload.get_str("unknown_reason")),
                result_digest: text::own_opt(payload.get_str("output_digest")),
                block,
            },
        )
    }

    /// What is stored of an execution after a report: its state, and whether its cancellation is
    /// asked for.
    pub fn stored_after(&self, row: &ExecutionRow, step: &Reported) -> (r: (String, bool))
        ensures
            (r.0@, r.1) == after_report(*row, step@),
    {
        match step {
            Reported::Late => (row.state.as_str().to_owned(), true),
            Reported::OutOfScope { .. } => ("failed".to_owned(), row.cancel_requested),
            Reported::Settled { state, cancel_requested, .. } => (
                state.as_str().to_owned(),
                *cancel_requested,
            ),
        }
    }

    /// Whether a reconciliation frees the work.
    pub fn reconcile(
        &self,
        terminal_state: &str,
        actor_kind: Option<&str>,
        exists: bool,
        clear_block: bool,
    ) -> (r: PgResult<bool>)
        ensures
            wrote(r) == reconciled(
                terminal_state@,
                text::opt_str(actor_kind),
                exists,
                clear_block,
            ),
    {
        if !outcome_known(terminal_state) {
            return Err(protocol("invalid reconcile state"));
        }
        let system = match actor_kind {
            Some(kind) => text::same(kind, "system"),
            None => false,
        };
        if !system {
            return Err(PgError::Forbidden);
        }
        if !exists {
            return Err(PgError::ExecutionNotFound);
        }
        Ok(clear_block && !text::same(terminal_state, "unknown"))
    }

    /// The record of a stored execution.
    pub fn get(&self, execution_id: &str, row: Option<&ExecutionRow>) -> (r: PgResult<
        ExecutionRecord,
    >)
        ensures
            match r {
                Ok(record) => row is Some && record@ == row_record(execution_id@, *row->Some_0),
                Err(e) => row is None && e@ == Fault::ExecutionNotFound,
            },
    {
        let row = match row {
            Some(row) => row,
            None => {
                return Err(PgError::ExecutionNotFound);
            },
        };
        Ok(
            ExecutionRecord {
                id: execution_id.to_owned(),
                work_id: row.work_id.as_str().to_owned(),
                session_id: text_or_none(&row.session_id),
                claim_id: text_or_none(&row.claim_id),
                fence: row.fence,
                contract_hash: row.contract_hash.as_str().to_owned(),
                effect_key: text_or_none(&row.effect_key),
                state: row.state.as_str().to_owned(),
                cancel_requested: row.cancel_requested,
                fencing_class: row.fencing_class.as_str().to_owned(),
                replayed: false,
            },
        )
    }

    /// The digest under which a receipt is stored.
    pub fn receipt_digest(&self, payload: &Json) -> (r: String)
        ensures
            r@ == digest::doc_digest(payload.model()),
    {
        digest::digest_of(payload)
    }
}

/// An execution that was prepared once is answered in the same way when the request comes again,
/// whatever has happened since.
pub proof fn prepared_requests_replay(
    req: PrepareRequest,
    actor_id: Seq<char>,
    claim: LiveClaim,
    execution_id: Seq<char>,
    stored: StoredOperation,
    later_claim: Option<&LiveClaim>,
    later_blocked: bool,
    later_unknown: i64,
    later_id: Seq<char>,
)
    requires
        prepared(req, actor_id, None, Some(&claim), false, 0, execution_id) == Ok::<
            PreparedView,
            Fault,
        >(
            (PreparedView::New {
                record: new_record(req, claim, execution_id),
                payload: payload_doc(req, claim, execution_id),
                result: stored.result.model(),
            }),
        ),
        stored.request_hash@ == prepare_hash(req),
    ensures
        prepared(
            req,
            actor_id,
            Some(&stored),
            later_claim,
            later_blocked,
            later_unknown,
            later_id,
        ) == Ok::<PreparedView, Fault>(
            PreparedView::Replay(
                (RecordView { replayed: true, ..new_record(req, claim, execution_id) }),
            ),
        ),
{
    records_read_back(new_record(req, claim, execution_id));
}

proof fn state_names_differ()
    ensures
        "prepared"@ != "cancelled"@,
        "queued"@ != "cancelled"@,
        "succeeded"@ != "cancelled"@,
        "failed"@ != "cancelled"@,
        "prepared"@ != "succeeded"@,
        "prepared"@ != "failed"@,
        "queued"@ != "succeeded"@,
        "queued"@ != "failed"@,
        "unknown"@ != "cancelled"@,
        "unknown"@ != "succeeded"@,
        "unknown"@ != "failed"@,
        "accepted"@ != "cancelled"@,
        "accepted"@ != "succeeded"@,
        "accepted"@ != "failed"@,
        "running"@ != "cancelled"@,
        "running"@ != "succeeded"@,
        "running"@ != "failed"@,
        "succeeded"@ != "failed"@,
        "unknown"@ != "prepared"@,
        "unknown"@ != "queued"@,
        "unknown"@ != "accepted"@,
        "unknown"@ != "running"@,
{
    reveal_strlit("prepared");
    reveal_strlit("queued");
    reveal_strlit("accepted");
    reveal_strlit("running");
    reveal_strlit("succeeded");
    reveal_strlit("failed");
    reveal_strlit("cancelled");
    reveal_strlit("unknown");
    assert("prepared"@.len() == 8);
    assert("queued"@.len() == 6);
    assert("queued"@[0] == 'q');
    assert("accepted"@.len() == 8);
    assert("running"@.len() == 7);
    assert("running"@[0] == 'r');
    assert("unknown"@.len() == 7);
    assert("unknown"@[0] == 'u');
    assert("succeeded"@.len() == 9);
    assert("succeeded"@[0] == 's');
    assert("cancelled"@.len() == 9);
    assert("cancelled"@[0] == 'c');
    assert("failed"@.len() == 6);
    assert("failed"@[0] == 'f');
}

/// An execution that has ended keeps its state when it is cancelled.
pub proof fn ended_executions_are_not_cancelled(id: Seq<char>, row: ExecutionRow)
    requires
        has_ended(row.state@),
    ensures
        after_cancel(id, row).state == row.state@,
        after_cancel(id, row).cancel_requested,
{
    state_names_differ();
}

/// Cancelling a second time changes nothing any more.
pub proof fn cancelling_is_idempotent(id: Seq<char>, row: ExecutionRow, next: ExecutionRow)
    requires
        row_record(id, next) == after_cancel(id, row),
    ensures
        after_cancel(id, next).state == after_cancel(id, row).state,
        not_taken(row.state@) || after_cancel(id, next) == after_cancel(id, row),
{
    state_names_differ();
}

/// A report that an execution was cancelled never ends one that a runner has taken, and leaves one
/// that has ended as it was.
pub proof fn reports_do_not_cancel_taken_executions(
    receipt_kind: Seq<char>,
    actor_kind: Option<Seq<char>>,
    row: ExecutionRow,
    payload: JsonView,
    observed: Seq<Seq<char>>,
)
    requires
        !not_taken(row.state@),
    ensures
        match reported(receipt_kind, "cancelled"@, actor_kind, Some(&row), payload, observed) {
            Ok(ReportedView::Settled { state, .. }) => state == row.state@ && !has_ended(row.state@),
            Ok(ReportedView::OutOfScope { .. }) => false,
            Ok(ReportedView::Late) => has_ended(row.state@),
            Err(_) => true,
        },
{
    state_names_differ();
}

/// A report on an execution by whoever may report. A cancellation ends only what no runner has taken,
/// and is kept as asked for. A success with a path outside the declared scope leaves the execution
/// failed and is refused as such. Any other outcome becomes the state of the execution, and an unknown
/// one blocks its work.
pub proof fn reports_settle_executions(
    receipt_kind: Seq<char>,
    outcome: Seq<char>,
    actor_kind: Seq<char>,
    row: ExecutionRow,
    payload: JsonView,
    observed: Seq<Seq<char>>,
)
    requires
        is_receipt_kind(receipt_kind),
        is_outcome(outcome),
        receipt_kind == "trusted_executor"@ ==> actor_kind == "system"@,
    ensures
        reported(receipt_kind, outcome, Some(actor_kind), Some(&row), payload, observed) matches Ok(
            step,
        ) && {
            let (state, cancel_requested) = after_report(row, step);
            if outcome == "cancelled"@ {
                &&& state == (if not_taken(row.state@) {
                    "cancelled"@
                } else {
                    row.state@
                })
                &&& cancel_requested
                &&& report_refusal(step) is None
            } else if outcome == "succeeded"@ && exceeds_scope(row.declared_scope.model(), observed) {
                &&& state == "failed"@
                &&& cancel_requested == row.cancel_requested
                &&& report_refusal(step) == Some(Fault::ScopeExceeded)
            } else {
                &&& state == outcome
                &&& cancel_requested == row.cancel_requested
                &&& report_refusal(step) is None
                &&& step is Settled
                &&& step->block == (outcome == "unknown"@)
            }
        },
{
    state_names_differ();
}

/// A success is never recorded where a path outside the declared scope was observed.
pub proof fn success_stays_in_scope(
    receipt_kind: Seq<char>,
    outcome: Seq<char>,
    actor_kind: Option<Seq<char>>,
    row: ExecutionRow,
    payload: JsonView,
    observed: Seq<Seq<char>>,
)
    requires
        exceeds_scope(row.declared_scope.model(), observed),
    ensures
        reported(receipt_kind, outcome, actor_kind, Some(&row), payload, observed) matches Ok(
            ReportedView::Settled { state, .. },
        ) ==> state != "succeeded"@,
{
    state_names_differ();
}

/// Only the system reports as a trusted executor.
pub proof fn trusted_receipts_come_from_the_system(
    outcome: Seq<char>,
    actor_kind: Option<Seq<char>>,
    row: Option<&ExecutionRow>,
    payload: JsonView,
    observed: Seq<Seq<char>>,
)
    requires
        actor_kind != Some("system"@),
    ensures
        reported("trusted_executor"@, outcome, actor_kind, row, payload, observed) is Err,
{
}

/// An unknown outcome blocks the work, and a blocked work is not prepared again until a
/// reconciliation by the system has found another outcome.
pub proof fn unknown_outcomes_block_the_work(
    receipt_kind: Seq<char>,
    actor_kind: Option<Seq<char>>,
    row: ExecutionRow,
    payload: JsonView,
    observed: Seq<Seq<char>>,
    req: PrepareRequest,
    actor_id: Seq<char>,
    claim: Option<&LiveClaim>,
    unknown: i64,
    execution_id: Seq<char>,
    reconciler: Option<Seq<char>>,
    clear_block: bool,
)
    ensures
        reported(receipt_kind, "unknown"@, actor_kind, Some(&row), payload, observed) matches Ok(
            step,
        ) ==> (step matches ReportedView::Settled { state, block, .. } && state == "unknown"@
            && block),
        prepared(req, actor_id, None, claim, true, unknown, execution_id) is Err,
        reconciled("unknown"@, reconciler, true, clear_block) != Ok::<bool, Fault>(true),
{
    state_names_differ();
}

/// A runner that repeats itself is answered in the same way: what was accepted is accepted again,
/// what runs is started again, and a stale fence never moves an execution.
pub proof fn runners_may_repeat(fence: int, other: int)
    requires
        fence != other,
    ensures
        moved(Some(("accepted"@, fence)), fence, acceptable(), "accepted"@) == Ok::<bool, Fault>(
            true,
        ),
        moved(Some(("running"@, fence)), fence, startable(), "running"@) == Ok::<bool, Fault>(true),
        forall|state: Seq<char>, allowed: Seq<Seq<char>>, next: Seq<char>| #[trigger]
            moved(Some((state, fence)), other, allowed, next) == Err::<bool, Fault>(
                Fault::StaleFence,
            ),
{
    assert(acceptable()[2] == "accepted"@);
    assert(startable()[1] == "running"@);
}

/// An execution that has ended is neither accepted nor started again.
pub proof fn ended_executions_do_not_run(state: Seq<char>, fence: int)
    requires
        has_ended(state),
    ensures
        moved(Some((state, fence)), fence, acceptable(), "accepted"@) is Err,
        moved(Some((state, fence)), fence, startable(), "running"@) is Err,
{
    state_names_differ();
}

/// The names of the fields of a stored execution.
proof fn record_fields_differ()
    ensures
        "id"@.len() == 2,
        "work_id"@.len() == 7,
        "session_id"@.len() == 10 && "session_id"@[0] == 's',
        "claim_id"@.len() == 8,
        "fence"@.len() == 5 && "fence"@[0] == 'f',
        "contract_hash"@.len() == 13 && "contract_hash"@[0] == 'c',
        "effect_key"@.len() == 10 && "effect_key"@[0] == 'e',
        "state"@.len() == 5 && "state"@[0] == 's',
        "cancel_requested"@.len() == 16,
        "fencing_class"@.len() == 13 && "fencing_class"@[0] == 'f',
        "execution_id"@.len() == 12 && "execution_id"@[0] == 'e',
        "input_digest"@.len() == 12 && "input_digest"@[0] == 'i',
        "executor_actor_id"@.len() == 17,
        "declared_scope"@.len() == 14,
        "writes"@.len() == 6,
        "scope_violation"@.len() == 15,
        "observed_paths"@.len() == 14,
        "payload"@.len() == 7,
{
    reveal_strlit("id");
    reveal_strlit("work_id");
    reveal_strlit("session_id");
    reveal_strlit("claim_id");
    reveal_strlit("fence");
    reveal_strlit("contract_hash");
    reveal_strlit("effect_key");
    reveal_strlit("state");
    reveal_strlit("cancel_requested");
    reveal_strlit("fencing_class");
    reveal_strlit("execution_id");
    reveal_strlit("input_digest");
    reveal_strlit("executor_actor_id");
    reveal_strlit("declared_scope");
    reveal_strlit("writes");
    reveal_strlit("scope_violation");
    reveal_strlit("observed_paths");
    reveal_strlit("payload");
}

/// A stored execution has each of its values under the name of the value.
pub proof fn stored_records_name_their_values(r: RecordView)
    ensures
        json::field(record_doc(r), "id"@) == Some(JsonView::Str(r.id)),
        json::field(record_doc(r), "work_id"@) == Some(JsonView::Str(r.work_id)),
        json::field(record_doc(r), "session_id"@) == Some(JsonView::Str(r.session_id)),
        json::field(record_doc(r), "claim_id"@) == Some(JsonView::Str(r.claim_id)),
        json::field(record_doc(r), "fence"@) == Some(JsonView::Int(r.fence)),
        json::field(record_doc(r), "contract_hash"@) == Some(JsonView::Str(r.contract_hash)),
        json::field(record_doc(r), "effect_key"@) == Some(JsonView::Str(r.effect_key)),
        json::field(record_doc(r), "state"@) == Some(JsonView::Str(r.state)),
        json::field(record_doc(r), "cancel_requested"@) == Some(JsonView::Bool(r.cancel_requested)),
        json::field(record_doc(r), "fencing_class"@) == Some(JsonView::Str(r.fencing_class)),
{
    record_fields_differ();
    let f = record_doc(r)->Obj_0;
    json::field_is_first(f, "id"@, 0);
    json::field_is_first(f, "work_id"@, 1);
    json::field_is_first(f, "session_id"@, 2);
    json::field_is_first(f, "claim_id"@, 3);
    json::field_is_first(f, "fence"@, 4);
    json::field_is_first(f, "contract_hash"@, 5);
    json::field_is_first(f, "effect_key"@, 6);
    json::field_is_first(f, "state"@, 7);
    json::field_is_first(f, "cancel_requested"@, 8);
    json::field_is_first(f, "fencing_class"@, 9);
}

/// A cancellation ends an execution that is prepared or queued, which no runner has taken. Any other
/// keeps its state and is marked. Nothing else of it changes, and the answer that is stored is the
/// record.
pub proof fn cancellation_ends_what_no_runner_has(id: Seq<char>, row: ExecutionRow)
    ensures
        cancelled(id, None, Some(&row)) matches Ok(CancelledView::New { record, result }) && {
            &&& row.state@ == "prepared"@ || row.state@ == "queued"@ ==> record.state == "cancelled"@
                && record.cancel_requested == row.cancel_requested
            &&& row.state@ != "prepared"@ && row.state@ != "queued"@ ==> record.state == row.state@
                && record.cancel_requested
            &&& record.id == id
            &&& record.work_id == row.work_id@
            &&& record.fence == row.fence
            &&& record.contract_hash == row.contract_hash@
            &&& record.fencing_class == row.fencing_class@
            &&& !record.replayed
            &&& json::field(result, "state"@) == Some(JsonView::Str(record.state))
            &&& json::field(result, "cancel_requested"@) == Some(
                JsonView::Bool(record.cancel_requested),
            )
            &&& json::field(result, "id"@) == Some(JsonView::Str(id))
        },
        cancelled(id, None, None) == Err::<CancelledView, Fault>(Fault::ExecutionNotFound),
{
    state_names_differ();
    stored_records_name_their_values(after_cancel(id, row));
}

/// A request to cancel that was answered is answered as it was, without a look at the execution, and a
/// request id that stood for something else is refused.
pub proof fn cancellations_are_answered_once(
    id: Seq<char>,
    stored: StoredOperation,
    row: Option<&ExecutionRow>,
)
    ensures
        stored.request_hash@ != "execution.cancel:"@ + id ==> cancelled(id, Some(&stored), row) == Err::<
            CancelledView,
            Fault,
        >(Fault::IdempotencyConflict),
        stored.request_hash@ == "execution.cancel:"@ + id ==> (cancelled(id, Some(&stored), row) matches Ok(
            CancelledView::Replay(record),
        ) && record.replayed && record.state == json::text_or_empty(stored.result.model(), "state"@)
            && record.id == json::text_or_empty(stored.result.model(), "id"@)),
{
}

/// A new execution is prepared exactly for a known fencing class, for the actor of a live claim, and
/// where neither the work is blocked nor an execution of it has an unknown outcome. It has the names
/// of its claim and of its request, is prepared, and is fenced as the claim is.
pub proof fn executions_are_prepared_under_a_claim(
    req: PrepareRequest,
    actor_id: Seq<char>,
    claim: LiveClaim,
    blocked: bool,
    unknown: i64,
    id: Seq<char>,
)
    ensures
        ({
            let known = req.fencing_class@ == "hard_fence"@ || req.fencing_class@
                == "queryable_idempotent"@ || req.fencing_class@ == "uncontrolled"@;
            let outcome = prepared(req, actor_id, None, Some(&claim), blocked, unknown, id);
            &&& !known ==> outcome == Err::<PreparedView, Fault>(
                Fault::Protocol("invalid fencing class"@),
            )
            &&& known && claim.actor_id@ != actor_id ==> outcome == Err::<PreparedView, Fault>(
                Fault::Forbidden,
            )
            &&& known && claim.actor_id@ == actor_id && (blocked || unknown > 0) ==> outcome == Err::<
                PreparedView,
                Fault,
            >(Fault::RecoveryBlocked)
            &&& known && claim.actor_id@ == actor_id && !blocked && unknown <= 0 ==> (outcome matches Ok(
                PreparedView::New { record, payload, result },
            ) && {
                &&& record.id == id
                &&& record.effect_key == id
                &&& record.work_id == claim.work_id@
                &&& record.session_id == claim.session_id@
                &&& record.claim_id == req.claim_id@
                &&& record.fence == claim.fence
                &&& record.contract_hash == req.contract_hash@
                &&& record.fencing_class == req.fencing_class@
                &&& record.state == "prepared"@
                &&& !record.cancel_requested
                &&& !record.replayed
                &&& json::field(payload, "execution_id"@) == Some(JsonView::Str(id))
                &&& json::field(payload, "effect_key"@) == Some(JsonView::Str(id))
                &&& json::field(payload, "work_id"@) == Some(JsonView::Str(claim.work_id@))
                &&& json::field(payload, "session_id"@) == Some(JsonView::Str(claim.session_id@))
                &&& json::field(payload, "claim_id"@) == Some(JsonView::Str(req.claim_id@))
                &&& json::field(payload, "fence"@) == Some(JsonView::Int(claim.fence as int))
                &&& json::field(payload, "contract_hash"@) == Some(JsonView::Str(req.contract_hash@))
                &&& json::field(payload, "input_digest"@) == Some(JsonView::Str(req.input_digest@))
                &&& json::field(payload, "executor_actor_id"@) == Some(
                    JsonView::Str(req.executor_actor_id@),
                )
                &&& json::field(payload, "fencing_class"@) == Some(JsonView::Str(req.fencing_class@))
                &&& json::field(payload, "writes"@) == Some(req.writes.model())
                &&& json::field(payload, "declared_scope"@) matches Some(JsonView::Arr(scope))
                    && scope.len() == req.declared_scope@.len() && forall|i: int|
                    0 <= i < scope.len() ==> #[trigger] scope[i] == JsonView::Str(
                        req.declared_scope@[i]@,
                    )
                &&& json::field(result, "state"@) == Some(JsonView::Str("prepared"@))
                &&& json::field(result, "id"@) == Some(JsonView::Str(id))
            })
        }),
        req.fencing_class@ == "hard_fence"@ ==> prepared(req, actor_id, None, None, blocked, unknown, id)
            == Err::<PreparedView, Fault>(Fault::LeaseExpired),
{
    state_names_differ();
    record_fields_differ();
    stored_records_name_their_values(new_record(req, claim, id));
    let f = payload_doc(req, claim, id)->Obj_0;
    json::field_is_first(f, "execution_id"@, 0);
    json::field_is_first(f, "effect_key"@, 1);
    json::field_is_first(f, "work_id"@, 2);
    json::field_is_first(f, "session_id"@, 3);
    json::field_is_first(f, "claim_id"@, 4);
    json::field_is_first(f, "fence"@, 5);
    json::field_is_first(f, "contract_hash"@, 6);
    json::field_is_first(f, "input_digest"@, 7);
    json::field_is_first(f, "executor_actor_id"@, 8);
    json::field_is_first(f, "fencing_class"@, 9);
    json::field_is_first(f, "declared_scope"@, 10);
    json::field_is_first(f, "writes"@, 11);
}

/// A request to prepare stands for one claim, executor, contract and fencing class: under the same id
/// with any of them another it is refused, unless the joined parts read the same.
pub proof fn preparations_are_known_again(req: PrepareRequest, stored: StoredOperation)
    ensures
        prepare_hash(req) == "execution.prepare:"@ + req.claim_id@ + ":"@ + req.executor_actor_id@
            + ":"@ + req.contract_hash@ + ":"@ + req.fencing_class@,
        req.fencing_class@ == "uncontrolled"@ && stored.request_hash@ != "execution.prepare:"@
            + req.claim_id@ + ":"@ + req.executor_actor_id@ + ":"@ + req.contract_hash@ + ":"@
            + req.fencing_class@ ==> forall|actor: Seq<char>, claim: Option<&LiveClaim>, blocked: bool,
            unknown: i64, id: Seq<char>| #[trigger]
            prepared(req, actor, Some(&stored), claim, blocked, unknown, id) == Err::<
                PreparedView,
                Fault,
            >(Fault::IdempotencyConflict),
{
}

/// Only a hard fence and an effect that can be asked for promise that an effect is applied once.
pub proof fn uncontrolled_effects_may_repeat(class: Seq<char>)
    ensures
        applies_once(class) <==> (class == "hard_fence"@ || class == "queryable_idempotent"@),
        !applies_once("uncontrolled"@),
{
    reveal_strlit("hard_fence");
    reveal_strlit("queryable_idempotent");
    reveal_strlit("uncontrolled");
    assert("hard_fence"@.len() == 10);
    assert("queryable_idempotent"@.len() == 20);
    assert("uncontrolled"@.len() == 12);
}

/// A runner accepts what is prepared, queued or accepted, and starts what is accepted or runs, and only
/// under the fence of the execution. A prepared execution that is dispatched is queued.
pub proof fn runners_move_executions_forward(row: ExecutionRow, fence: int)
    ensures
        ({
            let accepts = moved(found(Some(&row)), fence, acceptable(), "accepted"@);
            let starts = moved(found(Some(&row)), fence, startable(), "running"@);
            &&& accepts == Ok::<bool, Fault>(true) <==> row.fence == fence && (row.state@ == "prepared"@
                || row.state@ == "queued"@ || row.state@ == "accepted"@)
            &&& starts == Ok::<bool, Fault>(true) <==> row.fence == fence && (row.state@ == "accepted"@
                || row.state@ == "running"@)
            &&& accepts != Ok::<bool, Fault>(false)
            &&& starts != Ok::<bool, Fault>(false)
            &&& row.fence != fence ==> accepts == Err::<bool, Fault>(Fault::StaleFence) && starts
                == Err::<bool, Fault>(Fault::StaleFence)
        }),
        moved(found(None), fence, acceptable(), "accepted"@) == Err::<bool, Fault>(
            Fault::ExecutionNotFound,
        ),
        moved(found(None), fence, startable(), "running"@) == Err::<bool, Fault>(
            Fault::ExecutionNotFound,
        ),
        dispatched(row.state@) == (if row.state@ == "prepared"@ {
            "queued"@
        } else {
            row.state@
        }),
{
    state_names_differ();
    let a = acceptable();
    let s = startable();
    assert(a[0] == "prepared"@ && a[1] == "queued"@ && a[2] == "accepted"@);
    assert(s[0] == "accepted"@ && s[1] == "running"@);
    assert(a.contains(row.state@) <==> (row.state@ == "prepared"@ || row.state@ == "queued"@
        || row.state@ == "accepted"@));
    assert(s.contains(row.state@) <==> (row.state@ == "accepted"@ || row.state@ == "running"@));
}

/// What a report of an execution leads to, by the outcome that is reported. Whoever is not known, or
/// reports as a trusted executor without being the system, is refused.
pub proof fn reports_are_taken_by_outcome(
    receipt_kind: Seq<char>,
    outcome: Seq<char>,
    actor_kind: Option<Seq<char>>,
    row: ExecutionRow,
    payload: JsonView,
    observed: Seq<Seq<char>>,
)
    ensures
        ({
            let answer = reported(receipt_kind, outcome, actor_kind, Some(&row), payload, observed);
            let kind_known = receipt_kind == "caller_asserted"@ || receipt_kind == "trusted_executor"@
                || receipt_kind == "reconcile"@;
            let outcome_known = outcome == "succeeded"@ || outcome == "failed"@ || outcome == "unknown"@
                || outcome == "cancelled"@;
            let heard = actor_kind is Some && (receipt_kind == "trusted_executor"@ ==> actor_kind
                == Some("system"@));
            let ended = row.state@ == "succeeded"@ || row.state@ == "failed"@ || row.state@
                == "cancelled"@;
            &&& !kind_known ==> answer == Err::<ReportedView, Fault>(
                Fault::Protocol("invalid receipt kind"@),
            )
            &&& kind_known && !outcome_known ==> answer == Err::<ReportedView, Fault>(
                Fault::Protocol("invalid outcome"@),
            )
            &&& kind_known && outcome_known && !heard ==> answer == Err::<ReportedView, Fault>(
                Fault::Forbidden,
            )
            &&& kind_known && outcome_known && heard ==> (answer matches Ok(step) && {
                &&& step is Late <==> ended && outcome == "cancelled"@
                &&& step is OutOfScope <==> outcome == "succeeded"@ && (exists|i: int|
                    0 <= i < observed.len() && !in_scope(
                        row.declared_scope.model(),
                        #[trigger] observed[i],
                    ))
                &&& step is Settled && outcome != "cancelled"@ ==> step->state == outcome
                    && step->cancel_requested == row.cancel_requested
                &&& step is Settled && outcome == "cancelled"@ ==> step->cancel_requested && step->state
                    == (if row.state@ == "prepared"@ || row.state@ == "queued"@ {
                    "cancelled"@
                } else {
                    row.state@
                })
                &&& step is Settled ==> (step->block <==> step->state == "unknown"@)
                    && step->environment_digest == json::text_field(payload, "environment_digest"@)
                    && step->unknown_reason == json::text_field(payload, "unknown_reason"@)
                    && step->result_digest == json::text_field(payload, "output_digest"@)
                &&& step is OutOfScope ==> step->refusal == Fault::ScopeExceeded
                    && json::field(step->receipt, "scope_violation"@) == Some(JsonView::Bool(true))
                    && json::field(step->receipt, "payload"@) == Some(payload)
                    && json::field(step->receipt, "observed_paths"@) == Some(
                    JsonView::Arr(observed.map_values(|p: Seq<char>| JsonView::Str(p))),
                )
            })
        }),
        ({
            let (late_state, late_mark) = after_report(row, ReportedView::Late);
            late_state == row.state@ && late_mark
        }),
{
    state_names_differ();
    record_fields_differ();
    let f = violation_doc(observed, payload)->Obj_0;
    json::field_is_first(f, "scope_violation"@, 0);
    json::field_is_first(f, "observed_paths"@, 1);
    json::field_is_first(f, "payload"@, 2);
    assert(json::text_items(observed) =~= JsonView::Arr(
        observed.map_values(|p: Seq<char>| JsonView::Str(p)),
    ));
}

/// A path is in scope where it is declared itself, or lies below a directory that is declared; whatever
/// else is declared besides.
pub proof fn declared_paths_are_in_scope(
    declared: Seq<JsonView>,
    i: int,
    dir: Seq<char>,
    rest: Seq<char>,
    at: int,
)
    requires
        0 <= i < declared.len(),
        declared[i] == JsonView::Str(dir),
        0 <= at < dir.len(),
        dir[at] != '/' && dir[at] != '\\',
    ensures
        in_scope(JsonView::Arr(declared), dir),
        in_scope(JsonView::Arr(declared), dir.push('/') + rest),
{
    graph::nested_paths_conflict("file"@, dir, '/', rest, at);
    assert(covers(entries(JsonView::Arr(declared))[i], dir));
    assert(covers(entries(JsonView::Arr(declared))[i], dir.push('/') + rest));
}

/// A path is out of scope where every declared path parts from it below a common directory; and
/// nothing is in scope where nothing is declared.
pub proof fn undeclared_paths_are_out_of_scope(
    declared: Seq<JsonView>,
    dir: Seq<char>,
    name: Seq<char>,
    rest: Seq<char>,
    others: Seq<(Seq<char>, Seq<char>)>,
)
    requires
        name.len() > 0 && !name.contains('/') && !name.contains('\\'),
        others.len() == declared.len(),
        forall|i: int|
            0 <= i < others.len() ==> {
                &&& (#[trigger] others[i]).0.len() > 0
                &&& others[i].0 != name
                &&& !others[i].0.contains('/')
                &&& !others[i].0.contains('\\')
                &&& declared[i] == JsonView::Str(dir.push('/') + (others[i].0.push('/') + others[i].1))
            },
    ensures
        !in_scope(JsonView::Arr(declared), dir.push('/') + (name.push('/') + rest)),
        !in_scope(JsonView::Null, name),
        !in_scope(JsonView::Arr(Seq::empty()), name),
{
    let path = dir.push('/') + (name.push('/') + rest);
    assert forall|i: int| 0 <= i < declared.len() implies !covers(#[trigger] declared[i], path) by {
        let o = others[i];
        graph::siblings_do_not_conflict("file"@, "file"@, dir, name, o.0, rest, o.1);
        graph::siblings_do_not_conflict("file"@, "prefix"@, dir, name, o.0, rest, o.1);
    }
}

/// A reconciliation is the system's alone. It frees the work where that is asked for and the outcome
/// is known.
pub proof fn reconciliation_frees_what_is_known(
    terminal: Seq<char>,
    actor_kind: Option<Seq<char>>,
    stored: bool,
    clear: bool,
)
    ensures
        ({
            let answer = reconciled(terminal, actor_kind, stored, clear);
            let known = terminal == "succeeded"@ || terminal == "failed"@ || terminal == "cancelled"@;
            &&& !known && terminal != "unknown"@ ==> answer == Err::<bool, Fault>(
                Fault::Protocol("invalid reconcile state"@),
            )
            &&& (known || terminal == "unknown"@) && actor_kind != Some("system"@) ==> answer == Err::<
                bool,
                Fault,
            >(Fault::Forbidden)
            &&& (known || terminal == "unknown"@) && actor_kind == Some("system"@) && !stored ==> answer
                == Err::<bool, Fault>(Fault::ExecutionNotFound)
            &&& known && actor_kind == Some("system"@) && stored ==> answer == Ok::<bool, Fault>(clear)
            &&& terminal == "unknown"@ && actor_kind == Some("system"@) && stored ==> answer == Ok::<
                bool,
                Fault,
            >(false)
        }),
{
    state_names_differ();
}

/// The record of a stored execution has the values of its row; what the row lacks is empty.
pub proof fn records_are_of_their_rows(id: Seq<char>, row: ExecutionRow)
    ensures
        ({
            let r = row_record(id, row);
            &&& r.id == id
            &&& r.work_id == row.work_id@
            &&& r.fence == row.fence
            &&& r.contract_hash == row.contract_hash@
            &&& r.state == row.state@
            &&& r.cancel_requested == row.cancel_requested
            &&& r.fencing_class == row.fencing_class@
            &&& !r.replayed
            &&& row.session_id is Some ==> r.session_id == row.session_id->Some_0@
            &&& row.claim_id is Some ==> r.claim_id == row.claim_id->Some_0@
            &&& row.effect_key is Some ==> r.effect_key == row.effect_key->Some_0@
            &&& row.session_id is None ==> r.session_id.len() == 0
            &&& row.claim_id is None ==> r.claim_id.len() == 0
            &&& row.effect_key is None ==> r.effect_key.len() == 0
        }),
{
}

/// What a runner is handed of a prepared execution is what was prepared: its effect key, its fence,
/// its fencing class and its scope.
pub proof fn deliveries_carry_what_was_prepared(
    req: PrepareRequest,
    actor_id: Seq<char>,
    claim: LiveClaim,
    id: Seq<char>,
    row: DispatchRow,
    d: OutboxDelivery,
)
    requires
        prepared(req, actor_id, None, Some(&claim), false, 0, id) matches Ok(
            PreparedView::New { payload, .. },
        ) && payload == row.payload.model(),
        delivers(row, d),
    ensures
        d.outbox_id@ == row.outbox_id@,
        d.execution_id@ == row.execution_id@,
        d.effect_key@ == id,
        d.fence == claim.fence,
        d.fencing_class@ == req.fencing_class@,
        d.delivery_attempts == row.delivery_attempts,
        d.payload.model() == row.payload.model(),
        d.declared_scope.model() matches JsonView::Arr(scope) && scope.len() == req.declared_scope@.len()
            && forall|i: int|
            0 <= i < scope.len() ==> #[trigger] scope[i] == JsonView::Str(req.declared_scope@[i]@),
{
    executions_are_prepared_under_a_claim(req, actor_id, claim, false, 0, id);
}

/// A payload that says nothing is delivered under the id of its execution, without a fence, as
/// uncontrolled and with an empty scope.
pub proof fn silent_payloads_promise_nothing(row: DispatchRow, d: OutboxDelivery)
    requires
        delivers(row, d),
        row.payload.model() is Null || row.payload.model() is Str,
    ensures
        d.effect_key@ == row.execution_id@,
        d.fence == 0,
        d.fencing_class@ == "uncontrolled"@,
        d.declared_scope.model() == JsonView::Arr(Seq::empty()),
{
}

/// What an execution becomes is its outcome, but for a cancellation that comes after a runner took it:
/// that leaves it as it is.
pub proof fn late_cancellations_settle_nothing(current: Seq<char>, outcome: Seq<char>)
    ensures
        outcome != "cancelled"@ ==> settled_state(current, outcome) == outcome,
        settled_state("prepared"@, "cancelled"@) == "cancelled"@,
        settled_state("queued"@, "cancelled"@) == "cancelled"@,
        current != "prepared"@ && current != "queued"@ ==> settled_state(current, "cancelled"@)
            == current,
{
}

/// A path is covered by an entry that is the path itself or a place above it; an entry that is no text
/// covers nothing, and what is no list has no entries.
pub proof fn entries_cover_paths(entry: Seq<char>, path: Seq<char>, items: Seq<JsonView>, n: int)
    ensures
        covers(JsonView::Str(entry), path) <==> graph::conflict("file"@, path, "file"@, entry)
            || graph::conflict("file"@, path, "prefix"@, entry),
        !covers(JsonView::Null, path),
        !covers(JsonView::Int(n), path),
        entries(JsonView::Arr(items)) == items,
        entries(JsonView::Null).len() == 0,
        entries(JsonView::Str(entry)).len() == 0,
{
}

/// What went beyond its scope is told with the paths that were seen and with what was reported.
pub proof fn violations_are_told(observed: Seq<Seq<char>>, payload: JsonView)
    ensures
        json::field(violation_doc(observed, payload), "scope_violation"@) == Some(JsonView::Bool(true)),
        json::field(violation_doc(observed, payload), "observed_paths"@) == Some(json::text_items(observed)),
        json::field(violation_doc(observed, payload), "payload"@) == Some(payload),
{
    reveal_strlit("scope_violation");
    reveal_strlit("observed_paths");
    reveal_strlit("payload");
    assert("scope_violation"@.len() == 15);
    assert("observed_paths"@.len() == 14);
    assert("payload"@.len() == 7);
    let f = violation_doc(observed, payload)->Obj_0;
    json::field_is_first(f, "scope_violation"@, 0);
    json::field_is_first(f, "observed_paths"@, 1);
    json::field_is_first(f, "payload"@, 2);
}

/// An execution is moved from a state that allows it, and under its own fence; one that is there already
/// is left as it is; from any other state it cannot be moved, and both states are told.
pub proof fn executions_move_from_what_is_allowed(
    state: Seq<char>,
    current: int,
    fence: int,
    allowed: Seq<Seq<char>>,
    next: Seq<char>,
)
    ensures
        current != fence ==> moved(Some((state, current)), fence, allowed, next) == Err::<bool, Fault>(
            Fault::StaleFence,
        ),
        allowed.contains(state) ==> moved(Some((state, fence)), fence, allowed, next) == Ok::<
            bool,
            Fault,
        >(true),
        !allowed.contains(next) ==> moved(Some((next, fence)), fence, allowed, next) == Ok::<
            bool,
            Fault,
        >(false),
        !allowed.contains(state) && state != next ==> moved(Some((state, fence)), fence, allowed, next)
            == Err::<bool, Fault>(
            Fault::Protocol("cannot move execution from "@ + state + " to "@ + next),
        ),
{
}

} // verus!
