//! Handoffs of a work from one person to another: what is asked for is confirmed by the one who
//! takes over, and only then does anything change hands.
use crate::error;
use crate::error::{protocol, Fault, PgError, PgResult};
use crate::json::Json;
use crate::pool::PgPool;
use crate::text;
use vstd::prelude::*;

verus! {

/// The states of a handoff.
#[derive(Clone, Copy, Debug, PartialEq, Eq, Structural)]
pub enum HandoffStatus {
    Proposed,
    Inspected,
    Accepted,
    Rejected,
    Cancelled,
    TimedOut,
}

impl HandoffStatus {
    /// The name of the state in stored rows.
    pub open spec fn name(self) -> Seq<char> {
        match self {
            HandoffStatus::Proposed => "proposed"@,
            HandoffStatus::Inspected => "inspected"@,
            HandoffStatus::Accepted => "accepted"@,
            HandoffStatus::Rejected => "rejected"@,
            HandoffStatus::Cancelled => "cancelled"@,
            HandoffStatus::TimedOut => "timed_out"@,
        }
    }
}

/// The name of a state in stored rows.
pub fn status_str(s: HandoffStatus) -> (r: &'static str)
    ensures
        r@ == s.name(),
{
    match s {
        HandoffStatus::Proposed => "proposed",
        HandoffStatus::Inspected => "inspected",
        HandoffStatus::Accepted => "accepted",
        HandoffStatus::Rejected => "rejected",
        HandoffStatus::Cancelled => "cancelled",
        HandoffStatus::TimedOut => "timed_out",
    }
}

/// Each state has a name of its own.
pub proof fn status_names_are_distinct(a: HandoffStatus, b: HandoffStatus)
    ensures
        a.name() == b.name() ==> a == b,
{
    reveal_strlit("proposed");
    reveal_strlit("inspected");
    reveal_strlit("accepted");
    reveal_strlit("rejected");
    reveal_strlit("cancelled");
    reveal_strlit("timed_out");
    assert("proposed"@.len() == 8);
    assert("proposed"@[0] == 'p');
    assert("inspected"@.len() == 9);
    assert("inspected"@[0] == 'i');
    assert("accepted"@.len() == 8);
    assert("accepted"@[0] == 'a');
    assert("rejected"@.len() == 8);
    assert("rejected"@[0] == 'r');
    assert("cancelled"@.len() == 9);
    assert("cancelled"@[0] == 'c');
    assert("timed_out"@.len() == 9);
    assert("timed_out"@[0] == 't');
}

/// What changes hands.
#[derive(Clone, Copy, Debug, PartialEq, Eq, Structural)]
pub enum HandoffKind {
    Execution,
    Responsibility,
}

impl HandoffKind {
    /// The name of the kind in requests and stored rows.
    pub open spec fn name(self) -> Seq<char> {
        match self {
            HandoffKind::Execution => "execution"@,
            HandoffKind::Responsibility => "responsibility"@,
        }
    }

    /// The kind that a name stands for.
    pub open spec fn named(name: Seq<char>) -> Option<HandoffKind> {
        if name == "execution"@ {
            Some(HandoffKind::Execution)
        } else if name == "responsibility"@ {
            Some(HandoffKind::Responsibility)
        } else {
            None
        }
    }
}

/// The name of a kind in requests and stored rows.
pub fn kind_str(k: HandoffKind) -> (r: &'static str)
    ensures
        r@ == k.name(),
{
    match k {
        HandoffKind::Execution => "execution",
        HandoffKind::Responsibility => "responsibility",
    }
}

/// The kind that a name stands for.
pub fn parse_kind(kind: &str) -> (r: Option<HandoffKind>)
    ensures
        r == HandoffKind::named(kind@),
{
    if text::same(kind, "execution") {
        Some(HandoffKind::Execution)
    } else if text::same(kind, "responsibility") {
        Some(HandoffKind::Responsibility)
    } else {
        None
    }
}

/// A kind that was written is read back as it was.
pub proof fn kinds_read_back(k: HandoffKind)
    ensures
        HandoffKind::named(k.name()) == Some(k),
{
    reveal_strlit("execution");
    reveal_strlit("responsibility");
    assert("execution"@.len() == 9);
    assert("responsibility"@.len() == 14);
}

/// Who executes a work: a person, or an agent on behalf of a person.
#[derive(Clone, Debug)]
pub enum ExecutionInstance {
    Person { person_id: String },
    AgentRun { person_id: String, agent_id: String, binding_id: String },
}

/// An executor as it is stored: its kind, its person, its agent and the binding between them.
pub struct ExecutorView {
    pub kind: Seq<char>,
    pub person_id: Seq<char>,
    pub agent_id: Option<Seq<char>>,
    pub binding_id: Option<Seq<char>>,
}

impl View for ExecutionInstance {
    type V = ExecutorView;

    open spec fn view(&self) -> ExecutorView {
        match self {
            ExecutionInstance::Person { person_id } => ExecutorView {
                kind: "person"@,
                person_id: person_id@,
                agent_id: None,
                binding_id: None,
            },
            ExecutionInstance::AgentRun { person_id, agent_id, binding_id } => ExecutorView {
                kind: "agent_run"@,
                person_id: person_id@,
                agent_id: Some(agent_id@),
                binding_id: Some(binding_id@),
            },
        }
    }
}

/// An executor as it is stored.
#[derive(Clone, Debug)]
pub struct Executor {
    pub kind: String,
    pub person_id: String,
    pub agent_id: Option<String>,
    pub binding_id: Option<String>,
}

impl View for Executor {
    type V = ExecutorView;

    open spec fn view(&self) -> ExecutorView {
        ExecutorView {
            kind: self.kind@,
            person_id: self.person_id@,
            agent_id: text::opt(self.agent_id),
            binding_id: text::opt(self.binding_id),
        }
    }
}

fn executor_of(e: &ExecutionInstance) -> (r: Executor)
    ensures
        r@ == e@,
{
    match e {
        ExecutionInstance::Person { person_id } => Executor {
            kind: "person".to_owned(),
            person_id: person_id.as_str().to_owned(),
            agent_id: None,
            binding_id: None,
        },
        ExecutionInstance::AgentRun { person_id, agent_id, binding_id } => Executor {
            kind: "agent_run".to_owned(),
            person_id: person_id.as_str().to_owned(),
            agent_id: Some(agent_id.as_str().to_owned()),
            binding_id: Some(binding_id.as_str().to_owned()),
        },
    }
}

/// A handoff, as far as it is read here.
#[derive(Clone, Debug)]
pub struct TeamHandoff {
    pub id: String,
    pub work_item_id: String,
    pub kind: HandoffKind,
    pub status: HandoffStatus,
    pub version: u64,
    pub from_person_id: String,
    pub to_person_id: String,
    /// The person that the package of the handoff names as the current one.
    pub current_person_id: String,
    pub accepted_successor: Option<ExecutionInstance>,
}

/// The receipt of a request about a handoff. The duty is what the handoff asks of whom.
#[derive(Debug)]
pub struct HandoffReceipt {
    pub request_key: String,
    pub handoff_id: String,
    pub op: String,
    pub event_id: String,
    pub replayed: bool,
    pub status: HandoffStatus,
    pub version: u64,
    pub duty: Json,
}

/// What the rules of handoffs refused.
#[derive(Clone, Debug)]
pub enum CoreRefusal {
    RevisionConflict,
    ClaimConflict,
    RuleViolation,
    NotFound(String),
    InvalidInput(String),
    Other(String),
}

/// The refusal that callers see.
pub open spec fn core_fault(r: CoreRefusal) -> Fault {
    match r {
        CoreRefusal::RevisionConflict => Fault::PreconditionsChanged,
        CoreRefusal::ClaimConflict => Fault::ClaimHeld,
        CoreRefusal::RuleViolation => Fault::Forbidden,
        CoreRefusal::NotFound(m) => Fault::Protocol("not found: "@ + m@),
        CoreRefusal::InvalidInput(m) => Fault::Protocol(m@),
        CoreRefusal::Other(m) => Fault::Protocol(m@),
    }
}

/// The refusal that callers see.
pub fn map_core(refusal: CoreRefusal) -> (r: PgError)
    ensures
        r@ == core_fault(refusal),
{
    match refusal {
        CoreRefusal::RevisionConflict => PgError::PreconditionsChanged,
        CoreRefusal::ClaimConflict => PgError::ClaimHeld,
        CoreRefusal::RuleViolation => PgError::Forbidden,
        CoreRefusal::NotFound(m) => PgError::Protocol(
            text::plus("not found: ".to_owned(), m.as_str()),
        ),
        CoreRefusal::InvalidInput(m) => PgError::Protocol(m),
        CoreRefusal::Other(m) => PgError::Protocol(m),
    }
}

/// A receipt as it is stored.
#[derive(Clone, Debug)]
pub struct StoredReceipt {
    pub handoff_id: String,
    pub event_id: String,
    pub op: String,
}

/// Whether a request was answered before. A key stands for one request: the same operation on the
/// same handoff, where the request names one.
pub open spec fn repeated(
    stored: Option<&StoredReceipt>,
    op: Seq<char>,
    handoff_id: Option<Seq<char>>,
    handoff_found: bool,
) -> Result<bool, Fault> {
    match stored {
        None => Ok(false),
        Some(s) => if s.op@ != op {
            Err(Fault::IdempotencyConflict)
        } else if !handoff_found {
            Err(Fault::Protocol("handoff missing for receipt"@))
        } else if handoff_id is Some && handoff_id != Some(s.handoff_id@) {
            Err(Fault::IdempotencyConflict)
        } else {
            Ok(true)
        },
    }
}

/// The model of an answer that is yes or no.
pub open spec fn answered(r: PgResult<bool>) -> Result<bool, Fault> {
    match r {
        Ok(b) => Ok(b),
        Err(e) => Err(e@),
    }
}

/// Who is responsible for a work, as it is stored.
#[derive(Clone, Debug)]
pub struct ResponsibilityRow {
    pub owner_person_id: Option<String>,
    pub executor_person_id: Option<String>,
    pub version: i64,
}

/// What changes hands when a handoff is accepted.
#[derive(Clone, Debug)]
pub enum Transfer {
    Nothing,
    /// The work has a new owner.
    Owner { owner: String, version: i64 },
    /// The work has a new executor; its active claims end and its fence moves on. The owner is
    /// stored where the work had none.
    Execution { owner_fallback: String, executor: Executor, version: i64 },
}

/// The model of what changes hands.
pub enum TransferView {
    Nothing,
    Owner { owner: Seq<char>, version: int },
    Execution { owner_fallback: Seq<char>, executor: ExecutorView, version: int },
}

impl View for Transfer {
    type V = TransferView;

    open spec fn view(&self) -> TransferView {
        match self {
            Transfer::Nothing => TransferView::Nothing,
            Transfer::Owner { owner, version } => TransferView::Owner {
                owner: owner@,
                version: *version as int,
            },
            Transfer::Execution { owner_fallback, executor, version } => TransferView::Execution {
                owner_fallback: owner_fallback@,
                executor: executor@,
                version: *version as int,
            },
        }
    }
}

/// The version of a responsibility that follows.
pub open spec fn following_version(row: Option<&ResponsibilityRow>) -> int {
    match row {
        Some(r) => r.version + 1,
        None => 1,
    }
}

fn next_version(row: Option<&ResponsibilityRow>) -> (r: i64)
    requires
        following_version(row) <= i64::MAX,
    ensures
        r == following_version(row),
{
    match row {
        Some(r) => r.version + 1,
        None => 1,
    }
}

/// What changes hands when a handoff is accepted. Only the owner gives the responsibility away, and
/// only the executor that the handoff speaks of gives the execution away.
pub open spec fn transferred(
    was_open: bool,
    after: TeamHandoff,
    row: Option<&ResponsibilityRow>,
) -> Result<TransferView, Fault> {
    if after.status != HandoffStatus::Accepted || !was_open {
        Ok(TransferView::Nothing)
    } else {
        match after.accepted_successor {
            None => Err(Fault::Protocol("accepted handoff missing successor execution"@)),
            Some(successor) => match after.kind {
                HandoffKind::Responsibility => if row is Some && text::opt(
                    row->Some_0.owner_person_id,
                ) != Some(after.from_person_id@) {
                    Err(Fault::Forbidden)
                } else {
                    Ok(
                        TransferView::Owner {
                            owner: after.to_person_id@,
                            version: following_version(row),
                        },
                    )
                },
                HandoffKind::Execution => if row is Some && row->Some_0.executor_person_id is Some
                    && row->Some_0.executor_person_id->Some_0@ != after.from_person_id@
                    && row->Some_0.executor_person_id->Some_0@ != after.current_person_id@ {
                    Err(Fault::Forbidden)
                } else {
                    Ok(
                        TransferView::Execution {
                            owner_fallback: after.from_person_id@,
                            executor: successor@,
                            version: following_version(row),
                        },
                    )
                },
            },
        }
    }
}

/// What changes hands when a handoff is accepted.
pub fn commit_accepted_transfer(
    was_open: bool,
    after: &TeamHandoff,
    row: Option<&ResponsibilityRow>,
) -> (r: PgResult<Transfer>)
    requires
        transferred(was_open, *after, row) matches Ok(t) && !(t is Nothing) ==> following_version(row)
            <= i64::MAX,
    ensures
        match r {
            Ok(t) => transferred(was_open, *after, row) == Ok::<TransferView, Fault>(t@),
            Err(e) => transferred(was_open, *after, row) == Err::<TransferView, Fault>(e@),
        },
{
    if after.status != HandoffStatus::Accepted || !was_open {
        return Ok(Transfer::Nothing);
    }
    let successor = match &after.accepted_successor {
        Some(s) => s,
        None => {
            return Err(protocol("accepted handoff missing successor execution"));
        },
    };
    match after.kind {
        HandoffKind::Responsibility => {
            if let Some(r) = row {
                match &r.owner_person_id {
                    Some(owner) => {
                        if !text::same(owner.as_str(), after.from_person_id.as_str()) {
                            return Err(PgError::Forbidden);
                        }
                    },
                    None => {
                        return Err(PgError::Forbidden);
                    },
                }
            }
            Ok(
                Transfer::Owner {
                    owner: after.to_person_id.as_str().to_owned(),
                    version: next_version(row),
                },
            )
        },
        HandoffKind::Execution => {
            if let Some(r) = row {
                if let Some(current) = &r.executor_person_id {
                    if !text::same(current.as_str(), after.from_person_id.as_str()) && !text::same(
                        current.as_str(),
                        after.current_person_id.as_str(),
                    ) {
                        return Err(PgError::Forbidden);
                    }
                }
            }
            Ok(
                Transfer::Execution {
                    owner_fallback: after.from_person_id.as_str().to_owned(),
                    executor: executor_of(successor),
                    version: next_version(row),
                },
            )
        },
    }
}

/// The rules of handoffs, for one database.
pub struct HandoffStore {
    pub pool: PgPool,
}

impl HandoffStore {
    pub fn new(url: &str) -> (r: HandoffStore)
        ensures
            r.pool.address() == url@,
    {
        HandoffStore { pool: PgPool::new(url) }
    }

    /// Whether a handoff that duties are asked of was found.
    pub fn duty(&self, found: bool) -> (r: PgResult<()>)
        ensures
            error::checked(r) == (if found {
                Ok(())
            } else {
                Err(Fault::Protocol("handoff not found"@))
            }),
    {
        if !found {
            return Err(protocol("handoff not found"));
        }
        Ok(())
    }

    /// Whether a request under this key was answered before.
    fn repeat(
        &self,
        stored: Option<&StoredReceipt>,
        op: &str,
        handoff_id: Option<&str>,
        handoff_found: bool,
    ) -> (r: PgResult<bool>)
        ensures
            answered(r) == repeated(stored, op@, text::opt_str(handoff_id), handoff_found),
    {
        let s = match stored {
            Some(s) => s,
            None => {
                return Ok(false);
            },
        };
        if !text::same(s.op.as_str(), op) {
            return Err(PgError::IdempotencyConflict);
        }
        if !handoff_found {
            return Err(protocol("handoff missing for receipt"));
        }
        if let Some(id) = handoff_id {
            if !text::same(id, s.handoff_id.as_str()) {
                return Err(PgError::IdempotencyConflict);
            }
        }
        Ok(true)
    }

    /// Whether a proposal was answered before.
    pub fn propose(&self, stored: Option<&StoredReceipt>, handoff_found: bool) -> (r: PgResult<
        bool,
    >)
        ensures
            answered(r) == repeated(stored, "propose"@, None, handoff_found),
    {
        self.repeat(stored, "propose", None, handoff_found)
    }

    /// Whether a request about a handoff was answered before; a new one needs the handoff.
    pub fn mutate(
        &self,
        stored: Option<&StoredReceipt>,
        op: &str,
        handoff_id: &str,
        handoff_found: bool,
    ) -> (r: PgResult<bool>)
        ensures
            answered(r) == (match repeated(stored, op@, Some(handoff_id@), handoff_found) {
                Ok(false) => if handoff_found {
                    Ok(false)
                } else {
                    Err(Fault::Protocol("handoff not found"@))
                },
                other => other,
            }),
    {
        if self.repeat(stored, op, Some(handoff_id), handoff_found)? {
            return Ok(true);
        }
        self.duty(handoff_found)?;
        Ok(false)
    }

    /// Whether an acceptance was answered before. One that would lead elsewhere now is another
    /// request.
    pub fn accept(
        &self,
        stored: Option<&StoredReceipt>,
        handoff_id: &str,
        handoff_found: bool,
        leads_to_the_same: bool,
    ) -> (r: PgResult<bool>)
        ensures
            answered(r) == (match repeated(stored, "accept"@, Some(handoff_id@), handoff_found) {
                Ok(false) => if handoff_found {
                    Ok(false)
                } else {
                    Err(Fault::Protocol("handoff not found"@))
                },
                Ok(true) => if leads_to_the_same {
                    Ok(true)
                } else {
                    Err(Fault::IdempotencyConflict)
                },
                Err(f) => Err(f),
            }),
    {
        if self.mutate(stored, "accept", handoff_id, handoff_found)? {
            if !leads_to_the_same {
                return Err(PgError::IdempotencyConflict);
            }
            return Ok(true);
        }
        Ok(false)
    }

    /// A handoff that lost against another one that was stored at the same time is refused.
    pub fn stored(&self, unique: bool) -> (r: PgResult<()>)
        ensures
            error::checked(r) == (if unique {
                Ok(())
            } else {
                Err(Fault::PreconditionsChanged)
            }),
    {
        if !unique {
            return Err(PgError::PreconditionsChanged);
        }
        Ok(())
    }

    /// The receipt of a request about a handoff.
    pub fn record(
        &self,
        h: &TeamHandoff,
        request_key: &str,
        op: &str,
        event_id: &str,
        replayed: bool,
        duty: Json,
    ) -> (r: HandoffReceipt)
        ensures
            r.request_key@ == request_key@,
            r.handoff_id@ == h.id@,
            r.op@ == op@,
            r.event_id@ == event_id@,
            r.replayed == replayed,
            r.status == h.status,
            r.version == h.version,
            r.duty == duty,
    {
        HandoffReceipt {
            request_key: request_key.to_owned(),
            handoff_id: h.id.as_str().to_owned(),
            op: op.to_owned(),
            event_id: event_id.to_owned(),
            replayed,
            status: h.status,
            version: h.version,
            duty,
        }
    }
}

/// Nothing changes hands unless a handoff that was open is accepted: a rejected, cancelled or timed
/// out one moves nothing, and neither does one that was accepted before.
pub proof fn only_acceptance_moves_anything(
    was_open: bool,
    after: TeamHandoff,
    row: Option<&ResponsibilityRow>,
)
    requires
        after.status != HandoffStatus::Accepted || !was_open,
    ensures
        transferred(was_open, after, row) == Ok::<TransferView, Fault>(TransferView::Nothing),
{
}

/// Whoever takes a responsibility over takes it from its owner, and the next version says so.
pub proof fn responsibility_comes_from_its_owner(
    was_open: bool,
    after: TeamHandoff,
    row: ResponsibilityRow,
    owner: Seq<char>,
    version: int,
)
    requires
        transferred(was_open, after, Some(&row)) == Ok::<TransferView, Fault>(
            (TransferView::Owner { owner, version }),
        ),
    ensures
        text::opt(row.owner_person_id) == Some(after.from_person_id@),
        owner == after.to_person_id@,
        version == row.version + 1,
        after.status == HandoffStatus::Accepted,
{
}

/// A key stands for one request: under another operation or another handoff it is refused.
pub proof fn keys_stand_for_one_request(
    stored: StoredReceipt,
    op: Seq<char>,
    handoff_id: Seq<char>,
    handoff_found: bool,
)
    requires
        stored.op@ != op || stored.handoff_id@ != handoff_id,
    ensures
        repeated(Some(&stored), op, Some(handoff_id), handoff_found) is Err,
{
}

/// What an accepted handoff that was open moves, by its kind. The responsibility goes from its owner to
/// the person that it is handed to; the execution from the person that it is of, or that the package
/// names, to the successor. A work without a row takes whatever comes first.
pub proof fn accepted_handoffs_move_what_they_are_of(
    after: TeamHandoff,
    row: ResponsibilityRow,
    successor: ExecutionInstance,
)
    requires
        after.status is Accepted,
        after.accepted_successor == Some(successor),
    ensures
        after.kind is Responsibility ==> {
            let answer = transferred(true, after, Some(&row));
            &&& text::opt(row.owner_person_id) == Some(after.from_person_id@) ==> answer == Ok::<
                TransferView,
                Fault,
            >((TransferView::Owner { owner: after.to_person_id@, version: row.version + 1 }))
            &&& text::opt(row.owner_person_id) != Some(after.from_person_id@) ==> answer == Err::<
                TransferView,
                Fault,
            >(Fault::Forbidden)
            &&& transferred(true, after, None) == Ok::<TransferView, Fault>(
                (TransferView::Owner { owner: after.to_person_id@, version: 1 }),
            )
        },
        after.kind is Execution ==> {
            let answer = transferred(true, after, Some(&row));
            let may = row.executor_person_id is None || row.executor_person_id->Some_0@
                == after.from_person_id@ || row.executor_person_id->Some_0@ == after.current_person_id@;
            &&& may ==> (answer matches Ok(
                TransferView::Execution { owner_fallback, executor, version },
            ) && owner_fallback == after.from_person_id@ && executor == successor@ && version
                == row.version + 1)
            &&& !may ==> answer == Err::<TransferView, Fault>(Fault::Forbidden)
            &&& transferred(true, after, None) matches Ok(
                TransferView::Execution { owner_fallback, executor, version },
            ) && owner_fallback == after.from_person_id@ && executor == successor@ && version == 1
        },
        transferred(false, after, Some(&row)) == Ok::<TransferView, Fault>(TransferView::Nothing),
{
}

/// An accepted handoff without a successor is refused, and one that is not accepted moves nothing.
pub proof fn acceptance_names_a_successor(was_open: bool, after: TeamHandoff, row: ResponsibilityRow)
    ensures
        after.status is Accepted && was_open && after.accepted_successor is None ==> transferred(
            was_open,
            after,
            Some(&row),
        ) == Err::<TransferView, Fault>(
            Fault::Protocol("accepted handoff missing successor execution"@),
        ),
        after.status is Proposed || after.status is Inspected || after.status is Rejected
            || after.status is Cancelled || after.status is TimedOut ==> transferred(
            was_open,
            after,
            Some(&row),
        ) == Ok::<TransferView, Fault>(TransferView::Nothing),
{
}

/// A successor is stored as a person, or as a run of an agent that is bound to a person.
pub proof fn successors_are_stored_as_they_are(s: ExecutionInstance)
    ensures
        s matches ExecutionInstance::Person { person_id } ==> s@.kind == "person"@ && s@.person_id
            == person_id@ && s@.agent_id is None && s@.binding_id is None,
        s matches ExecutionInstance::AgentRun { person_id, agent_id, binding_id } ==> s@.kind
            == "agent_run"@ && s@.person_id == person_id@ && s@.agent_id == Some(agent_id@)
            && s@.binding_id == Some(binding_id@),
{
}

/// A request that comes again is answered again exactly where it is the same operation on the same
/// handoff, and the handoff is there.
pub proof fn repeated_requests_are_the_same(
    s: StoredReceipt,
    op: Seq<char>,
    id: Option<Seq<char>>,
    found: bool,
)
    ensures
        repeated(None, op, id, found) == Ok::<bool, Fault>(false),
        repeated(Some(&s), op, id, found) == Ok::<bool, Fault>(true) <==> s.op@ == op && found && (id is None
            || id == Some(s.handoff_id@)),
        repeated(Some(&s), op, id, found) != Ok::<bool, Fault>(false),
        s.op@ != op || (found && id is Some && id != Some(s.handoff_id@)) ==> repeated(
            Some(&s),
            op,
            id,
            found,
        ) == Err::<bool, Fault>(Fault::IdempotencyConflict),
        s.op@ == op && !found ==> repeated(Some(&s), op, id, found) == Err::<bool, Fault>(
            Fault::Protocol("handoff missing for receipt"@),
        ),
{
}

/// The names under which handoffs are stored, and how refusals of a step are answered.
pub proof fn handoff_names_are_spelled(m: String)
    ensures
        HandoffStatus::Proposed.name() == "proposed"@,
        HandoffStatus::Inspected.name() == "inspected"@,
        HandoffStatus::Accepted.name() == "accepted"@,
        HandoffStatus::Rejected.name() == "rejected"@,
        HandoffStatus::Cancelled.name() == "cancelled"@,
        HandoffStatus::TimedOut.name() == "timed_out"@,
        HandoffKind::Execution.name() == "execution"@,
        HandoffKind::Responsibility.name() == "responsibility"@,
        core_fault(CoreRefusal::RevisionConflict) == Fault::PreconditionsChanged,
        core_fault(CoreRefusal::ClaimConflict) == Fault::ClaimHeld,
        core_fault(CoreRefusal::RuleViolation) == Fault::Forbidden,
        core_fault(CoreRefusal::NotFound(m)) == Fault::Protocol("not found: "@ + m@),
        core_fault(CoreRefusal::InvalidInput(m)) == Fault::Protocol(m@),
        core_fault(CoreRefusal::Other(m)) == Fault::Protocol(m@),
{
}

/// The first version of a responsibility is one, and each version is followed by the next.
pub proof fn versions_follow_each_other(row: ResponsibilityRow)
    ensures
        following_version(None) == 1,
        following_version(Some(&row)) == row.version + 1,
        following_version(Some(&row)) > row.version,
{
}

} // verus!
