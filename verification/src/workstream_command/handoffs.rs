//! The commands about handoffs.
use crate::error;
use crate::error::{protocol, Fault, PgError, PgResult};
use crate::json;
use crate::json::{Doc, Json, JsonView};
use crate::team_handoff;
use crate::team_handoff::{HandoffKind, TeamHandoff};
use crate::text;
use vstd::prelude::*;
use vstd::utf8::*;

verus! {

broadcast use {vstd::string::group_string_axioms, vstd::utf8::group_utf8_lib};

/// The longest reason, in bytes.
pub const REASON_MAX: usize = 2048;

/// A handoff is proposed.
#[derive(Clone, Debug)]
pub struct Propose {
    pub session_id: String,
    pub expected_session_version: i64,
    pub handoff_id: String,
    pub kind: String,
    pub to_person_id: String,
    /// The work that the package of the handoff is about.
    pub package_task_id: String,
}

/// A handoff is looked at by the one who shall take over.
#[derive(Clone, Debug)]
pub struct Inspect {
    pub session_id: String,
    pub expected_session_version: i64,
    pub handoff_id: String,
    pub expected_handoff_version: i64,
    pub inspector_person_id: String,
}

/// A handoff is accepted.
#[derive(Clone, Debug)]
pub struct Accept {
    pub session_id: String,
    pub expected_session_version: i64,
    pub handoff_id: String,
    pub expected_handoff_version: i64,
    pub acceptor_person_id: String,
}

/// A handoff is rejected.
#[derive(Clone, Debug)]
pub struct Reject {
    pub session_id: String,
    pub expected_session_version: i64,
    pub handoff_id: String,
    pub expected_handoff_version: i64,
    pub by_person_id: String,
    pub reason: String,
}

/// A handoff is called off.
#[derive(Clone, Debug)]
pub struct Cancel {
    pub session_id: String,
    pub expected_session_version: i64,
    pub handoff_id: String,
    pub expected_handoff_version: i64,
    pub by_person_id: String,
    pub reason: String,
}

/// The time of a handoff is over.
#[derive(Clone, Debug)]
pub struct Timeout {
    pub session_id: String,
    pub expected_session_version: i64,
    pub handoff_id: String,
    pub expected_handoff_version: i64,
}

/// A command about a handoff.
#[derive(Clone, Debug)]
pub enum Action {
    Propose(Propose),
    Inspect(Inspect),
    Accept(Accept),
    Reject(Reject),
    Cancel(Cancel),
    Timeout(Timeout),
}

/// A reason says something, and not too much.
pub open spec fn is_reason(s: Seq<char>) -> bool {
    !text::is_blank(s) && encode_utf8(s).len() <= REASON_MAX
}

fn reason_given(s: &str) -> (r: bool)
    ensures
        r == is_reason(s@),
{
    !text::blank(s) && s.as_bytes().len() <= REASON_MAX
}

impl Action {
    /// The operation of the command.
    pub open spec fn op(self) -> Seq<char> {
        match self {
            Action::Propose(_) => "handoff.propose"@,
            Action::Inspect(_) => "handoff.inspect"@,
            Action::Accept(_) => "handoff.accept"@,
            Action::Reject(_) => "handoff.reject"@,
            Action::Cancel(_) => "handoff.cancel"@,
            Action::Timeout(_) => "handoff.timeout"@,
        }
    }

    fn op_name(&self) -> (r: &'static str)
        ensures
            r@ == self.op(),
    {
        match self {
            Action::Propose(_) => "handoff.propose",
            Action::Inspect(_) => "handoff.inspect",
            Action::Accept(_) => "handoff.accept",
            Action::Reject(_) => "handoff.reject",
            Action::Cancel(_) => "handoff.cancel",
            Action::Timeout(_) => "handoff.timeout",
        }
    }

    /// The session in which the command is given, and the version that is expected of it.
    pub open spec fn in_session(self) -> (Seq<char>, int) {
        match self {
            Action::Propose(a) => (a.session_id@, a.expected_session_version as int),
            Action::Inspect(a) => (a.session_id@, a.expected_session_version as int),
            Action::Accept(a) => (a.session_id@, a.expected_session_version as int),
            Action::Reject(a) => (a.session_id@, a.expected_session_version as int),
            Action::Cancel(a) => (a.session_id@, a.expected_session_version as int),
            Action::Timeout(a) => (a.session_id@, a.expected_session_version as int),
        }
    }

    /// The session in which the command is given, and the version that is expected of it.
    pub fn session(&self) -> (r: (&str, i64))
        ensures
            (r.0@, r.1 as int) == self.in_session(),
    {
        match self {
            Action::Propose(a) => (a.session_id.as_str(), a.expected_session_version),
            Action::Inspect(a) => (a.session_id.as_str(), a.expected_session_version),
            Action::Accept(a) => (a.session_id.as_str(), a.expected_session_version),
            Action::Reject(a) => (a.session_id.as_str(), a.expected_session_version),
            Action::Cancel(a) => (a.session_id.as_str(), a.expected_session_version),
            Action::Timeout(a) => (a.session_id.as_str(), a.expected_session_version),
        }
    }

    /// What the command says of the handoff is well formed. Of a proposal its package must be valid
    /// besides, and of an acceptance the execution that follows.
    pub open spec fn well_formed(self, contents_valid: bool) -> bool {
        match self {
            Action::Propose(a) => {
                &&& HandoffKind::named(a.kind@) is Some
                &&& contents_valid
                &&& text::is_identity(a.handoff_id@)
                &&& text::is_identity(a.to_person_id@)
            },
            Action::Inspect(a) => {
                &&& text::is_identity(a.handoff_id@)
                &&& text::is_identity(a.inspector_person_id@)
                &&& a.expected_handoff_version != 0
            },
            Action::Accept(a) => {
                &&& contents_valid
                &&& text::is_identity(a.handoff_id@)
                &&& text::is_identity(a.acceptor_person_id@)
                &&& a.expected_handoff_version != 0
            },
            Action::Reject(a) => {
                &&& text::is_identity(a.handoff_id@)
                &&& text::is_identity(a.by_person_id@)
                &&& a.expected_handoff_version != 0
                &&& is_reason(a.reason@)
            },
            Action::Cancel(a) => {
                &&& text::is_identity(a.handoff_id@)
                &&& text::is_identity(a.by_person_id@)
                &&& a.expected_handoff_version != 0
                &&& is_reason(a.reason@)
            },
            Action::Timeout(a) => {
                &&& text::is_identity(a.handoff_id@)
                &&& a.expected_handoff_version != 0
            },
        }
    }

    /// The command is one of the operation, and well formed, and names its session.
    pub open spec fn is_command(self, op: Seq<char>, contents_valid: bool) -> bool {
        &&& self.op() == op
        &&& self.well_formed(contents_valid)
        &&& text::is_identity(self.in_session().0)
        &&& self.in_session().1 != 0
    }

    fn check(&self, contents_valid: bool) -> (r: bool)
        ensures
            r == self.well_formed(contents_valid),
    {
        match self {
            Action::Propose(a) => team_handoff::parse_kind(a.kind.as_str()).is_some()
                && contents_valid && text::identity(a.handoff_id.as_str()) && text::identity(
                a.to_person_id.as_str(),
            ),
            Action::Inspect(a) => text::identity(a.handoff_id.as_str()) && text::identity(
                a.inspector_person_id.as_str(),
            ) && a.expected_handoff_version != 0,
            Action::Accept(a) => contents_valid && text::identity(a.handoff_id.as_str())
                && text::identity(a.acceptor_person_id.as_str()) && a.expected_handoff_version != 0,
            Action::Reject(a) => text::identity(a.handoff_id.as_str()) && text::identity(
                a.by_person_id.as_str(),
            ) && a.expected_handoff_version != 0 && reason_given(a.reason.as_str()),
            Action::Cancel(a) => text::identity(a.handoff_id.as_str()) && text::identity(
                a.by_person_id.as_str(),
            ) && a.expected_handoff_version != 0 && reason_given(a.reason.as_str()),
            Action::Timeout(a) => text::identity(a.handoff_id.as_str())
                && a.expected_handoff_version != 0,
        }
    }

    /// The command of an operation, as it was read from its arguments. One that could not be read or
    /// is not well formed is refused with `invalid`, the refusal of an invalid request.
    pub fn parse(
        op: &str,
        read: Option<Action>,
        contents_valid: bool,
        invalid: PgError,
    ) -> (r: PgResult<Action>)
        ensures
            match r {
                Ok(a) => read == Some(a) && a.is_command(op@, contents_valid),
                Err(e) => e == invalid && (read is Some ==> !read->Some_0.is_command(
                    op@,
                    contents_valid,
                )),
            },
    {
        let action = match read {
            Some(a) => a,
            None => {
                return Err(invalid);
            },
        };
        if !text::same(action.op_name(), op) || !action.check(contents_valid) {
            return Err(invalid);
        }
        let (session_id, version) = action.session();
        if !text::identity(session_id) || version == 0 {
            return Err(invalid);
        }
        Ok(action)
    }

    /// The command needs a work that is enabled, in a scope that is active.
    pub open spec fn needs_active_stream(self) -> bool {
        self is Propose || self is Accept || self is Inspect
    }

    pub fn requires_active_stream(&self) -> (r: bool)
        ensures
            r == self.needs_active_stream(),
    {
        match self {
            Action::Propose(_) => true,
            Action::Accept(_) => true,
            Action::Inspect(_) => true,
            _ => false,
        }
    }

    /// The person that the command says is giving it; none where it says nothing of the kind.
    pub open spec fn claimed_person(self) -> Option<Seq<char>> {
        match self {
            Action::Inspect(a) => Some(a.inspector_person_id@),
            Action::Accept(a) => Some(a.acceptor_person_id@),
            Action::Reject(a) => Some(a.by_person_id@),
            Action::Cancel(a) => Some(a.by_person_id@),
            _ => None,
        }
    }

    fn person(&self) -> (r: Option<&str>)
        ensures
            text::opt_str(r) == self.claimed_person(),
    {
        match self {
            Action::Inspect(a) => Some(a.inspector_person_id.as_str()),
            Action::Accept(a) => Some(a.acceptor_person_id.as_str()),
            Action::Reject(a) => Some(a.by_person_id.as_str()),
            Action::Cancel(a) => Some(a.by_person_id.as_str()),
            _ => None,
        }
    }
}

/// Whether a command may be applied. A proposal must be about the work of the command: for another
/// work it is refused with `invalid`, the refusal of an invalid request. A command on a handoff needs
/// the handoff, of the same work, and must not speak for somebody else.
pub open spec fn admitted(
    action: Action,
    work_id: Seq<char>,
    stream_active: bool,
    actor_person: Seq<char>,
    before: Option<&TeamHandoff>,
    invalid: Fault,
) -> Result<(), Fault> {
    if action.needs_active_stream() && !stream_active {
        Err(Fault::PreconditionsChanged)
    } else if action is Propose {
        if action->Propose_0.package_task_id@ == work_id {
            Ok(())
        } else {
            Err(invalid)
        }
    } else if before is None {
        Err(Fault::Protocol("handoff not found"@))
    } else if before->Some_0.work_item_id@ != work_id {
        Err(Fault::Forbidden)
    } else if action.claimed_person() is Some && action.claimed_person() != Some(actor_person) {
        Err(Fault::Forbidden)
    } else {
        Ok(())
    }
}

/// Whether a command may be applied. `invalid` is the refusal of an invalid request.
pub fn apply(
    action: &Action,
    work_id: &str,
    stream_active: bool,
    actor_person: &str,
    before: Option<&TeamHandoff>,
    invalid: PgError,
) -> (r: PgResult<()>)
    ensures
        error::checked(r) == admitted(
            *action,
            work_id@,
            stream_active,
            actor_person@,
            before,
            invalid@,
        ),
{
    if action.requires_active_stream() && !stream_active {
        return Err(PgError::PreconditionsChanged);
    }
    if let Action::Propose(a) = action {
        if !text::same(a.package_task_id.as_str(), work_id) {
            return Err(invalid);
        }
        return Ok(());
    }
    let h = match before {
        Some(h) => h,
        None => {
            return Err(protocol("handoff not found"));
        },
    };
    if !text::same(h.work_item_id.as_str(), work_id) {
        return Err(PgError::Forbidden);
    }
    if let Some(claimed) = action.person() {
        require_person_match(actor_person, claimed)?;
    }
    Ok(())
}

/// Whether a command speaks for the one who gives it.
pub fn require_person_match(authenticated: &str, claimed: &str) -> (r: PgResult<()>)
    ensures
        error::checked(r) == (if authenticated@ == claimed@ {
            Ok(())
        } else {
            Err(Fault::Forbidden)
        }),
{
    if !text::same(authenticated, claimed) {
        return Err(PgError::Forbidden);
    }
    Ok(())
}

/// The person who speaks through a credential: the one that an agent is bound to, where there is
/// exactly one; else the actor itself, unless it is an agent that no person stands for.
pub open spec fn speaking_person(
    bindings: Seq<Seq<char>>,
    person_exists: bool,
    actor_id: Seq<char>,
    actor_kind: Seq<char>,
) -> Result<Seq<char>, Fault> {
    if bindings.len() > 1 {
        Err(
            Fault::Protocol(
                "multiple active person\u{2194}agent bindings for actor; refuse ambiguous handoff identity"@,
            ),
        )
    } else if bindings.len() == 1 {
        Ok(bindings[0])
    } else if !person_exists && actor_kind == "agent"@ {
        Err(Fault::Forbidden)
    } else {
        Ok(actor_id)
    }
}

/// The person who speaks through a credential.
pub fn resolve_authenticated_person(
    bindings: &Vec<String>,
    person_exists: bool,
    actor_id: &str,
    actor_kind: &str,
) -> (r: PgResult<String>)
    ensures
        match r {
            Ok(p) => speaking_person(
                text::texts(bindings@),
                person_exists,
                actor_id@,
                actor_kind@,
            ) == Ok::<Seq<char>, Fault>(p@),
            Err(e) => speaking_person(
                text::texts(bindings@),
                person_exists,
                actor_id@,
                actor_kind@,
            ) == Err::<Seq<char>, Fault>(e@),
        },
{
    if bindings.len() > 1 {
        return Err(
            protocol(
                "multiple active person\u{2194}agent bindings for actor; refuse ambiguous handoff identity",
            ),
        );
    }
    if bindings.len() == 1 {
        assert(text::texts(bindings@)[0] == bindings@[0]@);
        return Ok(bindings[0].as_str().to_owned());
    }
    if !person_exists && text::same(actor_kind, "agent") {
        return Err(PgError::Forbidden);
    }
    Ok(actor_id.to_owned())
}

/// The answer to a command about a handoff. That its time is over never stops an execution.
pub open spec fn applied_doc(
    h: TeamHandoff,
    duty: JsonView,
    context_requires_refresh: bool,
    successor_may_execute: bool,
) -> JsonView {
    JsonView::Obj(
        json::no_fields().push(("handoff_id"@, JsonView::Str(h.id@))).push(
            ("kind"@, JsonView::Str(h.kind.name())),
        ).push(("status"@, JsonView::Str(h.status.name()))).push(
            ("version"@, JsonView::Str(text::digits(h.version as nat))),
        ).push(("duty"@, duty)).push(
            ("context_requires_refresh"@, JsonView::Bool(context_requires_refresh)),
        ).push(("successor_may_execute"@, JsonView::Bool(successor_may_execute))).push(
            ("timeout_does_not_stop_execution"@, JsonView::Bool(true)),
        ),
    )
}

/// The answer to a command about a handoff.
pub fn applied_document(
    h: &TeamHandoff,
    duty: Json,
    context_requires_refresh: bool,
    successor_may_execute: bool,
) -> (r: Json)
    ensures
        r.model() == applied_doc(
            *h,
            duty.model(),
            context_requires_refresh,
            successor_may_execute,
        ),
{
    Doc::new().put("handoff_id", json::text(h.id.as_str())).put(
        "kind",
        json::text(team_handoff::kind_str(h.kind)),
    ).put("status", json::text(team_handoff::status_str(h.status))).put(
        "version",
        json::text(text::decimal_count(h.version).as_str()),
    ).put("duty", duty).put("context_requires_refresh", json::flag(context_requires_refresh)).put(
        "successor_may_execute",
        json::flag(successor_may_execute),
    ).put("timeout_does_not_stop_execution", json::flag(true)).json()
}

/// The event of a command about a handoff.
pub open spec fn event_doc(h: TeamHandoff) -> JsonView {
    JsonView::Obj(
        json::no_fields().push(("handoff_id"@, JsonView::Str(h.id@))).push(
            ("status"@, JsonView::Str(h.status.name())),
        ).push(("kind"@, JsonView::Str(h.kind.name()))),
    )
}

/// The event of a command about a handoff.
pub fn event_document(h: &TeamHandoff) -> (r: Json)
    ensures
        r.model() == event_doc(*h),
{
    Doc::new().put("handoff_id", json::text(h.id.as_str())).put(
        "status",
        json::text(team_handoff::status_str(h.status)),
    ).put("kind", json::text(team_handoff::kind_str(h.kind))).json()
}

/// The answer to a question about a handoff.
pub open spec fn inspected_doc(handoff: JsonView, duty: JsonView) -> JsonView {
    JsonView::Obj(
        json::no_fields().push(("handoff"@, handoff)).push(("duty"@, duty)).push(
            ("context_requires_refresh"@, JsonView::Bool(true)),
        ).push(("timeout_does_not_stop_execution"@, JsonView::Bool(true))),
    )
}

/// The answer to a question about a handoff.
pub fn inspect_query(handoff: Json, duty: Json) -> (r: Json)
    ensures
        r.model() == inspected_doc(handoff.model(), duty.model()),
{
    Doc::new().put("handoff", handoff).put("duty", duty).put(
        "context_requires_refresh",
        json::flag(true),
    ).put("timeout_does_not_stop_execution", json::flag(true)).json()
}

/// Nobody speaks for somebody else: a command that names the person who gives it is applied only
/// where that is the person who speaks.
pub proof fn nobody_speaks_for_another(
    action: Action,
    work_id: Seq<char>,
    stream_active: bool,
    actor_person: Seq<char>,
    before: Option<&TeamHandoff>,
    invalid: Fault,
)
    requires
        action.claimed_person() is Some,
        admitted(action, work_id, stream_active, actor_person, before, invalid) is Ok,
    ensures
        action.claimed_person() == Some(actor_person),
        before is Some && before->Some_0.work_item_id@ == work_id,
{
}

/// An agent speaks only for the one person that it is bound to.
pub proof fn agents_need_a_binding(
    bindings: Seq<Seq<char>>,
    actor_id: Seq<char>,
    p: Seq<char>,
)
    requires
        speaking_person(bindings, false, actor_id, "agent"@) == Ok::<Seq<char>, Fault>(p),
    ensures
        bindings.len() == 1,
        bindings[0] == p,
{
}

/// A handoff can be rejected, called off or timed out however its work stands.
pub proof fn handoffs_can_always_be_ended(
    action: Action,
    work_id: Seq<char>,
    actor_person: Seq<char>,
    before: Option<&TeamHandoff>,
    invalid: Fault,
)
    requires
        action is Reject || action is Cancel || action is Timeout,
    ensures
        admitted(action, work_id, false, actor_person, before, invalid) == admitted(
            action,
            work_id,
            true,
            actor_person,
            before,
            invalid,
        ),
{
}

/// Who a command on a handoff must come from: the one who looks at it, accepts it, or ends it, as the
/// command itself says. A timeout speaks for nobody.
pub proof fn commands_come_from_who_they_name(
    action: Action,
    work_id: Seq<char>,
    active: bool,
    person: Seq<char>,
    h: TeamHandoff,
    invalid: Fault,
)
    requires
        !(action is Propose),
        active,
    ensures
        ({
            let answer = admitted(action, work_id, active, person, Some(&h), invalid);
            let speaks = match action {
                Action::Inspect(a) => a.inspector_person_id@ == person,
                Action::Accept(a) => a.acceptor_person_id@ == person,
                Action::Reject(a) => a.by_person_id@ == person,
                Action::Cancel(a) => a.by_person_id@ == person,
                _ => true,
            };
            &&& answer is Ok <==> h.work_item_id@ == work_id && speaks
            &&& answer is Err ==> answer == Err::<(), Fault>(Fault::Forbidden)
        }),
        admitted(action, work_id, active, person, None, invalid) == Err::<(), Fault>(
            Fault::Protocol("handoff not found"@),
        ),
{
}

/// A handoff is proposed, looked at and accepted only while its work is active. A proposal is about
/// the work of the command, whoever makes it.
pub proof fn proposals_are_about_their_work(
    action: Action,
    work_id: Seq<char>,
    active: bool,
    person: Seq<char>,
    before: Option<&TeamHandoff>,
    invalid: Fault,
)
    ensures
        !active && (action is Propose || action is Inspect || action is Accept) ==> admitted(
            action,
            work_id,
            active,
            person,
            before,
            invalid,
        ) == Err::<(), Fault>(Fault::PreconditionsChanged),
        active ==> (action matches Action::Propose(a) ==> (admitted(
            action,
            work_id,
            active,
            person,
            before,
            invalid,
        ) == (if a.package_task_id@ == work_id {
            Ok::<(), Fault>(())
        } else {
            Err(invalid)
        }))),
        action.needs_active_stream() <==> action is Propose || action is Inspect || action is Accept,
{
}

/// An actor speaks for the one person that it is bound to, and for itself where it is bound to none and
/// is a person or no agent. One that is bound to several speaks for nobody.
pub proof fn actors_speak_for_one_person(
    bindings: Seq<Seq<char>>,
    known: bool,
    actor: Seq<char>,
    kind: Seq<char>,
)
    ensures
        bindings.len() == 1 ==> speaking_person(bindings, known, actor, kind) == Ok::<Seq<char>, Fault>(
            bindings[0],
        ),
        bindings.len() == 0 && (known || kind != "agent"@) ==> speaking_person(
            bindings,
            known,
            actor,
            kind,
        ) == Ok::<Seq<char>, Fault>(actor),
        bindings.len() == 0 && !known && kind == "agent"@ ==> speaking_person(
            bindings,
            known,
            actor,
            kind,
        ) == Err::<Seq<char>, Fault>(Fault::Forbidden),
        bindings.len() > 1 ==> speaking_person(bindings, known, actor, kind) is Err,
{
}

/// A command is taken only under its own operation, with the names of its handoff and its session, and
/// with the versions that are expected of both. What it says for a reason is neither blank nor longer
/// than 2048 bytes.
pub proof fn commands_are_well_formed(action: Action, op: Seq<char>, contents_valid: bool)
    requires
        action.is_command(op, contents_valid),
    ensures
        action matches Action::Propose(a) ==> op == "handoff.propose"@ && contents_valid && (a.kind@
            == "execution"@ || a.kind@ == "responsibility"@) && text::is_identity(a.handoff_id@)
            && text::is_identity(a.to_person_id@) && text::is_identity(a.session_id@)
            && a.expected_session_version != 0,
        action matches Action::Inspect(a) ==> op == "handoff.inspect"@ && text::is_identity(
            a.handoff_id@,
        ) && text::is_identity(a.inspector_person_id@) && a.expected_handoff_version != 0
            && text::is_identity(a.session_id@) && a.expected_session_version != 0,
        action matches Action::Accept(a) ==> op == "handoff.accept"@ && contents_valid
            && text::is_identity(a.handoff_id@) && text::is_identity(a.acceptor_person_id@)
            && a.expected_handoff_version != 0 && text::is_identity(a.session_id@)
            && a.expected_session_version != 0,
        action matches Action::Reject(a) ==> op == "handoff.reject"@ && text::is_identity(a.handoff_id@)
            && text::is_identity(a.by_person_id@) && a.expected_handoff_version != 0
            && text::is_identity(a.session_id@) && a.expected_session_version != 0 && encode_utf8(
            a.reason@,
        ).len() <= 2048 && exists|i: int| 0 <= i < a.reason@.len() && !text::is_space(#[trigger] a.reason@[i]),
        action matches Action::Cancel(a) ==> op == "handoff.cancel"@ && text::is_identity(a.handoff_id@)
            && text::is_identity(a.by_person_id@) && a.expected_handoff_version != 0
            && text::is_identity(a.session_id@) && a.expected_session_version != 0 && encode_utf8(
            a.reason@,
        ).len() <= 2048 && exists|i: int| 0 <= i < a.reason@.len() && !text::is_space(#[trigger] a.reason@[i]),
        action matches Action::Timeout(a) ==> op == "handoff.timeout"@ && text::is_identity(
            a.handoff_id@,
        ) && a.expected_handoff_version != 0 && text::is_identity(a.session_id@)
            && a.expected_session_version != 0,
{
}

/// A timeout that names its handoff, its session and both versions is always taken, and so is an
/// inspection that names who looks.
pub proof fn complete_commands_are_taken(t: Timeout, i: Inspect, contents_valid: bool)
    ensures
        text::is_identity(t.handoff_id@) && t.expected_handoff_version != 0 && text::is_identity(
            t.session_id@,
        ) && t.expected_session_version != 0 ==> Action::Timeout(t).is_command(
            "handoff.timeout"@,
            contents_valid,
        ),
        text::is_identity(i.handoff_id@) && text::is_identity(i.inspector_person_id@)
            && i.expected_handoff_version != 0 && text::is_identity(i.session_id@)
            && i.expected_session_version != 0 ==> Action::Inspect(i).is_command(
            "handoff.inspect"@,
            contents_valid,
        ),
{
}

/// An applied command is answered with the handoff as it stands and with the duty, and says that a
/// timeout stops no execution.
pub proof fn applied_handoffs_are_told(h: TeamHandoff, duty: JsonView, context_requires_refresh: bool, successor_may_execute: bool)
    ensures
        json::field(applied_doc(h, duty, context_requires_refresh, successor_may_execute), "handoff_id"@) == Some(JsonView::Str(h.id@)),
        json::field(applied_doc(h, duty, context_requires_refresh, successor_may_execute), "kind"@) == Some(JsonView::Str(h.kind.name())),
        json::field(applied_doc(h, duty, context_requires_refresh, successor_may_execute), "status"@) == Some(JsonView::Str(h.status.name())),
        json::field(applied_doc(h, duty, context_requires_refresh, successor_may_execute), "version"@) == Some(JsonView::Str(text::digits(h.version as nat))),
        json::field(applied_doc(h, duty, context_requires_refresh, successor_may_execute), "duty"@) == Some(duty),
        json::field(applied_doc(h, duty, context_requires_refresh, successor_may_execute), "context_requires_refresh"@) == Some(JsonView::Bool(context_requires_refresh)),
        json::field(applied_doc(h, duty, context_requires_refresh, successor_may_execute), "successor_may_execute"@) == Some(JsonView::Bool(successor_may_execute)),
        json::field(applied_doc(h, duty, context_requires_refresh, successor_may_execute), "timeout_does_not_stop_execution"@) == Some(JsonView::Bool(true)),
{
    reveal_strlit("handoff_id");
    reveal_strlit("kind");
    reveal_strlit("status");
    reveal_strlit("version");
    reveal_strlit("duty");
    reveal_strlit("context_requires_refresh");
    reveal_strlit("successor_may_execute");
    reveal_strlit("timeout_does_not_stop_execution");
    assert("handoff_id"@.len() == 10);
    assert("kind"@.len() == 4);
    assert("status"@.len() == 6);
    assert("version"@.len() == 7);
    assert("duty"@.len() == 4);
    assert("context_requires_refresh"@.len() == 24);
    assert("successor_may_execute"@.len() == 21);
    assert("timeout_does_not_stop_execution"@.len() == 31);
    assert("kind"@[0] == 'k');
    assert("duty"@[0] == 'd');
    let f = applied_doc(h, duty, context_requires_refresh, successor_may_execute)->Obj_0;
    json::field_is_first(f, "handoff_id"@, 0);
    json::field_is_first(f, "kind"@, 1);
    json::field_is_first(f, "status"@, 2);
    json::field_is_first(f, "version"@, 3);
    json::field_is_first(f, "duty"@, 4);
    json::field_is_first(f, "context_requires_refresh"@, 5);
    json::field_is_first(f, "successor_may_execute"@, 6);
    json::field_is_first(f, "timeout_does_not_stop_execution"@, 7);
}

/// The event of a handoff names it, its status and its kind.
pub proof fn handoff_events_are_told(h: TeamHandoff)
    ensures
        json::field(event_doc(h), "handoff_id"@) == Some(JsonView::Str(h.id@)),
        json::field(event_doc(h), "status"@) == Some(JsonView::Str(h.status.name())),
        json::field(event_doc(h), "kind"@) == Some(JsonView::Str(h.kind.name())),
{
    reveal_strlit("handoff_id");
    reveal_strlit("status");
    reveal_strlit("kind");
    assert("handoff_id"@.len() == 10);
    assert("status"@.len() == 6);
    assert("kind"@.len() == 4);
    let f = event_doc(h)->Obj_0;
    json::field_is_first(f, "handoff_id"@, 0);
    json::field_is_first(f, "status"@, 1);
    json::field_is_first(f, "kind"@, 2);
}

/// A question about a handoff is answered with it and with the duty.
pub proof fn inspected_handoffs_are_told(handoff: JsonView, duty: JsonView)
    ensures
        json::field(inspected_doc(handoff, duty), "handoff"@) == Some(handoff),
        json::field(inspected_doc(handoff, duty), "duty"@) == Some(duty),
        json::field(inspected_doc(handoff, duty), "context_requires_refresh"@) == Some(JsonView::Bool(true)),
        json::field(inspected_doc(handoff, duty), "timeout_does_not_stop_execution"@) == Some(JsonView::Bool(true)),
{
    reveal_strlit("handoff");
    reveal_strlit("duty");
    reveal_strlit("context_requires_refresh");
    reveal_strlit("timeout_does_not_stop_execution");
    assert("handoff"@.len() == 7);
    assert("duty"@.len() == 4);
    assert("context_requires_refresh"@.len() == 24);
    assert("timeout_does_not_stop_execution"@.len() == 31);
    let f = inspected_doc(handoff, duty)->Obj_0;
    json::field_is_first(f, "handoff"@, 0);
    json::field_is_first(f, "duty"@, 1);
    json::field_is_first(f, "context_requires_refresh"@, 2);
    json::field_is_first(f, "timeout_does_not_stop_execution"@, 3);
}

/// The names of the commands, and the session that each is given in.
pub proof fn commands_are_spelled(a: Action)
    ensures
        a is Propose ==> a.op() == "handoff.propose"@,
        a is Inspect ==> a.op() == "handoff.inspect"@,
        a is Accept ==> a.op() == "handoff.accept"@,
        a is Reject ==> a.op() == "handoff.reject"@,
        a is Cancel ==> a.op() == "handoff.cancel"@,
        a is Timeout ==> a.op() == "handoff.timeout"@,
        a matches Action::Propose(x) ==> a.in_session() == (
            x.session_id@,
            x.expected_session_version as int,
        ),
        a matches Action::Inspect(x) ==> a.in_session() == (
            x.session_id@,
            x.expected_session_version as int,
        ),
        a matches Action::Accept(x) ==> a.in_session() == (
            x.session_id@,
            x.expected_session_version as int,
        ),
        a matches Action::Reject(x) ==> a.in_session() == (
            x.session_id@,
            x.expected_session_version as int,
        ),
        a matches Action::Cancel(x) ==> a.in_session() == (
            x.session_id@,
            x.expected_session_version as int,
        ),
        a matches Action::Timeout(x) ==> a.in_session() == (
            x.session_id@,
            x.expected_session_version as int,
        ),
{
}

/// A reason says something, and is not longer than two thousand and forty-eight bytes.
pub proof fn reasons_are_short_and_say_something(s: Seq<char>)
    ensures
        text::is_blank(s) ==> !is_reason(s),
        encode_utf8(s).len() > 2048 ==> !is_reason(s),
        !text::is_blank(s) && encode_utf8(s).len() <= 2048 ==> is_reason(s),
{
}

} // verus!
