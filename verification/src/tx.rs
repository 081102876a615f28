//! Commands in general: identifiers, request hashes, and the one command that every
//! project has.
use crate::error::{protocol, Fault, PgError, PgResult};
use crate::json;
use crate::json::{Doc, Json, JsonView};
use crate::pool::PgPool;
use crate::text;
use vstd::prelude::*;
use vstd::utf8::*;

verus! {

broadcast use {vstd::string::group_string_axioms, vstd::utf8::group_utf8_lib};

/// A digit of an identifier: a digit or a capital letter other than I, L, O and U.
pub open spec fn is_ulid_digit(c: char) -> bool {
    ||| '0' <= c <= '9'
    ||| 'A' <= c <= 'Z' && c != 'I' && c != 'L' && c != 'O' && c != 'U'
}

/// An identifier as it is given out: 26 digits.
pub open spec fn is_ulid(s: Seq<char>) -> bool {
    &&& s.len() == 26
    &&& forall|i: int| 0 <= i < s.len() ==> is_ulid_digit(#[trigger] s[i])
}

/// `ulid::Ulid::new` and its `to_string`: a text of 26 digits, made from the time and from
/// chance. Nothing else is claimed of it, not even that two of them differ.
#[verifier::external_body]
fn ulid_text() -> (r: String)
    ensures
        is_ulid(r@),
{
    ulid::Ulid::new().to_string()
}

/// Identifiers as they are given out are identities.
pub proof fn ulids_are_identities(s: Seq<char>)
    requires
        is_ulid(s),
    ensures
        text::is_identity(s),
{
    assert forall|i: int| 0 <= i < s.len() implies 0 <= #[trigger] s[i] as u32 <= 127
        && !text::is_control(s[i]) by {
        assert(is_ulid_digit(s[i]));
    }
    assert(is_ascii_chars(s));
    is_ascii_chars_encode_utf8(s);
}

/// A new identifier.
pub fn new_id() -> (r: String)
    ensures
        is_ulid(r@),
        text::is_identity(r@),
{
    let id = ulid_text();
    proof {
        ulids_are_identities(id@);
    }
    id
}

/// A command of a client.
#[derive(Debug)]
pub struct CommandRequest {
    pub tenant_id: String,
    pub project_id: String,
    pub actor_id: String,
    pub client_id: String,
    pub request_id: String,
    pub op: String,
    pub args: Json,
}

/// What a command led to.
#[derive(Debug)]
pub struct CommandOutcome {
    pub replayed: bool,
    pub committed_project_revision: String,
    pub result: Json,
}

/// The model of what a command led to.
pub struct OutcomeView {
    pub replayed: bool,
    pub committed_project_revision: Seq<char>,
    pub result: JsonView,
}

impl View for CommandOutcome {
    type V = OutcomeView;

    open spec fn view(&self) -> OutcomeView {
        OutcomeView {
            replayed: self.replayed,
            committed_project_revision: self.committed_project_revision@,
            result: self.result.model(),
        }
    }
}

/// The document by whose digest a command is known again.
pub open spec fn request_doc(req: CommandRequest) -> JsonView {
    JsonView::Obj(
        json::no_fields().push(("op"@, JsonView::Str(req.op@))).push(
            ("args"@, req.args.model()),
        ).push(("tenant_id"@, JsonView::Str(req.tenant_id@))).push(
            ("project_id"@, JsonView::Str(req.project_id@)),
        ).push(("actor_id"@, JsonView::Str(req.actor_id@))).push(
            ("client_id"@, JsonView::Str(req.client_id@)),
        ).push(("request_id"@, JsonView::Str(req.request_id@))),
    )
}

/// The document by whose digest a command is known again.
pub fn request_document(req: &CommandRequest) -> (r: Json)
    ensures
        r.model() == request_doc(*req),
{
    Doc::new().put("op", json::text(req.op.as_str())).put("args", req.args.copy()).put(
        "tenant_id",
        json::text(req.tenant_id.as_str()),
    ).put("project_id", json::text(req.project_id.as_str())).put(
        "actor_id",
        json::text(req.actor_id.as_str()),
    ).put("client_id", json::text(req.client_id.as_str())).put(
        "request_id",
        json::text(req.request_id.as_str()),
    ).json()
}

/// A command that was executed before.
#[derive(Debug)]
pub struct StoredCommand {
    pub request_hash: String,
    pub committed_project_revision: i64,
    pub result: Json,
}

/// A work that a command touches.
#[derive(Debug)]
pub struct Touch {
    pub work_id: String,
    pub scope_id: String,
    pub result: Json,
}

/// The model of a touch.
pub struct TouchView {
    pub work_id: Seq<char>,
    pub scope_id: Seq<char>,
    pub result: JsonView,
}

impl View for Touch {
    type V = TouchView;

    open spec fn view(&self) -> TouchView {
        TouchView {
            work_id: self.work_id@,
            scope_id: self.scope_id@,
            result: self.result.model(),
        }
    }
}

/// The result of touching a work.
pub open spec fn touch_doc(work_id: Seq<char>, revision: int) -> JsonView {
    JsonView::Obj(
        json::no_fields().push(("op"@, JsonView::Str("work.touch"@))).push(
            ("work_id"@, JsonView::Str(work_id)),
        ).push(("revision"@, JsonView::Int(revision))),
    )
}

/// What a command does: only works are touched, and the command names the work and its scope.
pub open spec fn applied(req: CommandRequest, revision: int) -> Result<TouchView, Fault> {
    if req.op@ != "work.touch"@ {
        Err(Fault::Protocol("unsupported op "@ + req.op@))
    } else {
        match json::text_field(req.args.model(), "work_id"@) {
            None => Err(Fault::Protocol("work_id required"@)),
            Some(work_id) => match json::text_field(req.args.model(), "scope_id"@) {
                None => Err(Fault::Protocol("scope_id required"@)),
                Some(scope_id) => Ok(
                    TouchView { work_id, scope_id, result: touch_doc(work_id, revision) },
                ),
            },
        }
    }
}

fn apply_op(req: &CommandRequest, revision: i64) -> (r: PgResult<Touch>)
    ensures
        match r {
            Ok(t) => applied(*req, revision as int) == Ok::<TouchView, Fault>(t@),
            Err(e) => applied(*req, revision as int) == Err::<TouchView, Fault>(e@),
        },
{
    if !text::same(req.op.as_str(), "work.touch") {
        return Err(
            PgError::Protocol(text::plus("unsupported op ".to_owned(), req.op.as_str())),
        );
    }
    let work_id = match req.args.get_str("work_id") {
        Some(s) => s.to_owned(),
        None => {
            return Err(protocol("work_id required"));
        },
    };
    let scope_id = match req.args.get_str("scope_id") {
        Some(s) => s.to_owned(),
        None => {
            return Err(protocol("scope_id required"));
        },
    };
    let result = Doc::new().put("op", json::text("work.touch")).put(
        "work_id",
        json::text(work_id.as_str()),
    ).put("revision", json::number(revision)).json();
    Ok(Touch { work_id, scope_id, result })
}

/// What a command leads to.
#[derive(Debug)]
pub enum Executed {
    /// It was executed before.
    Replay(CommandOutcome),
    /// The work is touched, the event and the command are stored, and the project has its next
    /// revision.
    Apply { revision: i64, event_type: String, touch: Touch, outcome: CommandOutcome },
}

/// The model of what a command leads to.
pub enum ExecutedView {
    Replay(OutcomeView),
    Apply { revision: int, event_type: Seq<char>, touch: TouchView, outcome: OutcomeView },
}

impl View for Executed {
    type V = ExecutedView;

    open spec fn view(&self) -> ExecutedView {
        match self {
            Executed::Replay(o) => ExecutedView::Replay(o@),
            Executed::Apply { revision, event_type, touch, outcome } => ExecutedView::Apply {
                revision: *revision as int,
                event_type: event_type@,
                touch: touch@,
                outcome: outcome@,
            },
        }
    }
}

/// What a command leads to, in a project of a given revision.
pub open spec fn executed(
    req: CommandRequest,
    request_hash: Seq<char>,
    revision: Option<i64>,
    stored: Option<&StoredCommand>,
) -> Result<ExecutedView, Fault> {
    match revision {
        None => Err(Fault::ProjectNotAvailable),
        Some(rev) => match stored {
            Some(s) => if s.request_hash@ != request_hash {
                Err(Fault::IdempotencyConflict)
            } else {
                Ok(
                    ExecutedView::Replay(
                        OutcomeView {
                            replayed: true,
                            committed_project_revision: text::decimal_form(
                                s.committed_project_revision as int,
                            ),
                            result: s.result.model(),
                        },
                    ),
                )
            },
            None => match applied(req, rev + 1) {
                Err(f) => Err(f),
                Ok(touch) => Ok(
                    ExecutedView::Apply {
                        revision: rev + 1,
                        event_type: "command."@ + req.op@,
                        touch,
                        outcome: OutcomeView {
                            replayed: false,
                            committed_project_revision: text::decimal_form(rev + 1),
                            result: touch.result,
                        },
                    },
                ),
            },
        },
    }
}

/// The rules of commands, for one database.
pub struct TeamStore {
    pub pool: PgPool,
}

impl TeamStore {
    pub fn new(url: &str) -> (r: TeamStore)
        ensures
            r.pool.address() == url@,
    {
        TeamStore { pool: PgPool::new(url) }
    }

    /// What a command leads to.
    pub fn execute(
        &self,
        request: &CommandRequest,
        request_hash: &str,
        revision: Option<i64>,
        stored: Option<&StoredCommand>,
    ) -> (r: PgResult<Executed>)
        requires
            revision is Some && stored is None ==> revision->Some_0 < i64::MAX,
        ensures
            match r {
                Ok(x) => executed(*request, request_hash@, revision, stored) == Ok::<
                    ExecutedView,
                    Fault,
                >(x@),
                Err(e) => executed(*request, request_hash@, revision, stored) == Err::<
                    ExecutedView,
                    Fault,
                >(e@),
            },
    {
        let rev: i64 = match revision {
            Some(rev) => rev,
            None => {
                return Err(PgError::ProjectNotAvailable);
            },
        };
        if let Some(s) = stored {
            if !text::same(s.request_hash.as_str(), request_hash) {
                return Err(PgError::IdempotencyConflict);
            }
            return Ok(
                Executed::Replay(
                    CommandOutcome {
                        replayed: true,
                        committed_project_revision: text::decimal(s.committed_project_revision),
                        result: s.result.copy(),
                    },
                ),
            );
        }
        let next: i64 = rev + 1;
        let touch = apply_op(request, next)?;
        let outcome = CommandOutcome {
            replayed: false,
            committed_project_revision: text::decimal(next),
            result: touch.result.copy(),
        };
        let event_type = text::plus("command.".to_owned(), request.op.as_str());
        Ok(Executed::Apply { revision: next, event_type, touch, outcome })
    }
}

/// A command that was executed once leads to the same outcome when it comes again, marked as
/// executed before, whatever revision the project has by then.
pub proof fn executed_commands_replay(
    req: CommandRequest,
    request_hash: Seq<char>,
    revision: i64,
    stored: StoredCommand,
    later: i64,
)
    requires
        stored.request_hash@ == request_hash,
        executed(req, request_hash, Some(revision), None) matches Ok(
            ExecutedView::Apply { revision: committed, outcome, .. },
        ) && committed == stored.committed_project_revision && outcome.result
            == stored.result.model(),
    ensures
        executed(req, request_hash, Some(revision), None) matches Ok(
            ExecutedView::Apply { outcome, .. },
        ) && executed(req, request_hash, Some(later), Some(&stored)) == Ok::<ExecutedView, Fault>(
            ExecutedView::Replay(OutcomeView { replayed: true, ..outcome }),
        ),
{
}

/// A request id stands for one command: another command under the same id is refused.
pub proof fn request_ids_stand_for_one_command(
    req: CommandRequest,
    request_hash: Seq<char>,
    revision: i64,
    stored: StoredCommand,
)
    requires
        stored.request_hash@ != request_hash,
    ensures
        executed(req, request_hash, Some(revision), Some(&stored)) == Err::<ExecutedView, Fault>(
            Fault::IdempotencyConflict,
        ),
{
}

/// A new command touches the work that it names, under the next revision of the project, and is
/// refused where it is another command or names no work or no scope.
pub proof fn new_commands_touch_their_work(
    req: CommandRequest,
    request_hash: Seq<char>,
    revision: i64,
)
    ensures
        ({
            let answer = executed(req, request_hash, Some(revision), None);
            let work = json::text_field(req.args.model(), "work_id"@);
            let scope = json::text_field(req.args.model(), "scope_id"@);
            &&& req.op@ != "work.touch"@ ==> answer == Err::<ExecutedView, Fault>(
                Fault::Protocol("unsupported op "@ + req.op@),
            )
            &&& req.op@ == "work.touch"@ && work is None ==> answer == Err::<ExecutedView, Fault>(
                Fault::Protocol("work_id required"@),
            )
            &&& req.op@ == "work.touch"@ && work is Some && scope is None ==> answer == Err::<
                ExecutedView,
                Fault,
            >(Fault::Protocol("scope_id required"@))
            &&& req.op@ == "work.touch"@ && work is Some && scope is Some ==> (answer matches Ok(
                ExecutedView::Apply { revision: next, event_type, touch, outcome },
            ) && {
                &&& next == revision + 1
                &&& event_type == "command."@ + req.op@
                &&& touch.work_id == work->Some_0
                &&& touch.scope_id == scope->Some_0
                &&& !outcome.replayed
                &&& outcome.result == touch.result
                &&& text::parsed_int(outcome.committed_project_revision) == Some(revision + 1) || revision
                    == i64::MAX
                &&& json::field(touch.result, "op"@) == Some(JsonView::Str("work.touch"@))
                &&& json::field(touch.result, "work_id"@) == Some(JsonView::Str(work->Some_0))
                &&& json::field(touch.result, "revision"@) == Some(JsonView::Int(revision + 1))
            })
        }),
        executed(req, request_hash, None, None) == Err::<ExecutedView, Fault>(
            Fault::ProjectNotAvailable,
        ),
{
    let work = json::text_field(req.args.model(), "work_id"@);
    if work is Some {
        touches_are_told(work->Some_0, revision + 1);
    }
    if revision < i64::MAX {
        text::integers_read_back((revision + 1) as i64);
    }
}

/// A command that was executed is answered with what was stored of it.
pub proof fn stored_commands_answer(
    req: CommandRequest,
    revision: i64,
    s: StoredCommand,
)
    ensures
        executed(req, s.request_hash@, Some(revision), Some(&s)) matches Ok(
            ExecutedView::Replay(outcome),
        ) && outcome.replayed && outcome.result == s.result.model() && text::parsed_int(
            outcome.committed_project_revision,
        ) == Some(s.committed_project_revision as int),
{
    text::integers_read_back(s.committed_project_revision);
}

/// An identifier that is given out has 26 characters, digits and capital letters.
pub proof fn identifiers_are_digits_and_capitals(s: Seq<char>, i: int)
    requires
        is_ulid(s),
        0 <= i < 26,
    ensures
        s.len() == 26,
        '0' <= s[i] <= '9' || 'A' <= s[i] <= 'Z',
{
    assert(is_ulid_digit(s[i]));
}

/// A touch is answered with the work and the revision.
pub proof fn touches_are_told(work_id: Seq<char>, revision: int)
    ensures
        json::field(touch_doc(work_id, revision), "op"@) == Some(JsonView::Str("work.touch"@)),
        json::field(touch_doc(work_id, revision), "work_id"@) == Some(JsonView::Str(work_id)),
        json::field(touch_doc(work_id, revision), "revision"@) == Some(JsonView::Int(revision)),
{
    reveal_strlit("op");
    reveal_strlit("work_id");
    reveal_strlit("revision");
    assert("op"@.len() == 2);
    assert("work_id"@.len() == 7);
    assert("revision"@.len() == 8);
    let f = touch_doc(work_id, revision)->Obj_0;
    json::field_is_first(f, "op"@, 0);
    json::field_is_first(f, "work_id"@, 1);
    json::field_is_first(f, "revision"@, 2);
}

/// A command is known again by everything that it says and by whom it comes from.
pub proof fn commands_are_known_by_everything(req: CommandRequest)
    ensures
        json::field(request_doc(req), "op"@) == Some(JsonView::Str(req.op@)),
        json::field(request_doc(req), "args"@) == Some(req.args.model()),
        json::field(request_doc(req), "tenant_id"@) == Some(JsonView::Str(req.tenant_id@)),
        json::field(request_doc(req), "project_id"@) == Some(JsonView::Str(req.project_id@)),
        json::field(request_doc(req), "actor_id"@) == Some(JsonView::Str(req.actor_id@)),
        json::field(request_doc(req), "client_id"@) == Some(JsonView::Str(req.client_id@)),
        json::field(request_doc(req), "request_id"@) == Some(JsonView::Str(req.request_id@)),
{
    reveal_strlit("op");
    reveal_strlit("args");
    reveal_strlit("tenant_id");
    reveal_strlit("project_id");
    reveal_strlit("actor_id");
    reveal_strlit("client_id");
    reveal_strlit("request_id");
    assert("op"@.len() == 2);
    assert("args"@.len() == 4);
    assert("tenant_id"@.len() == 9);
    assert("project_id"@.len() == 10);
    assert("actor_id"@.len() == 8);
    assert("client_id"@.len() == 9);
    assert("request_id"@.len() == 10);
    assert("tenant_id"@[0] == 't');
    assert("client_id"@[0] == 'c');
    assert("project_id"@[0] == 'p');
    assert("request_id"@[0] == 'r');
    let f = request_doc(req)->Obj_0;
    json::field_is_first(f, "op"@, 0);
    json::field_is_first(f, "args"@, 1);
    json::field_is_first(f, "tenant_id"@, 2);
    json::field_is_first(f, "project_id"@, 3);
    json::field_is_first(f, "actor_id"@, 4);
    json::field_is_first(f, "client_id"@, 5);
    json::field_is_first(f, "request_id"@, 6);
}

} // verus!
