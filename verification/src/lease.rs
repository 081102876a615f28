//! Sessions and claims: who works on what, and for how long. A claim carries a fence that only
//! grows, so that what an earlier holder does can be told apart.
use crate::error;
use crate::error::{protocol, Fault, PgError, PgResult};
use crate::json;
use crate::json::{Doc, Json, JsonView};
use crate::operation::StoredOperation;
use crate::pool::PgPool;
use crate::text;
use vstd::prelude::*;

verus! {

/// How long a claim lasts that was handed over.
pub const HANDOFF_TTL_SECONDS: i32 = 60;

/// A session as it is reported to callers.
#[derive(Clone, Debug)]
pub struct SessionRecord {
    pub id: String,
    pub actor_id: String,
    pub client_id: String,
    pub conversation_id: String,
    pub work_id: String,
    pub state: String,
}

/// A claim as it is reported to callers.
#[derive(Clone, Debug)]
pub struct ClaimRecord {
    pub id: String,
    pub session_id: String,
    pub actor_id: String,
    pub work_id: String,
    pub fence: i64,
    pub lease_version: i64,
    pub expires_at: String,
    pub state: String,
    pub replayed: bool,
}

/// The model of a claim.
pub struct ClaimView {
    pub id: Seq<char>,
    pub session_id: Seq<char>,
    pub actor_id: Seq<char>,
    pub work_id: Seq<char>,
    pub fence: int,
    pub lease_version: int,
    pub expires_at: Seq<char>,
    pub state: Seq<char>,
    pub replayed: bool,
}

impl View for ClaimRecord {
    type V = ClaimView;

    open spec fn view(&self) -> ClaimView {
        ClaimView {
            id: self.id@,
            session_id: self.session_id@,
            actor_id: self.actor_id@,
            work_id: self.work_id@,
            fence: self.fence as int,
            lease_version: self.lease_version as int,
            expires_at: self.expires_at@,
            state: self.state@,
            replayed: self.replayed,
        }
    }
}

/// The answer that is stored for a claim.
pub open spec fn claim_doc(c: ClaimView) -> JsonView {
    JsonView::Obj(
        json::no_fields().push(("id"@, JsonView::Str(c.id))).push(
            ("session_id"@, JsonView::Str(c.session_id)),
        ).push(("actor_id"@, JsonView::Str(c.actor_id))).push(
            ("work_id"@, JsonView::Str(c.work_id)),
        ).push(("fence"@, JsonView::Int(c.fence))).push(
            ("lease_version"@, JsonView::Int(c.lease_version)),
        ).push(("expires_at"@, JsonView::Str(c.expires_at))).push(
            ("state"@, JsonView::Str(c.state)),
        ),
    )
}

/// The answer that is stored for a claim.
pub fn claim_document(c: &ClaimRecord) -> (r: Json)
    ensures
        r.model() == claim_doc(c@),
{
    Doc::new().put("id", json::text(c.id.as_str())).put(
        "session_id",
        json::text(c.session_id.as_str()),
    ).put("actor_id", json::text(c.actor_id.as_str())).put(
        "work_id",
        json::text(c.work_id.as_str()),
    ).put("fence", json::number(c.fence)).put("lease_version", json::number(c.lease_version)).put(
        "expires_at",
        json::text(c.expires_at.as_str()),
    ).put("state", json::text(c.state.as_str())).json()
}

/// The claim that a stored answer gives back.
pub open spec fn replayed_claim(doc: JsonView) -> ClaimView {
    ClaimView {
        id: json::text_or_empty(doc, "id"@),
        session_id: json::text_or_empty(doc, "session_id"@),
        actor_id: json::text_or_empty(doc, "actor_id"@),
        work_id: json::text_or_empty(doc, "work_id"@),
        fence: match json::int_field(doc, "fence"@) {
            Some(n) => n,
            None => 0,
        },
        lease_version: match json::int_field(doc, "lease_version"@) {
            Some(n) => n,
            None => 0,
        },
        expires_at: json::text_or_empty(doc, "expires_at"@),
        state: match json::text_field(doc, "state"@) {
            Some(s) => s,
            None => "active"@,
        },
        replayed: true,
    }
}

/// The claim that a stored answer gives back.
pub fn replay_claim(result: &Json) -> (r: ClaimRecord)
    ensures
        r@ == replayed_claim(result.model()),
{
    let fence: i64 = match result.get_i64("fence") {
        Some(n) => n,
        None => 0,
    };
    let lease_version: i64 = match result.get_i64("lease_version") {
        Some(n) => n,
        None => 0,
    };
    let state = match result.get_str("state") {
        Some(s) => s.to_owned(),
        None => "active".to_owned(),
    };
    ClaimRecord {
        id: result.text_or_empty("id").to_owned(),
        session_id: result.text_or_empty("session_id").to_owned(),
        actor_id: result.text_or_empty("actor_id").to_owned(),
        work_id: result.text_or_empty("work_id").to_owned(),
        fence,
        lease_version,
        expires_at: result.text_or_empty("expires_at").to_owned(),
        state,
        replayed: true,
    }
}

/// A stored answer gives back the claim that it was made of, marked as given before.
pub proof fn claims_read_back(c: ClaimView)
    ensures
        replayed_claim(claim_doc(c)) == (ClaimView { replayed: true, ..c }),
{
    let fields = claim_doc(c)->Obj_0;
    reveal_strlit("id");
    reveal_strlit("session_id");
    reveal_strlit("actor_id");
    reveal_strlit("work_id");
    reveal_strlit("fence");
    reveal_strlit("lease_version");
    reveal_strlit("expires_at");
    reveal_strlit("state");
    assert("id"@.len() == 2);
    assert("session_id"@.len() == 10);
    assert("session_id"@[0] == 's');
    assert("expires_at"@.len() == 10);
    assert("expires_at"@[0] == 'e');
    assert("actor_id"@.len() == 8);
    assert("work_id"@.len() == 7);
    assert("fence"@.len() == 5);
    assert("fence"@[0] == 'f');
    assert("state"@.len() == 5);
    assert("state"@[0] == 's');
    assert("lease_version"@.len() == 13);
    json::field_is_first(fields, "id"@, 0);
    json::field_is_first(fields, "session_id"@, 1);
    json::field_is_first(fields, "actor_id"@, 2);
    json::field_is_first(fields, "work_id"@, 3);
    json::field_is_first(fields, "fence"@, 4);
    json::field_is_first(fields, "lease_version"@, 5);
    json::field_is_first(fields, "expires_at"@, 6);
    json::field_is_first(fields, "state"@, 7);
}

/// A session as it is stored.
#[derive(Clone, Debug)]
pub struct SessionRow {
    pub work_id: String,
    pub scope_id: String,
    pub actor_id: String,
    pub client_id: String,
    pub state: String,
}

/// A claim as it is stored.
#[derive(Clone, Debug)]
pub struct ClaimRow {
    pub session_id: String,
    pub actor_id: String,
    pub work_id: String,
    pub scope_id: String,
    pub fence: i64,
    pub lease_version: i64,
    pub state: String,
}

/// What a request to claim leads to.
#[derive(Debug)]
pub enum ClaimStep {
    /// It was answered before.
    Replay(ClaimRecord),
    /// The work of the session is claimed.
    Acquire { work_id: String, scope_id: String },
}

/// The model of what a request to claim leads to.
pub enum ClaimStepView {
    Replay(ClaimView),
    Acquire { work_id: Seq<char>, scope_id: Seq<char> },
}

impl View for ClaimStep {
    type V = ClaimStepView;

    open spec fn view(&self) -> ClaimStepView {
        match self {
            ClaimStep::Replay(c) => ClaimStepView::Replay(c@),
            ClaimStep::Acquire { work_id, scope_id } => ClaimStepView::Acquire {
                work_id: work_id@,
                scope_id: scope_id@,
            },
        }
    }
}

/// What a request to claim leads to. A request that was answered gets its answer again. A new one
/// needs an active session of the same actor and client, and a work that is not blocked, has no
/// open question and is not claimed by another actor.
pub open spec fn claimed(
    stored: Option<&StoredOperation>,
    session: Option<&SessionRow>,
    actor_id: Seq<char>,
    client_id: Seq<char>,
    blocked: bool,
    open_waits: i64,
    holder: Option<Seq<char>>,
) -> Result<ClaimStepView, Fault> {
    match stored {
        Some(s) => Ok(ClaimStepView::Replay(replayed_claim(s.result.model()))),
        None => match session {
            None => Err(Fault::SessionNotFound),
            Some(s) => if s.actor_id@ != actor_id || s.client_id@ != client_id || s.state@
                != "active"@ {
                Err(Fault::Forbidden)
            } else if blocked {
                Err(Fault::RecoveryBlocked)
            } else if open_waits > 0 {
                Err(Fault::WaitOpen)
            } else if holder is Some && holder != Some(actor_id) {
                Err(Fault::ClaimHeld)
            } else {
                Ok(ClaimStepView::Acquire { work_id: s.work_id@, scope_id: s.scope_id@ })
            },
        },
    }
}

/// The fence of the next claim of a work: one more than the last, and 1 for the first.
pub open spec fn following_fence(last: Option<i64>) -> int {
    match last {
        Some(n) => n + 1,
        None => 1,
    }
}

/// The fence of the next claim of a work.
pub fn next_fence(last: Option<i64>) -> (r: i64)
    requires
        last is Some ==> last->Some_0 < i64::MAX,
    ensures
        r == following_fence(last),
{
    match last {
        Some(n) => n + 1,
        None => 1,
    }
}

/// The version of a new claim.
pub const FIRST_LEASE_VERSION: i64 = 1;

/// A new claim: it is active, and has its first version.
pub open spec fn first_claim(
    claim_id: Seq<char>,
    session_id: Seq<char>,
    actor_id: Seq<char>,
    work_id: Seq<char>,
    fence: int,
    expires_at: Seq<char>,
) -> ClaimView {
    ClaimView {
        id: claim_id,
        session_id,
        actor_id,
        work_id,
        fence,
        lease_version: FIRST_LEASE_VERSION as int,
        expires_at,
        state: "active"@,
        replayed: false,
    }
}

/// What a request to renew a claim leads to.
#[derive(Debug)]
pub enum RenewStep {
    /// It was answered before.
    Replay(ClaimRecord),
    /// The claim lasts longer, under its next version.
    Extend { lease_version: i64 },
}

/// The model of what a request to renew a claim leads to.
pub enum RenewView {
    Replay(ClaimView),
    Extend { lease_version: int },
}

impl View for RenewStep {
    type V = RenewView;

    open spec fn view(&self) -> RenewView {
        match self {
            RenewStep::Replay(c) => RenewView::Replay(c@),
            RenewStep::Extend { lease_version } => RenewView::Extend {
                lease_version: *lease_version as int,
            },
        }
    }
}

/// What a request to renew a claim leads to: only the holder renews, and only what has not expired,
/// neither when it was read nor after what was due has expired.
pub open spec fn renewed(
    stored: Option<&StoredOperation>,
    row: Option<&ClaimRow>,
    actor_id: Seq<char>,
    still: Seq<char>,
) -> Result<RenewView, Fault> {
    match stored {
        Some(s) => Ok(RenewView::Replay(replayed_claim(s.result.model()))),
        None => match row {
            None => Err(Fault::Protocol("claim not found"@)),
            Some(c) => if c.actor_id@ != actor_id {
                Err(Fault::Forbidden)
            } else if still != "active"@ || c.state@ != "active"@ {
                Err(Fault::LeaseExpired)
            } else {
                Ok(RenewView::Extend { lease_version: c.lease_version + 1 })
            },
        },
    }
}

/// Whether the holder of a claim may give it up.
pub open spec fn given_up(row: Option<&ClaimRow>, actor_id: Seq<char>) -> Result<(), Fault> {
    match row {
        None => Err(Fault::Protocol("claim not found"@)),
        Some(c) => if c.actor_id@ != actor_id {
            Err(Fault::Forbidden)
        } else if c.state@ != "active"@ {
            Err(Fault::LeaseExpired)
        } else {
            Ok(())
        },
    }
}

/// A work is written to under the fence of its claim, by the holder of the claim.
pub open spec fn fenced(
    claim: Option<(int, Seq<char>)>,
    actor_id: Seq<char>,
    fence: int,
) -> Result<(), Fault> {
    match claim {
        None => Err(Fault::LeaseExpired),
        Some((current, holder)) => if holder != actor_id || current != fence {
            Err(Fault::StaleFence)
        } else {
            Ok(())
        },
    }
}

/// The rules of sessions and claims, for one database.
pub struct LeaseStore {
    pub pool: PgPool,
}

impl LeaseStore {
    pub fn new(url: &str) -> (r: LeaseStore)
        ensures
            r.pool.address() == url@,
    {
        LeaseStore { pool: PgPool::new(url) }
    }

    /// A new session.
    pub fn start_session(
        &self,
        id: &str,
        actor_id: &str,
        client_id: &str,
        conversation_id: &str,
        work_id: &str,
    ) -> (r: SessionRecord)
        ensures
            r.id@ == id@,
            r.actor_id@ == actor_id@,
            r.client_id@ == client_id@,
            r.conversation_id@ == conversation_id@,
            r.work_id@ == work_id@,
            r.state@ == "active"@,
    {
        SessionRecord {
            id: id.to_owned(),
            actor_id: actor_id.to_owned(),
            client_id: client_id.to_owned(),
            conversation_id: conversation_id.to_owned(),
            work_id: work_id.to_owned(),
            state: "active".to_owned(),
        }
    }

    /// What a request to claim leads to.
    pub fn claim(
        &self,
        stored: Option<&StoredOperation>,
        session: Option<&SessionRow>,
        actor_id: &str,
        client_id: &str,
        blocked: bool,
        open_waits: i64,
        holder: Option<&str>,
    ) -> (r: PgResult<ClaimStep>)
        ensures
            match r {
                Ok(step) => claimed(
                    stored,
                    session,
                    actor_id@,
                    client_id@,
                    blocked,
                    open_waits,
                    text::opt_str(holder),
                ) == Ok::<ClaimStepView, Fault>(step@),
                Err(e) => claimed(
                    stored,
                    session,
                    actor_id@,
                    client_id@,
                    blocked,
                    open_waits,
                    text::opt_str(holder),
                ) == Err::<ClaimStepView, Fault>(e@),
            },
    {
        if let Some(s) = stored {
            return Ok(ClaimStep::Replay(replay_claim(&s.result)));
        }
        let s = match session {
            Some(s) => s,
            None => {
                return Err(PgError::SessionNotFound);
            },
        };
        if !text::same(s.actor_id.as_str(), actor_id) || !text::same(
            s.client_id.as_str(),
            client_id,
        ) || !text::same(s.state.as_str(), "active") {
            return Err(PgError::Forbidden);
        }
        if blocked {
            return Err(PgError::RecoveryBlocked);
        }
        if open_waits > 0 {
            return Err(PgError::WaitOpen);
        }
        if let Some(h) = holder {
            if !text::same(h, actor_id) {
                return Err(PgError::ClaimHeld);
            }
        }
        Ok(
            ClaimStep::Acquire {
                work_id: s.work_id.as_str().to_owned(),
                scope_id: s.scope_id.as_str().to_owned(),
            },
        )
    }

    /// A claim that lost against another one that was stored at the same time is refused.
    pub fn claim_stored(&self, unique: bool) -> (r: PgResult<()>)
        ensures
            error::checked(r) == (if unique {
                Ok(())
            } else {
                Err(Fault::ClaimHeld)
            }),
    {
        if !unique {
            return Err(PgError::ClaimHeld);
        }
        Ok(())
    }

    /// The record of an active claim.
    pub fn granted(
        &self,
        claim_id: &str,
        session_id: &str,
        actor_id: &str,
        work_id: &str,
        fence: i64,
        lease_version: i64,
        expires_at: &str,
    ) -> (r: ClaimRecord)
        ensures
            r@ == (ClaimView {
                id: claim_id@,
                session_id: session_id@,
                actor_id: actor_id@,
                work_id: work_id@,
                fence: fence as int,
                lease_version: lease_version as int,
                expires_at: expires_at@,
                state: "active"@,
                replayed: false,
            }),
    {
        ClaimRecord {
            id: claim_id.to_owned(),
            session_id: session_id.to_owned(),
            actor_id: actor_id.to_owned(),
            work_id: work_id.to_owned(),
            fence,
            lease_version,
            expires_at: expires_at.to_owned(),
            state: "active".to_owned(),
            replayed: false,
        }
    }

    /// The record of a new claim.
    pub fn new_claim(
        &self,
        claim_id: &str,
        session_id: &str,
        actor_id: &str,
        work_id: &str,
        fence: i64,
        expires_at: &str,
    ) -> (r: ClaimRecord)
        ensures
            r@ == first_claim(claim_id@, session_id@, actor_id@, work_id@, fence as int, expires_at@),
    {
        self.granted(
            claim_id,
            session_id,
            actor_id,
            work_id,
            fence,
            FIRST_LEASE_VERSION,
            expires_at,
        )
    }

    /// By what a request is stored.
    pub fn request_hash(&self, op: &str, request_id: &str) -> (r: String)
        ensures
            r@ == op@ + ":"@ + request_id@,
    {
        text::plus(text::plus(op.to_owned(), ":"), request_id)
    }

    /// What a request to renew a claim leads to.
    pub fn renew(
        &self,
        stored: Option<&StoredOperation>,
        row: Option<&ClaimRow>,
        actor_id: &str,
        still: &str,
    ) -> (r: PgResult<RenewStep>)
        requires
            renewed(stored, row, actor_id@, still@) matches Ok(
                RenewView::Extend { lease_version },
            ) ==> lease_version <= i64::MAX,
        ensures
            match r {
                Ok(step) => renewed(stored, row, actor_id@, still@) == Ok::<RenewView, Fault>(
                    step@,
                ),
                Err(e) => renewed(stored, row, actor_id@, still@) == Err::<RenewView, Fault>(e@),
            },
    {
        if let Some(s) = stored {
            return Ok(RenewStep::Replay(replay_claim(&s.result)));
        }
        let c = match row {
            Some(c) => c,
            None => {
                return Err(protocol("claim not found"));
            },
        };
        if !text::same(c.actor_id.as_str(), actor_id) {
            return Err(PgError::Forbidden);
        }
        if !text::same(still, "active") || !text::same(c.state.as_str(), "active") {
            return Err(PgError::LeaseExpired);
        }
        Ok(RenewStep::Extend { lease_version: c.lease_version + 1 })
    }

    /// Whether the holder of a claim may release it.
    pub fn release(&self, row: Option<&ClaimRow>, actor_id: &str) -> (r: PgResult<()>)
        ensures
            error::checked(r) == given_up(row, actor_id@),
    {
        let c = match row {
            Some(c) => c,
            None => {
                return Err(protocol("claim not found"));
            },
        };
        if !text::same(c.actor_id.as_str(), actor_id) {
            return Err(PgError::Forbidden);
        }
        if !text::same(c.state.as_str(), "active") {
            return Err(PgError::LeaseExpired);
        }
        Ok(())
    }

    /// Whether the holder of a claim may hand it over.
    pub fn handoff(&self, row: Option<&ClaimRow>, actor_id: &str) -> (r: PgResult<()>)
        ensures
            error::checked(r) == given_up(row, actor_id@),
    {
        self.release(row, actor_id)
    }

    /// Whether a question may be asked: only under a live claim, whose end the question must not
    /// move.
    pub fn wait(&self, expires_before: Option<&str>, expires_after: &str) -> (r: PgResult<()>)
        ensures
            error::checked(r) == (match text::opt_str(expires_before) {
                None => Err(Fault::LeaseExpired),
                Some(before) => if before != expires_after@ {
                    Err(Fault::Protocol("wait must not renew the lease"@))
                } else {
                    Ok(())
                },
            }),
    {
        match expires_before {
            None => Err(PgError::LeaseExpired),
            Some(before) => {
                if !text::same(before, expires_after) {
                    return Err(protocol("wait must not renew the lease"));
                }
                Ok(())
            },
        }
    }

    /// Whether an answer was stored: exactly one open question takes it.
    pub fn reply(&self, updated: u64) -> (r: PgResult<()>)
        ensures
            error::checked(r) == (if updated == 1 {
                Ok(())
            } else {
                Err(Fault::Protocol("wait not open"@))
            }),
    {
        if updated != 1 {
            return Err(protocol("wait not open"));
        }
        Ok(())
    }

    /// Whether an actor may write under a fence.
    pub fn require_fence(
        &self,
        claim: Option<(i64, &str)>,
        actor_id: &str,
        fence: i64,
    ) -> (r: PgResult<()>)
        ensures
            error::checked(r) == fenced(
                match claim {
                    Some((current, holder)) => Some((current as int, holder@)),
                    None => None,
                },
                actor_id@,
                fence as int,
            ),
    {
        match claim {
            None => Err(PgError::LeaseExpired),
            Some((current, holder)) => {
                if !text::same(holder, actor_id) || current != fence {
                    return Err(PgError::StaleFence);
                }
                Ok(())
            },
        }
    }
}

/// A claim that was granted once is given back when the request comes again, whatever has happened
/// since.
pub proof fn granted_claims_replay(
    stored: StoredOperation,
    granted: ClaimView,
    session: Option<&SessionRow>,
    actor_id: Seq<char>,
    client_id: Seq<char>,
    blocked: bool,
    open_waits: i64,
    holder: Option<Seq<char>>,
)
    requires
        stored.result.model() == claim_doc(granted),
    ensures
        claimed(
            Some(&stored),
            session,
            actor_id,
            client_id,
            blocked,
            open_waits,
            holder,
        ) == Ok::<ClaimStepView, Fault>(
            ClaimStepView::Replay((ClaimView { replayed: true, ..granted })),
        ),
{
    claims_read_back(granted);
}

/// A new claim is acquired only in an active session of the same actor and client, and only where no
/// other actor holds one, nothing blocks the work and no question is open. It is active, has version
/// 1, and a fence one above the last of its work, or 1 for a work that was never claimed.
pub proof fn new_claims_are_exclusive(
    session: Option<&SessionRow>,
    actor_id: Seq<char>,
    client_id: Seq<char>,
    blocked: bool,
    open_waits: i64,
    holder: Option<Seq<char>>,
    claim_id: Seq<char>,
    session_id: Seq<char>,
    last: Option<i64>,
    expires_at: Seq<char>,
)
    requires
        claimed(None, session, actor_id, client_id, blocked, open_waits, holder) is Ok,
    ensures
        !blocked,
        open_waits <= 0,
        holder is None || holder == Some(actor_id),
        session is Some && session->Some_0.actor_id@ == actor_id && session->Some_0.client_id@
            == client_id && session->Some_0.state@ == "active"@,
        claimed(None, session, actor_id, client_id, blocked, open_waits, holder) matches Ok(
            ClaimStepView::Acquire { work_id, scope_id },
        ) && {
            let r = first_claim(
                claim_id,
                session_id,
                actor_id,
                work_id,
                following_fence(last),
                expires_at,
            );
            &&& work_id == session->Some_0.work_id@
            &&& scope_id == session->Some_0.scope_id@
            &&& r.work_id == work_id
            &&& r.actor_id == actor_id
            &&& last is Some ==> r.fence == last->Some_0 + 1
            &&& last is None ==> r.fence == 1
            &&& r.lease_version == 1
            &&& r.state == "active"@
            &&& !r.replayed
        },
{
}

/// Once a work is claimed anew, whoever still writes under an earlier fence is refused.
pub proof fn earlier_fences_are_stale(
    last: Option<i64>,
    earlier: int,
    holder: Seq<char>,
    actor_id: Seq<char>,
)
    requires
        last is Some ==> earlier <= last->Some_0,
        last is None ==> earlier <= 0,
    ensures
        earlier < following_fence(last),
        fenced(Some((following_fence(last), holder)), actor_id, earlier) == Err::<(), Fault>(
            Fault::StaleFence,
        ),
        fenced(Some((following_fence(last), holder)), holder, following_fence(last)) == Ok::<
            (),
            Fault,
        >(()),
{
}

/// A claim that its holder released, handed over or let expire is neither renewed nor given up
/// again.
pub proof fn ended_claims_stay_ended(row: ClaimRow, actor_id: Seq<char>, still: Seq<char>)
    requires
        row.state@ != "active"@,
    ensures
        renewed(None, Some(&row), actor_id, still) is Err,
        given_up(Some(&row), actor_id) is Err,
{
}

/// Only the holder of a claim renews it, gives it up or writes under it.
pub proof fn only_the_holder_acts(
    row: ClaimRow,
    actor_id: Seq<char>,
    still: Seq<char>,
    fence: int,
)
    requires
        row.actor_id@ != actor_id,
    ensures
        renewed(None, Some(&row), actor_id, still) == Err::<RenewView, Fault>(Fault::Forbidden),
        given_up(Some(&row), actor_id) == Err::<(), Fault>(Fault::Forbidden),
        fenced(Some((row.fence as int, row.actor_id@)), actor_id, fence) == Err::<(), Fault>(
            Fault::StaleFence,
        ),
{
}

/// A work is claimed exactly in an active session of the same actor and client, while the work is not
/// blocked, has no open question and is held by nobody else. Each refusal comes for its reason.
pub proof fn claims_are_granted_for_a_reason(
    s: SessionRow,
    actor: Seq<char>,
    client: Seq<char>,
    blocked: bool,
    waits: i64,
    holder: Option<Seq<char>>,
)
    ensures
        ({
            let answer = claimed(None, Some(&s), actor, client, blocked, waits, holder);
            let own = s.actor_id@ == actor && s.client_id@ == client && s.state@ == "active"@;
            let free = holder is None || holder == Some(actor);
            &&& !own ==> answer == Err::<ClaimStepView, Fault>(Fault::Forbidden)
            &&& own && blocked ==> answer == Err::<ClaimStepView, Fault>(Fault::RecoveryBlocked)
            &&& own && !blocked && waits > 0 ==> answer == Err::<ClaimStepView, Fault>(Fault::WaitOpen)
            &&& own && !blocked && waits <= 0 && !free ==> answer == Err::<ClaimStepView, Fault>(
                Fault::ClaimHeld,
            )
            &&& own && !blocked && waits <= 0 && free ==> answer == Ok::<ClaimStepView, Fault>(
                (ClaimStepView::Acquire { work_id: s.work_id@, scope_id: s.scope_id@ }),
            )
        }),
        claimed(None, None, actor, client, blocked, waits, holder) == Err::<ClaimStepView, Fault>(
            Fault::SessionNotFound,
        ),
{
}

/// A claim is renewed exactly by its holder, while it is active both when it was read and after what
/// was due has expired. Its version grows by one.
pub proof fn claims_are_renewed_by_their_holder(c: ClaimRow, actor: Seq<char>, still: Seq<char>)
    ensures
        ({
            let answer = renewed(None, Some(&c), actor, still);
            let live = still == "active"@ && c.state@ == "active"@;
            &&& c.actor_id@ != actor ==> answer == Err::<RenewView, Fault>(Fault::Forbidden)
            &&& c.actor_id@ == actor && !live ==> answer == Err::<RenewView, Fault>(Fault::LeaseExpired)
            &&& c.actor_id@ == actor && live ==> answer == Ok::<RenewView, Fault>(
                (RenewView::Extend { lease_version: c.lease_version + 1 }),
            )
        }),
        renewed(None, None, actor, still) == Err::<RenewView, Fault>(Fault::Protocol("claim not found"@)),
{
}

/// A claim is released or handed over exactly by its holder, while it is active.
pub proof fn claims_are_given_up_by_their_holder(c: ClaimRow, actor: Seq<char>)
    ensures
        c.actor_id@ != actor ==> given_up(Some(&c), actor) == Err::<(), Fault>(Fault::Forbidden),
        c.actor_id@ == actor && c.state@ != "active"@ ==> given_up(Some(&c), actor) == Err::<(), Fault>(
            Fault::LeaseExpired,
        ),
        c.actor_id@ == actor && c.state@ == "active"@ ==> given_up(Some(&c), actor) == Ok::<(), Fault>(
            (),
        ),
        given_up(None, actor) == Err::<(), Fault>(Fault::Protocol("claim not found"@)),
{
}

/// A work is written to exactly by the holder of its claim, under the fence of the claim.
pub proof fn writes_need_the_fence(current: int, holder: Seq<char>, actor: Seq<char>, fence: int)
    ensures
        fenced(Some((current, holder)), actor, fence) == (if holder == actor && current == fence {
            Ok::<(), Fault>(())
        } else {
            Err(Fault::StaleFence)
        }),
        fenced(None, actor, fence) == Err::<(), Fault>(Fault::LeaseExpired),
{
}

/// Fences grow by one from claim to claim, and the first is 1.
pub proof fn fences_grow_by_one(last: i64)
    ensures
        following_fence(None) == 1,
        following_fence(Some(last)) == last + 1,
{
}

/// An answer that was stored for a claim is read by the names of its values; what it lacks is empty or
/// zero, and the claim is taken as active.
pub proof fn stored_claims_are_read_by_name(doc: JsonView)
    ensures
        replayed_claim(doc).replayed,
        replayed_claim(doc).id == json::text_or_empty(doc, "id"@),
        replayed_claim(doc).session_id == json::text_or_empty(doc, "session_id"@),
        replayed_claim(doc).actor_id == json::text_or_empty(doc, "actor_id"@),
        replayed_claim(doc).work_id == json::text_or_empty(doc, "work_id"@),
        replayed_claim(doc).expires_at == json::text_or_empty(doc, "expires_at"@),
        json::int_field(doc, "fence"@) matches Some(n) ==> replayed_claim(doc).fence == n,
        json::int_field(doc, "fence"@) is None ==> replayed_claim(doc).fence == 0,
        json::int_field(doc, "lease_version"@) matches Some(n) ==> replayed_claim(doc).lease_version == n,
        json::int_field(doc, "lease_version"@) is None ==> replayed_claim(doc).lease_version == 0,
        json::text_field(doc, "state"@) matches Some(s) ==> replayed_claim(doc).state == s,
        json::text_field(doc, "state"@) is None ==> replayed_claim(doc).state == "active"@,
{
}

/// A claim is stored with each of its values under the name of the value.
pub proof fn claims_are_told(c: ClaimView)
    ensures
        json::field(claim_doc(c), "id"@) == Some(JsonView::Str(c.id)),
        json::field(claim_doc(c), "session_id"@) == Some(JsonView::Str(c.session_id)),
        json::field(claim_doc(c), "actor_id"@) == Some(JsonView::Str(c.actor_id)),
        json::field(claim_doc(c), "work_id"@) == Some(JsonView::Str(c.work_id)),
        json::field(claim_doc(c), "fence"@) == Some(JsonView::Int(c.fence)),
        json::field(claim_doc(c), "lease_version"@) == Some(JsonView::Int(c.lease_version)),
        json::field(claim_doc(c), "expires_at"@) == Some(JsonView::Str(c.expires_at)),
        json::field(claim_doc(c), "state"@) == Some(JsonView::Str(c.state)),
{
    reveal_strlit("id");
    reveal_strlit("session_id");
    reveal_strlit("actor_id");
    reveal_strlit("work_id");
    reveal_strlit("fence");
    reveal_strlit("lease_version");
    reveal_strlit("expires_at");
    reveal_strlit("state");
    assert("id"@.len() == 2);
    assert("session_id"@.len() == 10);
    assert("actor_id"@.len() == 8);
    assert("work_id"@.len() == 7);
    assert("fence"@.len() == 5);
    assert("lease_version"@.len() == 13);
    assert("expires_at"@.len() == 10);
    assert("state"@.len() == 5);
    assert("session_id"@[0] == 's');
    assert("expires_at"@[0] == 'e');
    assert("fence"@[0] == 'f');
    assert("state"@[0] == 's');
    let f = claim_doc(c)->Obj_0;
    json::field_is_first(f, "id"@, 0);
    json::field_is_first(f, "session_id"@, 1);
    json::field_is_first(f, "actor_id"@, 2);
    json::field_is_first(f, "work_id"@, 3);
    json::field_is_first(f, "fence"@, 4);
    json::field_is_first(f, "lease_version"@, 5);
    json::field_is_first(f, "expires_at"@, 6);
    json::field_is_first(f, "state"@, 7);
}

} // verus!
