//! Deliveries between works: a work that depends on what another one delivers adopts it on the
//! ground of a completion that the store itself vouches for.
use crate::error;
use crate::error::{protocol, Fault, PgError, PgResult};
use crate::pool::PgPool;
use crate::text;
use vstd::prelude::*;

verus! {

/// Whether a dependency stays with a delivery or follows the current contract.
#[derive(Clone, Copy, Debug, PartialEq, Eq, Structural)]
pub enum DeliveryVersionPolicy {
    FixedDelivery,
    CurrentContract,
}

impl DeliveryVersionPolicy {
    pub open spec fn name(self) -> Seq<char> {
        match self {
            DeliveryVersionPolicy::FixedDelivery => "fixed_delivery"@,
            DeliveryVersionPolicy::CurrentContract => "current_contract"@,
        }
    }
}

/// The name of a policy in stored rows.
pub fn policy_str(p: DeliveryVersionPolicy) -> (r: &'static str)
    ensures
        r@ == p.name(),
{
    match p {
        DeliveryVersionPolicy::FixedDelivery => "fixed_delivery",
        DeliveryVersionPolicy::CurrentContract => "current_contract",
    }
}

#[derive(Clone, Copy, Debug, PartialEq, Eq, Structural)]
pub enum HardDependencyStatus {
    Active,
    Revoked,
}

impl HardDependencyStatus {
    pub open spec fn name(self) -> Seq<char> {
        match self {
            HardDependencyStatus::Active => "active"@,
            HardDependencyStatus::Revoked => "revoked"@,
        }
    }
}

/// The name of the state of a dependency in stored rows.
pub fn dep_status_str(s: HardDependencyStatus) -> (r: &'static str)
    ensures
        r@ == s.name(),
{
    match s {
        HardDependencyStatus::Active => "active",
        HardDependencyStatus::Revoked => "revoked",
    }
}

#[derive(Clone, Copy, Debug, PartialEq, Eq, Structural)]
pub enum ExportAuthorizationStatus {
    Granted,
    Denied,
    Revoked,
}

impl ExportAuthorizationStatus {
    pub open spec fn name(self) -> Seq<char> {
        match self {
            ExportAuthorizationStatus::Granted => "granted"@,
            ExportAuthorizationStatus::Denied => "denied"@,
            ExportAuthorizationStatus::Revoked => "revoked"@,
        }
    }
}

/// The name of the state of an export in stored rows.
pub fn export_status_str(s: ExportAuthorizationStatus) -> (r: &'static str)
    ensures
        r@ == s.name(),
{
    match s {
        ExportAuthorizationStatus::Granted => "granted",
        ExportAuthorizationStatus::Denied => "denied",
        ExportAuthorizationStatus::Revoked => "revoked",
    }
}

#[derive(Clone, Copy, Debug, PartialEq, Eq, Structural)]
pub enum AdoptionCredentialStatus {
    Active,
    Stale,
    Revoked,
}

impl AdoptionCredentialStatus {
    pub open spec fn name(self) -> Seq<char> {
        match self {
            AdoptionCredentialStatus::Active => "active"@,
            AdoptionCredentialStatus::Stale => "stale"@,
            AdoptionCredentialStatus::Revoked => "revoked"@,
        }
    }
}

/// The name of the state of a credential in stored rows.
pub fn cred_status_str(s: AdoptionCredentialStatus) -> (r: &'static str)
    ensures
        r@ == s.name(),
{
    match s {
        AdoptionCredentialStatus::Active => "active",
        AdoptionCredentialStatus::Stale => "stale",
        AdoptionCredentialStatus::Revoked => "revoked",
    }
}

/// Each policy and each state has a name of its own.
pub proof fn delivery_names_are_distinct(
    p: DeliveryVersionPolicy,
    q: DeliveryVersionPolicy,
    d: HardDependencyStatus,
    e: HardDependencyStatus,
    x: ExportAuthorizationStatus,
    y: ExportAuthorizationStatus,
    c: AdoptionCredentialStatus,
    b: AdoptionCredentialStatus,
)
    ensures
        p.name() == q.name() ==> p == q,
        d.name() == e.name() ==> d == e,
        x.name() == y.name() ==> x == y,
        c.name() == b.name() ==> c == b,
{
    reveal_strlit("fixed_delivery");
    reveal_strlit("current_contract");
    reveal_strlit("active");
    reveal_strlit("revoked");
    reveal_strlit("granted");
    reveal_strlit("denied");
    reveal_strlit("stale");
    assert("fixed_delivery"@.len() == 14);
    assert("current_contract"@.len() == 16);
    assert("active"@.len() == 6);
    assert("revoked"@.len() == 7);
    assert("revoked"@[0] == 'r');
    assert("granted"@.len() == 7);
    assert("granted"@[0] == 'g');
    assert("denied"@.len() == 6);
    assert("stale"@.len() == 5);
}

/// What the rules of deliveries refused.
#[derive(Clone, Debug)]
pub enum DeliveryRefusal {
    InvalidDefinition,
    BindingMismatch,
    InvalidTime,
    NotSatisfied { status: String, reason: String },
}

/// The refusal that callers see.
pub open spec fn delivery_fault(r: DeliveryRefusal) -> Fault {
    match r {
        DeliveryRefusal::InvalidDefinition => Fault::Protocol("invalid delivery definition"@),
        DeliveryRefusal::BindingMismatch => Fault::Protocol("delivery binding mismatch"@),
        DeliveryRefusal::InvalidTime => Fault::Protocol("invalid delivery time"@),
        DeliveryRefusal::NotSatisfied { status, reason } => Fault::Protocol(
            "delivery not satisfied: "@ + status@ + "/"@ + reason@,
        ),
    }
}

/// The refusal that callers see.
pub fn map_delivery(refusal: DeliveryRefusal) -> (r: PgError)
    ensures
        r@ == delivery_fault(refusal),
{
    match refusal {
        DeliveryRefusal::InvalidDefinition => protocol("invalid delivery definition"),
        DeliveryRefusal::BindingMismatch => protocol("delivery binding mismatch"),
        DeliveryRefusal::InvalidTime => protocol("invalid delivery time"),
        DeliveryRefusal::NotSatisfied { status, reason } => {
            let a = text::plus("delivery not satisfied: ".to_owned(), status.as_str());
            PgError::Protocol(text::plus(text::plus(a, "/"), reason.as_str()))
        },
    }
}

/// A delivery: the completion that it comes from, what was agreed, what was made, and what of it
/// may be exported.
#[derive(Clone, Debug)]
pub struct DeliveryVersion {
    pub completion_receipt: String,
    pub contract_sha256: String,
    pub artifact_sha256: String,
    pub export_scope_sha256: String,
}

/// The model of a delivery.
pub struct VersionView {
    pub completion_receipt: Seq<char>,
    pub contract_sha256: Seq<char>,
    pub artifact_sha256: Seq<char>,
    pub export_scope_sha256: Seq<char>,
}

impl View for DeliveryVersion {
    type V = VersionView;

    open spec fn view(&self) -> VersionView {
        VersionView {
            completion_receipt: self.completion_receipt@,
            contract_sha256: self.contract_sha256@,
            artifact_sha256: self.artifact_sha256@,
            export_scope_sha256: self.export_scope_sha256@,
        }
    }
}

#[derive(Clone, Copy, Debug, PartialEq, Eq, Structural)]
pub enum DeliveryAvailability {
    Available,
    Unavailable,
}

#[derive(Clone, Copy, Debug, PartialEq, Eq, Structural)]
pub enum EvidenceLevel {
    LocallyVerified,
    Unknown,
}

/// What vouches for a delivery.
#[derive(Clone, Debug)]
pub struct CompletionAcceptanceProof {
    pub completion_receipt_id: String,
    pub work_item_id: String,
    pub contract_sha256: String,
    pub artifact_sha256: String,
    pub independence_kind: String,
    pub team_independent_acceptance: bool,
    pub author_person_id: String,
    pub reviewer_person_id: String,
    pub evidence_id: String,
    pub evidence_level: EvidenceLevel,
    pub verified_at_ms: i64,
}

/// The model of what vouches for a delivery.
pub struct ProofView {
    pub completion_receipt_id: Seq<char>,
    pub work_item_id: Seq<char>,
    pub contract_sha256: Seq<char>,
    pub artifact_sha256: Seq<char>,
    pub independence_kind: Seq<char>,
    pub team_independent_acceptance: bool,
    pub author_person_id: Seq<char>,
    pub reviewer_person_id: Seq<char>,
    pub evidence_id: Seq<char>,
    pub evidence_level: EvidenceLevel,
    pub verified_at_ms: int,
}

impl View for CompletionAcceptanceProof {
    type V = ProofView;

    open spec fn view(&self) -> ProofView {
        ProofView {
            completion_receipt_id: self.completion_receipt_id@,
            work_item_id: self.work_item_id@,
            contract_sha256: self.contract_sha256@,
            artifact_sha256: self.artifact_sha256@,
            independence_kind: self.independence_kind@,
            team_independent_acceptance: self.team_independent_acceptance,
            author_person_id: self.author_person_id@,
            reviewer_person_id: self.reviewer_person_id@,
            evidence_id: self.evidence_id@,
            evidence_level: self.evidence_level,
            verified_at_ms: self.verified_at_ms as int,
        }
    }
}

/// A completion as it is stored.
#[derive(Clone, Debug)]
pub struct CompletionRow {
    pub work_id: String,
    pub contract_hash: String,
    pub independence_kind: Option<String>,
    pub evidence_id: Option<String>,
    pub approved_by_person_id: Option<String>,
    pub submitted_by_person_id: Option<String>,
    pub accepted_at_ms: i64,
}

/// The evidence of a completion as it is stored.
#[derive(Clone, Debug)]
pub struct EvidenceRow {
    pub work_id: String,
    pub contract_hash: String,
    pub output_digest: Option<String>,
    pub trust_basis: String,
}

/// The refusal where nothing vouches for a delivery.
pub open spec fn no_proof() -> Fault {
    Fault::Protocol("trusted WS-018 completion proof missing"@)
}

fn missing_trusted_completion() -> (r: PgError)
    ensures
        r@ == no_proof(),
{
    protocol("trusted WS-018 completion proof missing")
}

/// A completion names its evidence, its kind of acceptance, its author and who approved it.
pub open spec fn is_complete(c: CompletionRow) -> bool {
    &&& c.evidence_id is Some
    &&& c.independence_kind is Some
    &&& c.submitted_by_person_id is Some && c.submitted_by_person_id->Some_0@.len() > 0
    &&& c.approved_by_person_id is Some && c.approved_by_person_id->Some_0@.len() > 0
}

/// How far evidence is trusted, by what it rests on.
pub open spec fn level_of(trust_basis: Seq<char>) -> EvidenceLevel {
    if trust_basis == "trusted_executor"@ || trust_basis == "human_review"@ {
        EvidenceLevel::LocallyVerified
    } else {
        EvidenceLevel::Unknown
    }
}

/// What vouches for a delivery, by what the store holds of its completion: the completion and its
/// evidence must be of the same work, contract and artifact, and an acceptance that is said to be
/// independent must have been decided so.
pub open spec fn trusted_proof(
    provider_work_id: Seq<char>,
    selected: VersionView,
    receipt: Option<&CompletionRow>,
    evidence: Option<&EvidenceRow>,
    independently_approved: bool,
    evidence_id_valid: bool,
) -> Result<ProofView, Fault> {
    match receipt {
        None => Err(no_proof()),
        Some(c) => if c.work_id@ != provider_work_id || c.contract_hash@
            != selected.contract_sha256 {
            Err(Fault::Protocol("trusted completion contract/work binding mismatch"@))
        } else if !is_complete(*c) {
            Err(no_proof())
        } else {
            match evidence {
                None => Err(no_proof()),
                Some(e) => if e.output_digest is None {
                    Err(no_proof())
                } else if e.work_id@ != provider_work_id || e.contract_hash@
                    != selected.contract_sha256 || e.output_digest->Some_0@
                    != selected.artifact_sha256 {
                    Err(Fault::Protocol("trusted completion evidence binding mismatch"@))
                } else if c.independence_kind->Some_0@ == "team_independent"@
                    && !independently_approved {
                    Err(
                        Fault::Protocol("trusted completion independent-review binding missing"@),
                    )
                } else if !evidence_id_valid {
                    Err(Fault::Protocol("completion evidence id is not a ulid"@))
                } else if c.accepted_at_ms < 0 {
                    Err(Fault::Protocol("trusted completion has invalid time"@))
                } else {
                    Ok(
                        ProofView {
                            completion_receipt_id: selected.completion_receipt,
                            work_item_id: provider_work_id,
                            contract_sha256: selected.contract_sha256,
                            artifact_sha256: selected.artifact_sha256,
                            independence_kind: c.independence_kind->Some_0@,
                            team_independent_acceptance: c.independence_kind->Some_0@
                                == "team_independent"@,
                            author_person_id: c.submitted_by_person_id->Some_0@,
                            reviewer_person_id: c.approved_by_person_id->Some_0@,
                            evidence_id: c.evidence_id->Some_0@,
                            evidence_level: level_of(e.trust_basis@),
                            verified_at_ms: c.accepted_at_ms as int,
                        },
                    )
                },
            }
        },
    }
}

/// What vouches for a delivery.
pub fn load_trusted_completion_proof(
    provider_work_id: &str,
    selected: &DeliveryVersion,
    receipt: Option<&CompletionRow>,
    evidence: Option<&EvidenceRow>,
    independently_approved: bool,
    evidence_id_valid: bool,
) -> (r: PgResult<CompletionAcceptanceProof>)
    ensures
        match r {
            Ok(p) => trusted_proof(
                provider_work_id@,
                selected@,
                receipt,
                evidence,
                independently_approved,
                evidence_id_valid,
            ) == Ok::<ProofView, Fault>(p@),
            Err(e) => trusted_proof(
                provider_work_id@,
                selected@,
                receipt,
                evidence,
                independently_approved,
                evidence_id_valid,
            ) == Err::<ProofView, Fault>(e@),
        },
{
    let c = match receipt {
        Some(c) => c,
        None => {
            return Err(missing_trusted_completion());
        },
    };
    if !text::same(c.work_id.as_str(), provider_work_id) || !text::same(
        c.contract_hash.as_str(),
        selected.contract_sha256.as_str(),
    ) {
        return Err(protocol("trusted completion contract/work binding mismatch"));
    }
    let (evidence_id, independence_kind, author, reviewer) = match (
        &c.evidence_id,
        &c.independence_kind,
        &c.submitted_by_person_id,
        &c.approved_by_person_id,
    ) {
        (Some(a), Some(b), Some(x), Some(y)) => (a.as_str(), b.as_str(), x.as_str(), y.as_str()),
        _ => {
            return Err(missing_trusted_completion());
        },
    };
    if author.is_empty() || reviewer.is_empty() {
        return Err(missing_trusted_completion());
    }
    let e = match evidence {
        Some(e) => e,
        None => {
            return Err(missing_trusted_completion());
        },
    };
    let output = match &e.output_digest {
        Some(d) => d.as_str(),
        None => {
            return Err(missing_trusted_completion());
        },
    };
    if !text::same(e.work_id.as_str(), provider_work_id) || !text::same(
        e.contract_hash.as_str(),
        selected.contract_sha256.as_str(),
    ) || !text::same(output, selected.artifact_sha256.as_str()) {
        return Err(protocol("trusted completion evidence binding mismatch"));
    }
    let independent = text::same(independence_kind, "team_independent");
    if independent && !independently_approved {
        return Err(protocol("trusted completion independent-review binding missing"));
    }
    if !evidence_id_valid {
        return Err(protocol("completion evidence id is not a ulid"));
    }
    if c.accepted_at_ms < 0 {
        return Err(protocol("trusted completion has invalid time"));
    }
    let evidence_level = if text::same(e.trust_basis.as_str(), "trusted_executor") || text::same(
        e.trust_basis.as_str(),
        "human_review",
    ) {
        EvidenceLevel::LocallyVerified
    } else {
        EvidenceLevel::Unknown
    };
    Ok(
        CompletionAcceptanceProof {
            completion_receipt_id: selected.completion_receipt.as_str().to_owned(),
            work_item_id: provider_work_id.to_owned(),
            contract_sha256: selected.contract_sha256.as_str().to_owned(),
            artifact_sha256: selected.artifact_sha256.as_str().to_owned(),
            independence_kind: independence_kind.to_owned(),
            team_independent_acceptance: independent,
            author_person_id: author.to_owned(),
            reviewer_person_id: reviewer.to_owned(),
            evidence_id: evidence_id.to_owned(),
            evidence_level,
            verified_at_ms: c.accepted_at_ms,
        },
    )
}

/// The artifact of a completion as it is stored.
#[derive(Clone, Debug)]
pub struct ArtifactRow {
    pub output_digest: Option<String>,
    pub state: Option<String>,
}

/// Whether what was delivered can still be had.
pub open spec fn available(row: Option<&ArtifactRow>, artifact_sha256: Seq<char>) -> Result<
    DeliveryAvailability,
    Fault,
> {
    match row {
        None => Err(no_proof()),
        Some(a) => if text::opt(a.output_digest) != Some(artifact_sha256) {
            Err(Fault::Protocol("trusted completion artifact binding mismatch"@))
        } else if text::opt(a.state) == Some("missing"@) {
            Ok(DeliveryAvailability::Unavailable)
        } else {
            Ok(DeliveryAvailability::Available)
        },
    }
}

/// Whether what was delivered can still be had.
pub fn availability_from_completion(
    row: Option<&ArtifactRow>,
    proof: &CompletionAcceptanceProof,
) -> (r: PgResult<DeliveryAvailability>)
    ensures
        match r {
            Ok(a) => available(row, proof.artifact_sha256@) == Ok::<DeliveryAvailability, Fault>(a),
            Err(e) => available(row, proof.artifact_sha256@) == Err::<DeliveryAvailability, Fault>(
                e@,
            ),
        },
{
    let a = match row {
        Some(a) => a,
        None => {
            return Err(missing_trusted_completion());
        },
    };
    if !text::same_opt(
        text::as_opt_str(&a.output_digest),
        Some(proof.artifact_sha256.as_str()),
    ) {
        return Err(protocol("trusted completion artifact binding mismatch"));
    }
    if text::same_opt(text::as_opt_str(&a.state), Some("missing")) {
        return Ok(DeliveryAvailability::Unavailable);
    }
    Ok(DeliveryAvailability::Available)
}

/// How a work stands, as it is stored.
#[derive(Clone, Debug)]
pub struct RuntimeRow {
    pub state: String,
    pub selected_completion_id: Option<String>,
}

/// The delivery that is current: of no interest to a dependency that stays with its delivery, and
/// none where the work is not completed.
pub open spec fn current(
    policy: DeliveryVersionPolicy,
    selected: VersionView,
    runtime: Option<&RuntimeRow>,
    current_id_valid: bool,
) -> Result<Option<VersionView>, Fault> {
    if policy == DeliveryVersionPolicy::FixedDelivery {
        Ok(None)
    } else {
        match runtime {
            None => Ok(None),
            Some(w) => if w.state@ != "completed"@ {
                Ok(None)
            } else {
                match w.selected_completion_id {
                    None => Ok(None),
                    Some(id) => if id@ == selected.completion_receipt {
                        Ok(Some(selected))
                    } else if !current_id_valid {
                        Err(Fault::Protocol("current completion id is not a ulid"@))
                    } else {
                        Ok(Some(VersionView { completion_receipt: id@, ..selected }))
                    },
                }
            },
        }
    }
}

/// The model of a delivery that may be absent.
pub open spec fn version_opt(v: Option<DeliveryVersion>) -> Option<VersionView> {
    match v {
        Some(d) => Some(d@),
        None => None,
    }
}

/// The delivery that is current.
pub fn current_selection_for_policy(
    policy: DeliveryVersionPolicy,
    selected: &DeliveryVersion,
    runtime: Option<&RuntimeRow>,
    current_id_valid: bool,
) -> (r: PgResult<Option<DeliveryVersion>>)
    ensures
        match r {
            Ok(v) => current(policy, selected@, runtime, current_id_valid) == Ok::<
                Option<VersionView>,
                Fault,
            >(version_opt(v)),
            Err(e) => current(policy, selected@, runtime, current_id_valid) == Err::<
                Option<VersionView>,
                Fault,
            >(e@),
        },
{
    if policy == DeliveryVersionPolicy::FixedDelivery {
        return Ok(None);
    }
    let w = match runtime {
        Some(w) => w,
        None => {
            return Ok(None);
        },
    };
    if !text::same(w.state.as_str(), "completed") {
        return Ok(None);
    }
    let id = match &w.selected_completion_id {
        Some(id) => id.as_str(),
        None => {
            return Ok(None);
        },
    };
    if !text::same(id, selected.completion_receipt.as_str()) && !current_id_valid {
        return Err(protocol("current completion id is not a ulid"));
    }
    Ok(
        Some(
            DeliveryVersion {
                completion_receipt: id.to_owned(),
                contract_sha256: selected.contract_sha256.as_str().to_owned(),
                artifact_sha256: selected.artifact_sha256.as_str().to_owned(),
                export_scope_sha256: selected.export_scope_sha256.as_str().to_owned(),
            },
        ),
    )
}

/// The receipt of a request about a delivery.
#[derive(Clone, Debug)]
pub struct DeliveryCredentialReceipt {
    pub request_key: String,
    pub subject_id: String,
    pub op: String,
    pub event_id: String,
    pub replayed: bool,
}

/// The model of a receipt.
pub struct ReceiptView {
    pub request_key: Seq<char>,
    pub subject_id: Seq<char>,
    pub op: Seq<char>,
    pub event_id: Seq<char>,
    pub replayed: bool,
}

impl View for DeliveryCredentialReceipt {
    type V = ReceiptView;

    open spec fn view(&self) -> ReceiptView {
        ReceiptView {
            request_key: self.request_key@,
            subject_id: self.subject_id@,
            op: self.op@,
            event_id: self.event_id@,
            replayed: self.replayed,
        }
    }
}

/// A receipt as it is stored, and whether the id of its event is valid.
#[derive(Clone, Debug)]
pub struct StoredDelivery {
    pub subject_id: String,
    pub op: String,
    pub event_id: String,
    pub event_id_valid: bool,
}

/// The receipt that a request has got before, if any. A key stands for one operation, and what the
/// receipt is about must still be there.
pub open spec fn repeated(
    request_key: Seq<char>,
    op: Seq<char>,
    stored: Option<&StoredDelivery>,
    subject_found: bool,
    missing: Seq<char>,
) -> Result<Option<ReceiptView>, Fault> {
    match stored {
        None => Ok(None),
        Some(s) => if s.op@ != op {
            Err(Fault::Protocol("delivery credential request_key reused with different op"@))
        } else if !s.event_id_valid {
            Err(Fault::Protocol("receipt event id is not a ulid"@))
        } else if !subject_found {
            Err(Fault::Protocol(missing))
        } else {
            Ok(
                Some(
                    ReceiptView {
                        request_key,
                        subject_id: s.subject_id@,
                        op,
                        event_id: s.event_id@,
                        replayed: true,
                    },
                ),
            )
        },
    }
}

/// The model of a receipt that may be absent.
pub open spec fn receipt_opt(r: PgResult<Option<DeliveryCredentialReceipt>>) -> Result<
    Option<ReceiptView>,
    Fault,
> {
    match r {
        Ok(Some(x)) => Ok(Some(x@)),
        Ok(None) => Ok(None),
        Err(e) => Err(e@),
    }
}

/// What a new request meets after it was not answered before: a condition, and the refusal where it
/// does not hold.
pub open spec fn new_request(
    before: Result<Option<ReceiptView>, Fault>,
    holds: bool,
    refusal: Seq<char>,
) -> Result<Option<ReceiptView>, Fault> {
    match before {
        Ok(None) => if holds {
            Ok(None)
        } else {
            Err(Fault::Protocol(refusal))
        },
        other => other,
    }
}

/// What the store holds of what a credential is asked for.
#[derive(Clone, Copy, Debug)]
pub struct AdoptionFacts {
    pub dependency_found: bool,
    pub dependency_matches: bool,
    pub export_found: bool,
    pub export_matches: bool,
    pub credential_exists: bool,
}

/// Why a new credential is refused, if so: the dependency and the export that the request shows
/// must be those of the store, and the id of the credential must be new.
pub open spec fn adoption_fault(f: AdoptionFacts) -> Option<Fault> {
    if !f.dependency_found {
        Some(Fault::Protocol("hard delivery dependency missing"@))
    } else if !f.dependency_matches {
        Some(Fault::Protocol("adoption dependency snapshot does not match store"@))
    } else if !f.export_found {
        Some(Fault::Protocol("export authorization missing"@))
    } else if !f.export_matches {
        Some(Fault::Protocol("adoption export authorization snapshot does not match store"@))
    } else if f.credential_exists {
        Some(Fault::Protocol("adoption credential id already registered"@))
    } else {
        None
    }
}

/// The rules of deliveries, for one database.
pub struct DeliveryAdoptionStore {
    pub pool: PgPool,
}

impl DeliveryAdoptionStore {
    pub fn new(url: &str) -> (r: DeliveryAdoptionStore)
        ensures
            r.pool.address() == url@,
    {
        DeliveryAdoptionStore { pool: PgPool::new(url) }
    }

    /// Whether both ends of a dependency lie in the project.
    pub fn admit_dependency(
        &self,
        project: &str,
        provider_project: &str,
        consumer_project: &str,
    ) -> (r: PgResult<()>)
        ensures
            error::checked(r) == (if project@ == provider_project@ && project@
                == consumer_project@ {
                Ok(())
            } else {
                Err(
                    Fault::Protocol("delivery dependency project must match tenant project"@),
                )
            }),
    {
        if !text::same(project, provider_project) || !text::same(project, consumer_project) {
            return Err(protocol("delivery dependency project must match tenant project"));
        }
        Ok(())
    }

    /// The receipt that a request has got before, if any.
    fn repeat(
        &self,
        request_key: &str,
        op: &str,
        stored: Option<&StoredDelivery>,
        subject_found: bool,
        missing: &str,
    ) -> (r: PgResult<Option<DeliveryCredentialReceipt>>)
        ensures
            receipt_opt(r) == repeated(request_key@, op@, stored, subject_found, missing@),
    {
        let s = match stored {
            Some(s) => s,
            None => {
                return Ok(None);
            },
        };
        if !text::same(s.op.as_str(), op) {
            return Err(protocol("delivery credential request_key reused with different op"));
        }
        if !s.event_id_valid {
            return Err(protocol("receipt event id is not a ulid"));
        }
        if !subject_found {
            return Err(protocol(missing));
        }
        let mut receipt = self.record_receipt(
            request_key,
            s.subject_id.as_str(),
            op,
            s.event_id.as_str(),
        );
        receipt.replayed = true;
        Ok(Some(receipt))
    }

    /// The receipt of a request.
    pub fn record_receipt(
        &self,
        request_key: &str,
        subject_id: &str,
        op: &str,
        event_id: &str,
    ) -> (r: DeliveryCredentialReceipt)
        ensures
            r@ == (ReceiptView {
                request_key: request_key@,
                subject_id: subject_id@,
                op: op@,
                event_id: event_id@,
                replayed: false,
            }),
    {
        DeliveryCredentialReceipt {
            request_key: request_key.to_owned(),
            subject_id: subject_id.to_owned(),
            op: op.to_owned(),
            event_id: event_id.to_owned(),
            replayed: false,
        }
    }

    /// The receipt that a registration has got before; a new one needs an id that is not taken.
    pub fn register_dependency(
        &self,
        request_key: &str,
        stored: Option<&StoredDelivery>,
        subject_found: bool,
        id_taken: bool,
    ) -> (r: PgResult<Option<DeliveryCredentialReceipt>>)
        ensures
            receipt_opt(r) == new_request(
                repeated(
                    request_key@,
                    "register_dependency"@,
                    stored,
                    subject_found,
                    "dependency missing for receipt"@,
                ),
                !id_taken,
                "hard delivery dependency id already registered"@,
            ),
    {
        if let Some(receipt) = self.repeat(
            request_key,
            "register_dependency",
            stored,
            subject_found,
            "dependency missing for receipt",
        )? {
            return Ok(Some(receipt));
        }
        if id_taken {
            return Err(protocol("hard delivery dependency id already registered"));
        }
        Ok(None)
    }

    /// The receipt that a revocation has got before; a new one needs the dependency.
    pub fn revoke_dependency(
        &self,
        request_key: &str,
        stored: Option<&StoredDelivery>,
        subject_found: bool,
        dependency_found: bool,
    ) -> (r: PgResult<Option<DeliveryCredentialReceipt>>)
        ensures
            receipt_opt(r) == new_request(
                repeated(
                    request_key@,
                    "revoke_dependency"@,
                    stored,
                    subject_found,
                    "dependency missing for receipt"@,
                ),
                dependency_found,
                "hard delivery dependency missing"@,
            ),
    {
        if let Some(receipt) = self.repeat(
            request_key,
            "revoke_dependency",
            stored,
            subject_found,
            "dependency missing for receipt",
        )? {
            return Ok(Some(receipt));
        }
        if !dependency_found {
            return Err(protocol("hard delivery dependency missing"));
        }
        Ok(None)
    }

    /// Whether an export lies in the project.
    pub fn admit_export(&self, project: &str, export_project: &str) -> (r: PgResult<()>)
        ensures
            error::checked(r) == (if project@ == export_project@ {
                Ok(())
            } else {
                Err(
                    Fault::Protocol("export authorization project must match tenant project"@),
                )
            }),
    {
        if !text::same(project, export_project) {
            return Err(protocol("export authorization project must match tenant project"));
        }
        Ok(())
    }

    /// The receipt that a grant has got before; a new one needs an id that is not taken.
    pub fn grant_export(
        &self,
        request_key: &str,
        stored: Option<&StoredDelivery>,
        subject_found: bool,
        id_taken: bool,
    ) -> (r: PgResult<Option<DeliveryCredentialReceipt>>)
        ensures
            receipt_opt(r) == new_request(
                repeated(
                    request_key@,
                    "grant_export"@,
                    stored,
                    subject_found,
                    "export authorization missing for receipt"@,
                ),
                !id_taken,
                "export authorization id already registered"@,
            ),
    {
        if let Some(receipt) = self.repeat(
            request_key,
            "grant_export",
            stored,
            subject_found,
            "export authorization missing for receipt",
        )? {
            return Ok(Some(receipt));
        }
        if id_taken {
            return Err(protocol("export authorization id already registered"));
        }
        Ok(None)
    }

    /// The receipt that a revocation has got before; a new one needs the export.
    pub fn revoke_export(
        &self,
        request_key: &str,
        stored: Option<&StoredDelivery>,
        subject_found: bool,
        export_found: bool,
    ) -> (r: PgResult<Option<DeliveryCredentialReceipt>>)
        ensures
            receipt_opt(r) == new_request(
                repeated(
                    request_key@,
                    "revoke_export"@,
                    stored,
                    subject_found,
                    "export authorization missing for receipt"@,
                ),
                export_found,
                "export authorization missing"@,
            ),
    {
        if let Some(receipt) = self.repeat(
            request_key,
            "revoke_export",
            stored,
            subject_found,
            "export authorization missing for receipt",
        )? {
            return Ok(Some(receipt));
        }
        if !export_found {
            return Err(protocol("export authorization missing"));
        }
        Ok(None)
    }

    /// Whether both ends of an adoption lie in the project.
    pub fn admit_adoption(
        &self,
        project: &str,
        provider_project: &str,
        consumer_project: &str,
    ) -> (r: PgResult<()>)
        ensures
            error::checked(r) == (if project@ == provider_project@ && project@
                == consumer_project@ {
                Ok(())
            } else {
                Err(
                    Fault::Protocol("adoption credential project must match tenant project"@),
                )
            }),
    {
        if !text::same(project, provider_project) || !text::same(project, consumer_project) {
            return Err(protocol("adoption credential project must match tenant project"));
        }
        Ok(())
    }

    /// The receipt that an adoption has got before; a new one must show what the store holds.
    pub fn adopt(
        &self,
        request_key: &str,
        stored: Option<&StoredDelivery>,
        subject_found: bool,
        facts: AdoptionFacts,
    ) -> (r: PgResult<Option<DeliveryCredentialReceipt>>)
        ensures
            receipt_opt(r) == (match repeated(
                request_key@,
                "adopt"@,
                stored,
                subject_found,
                "adoption credential missing for receipt"@,
            ) {
                Ok(None) => match adoption_fault(facts) {
                    Some(f) => Err(f),
                    None => Ok(None),
                },
                other => other,
            }),
    {
        if let Some(receipt) = self.repeat(
            request_key,
            "adopt",
            stored,
            subject_found,
            "adoption credential missing for receipt",
        )? {
            return Ok(Some(receipt));
        }
        if !facts.dependency_found {
            return Err(protocol("hard delivery dependency missing"));
        }
        if !facts.dependency_matches {
            return Err(protocol("adoption dependency snapshot does not match store"));
        }
        if !facts.export_found {
            return Err(protocol("export authorization missing"));
        }
        if !facts.export_matches {
            return Err(protocol("adoption export authorization snapshot does not match store"));
        }
        if facts.credential_exists {
            return Err(protocol("adoption credential id already registered"));
        }
        Ok(None)
    }
}

/// What vouches for a delivery is bound to it: the completion and its evidence are of the work, the
/// contract and the artifact that were selected.
pub proof fn proofs_are_bound_to_the_delivery(
    provider_work_id: Seq<char>,
    selected: VersionView,
    receipt: Option<&CompletionRow>,
    evidence: Option<&EvidenceRow>,
    independently_approved: bool,
    evidence_id_valid: bool,
    p: ProofView,
)
    requires
        trusted_proof(
            provider_work_id,
            selected,
            receipt,
            evidence,
            independently_approved,
            evidence_id_valid,
        ) == Ok::<ProofView, Fault>(p),
    ensures
        p.completion_receipt_id == selected.completion_receipt,
        p.contract_sha256 == selected.contract_sha256,
        p.artifact_sha256 == selected.artifact_sha256,
        receipt is Some && receipt->Some_0.contract_hash@ == selected.contract_sha256,
        receipt->Some_0.work_id@ == provider_work_id,
        evidence is Some && evidence->Some_0.contract_hash@ == selected.contract_sha256,
        text::opt(evidence->Some_0.output_digest) == Some(selected.artifact_sha256),
        p.verified_at_ms >= 0,
{
}

/// An acceptance counts as independent only where it was decided so.
pub proof fn independence_is_decided(
    provider_work_id: Seq<char>,
    selected: VersionView,
    receipt: Option<&CompletionRow>,
    evidence: Option<&EvidenceRow>,
    evidence_id_valid: bool,
)
    ensures
        trusted_proof(
            provider_work_id,
            selected,
            receipt,
            evidence,
            false,
            evidence_id_valid,
        ) matches Ok(p) ==> !p.team_independent_acceptance,
{
}

/// A dependency that stays with its delivery is not touched by what the provider completes later.
pub proof fn fixed_deliveries_ignore_later_completions(
    selected: VersionView,
    before: Option<&RuntimeRow>,
    after: Option<&RuntimeRow>,
    valid: bool,
)
    ensures
        current(DeliveryVersionPolicy::FixedDelivery, selected, before, valid) == current(
            DeliveryVersionPolicy::FixedDelivery,
            selected,
            after,
            valid,
        ),
{
}

/// A dependency that follows the contract sees the completion that is selected now, and none where
/// the provider is not completed.
pub proof fn current_contracts_follow_the_selection(
    selected: VersionView,
    runtime: RuntimeRow,
    v: VersionView,
    valid: bool,
)
    requires
        current(DeliveryVersionPolicy::CurrentContract, selected, Some(&runtime), valid) == Ok::<
            Option<VersionView>,
            Fault,
        >(Some(v)),
    ensures
        runtime.state@ == "completed"@,
        text::opt(runtime.selected_completion_id) == Some(v.completion_receipt),
{
}

/// A request that was answered gets its receipt again, marked so; under another operation its key
/// is refused.
pub proof fn receipts_are_given_back(
    request_key: Seq<char>,
    subject_id: Seq<char>,
    op: Seq<char>,
    other_op: Seq<char>,
    event_id: Seq<char>,
    stored: StoredDelivery,
    missing: Seq<char>,
)
    requires
        stored.subject_id@ == subject_id,
        stored.op@ == op,
        stored.event_id@ == event_id,
        stored.event_id_valid,
        other_op != op,
    ensures
        repeated(request_key, op, Some(&stored), true, missing) == Ok::<
            Option<ReceiptView>,
            Fault,
        >(Some(ReceiptView { request_key, subject_id, op, event_id, replayed: true })),
        repeated(request_key, other_op, Some(&stored), true, missing) is Err,
{
}

/// The person who submitted a completion is the author of a proof, and the one who approved it the one
/// who looked at it. What else a proof says is that of the stored completion and of its evidence.
pub proof fn proofs_name_who_submitted_and_who_approved(
    provider_work_id: Seq<char>,
    selected: VersionView,
    c: CompletionRow,
    e: EvidenceRow,
    approved: bool,
    id_valid: bool,
)
    ensures
        trusted_proof(provider_work_id, selected, Some(&c), Some(&e), approved, id_valid) matches Ok(p)
            ==> {
            &&& c.submitted_by_person_id is Some && p.author_person_id
                == c.submitted_by_person_id->Some_0@ && p.author_person_id.len() > 0
            &&& c.approved_by_person_id is Some && p.reviewer_person_id
                == c.approved_by_person_id->Some_0@ && p.reviewer_person_id.len() > 0
            &&& c.evidence_id is Some && p.evidence_id == c.evidence_id->Some_0@
            &&& c.independence_kind is Some && p.independence_kind == c.independence_kind->Some_0@
            &&& p.team_independent_acceptance <==> c.independence_kind->Some_0@ == "team_independent"@
            &&& p.evidence_level is LocallyVerified <==> (e.trust_basis@ == "trusted_executor"@
                || e.trust_basis@ == "human_review"@)
            &&& p.verified_at_ms == c.accepted_at_ms
            &&& p.work_item_id == provider_work_id
            &&& p.completion_receipt_id == selected.completion_receipt
            &&& p.contract_sha256 == selected.contract_sha256
            &&& p.artifact_sha256 == selected.artifact_sha256
        },
{
}

/// A proof is given exactly where the completion and its evidence are of the work, the contract and
/// the artifact that were selected, say everything, are independently approved where they claim it,
/// and carry a valid id and time.
pub proof fn proofs_need_everything(
    work: Seq<char>,
    selected: VersionView,
    c: CompletionRow,
    e: EvidenceRow,
    approved: bool,
    id_valid: bool,
)
    ensures
        ({
            let answer = trusted_proof(work, selected, Some(&c), Some(&e), approved, id_valid);
            let bound = c.work_id@ == work && c.contract_hash@ == selected.contract_sha256;
            let said = c.evidence_id is Some && c.independence_kind is Some && c.submitted_by_person_id is Some
                && c.submitted_by_person_id->Some_0@.len() > 0 && c.approved_by_person_id is Some
                && c.approved_by_person_id->Some_0@.len() > 0;
            let shown = e.work_id@ == work && e.contract_hash@ == selected.contract_sha256 && text::opt(
                e.output_digest,
            ) == Some(selected.artifact_sha256);
            let independent = c.independence_kind->Some_0@ == "team_independent"@ ==> approved;
            &&& answer is Ok <==> bound && said && shown && independent && id_valid && c.accepted_at_ms
                >= 0
            &&& !bound ==> answer == Err::<ProofView, Fault>(
                Fault::Protocol("trusted completion contract/work binding mismatch"@),
            )
            &&& bound && !said ==> answer == Err::<ProofView, Fault>(
                Fault::Protocol("trusted WS-018 completion proof missing"@),
            )
            &&& bound && said && e.output_digest is Some && !shown ==> answer == Err::<ProofView, Fault>(
                Fault::Protocol("trusted completion evidence binding mismatch"@),
            )
            &&& bound && said && shown && !independent ==> answer == Err::<ProofView, Fault>(
                Fault::Protocol("trusted completion independent-review binding missing"@),
            )
        }),
        trusted_proof(work, selected, None, Some(&e), approved, id_valid) is Err,
        trusted_proof(work, selected, Some(&c), None, approved, id_valid) is Err,
{
}

/// An artifact is available exactly where its row is of the artifact and does not say that it is
/// missing.
pub proof fn artifacts_are_available_unless_missing(a: ArtifactRow, artifact: Seq<char>)
    ensures
        available(Some(&a), artifact) is Err <==> text::opt(a.output_digest) != Some(artifact),
        available(Some(&a), artifact) == Ok::<DeliveryAvailability, Fault>(
            DeliveryAvailability::Unavailable,
        ) <==> text::opt(a.output_digest) == Some(artifact) && text::opt(a.state) == Some("missing"@),
        available(None, artifact) == Err::<DeliveryAvailability, Fault>(
            Fault::Protocol("trusted WS-018 completion proof missing"@),
        ),
{
}

/// A fixed delivery has no current selection. One on the current contract has the selection of a work
/// that is completed, with everything but the completion as it was selected, and else none.
pub proof fn current_selections_are_of_completed_works(
    selected: VersionView,
    runtime: RuntimeRow,
    valid: bool,
)
    ensures
        current(DeliveryVersionPolicy::FixedDelivery, selected, Some(&runtime), valid) == Ok::<
            Option<VersionView>,
            Fault,
        >(None),
        current(DeliveryVersionPolicy::CurrentContract, selected, None, valid) == Ok::<
            Option<VersionView>,
            Fault,
        >(None),
        ({
            let answer = current(
                DeliveryVersionPolicy::CurrentContract,
                selected,
                Some(&runtime),
                valid,
            );
            let chosen = runtime.state@ == "completed"@ && runtime.selected_completion_id is Some;
            let id = runtime.selected_completion_id->Some_0@;
            &&& !chosen ==> answer == Ok::<Option<VersionView>, Fault>(None)
            &&& chosen && (valid || id == selected.completion_receipt) ==> (answer matches Ok(Some(v))
                && v.completion_receipt == id && v.contract_sha256 == selected.contract_sha256
                && v.artifact_sha256 == selected.artifact_sha256 && v.export_scope_sha256
                == selected.export_scope_sha256)
            &&& chosen && !valid && id != selected.completion_receipt ==> answer == Err::<
                Option<VersionView>,
                Fault,
            >(Fault::Protocol("current completion id is not a ulid"@))
        }),
{
}

/// A request is answered with the receipt that was stored for it, and only for the same operation and
/// while its subject is there.
pub proof fn stored_receipts_answer_requests(
    key: Seq<char>,
    op: Seq<char>,
    s: StoredDelivery,
    found: bool,
    missing: Seq<char>,
)
    ensures
        repeated(key, op, None, found, missing) == Ok::<Option<ReceiptView>, Fault>(None),
        repeated(key, op, Some(&s), found, missing) is Ok <==> s.op@ == op && s.event_id_valid && found,
        repeated(key, op, Some(&s), found, missing) matches Ok(r) ==> (r matches Some(v) && v.replayed
            && v.request_key == key && v.subject_id == s.subject_id@ && v.op == op && v.event_id
            == s.event_id@),
        s.op@ != op ==> repeated(key, op, Some(&s), found, missing) == Err::<Option<ReceiptView>, Fault>(
            Fault::Protocol("delivery credential request_key reused with different op"@),
        ),
{
}

/// A request that was not answered yet goes on exactly where its condition holds; one that was is not
/// held to it.
pub proof fn new_requests_meet_their_condition(
    before: Result<Option<ReceiptView>, Fault>,
    holds: bool,
    refusal: Seq<char>,
)
    ensures
        before == Ok::<Option<ReceiptView>, Fault>(None) && holds ==> new_request(before, holds, refusal)
            == Ok::<Option<ReceiptView>, Fault>(None),
        before == Ok::<Option<ReceiptView>, Fault>(None) && !holds ==> new_request(
            before,
            holds,
            refusal,
        ) == Err::<Option<ReceiptView>, Fault>(Fault::Protocol(refusal)),
        before != Ok::<Option<ReceiptView>, Fault>(None) ==> new_request(before, holds, refusal)
            == before,
{
}

/// A delivery is adopted only where its dependency and its export are stored as they were seen, and
/// under an id that is not taken.
pub proof fn adoptions_are_of_what_is_stored(f: AdoptionFacts)
    ensures
        adoption_fault(f) is None <==> f.dependency_found && f.dependency_matches && f.export_found
            && f.export_matches && !f.credential_exists,
        !f.dependency_found ==> adoption_fault(f) == Some(
            Fault::Protocol("hard delivery dependency missing"@),
        ),
        f.dependency_found && !f.dependency_matches ==> adoption_fault(f) == Some(
            Fault::Protocol("adoption dependency snapshot does not match store"@),
        ),
        f.dependency_found && f.dependency_matches && !f.export_found ==> adoption_fault(f) == Some(
            Fault::Protocol("export authorization missing"@),
        ),
        f.dependency_found && f.dependency_matches && f.export_found && !f.export_matches
            ==> adoption_fault(f) == Some(
            Fault::Protocol("adoption export authorization snapshot does not match store"@),
        ),
        f.dependency_found && f.dependency_matches && f.export_found && f.export_matches
            && f.credential_exists ==> adoption_fault(f) == Some(
            Fault::Protocol("adoption credential id already registered"@),
        ),
{
}

/// Evidence counts as verified exactly where an executor that is trusted, or a person, vouches for it.
pub proof fn evidence_is_verified_by_trust(basis: Seq<char>)
    ensures
        level_of("trusted_executor"@) is LocallyVerified,
        level_of("human_review"@) is LocallyVerified,
        basis != "trusted_executor"@ && basis != "human_review"@ ==> level_of(basis) is Unknown,
{
}

/// A refusal of the delivery rules is told as such, and one for want of satisfaction with its status and
/// its reason.
pub proof fn delivery_refusals_are_told(status: String, reason: String)
    ensures
        delivery_fault(DeliveryRefusal::InvalidDefinition) == Fault::Protocol(
            "invalid delivery definition"@,
        ),
        delivery_fault(DeliveryRefusal::BindingMismatch) == Fault::Protocol(
            "delivery binding mismatch"@,
        ),
        delivery_fault(DeliveryRefusal::InvalidTime) == Fault::Protocol("invalid delivery time"@),
        delivery_fault(DeliveryRefusal::NotSatisfied { status, reason }) == Fault::Protocol(
            "delivery not satisfied: "@ + status@ + "/"@ + reason@,
        ),
{
}

/// A completion is complete only with its evidence, its kind of acceptance, and the names of who
/// submitted and of who approved it.
pub proof fn completions_name_everyone(c: CompletionRow)
    ensures
        c.evidence_id is None ==> !is_complete(c),
        c.independence_kind is None ==> !is_complete(c),
        c.submitted_by_person_id is None ==> !is_complete(c),
        c.approved_by_person_id is None ==> !is_complete(c),
        c.submitted_by_person_id is Some && c.submitted_by_person_id->Some_0@.len() == 0
            ==> !is_complete(c),
        c.approved_by_person_id is Some && c.approved_by_person_id->Some_0@.len() == 0 ==> !is_complete(
            c,
        ),
        c.evidence_id is Some && c.independence_kind is Some && c.submitted_by_person_id is Some
            && c.approved_by_person_id is Some && c.submitted_by_person_id->Some_0@.len() > 0
            && c.approved_by_person_id->Some_0@.len() > 0 ==> is_complete(c),
{
}

} // verus!
