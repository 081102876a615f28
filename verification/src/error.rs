//! The ways in which a request is refused.
use vstd::prelude::*;

verus! {

/// A refusal.
#[derive(Debug)]
pub enum PgError {
    Protocol(String),
    Unsupported(String),
    SchemaIncompatible(String),
    ActivationImpactUnproven(String),
    WritebackRefused(String),
    IdempotencyConflict,
    PreconditionsChanged,
    ProjectNotAvailable,
    RestoreIncomplete,
    Forbidden,
    MissingDependency,
    DependencyCycle,
    ScopeUnsupported,
    ResourceConflict,
    ParentEvidenceRequired,
    BindingInvalid,
    ClaimBlocksActivation,
    GraphBudgetExceeded,
    LeaseExpired,
    RecoveryBlocked,
    ExecutionNotFound,
    ScopeExceeded,
    StaleFence,
    SessionNotFound,
    WaitOpen,
    ClaimHeld,
    StaleApproval,
    CandidateNotApproved,
    PolicyDowngrade,
}

/// The model of a refusal: its variant, and its message as characters.
pub enum Fault {
    Protocol(Seq<char>),
    Unsupported(Seq<char>),
    SchemaIncompatible(Seq<char>),
    ActivationImpactUnproven(Seq<char>),
    WritebackRefused(Seq<char>),
    IdempotencyConflict,
    PreconditionsChanged,
    ProjectNotAvailable,
    RestoreIncomplete,
    Forbidden,
    MissingDependency,
    DependencyCycle,
    ScopeUnsupported,
    ResourceConflict,
    ParentEvidenceRequired,
    BindingInvalid,
    ClaimBlocksActivation,
    GraphBudgetExceeded,
    LeaseExpired,
    RecoveryBlocked,
    ExecutionNotFound,
    ScopeExceeded,
    StaleFence,
    SessionNotFound,
    WaitOpen,
    ClaimHeld,
    StaleApproval,
    CandidateNotApproved,
    PolicyDowngrade,
}

impl View for PgError {
    type V = Fault;

    open spec fn view(&self) -> Fault {
        match self {
            PgError::Protocol(m) => Fault::Protocol(m@),
            PgError::Unsupported(m) => Fault::Unsupported(m@),
            PgError::SchemaIncompatible(m) => Fault::SchemaIncompatible(m@),
            PgError::ActivationImpactUnproven(m) => Fault::ActivationImpactUnproven(m@),
            PgError::WritebackRefused(m) => Fault::WritebackRefused(m@),
            PgError::IdempotencyConflict => Fault::IdempotencyConflict,
            PgError::PreconditionsChanged => Fault::PreconditionsChanged,
            PgError::ProjectNotAvailable => Fault::ProjectNotAvailable,
            PgError::RestoreIncomplete => Fault::RestoreIncomplete,
            PgError::Forbidden => Fault::Forbidden,
            PgError::MissingDependency => Fault::MissingDependency,
            PgError::DependencyCycle => Fault::DependencyCycle,
            PgError::ScopeUnsupported => Fault::ScopeUnsupported,
            PgError::ResourceConflict => Fault::ResourceConflict,
            PgError::ParentEvidenceRequired => Fault::ParentEvidenceRequired,
            PgError::BindingInvalid => Fault::BindingInvalid,
            PgError::ClaimBlocksActivation => Fault::ClaimBlocksActivation,
            PgError::GraphBudgetExceeded => Fault::GraphBudgetExceeded,
            PgError::LeaseExpired => Fault::LeaseExpired,
            PgError::RecoveryBlocked => Fault::RecoveryBlocked,
            PgError::ExecutionNotFound => Fault::ExecutionNotFound,
            PgError::ScopeExceeded => Fault::ScopeExceeded,
            PgError::StaleFence => Fault::StaleFence,
            PgError::SessionNotFound => Fault::SessionNotFound,
            PgError::WaitOpen => Fault::WaitOpen,
            PgError::ClaimHeld => Fault::ClaimHeld,
            PgError::StaleApproval => Fault::StaleApproval,
            PgError::CandidateNotApproved => Fault::CandidateNotApproved,
            PgError::PolicyDowngrade => Fault::PolicyDowngrade,
        }
    }
}

/// What a request gives back, or why it is refused.
pub type PgResult<T> = Result<T, PgError>;

/// The model of a request that gives back nothing.
pub open spec fn checked(r: PgResult<()>) -> Result<(), Fault> {
    match r {
        Ok(_) => Ok(()),
        Err(e) => Err(e@),
    }
}

/// A request that breaks the protocol.
pub fn protocol(message: &str) -> (r: PgError)
    ensures
        r@ == Fault::Protocol(message@),
{
    PgError::Protocol(message.to_owned())
}

/// A request that is not served.
pub fn unsupported(message: &str) -> (r: PgError)
    ensures
        r@ == Fault::Unsupported(message@),
{
    PgError::Unsupported(message.to_owned())
}

/// A check that passes has no fault, and one that fails has the fault of its error.
pub proof fn checks_keep_their_fault(e: PgError)
    ensures
        checked(Ok(())) == Ok::<(), Fault>(()),
        checked(Err(e)) == Err::<(), Fault>(e@),
        e is Forbidden <==> e@ is Forbidden,
        e is IdempotencyConflict <==> e@ is IdempotencyConflict,
        e is PreconditionsChanged <==> e@ is PreconditionsChanged,
        e is ProjectNotAvailable <==> e@ is ProjectNotAvailable,
        e is RestoreIncomplete <==> e@ is RestoreIncomplete,
        e is MissingDependency <==> e@ is MissingDependency,
        e is DependencyCycle <==> e@ is DependencyCycle,
        e is ScopeUnsupported <==> e@ is ScopeUnsupported,
        e is ResourceConflict <==> e@ is ResourceConflict,
        e is ParentEvidenceRequired <==> e@ is ParentEvidenceRequired,
        e is BindingInvalid <==> e@ is BindingInvalid,
        e is ClaimBlocksActivation <==> e@ is ClaimBlocksActivation,
        e is GraphBudgetExceeded <==> e@ is GraphBudgetExceeded,
        e is LeaseExpired <==> e@ is LeaseExpired,
        e is RecoveryBlocked <==> e@ is RecoveryBlocked,
        e is ExecutionNotFound <==> e@ is ExecutionNotFound,
        e is ScopeExceeded <==> e@ is ScopeExceeded,
        e is StaleFence <==> e@ is StaleFence,
        e is SessionNotFound <==> e@ is SessionNotFound,
        e is WaitOpen <==> e@ is WaitOpen,
        e is ClaimHeld <==> e@ is ClaimHeld,
        e is StaleApproval <==> e@ is StaleApproval,
        e is CandidateNotApproved <==> e@ is CandidateNotApproved,
        e is PolicyDowngrade <==> e@ is PolicyDowngrade,
        e matches PgError::Protocol(m) ==> e@ == Fault::Protocol(m@),
        e matches PgError::Unsupported(m) ==> e@ == Fault::Unsupported(m@),
        e matches PgError::SchemaIncompatible(m) ==> e@ == Fault::SchemaIncompatible(m@),
        e matches PgError::ActivationImpactUnproven(m) ==> e@ == Fault::ActivationImpactUnproven(m@),
        e matches PgError::WritebackRefused(m) ==> e@ == Fault::WritebackRefused(m@),
{
}

} // verus!
