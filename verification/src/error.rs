//! The kinds of failure a caller can see, and how a backend's own failures
//! are brought to them.

use vstd::prelude::*;

verus! {

/// What went wrong, as the caller sees it.
#[derive(Clone, Copy, Debug, PartialEq, Eq, Structural)]
pub enum StoreError {
    /// The service or the account is empty, or the backend would not take it.
    InvalidIdentity,
    /// Nothing is stored under the identity.
    NotFound,
    /// The platform refused access to its storage.
    AccessDenied,
    /// The backend failed in any other way.
    BackendError,
}

/// The step of an operation: first the entry for an identity is resolved,
/// which touches no stored secret, then the secret is read, written or removed.
#[derive(Clone, Copy, Debug, PartialEq, Eq, Structural)]
pub enum Stage {
    Resolve,
    Access,
}

/// The failures that a backend reports, without their platform detail.
#[derive(Clone, Copy, Debug, PartialEq, Eq, Structural)]
pub enum BackendFailure {
    /// The platform's storage failed at run time.
    PlatformFailure,
    /// The platform's storage could not be reached, as when it is locked.
    NoStorageAccess,
    /// No credential matches the entry.
    NoEntry,
    /// What is stored is not UTF-8 text.
    BadEncoding,
    /// An attribute is longer than the platform allows.
    TooLong,
    /// An attribute is not acceptable to the platform.
    Invalid,
    /// More than one credential matches the entry.
    Ambiguous,
    /// A failure that this library has no name for.
    Unrecognized,
}

/// A failed operation: the step at which it failed and the kind of failure.
#[derive(Clone, Copy, Debug, PartialEq, Eq, Structural)]
pub struct Fault {
    pub stage: Stage,
    pub error: StoreError,
}

/// The kind that a backend failure at a given step comes to.
///
/// A missing entry is `NotFound` and a refused storage is `AccessDenied`
/// wherever they arise. An attribute that the backend rejects while the entry
/// is resolved is the identity's; rejected later, it is the secret's, which is
/// the backend's own constraint. All else is a `BackendError`.
pub open spec fn normalized(stage: Stage, failure: BackendFailure) -> StoreError {
    match failure {
        BackendFailure::NoEntry => StoreError::NotFound,
        BackendFailure::NoStorageAccess => StoreError::AccessDenied,
        BackendFailure::TooLong | BackendFailure::Invalid => match stage {
            Stage::Resolve => StoreError::InvalidIdentity,
            Stage::Access => StoreError::BackendError,
        },
        BackendFailure::PlatformFailure
        | BackendFailure::BadEncoding
        | BackendFailure::Ambiguous
        | BackendFailure::Unrecognized => StoreError::BackendError,
    }
}

/// Whether a fault can come out of a backend: a malformed identity is only
/// ever found while the entry is resolved.
pub open spec fn from_backend(fault: Fault) -> bool {
    fault.stage == Stage::Access ==> fault.error != StoreError::InvalidIdentity
}

/// The fault for an identity that the store itself turns away.
pub open spec fn rejected_identity() -> Fault {
    Fault { stage: Stage::Resolve, error: StoreError::InvalidIdentity }
}

/// Brings a backend failure at a given step to the fault that the caller sees.
pub fn normalize(stage: Stage, failure: BackendFailure) -> (fault: Fault)
    ensures
        fault.stage == stage,
        fault.error == normalized(stage, failure),
        from_backend(fault),
{
    let error = match failure {
        BackendFailure::NoEntry => StoreError::NotFound,
        BackendFailure::NoStorageAccess => StoreError::AccessDenied,
        BackendFailure::TooLong | BackendFailure::Invalid => match stage {
            Stage::Resolve => StoreError::InvalidIdentity,
            Stage::Access => StoreError::BackendError,
        },
        _ => StoreError::BackendError,
    };
    Fault { stage, error }
}

/// What comes of a backend's answer at a given step: a value passes as it
/// is, a failure becomes the fault that the caller sees.
pub open spec fn settled<T>(stage: Stage, answer: Result<T, BackendFailure>) -> Result<T, Fault> {
    match answer {
        Ok(value) => Ok(value),
        Err(failure) => Err(Fault { stage, error: normalized(stage, failure) }),
    }
}

/// Settles a backend's answer at a given step.
pub fn settle<T>(stage: Stage, answer: Result<T, BackendFailure>) -> (outcome: Result<T, Fault>)
    ensures
        outcome == settled(stage, answer),
        outcome matches Err(fault) ==> from_backend(fault),
{
    match answer {
        Ok(value) => Ok(value),
        Err(failure) => Err(normalize(stage, failure)),
    }
}

/// The kind that a backend failure comes to when the operation writes. A
/// write makes the slot it writes to, so nothing can be missing for it: a
/// backend that reports a missing entry all the same has failed in its own
/// way. Every other failure comes to what `normalized` gives.
pub open spec fn normalized_write(stage: Stage, failure: BackendFailure) -> StoreError {
    match failure {
        BackendFailure::NoEntry => StoreError::BackendError,
        _ => normalized(stage, failure),
    }
}

/// Whether a fault can come out of a backend that was asked to write: as
/// for any operation, and never `NotFound`.
pub open spec fn from_write(fault: Fault) -> bool {
    from_backend(fault) && fault.error != StoreError::NotFound
}

/// What comes of a backend's answer to a write at a given step.
pub open spec fn settled_write<T>(stage: Stage, answer: Result<T, BackendFailure>) -> Result<
    T,
    Fault,
> {
    match answer {
        Ok(value) => Ok(value),
        Err(failure) => Err(Fault { stage, error: normalized_write(stage, failure) }),
    }
}

/// Settles a backend's answer to a write at a given step.
pub fn settle_write<T>(stage: Stage, answer: Result<T, BackendFailure>) -> (outcome: Result<
    T,
    Fault,
>)
    ensures
        outcome == settled_write(stage, answer),
        outcome matches Err(fault) ==> from_write(fault),
{
    match answer {
        Ok(value) => Ok(value),
        Err(BackendFailure::NoEntry) => Err(Fault { stage, error: StoreError::BackendError }),
        Err(failure) => Err(normalize(stage, failure)),
    }
}

/// The faults that satisfy `from_write` are exactly those that some backend
/// failure comes to when the operation writes.
pub proof fn lemma_from_write_is_the_range(fault: Fault)
    ensures
        from_write(fault) <==> exists|failure: BackendFailure|
            fault.error == #[trigger] normalized_write(fault.stage, failure),
{
    if from_write(fault) {
        let witness = match fault.error {
            StoreError::InvalidIdentity => BackendFailure::Invalid,
            StoreError::AccessDenied => BackendFailure::NoStorageAccess,
            _ => BackendFailure::PlatformFailure,
        };
        assert(fault.error == normalized_write(fault.stage, witness));
    }
}

/// The faults that satisfy `from_backend` are exactly those that some backend
/// failure comes to.
pub proof fn lemma_from_backend_is_the_range(fault: Fault)
    ensures
        from_backend(fault) <==> exists|failure: BackendFailure|
            fault.error == #[trigger] normalized(fault.stage, failure),
{
    if from_backend(fault) {
        let witness = match fault.error {
            StoreError::InvalidIdentity => BackendFailure::Invalid,
            StoreError::NotFound => BackendFailure::NoEntry,
            StoreError::AccessDenied => BackendFailure::NoStorageAccess,
            StoreError::BackendError => BackendFailure::PlatformFailure,
        };
        assert(fault.error == normalized(fault.stage, witness));
    }
}

/// The text that stands for a kind of failure. It is fixed wording: nothing
/// that a backend said, and nothing of the request, enters it.
pub open spec fn message_of(error: StoreError) -> Seq<char> {
    match error {
        StoreError::InvalidIdentity => "invalid credential identity"@,
        StoreError::NotFound => "no matching credential found"@,
        StoreError::AccessDenied => "access to the credential store was denied"@,
        StoreError::BackendError => "credential backend failure"@,
    }
}

impl StoreError {
    /// The text that stands for this kind of failure.
    pub fn message(&self) -> (text: String)
        ensures
            text@ == message_of(*self),
    {
        match self {
            StoreError::InvalidIdentity => "invalid credential identity".to_owned(),
            StoreError::NotFound => "no matching credential found".to_owned(),
            StoreError::AccessDenied => "access to the credential store was denied".to_owned(),
            StoreError::BackendError => "credential backend failure".to_owned(),
        }
    }
}

} // verus!
