//! Error taxonomy of the settlement engine.
//!
//! Every refused operation reports the precondition it violated; no caller
//! ever sees a generic failure, and a refused call mutates nothing.

use vstd::prelude::*;

verus! {

/// The lifecycle fact that blocked a state transition.
#[derive(Clone, Copy, Debug, PartialEq, Eq, Structural)]
pub enum StateConflict {
    /// The job has already been accepted (or has moved past acceptance).
    AlreadyAccepted,
    /// The job was cancelled by the driver side.
    CancelledByDriver,
    /// The job was cancelled by the customer side.
    CancelledByCustomer,
    /// The driver side has raised a dispute; automatic progression is frozen.
    DisputeByDriver,
    /// The customer side has raised a dispute; automatic progression is frozen.
    DisputeByCustomer,
    /// The trip has not started: the job is still awaiting acceptance or pickup.
    NotYetStarted,
    /// The driver has not been marked as arrived at the pickup point.
    NotArrived,
    /// The job is not awaiting acceptance, so the driver cannot arrive yet.
    NotAccepted,
    /// The driver was already marked as arrived.
    AlreadyArrived,
    /// The job has advanced past the point where this party may cancel.
    NotCancellable,
    /// The driver session is already committed to another job.
    DriverEngaged,
    /// A participating infra account is frozen and may not join a new job.
    InfraFrozen,
}

/// Why an operation was refused.
///
/// Each variant names the violated precondition; the operations' contracts
/// state exactly which inputs produce which variant.
#[derive(Clone, Copy, Debug, PartialEq, Eq, Structural)]
pub enum ErrorCode {
    /// A transition was attempted from a state that forbids it.
    StaleOrInvalidState(StateConflict),
    /// The caller is not the recorded authority for the targeted record.
    AuthorizationMismatch,
    /// A distribution entry does not match the infra's current rate.
    RateMismatch,
    /// A balance is too small for the requested transfer or deposit.
    InsufficientFunds,
    /// A latitude or longitude lies outside the accepted range.
    InvalidCoordinate,
    /// The record to create already exists.
    AlreadyInitialized,
    /// The record to operate on has not been initialized.
    NotYetInitialized,
    /// A registration was submitted with a sequence number that does not
    /// match the registry's counter.
    IncorrectInitCount,
    /// A required parameter was not supplied on first initialization.
    MissingParam,
    /// A referenced record or distribution entry is inconsistent: a
    /// programming or data-corruption fault, not a user error.
    IntegrityFault,
    /// No job occupies the targeted key.
    NotFound,
}

} // verus!
