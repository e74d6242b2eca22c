//! The job record: one ride transaction, from request to settlement.

use vstd::prelude::*;
use crate::fees::{Distribution, BASIS_POINT_WHOLE};

verus! {

/// Lifecycle state of a job.
///
/// The main line runs `Init` → `JobAccepted` → `Arrived` → `Started` →
/// `Completed` → settlement. Cancellation states are only ever transient:
/// a cancelling transition destroys the job record in the same call, so a
/// stored job never carries one. A dispute state freezes automatic
/// progression until resolved off-engine.
#[derive(Clone, Copy, Debug, PartialEq, Eq, Structural)]
pub enum Status {
    Init,
    JobAccepted,
    RejectedByDriver,
    Arrived,
    Started,
    Completed,
    CancelledByDriver,
    CancelledByCustomer,
    DisputeByDriver,
    DisputeByCustomer,
}

/// One ride transaction.
///
/// Identity is the composite key (driver infra, job sequence number); the
/// engine owns at most one job per key, so the key lives in the engine and
/// the record stores the participants and the money facts: the escrowed
/// `total_fee_cent` and the distribution snapshot fixed at request time.
#[derive(Debug)]
pub struct Job {
    /// Current lifecycle state.
    pub status: Status,
    /// Sequence number within the owning driver infra.
    pub job_count: u64,
    /// Identity of the customer-side infra account.
    pub customer_infra: u64,
    /// Identity of the driver-side infra account.
    pub driver_infra: u64,
    /// Identifier of the driver meant to serve the ride.
    pub driver_uuid: String,
    /// Payout shares snapshotted at request time; never changed afterwards.
    pub distribution: Vec<Distribution>,
    /// The fee escrowed for this job, in the smallest currency unit.
    pub total_fee_cent: u64,
    /// When the job was requested.
    pub job_initialized_time: u64,
    /// When the driver accepted; set by acceptance.
    pub job_start_time: Option<u64>,
    /// When the driver reached the pickup point; set by arrival.
    pub arrival_time: Option<u64>,
    /// When the trip ended; set by the first completion call.
    pub job_end_time: Option<u64>,
    /// Opaque rider/driver coordination payload; never interpreted here.
    pub encrypted_data: String,
    /// Opaque encrypted key material for the payload; never interpreted here.
    pub encrypted_combined_rand_base64: String,
}

impl Job {
    /// Well-formedness of a stored job record.
    ///
    /// The distribution holds the two parties' shares — driver infra first,
    /// customer infra second — and together they stay within one whole, so
    /// settlement can never overclaim the escrow. Timestamps exist exactly
    /// from the state that records them, and a stored job is never in a
    /// transient cancellation state.
    pub open spec fn wf(self) -> bool {
        &&& self.distribution@.len() == 2
        &&& self.distribution@[0].provider == self.driver_infra
        &&& self.distribution@[1].provider == self.customer_infra
        &&& self.distribution@[0].basis_point_payout + self.distribution@[1].basis_point_payout
            <= BASIS_POINT_WHOLE
        &&& self.driver_infra != self.customer_infra
        &&& (self.status is JobAccepted || self.status is Arrived || self.status is Started
            || self.status is Completed ==> self.job_start_time is Some)
        &&& (self.status is Arrived || self.status is Started ==> self.arrival_time is Some)
        &&& (self.status is Completed ==> self.job_end_time is Some)
        &&& !(self.status is CancelledByDriver)
        &&& !(self.status is CancelledByCustomer)
        &&& !(self.status is RejectedByDriver)
    }
}

} // verus!
