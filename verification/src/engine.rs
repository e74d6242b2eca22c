//! The job state machine coupled with its escrow accounting.
//!
//! A `JobEngine` owns everything one job key can touch: the two participating
//! infra accounts with their deposit balances, the job's escrow balance, the
//! driver session, and the job record itself. Every transition is a
//! deterministic step from the stored state, the caller identity and the
//! current time; it either fully commits — state change and transfers
//! together — or refuses with a specific error and changes nothing.
//!
//! Fund movements never create or destroy money: each transition preserves
//! the sum of the two deposits and the escrow. Settlement and refunds are
//! exactly-once because every settling branch destroys the job record, and a
//! destroyed key can only report that nothing was found.

use vstd::prelude::*;
use crate::config::Country;
use crate::coords::Coordinates;
use crate::driver::Driver;
use crate::errors::{ErrorCode, StateConflict};
use crate::fees::{
    spec_find_basis_points,
    payout, spec_payout, spec_distribution_matches, distribution_matches, find_basis_points,
    snapshot, spec_snapshot, lemma_payout_pair_conservation, BASIS_POINT_WHOLE,
};
use crate::infra::InfraAccount;
use crate::job::{Job, Status};

verus! {

/// More than `threshold_sec` seconds have passed since `since` at `now`.
pub open spec fn spec_elapsed_exceeds(now: u64, since: u64, threshold_sec: u64) -> bool {
    now > since + threshold_sec
}

/// Checks a stored timestamp against a threshold without overflowing.
pub fn elapsed_exceeds(now: u64, since: u64, threshold_sec: u64) -> (r: bool)
    ensures
        r == spec_elapsed_exceeds(now, since, threshold_sec),
{
    now > since && now - since > threshold_sec
}

/// All state one job key can touch, under one single-writer lock.
#[derive(Debug)]
pub struct JobEngine {
    /// The driver-side operator, with its deposit balance.
    pub driver_infra: InfraAccount,
    /// The customer-side operator, with its deposit balance.
    pub customer_infra: InfraAccount,
    /// The driver session, while one exists.
    pub driver: Option<Driver>,
    /// The job record, while one occupies this key.
    pub job: Option<Job>,
    /// The job's escrow balance, in the smallest currency unit.
    pub escrow_cent: u64,
}

impl JobEngine {
    /// Everything the engine can move: both deposits and the escrow.
    pub open spec fn total_balance(self) -> int {
        self.driver_infra.deposit_cent + self.customer_infra.deposit_cent + self.escrow_cent
    }

    /// Well-formedness of the engine's state.
    ///
    /// The two operators are distinct; the total of all balances fits the
    /// balance type, so an internal transfer can never overflow; and a stored
    /// job is well-formed, references exactly these two operators, and its
    /// escrowed fee is covered by the escrow balance.
    pub open spec fn wf(self) -> bool {
        &&& self.driver_infra.account_id != self.customer_infra.account_id
        &&& self.total_balance() <= u64::MAX
        &&& match self.job {
            Some(j) => {
                &&& j.wf()
                &&& j.driver_infra == self.driver_infra.account_id
                &&& j.customer_infra == self.customer_infra.account_id
                &&& j.total_fee_cent <= self.escrow_cent
            },
            None => true,
        }
    }

    /// Assembles an engine for one job key from its two registered
    /// operators. The key starts unoccupied, with no driver session and an
    /// empty escrow. Refused — mutating nothing — if the operators are not
    /// distinct or their combined deposits do not fit the balance type.
    pub fn new(driver_infra: InfraAccount, customer_infra: InfraAccount) -> (r: Result<
        JobEngine,
        ErrorCode,
    >)
        ensures
            match r {
                Ok(e) => {
                    &&& e.wf()
                    &&& e.driver_infra == driver_infra
                    &&& e.customer_infra == customer_infra
                    &&& e.job is None
                    &&& e.driver is None
                    &&& e.escrow_cent == 0
                },
                Err(err) => {
                    &&& err == ErrorCode::IntegrityFault
                    &&& driver_infra.account_id == customer_infra.account_id
                        || driver_infra.deposit_cent + customer_infra.deposit_cent > u64::MAX
                },
            },
            driver_infra.account_id != customer_infra.account_id && driver_infra.deposit_cent
                + customer_infra.deposit_cent <= u64::MAX ==> r is Ok,
    {
        if driver_infra.account_id == customer_infra.account_id {
            return Err(ErrorCode::IntegrityFault);
        }
        if driver_infra.deposit_cent.checked_add(customer_infra.deposit_cent).is_none() {
            return Err(ErrorCode::IntegrityFault);
        }
        Ok(JobEngine { driver_infra, customer_infra, driver: None, job: None, escrow_cent: 0 })
    }

    /// Creates the job and funds its escrow: the heart of ride request.
    ///
    /// Only the customer infra's authority may call, only while no job
    /// occupies the key, only with both operators unfrozen, and only if the
    /// customer side can fund the whole fee. Both parties' current rates are
    /// snapshotted into the job's distribution — driver share first — and
    /// stay fixed for the job's life. Rates that together overclaim the fee
    /// are refused as corrupt. On success exactly `total_fee_cent` moves
    /// from the customer deposit into escrow and the job sits in `Init`.
    pub fn customer_request_ride(
        &mut self,
        caller: u64,
        job_count: u64,
        driver_uuid: String,
        encrypted_data: String,
        encrypted_combined_rand_base64: String,
        total_fee_cent: u64,
        now: u64,
    ) -> (r: Result<(), ErrorCode>)
        requires
            old(self).wf(),
        ensures
            final(self).wf(),
            match r {
                Ok(()) => {
                    &&& caller == old(self).customer_infra.update_authority
                    &&& old(self).job is None
                    &&& !old(self).driver_infra.is_frozen
                    &&& !old(self).customer_infra.is_frozen
                    &&& old(self).customer_infra.deposit_cent >= total_fee_cent
                    &&& final(self).job matches Some(j) && {
                        &&& j.status is Init
                        &&& j.job_count == job_count
                        &&& j.driver_infra == old(self).driver_infra.account_id
                        &&& j.customer_infra == old(self).customer_infra.account_id
                        &&& j.driver_uuid == driver_uuid
                        &&& j.distribution@ == spec_snapshot(
                            old(self).driver_infra.account_id,
                            old(self).driver_infra.fee_basis_point,
                            old(self).customer_infra.account_id,
                            old(self).customer_infra.fee_basis_point,
                        )
                        &&& j.total_fee_cent == total_fee_cent
                        &&& j.job_initialized_time == now
                        &&& j.job_start_time is None
                        &&& j.arrival_time is None
                        &&& j.job_end_time is None
                        &&& j.encrypted_data == encrypted_data
                        &&& j.encrypted_combined_rand_base64 == encrypted_combined_rand_base64
                    }
                    &&& final(self).customer_infra == (InfraAccount {
                        deposit_cent: (old(self).customer_infra.deposit_cent - total_fee_cent) as u64,
                        ..old(self).customer_infra
                    })
                    &&& final(self).escrow_cent == old(self).escrow_cent + total_fee_cent
                    &&& final(self).driver_infra == old(self).driver_infra
                    &&& final(self).driver == old(self).driver
                },
                Err(e) => {
                    &&& *final(self) == *old(self)
                    &&& if caller != old(self).customer_infra.update_authority {
                        e == ErrorCode::AuthorizationMismatch
                    } else if old(self).job is Some {
                        e == ErrorCode::AlreadyInitialized
                    } else if old(self).driver_infra.is_frozen || old(
                        self,
                    ).customer_infra.is_frozen {
                        e == ErrorCode::StaleOrInvalidState(StateConflict::InfraFrozen)
                    } else if old(self).driver_infra.fee_basis_point + old(
                        self,
                    ).customer_infra.fee_basis_point > BASIS_POINT_WHOLE {
                        e == ErrorCode::IntegrityFault
                    } else {
                        e == ErrorCode::InsufficientFunds && old(self).customer_infra.deposit_cent
                            < total_fee_cent
                    }
                },
            },
            caller == old(self).customer_infra.update_authority && old(self).job is None && !old(
                self,
            ).driver_infra.is_frozen && !old(self).customer_infra.is_frozen && old(
                self,
            ).driver_infra.fee_basis_point + old(self).customer_infra.fee_basis_point
                <= BASIS_POINT_WHOLE && old(self).customer_infra.deposit_cent >= total_fee_cent
                ==> r is Ok,
    {
        if caller != self.customer_infra.update_authority {
            return Err(ErrorCode::AuthorizationMismatch);
        }
        if self.job.is_some() {
            return Err(ErrorCode::AlreadyInitialized);
        }
        if self.driver_infra.is_frozen || self.customer_infra.is_frozen {
            return Err(ErrorCode::StaleOrInvalidState(StateConflict::InfraFrozen));
        }
        if self.driver_infra.fee_basis_point as u32 + self.customer_infra.fee_basis_point as u32
            > BASIS_POINT_WHOLE as u32 {
            return Err(ErrorCode::IntegrityFault);
        }
        if self.customer_infra.deposit_cent < total_fee_cent {
            return Err(ErrorCode::InsufficientFunds);
        }
        let distribution = snapshot(
            self.driver_infra.account_id,
            self.driver_infra.fee_basis_point,
            self.customer_infra.account_id,
            self.customer_infra.fee_basis_point,
        );
        let job = Job {
            status: Status::Init,
            job_count,
            customer_infra: self.customer_infra.account_id,
            driver_infra: self.driver_infra.account_id,
            driver_uuid,
            distribution,
            total_fee_cent,
            job_initialized_time: now,
            job_start_time: None,
            arrival_time: None,
            job_end_time: None,
            encrypted_data,
            encrypted_combined_rand_base64,
        };
        self.customer_infra.deposit_cent = self.customer_infra.deposit_cent - total_fee_cent;
        self.escrow_cent = self.escrow_cent + total_fee_cent;
        self.job = Some(job);
        Ok(())
    }
}

/// The acceptance step: from `Init` to `JobAccepted`, commitment recorded.
///
/// Triggered by the customer infra once a driver is matched. The driver must
/// have an active, uncommitted session; the committed destination must be in
/// range; and the driver infra's live rate must still equal the snapshot
/// taken at request time — a changed rate fails rather than silently
/// settling at a stale share. Success records the start time and commits the
/// driver to the pickup-adjacent destination.
pub open spec fn spec_driver_accepted_job(
    e: JobEngine,
    caller: u64,
    next_location: Coordinates,
    now: u64,
) -> (JobEngine, Result<(), ErrorCode>) {
    if caller != e.customer_infra.update_authority {
        (e, Err(ErrorCode::AuthorizationMismatch))
    } else if e.job is None {
        (e, Err(ErrorCode::NotFound))
    } else {
        let j = e.job->0;
        match j.status {
            Status::CancelledByCustomer => (
                e,
                Err(ErrorCode::StaleOrInvalidState(StateConflict::CancelledByCustomer)),
            ),
            Status::CancelledByDriver | Status::RejectedByDriver => (
                e,
                Err(ErrorCode::StaleOrInvalidState(StateConflict::CancelledByDriver)),
            ),
            Status::DisputeByDriver => (
                e,
                Err(ErrorCode::StaleOrInvalidState(StateConflict::DisputeByDriver)),
            ),
            Status::DisputeByCustomer => (
                e,
                Err(ErrorCode::StaleOrInvalidState(StateConflict::DisputeByCustomer)),
            ),
            Status::JobAccepted | Status::Arrived | Status::Started | Status::Completed => (
                e,
                Err(ErrorCode::StaleOrInvalidState(StateConflict::AlreadyAccepted)),
            ),
            Status::Init => {
                if !next_location.spec_valid() {
                    (e, Err(ErrorCode::InvalidCoordinate))
                } else if match e.driver {
                    Some(d) => !d.is_initialized,
                    None => true,
                } {
                    (e, Err(ErrorCode::NotYetInitialized))
                } else if e.driver->0.next_location is Some {
                    (e, Err(ErrorCode::StaleOrInvalidState(StateConflict::DriverEngaged)))
                } else if !spec_distribution_matches(
                    j.distribution@,
                    e.driver_infra.account_id,
                    e.driver_infra.fee_basis_point,
                ) {
                    (e, Err(ErrorCode::RateMismatch))
                } else {
                    (
                        JobEngine {
                            job: Some(
                                Job {
                                    status: Status::JobAccepted,
                                    job_start_time: Some(now),
                                    ..j
                                },
                            ),
                            driver: Some(
                                Driver { next_location: Some(next_location), ..e.driver->0 },
                            ),
                            ..e
                        },
                        Ok(()),
                    )
                }
            },
        }
    }
}

/// The arrival step: from `JobAccepted` to `Arrived`, arrival time recorded.
///
/// Reported by the driver infra when the driver reaches the pickup point;
/// the recorded time anchors the waiting-fee check at pickup.
pub open spec fn spec_driver_arrived(e: JobEngine, caller: u64, now: u64) -> (
    JobEngine,
    Result<(), ErrorCode>,
) {
    if caller != e.driver_infra.update_authority {
        (e, Err(ErrorCode::AuthorizationMismatch))
    } else if e.job is None {
        (e, Err(ErrorCode::NotFound))
    } else {
        let j = e.job->0;
        match j.status {
            Status::CancelledByCustomer => (
                e,
                Err(ErrorCode::StaleOrInvalidState(StateConflict::CancelledByCustomer)),
            ),
            Status::CancelledByDriver | Status::RejectedByDriver => (
                e,
                Err(ErrorCode::StaleOrInvalidState(StateConflict::CancelledByDriver)),
            ),
            Status::DisputeByDriver => (
                e,
                Err(ErrorCode::StaleOrInvalidState(StateConflict::DisputeByDriver)),
            ),
            Status::DisputeByCustomer => (
                e,
                Err(ErrorCode::StaleOrInvalidState(StateConflict::DisputeByCustomer)),
            ),
            Status::Init => (e, Err(ErrorCode::StaleOrInvalidState(StateConflict::NotAccepted))),
            Status::Arrived | Status::Started | Status::Completed => (
                e,
                Err(ErrorCode::StaleOrInvalidState(StateConflict::AlreadyArrived)),
            ),
            Status::JobAccepted => (
                JobEngine {
                    job: Some(Job { status: Status::Arrived, arrival_time: Some(now), ..j }),
                    ..e
                },
                Ok(()),
            ),
        }
    }
}

/// The pickup step: from `Arrived` to `Started`, with the waiting fee.
///
/// If the driver waited longer than the country's waiting threshold since
/// arrival, the waiting fee moves from the customer infra's deposit to the
/// driver infra's — before the trip is marked started, and only if the
/// customer side can pay; otherwise the whole call refuses and nothing
/// changes.
pub open spec fn spec_driver_pickup_customer(
    e: JobEngine,
    caller: u64,
    country_state: Country,
    now: u64,
) -> (JobEngine, Result<(), ErrorCode>) {
    if caller != e.driver_infra.update_authority {
        (e, Err(ErrorCode::AuthorizationMismatch))
    } else if e.job is None {
        (e, Err(ErrorCode::NotFound))
    } else {
        let j = e.job->0;
        match j.status {
            Status::CancelledByCustomer => (
                e,
                Err(ErrorCode::StaleOrInvalidState(StateConflict::CancelledByCustomer)),
            ),
            Status::CancelledByDriver | Status::RejectedByDriver => (
                e,
                Err(ErrorCode::StaleOrInvalidState(StateConflict::CancelledByDriver)),
            ),
            Status::DisputeByDriver => (
                e,
                Err(ErrorCode::StaleOrInvalidState(StateConflict::DisputeByDriver)),
            ),
            Status::DisputeByCustomer => (
                e,
                Err(ErrorCode::StaleOrInvalidState(StateConflict::DisputeByCustomer)),
            ),
            Status::Init | Status::JobAccepted | Status::Started | Status::Completed => (
                e,
                Err(ErrorCode::StaleOrInvalidState(StateConflict::NotArrived)),
            ),
            Status::Arrived => {
                let charged = spec_elapsed_exceeds(
                    now,
                    j.arrival_time->0,
                    country_state.waiting_fee_sec,
                );
                if charged && e.customer_infra.deposit_cent < country_state.waiting_fee_cent {
                    (e, Err(ErrorCode::InsufficientFunds))
                } else {
                    let fee: u64 = if charged {
                        country_state.waiting_fee_cent
                    } else {
                        0
                    };
                    (
                        JobEngine {
                            job: Some(Job { status: Status::Started, ..j }),
                            customer_infra: InfraAccount {
                                deposit_cent: (e.customer_infra.deposit_cent - fee) as u64,
                                ..e.customer_infra
                            },
                            driver_infra: InfraAccount {
                                deposit_cent: (e.driver_infra.deposit_cent + fee) as u64,
                                ..e.driver_infra
                            },
                            ..e
                        },
                        Ok(()),
                    )
                }
            },
        }
    }
}

/// The completion step, and — called again after the finalize window — the
/// exactly-once settlement.
///
/// A trip that has reached pickup or later may be completed: the first call
/// records the end time and marks the job `Completed`, moving no funds.
/// Calling again within the finalize window is a harmless no-op, leaving the
/// dispute window open. Once the window has passed, the next call settles:
/// each party receives its snapshotted share of the fee out of escrow —
/// driver infra's entry first, customer infra's second — rounding dust stays
/// in escrow, and the job and driver session records are destroyed. After
/// that the key is empty, so no later call can ever transfer again.
pub open spec fn spec_driver_complete_job(
    e: JobEngine,
    caller: u64,
    country_state: Country,
    now: u64,
) -> (JobEngine, Result<(), ErrorCode>) {
    if caller != e.driver_infra.update_authority {
        (e, Err(ErrorCode::AuthorizationMismatch))
    } else if e.job is None {
        (e, Err(ErrorCode::NotFound))
    } else {
        let j = e.job->0;
        match j.status {
            Status::Init | Status::JobAccepted => (
                e,
                Err(ErrorCode::StaleOrInvalidState(StateConflict::NotYetStarted)),
            ),
            Status::CancelledByCustomer => (
                e,
                Err(ErrorCode::StaleOrInvalidState(StateConflict::CancelledByCustomer)),
            ),
            Status::CancelledByDriver | Status::RejectedByDriver => (
                e,
                Err(ErrorCode::StaleOrInvalidState(StateConflict::CancelledByDriver)),
            ),
            Status::DisputeByDriver => (
                e,
                Err(ErrorCode::StaleOrInvalidState(StateConflict::DisputeByDriver)),
            ),
            Status::DisputeByCustomer => (
                e,
                Err(ErrorCode::StaleOrInvalidState(StateConflict::DisputeByCustomer)),
            ),
            Status::Arrived | Status::Started => (
                JobEngine {
                    job: Some(Job { status: Status::Completed, job_end_time: Some(now), ..j }),
                    ..e
                },
                Ok(()),
            ),
            Status::Completed => {
                if spec_elapsed_exceeds(
                    now,
                    j.job_end_time->0,
                    country_state.finalize_duration_sec,
                ) {
                    let amount_driver = spec_payout(
                        j.total_fee_cent as int,
                        j.distribution@[0].basis_point_payout as int,
                    );
                    let amount_customer = spec_payout(
                        j.total_fee_cent as int,
                        j.distribution@[1].basis_point_payout as int,
                    );
                    (
                        JobEngine {
                            driver_infra: InfraAccount {
                                deposit_cent: (e.driver_infra.deposit_cent + amount_driver) as u64,
                                ..e.driver_infra
                            },
                            customer_infra: InfraAccount {
                                deposit_cent: (e.customer_infra.deposit_cent
                                    + amount_customer) as u64,
                                ..e.customer_infra
                            },
                            escrow_cent: (e.escrow_cent - amount_driver - amount_customer) as u64,
                            job: None,
                            driver: None,
                            ..e
                        },
                        Ok(()),
                    )
                } else {
                    (e, Ok(()))
                }
            },
        }
    }
}

/// Cancellation by the driver side.
///
/// Legal only from `Init` and `JobAccepted`. From `JobAccepted`, a driver
/// who cancels later than the country's driver-cancellation threshold after
/// acceptance pays the fixed cancellation fee to the customer infra — and
/// the call refuses outright if the driver deposit cannot cover it. In every
/// successful branch the whole escrowed fee is refunded to the customer
/// infra and the job and driver session records are destroyed.
pub open spec fn spec_driver_cancel_job(
    e: JobEngine,
    caller: u64,
    country_state: Country,
    now: u64,
) -> (JobEngine, Result<(), ErrorCode>) {
    if caller != e.driver_infra.update_authority {
        (e, Err(ErrorCode::AuthorizationMismatch))
    } else if e.job is None {
        (e, Err(ErrorCode::NotFound))
    } else {
        let j = e.job->0;
        match j.status {
            Status::CancelledByCustomer => (
                e,
                Err(ErrorCode::StaleOrInvalidState(StateConflict::CancelledByCustomer)),
            ),
            Status::CancelledByDriver | Status::RejectedByDriver => (
                e,
                Err(ErrorCode::StaleOrInvalidState(StateConflict::CancelledByDriver)),
            ),
            Status::DisputeByDriver => (
                e,
                Err(ErrorCode::StaleOrInvalidState(StateConflict::DisputeByDriver)),
            ),
            Status::DisputeByCustomer => (
                e,
                Err(ErrorCode::StaleOrInvalidState(StateConflict::DisputeByCustomer)),
            ),
            Status::Arrived | Status::Started | Status::Completed => (
                e,
                Err(ErrorCode::StaleOrInvalidState(StateConflict::NotCancellable)),
            ),
            Status::Init => (
                JobEngine {
                    customer_infra: InfraAccount {
                        deposit_cent: (e.customer_infra.deposit_cent + j.total_fee_cent) as u64,
                        ..e.customer_infra
                    },
                    escrow_cent: (e.escrow_cent - j.total_fee_cent) as u64,
                    job: None,
                    driver: None,
                    ..e
                },
                Ok(()),
            ),
            Status::JobAccepted => {
                let charged = spec_elapsed_exceeds(
                    now,
                    j.job_start_time->0,
                    country_state.driver_cancellation_fee_sec,
                );
                if charged && e.driver_infra.deposit_cent < country_state.cancellation_fee_cent {
                    (e, Err(ErrorCode::InsufficientFunds))
                } else {
                    let fee: u64 = if charged {
                        country_state.cancellation_fee_cent
                    } else {
                        0
                    };
                    (
                        JobEngine {
                            driver_infra: InfraAccount {
                                deposit_cent: (e.driver_infra.deposit_cent - fee) as u64,
                                ..e.driver_infra
                            },
                            customer_infra: InfraAccount {
                                deposit_cent: (e.customer_infra.deposit_cent + fee
                                    + j.total_fee_cent) as u64,
                                ..e.customer_infra
                            },
                            escrow_cent: (e.escrow_cent - j.total_fee_cent) as u64,
                            job: None,
                            driver: None,
                            ..e
                        },
                        Ok(()),
                    )
                }
            },
        }
    }
}

/// Cancellation by the customer side: the mirror of the driver's.
///
/// Legal only from `Init` and `JobAccepted`, and refused while the driver
/// side has a dispute open — that is settled off-engine. From `JobAccepted`,
/// a customer who cancels later than the country's customer-cancellation
/// threshold after acceptance pays the fixed cancellation fee to the driver
/// infra. In every successful branch the escrowed fee is refunded to the
/// customer infra and the job and driver session records are destroyed.
pub open spec fn spec_customer_cancel_ride(
    e: JobEngine,
    caller: u64,
    country_state: Country,
    now: u64,
) -> (JobEngine, Result<(), ErrorCode>) {
    if caller != e.customer_infra.update_authority {
        (e, Err(ErrorCode::AuthorizationMismatch))
    } else if e.job is None {
        (e, Err(ErrorCode::NotFound))
    } else {
        let j = e.job->0;
        match j.status {
            Status::CancelledByDriver | Status::RejectedByDriver => (
                e,
                Err(ErrorCode::StaleOrInvalidState(StateConflict::CancelledByDriver)),
            ),
            Status::CancelledByCustomer => (
                e,
                Err(ErrorCode::StaleOrInvalidState(StateConflict::CancelledByCustomer)),
            ),
            Status::DisputeByDriver => (
                e,
                Err(ErrorCode::StaleOrInvalidState(StateConflict::DisputeByDriver)),
            ),
            Status::DisputeByCustomer => (
                e,
                Err(ErrorCode::StaleOrInvalidState(StateConflict::DisputeByCustomer)),
            ),
            Status::Arrived | Status::Started | Status::Completed => (
                e,
                Err(ErrorCode::StaleOrInvalidState(StateConflict::NotCancellable)),
            ),
            Status::Init => (
                JobEngine {
                    customer_infra: InfraAccount {
                        deposit_cent: (e.customer_infra.deposit_cent + j.total_fee_cent) as u64,
                        ..e.customer_infra
                    },
                    escrow_cent: (e.escrow_cent - j.total_fee_cent) as u64,
                    job: None,
                    driver: None,
                    ..e
                },
                Ok(()),
            ),
            Status::JobAccepted => {
                let charged = spec_elapsed_exceeds(
                    now,
                    j.job_start_time->0,
                    country_state.customer_cancellation_fee_sec,
                );
                if charged && e.customer_infra.deposit_cent < country_state.cancellation_fee_cent {
                    (e, Err(ErrorCode::InsufficientFunds))
                } else {
                    let fee: u64 = if charged {
                        country_state.cancellation_fee_cent
                    } else {
                        0
                    };
                    (
                        JobEngine {
                            driver_infra: InfraAccount {
                                deposit_cent: (e.driver_infra.deposit_cent + fee) as u64,
                                ..e.driver_infra
                            },
                            customer_infra: InfraAccount {
                                deposit_cent: (e.customer_infra.deposit_cent - fee
                                    + j.total_fee_cent) as u64,
                                ..e.customer_infra
                            },
                            escrow_cent: (e.escrow_cent - j.total_fee_cent) as u64,
                            job: None,
                            driver: None,
                            ..e
                        },
                        Ok(()),
                    )
                }
            },
        }
    }
}

/// A dispute raised by the driver side.
///
/// Allowed from any stored state except one already cancelled or already
/// disputed by the customer side. Setting the flag freezes automatic
/// progression: every later transition refuses until resolution happens
/// off-engine.
pub open spec fn spec_driver_raise_issue(e: JobEngine, caller: u64) -> (
    JobEngine,
    Result<(), ErrorCode>,
) {
    if caller != e.driver_infra.update_authority {
        (e, Err(ErrorCode::AuthorizationMismatch))
    } else if e.job is None {
        (e, Err(ErrorCode::NotFound))
    } else {
        let j = e.job->0;
        match j.status {
            Status::CancelledByCustomer => (
                e,
                Err(ErrorCode::StaleOrInvalidState(StateConflict::CancelledByCustomer)),
            ),
            Status::CancelledByDriver | Status::RejectedByDriver => (
                e,
                Err(ErrorCode::StaleOrInvalidState(StateConflict::CancelledByDriver)),
            ),
            Status::DisputeByCustomer => (
                e,
                Err(ErrorCode::StaleOrInvalidState(StateConflict::DisputeByCustomer)),
            ),
            Status::Init | Status::JobAccepted | Status::Arrived | Status::Started
            | Status::Completed | Status::DisputeByDriver => (
                JobEngine { job: Some(Job { status: Status::DisputeByDriver, ..j }), ..e },
                Ok(()),
            ),
        }
    }
}

/// A dispute raised by the customer side: the mirror of the driver's.
pub open spec fn spec_customer_raise_issue(e: JobEngine, caller: u64) -> (
    JobEngine,
    Result<(), ErrorCode>,
) {
    if caller != e.customer_infra.update_authority {
        (e, Err(ErrorCode::AuthorizationMismatch))
    } else if e.job is None {
        (e, Err(ErrorCode::NotFound))
    } else {
        let j = e.job->0;
        match j.status {
            Status::CancelledByDriver | Status::RejectedByDriver => (
                e,
                Err(ErrorCode::StaleOrInvalidState(StateConflict::CancelledByDriver)),
            ),
            Status::CancelledByCustomer => (
                e,
                Err(ErrorCode::StaleOrInvalidState(StateConflict::CancelledByCustomer)),
            ),
            Status::DisputeByDriver => (
                e,
                Err(ErrorCode::StaleOrInvalidState(StateConflict::DisputeByDriver)),
            ),
            Status::Init | Status::JobAccepted | Status::Arrived | Status::Started
            | Status::Completed | Status::DisputeByCustomer => (
                JobEngine { job: Some(Job { status: Status::DisputeByCustomer, ..j }), ..e },
                Ok(()),
            ),
        }
    }
}

impl JobEngine {
    /// Accepts the job for the matched driver. See [`spec_driver_accepted_job`]
    /// for the exact step this performs.
    pub fn driver_accepted_job(&mut self, caller: u64, next_location: Coordinates, now: u64) -> (r:
        Result<(), ErrorCode>)
        requires
            old(self).wf(),
        ensures
            final(self).wf(),
            (*final(self), r) == spec_driver_accepted_job(*old(self), caller, next_location, now),
    {
        if caller != self.customer_infra.update_authority {
            return Err(ErrorCode::AuthorizationMismatch);
        }
        let status = match &self.job {
            None => {
                return Err(ErrorCode::NotFound);
            },
            Some(j) => j.status,
        };
        match status {
            Status::CancelledByCustomer => Err(
                ErrorCode::StaleOrInvalidState(StateConflict::CancelledByCustomer),
            ),
            Status::CancelledByDriver | Status::RejectedByDriver => Err(
                ErrorCode::StaleOrInvalidState(StateConflict::CancelledByDriver),
            ),
            Status::DisputeByDriver => Err(
                ErrorCode::StaleOrInvalidState(StateConflict::DisputeByDriver),
            ),
            Status::DisputeByCustomer => Err(
                ErrorCode::StaleOrInvalidState(StateConflict::DisputeByCustomer),
            ),
            Status::JobAccepted | Status::Arrived | Status::Started | Status::Completed => Err(
                ErrorCode::StaleOrInvalidState(StateConflict::AlreadyAccepted),
            ),
            Status::Init => {
                if !next_location.is_valid() {
                    return Err(ErrorCode::InvalidCoordinate);
                }
                let session_active = match &self.driver {
                    Some(d) => d.is_initialized,
                    None => false,
                };
                if !session_active {
                    return Err(ErrorCode::NotYetInitialized);
                }
                if self.driver.as_ref().unwrap().next_location.is_some() {
                    return Err(ErrorCode::StaleOrInvalidState(StateConflict::DriverEngaged));
                }
                let rate_matches = distribution_matches(
                    &self.job.as_ref().unwrap().distribution,
                    self.driver_infra.account_id,
                    self.driver_infra.fee_basis_point,
                );
                if !rate_matches {
                    return Err(ErrorCode::RateMismatch);
                }
                let mut j = self.job.take().unwrap();
                j.status = Status::JobAccepted;
                j.job_start_time = Some(now);
                self.job = Some(j);
                let mut d = self.driver.take().unwrap();
                d.next_location = Some(next_location);
                self.driver = Some(d);
                Ok(())
            },
        }
    }

    /// Records the driver's arrival at the pickup point. See
    /// [`spec_driver_arrived`] for the exact step this performs.
    pub fn driver_arrived(&mut self, caller: u64, now: u64) -> (r: Result<(), ErrorCode>)
        requires
            old(self).wf(),
        ensures
            final(self).wf(),
            (*final(self), r) == spec_driver_arrived(*old(self), caller, now),
    {
        if caller != self.driver_infra.update_authority {
            return Err(ErrorCode::AuthorizationMismatch);
        }
        let status = match &self.job {
            None => {
                return Err(ErrorCode::NotFound);
            },
            Some(j) => j.status,
        };
        match status {
            Status::CancelledByCustomer => Err(
                ErrorCode::StaleOrInvalidState(StateConflict::CancelledByCustomer),
            ),
            Status::CancelledByDriver | Status::RejectedByDriver => Err(
                ErrorCode::StaleOrInvalidState(StateConflict::CancelledByDriver),
            ),
            Status::DisputeByDriver => Err(
                ErrorCode::StaleOrInvalidState(StateConflict::DisputeByDriver),
            ),
            Status::DisputeByCustomer => Err(
                ErrorCode::StaleOrInvalidState(StateConflict::DisputeByCustomer),
            ),
            Status::Init => Err(ErrorCode::StaleOrInvalidState(StateConflict::NotAccepted)),
            Status::Arrived | Status::Started | Status::Completed => Err(
                ErrorCode::StaleOrInvalidState(StateConflict::AlreadyArrived),
            ),
            Status::JobAccepted => {
                let mut j = self.job.take().unwrap();
                j.status = Status::Arrived;
                j.arrival_time = Some(now);
                self.job = Some(j);
                Ok(())
            },
        }
    }

    /// Marks the rider picked up, charging the waiting fee where owed. See
    /// [`spec_driver_pickup_customer`] for the exact step this performs.
    pub fn driver_pickup_customer(&mut self, caller: u64, country_state: &Country, now: u64) -> (r:
        Result<(), ErrorCode>)
        requires
            old(self).wf(),
        ensures
            final(self).wf(),
            (*final(self), r) == spec_driver_pickup_customer(
                *old(self),
                caller,
                *country_state,
                now,
            ),
    {
        if caller != self.driver_infra.update_authority {
            return Err(ErrorCode::AuthorizationMismatch);
        }
        let (status, arrival_time) = match &self.job {
            None => {
                return Err(ErrorCode::NotFound);
            },
            Some(j) => (j.status, j.arrival_time),
        };
        match status {
            Status::CancelledByCustomer => Err(
                ErrorCode::StaleOrInvalidState(StateConflict::CancelledByCustomer),
            ),
            Status::CancelledByDriver | Status::RejectedByDriver => Err(
                ErrorCode::StaleOrInvalidState(StateConflict::CancelledByDriver),
            ),
            Status::DisputeByDriver => Err(
                ErrorCode::StaleOrInvalidState(StateConflict::DisputeByDriver),
            ),
            Status::DisputeByCustomer => Err(
                ErrorCode::StaleOrInvalidState(StateConflict::DisputeByCustomer),
            ),
            Status::Init | Status::JobAccepted | Status::Started | Status::Completed => Err(
                ErrorCode::StaleOrInvalidState(StateConflict::NotArrived),
            ),
            Status::Arrived => {
                let charged = elapsed_exceeds(
                    now,
                    arrival_time.unwrap(),
                    country_state.waiting_fee_sec,
                );
                if charged {
                    if self.customer_infra.deposit_cent < country_state.waiting_fee_cent {
                        return Err(ErrorCode::InsufficientFunds);
                    }
                    self.customer_infra.deposit_cent = self.customer_infra.deposit_cent
                        - country_state.waiting_fee_cent;
                    self.driver_infra.deposit_cent = self.driver_infra.deposit_cent
                        + country_state.waiting_fee_cent;
                }
                let mut j = self.job.take().unwrap();
                j.status = Status::Started;
                self.job = Some(j);
                Ok(())
            },
        }
    }

    /// Completes the trip, or settles it once the finalize window has
    /// passed. See [`spec_driver_complete_job`] for the exact step this
    /// performs.
    pub fn driver_complete_job(&mut self, caller: u64, country_state: &Country, now: u64) -> (r:
        Result<(), ErrorCode>)
        requires
            old(self).wf(),
        ensures
            final(self).wf(),
            (*final(self), r) == spec_driver_complete_job(*old(self), caller, *country_state, now),
    {
        if caller != self.driver_infra.update_authority {
            return Err(ErrorCode::AuthorizationMismatch);
        }
        let (status, job_end_time) = match &self.job {
            None => {
                return Err(ErrorCode::NotFound);
            },
            Some(j) => (j.status, j.job_end_time),
        };
        match status {
            Status::Init | Status::JobAccepted => Err(
                ErrorCode::StaleOrInvalidState(StateConflict::NotYetStarted),
            ),
            Status::CancelledByCustomer => Err(
                ErrorCode::StaleOrInvalidState(StateConflict::CancelledByCustomer),
            ),
            Status::CancelledByDriver | Status::RejectedByDriver => Err(
                ErrorCode::StaleOrInvalidState(StateConflict::CancelledByDriver),
            ),
            Status::DisputeByDriver => Err(
                ErrorCode::StaleOrInvalidState(StateConflict::DisputeByDriver),
            ),
            Status::DisputeByCustomer => Err(
                ErrorCode::StaleOrInvalidState(StateConflict::DisputeByCustomer),
            ),
            Status::Arrived | Status::Started => {
                let mut j = self.job.take().unwrap();
                j.status = Status::Completed;
                j.job_end_time = Some(now);
                self.job = Some(j);
                Ok(())
            },
            Status::Completed => {
                if !elapsed_exceeds(
                    now,
                    job_end_time.unwrap(),
                    country_state.finalize_duration_sec,
                ) {
                    return Ok(());
                }
                let j = self.job.as_ref().unwrap();
                proof {
                    let d = j.distribution@;
                    assert(d.drop_first()[0] == d[1]);
                    assert(spec_find_basis_points(d, self.customer_infra.account_id)
                        == spec_find_basis_points(
                        d.drop_first(),
                        self.customer_infra.account_id,
                    ));
                }
                let bp_driver = match find_basis_points(
                    &j.distribution,
                    self.driver_infra.account_id,
                ) {
                    Ok(bp) => bp,
                    Err(e) => {
                        return Err(e);
                    },
                };
                let bp_customer = match find_basis_points(
                    &j.distribution,
                    self.customer_infra.account_id,
                ) {
                    Ok(bp) => bp,
                    Err(e) => {
                        return Err(e);
                    },
                };
                proof {
                    lemma_payout_pair_conservation(
                        j.total_fee_cent as int,
                        bp_driver as int,
                        bp_customer as int,
                    );
                }
                let amount_driver = payout(j.total_fee_cent, bp_driver);
                let amount_customer = payout(j.total_fee_cent, bp_customer);
                self.escrow_cent = self.escrow_cent - amount_driver - amount_customer;
                self.driver_infra.deposit_cent = self.driver_infra.deposit_cent + amount_driver;
                self.customer_infra.deposit_cent = self.customer_infra.deposit_cent
                    + amount_customer;
                self.job = None;
                self.driver = None;
                Ok(())
            },
        }
    }

    /// Cancels the job from the driver side, charging the late-cancellation
    /// fee where owed and refunding the escrow. See
    /// [`spec_driver_cancel_job`] for the exact step this performs.
    pub fn driver_cancel_job(&mut self, caller: u64, country_state: &Country, now: u64) -> (r:
        Result<(), ErrorCode>)
        requires
            old(self).wf(),
        ensures
            final(self).wf(),
            (*final(self), r) == spec_driver_cancel_job(*old(self), caller, *country_state, now),
    {
        if caller != self.driver_infra.update_authority {
            return Err(ErrorCode::AuthorizationMismatch);
        }
        let (status, job_start_time, total_fee_cent) = match &self.job {
            None => {
                return Err(ErrorCode::NotFound);
            },
            Some(j) => (j.status, j.job_start_time, j.total_fee_cent),
        };
        match status {
            Status::CancelledByCustomer => Err(
                ErrorCode::StaleOrInvalidState(StateConflict::CancelledByCustomer),
            ),
            Status::CancelledByDriver | Status::RejectedByDriver => Err(
                ErrorCode::StaleOrInvalidState(StateConflict::CancelledByDriver),
            ),
            Status::DisputeByDriver => Err(
                ErrorCode::StaleOrInvalidState(StateConflict::DisputeByDriver),
            ),
            Status::DisputeByCustomer => Err(
                ErrorCode::StaleOrInvalidState(StateConflict::DisputeByCustomer),
            ),
            Status::Arrived | Status::Started | Status::Completed => Err(
                ErrorCode::StaleOrInvalidState(StateConflict::NotCancellable),
            ),
            Status::Init => {
                self.escrow_cent = self.escrow_cent - total_fee_cent;
                self.customer_infra.deposit_cent = self.customer_infra.deposit_cent
                    + total_fee_cent;
                self.job = None;
                self.driver = None;
                Ok(())
            },
            Status::JobAccepted => {
                let charged = elapsed_exceeds(
                    now,
                    job_start_time.unwrap(),
                    country_state.driver_cancellation_fee_sec,
                );
                if charged {
                    if self.driver_infra.deposit_cent < country_state.cancellation_fee_cent {
                        return Err(ErrorCode::InsufficientFunds);
                    }
                    self.driver_infra.deposit_cent = self.driver_infra.deposit_cent
                        - country_state.cancellation_fee_cent;
                    self.customer_infra.deposit_cent = self.customer_infra.deposit_cent
                        + country_state.cancellation_fee_cent;
                }
                self.escrow_cent = self.escrow_cent - total_fee_cent;
                self.customer_infra.deposit_cent = self.customer_infra.deposit_cent
                    + total_fee_cent;
                self.job = None;
                self.driver = None;
                Ok(())
            },
        }
    }

    /// Cancels the ride from the customer side, charging the
    /// late-cancellation fee where owed and refunding the escrow. See
    /// [`spec_customer_cancel_ride`] for the exact step this performs.
    pub fn customer_cancel_ride(&mut self, caller: u64, country_state: &Country, now: u64) -> (r:
        Result<(), ErrorCode>)
        requires
            old(self).wf(),
        ensures
            final(self).wf(),
            (*final(self), r) == spec_customer_cancel_ride(*old(self), caller, *country_state, now),
    {
        if caller != self.customer_infra.update_authority {
            return Err(ErrorCode::AuthorizationMismatch);
        }
        let (status, job_start_time, total_fee_cent) = match &self.job {
            None => {
                return Err(ErrorCode::NotFound);
            },
            Some(j) => (j.status, j.job_start_time, j.total_fee_cent),
        };
        match status {
            Status::CancelledByDriver | Status::RejectedByDriver => Err(
                ErrorCode::StaleOrInvalidState(StateConflict::CancelledByDriver),
            ),
            Status::CancelledByCustomer => Err(
                ErrorCode::StaleOrInvalidState(StateConflict::CancelledByCustomer),
            ),
            Status::DisputeByDriver => Err(
                ErrorCode::StaleOrInvalidState(StateConflict::DisputeByDriver),
            ),
            Status::DisputeByCustomer => Err(
                ErrorCode::StaleOrInvalidState(StateConflict::DisputeByCustomer),
            ),
            Status::Arrived | Status::Started | Status::Completed => Err(
                ErrorCode::StaleOrInvalidState(StateConflict::NotCancellable),
            ),
            Status::Init => {
                self.escrow_cent = self.escrow_cent - total_fee_cent;
                self.customer_infra.deposit_cent = self.customer_infra.deposit_cent
                    + total_fee_cent;
                self.job = None;
                self.driver = None;
                Ok(())
            },
            Status::JobAccepted => {
                let charged = elapsed_exceeds(
                    now,
                    job_start_time.unwrap(),
                    country_state.customer_cancellation_fee_sec,
                );
                if charged {
                    if self.customer_infra.deposit_cent < country_state.cancellation_fee_cent {
                        return Err(ErrorCode::InsufficientFunds);
                    }
                    self.customer_infra.deposit_cent = self.customer_infra.deposit_cent
                        - country_state.cancellation_fee_cent;
                    self.driver_infra.deposit_cent = self.driver_infra.deposit_cent
                        + country_state.cancellation_fee_cent;
                }
                self.escrow_cent = self.escrow_cent - total_fee_cent;
                self.customer_infra.deposit_cent = self.customer_infra.deposit_cent
                    + total_fee_cent;
                self.job = None;
                self.driver = None;
                Ok(())
            },
        }
    }

    /// Raises a dispute from the driver side, freezing automatic
    /// progression. See [`spec_driver_raise_issue`] for the exact step this
    /// performs.
    pub fn driver_raise_issue(&mut self, caller: u64) -> (r: Result<(), ErrorCode>)
        requires
            old(self).wf(),
        ensures
            final(self).wf(),
            (*final(self), r) == spec_driver_raise_issue(*old(self), caller),
    {
        if caller != self.driver_infra.update_authority {
            return Err(ErrorCode::AuthorizationMismatch);
        }
        let status = match &self.job {
            None => {
                return Err(ErrorCode::NotFound);
            },
            Some(j) => j.status,
        };
        match status {
            Status::CancelledByCustomer => Err(
                ErrorCode::StaleOrInvalidState(StateConflict::CancelledByCustomer),
            ),
            Status::CancelledByDriver | Status::RejectedByDriver => Err(
                ErrorCode::StaleOrInvalidState(StateConflict::CancelledByDriver),
            ),
            Status::DisputeByCustomer => Err(
                ErrorCode::StaleOrInvalidState(StateConflict::DisputeByCustomer),
            ),
            Status::Init | Status::JobAccepted | Status::Arrived | Status::Started
            | Status::Completed | Status::DisputeByDriver => {
                let mut j = self.job.take().unwrap();
                j.status = Status::DisputeByDriver;
                self.job = Some(j);
                Ok(())
            },
        }
    }

    /// Raises a dispute from the customer side, freezing automatic
    /// progression. See [`spec_customer_raise_issue`] for the exact step
    /// this performs.
    pub fn customer_raise_issue(&mut self, caller: u64) -> (r: Result<(), ErrorCode>)
        requires
            old(self).wf(),
        ensures
            final(self).wf(),
            (*final(self), r) == spec_customer_raise_issue(*old(self), caller),
    {
        if caller != self.customer_infra.update_authority {
            return Err(ErrorCode::AuthorizationMismatch);
        }
        let status = match &self.job {
            None => {
                return Err(ErrorCode::NotFound);
            },
            Some(j) => j.status,
        };
        match status {
            Status::CancelledByDriver | Status::RejectedByDriver => Err(
                ErrorCode::StaleOrInvalidState(StateConflict::CancelledByDriver),
            ),
            Status::CancelledByCustomer => Err(
                ErrorCode::StaleOrInvalidState(StateConflict::CancelledByCustomer),
            ),
            Status::DisputeByDriver => Err(
                ErrorCode::StaleOrInvalidState(StateConflict::DisputeByDriver),
            ),
            Status::Init | Status::JobAccepted | Status::Arrived | Status::Started
            | Status::Completed | Status::DisputeByCustomer => {
                let mut j = self.job.take().unwrap();
                j.status = Status::DisputeByCustomer;
                self.job = Some(j);
                Ok(())
            },
        }
    }

    /// Opens a driver session: the driver starts work.
    ///
    /// Only the driver infra's authority may, with an in-range starting
    /// position, and not while a session is already active. The fresh
    /// session carries no committed destination, so the driver may be
    /// offered jobs.
    pub fn driver_start_work(
        &mut self,
        caller: u64,
        location_update_authority: u64,
        country_key: u64,
        driver_uuid: String,
        rsa_pem_pubkey: String,
        services: Vec<u64>,
        passenger_types: Vec<u64>,
        vehicle: u64,
        number_of_seats: u8,
        current_location: Coordinates,
        now: u64,
    ) -> (r: Result<(), ErrorCode>)
        requires
            old(self).wf(),
        ensures
            final(self).wf(),
            final(self).job == old(self).job,
            final(self).driver_infra == old(self).driver_infra,
            final(self).customer_infra == old(self).customer_infra,
            final(self).escrow_cent == old(self).escrow_cent,
            match r {
                Ok(()) => {
                    &&& caller == old(self).driver_infra.update_authority
                    &&& current_location.spec_valid()
                    &&& !(old(self).driver matches Some(d) && d.is_initialized)
                    &&& final(self).driver == Some(
                        Driver {
                            is_initialized: true,
                            location_update_authority,
                            driver_uuid,
                            rsa_pem_pubkey,
                            infra_authority: old(self).driver_infra.account_id,
                            last_location: current_location,
                            location_last_update: now,
                            next_location: None,
                            country_key,
                            offered_service: services,
                            passenger_types,
                            vehicle,
                            number_of_seats,
                        },
                    )
                },
                Err(e) => {
                    &&& *final(self) == *old(self)
                    &&& if caller != old(self).driver_infra.update_authority {
                        e == ErrorCode::AuthorizationMismatch
                    } else if !current_location.spec_valid() {
                        e == ErrorCode::InvalidCoordinate
                    } else {
                        &&& e == ErrorCode::AlreadyInitialized
                        &&& old(self).driver matches Some(d) && d.is_initialized
                    }
                },
            },
    {
        if caller != self.driver_infra.update_authority {
            return Err(ErrorCode::AuthorizationMismatch);
        }
        if !current_location.is_valid() {
            return Err(ErrorCode::InvalidCoordinate);
        }
        let already_active = match &self.driver {
            Some(d) => d.is_initialized,
            None => false,
        };
        if already_active {
            return Err(ErrorCode::AlreadyInitialized);
        }
        self.driver = Some(
            Driver {
                is_initialized: true,
                location_update_authority,
                driver_uuid,
                rsa_pem_pubkey,
                infra_authority: self.driver_infra.account_id,
                last_location: current_location,
                location_last_update: now,
                next_location: None,
                country_key,
                offered_service: services,
                passenger_types,
                vehicle,
                number_of_seats,
            },
        );
        Ok(())
    }

    /// Records a location ping for the active driver session.
    ///
    /// Only the session's location-update authority may; both supplied
    /// positions must be in range, and a refused ping mutates nothing. The
    /// committed destination is only ever overwritten while one is pending.
    pub fn driver_update_location(
        &mut self,
        caller: u64,
        current_location: Coordinates,
        next_location: Option<Coordinates>,
        now: u64,
    ) -> (r: Result<(), ErrorCode>)
        requires
            old(self).wf(),
            old(self).driver matches Some(d) && d.next_location is Some ==> next_location is Some,
        ensures
            final(self).wf(),
            final(self).job == old(self).job,
            final(self).driver_infra == old(self).driver_infra,
            final(self).customer_infra == old(self).customer_infra,
            final(self).escrow_cent == old(self).escrow_cent,
            match r {
                Ok(()) => {
                    &&& old(self).driver matches Some(d) && d.is_initialized
                    &&& caller == old(self).driver->0.location_update_authority
                    &&& current_location.spec_valid()
                    &&& (next_location matches Some(n) ==> n.spec_valid())
                    &&& final(self).driver == Some(
                        Driver {
                            last_location: current_location,
                            location_last_update: now,
                            next_location: if old(self).driver->0.next_location is Some {
                                next_location
                            } else {
                                old(self).driver->0.next_location
                            },
                            ..old(self).driver->0
                        },
                    )
                },
                Err(e) => {
                    &&& *final(self) == *old(self)
                    &&& if !(old(self).driver matches Some(d) && d.is_initialized) {
                        e == ErrorCode::NotYetInitialized
                    } else if caller != old(self).driver->0.location_update_authority {
                        e == ErrorCode::AuthorizationMismatch
                    } else {
                        &&& e == ErrorCode::InvalidCoordinate
                        &&& !current_location.spec_valid() || (next_location matches Some(n)
                            && !n.spec_valid())
                    }
                },
            },
    {
        let active = match &self.driver {
            Some(d) => d.is_initialized,
            None => false,
        };
        if !active {
            return Err(ErrorCode::NotYetInitialized);
        }
        if caller != self.driver.as_ref().unwrap().location_update_authority {
            return Err(ErrorCode::AuthorizationMismatch);
        }
        let mut d = self.driver.take().unwrap();
        let r = d.driver_update_location(current_location, next_location, now);
        self.driver = Some(d);
        r
    }

    /// Closes the driver session: the driver ends work.
    ///
    /// Only the driver infra's authority may. The session record is
    /// destroyed regardless of any committed destination; the job engine's
    /// own closing paths are the only ones that settle an open job.
    pub fn driver_end_work(&mut self, caller: u64) -> (r: Result<(), ErrorCode>)
        requires
            old(self).wf(),
        ensures
            final(self).wf(),
            match r {
                Ok(()) => {
                    &&& caller == old(self).driver_infra.update_authority
                    &&& old(self).driver is Some
                    &&& *final(self) == (JobEngine { driver: None, ..*old(self) })
                },
                Err(e) => {
                    &&& *final(self) == *old(self)
                    &&& if caller != old(self).driver_infra.update_authority {
                        e == ErrorCode::AuthorizationMismatch
                    } else {
                        e == ErrorCode::NotYetInitialized && old(self).driver is None
                    }
                },
            },
    {
        if caller != self.driver_infra.update_authority {
            return Err(ErrorCode::AuthorizationMismatch);
        }
        if self.driver.is_none() {
            return Err(ErrorCode::NotYetInitialized);
        }
        self.driver = None;
        Ok(())
    }
}

} // verus!
