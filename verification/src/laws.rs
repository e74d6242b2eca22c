//! The engine's cross-cutting guarantees, stated and proved once.
//!
//! Each law here quantifies over every well-formed engine state, relating
//! the spec-level transition functions that the executable methods are
//! proved to implement exactly.

use vstd::prelude::*;
use crate::config::Country;
use crate::coords::Coordinates;
use crate::engine::{
    spec_customer_cancel_ride, spec_driver_accepted_job, spec_driver_cancel_job,
    spec_driver_complete_job, spec_driver_pickup_customer, spec_driver_raise_issue,
    spec_customer_raise_issue, spec_elapsed_exceeds, JobEngine,
};
use crate::errors::ErrorCode;
use crate::fees::lemma_payout_pair_conservation;
use crate::infra::InfraAccount;

verus! {

/// The completion call at `now` by `caller` would perform final settlement:
/// the job is stored as `Completed` and the finalize window has passed.
pub open spec fn spec_complete_settles(
    e: JobEngine,
    caller: u64,
    country_state: Country,
    now: u64,
) -> bool {
    &&& caller == e.driver_infra.update_authority
    &&& e.job matches Some(j) && j.status is Completed && spec_elapsed_exceeds(
        now,
        j.job_end_time->0,
        country_state.finalize_duration_sec,
    )
}

/// No double settlement: the final fund distribution fires at most once per
/// job. A completion call that settles destroys the job record, so a second
/// completion call — by any caller, at any later time, under any
/// configuration — finds no job at the key, changes nothing, and never
/// transfers again. The authorized repeat caller receives the not-found
/// error.
pub proof fn lemma_no_double_settlement(
    e: JobEngine,
    caller1: u64,
    caller2: u64,
    country1: Country,
    country2: Country,
    now1: u64,
    now2: u64,
)
    requires
        e.wf(),
        spec_complete_settles(e, caller1, country1, now1),
    ensures
        spec_driver_complete_job(e, caller1, country1, now1).1 == Ok::<(), ErrorCode>(()),
        spec_driver_complete_job(e, caller1, country1, now1).0.job is None,
        spec_driver_complete_job(
            spec_driver_complete_job(e, caller1, country1, now1).0,
            caller2,
            country2,
            now2,
        ).0 == spec_driver_complete_job(e, caller1, country1, now1).0,
        caller2 == e.driver_infra.update_authority ==> spec_driver_complete_job(
            spec_driver_complete_job(e, caller1, country1, now1).0,
            caller2,
            country2,
            now2,
        ).1 == Err::<(), ErrorCode>(ErrorCode::NotFound),
{
}

/// Every transition conserves money: whatever step a call performs —
/// acceptance, arrival, pickup with its waiting fee, completion and
/// settlement, either cancellation with its penalty and refund, or a dispute
/// flag — the sum of the two infra deposits and the escrow afterwards equals
/// the sum before. Fees and payouts only ever move value between those three
/// balances.
pub proof fn lemma_transitions_conserve_balance(
    e: JobEngine,
    caller: u64,
    country_state: Country,
    next_location: Coordinates,
    now: u64,
)
    requires
        e.wf(),
    ensures
        spec_driver_accepted_job(e, caller, next_location, now).0.total_balance()
            == e.total_balance(),
        crate::engine::spec_driver_arrived(e, caller, now).0.total_balance() == e.total_balance(),
        spec_driver_pickup_customer(e, caller, country_state, now).0.total_balance()
            == e.total_balance(),
        spec_driver_complete_job(e, caller, country_state, now).0.total_balance()
            == e.total_balance(),
        spec_driver_cancel_job(e, caller, country_state, now).0.total_balance()
            == e.total_balance(),
        spec_customer_cancel_ride(e, caller, country_state, now).0.total_balance()
            == e.total_balance(),
        spec_driver_raise_issue(e, caller).0.total_balance() == e.total_balance(),
        spec_customer_raise_issue(e, caller).0.total_balance() == e.total_balance(),
{
    match e.job {
        Some(j) => {
            lemma_payout_pair_conservation(
                j.total_fee_cent as int,
                j.distribution@[0].basis_point_payout as int,
                j.distribution@[1].basis_point_payout as int,
            );
        },
        None => {},
    }
}

/// Rate snapshot immutability: changing the driver infra's basis-point rate
/// after a job was created does not alter the job's snapshotted
/// distribution, and a subsequent acceptance fails with the rate-mismatch
/// error — changing nothing — because the live rate no longer equals the
/// snapshot.
pub proof fn lemma_rate_snapshot_immutable(
    e: JobEngine,
    new_basis_point: u16,
    caller: u64,
    next_location: Coordinates,
    now: u64,
)
    requires
        e.wf(),
        e.job matches Some(j) && j.status is Init,
        new_basis_point != e.job->0.distribution@[0].basis_point_payout,
        caller == e.customer_infra.update_authority,
        next_location.spec_valid(),
        e.driver matches Some(d) && d.is_initialized && d.next_location is None,
    ensures
        ({
            let rate_changed = JobEngine {
                driver_infra: InfraAccount {
                    fee_basis_point: new_basis_point,
                    ..e.driver_infra
                },
                ..e
            };
            &&& rate_changed.job == e.job
            &&& spec_driver_accepted_job(rate_changed, caller, next_location, now) == (
                rate_changed,
                Err::<(), ErrorCode>(ErrorCode::RateMismatch),
            )
        }),
{
    let rate_changed = JobEngine {
        driver_infra: InfraAccount { fee_basis_point: new_basis_point, ..e.driver_infra },
        ..e
    };
    let d = e.job->0.distribution@;
    assert forall|i: int| 0 <= i < d.len() implies !(d[i].provider
        == rate_changed.driver_infra.account_id && d[i].basis_point_payout == new_basis_point) by {
        if i != 0 {
            assert(i == 1);
            assert(d[1].provider == e.customer_infra.account_id);
        }
    }
}

/// Coordinate validation on acceptance: an out-of-range destination —
/// either axis beyond 90 degrees — makes acceptance fail with the
/// invalid-coordinate error, and neither the job nor any location field is
/// mutated. The location-ping and start-of-work operations state the same
/// guarantee directly in their contracts.
pub proof fn lemma_invalid_destination_rejected(
    e: JobEngine,
    caller: u64,
    next_location: Coordinates,
    now: u64,
)
    requires
        e.wf(),
        caller == e.customer_infra.update_authority,
        e.job matches Some(j) && j.status is Init,
        !next_location.spec_valid(),
    ensures
        spec_driver_accepted_job(e, caller, next_location, now) == (
            e,
            Err::<(), ErrorCode>(ErrorCode::InvalidCoordinate),
        ),
{
}

/// Idempotent completion markers: completing a trip records the end time and
/// the `Completed` state exactly once, moving no funds, and a repeated
/// completion call before the finalize window elapses is a pure no-op — the
/// end time keeps its first value and still nothing is transferred.
pub proof fn lemma_completion_marker_idempotent(
    e: JobEngine,
    caller: u64,
    country_state: Country,
    now1: u64,
    now2: u64,
)
    requires
        e.wf(),
        caller == e.driver_infra.update_authority,
        e.job matches Some(j) && (j.status is Arrived || j.status is Started),
        !spec_elapsed_exceeds(now2, now1, country_state.finalize_duration_sec),
    ensures
        ({
            let first = spec_driver_complete_job(e, caller, country_state, now1);
            let second = spec_driver_complete_job(first.0, caller, country_state, now2);
            &&& first.1 == Ok::<(), ErrorCode>(())
            &&& first.0.job matches Some(j1) && j1.status is Completed && j1.job_end_time == Some(
                now1,
            )
            &&& first.0.driver_infra == e.driver_infra
            &&& first.0.customer_infra == e.customer_infra
            &&& first.0.escrow_cent == e.escrow_cent
            &&& second == (first.0, Ok::<(), ErrorCode>(()))
        }),
{
}

} // verus!
