use ride_network::config::Country;
use ride_network::coords::Coordinates;
use ride_network::engine::JobEngine;
use ride_network::errors::{ErrorCode, StateConflict};
use ride_network::infra::InfraAccount;
use ride_network::job::Status;

const DRIVER_INFRA: u64 = 10;
const DRIVER_AUTH: u64 = 11;
const CUSTOMER_INFRA: u64 = 20;
const CUSTOMER_AUTH: u64 = 21;

fn test_infra(account_id: u64, authority: u64, basis_point: u16, deposit_cent: u64) -> InfraAccount {
    InfraAccount {
        account_id,
        alpha3_country_code: String::from("SGP"),
        update_authority: authority,
        infra_count: 0,
        job_counter: 0,
        is_initialized: true,
        is_verified: true,
        is_frozen: false,
        fee_basis_point: basis_point,
        company_info_current_count: 0,
        matched_ride: 0,
        cancellation: 0,
        dispute_cases: 0,
        cases_lost_in_dispute: 0,
        deposit_cent,
    }
}

fn test_country(
    waiting_fee_sec: u64,
    waiting_fee_cent: u64,
    driver_cancellation_fee_sec: u64,
    customer_cancellation_fee_sec: u64,
    cancellation_fee_cent: u64,
    finalize_duration_sec: u64,
) -> Country {
    Country {
        alpha3_country_code: String::from("SGP"),
        update_authority: 1,
        platform_fee_basis_point: 100,
        driver_infra_counter: 1,
        customer_infra_counter: 1,
        stable_mint: 7,
        waiting_fee_sec,
        waiting_fee_cent,
        driver_cancellation_fee_sec,
        customer_cancellation_fee_sec,
        cancellation_fee_cent,
        base_rate_cent: 400,
        min_km_rate_cent: 50,
        min_min_fee_cent: 20,
        finalize_duration_sec,
        dispute_waitout_period: 86_400,
        min_driver_infra_deposit: 1_000,
        min_customer_infra_deposit: 1_000,
        base_slash_amount: 500,
        is_initialized: true,
    }
}

fn spot(lat: i64, long: i64) -> Coordinates {
    Coordinates { lat, long }
}

fn fresh_engine(driver_bp: u16, customer_bp: u16, driver_cent: u64, customer_cent: u64) -> JobEngine {
    let driver_infra = test_infra(DRIVER_INFRA, DRIVER_AUTH, driver_bp, driver_cent);
    let customer_infra = test_infra(CUSTOMER_INFRA, CUSTOMER_AUTH, customer_bp, customer_cent);
    JobEngine::new(driver_infra, customer_infra).unwrap()
}

fn start_session(engine: &mut JobEngine, now: u64) {
    engine
        .driver_start_work(
            DRIVER_AUTH,
            DRIVER_AUTH,
            1,
            String::from("driver-1"),
            String::from("pem"),
            vec![1],
            vec![],
            3,
            4,
            spot(1_000_000, 2_000_000),
            now,
        )
        .unwrap();
}

fn request(engine: &mut JobEngine, total_fee_cent: u64, now: u64) {
    engine
        .customer_request_ride(
            CUSTOMER_AUTH,
            1,
            String::from("driver-1"),
            String::from("payload"),
            String::from("key"),
            total_fee_cent,
            now,
        )
        .unwrap();
}

#[test]
fn request_ride_funds_escrow_and_snapshots_rates() {
    let mut engine = fresh_engine(7000, 3000, 5_000, 50_000);
    request(&mut engine, 10_000, 100);
    assert_eq!(engine.escrow_cent, 10_000);
    assert_eq!(engine.customer_infra.deposit_cent, 40_000);
    assert_eq!(engine.driver_infra.deposit_cent, 5_000);
    let job = engine.job.as_ref().unwrap();
    assert_eq!(job.status, Status::Init);
    assert_eq!(job.total_fee_cent, 10_000);
    assert_eq!(job.distribution.len(), 2);
    assert_eq!(job.distribution[0].provider, DRIVER_INFRA);
    assert_eq!(job.distribution[0].basis_point_payout, 7000);
    assert_eq!(job.distribution[1].provider, CUSTOMER_INFRA);
    assert_eq!(job.distribution[1].basis_point_payout, 3000);
    assert_eq!(job.job_initialized_time, 100);
    assert_eq!(job.job_start_time, None);
}

#[test]
fn full_lifecycle_settles_exact_split_and_closes_records() {
    // Total fee 10_000 split 7000/3000 basis points, finalize window zero.
    let country = test_country(300, 50, 60, 60, 500, 0);
    let mut engine = fresh_engine(7000, 3000, 5_000, 50_000);
    start_session(&mut engine, 90);
    request(&mut engine, 10_000, 100);
    engine.driver_accepted_job(CUSTOMER_AUTH, spot(3_000_000, 4_000_000), 110).unwrap();
    assert_eq!(engine.job.as_ref().unwrap().status, Status::JobAccepted);
    engine.driver_arrived(DRIVER_AUTH, 120).unwrap();
    engine.driver_pickup_customer(DRIVER_AUTH, &country, 130).unwrap();
    engine.driver_complete_job(DRIVER_AUTH, &country, 200).unwrap();
    assert_eq!(engine.job.as_ref().unwrap().status, Status::Completed);
    assert_eq!(engine.escrow_cent, 10_000);
    // Second call past the (zero-length) finalize window performs settlement.
    engine.driver_complete_job(DRIVER_AUTH, &country, 201).unwrap();
    assert_eq!(engine.driver_infra.deposit_cent, 5_000 + 7_000);
    assert_eq!(engine.customer_infra.deposit_cent, 40_000 + 3_000);
    assert_eq!(engine.escrow_cent, 0);
    assert!(engine.job.is_none());
    assert!(engine.driver.is_none());
}

#[test]
fn settlement_fires_at_most_once() {
    let country = test_country(300, 50, 60, 60, 500, 0);
    let mut engine = fresh_engine(7000, 3000, 5_000, 50_000);
    start_session(&mut engine, 90);
    request(&mut engine, 10_000, 100);
    engine.driver_accepted_job(CUSTOMER_AUTH, spot(0, 0), 110).unwrap();
    engine.driver_arrived(DRIVER_AUTH, 120).unwrap();
    engine.driver_pickup_customer(DRIVER_AUTH, &country, 130).unwrap();
    engine.driver_complete_job(DRIVER_AUTH, &country, 200).unwrap();
    engine.driver_complete_job(DRIVER_AUTH, &country, 300).unwrap();
    let driver_after = engine.driver_infra.deposit_cent;
    let customer_after = engine.customer_infra.deposit_cent;
    // The key is gone: a third call is refused and transfers nothing.
    let err = engine.driver_complete_job(DRIVER_AUTH, &country, 400).unwrap_err();
    assert_eq!(err, ErrorCode::NotFound);
    assert_eq!(engine.driver_infra.deposit_cent, driver_after);
    assert_eq!(engine.customer_infra.deposit_cent, customer_after);
    assert_eq!(engine.escrow_cent, 0);
}

#[test]
fn completion_marker_is_idempotent_before_finalize_window() {
    let country = test_country(300, 50, 60, 60, 500, 1_000);
    let mut engine = fresh_engine(7000, 3000, 5_000, 50_000);
    start_session(&mut engine, 90);
    request(&mut engine, 10_000, 100);
    engine.driver_accepted_job(CUSTOMER_AUTH, spot(0, 0), 110).unwrap();
    engine.driver_arrived(DRIVER_AUTH, 120).unwrap();
    engine.driver_pickup_customer(DRIVER_AUTH, &country, 130).unwrap();
    engine.driver_complete_job(DRIVER_AUTH, &country, 200).unwrap();
    assert_eq!(engine.job.as_ref().unwrap().job_end_time, Some(200));
    // Before 200 + 1000 the repeat call is a no-op with no transfers.
    engine.driver_complete_job(DRIVER_AUTH, &country, 900).unwrap();
    let job = engine.job.as_ref().unwrap();
    assert_eq!(job.status, Status::Completed);
    assert_eq!(job.job_end_time, Some(200));
    assert_eq!(engine.escrow_cent, 10_000);
    assert_eq!(engine.driver_infra.deposit_cent, 5_000);
    assert_eq!(engine.customer_infra.deposit_cent, 40_000);
}

#[test]
fn driver_cancel_after_threshold_charges_fee_and_refunds() {
    // Accept at 100; threshold 60s; cancel at 161 charges 500.
    let country = test_country(300, 50, 60, 60, 500, 0);
    let mut engine = fresh_engine(7000, 3000, 5_000, 50_000);
    start_session(&mut engine, 90);
    request(&mut engine, 10_000, 100);
    engine.driver_accepted_job(CUSTOMER_AUTH, spot(0, 0), 100).unwrap();
    engine.driver_cancel_job(DRIVER_AUTH, &country, 161).unwrap();
    assert_eq!(engine.driver_infra.deposit_cent, 5_000 - 500);
    assert_eq!(engine.customer_infra.deposit_cent, 40_000 + 500 + 10_000);
    assert_eq!(engine.escrow_cent, 0);
    assert!(engine.job.is_none());
    assert!(engine.driver.is_none());
}

#[test]
fn driver_cancel_within_threshold_refunds_without_fee() {
    let country = test_country(300, 50, 60, 60, 500, 0);
    let mut engine = fresh_engine(7000, 3000, 5_000, 50_000);
    start_session(&mut engine, 90);
    request(&mut engine, 10_000, 100);
    engine.driver_accepted_job(CUSTOMER_AUTH, spot(0, 0), 100).unwrap();
    // 160 is exactly the threshold boundary: not yet exceeded.
    engine.driver_cancel_job(DRIVER_AUTH, &country, 160).unwrap();
    assert_eq!(engine.driver_infra.deposit_cent, 5_000);
    assert_eq!(engine.customer_infra.deposit_cent, 50_000);
    assert_eq!(engine.escrow_cent, 0);
    assert!(engine.job.is_none());
}

#[test]
fn driver_cancel_from_init_refunds_escrow() {
    let country = test_country(300, 50, 60, 60, 500, 0);
    let mut engine = fresh_engine(7000, 3000, 5_000, 50_000);
    request(&mut engine, 10_000, 100);
    engine.driver_cancel_job(DRIVER_AUTH, &country, 100).unwrap();
    assert_eq!(engine.customer_infra.deposit_cent, 50_000);
    assert_eq!(engine.escrow_cent, 0);
    assert!(engine.job.is_none());
}

#[test]
fn customer_cancel_after_threshold_charges_fee_and_refunds() {
    let country = test_country(300, 50, 60, 90, 500, 0);
    let mut engine = fresh_engine(7000, 3000, 5_000, 50_000);
    start_session(&mut engine, 90);
    request(&mut engine, 10_000, 100);
    engine.driver_accepted_job(CUSTOMER_AUTH, spot(0, 0), 100).unwrap();
    engine.customer_cancel_ride(CUSTOMER_AUTH, &country, 191).unwrap();
    assert_eq!(engine.driver_infra.deposit_cent, 5_000 + 500);
    assert_eq!(engine.customer_infra.deposit_cent, 40_000 - 500 + 10_000);
    assert_eq!(engine.escrow_cent, 0);
    assert!(engine.job.is_none());
    assert!(engine.driver.is_none());
}

#[test]
fn double_accept_fails_with_already_accepted() {
    let mut engine = fresh_engine(7000, 3000, 5_000, 50_000);
    start_session(&mut engine, 90);
    request(&mut engine, 10_000, 100);
    engine.driver_accepted_job(CUSTOMER_AUTH, spot(0, 0), 110).unwrap();
    let err = engine.driver_accepted_job(CUSTOMER_AUTH, spot(0, 0), 120).unwrap_err();
    assert_eq!(err, ErrorCode::StaleOrInvalidState(StateConflict::AlreadyAccepted));
    assert_eq!(engine.job.as_ref().unwrap().status, Status::JobAccepted);
}

#[test]
fn accept_fails_with_rate_mismatch_after_rate_change() {
    let mut engine = fresh_engine(7000, 3000, 5_000, 50_000);
    start_session(&mut engine, 90);
    request(&mut engine, 10_000, 100);
    // The snapshot stays at 7000 even though the live rate moves.
    engine.driver_infra.update_basis_point(DRIVER_AUTH, 8000).unwrap();
    assert_eq!(engine.job.as_ref().unwrap().distribution[0].basis_point_payout, 7000);
    let err = engine.driver_accepted_job(CUSTOMER_AUTH, spot(0, 0), 110).unwrap_err();
    assert_eq!(err, ErrorCode::RateMismatch);
    assert_eq!(engine.job.as_ref().unwrap().status, Status::Init);
    // Restoring the snapshotted rate lets acceptance proceed.
    engine.driver_infra.update_basis_point(DRIVER_AUTH, 7000).unwrap();
    engine.driver_accepted_job(CUSTOMER_AUTH, spot(0, 0), 120).unwrap();
    assert_eq!(engine.job.as_ref().unwrap().status, Status::JobAccepted);
}

#[test]
fn pickup_after_waiting_threshold_charges_waiting_fee() {
    let country = test_country(300, 50, 60, 60, 500, 0);
    let mut engine = fresh_engine(7000, 3000, 5_000, 50_000);
    start_session(&mut engine, 90);
    request(&mut engine, 10_000, 100);
    engine.driver_accepted_job(CUSTOMER_AUTH, spot(0, 0), 110).unwrap();
    engine.driver_arrived(DRIVER_AUTH, 120).unwrap();
    // 120 + 300 < 421: waiting fee owed.
    engine.driver_pickup_customer(DRIVER_AUTH, &country, 421).unwrap();
    assert_eq!(engine.driver_infra.deposit_cent, 5_050);
    assert_eq!(engine.customer_infra.deposit_cent, 39_950);
    assert_eq!(engine.job.as_ref().unwrap().status, Status::Started);
}

#[test]
fn pickup_at_waiting_threshold_boundary_charges_nothing() {
    let country = test_country(300, 50, 60, 60, 500, 0);
    let mut engine = fresh_engine(7000, 3000, 5_000, 50_000);
    start_session(&mut engine, 90);
    request(&mut engine, 10_000, 100);
    engine.driver_accepted_job(CUSTOMER_AUTH, spot(0, 0), 110).unwrap();
    engine.driver_arrived(DRIVER_AUTH, 120).unwrap();
    engine.driver_pickup_customer(DRIVER_AUTH, &country, 420).unwrap();
    assert_eq!(engine.driver_infra.deposit_cent, 5_000);
    assert_eq!(engine.customer_infra.deposit_cent, 40_000);
}

#[test]
fn dispute_freezes_progression() {
    let country = test_country(300, 50, 60, 60, 500, 0);
    let mut engine = fresh_engine(7000, 3000, 5_000, 50_000);
    start_session(&mut engine, 90);
    request(&mut engine, 10_000, 100);
    engine.driver_accepted_job(CUSTOMER_AUTH, spot(0, 0), 110).unwrap();
    engine.driver_arrived(DRIVER_AUTH, 120).unwrap();
    engine.customer_raise_issue(CUSTOMER_AUTH).unwrap();
    assert_eq!(engine.job.as_ref().unwrap().status, Status::DisputeByCustomer);
    let err = engine.driver_pickup_customer(DRIVER_AUTH, &country, 130).unwrap_err();
    assert_eq!(err, ErrorCode::StaleOrInvalidState(StateConflict::DisputeByCustomer));
    let err = engine.driver_complete_job(DRIVER_AUTH, &country, 140).unwrap_err();
    assert_eq!(err, ErrorCode::StaleOrInvalidState(StateConflict::DisputeByCustomer));
    let err = engine.driver_cancel_job(DRIVER_AUTH, &country, 150).unwrap_err();
    assert_eq!(err, ErrorCode::StaleOrInvalidState(StateConflict::DisputeByCustomer));
}

#[test]
fn customer_cancel_refused_while_driver_dispute_open() {
    let country = test_country(300, 50, 60, 60, 500, 0);
    let mut engine = fresh_engine(7000, 3000, 5_000, 50_000);
    start_session(&mut engine, 90);
    request(&mut engine, 10_000, 100);
    engine.driver_accepted_job(CUSTOMER_AUTH, spot(0, 0), 110).unwrap();
    engine.driver_raise_issue(DRIVER_AUTH).unwrap();
    let err = engine.customer_cancel_ride(CUSTOMER_AUTH, &country, 120).unwrap_err();
    assert_eq!(err, ErrorCode::StaleOrInvalidState(StateConflict::DisputeByDriver));
    assert_eq!(engine.escrow_cent, 10_000);
}

#[test]
fn complete_before_trip_started_is_refused() {
    let country = test_country(300, 50, 60, 60, 500, 0);
    let mut engine = fresh_engine(7000, 3000, 5_000, 50_000);
    start_session(&mut engine, 90);
    request(&mut engine, 10_000, 100);
    let err = engine.driver_complete_job(DRIVER_AUTH, &country, 110).unwrap_err();
    assert_eq!(err, ErrorCode::StaleOrInvalidState(StateConflict::NotYetStarted));
    engine.driver_accepted_job(CUSTOMER_AUTH, spot(0, 0), 110).unwrap();
    let err = engine.driver_complete_job(DRIVER_AUTH, &country, 120).unwrap_err();
    assert_eq!(err, ErrorCode::StaleOrInvalidState(StateConflict::NotYetStarted));
}

#[test]
fn cancel_after_trip_started_is_refused() {
    let country = test_country(300, 50, 60, 60, 500, 0);
    let mut engine = fresh_engine(7000, 3000, 5_000, 50_000);
    start_session(&mut engine, 90);
    request(&mut engine, 10_000, 100);
    engine.driver_accepted_job(CUSTOMER_AUTH, spot(0, 0), 110).unwrap();
    engine.driver_arrived(DRIVER_AUTH, 120).unwrap();
    engine.driver_pickup_customer(DRIVER_AUTH, &test_country(300, 50, 60, 60, 500, 0), 130).unwrap();
    let err = engine.driver_cancel_job(DRIVER_AUTH, &country, 140).unwrap_err();
    assert_eq!(err, ErrorCode::StaleOrInvalidState(StateConflict::NotCancellable));
    let err = engine.customer_cancel_ride(CUSTOMER_AUTH, &country, 140).unwrap_err();
    assert_eq!(err, ErrorCode::StaleOrInvalidState(StateConflict::NotCancellable));
}

#[test]
fn request_with_insufficient_funds_is_refused() {
    let mut engine = fresh_engine(7000, 3000, 5_000, 9_999);
    let err = engine
        .customer_request_ride(
            CUSTOMER_AUTH,
            1,
            String::from("driver-1"),
            String::from("payload"),
            String::from("key"),
            10_000,
            100,
        )
        .unwrap_err();
    assert_eq!(err, ErrorCode::InsufficientFunds);
    assert!(engine.job.is_none());
    assert_eq!(engine.customer_infra.deposit_cent, 9_999);
    assert_eq!(engine.escrow_cent, 0);
}

#[test]
fn request_on_occupied_key_is_refused() {
    let mut engine = fresh_engine(7000, 3000, 5_000, 50_000);
    request(&mut engine, 10_000, 100);
    let err = engine
        .customer_request_ride(
            CUSTOMER_AUTH,
            2,
            String::from("driver-2"),
            String::from("payload"),
            String::from("key"),
            1_000,
            200,
        )
        .unwrap_err();
    assert_eq!(err, ErrorCode::AlreadyInitialized);
    assert_eq!(engine.escrow_cent, 10_000);
}

#[test]
fn frozen_infra_may_not_join_a_new_job() {
    let mut engine = fresh_engine(7000, 3000, 5_000, 50_000);
    engine.driver_infra.is_frozen = true;
    let err = engine
        .customer_request_ride(
            CUSTOMER_AUTH,
            1,
            String::from("driver-1"),
            String::from("payload"),
            String::from("key"),
            10_000,
            100,
        )
        .unwrap_err();
    assert_eq!(err, ErrorCode::StaleOrInvalidState(StateConflict::InfraFrozen));
    assert!(engine.job.is_none());
}

#[test]
fn caller_identity_is_checked_on_every_transition() {
    let country = test_country(300, 50, 60, 60, 500, 0);
    let mut engine = fresh_engine(7000, 3000, 5_000, 50_000);
    start_session(&mut engine, 90);
    request(&mut engine, 10_000, 100);
    let stranger = 999;
    assert_eq!(
        engine.driver_accepted_job(stranger, spot(0, 0), 110).unwrap_err(),
        ErrorCode::AuthorizationMismatch
    );
    assert_eq!(engine.driver_arrived(stranger, 110).unwrap_err(), ErrorCode::AuthorizationMismatch);
    assert_eq!(
        engine.driver_pickup_customer(stranger, &country, 110).unwrap_err(),
        ErrorCode::AuthorizationMismatch
    );
    assert_eq!(
        engine.driver_complete_job(stranger, &country, 110).unwrap_err(),
        ErrorCode::AuthorizationMismatch
    );
    assert_eq!(
        engine.driver_cancel_job(stranger, &country, 110).unwrap_err(),
        ErrorCode::AuthorizationMismatch
    );
    assert_eq!(
        engine.customer_cancel_ride(stranger, &country, 110).unwrap_err(),
        ErrorCode::AuthorizationMismatch
    );
    assert_eq!(engine.driver_raise_issue(stranger).unwrap_err(), ErrorCode::AuthorizationMismatch);
    assert_eq!(
        engine.customer_raise_issue(stranger).unwrap_err(),
        ErrorCode::AuthorizationMismatch
    );
    assert_eq!(engine.job.as_ref().unwrap().status, Status::Init);
}

#[test]
fn accept_requires_active_uncommitted_session() {
    let mut engine = fresh_engine(7000, 3000, 5_000, 50_000);
    request(&mut engine, 10_000, 100);
    // No session at all.
    let err = engine.driver_accepted_job(CUSTOMER_AUTH, spot(0, 0), 110).unwrap_err();
    assert_eq!(err, ErrorCode::NotYetInitialized);
    // A session already committed to a destination may not take another job.
    start_session(&mut engine, 90);
    engine
        .driver_update_location(DRIVER_AUTH, spot(0, 0), Some(spot(5, 5)), 95)
        .unwrap();
    if let Some(d) = &engine.driver {
        assert_eq!(d.next_location, None);
    }
    engine.driver.as_mut().unwrap().next_location = Some(spot(5, 5));
    let err = engine.driver_accepted_job(CUSTOMER_AUTH, spot(0, 0), 110).unwrap_err();
    assert_eq!(err, ErrorCode::StaleOrInvalidState(StateConflict::DriverEngaged));
}

#[test]
fn accept_with_invalid_destination_is_refused_unchanged() {
    let mut engine = fresh_engine(7000, 3000, 5_000, 50_000);
    start_session(&mut engine, 90);
    request(&mut engine, 10_000, 100);
    let err = engine
        .driver_accepted_job(CUSTOMER_AUTH, spot(0, -90_000_001), 110)
        .unwrap_err();
    assert_eq!(err, ErrorCode::InvalidCoordinate);
    assert_eq!(engine.job.as_ref().unwrap().status, Status::Init);
    assert_eq!(engine.driver.as_ref().unwrap().next_location, None);
}

#[test]
fn arrival_is_only_legal_from_accepted() {
    let mut engine = fresh_engine(7000, 3000, 5_000, 50_000);
    start_session(&mut engine, 90);
    request(&mut engine, 10_000, 100);
    let err = engine.driver_arrived(DRIVER_AUTH, 110).unwrap_err();
    assert_eq!(err, ErrorCode::StaleOrInvalidState(StateConflict::NotAccepted));
    engine.driver_accepted_job(CUSTOMER_AUTH, spot(0, 0), 110).unwrap();
    engine.driver_arrived(DRIVER_AUTH, 120).unwrap();
    assert_eq!(engine.job.as_ref().unwrap().status, Status::Arrived);
    assert_eq!(engine.job.as_ref().unwrap().arrival_time, Some(120));
    let err = engine.driver_arrived(DRIVER_AUTH, 130).unwrap_err();
    assert_eq!(err, ErrorCode::StaleOrInvalidState(StateConflict::AlreadyArrived));
}

#[test]
fn dispute_can_be_raised_during_finalize_window() {
    let country = test_country(300, 50, 60, 60, 500, 1_000);
    let mut engine = fresh_engine(7000, 3000, 5_000, 50_000);
    start_session(&mut engine, 90);
    request(&mut engine, 10_000, 100);
    engine.driver_accepted_job(CUSTOMER_AUTH, spot(0, 0), 110).unwrap();
    engine.driver_arrived(DRIVER_AUTH, 120).unwrap();
    engine.driver_pickup_customer(DRIVER_AUTH, &country, 130).unwrap();
    engine.driver_complete_job(DRIVER_AUTH, &country, 200).unwrap();
    // The finalize window exists exactly so a dispute can still land.
    engine.customer_raise_issue(CUSTOMER_AUTH).unwrap();
    assert_eq!(engine.job.as_ref().unwrap().status, Status::DisputeByCustomer);
    // Settlement is frozen even after the window.
    let err = engine.driver_complete_job(DRIVER_AUTH, &country, 5_000).unwrap_err();
    assert_eq!(err, ErrorCode::StaleOrInvalidState(StateConflict::DisputeByCustomer));
    assert_eq!(engine.escrow_cent, 10_000);
}

#[test]
fn pickup_before_arrival_is_refused() {
    let country = test_country(300, 50, 60, 60, 500, 0);
    let mut engine = fresh_engine(7000, 3000, 5_000, 50_000);
    start_session(&mut engine, 90);
    request(&mut engine, 10_000, 100);
    engine.driver_accepted_job(CUSTOMER_AUTH, spot(0, 0), 110).unwrap();
    let err = engine.driver_pickup_customer(DRIVER_AUTH, &country, 120).unwrap_err();
    assert_eq!(err, ErrorCode::StaleOrInvalidState(StateConflict::NotArrived));
    assert_eq!(engine.job.as_ref().unwrap().status, Status::JobAccepted);
}

#[test]
fn customer_cancel_from_init_refunds_escrow() {
    let country = test_country(300, 50, 60, 60, 500, 0);
    let mut engine = fresh_engine(7000, 3000, 5_000, 50_000);
    request(&mut engine, 10_000, 100);
    engine.customer_cancel_ride(CUSTOMER_AUTH, &country, 120).unwrap();
    assert_eq!(engine.customer_infra.deposit_cent, 50_000);
    assert_eq!(engine.driver_infra.deposit_cent, 5_000);
    assert_eq!(engine.escrow_cent, 0);
    assert!(engine.job.is_none());
}

#[test]
fn committed_destination_is_overwritten_by_pings() {
    let mut engine = fresh_engine(7000, 3000, 5_000, 50_000);
    start_session(&mut engine, 90);
    request(&mut engine, 10_000, 100);
    engine.driver_accepted_job(CUSTOMER_AUTH, spot(7, 8), 110).unwrap();
    assert_eq!(engine.driver.as_ref().unwrap().next_location, Some(spot(7, 8)));
    // While a destination is pending, a ping that supplies one overwrites it.
    engine
        .driver_update_location(DRIVER_AUTH, spot(1, 2), Some(spot(9, 9)), 120)
        .unwrap();
    let session = engine.driver.as_ref().unwrap();
    assert_eq!(session.last_location, spot(1, 2));
    assert_eq!(session.next_location, Some(spot(9, 9)));
}

#[test]
fn engine_requires_distinct_operators() {
    let a = test_infra(10, 11, 7000, 1_000);
    let b = test_infra(10, 21, 3000, 1_000);
    let err = JobEngine::new(a, b).unwrap_err();
    assert_eq!(err, ErrorCode::IntegrityFault);
}
