use ride_network::config::{Country, Global, InitOrUpdateCountryParam};
use ride_network::coords::{is_valid_coordinate, Coordinates};
use ride_network::engine::JobEngine;
use ride_network::errors::ErrorCode;
use ride_network::fees::{find_basis_points, payout, snapshot, Distribution};
use ride_network::infra::{
    init_customer_infra, init_driver_infra, InfraAccount, InitCustomerInfraParam,
    InitDriverInfraParam, UpdateInfraCompanyParam,
};

fn plain_infra(account_id: u64, update_authority: u64, fee_basis_point: u16, deposit_cent: u64) -> InfraAccount {
    InfraAccount {
        account_id,
        alpha3_country_code: String::from("SGP"),
        update_authority,
        infra_count: 0,
        job_counter: 0,
        is_initialized: true,
        is_verified: true,
        is_frozen: false,
        fee_basis_point,
        company_info_current_count: 0,
        matched_ride: 0,
        cancellation: 0,
        dispute_cases: 0,
        cases_lost_in_dispute: 0,
        deposit_cent,
    }
}

fn blank_country() -> Country {
    Country {
        alpha3_country_code: String::new(),
        update_authority: 0,
        platform_fee_basis_point: 0,
        driver_infra_counter: 0,
        customer_infra_counter: 0,
        stable_mint: 0,
        waiting_fee_sec: 0,
        waiting_fee_cent: 0,
        driver_cancellation_fee_sec: 0,
        customer_cancellation_fee_sec: 0,
        cancellation_fee_cent: 0,
        base_rate_cent: 0,
        min_km_rate_cent: 0,
        min_min_fee_cent: 0,
        finalize_duration_sec: 0,
        dispute_waitout_period: 0,
        min_driver_infra_deposit: 0,
        min_customer_infra_deposit: 0,
        base_slash_amount: 0,
        is_initialized: false,
    }
}

fn full_params() -> InitOrUpdateCountryParam {
    InitOrUpdateCountryParam {
        platform_fee_basis_point: Some(100),
        waiting_fee_sec: Some(300),
        waiting_fee_cent: Some(50),
        driver_cancellation_fee_sec: Some(60),
        customer_cancellation_fee_sec: Some(90),
        cancellation_fee_cent: Some(500),
        base_rate_cent: Some(400),
        min_km_rate_cent: Some(50),
        min_min_fee_cent: Some(20),
        finalize_duration_sec: Some(3_600),
        min_driver_infra_deposit: Some(10_000),
        min_customer_infra_deposit: Some(20_000),
        dispute_waitout_period: Some(86_400),
        base_slash_amount: Some(500),
    }
}

fn empty_params() -> InitOrUpdateCountryParam {
    InitOrUpdateCountryParam {
        platform_fee_basis_point: None,
        waiting_fee_sec: None,
        waiting_fee_cent: None,
        driver_cancellation_fee_sec: None,
        customer_cancellation_fee_sec: None,
        cancellation_fee_cent: None,
        base_rate_cent: None,
        min_km_rate_cent: None,
        min_min_fee_cent: None,
        finalize_duration_sec: None,
        min_driver_infra_deposit: None,
        min_customer_infra_deposit: None,
        dispute_waitout_period: None,
        base_slash_amount: None,
    }
}

#[test]
fn payout_is_floor_of_basis_point_share() {
    assert_eq!(payout(10_000, 7_000), 7_000);
    assert_eq!(payout(10_000, 3_000), 3_000);
    assert_eq!(payout(100, 3_333), 33);
    assert_eq!(payout(100, 6_666), 66);
    assert_eq!(payout(1, 9_999), 0);
    assert_eq!(payout(u64::MAX, 10_000), u64::MAX);
    assert_eq!(payout(0, 10_000), 0);
}

#[test]
fn payout_pair_never_overclaims_the_fee() {
    let fees: [u64; 5] = [1, 99, 100, 12_345, u64::MAX];
    let splits: [(u16, u16); 4] = [(3_333, 6_666), (1, 9_999), (5_000, 5_000), (0, 10_000)];
    for &fee in fees.iter() {
        for &(a, b) in splits.iter() {
            let to_a = payout(fee, a);
            let to_b = payout(fee, b);
            assert!(to_a as u128 + to_b as u128 <= fee as u128);
        }
    }
}

#[test]
fn find_basis_points_reports_missing_provider_as_integrity_fault() {
    let entries = snapshot(10, 7_000, 20, 3_000);
    assert_eq!(find_basis_points(&entries, 10), Ok(7_000));
    assert_eq!(find_basis_points(&entries, 20), Ok(3_000));
    assert_eq!(find_basis_points(&entries, 30), Err(ErrorCode::IntegrityFault));
    let empty: Vec<Distribution> = Vec::new();
    assert_eq!(find_basis_points(&empty, 10), Err(ErrorCode::IntegrityFault));
}

#[test]
fn coordinate_bounds_are_ninety_degrees_on_both_axes() {
    assert!(is_valid_coordinate(0));
    assert!(is_valid_coordinate(90_000_000));
    assert!(is_valid_coordinate(-90_000_000));
    assert!(!is_valid_coordinate(90_000_001));
    assert!(!is_valid_coordinate(-90_000_001));
    assert!(Coordinates { lat: 1_300_000, long: 103_800_000 / 2 }.is_valid());
    assert!(!Coordinates { lat: 91_000_000, long: 0 }.is_valid());
    assert!(!Coordinates { lat: 0, long: -91_000_000 }.is_valid());
}

#[test]
fn invalid_coordinates_never_mutate_location_state() {
    let driver_infra = plain_infra(10, 11, 7_000, 1_000);
    let customer_infra = plain_infra(20, 21, 3_000, 1_000);
    let mut engine = JobEngine::new(driver_infra, customer_infra).unwrap();
    // Starting work with an out-of-range latitude is refused outright.
    let err = engine
        .driver_start_work(
            11,
            31,
            1,
            String::from("driver-1"),
            String::from("pem"),
            vec![],
            vec![],
            3,
            4,
            Coordinates { lat: 95_000_000, long: 0 },
            50,
        )
        .unwrap_err();
    assert_eq!(err, ErrorCode::InvalidCoordinate);
    assert!(engine.driver.is_none());
    engine
        .driver_start_work(
            11,
            31,
            1,
            String::from("driver-1"),
            String::from("pem"),
            vec![],
            vec![],
            3,
            4,
            Coordinates { lat: 1_000_000, long: 2_000_000 },
            60,
        )
        .unwrap();
    // A ping with one axis out of range is refused and mutates nothing.
    let err = engine
        .driver_update_location(31, Coordinates { lat: 0, long: 90_000_001 }, None, 70)
        .unwrap_err();
    assert_eq!(err, ErrorCode::InvalidCoordinate);
    let session = engine.driver.as_ref().unwrap();
    assert_eq!(session.last_location.lat, 1_000_000);
    assert_eq!(session.last_location.long, 2_000_000);
    assert_eq!(session.location_last_update, 60);
    // A valid ping lands.
    engine
        .driver_update_location(31, Coordinates { lat: 3_000_000, long: 4_000_000 }, None, 80)
        .unwrap();
    let session = engine.driver.as_ref().unwrap();
    assert_eq!(session.last_location.lat, 3_000_000);
    assert_eq!(session.location_last_update, 80);
}

#[test]
fn start_work_twice_is_refused_until_work_ends() {
    let driver_infra = plain_infra(10, 11, 7_000, 1_000);
    let customer_infra = plain_infra(20, 21, 3_000, 1_000);
    let mut engine = JobEngine::new(driver_infra, customer_infra).unwrap();
    let start = |engine: &mut JobEngine, now: u64| {
        engine.driver_start_work(
            11,
            31,
            1,
            String::from("driver-1"),
            String::from("pem"),
            vec![],
            vec![],
            3,
            4,
            Coordinates { lat: 0, long: 0 },
            now,
        )
    };
    start(&mut engine, 50).unwrap();
    assert_eq!(start(&mut engine, 60).unwrap_err(), ErrorCode::AlreadyInitialized);
    engine.driver_end_work(11).unwrap();
    assert!(engine.driver.is_none());
    start(&mut engine, 70).unwrap();
    assert!(engine.driver.as_ref().unwrap().is_initialized);
}

#[test]
fn country_init_requires_complete_params() {
    let mut country = blank_country();
    let err = country
        .init_or_update_country(1, String::from("SGP"), 7, &empty_params())
        .unwrap_err();
    assert_eq!(err, ErrorCode::MissingParam);
    assert!(!country.is_initialized);
    country.init_or_update_country(1, String::from("SGP"), 7, &full_params()).unwrap();
    assert!(country.is_initialized);
    assert_eq!(country.alpha3_country_code, "SGP");
    assert_eq!(country.update_authority, 1);
    assert_eq!(country.waiting_fee_sec, 300);
    assert_eq!(country.finalize_duration_sec, 3_600);
    assert_eq!(country.driver_infra_counter, 0);
    assert_eq!(country.customer_infra_counter, 0);
}

#[test]
fn country_update_is_partial_and_authority_gated() {
    let mut country = blank_country();
    country.init_or_update_country(1, String::from("SGP"), 7, &full_params()).unwrap();
    country.driver_infra_counter = 5;
    let mut tweak = empty_params();
    tweak.cancellation_fee_cent = Some(999);
    let err = country
        .init_or_update_country(2, String::from("SGP"), 7, &tweak)
        .unwrap_err();
    assert_eq!(err, ErrorCode::AuthorizationMismatch);
    assert_eq!(country.cancellation_fee_cent, 500);
    country.init_or_update_country(1, String::from("SGP"), 7, &tweak).unwrap();
    assert_eq!(country.cancellation_fee_cent, 999);
    // Untouched fields and counters keep their values.
    assert_eq!(country.waiting_fee_cent, 50);
    assert_eq!(country.driver_infra_counter, 5);
    country.change_country_authority(1, 2).unwrap();
    assert_eq!(country.update_authority, 2);
    assert_eq!(country.change_country_authority(1, 3).unwrap_err(), ErrorCode::AuthorizationMismatch);
}

#[test]
fn global_init_applies_only_supplied_values() {
    let mut global = Global {
        is_initialized: false,
        update_authority: 0,
        platform_fee_basis_point: 0,
        service_type_counter: 9,
        passengers_type_counter: 9,
        vehicle_counter: 9,
        new_vehicle_or_pax_fee_cent: 0,
    };
    global.init_or_update_global(1, Some(250), None);
    assert!(global.is_initialized);
    assert_eq!(global.update_authority, 1);
    assert_eq!(global.platform_fee_basis_point, 250);
    assert_eq!(global.service_type_counter, 0);
    global.init_or_update_global(2, None, Some(5_000));
    assert_eq!(global.update_authority, 1);
    assert_eq!(global.platform_fee_basis_point, 250);
    assert_eq!(global.new_vehicle_or_pax_fee_cent, 5_000);
    global.change_global_authority(1, 3).unwrap();
    assert_eq!(global.update_authority, 3);
}

#[test]
fn infra_registration_advances_counter_and_takes_deposit() {
    let mut country = blank_country();
    country.init_or_update_country(1, String::from("SGP"), 7, &full_params()).unwrap();
    let params = InitDriverInfraParam {
        driver_infra_count: 0,
        company_name: String::from("Fleet One"),
        entity_registry_id: String::from("RN-1"),
        website: String::from("fleet.example"),
        driver_infra_fee_basis_point: 7_000,
    };
    let (infra, company) = init_driver_infra(&mut country, 11, 10, 50_000, params).unwrap();
    assert_eq!(country.driver_infra_counter, 1);
    assert_eq!(infra.infra_count, 0);
    assert_eq!(infra.deposit_cent, 10_000);
    assert_eq!(infra.fee_basis_point, 7_000);
    assert!(infra.is_initialized);
    assert!(!infra.is_verified);
    assert!(!infra.is_frozen);
    assert_eq!(company.company_name, "Fleet One");

    let wrong_count = InitDriverInfraParam {
        driver_infra_count: 0,
        company_name: String::from("Fleet Two"),
        entity_registry_id: String::from("RN-2"),
        website: String::from("fleet2.example"),
        driver_infra_fee_basis_point: 6_000,
    };
    let err = init_driver_infra(&mut country, 12, 13, 50_000, wrong_count).unwrap_err();
    assert_eq!(err, ErrorCode::IncorrectInitCount);
    assert_eq!(country.driver_infra_counter, 1);

    let poor = InitCustomerInfraParam {
        customer_infra_count: 0,
        company_name: String::from("Riders"),
        entity_registry_id: String::from("RN-3"),
        website: String::from("riders.example"),
        customer_infra_fee_basis_point: 3_000,
    };
    let err = init_customer_infra(&mut country, 21, 20, 19_999, poor).unwrap_err();
    assert_eq!(err, ErrorCode::InsufficientFunds);
    assert_eq!(country.customer_infra_counter, 0);
}

#[test]
fn infra_governance_verifies_suspends_and_slashes() {
    let mut country = blank_country();
    country.init_or_update_country(1, String::from("SGP"), 7, &full_params()).unwrap();
    let params = InitDriverInfraParam {
        driver_infra_count: 0,
        company_name: String::from("Fleet One"),
        entity_registry_id: String::from("RN-1"),
        website: String::from("fleet.example"),
        driver_infra_fee_basis_point: 7_000,
    };
    let (mut infra, _) = init_driver_infra(&mut country, 11, 10, 50_000, params).unwrap();
    // Only the country authority verifies, once.
    assert_eq!(infra.approve_infra(&country, 99).unwrap_err(), ErrorCode::AuthorizationMismatch);
    assert_eq!(infra.slash_infra(&country, 1, 500).unwrap_err(), ErrorCode::NotYetInitialized);
    infra.approve_infra(&country, 1).unwrap();
    assert!(infra.is_verified);
    assert_eq!(infra.approve_infra(&country, 1).unwrap_err(), ErrorCode::AlreadyInitialized);
    // Slash up to the deposit, never beyond.
    infra.slash_infra(&country, 1, 500).unwrap();
    assert_eq!(infra.deposit_cent, 9_500);
    assert_eq!(infra.slash_infra(&country, 1, 9_501).unwrap_err(), ErrorCode::InsufficientFunds);
    // Suspension freezes the account.
    infra.suspend_infra(&country, 1).unwrap();
    assert!(infra.is_frozen);
    assert_eq!(infra.suspend_infra(&country, 1).unwrap_err(), ErrorCode::AlreadyInitialized);
}

#[test]
fn company_update_freezes_account_and_advances_count() {
    let mut country = blank_country();
    country.init_or_update_country(1, String::from("SGP"), 7, &full_params()).unwrap();
    let params = InitDriverInfraParam {
        driver_infra_count: 0,
        company_name: String::from("Fleet One"),
        entity_registry_id: String::from("RN-1"),
        website: String::from("fleet.example"),
        driver_infra_fee_basis_point: 7_000,
    };
    let (mut infra, _) = init_driver_infra(&mut country, 11, 10, 50_000, params).unwrap();
    let update = UpdateInfraCompanyParam {
        company_name: String::from("Fleet One Pte Ltd"),
        entity_registry_id: String::from("RN-1B"),
        website: String::from("fleetone.example"),
        infra_count: 0,
        old_company_info_count: 0,
    };
    let company = infra.update_infra_company(11, update).unwrap();
    assert_eq!(company.company_name, "Fleet One Pte Ltd");
    assert_eq!(infra.company_info_current_count, 1);
    assert!(infra.is_frozen);
}
