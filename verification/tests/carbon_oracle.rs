use cycleback::account::AccountId;
use cycleback::oracle::{CarbonOracle, ErrorCode, VehicleType};

fn authority() -> AccountId {
    AccountId::new([9u8; 32])
}

fn stranger() -> AccountId {
    AccountId::new([8u8; 32])
}

#[test]
fn initialize_sets_authority_zero_price_no_regions() {
    let oracle = CarbonOracle::initialize(authority(), 1000);
    assert!(*oracle.authority() == authority());
    assert_eq!(oracle.carbon_price_per_ton(), 0);
    assert_eq!(oracle.last_carbon_price_update(), 1000);
    assert_eq!(oracle.region_count(), 0);
}

#[test]
fn non_authority_price_update_rejected() {
    let mut oracle = CarbonOracle::initialize(authority(), 1000);
    let caller = stranger();
    assert_eq!(oracle.update_carbon_price(&caller, 3000, 1001), Err(ErrorCode::Unauthorized));
    assert_eq!(oracle.carbon_price_per_ton(), 0);
    assert_eq!(oracle.last_carbon_price_update(), 1000);
}

#[test]
fn price_update_applies() {
    let mut oracle = CarbonOracle::initialize(authority(), 1000);
    let caller = authority();
    assert_eq!(oracle.update_carbon_price(&caller, 3000, 1001), Ok(()));
    assert_eq!(oracle.carbon_price_per_ton(), 3000);
    assert_eq!(oracle.last_carbon_price_update(), 1001);
}

#[test]
fn non_authority_region_update_rejected() {
    let mut oracle = CarbonOracle::initialize(authority(), 1000);
    let caller = stranger();
    assert_eq!(
        oracle.update_region_data(&caller, String::from("EU"), 50, 20, 30, 2300, 1001),
        Err(ErrorCode::Unauthorized)
    );
    assert_eq!(oracle.region_count(), 0);
}

#[test]
fn overlong_region_code_rejected() {
    let mut oracle = CarbonOracle::initialize(authority(), 1000);
    let caller = authority();
    assert_eq!(
        oracle.update_region_data(&caller, String::from("ABCDEFGHIJK"), 50, 20, 30, 2300, 1001),
        Err(ErrorCode::RegionCodeTooLong)
    );
    assert_eq!(oracle.region_count(), 0);
    assert_eq!(
        oracle.update_region_data(&caller, String::from("ABCDEFGHIJ"), 50, 20, 30, 2300, 1001),
        Ok(())
    );
    assert_eq!(oracle.region_count(), 1);
}

#[test]
fn upsert_inserts_then_updates_in_place() {
    let mut oracle = CarbonOracle::initialize(authority(), 1000);
    let caller = authority();
    assert_eq!(oracle.update_region_data(&caller, String::from("EU"), 50, 20, 30, 2300, 1001), Ok(()));
    assert_eq!(oracle.region_count(), 1);

    let entry = oracle.get_region(&String::from("EU")).expect("entry stored");
    assert_eq!(entry.code, "EU");
    assert_eq!(entry.avg_vehicle_consumption_per_km, 50);
    assert_eq!(entry.avg_electric_consumption_per_km, 20);
    assert_eq!(entry.avg_hybrid_consumption_per_km, 30);
    assert_eq!(entry.emission_factor, 2300);
    assert_eq!(entry.last_update, 1001);

    // Same code and values again: still one entry, only the timestamp moves.
    assert_eq!(oracle.update_region_data(&caller, String::from("EU"), 50, 20, 30, 2300, 1002), Ok(()));
    assert_eq!(oracle.region_count(), 1);
    let entry = oracle.get_region(&String::from("EU")).expect("entry stored");
    assert_eq!(entry.avg_vehicle_consumption_per_km, 50);
    assert_eq!(entry.avg_electric_consumption_per_km, 20);
    assert_eq!(entry.avg_hybrid_consumption_per_km, 30);
    assert_eq!(entry.emission_factor, 2300);
    assert_eq!(entry.last_update, 1002);

    // New values for the stored code overwrite in place.
    assert_eq!(oracle.update_region_data(&caller, String::from("EU"), 55, 21, 31, 2400, 1003), Ok(()));
    assert_eq!(oracle.region_count(), 1);
    let entry = oracle.get_region(&String::from("EU")).expect("entry stored");
    assert_eq!(entry.avg_vehicle_consumption_per_km, 55);
    assert_eq!(entry.emission_factor, 2400);
}

#[test]
fn capacity_bounded_at_twenty_regions() {
    let mut oracle = CarbonOracle::initialize(authority(), 1000);
    let caller = authority();
    for i in 0..20u32 {
        let code = format!("R{}", i);
        assert_eq!(oracle.update_region_data(&caller, code, 10, 11, 12, 13, 1001), Ok(()));
    }
    assert_eq!(oracle.region_count(), 20);

    // The 21st distinct code is rejected.
    assert_eq!(
        oracle.update_region_data(&caller, String::from("R20"), 10, 11, 12, 13, 1002),
        Err(ErrorCode::MaxRegionsExceeded)
    );
    assert_eq!(oracle.region_count(), 20);

    // A stored code can still be overwritten at capacity.
    assert_eq!(oracle.update_region_data(&caller, String::from("R5"), 99, 11, 12, 13, 1003), Ok(()));
    assert_eq!(oracle.region_count(), 20);
    let entry = oracle.get_region(&String::from("R5")).expect("entry stored");
    assert_eq!(entry.avg_vehicle_consumption_per_km, 99);
}

#[test]
fn trip_calculation_eu_standard() {
    let mut oracle = CarbonOracle::initialize(authority(), 1000);
    let caller = authority();
    assert_eq!(oracle.update_carbon_price(&caller, 3000, 1001), Ok(()));
    assert_eq!(oracle.update_region_data(&caller, String::from("EU"), 50, 20, 30, 2300, 1002), Ok(()));

    let calc = oracle
        .calculate_trip_carbon(String::from("EU"), VehicleType::Standard, 100, 1003)
        .expect("region stored");
    assert_eq!(calc.region, "EU");
    assert_eq!(calc.vehicle_type, VehicleType::Standard);
    assert_eq!(calc.distance_km, 100);
    assert_eq!(calc.carbon_emissions_grams, 11500);
    assert_eq!(calc.carbon_cost_microcents, 34);
    assert_eq!(calc.timestamp, 1003);
}

#[test]
fn trip_calculation_selects_consumption_by_vehicle_type() {
    let mut oracle = CarbonOracle::initialize(authority(), 1000);
    let caller = authority();
    assert_eq!(oracle.update_carbon_price(&caller, 1_000_000, 1001), Ok(()));
    assert_eq!(oracle.update_region_data(&caller, String::from("EU"), 50, 20, 30, 1000, 1002), Ok(()));

    let standard = oracle
        .calculate_trip_carbon(String::from("EU"), VehicleType::Standard, 10, 1003)
        .expect("region stored");
    assert_eq!(standard.carbon_emissions_grams, 500);
    assert_eq!(standard.carbon_cost_microcents, 500);

    let electric = oracle
        .calculate_trip_carbon(String::from("EU"), VehicleType::Electric, 10, 1003)
        .expect("region stored");
    assert_eq!(electric.carbon_emissions_grams, 200);

    let hybrid = oracle
        .calculate_trip_carbon(String::from("EU"), VehicleType::Hybrid, 10, 1003)
        .expect("region stored");
    assert_eq!(hybrid.carbon_emissions_grams, 300);
}

#[test]
fn unknown_region_rejected_and_nothing_changes() {
    let mut oracle = CarbonOracle::initialize(authority(), 1000);
    let caller = authority();
    assert_eq!(oracle.update_region_data(&caller, String::from("EU"), 50, 20, 30, 2300, 1001), Ok(()));

    let result = oracle.calculate_trip_carbon(String::from("US"), VehicleType::Standard, 100, 1002);
    assert_eq!(result.unwrap_err(), ErrorCode::RegionNotFound);
    assert_eq!(oracle.region_count(), 1);
    assert_eq!(oracle.carbon_price_per_ton(), 0);
}

#[test]
fn get_region_misses_unknown_codes() {
    let oracle = CarbonOracle::initialize(authority(), 1000);
    assert!(oracle.get_region(&String::from("EU")).is_none());
}
