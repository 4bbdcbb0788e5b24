use lumina_vesting::account::{AccountId, AddressKind};
use lumina_vesting::oracle::{
    ComparisonOperator, OracleClient, OracleType, PerformanceCliff, PerformanceMultiplier,
};
use lumina_vesting::timelock::{self, TimelockStorage, TIMELOCK_DELAY_SECONDS};

fn oracle() -> AccountId {
    AccountId { kind: AddressKind::Contract, key: [9u8; 32] }
}

#[test]
fn comparisons_follow_their_operator() {
    assert!(OracleClient::compare_values(5, 4, &ComparisonOperator::GreaterThan));
    assert!(!OracleClient::compare_values(4, 4, &ComparisonOperator::GreaterThan));
    assert!(OracleClient::compare_values(3, 4, &ComparisonOperator::LessThan));
    assert!(OracleClient::compare_values(4, 4, &ComparisonOperator::GreaterThanOrEqual));
    assert!(OracleClient::compare_values(4, 4, &ComparisonOperator::LessThanOrEqual));
    assert!(OracleClient::compare_values(4, 4, &ComparisonOperator::Equal));
    assert!(!OracleClient::compare_values(5, 4, &ComparisonOperator::Equal));
}

#[test]
fn condition_builders_fill_in_their_kind() {
    let tvl = OracleClient::create_tvl_condition(oracle(), 1_000, ComparisonOperator::GreaterThan);
    assert_eq!(tvl.oracle_type, OracleType::TVL);
    assert_eq!(tvl.target_value, 1_000);
    assert!(tvl.parameter.is_none());
    let price = OracleClient::create_price_condition(
        oracle(),
        7,
        ComparisonOperator::LessThan,
        Some(String::from("XLM")),
    );
    assert_eq!(price.oracle_type, OracleType::Price);
    assert_eq!(price.parameter.as_deref(), Some("XLM"));
    let custom = OracleClient::create_custom_condition(oracle(), 3, ComparisonOperator::Equal, String::from("users"));
    assert_eq!(custom.oracle_type, OracleType::Custom);
    assert_eq!(custom.parameter.as_deref(), Some("users"));
}

#[test]
fn conditions_combine_with_and_or_logic() {
    // Every reading is zero.
    let met = || OracleClient::create_tvl_condition(oracle(), 0, ComparisonOperator::Equal);
    let unmet = || OracleClient::create_tvl_condition(oracle(), 1, ComparisonOperator::GreaterThanOrEqual);
    assert_eq!(OracleClient::evaluate_oracle_conditions(&vec![], true), None);
    assert_eq!(OracleClient::evaluate_oracle_conditions(&vec![met(), met()], true), Some(true));
    assert_eq!(OracleClient::evaluate_oracle_conditions(&vec![met(), unmet()], true), Some(false));
    assert_eq!(OracleClient::evaluate_oracle_conditions(&vec![unmet(), met()], false), Some(true));
    assert_eq!(OracleClient::evaluate_oracle_conditions(&vec![unmet(), unmet()], false), Some(false));
}

#[test]
fn cliff_without_conditions_opens_at_its_fallback_time() {
    let cliff = PerformanceCliff { conditions: vec![], require_all: true, fallback_time: 500 };
    assert!(!OracleClient::is_cliff_passed(&cliff, 1, 499));
    assert!(OracleClient::is_cliff_passed(&cliff, 1, 500));
    let judged = PerformanceCliff {
        conditions: vec![OracleClient::create_tvl_condition(oracle(), 1, ComparisonOperator::GreaterThan)],
        require_all: true,
        fallback_time: 0,
    };
    assert!(!OracleClient::is_cliff_passed(&judged, 1, 1_000));
}

#[test]
fn multiplier_falls_back_when_its_condition_fails() {
    let boosted = PerformanceMultiplier {
        condition: OracleClient::create_tvl_condition(oracle(), 0, ComparisonOperator::GreaterThanOrEqual),
        multiplier_bps: 15_000,
        fallback_multiplier_bps: 10_000,
    };
    assert_eq!(OracleClient::get_multiplier(&boosted), 15_000);
    let fallback = PerformanceMultiplier {
        condition: OracleClient::create_tvl_condition(oracle(), 1, ComparisonOperator::GreaterThanOrEqual),
        multiplier_bps: 15_000,
        fallback_multiplier_bps: 10_000,
    };
    assert_eq!(OracleClient::get_multiplier(&fallback), 10_000);
}

#[test]
fn action_ids_increase_and_flags_default_off() {
    let mut s = TimelockStorage::new();
    assert_eq!(TIMELOCK_DELAY_SECONDS, 48 * 60 * 60);
    let first = timelock::next_action_id(&mut s);
    let second = timelock::next_action_id(&mut s);
    assert_eq!((first, second), (1, 2));
    assert!(!timelock::is_paused(&s));
    timelock::set_paused(&mut s, true);
    assert!(timelock::is_paused(&s));
    assert!(timelock::get_security_council(&s).is_none());
    timelock::set_security_council_addr(&mut s, &oracle());
    assert_eq!(timelock::get_security_council(&s).unwrap().key, oracle().key);
}
