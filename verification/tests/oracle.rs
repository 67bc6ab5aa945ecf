use oracle_priority::decimal::Decimal;
use oracle_priority::{check_oracle_priorities, OracleError, OracleInfo, MAXIMUM_AGE};

fn fresh_record() -> OracleInfo {
    OracleInfo::initialize([7u8; 32], String::from("SOL"))
}

fn reading(mantissa: u128, scale: u32) -> Option<Decimal> {
    Some(Decimal::new(mantissa, scale).unwrap())
}

#[test]
fn validation_correctness() {
    assert!(!check_oracle_priorities(-1, -1));
    assert!(!check_oracle_priorities(0, 0));
    assert!(!check_oracle_priorities(3, -1));
    assert!(check_oracle_priorities(0, 1));
    assert!(check_oracle_priorities(-1, 2));
}

#[test]
fn validation_more_edges() {
    assert!(!check_oracle_priorities(-1, 3));
    assert!(!check_oracle_priorities(2, 2));
    assert!(check_oracle_priorities(2, -1));
    assert!(check_oracle_priorities(1, 2));
    // any negative rank counts as disabled, not out of range
    assert!(check_oracle_priorities(-5, 0));
}

#[test]
fn initialize_disables_both_sources_and_zeroes_price() {
    let info = fresh_record();
    assert_eq!(info.vault_type, [7u8; 32]);
    assert_eq!(info.oracle_pyth, [0u8; 32]);
    assert_eq!(info.oracle_switchboard, [0u8; 32]);
    assert_eq!(info.priority_pyth, -1);
    assert_eq!(info.priority_switchboard, -1);
    assert_eq!(info.vault_type_name, "SOL");
    assert_eq!(info.recent_price, 0);
    assert_eq!(info.last_update, 0);
}

#[test]
fn update_priority_rejects_invalid_and_leaves_record_unchanged() {
    let mut info = fresh_record();
    assert_eq!(info.update_priority(0, 0), Err(OracleError::InvalidPriorities));
    assert_eq!(info.priority_pyth, -1);
    assert_eq!(info.priority_switchboard, -1);

    assert_eq!(info.update_priority(0, 1), Ok(()));
    assert_eq!(info.priority_pyth, 0);
    assert_eq!(info.priority_switchboard, 1);

    // a later invalid update leaves the accepted configuration in place
    assert_eq!(info.update_priority(3, -1), Err(OracleError::InvalidPriorities));
    assert_eq!(info.priority_pyth, 0);
    assert_eq!(info.priority_switchboard, 1);
}

#[test]
fn update_oracles_overwrites_both_identifiers() {
    let mut info = fresh_record();
    info.update_oracles([1u8; 32], [2u8; 32]);
    assert_eq!(info.oracle_pyth, [1u8; 32]);
    assert_eq!(info.oracle_switchboard, [2u8; 32]);
    // nothing else moved
    assert_eq!(info.vault_type, [7u8; 32]);
    assert_eq!(info.recent_price, 0);
}

#[test]
fn selection_lower_rank_wins() {
    // rank(pyth) = 1, rank(switchboard) = 0: switchboard's value is selected
    let mut info = fresh_record();
    info.update_priority(1, 0).unwrap();
    info.get_price(reading(5, 0), reading(9, 0), 100).unwrap();
    assert_eq!(info.recent_price, 9 * 10u128.pow(18));
    assert_eq!(info.last_update, 100);

    // swapping the ranks flips the winner, same readings
    let mut info2 = fresh_record();
    info2.update_priority(0, 1).unwrap();
    info2.get_price(reading(5, 0), reading(9, 0), 100).unwrap();
    assert_eq!(info2.recent_price, 5 * 10u128.pow(18));
}

#[test]
fn selection_fallback_to_lower_priority_source() {
    // rank(pyth) = 0, rank(switchboard) = 1, pyth's fetch failed
    let mut info = fresh_record();
    info.update_priority(0, 1).unwrap();
    info.get_price(None, reading(9, 0), 100).unwrap();
    assert_eq!(info.recent_price, 9 * 10u128.pow(18));
    assert_eq!(info.last_update, 100);
}

#[test]
fn selection_single_source_at_highest_allowed_rank() {
    // an enabled source alone at rank 2 still resolves
    let mut info = fresh_record();
    info.update_priority(-1, 2).unwrap();
    info.get_price(None, reading(4, 0), 100).unwrap();
    assert_eq!(info.recent_price, 4 * 10u128.pow(18));
}

#[test]
fn disabled_source_contributes_no_reading() {
    // pyth is disabled: its reading, even if present, is never selected
    let mut info = fresh_record();
    info.update_priority(-1, 0).unwrap();
    info.get_price(reading(5, 0), reading(9, 0), 100).unwrap();
    assert_eq!(info.recent_price, 9 * 10u128.pow(18));
}

#[test]
fn total_failure_returns_no_price_available_and_changes_nothing() {
    let mut info = fresh_record();
    info.update_priority(0, 1).unwrap();
    info.update_oracles([1u8; 32], [2u8; 32]);
    info.get_price(reading(5, 0), None, 50).unwrap();

    let before = info.clone();
    assert_eq!(info.get_price(None, None, 99), Err(OracleError::NoPriceAvailable));
    assert_eq!(info.vault_type, before.vault_type);
    assert_eq!(info.oracle_pyth, before.oracle_pyth);
    assert_eq!(info.oracle_switchboard, before.oracle_switchboard);
    assert_eq!(info.priority_pyth, before.priority_pyth);
    assert_eq!(info.priority_switchboard, before.priority_switchboard);
    assert_eq!(info.vault_type_name, before.vault_type_name);
    assert_eq!(info.recent_price, before.recent_price);
    assert_eq!(info.last_update, before.last_update);
}

#[test]
fn reresolve_with_same_inputs_updates_only_timestamp() {
    let mut info = fresh_record();
    info.update_priority(0, 1).unwrap();

    info.get_price(reading(123, 2), reading(456, 2), 1_000).unwrap();
    let first_price = info.recent_price;
    assert_eq!(info.last_update, 1_000);

    // same readings, advanced clock
    info.get_price(reading(123, 2), reading(456, 2), 2_000).unwrap();
    assert_eq!(info.recent_price, first_price);
    assert_eq!(info.last_update, 2_000);
}

#[test]
fn overflow_fails_resolve_without_partial_write() {
    let mut info = fresh_record();
    info.update_priority(0, 1).unwrap();
    info.get_price(reading(5, 0), None, 10).unwrap();

    let huge = reading(u128::MAX, 0);
    assert_eq!(info.get_price(huge, None, 20), Err(OracleError::Overflow));
    assert_eq!(info.recent_price, 5 * 10u128.pow(18));
    assert_eq!(info.last_update, 10);
}

#[test]
fn staleness_bound_is_thirty_seconds() {
    assert_eq!(MAXIMUM_AGE, 30);
}
