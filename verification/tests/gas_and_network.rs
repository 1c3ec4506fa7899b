use daily_rewards::buffered_gas_limit;
use daily_rewards::is_dev_chain;
use daily_rewards::needs_live_price;
use daily_rewards::resolve_gas_price;
use daily_rewards::DEV_DEFAULT_PRICE_WEI;
use daily_rewards::DEV_PRICE_CEILING_WEI;
use daily_rewards::PROD_DEFAULT_PRICE_WEI;

#[test]
fn dev_chain_classification() {
    assert!(is_dev_chain(1337));
    assert!(is_dev_chain(31337));
    assert!(is_dev_chain(5777));
    assert!(!is_dev_chain(1));
    assert!(!is_dev_chain(10));
    assert!(!is_dev_chain(137));
    assert!(!is_dev_chain(0));
}

#[test]
fn buffer_is_half_again_on_dev_chains() {
    assert_eq!(buffered_gas_limit(200_000, 31337), 300_000);
    assert_eq!(buffered_gas_limit(200_000, 1337), 300_000);
    assert_eq!(buffered_gas_limit(200_000, 5777), 300_000);
    assert_eq!(buffered_gas_limit(100, 31337), 150);
}

#[test]
fn buffer_is_a_fifth_more_on_production_chains() {
    assert_eq!(buffered_gas_limit(200_000, 1), 240_000);
    assert_eq!(buffered_gas_limit(200_000, 137), 240_000);
    assert_eq!(buffered_gas_limit(100, 1), 120);
}

#[test]
fn buffer_truncates_to_integer() {
    assert_eq!(buffered_gas_limit(1, 31337), 1);
    assert_eq!(buffered_gas_limit(3, 31337), 4);
    assert_eq!(buffered_gas_limit(1, 1), 1);
    assert_eq!(buffered_gas_limit(5, 1), 6);
}

#[test]
fn buffer_of_zero_estimate_is_zero() {
    assert_eq!(buffered_gas_limit(0, 31337), 0);
    assert_eq!(buffered_gas_limit(0, 1), 0);
}

#[test]
fn dev_price_is_live_capped_at_twenty_gwei() {
    let live = Some(100_000_000_000u128);
    assert_eq!(resolve_gas_price(&None, 31337, &live), 20_000_000_000);
    let low = Some(3_000_000_000u128);
    assert_eq!(resolve_gas_price(&None, 1337, &low), 3_000_000_000);
    let exact = Some(DEV_PRICE_CEILING_WEI);
    assert_eq!(resolve_gas_price(&None, 31337, &exact), DEV_PRICE_CEILING_WEI);
}

#[test]
fn production_price_is_live_plus_ten_percent() {
    let live = Some(100_000_000_000u128);
    assert_eq!(resolve_gas_price(&None, 1, &live), 110_000_000_000);
    let odd = Some(15u128);
    assert_eq!(resolve_gas_price(&None, 1, &odd), 16);
    let one = Some(1u128);
    assert_eq!(resolve_gas_price(&None, 1, &one), 1);
}

#[test]
fn failed_live_query_falls_back_to_defaults() {
    assert_eq!(resolve_gas_price(&None, 31337, &None), DEV_DEFAULT_PRICE_WEI);
    assert_eq!(resolve_gas_price(&None, 1, &None), PROD_DEFAULT_PRICE_WEI);
}

#[test]
fn fixed_price_wins_regardless_of_network_and_live_outcome() {
    let fixed = Some(7_000_000_000u128);
    let live = Some(100_000_000_000u128);
    assert_eq!(resolve_gas_price(&fixed, 31337, &live), 7_000_000_000);
    assert_eq!(resolve_gas_price(&fixed, 1, &live), 7_000_000_000);
    assert_eq!(resolve_gas_price(&fixed, 31337, &None), 7_000_000_000);
    assert_eq!(resolve_gas_price(&fixed, 1, &None), 7_000_000_000);
}

#[test]
fn live_price_is_needed_only_without_a_fixed_price() {
    assert!(needs_live_price(&None));
    assert!(!needs_live_price(&Some(7u128)));
}
