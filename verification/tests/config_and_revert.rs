use daily_rewards::classify_revert;
use daily_rewards::contains_bytes;
use daily_rewards::interval_check;
use daily_rewards::parse_address;
use daily_rewards::parse_dec_u128;
use daily_rewards::parse_dec_u64;
use daily_rewards::permission_check;
use daily_rewards::pool_check;
use daily_rewards::Address;
use daily_rewards::CheckOutcome;
use daily_rewards::Config;
use daily_rewards::ConfigError;
use daily_rewards::ReasonKind;
use daily_rewards::MIN_DISTRIBUTION_INTERVAL_S;

fn full_values() -> (
    Option<String>,
    Option<String>,
    Option<String>,
    Option<String>,
    Option<String>,
    Option<String>,
) {
    (
        Some("http://localhost:8545".to_string()),
        Some("dummy-signing-key".to_string()),
        Some("0x00112233445566778899aAbBcCdDeEfF00112233".to_string()),
        Some("31337".to_string()),
        Some("400000".to_string()),
        Some("20000000000".to_string()),
    )
}

#[test]
fn config_accepts_full_values() {
    let (rpc, key, addr, chain, limit, price) = full_values();
    let config = Config::from_values(rpc, key, addr, chain, limit, price).unwrap();
    assert_eq!(config.rpc_url, "http://localhost:8545");
    assert_eq!(config.chain_id, 31337);
    assert_eq!(config.gas_limit, 400_000);
    assert_eq!(config.gas_price, Some(20_000_000_000));
    assert_eq!(
        config.contract_address.bytes,
        vec![
            0x00, 0x11, 0x22, 0x33, 0x44, 0x55, 0x66, 0x77, 0x88, 0x99, 0xaa, 0xbb, 0xcc, 0xdd,
            0xee, 0xff, 0x00, 0x11, 0x22, 0x33,
        ],
    );
}

#[test]
fn config_defaults_chain_one_and_half_million_gas() {
    let (rpc, key, addr, _, _, _) = full_values();
    let config = Config::from_values(rpc, key, addr, None, None, None).unwrap();
    assert_eq!(config.chain_id, 1);
    assert_eq!(config.gas_limit, 500_000);
    assert_eq!(config.gas_price, None);
}

#[test]
fn config_rejects_each_missing_or_bad_value() {
    let (rpc, key, addr, chain, limit, price) = full_values();
    assert_eq!(
        Config::from_values(None, key.clone(), addr.clone(), chain.clone(), limit.clone(), price.clone())
            .unwrap_err(),
        ConfigError::MissingRpcUrl,
    );
    assert_eq!(
        Config::from_values(rpc.clone(), None, addr.clone(), chain.clone(), limit.clone(), price.clone())
            .unwrap_err(),
        ConfigError::MissingPrivateKey,
    );
    assert_eq!(
        Config::from_values(rpc.clone(), key.clone(), None, chain.clone(), limit.clone(), price.clone())
            .unwrap_err(),
        ConfigError::MissingContractAddress,
    );
    assert_eq!(
        Config::from_values(
            rpc.clone(),
            key.clone(),
            Some("0x1234".to_string()),
            chain.clone(),
            limit.clone(),
            price.clone(),
        )
        .unwrap_err(),
        ConfigError::InvalidContractAddress,
    );
    assert_eq!(
        Config::from_values(
            rpc.clone(),
            key.clone(),
            addr.clone(),
            Some("soon".to_string()),
            limit.clone(),
            price.clone(),
        )
        .unwrap_err(),
        ConfigError::InvalidChainId,
    );
    assert_eq!(
        Config::from_values(
            rpc.clone(),
            key.clone(),
            addr.clone(),
            chain.clone(),
            Some("".to_string()),
            price.clone(),
        )
        .unwrap_err(),
        ConfigError::InvalidGasLimit,
    );
    assert_eq!(
        Config::from_values(rpc, key, addr, chain, limit, Some("-3".to_string())).unwrap_err(),
        ConfigError::InvalidGasPrice,
    );
}

#[test]
fn decimal_parser_is_exact_at_the_edges() {
    assert_eq!(parse_dec_u64(b"0"), Some(0));
    assert_eq!(parse_dec_u64(b"007"), Some(7));
    assert_eq!(parse_dec_u64(b"18446744073709551615"), Some(u64::MAX));
    assert_eq!(parse_dec_u64(b"18446744073709551616"), None);
    assert_eq!(parse_dec_u64(b""), None);
    assert_eq!(parse_dec_u64(b"12a"), None);
    assert_eq!(parse_dec_u64(b" 12"), None);
    assert_eq!(parse_dec_u128(b"340282366920938463463374607431768211455"), Some(u128::MAX));
    assert_eq!(parse_dec_u128(b"340282366920938463463374607431768211456"), None);
}

#[test]
fn address_parser_demands_the_exact_shape() {
    assert!(parse_address("0x00112233445566778899aabbccddeeff00112233").is_some());
    assert!(parse_address("0x00112233445566778899AABBCCDDEEFF00112233").is_some());
    assert!(parse_address("00112233445566778899aabbccddeeff00112233").is_none());
    assert!(parse_address("0x00112233445566778899aabbccddeeff0011223").is_none());
    assert!(parse_address("0x00112233445566778899aabbccddeeff001122334").is_none());
    assert!(parse_address("0x00112233445566778899aabbccddeeff0011223g").is_none());
    assert!(parse_address("").is_none());
}

#[test]
fn known_revert_renderings_classify() {
    assert_eq!(
        classify_revert("execution reverted: Ownable: caller is not the owner"),
        ReasonKind::OwnershipRestricted,
    );
    assert_eq!(classify_revert("Pausable: paused"), ReasonKind::Paused);
    assert_eq!(classify_revert("revert: Too early for distribution"), ReasonKind::TooEarly);
    assert_eq!(classify_revert("Insufficient balance in pool"), ReasonKind::InsufficientBalance);
    assert_eq!(classify_revert("contract is not active"), ReasonKind::NotActive);
}

#[test]
fn ownership_takes_precedence_over_other_patterns() {
    assert_eq!(
        classify_revert("Pausable: paused; also Ownable: caller is not the owner"),
        ReasonKind::OwnershipRestricted,
    );
}

#[test]
fn unknown_revert_renderings_stay_unclassified() {
    assert_eq!(classify_revert("something odd happened"), ReasonKind::Unclassified);
    assert_eq!(classify_revert(""), ReasonKind::Unclassified);
    assert_eq!(classify_revert("Ownable: caller is not the owne"), ReasonKind::Unclassified);
}

#[test]
fn substring_search_finds_patterns_anywhere() {
    assert!(contains_bytes(b"abcde", b"abc"));
    assert!(contains_bytes(b"abcde", b"cde"));
    assert!(contains_bytes(b"abcde", b"bcd"));
    assert!(contains_bytes(b"abcde", b""));
    assert!(contains_bytes(b"", b""));
    assert!(!contains_bytes(b"", b"a"));
    assert!(!contains_bytes(b"abcde", b"abcdef"));
    assert!(!contains_bytes(b"abcde", b"ace"));
    assert!(contains_bytes(b"aaab", b"aab"));
}

#[test]
fn permission_check_compares_signer_with_owner() {
    let signer = Address::from_bytes(vec![0x22u8; 20]).unwrap();
    let owner = Address::from_bytes(vec![0x22u8; 20]).unwrap();
    let stranger = Address::from_bytes(vec![0x33u8; 20]).unwrap();
    assert_eq!(permission_check(&signer, &Some(owner)), CheckOutcome::Pass);
    assert_eq!(permission_check(&signer, &Some(stranger)), CheckOutcome::Fail);
    assert_eq!(permission_check(&signer, &None), CheckOutcome::Unknown);
}

#[test]
fn interval_check_needs_a_full_day() {
    let last = Some(1_000_000u64);
    assert_eq!(
        interval_check(1_000_000 + MIN_DISTRIBUTION_INTERVAL_S, &last, MIN_DISTRIBUTION_INTERVAL_S),
        CheckOutcome::Pass,
    );
    assert_eq!(
        interval_check(
            1_000_000 + MIN_DISTRIBUTION_INTERVAL_S - 1,
            &last,
            MIN_DISTRIBUTION_INTERVAL_S,
        ),
        CheckOutcome::Fail,
    );
    assert_eq!(interval_check(999_999, &last, MIN_DISTRIBUTION_INTERVAL_S), CheckOutcome::Fail);
    assert_eq!(interval_check(5, &None, MIN_DISTRIBUTION_INTERVAL_S), CheckOutcome::Unknown);
}

#[test]
fn pool_check_compares_pool_with_daily_rate() {
    assert_eq!(pool_check(&Some(100), &Some(100)), CheckOutcome::Pass);
    assert_eq!(pool_check(&Some(99), &Some(100)), CheckOutcome::Fail);
    assert_eq!(pool_check(&None, &Some(100)), CheckOutcome::Unknown);
    assert_eq!(pool_check(&Some(100), &None), CheckOutcome::Unknown);
}
