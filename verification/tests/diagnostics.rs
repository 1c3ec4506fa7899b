use daily_rewards::Address;
use daily_rewards::CheckOutcome;
use daily_rewards::ContractDebugger;
use daily_rewards::ContractStatus;
use daily_rewards::PreflightPolicy;
use daily_rewards::RewardsContract;

fn gateway() -> RewardsContract {
    let contract = Address::from_bytes(vec![0x11u8; 20]).unwrap();
    let signer = Address::from_bytes(vec![0x22u8; 20]).unwrap();
    RewardsContract::new(contract, signer, 500_000, None, 31337, PreflightPolicy::Advisory)
}

#[test]
fn addresses_hold_exactly_twenty_bytes() {
    assert!(Address::from_bytes(vec![0u8; 20]).is_some());
    assert!(Address::from_bytes(vec![0u8; 19]).is_none());
    assert!(Address::from_bytes(vec![0u8; 21]).is_none());
    assert!(Address::from_bytes(Vec::new()).is_none());
    let a = Address::from_bytes(vec![7u8; 20]).unwrap();
    let b = a.duplicate();
    assert!(a.same_address(&b));
    let c = Address::from_bytes(vec![8u8; 20]).unwrap();
    assert!(!a.same_address(&c));
}

#[test]
fn network_info_reports_the_resolved_price_and_classification() {
    let gw = gateway();
    let live = Some(100_000_000_000u128);
    let info = gw.network_info(1_234, &live);
    assert_eq!(info.chain_id, 31337);
    assert_eq!(info.block_number, 1_234);
    assert_eq!(info.gas_price, 20_000_000_000);
    assert!(info.is_dev);
}

#[test]
fn dry_run_request_mirrors_the_submission_simulation() {
    let debugger = ContractDebugger::new(gateway());
    let request = debugger.simulation_request();
    assert_eq!(request.from.bytes, vec![0x22u8; 20]);
    assert_eq!(request.to.bytes, vec![0x11u8; 20]);
    assert_eq!(request.gas, 500_000);
    assert_eq!(request.calldata, daily_rewards::distribution_calldata());
}

#[test]
fn diagnosis_report_aggregates_the_advisory_checks() {
    let debugger = ContractDebugger::new(gateway());
    let status = ContractStatus {
        active: Some(true),
        paused: Some(false),
        distribution_allowed: Some(true),
        owner: Some(Address::from_bytes(vec![0x22u8; 20]).unwrap()),
        last_distribution: Some(1_000),
        rewards_pool: Some(700),
        total_rewards: Some(10_000),
        rewards_per_day: Some(100),
    };
    let report = debugger.diagnose(1_024, 1_000 + 86_400, &status);
    assert!(report.connected);
    assert_eq!(report.permission, CheckOutcome::Pass);
    assert_eq!(report.interval, CheckOutcome::Pass);
    assert_eq!(report.pool, CheckOutcome::Pass);
    let empty = ContractStatus::empty();
    let report = debugger.diagnose(0, 5, &empty);
    assert!(!report.connected);
    assert_eq!(report.permission, CheckOutcome::Unknown);
    assert_eq!(report.interval, CheckOutcome::Unknown);
    assert_eq!(report.pool, CheckOutcome::Unknown);
}
