use daily_rewards::classify_receipt;
use daily_rewards::confirmation_policy;
use daily_rewards::poll_step;
use daily_rewards::PollStep;
use daily_rewards::Receipt;
use daily_rewards::ReceiptOutcome;

fn receipt_with_status(status: Option<u64>) -> Receipt {
    Receipt { tx_hash: vec![0xcdu8; 32], status, block_number: Some(12), gas_used: Some(90_000) }
}

#[test]
fn policy_is_one_second_sixty_seconds_on_dev() {
    let policy = confirmation_policy(31337);
    assert_eq!(policy.poll_interval_ms, 1_000);
    assert_eq!(policy.timeout_ms, 60_000);
    let policy = confirmation_policy(1337);
    assert_eq!(policy.poll_interval_ms, 1_000);
    assert_eq!(policy.timeout_ms, 60_000);
}

#[test]
fn policy_is_five_seconds_five_minutes_on_production() {
    let policy = confirmation_policy(1);
    assert_eq!(policy.poll_interval_ms, 5_000);
    assert_eq!(policy.timeout_ms, 300_000);
}

#[test]
fn dev_wait_times_out_at_sixty_seconds_on_a_fake_clock() {
    let policy = confirmation_policy(31337);
    let mut elapsed_ms: u64 = 0;
    let mut sleeps: u64 = 0;
    loop {
        match poll_step(&policy, elapsed_ms, &None) {
            PollStep::Sleep { interval_ms } => {
                assert_eq!(interval_ms, 1_000);
                elapsed_ms += interval_ms;
                sleeps += 1;
            }
            PollStep::TimedOut => break,
            PollStep::Resolved { .. } => panic!("no receipt was ever offered"),
        }
        assert!(sleeps <= 100, "the wait must give up");
    }
    assert_eq!(sleeps, 61);
    assert_eq!(elapsed_ms, 61_000);
}

#[test]
fn production_wait_times_out_at_five_minutes_on_a_fake_clock() {
    let policy = confirmation_policy(1);
    let mut elapsed_ms: u64 = 0;
    let mut sleeps: u64 = 0;
    loop {
        match poll_step(&policy, elapsed_ms, &None) {
            PollStep::Sleep { interval_ms } => {
                assert_eq!(interval_ms, 5_000);
                elapsed_ms += interval_ms;
                sleeps += 1;
            }
            PollStep::TimedOut => break,
            PollStep::Resolved { .. } => panic!("no receipt was ever offered"),
        }
        assert!(sleeps <= 100, "the wait must give up");
    }
    assert_eq!(sleeps, 61);
    assert_eq!(elapsed_ms, 305_000);
}

#[test]
fn timeout_boundary_is_strict() {
    let policy = confirmation_policy(31337);
    assert!(matches!(poll_step(&policy, 60_000, &None), PollStep::Sleep { .. }));
    assert!(matches!(poll_step(&policy, 60_001, &None), PollStep::TimedOut));
}

#[test]
fn present_receipt_resolves_within_the_deadline() {
    let policy = confirmation_policy(31337);
    let receipt = Some(receipt_with_status(Some(1)));
    match poll_step(&policy, 3_000, &receipt) {
        PollStep::Resolved { outcome } => assert_eq!(outcome, ReceiptOutcome::Success),
        _ => panic!("expected the receipt to resolve"),
    }
}

#[test]
fn failed_receipt_is_returned_not_raised() {
    let policy = confirmation_policy(1);
    let receipt = Some(receipt_with_status(Some(0)));
    match poll_step(&policy, 10_000, &receipt) {
        PollStep::Resolved { outcome } => assert_eq!(outcome, ReceiptOutcome::FailedOnChain),
        _ => panic!("a mined transaction must resolve, not error"),
    }
}

#[test]
fn receipt_status_one_is_success_anything_else_is_failure() {
    assert_eq!(classify_receipt(&receipt_with_status(Some(1))), ReceiptOutcome::Success);
    assert_eq!(classify_receipt(&receipt_with_status(Some(0))), ReceiptOutcome::FailedOnChain);
    assert_eq!(classify_receipt(&receipt_with_status(Some(2))), ReceiptOutcome::FailedOnChain);
    assert_eq!(classify_receipt(&receipt_with_status(None)), ReceiptOutcome::FailedOnChain);
}
