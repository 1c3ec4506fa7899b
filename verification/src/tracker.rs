//! Confirmation tracking policy: how often to poll for a receipt and when
//! to give up, keyed on the network classification, and how a present
//! receipt resolves. The caller supplies the elapsed time, so the policy is
//! checked against an injectable clock rather than real sleeps.

use vstd::prelude::*;

use crate::network::spec_is_dev_chain;
use crate::network::is_dev_chain;
use crate::types::Receipt;

verus! {

/// Poll interval on local/dev networks: one second.
pub const DEV_POLL_INTERVAL_MS: u64 = 1_000;

/// Poll interval on production networks: five seconds.
pub const PROD_POLL_INTERVAL_MS: u64 = 5_000;

/// Overall confirmation timeout on local/dev networks: sixty seconds.
pub const DEV_TIMEOUT_MS: u64 = 60_000;

/// Overall confirmation timeout on production networks: three hundred seconds.
pub const PROD_TIMEOUT_MS: u64 = 300_000;

/// How a confirmation wait polls: the fixed interval between polls and the
/// overall deadline.
#[derive(Debug)]
pub struct TrackerPolicy {
    pub poll_interval_ms: u64,
    pub timeout_ms: u64,
}

/// The polling policy for a chain: on local/dev networks poll every second
/// and give up after sixty seconds; on production networks poll every five
/// seconds and give up after three hundred.
pub fn confirmation_policy(chain_id: u64) -> (r: TrackerPolicy)
    ensures
        spec_is_dev_chain(chain_id) ==> r.poll_interval_ms == DEV_POLL_INTERVAL_MS
            && r.timeout_ms == DEV_TIMEOUT_MS,
        !spec_is_dev_chain(chain_id) ==> r.poll_interval_ms == PROD_POLL_INTERVAL_MS
            && r.timeout_ms == PROD_TIMEOUT_MS,
        r.poll_interval_ms > 0,
        r.poll_interval_ms <= r.timeout_ms,
{
    if is_dev_chain(chain_id) {
        TrackerPolicy { poll_interval_ms: DEV_POLL_INTERVAL_MS, timeout_ms: DEV_TIMEOUT_MS }
    } else {
        TrackerPolicy { poll_interval_ms: PROD_POLL_INTERVAL_MS, timeout_ms: PROD_TIMEOUT_MS }
    }
}

/// How a mined transaction's receipt resolves: success, or an on-chain
/// failure that is still handed back to the caller rather than raised as a
/// tracker error, since the chain did include the transaction.
#[derive(Clone, Copy, Debug, PartialEq, Eq, Structural)]
pub enum ReceiptOutcome {
    Success,
    FailedOnChain,
}

/// A receipt resolves as success exactly when its status field is present
/// and equal to one.
pub open spec fn spec_receipt_outcome(receipt: Receipt) -> ReceiptOutcome {
    if receipt.status == Some(1u64) {
        ReceiptOutcome::Success
    } else {
        ReceiptOutcome::FailedOnChain
    }
}

/// Resolves a present receipt: status one is success, any other status value
/// (or an absent status) is an on-chain failure, never a tracker error.
pub fn classify_receipt(receipt: &Receipt) -> (r: ReceiptOutcome)
    ensures
        r == spec_receipt_outcome(*receipt),
        (r == ReceiptOutcome::Success) <==> receipt.status == Some(1u64),
{
    match receipt.status {
        Some(status) => {
            if status == 1 {
                ReceiptOutcome::Success
            } else {
                ReceiptOutcome::FailedOnChain
            }
        },
        None => ReceiptOutcome::FailedOnChain,
    }
}

/// One round of the confirmation wait: give up past the deadline, resolve a
/// present receipt, otherwise sleep one interval and poll again.
pub enum PollStep {
    Sleep { interval_ms: u64 },
    TimedOut,
    Resolved { outcome: ReceiptOutcome },
}

/// Decides one round of the confirmation wait, given the time elapsed since
/// submission and the result of the latest receipt query.
pub fn poll_step(policy: &TrackerPolicy, elapsed_ms: u64, receipt: &Option<Receipt>) -> (r:
    PollStep)
    ensures
        elapsed_ms > policy.timeout_ms ==> r == PollStep::TimedOut,
        elapsed_ms <= policy.timeout_ms ==> (receipt matches Some(rec) ==> r
            == (PollStep::Resolved { outcome: spec_receipt_outcome(*rec) })),
        (elapsed_ms <= policy.timeout_ms && receipt is None) ==> r == (PollStep::Sleep {
            interval_ms: policy.poll_interval_ms,
        }),
{
    if elapsed_ms > policy.timeout_ms {
        PollStep::TimedOut
    } else {
        match receipt {
            Some(rec) => PollStep::Resolved { outcome: classify_receipt(rec) },
            None => PollStep::Sleep { interval_ms: policy.poll_interval_ms },
        }
    }
}

/// A wait that polls on the fixed interval makes a bounded number of sleeps
/// before the deadline: once `n` exceeds `timeout / interval`, the elapsed
/// time `n * interval` is past the timeout and the next round gives up.
pub proof fn lemma_poll_budget(policy: TrackerPolicy, n: nat)
    requires
        policy.poll_interval_ms > 0,
        n * policy.poll_interval_ms <= policy.timeout_ms,
    ensures
        n <= policy.timeout_ms / policy.poll_interval_ms,
{
    assert(n <= policy.timeout_ms / policy.poll_interval_ms) by (nonlinear_arith)
        requires
            policy.poll_interval_ms > 0,
            n * policy.poll_interval_ms <= policy.timeout_ms,
    ;
}

} // verus!
