//! Read-only diagnostics over the gateway's configuration and a
//! contract-status snapshot: connectivity, network identity, and the
//! advisory derived checks an operator reads before or after a run. Every
//! finding here is informational; nothing in this module gates submission.

use vstd::prelude::*;

use crate::contract::spec_sim_request;
use crate::contract::RewardsContract;
use crate::gas::spec_resolved_gas_price;
use crate::gas::resolve_gas_price;
use crate::network::spec_is_dev_chain;
use crate::network::is_dev_chain;
use crate::types::clone_bytes;
use crate::types::Address;
use crate::types::CallRequest;
use crate::types::ContractStatus;

verus! {

/// The minimum expected spacing between two distributions, in seconds: one
/// day.
pub const MIN_DISTRIBUTION_INTERVAL_S: u64 = 86_400;

/// A snapshot of the network the gateway talks to.
#[derive(Debug)]
pub struct NetworkInfo {
    pub chain_id: u64,
    pub block_number: u64,
    pub gas_price: u128,
    pub is_dev: bool,
}

/// One advisory finding: the check passed, failed, or could not be decided
/// because a read it depends on failed.
#[derive(Clone, Copy, Debug, PartialEq, Eq, Structural)]
pub enum CheckOutcome {
    Pass,
    Fail,
    Unknown,
}

/// The signing identity matches the recorded owner, when the owner is known.
pub open spec fn spec_permission_check(signer: Seq<u8>, owner: Option<Address>) -> CheckOutcome {
    match owner {
        None => CheckOutcome::Unknown,
        Some(o) => if o@ == signer {
            CheckOutcome::Pass
        } else {
            CheckOutcome::Fail
        },
    }
}

/// Whether the signing identity may trigger a distribution: it must match
/// the recorded owner; an unread owner leaves the check undecided.
pub fn permission_check(signer: &Address, owner: &Option<Address>) -> (r: CheckOutcome)
    ensures
        r == spec_permission_check(signer@, *owner),
{
    match owner {
        None => CheckOutcome::Unknown,
        Some(o) => {
            if o.same_address(signer) {
                CheckOutcome::Pass
            } else {
                CheckOutcome::Fail
            }
        },
    }
}

/// Enough time has passed since the last distribution, when that time is
/// known.
pub open spec fn spec_interval_check(
    now: u64,
    last_distribution: Option<u64>,
    min_interval: u64,
) -> CheckOutcome {
    match last_distribution {
        None => CheckOutcome::Unknown,
        Some(last) => if now >= last + min_interval {
            CheckOutcome::Pass
        } else {
            CheckOutcome::Fail
        },
    }
}

/// Whether at least the minimum interval has elapsed since the last
/// distribution; an unread timestamp leaves the check undecided.
pub fn interval_check(now: u64, last_distribution: &Option<u64>, min_interval: u64) -> (r:
    CheckOutcome)
    ensures
        r == spec_interval_check(now, *last_distribution, min_interval),
{
    match last_distribution {
        None => CheckOutcome::Unknown,
        Some(last) => {
            if now >= *last && now - *last >= min_interval {
                CheckOutcome::Pass
            } else {
                CheckOutcome::Fail
            }
        },
    }
}

/// The rewards pool covers at least one day of rewards, when both figures
/// are known.
pub open spec fn spec_pool_check(
    rewards_pool: Option<u128>,
    rewards_per_day: Option<u128>,
) -> CheckOutcome {
    match (rewards_pool, rewards_per_day) {
        (Some(pool), Some(per_day)) => if pool >= per_day {
            CheckOutcome::Pass
        } else {
            CheckOutcome::Fail
        },
        _ => CheckOutcome::Unknown,
    }
}

/// Whether the rewards pool covers at least one day of rewards; a failed
/// read of either figure leaves the check undecided.
pub fn pool_check(rewards_pool: &Option<u128>, rewards_per_day: &Option<u128>) -> (r: CheckOutcome)
    ensures
        r == spec_pool_check(*rewards_pool, *rewards_per_day),
{
    match (rewards_pool, rewards_per_day) {
        (Some(pool), Some(per_day)) => {
            if *pool >= *per_day {
                CheckOutcome::Pass
            } else {
                CheckOutcome::Fail
            }
        },
        _ => CheckOutcome::Unknown,
    }
}

/// The advisory findings of one diagnostic pass.
#[derive(Debug)]
pub struct DiagnosisReport {
    /// Bytecode is present at the contract address.
    pub connected: bool,
    /// The signing identity matches the recorded owner.
    pub permission: CheckOutcome,
    /// The minimum interval has elapsed since the last distribution.
    pub interval: CheckOutcome,
    /// The rewards pool covers at least one day of rewards.
    pub pool: CheckOutcome,
}

impl RewardsContract {
    /// The network snapshot for diagnostics: chain id, current block, the
    /// gas price a submission would use right now, and the network
    /// classification.
    pub fn network_info(&self, block_number: u64, live_price: &Option<u128>) -> (r: NetworkInfo)
        requires
            (self.gas_price is None && !spec_is_dev_chain(self.chain_id)) ==> (live_price
                matches Some(p) ==> p <= u128::MAX / 110),
        ensures
            r.chain_id == self.chain_id,
            r.block_number == block_number,
            r.gas_price == spec_resolved_gas_price(self.gas_price, self.chain_id, *live_price),
            r.is_dev == spec_is_dev_chain(self.chain_id),
    {
        NetworkInfo {
            chain_id: self.chain_id,
            block_number,
            gas_price: resolve_gas_price(&self.gas_price, self.chain_id, live_price),
            is_dev: is_dev_chain(self.chain_id),
        }
    }
}

/// Read-only troubleshooting over one gateway: builds the dry-run request
/// and turns chain reads into an advisory report.
pub struct ContractDebugger {
    pub contract: RewardsContract,
}

impl ContractDebugger {
    /// Wraps a gateway for diagnosis.
    pub fn new(contract: RewardsContract) -> (r: ContractDebugger)
        ensures
            r.contract == contract,
    {
        ContractDebugger { contract }
    }

    /// The read-only request for a dry-run simulation of the distribution
    /// call, identical to the one a submission run simulates.
    pub fn simulation_request(&self) -> (r: CallRequest)
        ensures
            spec_sim_request(self.contract, r),
    {
        CallRequest {
            from: self.contract.signer.duplicate(),
            to: self.contract.contract.duplicate(),
            gas: self.contract.gas_limit,
            calldata: clone_bytes(&self.contract.calldata),
        }
    }

    /// Assembles the advisory report from one round of chain reads: the
    /// bytecode length at the contract address, the current time, and the
    /// status snapshot.
    pub fn diagnose(&self, bytecode_len: usize, now: u64, status: &ContractStatus) -> (r:
        DiagnosisReport)
        ensures
            r.connected == (bytecode_len > 0),
            r.permission == spec_permission_check(self.contract.signer@, status.owner),
            r.interval == spec_interval_check(
                now,
                status.last_distribution,
                MIN_DISTRIBUTION_INTERVAL_S,
            ),
            r.pool == spec_pool_check(status.rewards_pool, status.rewards_per_day),
    {
        DiagnosisReport {
            connected: bytecode_len > 0,
            permission: permission_check(&self.contract.signer, &status.owner),
            interval: interval_check(now, &status.last_distribution, MIN_DISTRIBUTION_INTERVAL_S),
            pool: pool_check(&status.rewards_pool, &status.rewards_per_day),
        }
    }
}

} // verus!
