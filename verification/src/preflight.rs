//! Pre-flight checks over a contract-status snapshot. Whether the hard
//! checks gate submission is a policy choice: under `Enforce` a known-bad
//! field aborts the run, under `Advisory` the snapshot is informational only
//! and submission always proceeds to simulation.

use vstd::prelude::*;

use crate::types::ContractStatus;

verus! {

/// Whether pre-flight findings gate submission or are advisory only.
#[derive(Clone, Copy, Debug, PartialEq, Eq, Structural)]
pub enum PreflightPolicy {
    Enforce,
    Advisory,
}

/// A condition that, under the enforcing policy, aborts submission.
#[derive(Clone, Copy, Debug, PartialEq, Eq, Structural)]
pub enum PreflightViolation {
    Paused,
    NotActive,
    EmptyPool,
}

/// The first hard-check violation a snapshot shows, if any: a contract known
/// to be paused, known to be inactive, or known to have an empty rewards
/// pool. A field whose read failed can show no violation.
pub open spec fn spec_preflight_violation(status: ContractStatus) -> Option<PreflightViolation> {
    if status.paused == Some(true) {
        Some(PreflightViolation::Paused)
    } else if status.active == Some(false) {
        Some(PreflightViolation::NotActive)
    } else if status.rewards_pool == Some(0u128) {
        Some(PreflightViolation::EmptyPool)
    } else {
        None
    }
}

/// Evaluates the pre-flight snapshot under the chosen policy: advisory mode
/// never blocks, enforcing mode reports the first hard-check violation.
pub fn evaluate_preflight(policy: PreflightPolicy, status: &ContractStatus) -> (r: Option<
    PreflightViolation,
>)
    ensures
        policy == PreflightPolicy::Advisory ==> r is None,
        policy == PreflightPolicy::Enforce ==> r == spec_preflight_violation(*status),
{
    match policy {
        PreflightPolicy::Advisory => None,
        PreflightPolicy::Enforce => {
            if status.paused == Some(true) {
                Some(PreflightViolation::Paused)
            } else if status.active == Some(false) {
                Some(PreflightViolation::NotActive)
            } else if status.rewards_pool == Some(0u128) {
                Some(PreflightViolation::EmptyPool)
            } else {
                None
            }
        },
    }
}

} // verus!
