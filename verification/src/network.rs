//! Network classification: a chain id is either one of the well-known
//! local/development chains or a production network. Every numeric policy
//! (gas buffering, price selection, confirmation timing) keys off this.

use vstd::prelude::*;

verus! {

/// The fixed set of chain ids recognized as local/development networks.
pub open spec fn spec_is_dev_chain(chain_id: u64) -> bool {
    chain_id == 1337 || chain_id == 31337 || chain_id == 5777
}

/// True exactly when `chain_id` belongs to the recognized local/dev set.
#[verifier::when_used_as_spec(spec_is_dev_chain)]
pub fn is_dev_chain(chain_id: u64) -> (dev: bool)
    ensures
        dev == spec_is_dev_chain(chain_id),
{
    chain_id == 1337 || chain_id == 31337 || chain_id == 5777
}

} // verus!
