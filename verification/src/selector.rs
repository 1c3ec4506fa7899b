//! The calldata for the distribution call: the 4-byte selector of the
//! `distributeDailyRewards()` function, with no arguments.

use vstd::prelude::*;

verus! {

/// The 4-byte selector of a function signature: the truncated Keccak-256
/// digest of the signature text, a function of that text alone.
pub uninterp spec fn selector_of(signature: Seq<char>) -> Seq<u8>;

/// Relies on ethers_core::utils::id: the first four bytes of the Keccak-256
/// hash of the signature's UTF-8 bytes, depending on the signature alone.
#[verifier::external_body]
fn compute_selector(signature: &str) -> (r: Vec<u8>)
    ensures
        r@ == selector_of(signature@),
        r@.len() == 4,
{
    ethers_core::utils::id(signature).to_vec()
}

/// The calldata of the reward-distribution call.
pub open spec fn spec_distribution_calldata() -> Seq<u8> {
    selector_of("distributeDailyRewards()"@)
}

/// Encodes the reward-distribution call: its selector and nothing else,
/// since the function takes no arguments.
pub fn distribution_calldata() -> (r: Vec<u8>)
    ensures
        r@ == spec_distribution_calldata(),
        r@.len() == 4,
{
    compute_selector("distributeDailyRewards()")
}

} // verus!
