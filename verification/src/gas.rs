//! Gas policy: limit buffering and price selection, both keyed on the
//! network classification.
//!
//! A gas limit is always the estimated-or-configured value multiplied by a
//! safety buffer: one and a half on local/dev networks (estimation variance
//! is higher and gas is cheap), one and one fifth on production networks
//! (tighter margins control cost). A gas price is a configured override when
//! one exists; otherwise it derives from the live network price: capped at
//! twenty gwei on dev networks, raised by a tenth on production networks,
//! with fixed defaults when the live query fails.

use vstd::prelude::*;

use crate::network::spec_is_dev_chain;
use crate::network::is_dev_chain;

verus! {

/// Wei per gwei.
pub const WEI_PER_GWEI: u128 = 1_000_000_000;

/// Gas-limit buffer numerator on local/dev networks (denominator 100).
pub const DEV_BUFFER_NUMERATOR: u64 = 150;

/// Gas-limit buffer numerator on production networks (denominator 100).
pub const PROD_BUFFER_NUMERATOR: u64 = 120;

/// Gas-limit buffer denominator.
pub const BUFFER_DENOMINATOR: u64 = 100;

/// Ceiling applied to the live gas price on local/dev networks: 20 gwei.
pub const DEV_PRICE_CEILING_WEI: u128 = 20_000_000_000;

/// Fallback gas price on local/dev networks when the live query fails: 20 gwei.
pub const DEV_DEFAULT_PRICE_WEI: u128 = 20_000_000_000;

/// Fallback gas price on production networks when the live query fails: 30 gwei.
pub const PROD_DEFAULT_PRICE_WEI: u128 = 30_000_000_000;

/// The gas limit that a submission uses for a given raw estimate: the
/// estimate times the network's buffer, truncated to an integer.
pub open spec fn spec_buffered_gas_limit(estimate: u64, chain_id: u64) -> int {
    if spec_is_dev_chain(chain_id) {
        estimate * (DEV_BUFFER_NUMERATOR as int) / (BUFFER_DENOMINATOR as int)
    } else {
        estimate * (PROD_BUFFER_NUMERATOR as int) / (BUFFER_DENOMINATOR as int)
    }
}

/// Multiplies a gas estimate by the network's safety buffer: exactly
/// `estimate * 150 / 100` on a local/dev chain, `estimate * 120 / 100`
/// otherwise.
pub fn buffered_gas_limit(estimate: u64, chain_id: u64) -> (r: u64)
    requires
        estimate <= u64::MAX / DEV_BUFFER_NUMERATOR,
    ensures
        r == spec_buffered_gas_limit(estimate, chain_id),
        r >= estimate,
{
    let numerator: u64 = if is_dev_chain(chain_id) {
        DEV_BUFFER_NUMERATOR
    } else {
        PROD_BUFFER_NUMERATOR
    };
    let scaled: u64 = estimate * numerator;
    let r: u64 = scaled / BUFFER_DENOMINATOR;
    proof {
        assert(r >= estimate) by (nonlinear_arith)
            requires
                numerator >= 100,
                scaled == estimate * numerator,
                r == scaled / 100,
        ;
    }
    r
}

/// The price a submission uses: the configured override when present;
/// otherwise derived from the live network price, or a fixed default when
/// the live query failed.
pub open spec fn spec_resolved_gas_price(
    fixed: Option<u128>,
    chain_id: u64,
    live: Option<u128>,
) -> int {
    match fixed {
        Some(p) => p as int,
        None => match live {
            Some(p) => if spec_is_dev_chain(chain_id) {
                if p <= DEV_PRICE_CEILING_WEI {
                    p as int
                } else {
                    DEV_PRICE_CEILING_WEI as int
                }
            } else {
                p * 110 / 100
            },
            None => if spec_is_dev_chain(chain_id) {
                DEV_DEFAULT_PRICE_WEI as int
            } else {
                PROD_DEFAULT_PRICE_WEI as int
            },
        },
    }
}

/// Selects the gas price for a submission. A configured fixed price wins
/// unconditionally; otherwise a live price is capped at 20 gwei on dev
/// networks and raised by ten percent on production networks; a failed live
/// query falls back to 20 gwei on dev networks and 30 gwei on production.
pub fn resolve_gas_price(fixed: &Option<u128>, chain_id: u64, live: &Option<u128>) -> (r: u128)
    requires
        (fixed is None && !spec_is_dev_chain(chain_id)) ==> (live matches Some(p) ==> p
            <= u128::MAX / 110),
    ensures
        r == spec_resolved_gas_price(*fixed, chain_id, *live),
{
    match fixed {
        Some(p) => *p,
        None => match live {
            Some(p) => {
                if is_dev_chain(chain_id) {
                    if *p <= DEV_PRICE_CEILING_WEI {
                        *p
                    } else {
                        DEV_PRICE_CEILING_WEI
                    }
                } else {
                    (*p * 110) / 100
                }
            },
            None => {
                if is_dev_chain(chain_id) {
                    DEV_DEFAULT_PRICE_WEI
                } else {
                    PROD_DEFAULT_PRICE_WEI
                }
            },
        },
    }
}

/// True exactly when price selection will need the live network price:
/// only when no fixed price is configured. The submission flow queries the
/// network only when this holds, so a configured price means the live query
/// is never even attempted.
pub fn needs_live_price(fixed: &Option<u128>) -> (r: bool)
    ensures
        r == (fixed is None),
{
    fixed.is_none()
}

/// Law: the gas-limit buffer multiplier is exactly one and a half on every
/// recognized local/dev chain id, and exactly one and one fifth on every
/// other chain id.
pub proof fn lemma_buffer_multiplier(estimate: u64, chain_id: u64)
    ensures
        spec_is_dev_chain(chain_id) ==> spec_buffered_gas_limit(estimate, chain_id) == estimate
            * 150 / 100,
        !spec_is_dev_chain(chain_id) ==> spec_buffered_gas_limit(estimate, chain_id) == estimate
            * 120 / 100,
{
}

/// Law: with no fixed price configured, a live network price resolves to its
/// minimum with the 20-gwei ceiling on a dev chain, and to itself plus a ten
/// percent premium (integer arithmetic, truncated) on a production chain.
pub proof fn lemma_live_price_resolution(chain_id: u64, live: u128)
    ensures
        spec_is_dev_chain(chain_id) ==> spec_resolved_gas_price(None, chain_id, Some(live)) == (
        if live <= DEV_PRICE_CEILING_WEI {
            live as int
        } else {
            DEV_PRICE_CEILING_WEI as int
        }),
        !spec_is_dev_chain(chain_id) ==> spec_resolved_gas_price(None, chain_id, Some(live)) == live
            * 110 / 100,
{
}

/// Law: a configured fixed price resolves to itself on every network and
/// whatever the live query returned; and the submission step never even
/// emits the live-price query while one is configured (stated in the step
/// contract).
pub proof fn lemma_fixed_price_wins(fixed: u128, chain_id: u64, live: Option<u128>)
    ensures
        spec_resolved_gas_price(Some(fixed), chain_id, live) == fixed,
{
}

/// A resolved gas price is never zero, whatever the network classification
/// and however the live query went, as long as neither a configured override
/// nor a reported live price is itself zero.
pub proof fn lemma_resolved_price_positive(fixed: Option<u128>, chain_id: u64, live: Option<u128>)
    requires
        fixed matches Some(p) ==> p > 0,
        live matches Some(p) ==> p > 0,
    ensures
        spec_resolved_gas_price(fixed, chain_id, live) > 0,
{
    match fixed {
        Some(_) => {},
        None => match live {
            Some(p) => {
                if !spec_is_dev_chain(chain_id) {
                    assert(p * 110 / 100 > 0) by (nonlinear_arith)
                        requires
                            p >= 1,
                    ;
                }
            },
            None => {},
        },
    }
}

/// A buffered gas limit never falls below the raw estimate: the buffer
/// multiplier is at least one on every network.
pub proof fn lemma_buffer_at_least_estimate(estimate: u64, chain_id: u64)
    ensures
        spec_buffered_gas_limit(estimate, chain_id) >= estimate,
{
    if spec_is_dev_chain(chain_id) {
        assert(estimate * 150 / 100 >= estimate) by (nonlinear_arith);
    } else {
        assert(estimate * 120 / 100 >= estimate) by (nonlinear_arith);
    }
}

} // verus!
