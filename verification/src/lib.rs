//! Periodic submission of a single reward-distribution call to a contract on
//! an EVM-compatible chain: pre-flight checks, simulation as a hard gate,
//! gas estimation with network-aware buffering, gas price selection, nonce
//! and transaction construction, and confirmation polling with timeout.
//!
//! The chain itself is reached by a driver outside this crate; everything
//! the pipeline decides — every numeric policy, every failure policy — lives
//! here, stated in contracts and proved.

mod config;
mod contract;
mod diag;
mod gas;
mod guard;
mod network;
mod preflight;
mod revert;
mod selector;
mod tracker;
mod types;

pub use config::lemma_dec_value_prefix_le;
pub use config::parse_address;
pub use config::parse_dec_u128;
pub use config::parse_dec_u64;
pub use config::spec_address_bytes;
pub use config::spec_address_text_ok;
pub use config::spec_all_digits;
pub use config::spec_chain_id_ok;
pub use config::spec_dec_value;
pub use config::spec_gas_limit_ok;
pub use config::spec_gas_price_ok;
pub use config::spec_hex_val;
pub use config::spec_is_digit;
pub use config::spec_is_hex_digit;
pub use config::spec_valid_address_text;
pub use config::Config;
pub use config::ConfigError;
pub use config::DEFAULT_CHAIN_ID;
pub use config::DEFAULT_GAS_LIMIT;

pub use contract::lemma_aborted_absorbs;
pub use contract::lemma_revert_blocks_send;
pub use contract::lemma_reverted_run_never_sends;
pub use contract::spec_after_estimate;
pub use contract::spec_emits_send;
pub use contract::spec_handled;
pub use contract::spec_phase_of;
pub use contract::spec_phase_step;
pub use contract::spec_run_phase;
pub use contract::spec_sim_request;
pub use contract::spec_tx_request;
pub use contract::ChainAction;
pub use contract::ChainEvent;
pub use contract::Phase;
pub use contract::RewardsContract;
pub use contract::RunState;
pub use contract::SubmitError;

pub use diag::interval_check;
pub use diag::permission_check;
pub use diag::pool_check;
pub use diag::spec_interval_check;
pub use diag::spec_permission_check;
pub use diag::spec_pool_check;
pub use diag::CheckOutcome;
pub use diag::ContractDebugger;
pub use diag::DiagnosisReport;
pub use diag::NetworkInfo;
pub use diag::MIN_DISTRIBUTION_INTERVAL_S;

pub use gas::buffered_gas_limit;
pub use gas::lemma_buffer_at_least_estimate;
pub use gas::lemma_buffer_multiplier;
pub use gas::lemma_fixed_price_wins;
pub use gas::lemma_live_price_resolution;
pub use gas::lemma_resolved_price_positive;
pub use gas::needs_live_price;
pub use gas::resolve_gas_price;
pub use gas::spec_buffered_gas_limit;
pub use gas::spec_resolved_gas_price;
pub use gas::BUFFER_DENOMINATOR;
pub use gas::DEV_BUFFER_NUMERATOR;
pub use gas::DEV_DEFAULT_PRICE_WEI;
pub use gas::DEV_PRICE_CEILING_WEI;
pub use gas::PROD_BUFFER_NUMERATOR;
pub use gas::PROD_DEFAULT_PRICE_WEI;
pub use gas::WEI_PER_GWEI;

pub use guard::RunGuard;

pub use network::is_dev_chain;
pub use network::spec_is_dev_chain;

pub use preflight::evaluate_preflight;
pub use preflight::spec_preflight_violation;
pub use preflight::PreflightPolicy;
pub use preflight::PreflightViolation;

pub use revert::classify_revert;
pub use revert::contains_bytes;
pub use revert::contains_seq;
pub use revert::is_match_at;
pub use revert::spec_classify;
pub use revert::spec_classify_chars;
pub use revert::ReasonKind;

pub use selector::distribution_calldata;
pub use selector::selector_of;
pub use selector::spec_distribution_calldata;

pub use tracker::classify_receipt;
pub use tracker::confirmation_policy;
pub use tracker::lemma_poll_budget;
pub use tracker::poll_step;
pub use tracker::spec_receipt_outcome;
pub use tracker::PollStep;
pub use tracker::ReceiptOutcome;
pub use tracker::TrackerPolicy;
pub use tracker::DEV_POLL_INTERVAL_MS;
pub use tracker::DEV_TIMEOUT_MS;
pub use tracker::PROD_POLL_INTERVAL_MS;
pub use tracker::PROD_TIMEOUT_MS;

pub use types::bytes_equal;
pub use types::clone_bytes;
pub use types::Address;
pub use types::CallRequest;
pub use types::ContractStatus;
pub use types::Receipt;
pub use types::TxRequest;
