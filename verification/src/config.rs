//! Startup configuration: validation, parsing and defaulting of the raw
//! values the process is started with. Missing or malformed required values
//! are fatal; optional values fall back to their stated defaults.

use vstd::prelude::*;
use vstd::string::StringSliceAdditionalSpecFns;

use crate::types::Address;

verus! {

/// Default chain id when none is configured.
pub const DEFAULT_CHAIN_ID: u64 = 1;

/// Default gas limit when none is configured.
pub const DEFAULT_GAS_LIMIT: u64 = 500_000;

/// An ASCII decimal digit.
pub open spec fn spec_is_digit(b: u8) -> bool {
    0x30 <= b && b <= 0x39
}

/// Every byte of the sequence is an ASCII decimal digit.
pub open spec fn spec_all_digits(s: Seq<u8>) -> bool {
    forall|i: int| 0 <= i < s.len() ==> spec_is_digit(#[trigger] s[i])
}

/// The number the sequence denotes in decimal, most significant digit first.
pub open spec fn spec_dec_value(s: Seq<u8>) -> nat
    decreases s.len(),
{
    if s.len() == 0 {
        0
    } else {
        spec_dec_value(s.drop_last()) * 10 + (s.last() - 0x30) as nat
    }
}

/// A decimal denotation never shrinks when digits are appended: the value of
/// a prefix is at most the value of the whole.
pub proof fn lemma_dec_value_prefix_le(s: Seq<u8>, i: int)
    requires
        0 <= i <= s.len(),
    ensures
        spec_dec_value(s.take(i)) <= spec_dec_value(s),
    decreases s.len() - i,
{
    if i == s.len() {
        assert(s.take(i) =~= s);
    } else {
        lemma_dec_value_prefix_le(s, i + 1);
        assert(s.take(i + 1).drop_last() =~= s.take(i));
        assert(spec_dec_value(s.take(i + 1)) == spec_dec_value(s.take(i)) * 10 + (s.take(
            i + 1,
        ).last() - 0x30) as nat);
    }
}

/// Parses an unsigned decimal numeral: defined exactly on nonempty all-digit
/// inputs whose value fits.
pub fn parse_dec_u64(s: &[u8]) -> (r: Option<u64>)
    ensures
        r matches Some(v) ==> s@.len() > 0 && spec_all_digits(s@) && v == spec_dec_value(s@),
        r is None ==> (s@.len() == 0 || !spec_all_digits(s@) || spec_dec_value(s@) > u64::MAX),
{
    if s.len() == 0 {
        return None;
    }
    let mut i: usize = 0;
    while i < s.len()
        invariant
            i <= s.len(),
            forall|j: int| 0 <= j < i ==> spec_is_digit(#[trigger] s@[j]),
        decreases s.len() - i,
    {
        let b = s[i];
        if b < 0x30 || b > 0x39 {
            proof {
                assert(!spec_is_digit(s@[i as int]));
            }
            return None;
        }
        i += 1;
    }
    let mut acc: u64 = 0;
    let mut k: usize = 0;
    while k < s.len()
        invariant
            k <= s.len(),
            spec_all_digits(s@),
            acc == spec_dec_value(s@.take(k as int)),
        decreases s.len() - k,
    {
        let d = (s[k] - 0x30) as u64;
        proof {
            assert(s@.take(k + 1).drop_last() =~= s@.take(k as int));
            assert(spec_dec_value(s@.take(k + 1)) == spec_dec_value(s@.take(k as int)) * 10 + (
            s@.take(k + 1).last() - 0x30) as nat);
        }
        let scaled = match acc.checked_mul(10) {
            Some(scaled) => scaled,
            None => {
                proof {
                    lemma_dec_value_prefix_le(s@, k + 1);
                }
                return None;
            },
        };
        acc = match scaled.checked_add(d) {
            Some(next) => next,
            None => {
                proof {
                    lemma_dec_value_prefix_le(s@, k + 1);
                }
                return None;
            },
        };
        k += 1;
    }
    proof {
        assert(s@.take(s@.len() as int) =~= s@);
    }
    Some(acc)
}

/// Parses an unsigned decimal numeral into the wider price type: defined
/// exactly on nonempty all-digit inputs whose value fits.
pub fn parse_dec_u128(s: &[u8]) -> (r: Option<u128>)
    ensures
        r matches Some(v) ==> s@.len() > 0 && spec_all_digits(s@) && v == spec_dec_value(s@),
        r is None ==> (s@.len() == 0 || !spec_all_digits(s@) || spec_dec_value(s@) > u128::MAX),
{
    if s.len() == 0 {
        return None;
    }
    let mut i: usize = 0;
    while i < s.len()
        invariant
            i <= s.len(),
            forall|j: int| 0 <= j < i ==> spec_is_digit(#[trigger] s@[j]),
        decreases s.len() - i,
    {
        let b = s[i];
        if b < 0x30 || b > 0x39 {
            proof {
                assert(!spec_is_digit(s@[i as int]));
            }
            return None;
        }
        i += 1;
    }
    let mut acc: u128 = 0;
    let mut k: usize = 0;
    while k < s.len()
        invariant
            k <= s.len(),
            spec_all_digits(s@),
            acc == spec_dec_value(s@.take(k as int)),
        decreases s.len() - k,
    {
        let d = (s[k] - 0x30) as u128;
        proof {
            assert(s@.take(k + 1).drop_last() =~= s@.take(k as int));
            assert(spec_dec_value(s@.take(k + 1)) == spec_dec_value(s@.take(k as int)) * 10 + (
            s@.take(k + 1).last() - 0x30) as nat);
        }
        let scaled = match acc.checked_mul(10) {
            Some(scaled) => scaled,
            None => {
                proof {
                    lemma_dec_value_prefix_le(s@, k + 1);
                }
                return None;
            },
        };
        acc = match scaled.checked_add(d) {
            Some(next) => next,
            None => {
                proof {
                    lemma_dec_value_prefix_le(s@, k + 1);
                }
                return None;
            },
        };
        k += 1;
    }
    proof {
        assert(s@.take(s@.len() as int) =~= s@);
    }
    Some(acc)
}

/// An ASCII hexadecimal digit.
pub open spec fn spec_is_hex_digit(b: u8) -> bool {
    (0x30 <= b && b <= 0x39) || (0x41 <= b && b <= 0x46) || (0x61 <= b && b <= 0x66)
}

/// The value of an ASCII hexadecimal digit.
pub open spec fn spec_hex_val(b: u8) -> nat {
    if 0x30 <= b && b <= 0x39 {
        (b - 0x30) as nat
    } else if 0x41 <= b && b <= 0x46 {
        (b - 0x41 + 10) as nat
    } else {
        (b - 0x61 + 10) as nat
    }
}

/// The text is a well-formed address: the two-byte `0x` prefix and exactly
/// forty hexadecimal digits, upper or lower case.
pub open spec fn spec_valid_address_text(s: Seq<u8>) -> bool {
    &&& s.len() == 42
    &&& s[0] == 0x30u8
    &&& s[1] == 0x78u8
    &&& forall|i: int| 2 <= i < 42 ==> spec_is_hex_digit(#[trigger] s[i])
}

/// The twenty bytes a well-formed address text denotes.
pub open spec fn spec_address_bytes(s: Seq<u8>) -> Seq<u8> {
    Seq::new(20, |i: int| (spec_hex_val(s[2 + 2 * i]) * 16 + spec_hex_val(s[3 + 2 * i])) as u8)
}

/// The value of one hexadecimal digit byte.
fn hex_val(b: u8) -> (r: u8)
    requires
        spec_is_hex_digit(b),
    ensures
        r == spec_hex_val(b),
        r < 16,
{
    if b >= 0x61 {
        b - 0x61 + 10
    } else if b >= 0x41 {
        b - 0x41 + 10
    } else {
        b - 0x30
    }
}

/// Parses a `0x`-prefixed, forty-digit hexadecimal address: defined exactly
/// on well-formed address texts.
pub fn parse_address(s: &str) -> (r: Option<Address>)
    ensures
        r matches Some(a) ==> spec_valid_address_text(s.spec_bytes()) && a.wf() && a@
            == spec_address_bytes(s.spec_bytes()),
        r is None ==> !spec_valid_address_text(s.spec_bytes()),
{
    let text = s.as_bytes();
    if text.len() != 42 {
        return None;
    }
    if text[0] != 0x30 || text[1] != 0x78 {
        return None;
    }
    let mut i: usize = 2;
    while i < 42
        invariant
            2 <= i <= 42,
            text@.len() == 42,
            text@ == s.spec_bytes(),
            forall|j: int| 2 <= j < i ==> spec_is_hex_digit(#[trigger] text@[j]),
        decreases 42 - i,
    {
        let b = text[i];
        if !((0x30 <= b && b <= 0x39) || (0x41 <= b && b <= 0x46) || (0x61 <= b && b <= 0x66)) {
            proof {
                assert(!spec_is_hex_digit(text@[i as int]));
            }
            return None;
        }
        i += 1;
    }
    let mut bytes: Vec<u8> = Vec::new();
    let mut k: usize = 0;
    while k < 20
        invariant
            k <= 20,
            text@.len() == 42,
            spec_valid_address_text(text@),
            bytes@.len() == k,
            forall|j: int| 0 <= j < k ==> bytes@[j] == spec_address_bytes(text@)[j],
        decreases 20 - k,
    {
        let hi = hex_val(text[2 + 2 * k]);
        let lo = hex_val(text[3 + 2 * k]);
        bytes.push(hi * 16 + lo);
        k += 1;
    }
    proof {
        assert(bytes@ =~= spec_address_bytes(text@));
    }
    Some(Address { bytes })
}

/// The validated startup configuration.
#[derive(Debug)]
pub struct Config {
    pub rpc_url: String,
    pub private_key: String,
    pub contract_address: Address,
    pub chain_id: u64,
    pub gas_limit: u64,
    pub gas_price: Option<u128>,
}

/// Why the startup configuration was rejected.
#[derive(Clone, Copy, Debug, PartialEq, Eq, Structural)]
pub enum ConfigError {
    MissingRpcUrl,
    MissingPrivateKey,
    MissingContractAddress,
    InvalidContractAddress,
    InvalidChainId,
    InvalidGasLimit,
    InvalidGasPrice,
}

/// The contract address text is present and well formed.
pub open spec fn spec_address_text_ok(contract_address: Option<String>) -> bool {
    match contract_address {
        None => false,
        Some(a) => spec_valid_address_text(vstd::utf8::encode_utf8(a@)),
    }
}

/// The chain id text is absent (the default applies) or a valid numeral.
pub open spec fn spec_chain_id_ok(chain_id: Option<String>) -> bool {
    match chain_id {
        None => true,
        Some(t) => {
            let b = vstd::utf8::encode_utf8(t@);
            b.len() > 0 && spec_all_digits(b) && spec_dec_value(b) <= u64::MAX
        },
    }
}

/// The gas limit text is absent (the default applies) or a valid numeral.
pub open spec fn spec_gas_limit_ok(gas_limit: Option<String>) -> bool {
    match gas_limit {
        None => true,
        Some(t) => {
            let b = vstd::utf8::encode_utf8(t@);
            b.len() > 0 && spec_all_digits(b) && spec_dec_value(b) <= u64::MAX
        },
    }
}

/// The gas price text is absent (no override) or a valid numeral.
pub open spec fn spec_gas_price_ok(gas_price: Option<String>) -> bool {
    match gas_price {
        None => true,
        Some(t) => {
            let b = vstd::utf8::encode_utf8(t@);
            b.len() > 0 && spec_all_digits(b) && spec_dec_value(b) <= u128::MAX
        },
    }
}

impl Config {
    /// Validates the raw startup values. Required values must be present and
    /// well formed; the chain id defaults to 1 and the gas limit to 500000
    /// when absent; the gas price stays absent unless configured. The first
    /// failing value, in the order below, names the error.
    pub fn from_values(
        rpc_url: Option<String>,
        private_key: Option<String>,
        contract_address: Option<String>,
        chain_id: Option<String>,
        gas_limit: Option<String>,
        gas_price: Option<String>,
    ) -> (r: Result<Config, ConfigError>)
        ensures
            rpc_url is None ==> r == Result::<Config, ConfigError>::Err(
                ConfigError::MissingRpcUrl,
            ),
            rpc_url is Some && private_key is None ==> r == Result::<Config, ConfigError>::Err(
                ConfigError::MissingPrivateKey,
            ),
            rpc_url is Some && private_key is Some && contract_address is None ==> r == Result::<
                Config,
                ConfigError,
            >::Err(ConfigError::MissingContractAddress),
            (rpc_url is Some && private_key is Some && contract_address is Some
                && !spec_address_text_ok(contract_address)) ==> r == Result::<
                Config,
                ConfigError,
            >::Err(ConfigError::InvalidContractAddress),
            (rpc_url is Some && private_key is Some && spec_address_text_ok(contract_address)
                && !spec_chain_id_ok(chain_id)) ==> r == Result::<Config, ConfigError>::Err(
                ConfigError::InvalidChainId,
            ),
            (rpc_url is Some && private_key is Some && spec_address_text_ok(contract_address)
                && spec_chain_id_ok(chain_id) && !spec_gas_limit_ok(gas_limit)) ==> r == Result::<
                Config,
                ConfigError,
            >::Err(ConfigError::InvalidGasLimit),
            (rpc_url is Some && private_key is Some && spec_address_text_ok(contract_address)
                && spec_chain_id_ok(chain_id) && spec_gas_limit_ok(gas_limit) && !spec_gas_price_ok(
                gas_price,
            )) ==> r == Result::<Config, ConfigError>::Err(ConfigError::InvalidGasPrice),
            r matches Ok(c) ==> {
                &&& rpc_url matches Some(u) && c.rpc_url@ == u@
                &&& private_key matches Some(k) && c.private_key@ == k@
                &&& contract_address matches Some(addr) && c.contract_address.wf()
                    && c.contract_address@ == spec_address_bytes(vstd::utf8::encode_utf8(addr@))
                &&& (chain_id matches Some(t) ==> c.chain_id == spec_dec_value(
                    vstd::utf8::encode_utf8(t@),
                ))
                &&& (chain_id is None ==> c.chain_id == DEFAULT_CHAIN_ID)
                &&& (gas_limit matches Some(t) ==> c.gas_limit == spec_dec_value(
                    vstd::utf8::encode_utf8(t@),
                ))
                &&& (gas_limit is None ==> c.gas_limit == DEFAULT_GAS_LIMIT)
                &&& (gas_price matches Some(t) ==> c.gas_price == Some(
                    spec_dec_value(vstd::utf8::encode_utf8(t@)) as u128,
                ))
                &&& (gas_price is None ==> c.gas_price is None)
            },
            r is Ok <==> (rpc_url is Some && private_key is Some && spec_address_text_ok(
                contract_address,
            ) && spec_chain_id_ok(chain_id) && spec_gas_limit_ok(gas_limit) && spec_gas_price_ok(
                gas_price,
            )),
    {
        let rpc_url = match rpc_url {
            Some(u) => u,
            None => {
                return Err(ConfigError::MissingRpcUrl);
            },
        };
        let private_key = match private_key {
            Some(k) => k,
            None => {
                return Err(ConfigError::MissingPrivateKey);
            },
        };
        let address_text = match contract_address {
            Some(a) => a,
            None => {
                return Err(ConfigError::MissingContractAddress);
            },
        };
        let parsed_address = match parse_address(address_text.as_str()) {
            Some(a) => a,
            None => {
                return Err(ConfigError::InvalidContractAddress);
            },
        };
        let chain_id_value: u64 = match &chain_id {
            Some(t) => match parse_dec_u64(t.as_str().as_bytes()) {
                Some(v) => v,
                None => {
                    return Err(ConfigError::InvalidChainId);
                },
            },
            None => DEFAULT_CHAIN_ID,
        };
        let gas_limit_value: u64 = match &gas_limit {
            Some(t) => match parse_dec_u64(t.as_str().as_bytes()) {
                Some(v) => v,
                None => {
                    return Err(ConfigError::InvalidGasLimit);
                },
            },
            None => DEFAULT_GAS_LIMIT,
        };
        let gas_price_value: Option<u128> = match &gas_price {
            Some(t) => match parse_dec_u128(t.as_str().as_bytes()) {
                Some(v) => Some(v),
                None => {
                    return Err(ConfigError::InvalidGasPrice);
                },
            },
            None => None,
        };
        Ok(
            Config {
                rpc_url,
                private_key,
                contract_address: parsed_address,
                chain_id: chain_id_value,
                gas_limit: gas_limit_value,
                gas_price: gas_price_value,
            },
        )
    }
}

} // verus!
