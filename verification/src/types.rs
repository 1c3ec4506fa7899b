//! Plain value types shared across the library: addresses, transaction
//! requests, receipts, and the best-effort contract status snapshot.

use vstd::prelude::*;

verus! {

/// A 20-byte account or contract address, held as raw bytes.
#[derive(Debug)]
pub struct Address {
    pub bytes: Vec<u8>,
}

impl View for Address {
    type V = Seq<u8>;

    open spec fn view(&self) -> Seq<u8> {
        self.bytes@
    }
}

impl Address {
    /// An address is well formed when it holds exactly 20 bytes.
    pub open spec fn wf(&self) -> bool {
        self.bytes@.len() == 20
    }

    /// Wraps raw bytes as an address; rejects any length other than 20.
    pub fn from_bytes(bytes: Vec<u8>) -> (r: Option<Address>)
        ensures
            bytes@.len() == 20 ==> (r matches Some(a) && a@ == bytes@ && a.wf()),
            bytes@.len() != 20 ==> r is None,
    {
        if bytes.len() == 20 {
            Some(Address { bytes })
        } else {
            None
        }
    }

    /// Byte-for-byte copy of this address.
    pub fn duplicate(&self) -> (r: Address)
        ensures
            r@ == self@,
            self.wf() ==> r.wf(),
    {
        Address { bytes: clone_bytes(&self.bytes) }
    }

    /// True exactly when the two addresses hold the same bytes.
    pub fn same_address(&self, other: &Address) -> (r: bool)
        ensures
            r == (self@ == other@),
    {
        bytes_equal(&self.bytes, &other.bytes)
    }
}

/// Byte-for-byte copy of a byte vector.
pub fn clone_bytes(v: &Vec<u8>) -> (r: Vec<u8>)
    ensures
        r@ == v@,
{
    let mut r: Vec<u8> = Vec::new();
    let mut i: usize = 0;
    while i < v.len()
        invariant
            i <= v.len(),
            r@ == v@.take(i as int),
        decreases v.len() - i,
    {
        r.push(v[i]);
        proof {
            assert(v@.take(i as int).push(v@[i as int]) =~= v@.take(i + 1 as int));
        }
        i += 1;
    }
    proof {
        assert(v@.take(v@.len() as int) =~= v@);
    }
    r
}

/// True exactly when the two byte vectors hold the same sequence.
pub fn bytes_equal(a: &Vec<u8>, b: &Vec<u8>) -> (r: bool)
    ensures
        r == (a@ == b@),
{
    if a.len() != b.len() {
        proof {
            assert(a@ != b@);
        }
        return false;
    }
    let mut i: usize = 0;
    while i < a.len()
        invariant
            i <= a.len(),
            a@.len() == b@.len(),
            forall|j: int| 0 <= j < i ==> a@[j] == b@[j],
        decreases a.len() - i,
    {
        if a[i] != b[i] {
            proof {
                assert(a@[i as int] != b@[i as int]);
            }
            return false;
        }
        i += 1;
    }
    proof {
        assert(a@ =~= b@);
    }
    true
}

/// The transaction to submit: destination, zero value, gas settings, nonce,
/// chain id, and the encoded calldata.
#[derive(Debug)]
pub struct TxRequest {
    pub to: Address,
    pub value: u128,
    pub gas_limit: u64,
    pub gas_price: u128,
    pub nonce: u64,
    pub chain_id: u64,
    pub calldata: Vec<u8>,
}

/// A read-only call: used both for pre-flight simulation and gas estimation.
#[derive(Debug)]
pub struct CallRequest {
    pub from: Address,
    pub to: Address,
    pub gas: u64,
    pub calldata: Vec<u8>,
}

/// A mined transaction's outcome as reported by the chain.
#[derive(Debug)]
pub struct Receipt {
    pub tx_hash: Vec<u8>,
    pub status: Option<u64>,
    pub block_number: Option<u64>,
    pub gas_used: Option<u128>,
}

/// Best-effort snapshot of the contract's observable state. Each field is
/// populated only when the corresponding read succeeded; a failed read
/// leaves the field absent rather than aborting the snapshot.
#[derive(Debug)]
pub struct ContractStatus {
    pub active: Option<bool>,
    pub paused: Option<bool>,
    pub distribution_allowed: Option<bool>,
    pub owner: Option<Address>,
    pub last_distribution: Option<u64>,
    pub rewards_pool: Option<u128>,
    pub total_rewards: Option<u128>,
    pub rewards_per_day: Option<u128>,
}

impl ContractStatus {
    /// A snapshot with every field absent, as when every read failed.
    pub fn empty() -> (r: ContractStatus)
        ensures
            r.active is None,
            r.paused is None,
            r.distribution_allowed is None,
            r.owner is None,
            r.last_distribution is None,
            r.rewards_pool is None,
            r.total_rewards is None,
            r.rewards_per_day is None,
    {
        ContractStatus {
            active: None,
            paused: None,
            distribution_allowed: None,
            owner: None,
            last_distribution: None,
            rewards_pool: None,
            total_rewards: None,
            rewards_per_day: None,
        }
    }
}

} // verus!
