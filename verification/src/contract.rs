//! The reward-distribution gateway: configuration of one submission target
//! and the decision core of a submission run.
//!
//! A run alternates between chain operations (read status, simulate,
//! estimate gas, query the gas price, read the nonce, send) and decisions.
//! The decisions live here as a step function from run state and chain event
//! to the next state and the next operation; a driver performs each
//! operation against the chain and feeds the result back. Every policy of
//! the run — the simulation hard gate, best-effort estimation, gas
//! buffering, price selection, the immediately-read nonce — is stated in the
//! step contract.

use vstd::prelude::*;

use crate::gas::spec_buffered_gas_limit;
use crate::gas::spec_resolved_gas_price;
use crate::gas::buffered_gas_limit;
use crate::gas::resolve_gas_price;
use crate::gas::DEV_BUFFER_NUMERATOR;
use crate::network::spec_is_dev_chain;
use crate::network::is_dev_chain;
use crate::preflight::spec_preflight_violation;
use crate::preflight::evaluate_preflight;
use crate::preflight::PreflightPolicy;
use crate::preflight::PreflightViolation;
use crate::revert::spec_classify_chars;
use crate::revert::classify_revert;
use crate::revert::ReasonKind;
use crate::selector::spec_distribution_calldata;
use crate::selector::distribution_calldata;
use crate::types::clone_bytes;
use crate::types::Address;
use crate::types::CallRequest;
use crate::types::ContractStatus;
use crate::types::TxRequest;

verus! {

/// Why a submission run ended without a transaction identifier.
pub enum SubmitError {
    /// A pre-flight hard check failed under the enforcing policy.
    PreflightRejected { violation: PreflightViolation },
    /// The read-only simulation reverted; submission never proceeds past it.
    SimulationRejected { reason: ReasonKind, raw: String },
    /// A chain read the run cannot continue without failed.
    Transport { context: String },
    /// Signing or broadcasting the built transaction failed.
    SubmissionFailed { raw: String },
}

/// Where a submission run stands: which chain operation it awaits, or the
/// terminal outcome.
pub enum RunState {
    Idle,
    AwaitingStatus,
    AwaitingSimulation,
    AwaitingEstimate,
    AwaitingGasPrice { gas_limit: u64 },
    AwaitingNonce { gas_limit: u64, gas_price: u128 },
    AwaitingSend { request: TxRequest },
    Submitted { tx_hash: Vec<u8> },
    Aborted { error: SubmitError },
}

/// The result of one chain operation, handed back to the step function.
pub enum ChainEvent {
    Started,
    StatusRead { status: ContractStatus },
    SimulationOk,
    SimulationReverted { message: String },
    EstimateOk { gas: u64 },
    EstimateFailed,
    GasPriceOk { price: u128 },
    GasPriceFailed,
    NonceOk { nonce: u64 },
    NonceFailed { message: String },
    SendOk { tx_hash: Vec<u8> },
    SendFailed { message: String },
}

/// The next chain operation a driver performs for the run.
#[allow(inconsistent_fields)]
pub enum ChainAction {
    ReadStatus,
    Simulate { request: CallRequest },
    EstimateGas { request: CallRequest },
    QueryGasPrice,
    ReadNonce,
    Send { request: TxRequest },
}

/// The run state stripped to its control position, for stating how a whole
/// run unfolds over a sequence of events.
#[derive(Clone, Copy, Debug, PartialEq, Eq, Structural)]
pub enum Phase {
    Idle,
    AwaitingStatus,
    AwaitingSimulation,
    AwaitingEstimate,
    AwaitingGasPrice,
    AwaitingNonce,
    AwaitingSend,
    Submitted,
    Aborted,
}

/// The gateway for the reward-distribution call: the contract and signing
/// addresses, the configured gas policy, the network identity, the
/// pre-flight policy, and the fixed calldata of the call.
#[derive(Debug)]
pub struct RewardsContract {
    pub contract: Address,
    pub signer: Address,
    pub gas_limit: u64,
    pub gas_price: Option<u128>,
    pub chain_id: u64,
    pub preflight_policy: PreflightPolicy,
    pub calldata: Vec<u8>,
}

/// The control position of a run state.
pub open spec fn spec_phase_of(state: RunState) -> Phase {
    match state {
        RunState::Idle => Phase::Idle,
        RunState::AwaitingStatus => Phase::AwaitingStatus,
        RunState::AwaitingSimulation => Phase::AwaitingSimulation,
        RunState::AwaitingEstimate => Phase::AwaitingEstimate,
        RunState::AwaitingGasPrice { .. } => Phase::AwaitingGasPrice,
        RunState::AwaitingNonce { .. } => Phase::AwaitingNonce,
        RunState::AwaitingSend { .. } => Phase::AwaitingSend,
        RunState::Submitted { .. } => Phase::Submitted,
        RunState::Aborted { .. } => Phase::Aborted,
    }
}

/// How the control position moves on one event. A terminal phase absorbs
/// every event, and an event that does not answer the awaited operation
/// leaves the position unchanged.
pub open spec fn spec_phase_step(gw: RewardsContract, p: Phase, event: ChainEvent) -> Phase {
    match (p, event) {
        (Phase::Idle, ChainEvent::Started) => Phase::AwaitingStatus,
        (Phase::AwaitingStatus, ChainEvent::StatusRead { status }) => {
            if gw.preflight_policy == PreflightPolicy::Enforce && spec_preflight_violation(status)
                is Some {
                Phase::Aborted
            } else {
                Phase::AwaitingSimulation
            }
        },
        (Phase::AwaitingSimulation, ChainEvent::SimulationOk) => Phase::AwaitingEstimate,
        (Phase::AwaitingSimulation, ChainEvent::SimulationReverted { .. }) => Phase::Aborted,
        (Phase::AwaitingEstimate, ChainEvent::EstimateOk { .. }) => if gw.gas_price is Some {
            Phase::AwaitingNonce
        } else {
            Phase::AwaitingGasPrice
        },
        (Phase::AwaitingEstimate, ChainEvent::EstimateFailed) => if gw.gas_price is Some {
            Phase::AwaitingNonce
        } else {
            Phase::AwaitingGasPrice
        },
        (Phase::AwaitingGasPrice, ChainEvent::GasPriceOk { .. }) => Phase::AwaitingNonce,
        (Phase::AwaitingGasPrice, ChainEvent::GasPriceFailed) => Phase::AwaitingNonce,
        (Phase::AwaitingNonce, ChainEvent::NonceOk { .. }) => Phase::AwaitingSend,
        (Phase::AwaitingNonce, ChainEvent::NonceFailed { .. }) => Phase::Aborted,
        (Phase::AwaitingSend, ChainEvent::SendOk { .. }) => Phase::Submitted,
        (Phase::AwaitingSend, ChainEvent::SendFailed { .. }) => Phase::Aborted,
        _ => p,
    }
}

/// The step emits the send operation exactly here: a nonce has just been
/// read for a fully priced request.
pub open spec fn spec_emits_send(p: Phase, event: ChainEvent) -> bool {
    p == Phase::AwaitingNonce && event matches ChainEvent::NonceOk { .. }
}

/// The state-event pairs on which the step acts; on any other pair it
/// leaves the state unchanged and asks for nothing.
pub open spec fn spec_handled(state: RunState, event: ChainEvent) -> bool {
    match (state, event) {
        (RunState::Idle, ChainEvent::Started) => true,
        (RunState::AwaitingStatus, ChainEvent::StatusRead { .. }) => true,
        (RunState::AwaitingSimulation, ChainEvent::SimulationOk) => true,
        (RunState::AwaitingSimulation, ChainEvent::SimulationReverted { .. }) => true,
        (RunState::AwaitingEstimate, ChainEvent::EstimateOk { .. }) => true,
        (RunState::AwaitingEstimate, ChainEvent::EstimateFailed) => true,
        (RunState::AwaitingGasPrice { .. }, ChainEvent::GasPriceOk { .. }) => true,
        (RunState::AwaitingGasPrice { .. }, ChainEvent::GasPriceFailed) => true,
        (RunState::AwaitingNonce { .. }, ChainEvent::NonceOk { .. }) => true,
        (RunState::AwaitingNonce { .. }, ChainEvent::NonceFailed { .. }) => true,
        (RunState::AwaitingSend { .. }, ChainEvent::SendOk { .. }) => true,
        (RunState::AwaitingSend { .. }, ChainEvent::SendFailed { .. }) => true,
        _ => false,
    }
}

/// The read-only request used both for simulation and gas estimation: from
/// the signing address to the contract, carrying the distribution calldata,
/// bounded by the configured gas limit.
pub open spec fn spec_sim_request(gw: RewardsContract, req: CallRequest) -> bool {
    &&& req.from@ == gw.signer@
    &&& req.to@ == gw.contract@
    &&& req.gas == gw.gas_limit
    &&& req.calldata@ == gw.calldata@
}

/// The transaction a run submits: zero value, the buffered gas limit, the
/// resolved price, the just-read nonce, the configured chain id, and the
/// distribution calldata.
pub open spec fn spec_tx_request(
    gw: RewardsContract,
    gas_limit: u64,
    gas_price: u128,
    nonce: u64,
    req: TxRequest,
) -> bool {
    &&& req.to@ == gw.contract@
    &&& req.value == 0
    &&& req.gas_limit == gas_limit
    &&& req.gas_price == gas_price
    &&& req.nonce == nonce
    &&& req.chain_id == gw.chain_id
    &&& req.calldata@ == gw.calldata@
}

/// Where the run stands after the estimate answer: straight to the nonce
/// read when a fixed price is configured (the live price is never queried),
/// otherwise on to the live price query.
pub open spec fn spec_after_estimate(
    gw: RewardsContract,
    gas_limit: int,
    r: (RunState, Option<ChainAction>),
) -> bool {
    match gw.gas_price {
        Some(p) => r.0 == (RunState::AwaitingNonce {
            gas_limit: gas_limit as u64,
            gas_price: p,
        }) && r.1 == Some(ChainAction::ReadNonce),
        None => r.0 == (RunState::AwaitingGasPrice { gas_limit: gas_limit as u64 }) && r.1 == Some(
            ChainAction::QueryGasPrice,
        ),
    }
}

impl RewardsContract {
    /// A gateway is well formed when its addresses are well formed, its
    /// calldata is the distribution call's, and its configured gas limit
    /// leaves room for the largest buffer.
    pub open spec fn wf(&self) -> bool {
        &&& self.contract.wf()
        &&& self.signer.wf()
        &&& self.calldata@ == spec_distribution_calldata()
        &&& self.gas_limit <= u64::MAX as int / DEV_BUFFER_NUMERATOR as int
    }

    /// Builds the gateway for one contract under one signing identity, with
    /// the configured gas policy and pre-flight policy.
    pub fn new(
        address: Address,
        signer: Address,
        gas_limit: u64,
        gas_price: Option<u128>,
        chain_id: u64,
        preflight_policy: PreflightPolicy,
    ) -> (r: RewardsContract)
        requires
            address.wf(),
            signer.wf(),
            gas_limit <= u64::MAX as int / DEV_BUFFER_NUMERATOR as int,
        ensures
            r.wf(),
            r.contract@ == address@,
            r.signer@ == signer@,
            r.gas_limit == gas_limit,
            r.gas_price == gas_price,
            r.chain_id == chain_id,
            r.preflight_policy == preflight_policy,
    {
        RewardsContract {
            contract: address,
            signer,
            gas_limit,
            gas_price,
            chain_id,
            preflight_policy,
            calldata: distribution_calldata(),
        }
    }

    /// The signing identity's address.
    pub fn client_address(&self) -> (r: &Address)
        ensures
            r@ == self.signer@,
    {
        &self.signer
    }

    /// The target contract's address.
    pub fn contract_address(&self) -> (r: &Address)
        ensures
            r@ == self.contract@,
    {
        &self.contract
    }

    /// The configured fallback gas limit.
    pub fn gas_limit(&self) -> (r: u64)
        ensures
            r == self.gas_limit,
    {
        self.gas_limit
    }

    /// The read-only request for simulation and estimation.
    fn build_call_request(&self) -> (r: CallRequest)
        ensures
            spec_sim_request(*self, r),
    {
        CallRequest {
            from: self.signer.duplicate(),
            to: self.contract.duplicate(),
            gas: self.gas_limit,
            calldata: clone_bytes(&self.calldata),
        }
    }

    /// One decision of a submission run. Given where the run stands and the
    /// outcome of the awaited chain operation, returns the next state and
    /// the next operation to perform, if any.
    ///
    /// The contract pins every policy of the run: a pre-flight violation
    /// aborts only under the enforcing policy; a reverted simulation aborts
    /// the run with the classified reason and the verbatim rendering, and
    /// the send operation can only ever be emitted from the nonce wait,
    /// which a reverted simulation makes unreachable; a failed estimate
    /// falls back to the configured gas limit and the run proceeds; the gas
    /// limit sent is always the buffered value; a configured gas price is
    /// used without the live query even being requested.
    pub fn step(&self, state: RunState, event: ChainEvent) -> (r: (RunState, Option<ChainAction>))
        requires
            self.wf(),
            event matches ChainEvent::EstimateOk { gas } ==> gas <= u64::MAX as int
                / DEV_BUFFER_NUMERATOR as int,
            (self.gas_price is None && !spec_is_dev_chain(self.chain_id)) ==> (event
                matches ChainEvent::GasPriceOk { price } ==> price <= u128::MAX / 110),
        ensures
            spec_phase_of(r.0) == spec_phase_step(*self, spec_phase_of(state), event),
            (r.1 matches Some(a) && a matches ChainAction::Send { .. }) <==> spec_emits_send(
                spec_phase_of(state),
                event,
            ),
            self.gas_price is Some ==> !(r.1 matches Some(a) && a
                matches ChainAction::QueryGasPrice),
            !spec_handled(state, event) ==> r.0 == state && r.1 is None,
            state matches RunState::Idle ==> (event matches ChainEvent::Started ==> r.0
                == RunState::AwaitingStatus && r.1 == Some(ChainAction::ReadStatus)),
            state matches RunState::AwaitingStatus ==> (event matches ChainEvent::StatusRead {
                status,
            } ==> {
                if self.preflight_policy == PreflightPolicy::Enforce && spec_preflight_violation(
                    status,
                ) is Some {
                    r.0 == (RunState::Aborted {
                        error: SubmitError::PreflightRejected {
                            violation: spec_preflight_violation(status)->Some_0,
                        },
                    }) && r.1 is None
                } else {
                    r.0 == RunState::AwaitingSimulation && (r.1 matches Some(
                        ChainAction::Simulate { request },
                    ) && spec_sim_request(*self, request))
                }
            }),
            state matches RunState::AwaitingSimulation ==> (event matches ChainEvent::SimulationOk
                ==> r.0 == RunState::AwaitingEstimate && (r.1 matches Some(
                ChainAction::EstimateGas { request },
            ) && spec_sim_request(*self, request))),
            state matches RunState::AwaitingSimulation ==> (event
                matches ChainEvent::SimulationReverted { message } ==> (r.0
                matches RunState::Aborted {
                error: SubmitError::SimulationRejected { reason, raw },
            } && reason == spec_classify_chars(message@) && raw@ == message@) && r.1 is None),
            state matches RunState::AwaitingEstimate ==> (event matches ChainEvent::EstimateOk {
                gas,
            } ==> spec_after_estimate(*self, spec_buffered_gas_limit(gas, self.chain_id), r)),
            state matches RunState::AwaitingEstimate ==> (event matches ChainEvent::EstimateFailed
                ==> spec_after_estimate(
                *self,
                spec_buffered_gas_limit(self.gas_limit, self.chain_id),
                r,
            )),
            state matches RunState::AwaitingGasPrice { gas_limit } ==> (event
                matches ChainEvent::GasPriceOk { price } ==> r.0 == (RunState::AwaitingNonce {
                gas_limit,
                gas_price: spec_resolved_gas_price(
                    self.gas_price,
                    self.chain_id,
                    Some(price),
                ) as u128,
            }) && r.1 == Some(ChainAction::ReadNonce)),
            state matches RunState::AwaitingGasPrice { gas_limit } ==> (event
                matches ChainEvent::GasPriceFailed ==> r.0 == (RunState::AwaitingNonce {
                gas_limit,
                gas_price: spec_resolved_gas_price(self.gas_price, self.chain_id, None) as u128,
            }) && r.1 == Some(ChainAction::ReadNonce)),
            state matches RunState::AwaitingNonce { gas_limit, gas_price } ==> (event
                matches ChainEvent::NonceOk { nonce } ==> (r.0 matches RunState::AwaitingSend {
                request,
            } && spec_tx_request(*self, gas_limit, gas_price, nonce, request)) && (r.1 matches Some(
                ChainAction::Send { request },
            ) && spec_tx_request(*self, gas_limit, gas_price, nonce, request))),
            state matches RunState::AwaitingNonce { .. } ==> (event
                matches ChainEvent::NonceFailed { message } ==> (r.0 matches RunState::Aborted {
                error: SubmitError::Transport { context },
            } && context@ == message@) && r.1 is None),
            state matches RunState::AwaitingSend { .. } ==> (event matches ChainEvent::SendOk {
                tx_hash,
            } ==> (r.0 matches RunState::Submitted { tx_hash: h } && h@ == tx_hash@) && r.1
                is None),
            state matches RunState::AwaitingSend { .. } ==> (event matches ChainEvent::SendFailed {
                message,
            } ==> (r.0 matches RunState::Aborted {
                error: SubmitError::SubmissionFailed { raw },
            } && raw@ == message@) && r.1 is None),
    {
        match (state, event) {
            (RunState::Idle, ChainEvent::Started) => (
                RunState::AwaitingStatus,
                Some(ChainAction::ReadStatus),
            ),
            (RunState::AwaitingStatus, ChainEvent::StatusRead { status }) => {
                match evaluate_preflight(self.preflight_policy, &status) {
                    Some(violation) => (
                        RunState::Aborted { error: SubmitError::PreflightRejected { violation } },
                        None,
                    ),
                    None => (
                        RunState::AwaitingSimulation,
                        Some(ChainAction::Simulate { request: self.build_call_request() }),
                    ),
                }
            },
            (RunState::AwaitingSimulation, ChainEvent::SimulationOk) => (
                RunState::AwaitingEstimate,
                Some(ChainAction::EstimateGas { request: self.build_call_request() }),
            ),
            (RunState::AwaitingSimulation, ChainEvent::SimulationReverted { message }) => {
                let reason = classify_revert(message.as_str());
                (
                    RunState::Aborted {
                        error: SubmitError::SimulationRejected { reason, raw: message },
                    },
                    None,
                )
            },
            (RunState::AwaitingEstimate, ChainEvent::EstimateOk { gas }) => {
                let gas_limit = buffered_gas_limit(gas, self.chain_id);
                self.priced_or_query(gas_limit)
            },
            (RunState::AwaitingEstimate, ChainEvent::EstimateFailed) => {
                let gas_limit = buffered_gas_limit(self.gas_limit, self.chain_id);
                self.priced_or_query(gas_limit)
            },
            (RunState::AwaitingGasPrice { gas_limit }, ChainEvent::GasPriceOk { price }) => {
                let live = Some(price);
                let gas_price = resolve_gas_price(&self.gas_price, self.chain_id, &live);
                (RunState::AwaitingNonce { gas_limit, gas_price }, Some(ChainAction::ReadNonce))
            },
            (RunState::AwaitingGasPrice { gas_limit }, ChainEvent::GasPriceFailed) => {
                let gas_price = resolve_gas_price(&self.gas_price, self.chain_id, &None);
                (RunState::AwaitingNonce { gas_limit, gas_price }, Some(ChainAction::ReadNonce))
            },
            (RunState::AwaitingNonce { gas_limit, gas_price }, ChainEvent::NonceOk { nonce }) => {
                let request = TxRequest {
                    to: self.contract.duplicate(),
                    value: 0,
                    gas_limit,
                    gas_price,
                    nonce,
                    chain_id: self.chain_id,
                    calldata: clone_bytes(&self.calldata),
                };
                let request_again = TxRequest {
                    to: self.contract.duplicate(),
                    value: 0,
                    gas_limit,
                    gas_price,
                    nonce,
                    chain_id: self.chain_id,
                    calldata: clone_bytes(&self.calldata),
                };
                (
                    RunState::AwaitingSend { request },
                    Some(ChainAction::Send { request: request_again }),
                )
            },
            (RunState::AwaitingNonce { .. }, ChainEvent::NonceFailed { message }) => (
                RunState::Aborted { error: SubmitError::Transport { context: message } },
                None,
            ),
            (RunState::AwaitingSend { .. }, ChainEvent::SendOk { tx_hash }) => (
                RunState::Submitted { tx_hash },
                None,
            ),
            (RunState::AwaitingSend { .. }, ChainEvent::SendFailed { message }) => (
                RunState::Aborted { error: SubmitError::SubmissionFailed { raw: message } },
                None,
            ),
            (s, _) => (s, None),
        }
    }

    /// After the gas limit is fixed: go straight to the nonce read when a
    /// fixed price is configured, otherwise ask for the live price.
    fn priced_or_query(&self, gas_limit: u64) -> (r: (RunState, Option<ChainAction>))
        ensures
            spec_after_estimate(*self, gas_limit as int, r),
            self.gas_price is Some ==> spec_phase_of(r.0) == Phase::AwaitingNonce,
            self.gas_price is None ==> spec_phase_of(r.0) == Phase::AwaitingGasPrice,
    {
        match self.gas_price {
            Some(gas_price) => (
                RunState::AwaitingNonce { gas_limit, gas_price },
                Some(ChainAction::ReadNonce),
            ),
            None => (
                RunState::AwaitingGasPrice { gas_limit },
                Some(ChainAction::QueryGasPrice),
            ),
        }
    }
}

/// The control position after a whole prefix of a run: the fold of the
/// phase step over a sequence of events.
pub open spec fn spec_run_phase(gw: RewardsContract, p: Phase, events: Seq<ChainEvent>) -> Phase
    decreases events.len(),
{
    if events.len() == 0 {
        p
    } else {
        spec_run_phase(gw, spec_phase_step(gw, p, events[0]), events.drop_first())
    }
}

/// An aborted run stays aborted: no sequence of further events moves it.
pub proof fn lemma_aborted_absorbs(gw: RewardsContract, events: Seq<ChainEvent>)
    ensures
        spec_run_phase(gw, Phase::Aborted, events) == Phase::Aborted,
    decreases events.len(),
{
    if events.len() > 0 {
        assert(spec_phase_step(gw, Phase::Aborted, events[0]) == Phase::Aborted);
        lemma_aborted_absorbs(gw, events.drop_first());
    }
}

/// Law: a reverted simulation prevents the send operation for the rest of
/// the run. If the first answer a run waiting on its simulation receives is
/// a revert, then after any number of further events the run is aborted and
/// never again stands at the nonce wait or beyond — and the step function
/// emits a send only from the nonce wait, so no transaction is ever
/// submitted in that run.
pub proof fn lemma_revert_blocks_send(gw: RewardsContract, events: Seq<ChainEvent>, i: int)
    requires
        events.len() >= 1,
        events[0] matches ChainEvent::SimulationReverted { .. },
        0 <= i <= events.len(),
    ensures
        spec_run_phase(gw, Phase::AwaitingSimulation, events.take(i)) != Phase::AwaitingNonce,
        spec_run_phase(gw, Phase::AwaitingSimulation, events.take(i)) != Phase::AwaitingSend,
        spec_run_phase(gw, Phase::AwaitingSimulation, events.take(i)) != Phase::Submitted,
        i >= 1 ==> spec_run_phase(gw, Phase::AwaitingSimulation, events.take(i)) == Phase::Aborted,
{
    let t = events.take(i);
    if i == 0 {
        assert(t.len() == 0);
    } else {
        assert(t[0] == events[0]);
        assert(spec_phase_step(gw, Phase::AwaitingSimulation, t[0]) == Phase::Aborted);
        lemma_aborted_absorbs(gw, t.drop_first());
    }
}

/// Law, restated against the step's emission clause: in a run whose first
/// answer was a reverted simulation, no later step emits the send
/// operation.
pub proof fn lemma_reverted_run_never_sends(gw: RewardsContract, events: Seq<ChainEvent>, i: int)
    requires
        events.len() >= 1,
        events[0] matches ChainEvent::SimulationReverted { .. },
        0 <= i < events.len(),
    ensures
        !spec_emits_send(spec_run_phase(gw, Phase::AwaitingSimulation, events.take(i)), events[i]),
{
    lemma_revert_blocks_send(gw, events, i);
}

} // verus!
