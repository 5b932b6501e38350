//! The swap-preparation pipeline as a state machine. Each call of
//! [`SwapSession::step`] takes the outcome of the node query that the
//! previous action asked for and decides the next action; the caller performs
//! the queries, one at a time, in the order the session gives them.
use vstd::prelude::*;

use crate::error::SwapError;
use crate::units::pow10;
use crate::units::u256_checked_div;
use crate::units::u256_exp10;
use crate::units::Address;
use crate::units::Wei;
use crate::units::DECIMALS;

verus! {

/// Fixed settings of one run.
#[derive(Clone, Copy, Debug, PartialEq, Eq)]
pub struct SwapConfig {
    /// The operator's own account, appended to the node's account list.
    pub operator: Address,
    /// The router contract that is asked for the wrapped-native token and
    /// for the gas estimate.
    pub router: Address,
    /// The token that the swap path ends in.
    pub destination_token: Address,
    /// How far in the future the swap deadline lies, in milliseconds.
    pub deadline_offset_ms: u128,
    /// The least amount of the destination token that the swap accepts.
    pub amount_out_min: Wei,
    /// The native value sent with the swap.
    pub value: Wei,
    /// The gas limit given with the estimate.
    pub gas_limit: Wei,
}

/// The bytes of the router contract's address.
pub open spec fn router_bytes() -> Seq<u8> {
    seq![
        0x7au8, 0x25, 0x0d, 0x56, 0x30, 0xb4, 0xcf, 0x53, 0x97, 0x39,
        0xdf, 0x2c, 0x5d, 0xac, 0xb4, 0xc6, 0x59, 0xf2, 0x48, 0x8d,
    ]
}

/// The bytes of the destination token's address.
pub open spec fn destination_token_bytes() -> Seq<u8> {
    seq![
        0x34u8, 0x27, 0x06, 0x31, 0xf4, 0x4c, 0x24, 0xfc, 0x32, 0x02,
        0x83, 0x34, 0x7c, 0x38, 0x51, 0x57, 0x98, 0xfa, 0x43, 0x88,
    ]
}

/// The router contract of the run: `0x7a250d5630B4cF539739dF2C5dAcb4c659F2488D`.
pub fn router_address() -> (r: Address)
    ensures
        r.bytes@ == router_bytes(),
{
    let r = Address {
        bytes: [
            0x7a, 0x25, 0x0d, 0x56, 0x30, 0xb4, 0xcf, 0x53, 0x97, 0x39,
            0xdf, 0x2c, 0x5d, 0xac, 0xb4, 0xc6, 0x59, 0xf2, 0x48, 0x8d,
        ],
    };
    assert(r.bytes@ =~= router_bytes());
    r
}

/// The token the swap path ends in: `0x34270631F44C24fc320283347c38515798fA4388`.
pub fn destination_token_address() -> (r: Address)
    ensures
        r.bytes@ == destination_token_bytes(),
{
    let r = Address {
        bytes: [
            0x34, 0x27, 0x06, 0x31, 0xf4, 0x4c, 0x24, 0xfc, 0x32, 0x02,
            0x83, 0x34, 0x7c, 0x38, 0x51, 0x57, 0x98, 0xfa, 0x43, 0x88,
        ],
    };
    assert(r.bytes@ =~= destination_token_bytes());
    r
}

/// Milliseconds from now to the swap deadline: five minutes.
pub const DEADLINE_OFFSET_MS: u128 = 300_000;

/// The least output that the estimated swap asks for, in base units.
pub const AMOUNT_OUT_MIN: u64 = 1000;

/// The gas limit given with the estimate.
pub const GAS_LIMIT: u64 = 500_000;

/// The native value of the swap is one whole unit divided by this.
pub const VALUE_DIVISOR: u64 = 20;

impl SwapConfig {
    /// The run's settings for the operator account `operator`: the fixed
    /// router and destination token, a five-minute deadline, a minimum output
    /// of 1000 base units, 0.05 native units sent and a gas limit of 500,000.
    pub fn new(operator: Address) -> (r: SwapConfig)
        ensures
            r.operator == operator,
            r.router.bytes@ == router_bytes(),
            r.destination_token.bytes@ == destination_token_bytes(),
            r.deadline_offset_ms == DEADLINE_OFFSET_MS,
            r.amount_out_min.value() == AMOUNT_OUT_MIN,
            r.value.value() == pow10(DECIMALS as nat) / (VALUE_DIVISOR as nat),
            r.value.value() == 50_000_000_000_000_000,
            r.gas_limit.value() == GAS_LIMIT,
    {
        let unit = u256_exp10(DECIMALS);
        proof {
            reveal_with_fuel(pow10, 19);
        }
        let value = u256_checked_div(unit, Wei::from_u64(VALUE_DIVISOR)).unwrap();
        SwapConfig {
            operator,
            router: router_address(),
            destination_token: destination_token_address(),
            deadline_offset_ms: DEADLINE_OFFSET_MS,
            amount_out_min: Wei::from_u64(AMOUNT_OUT_MIN),
            value,
            gas_limit: Wei::from_u64(GAS_LIMIT),
        }
    }
}

/// Where a run stands: what the session waits for next.
#[derive(Clone, Copy, Debug, PartialEq, Eq)]
pub enum Stage {
    ListAccounts,
    FetchBalances,
    ResolveWrappedNative,
    ComputeDeadline,
    EstimateGas,
    FetchGasPrice,
    Finished,
    Aborted,
}

impl Stage {
    /// The run has not ended yet.
    pub open spec fn is_live(self) -> bool {
        !(self is Finished || self is Aborted)
    }
}

/// The arguments of the gas estimate for `swapExactETHForTokens`.
#[derive(Clone, Debug, PartialEq, Eq)]
pub struct SwapCall {
    pub amount_out_min: Wei,
    pub path: Vec<Address>,
    pub recipient: Address,
    pub deadline: u128,
    pub sender: Address,
    pub value: Wei,
    pub gas_limit: Wei,
}

/// What a finished run reports.
#[derive(Clone, Debug, PartialEq, Eq)]
pub struct SwapReport {
    /// The node's accounts followed by the operator's.
    pub accounts: Vec<Address>,
    /// The balance of each account, in base units, in the same order.
    pub balances: Vec<Wei>,
    pub wrapped_native: Address,
    pub deadline: u128,
    pub gas_estimate: Wei,
    pub gas_price: Wei,
}

/// The outcome of the query that the last action asked for.
#[derive(Clone, Debug, PartialEq, Eq)]
pub enum Event {
    Accounts(Vec<Address>),
    Balance(Wei),
    WrappedNative(Address),
    Deadline(u128),
    GasEstimate(Wei),
    GasPrice(Wei),
    Failed(SwapError),
}

/// What the caller is to do next.
#[derive(Clone, Debug, PartialEq, Eq)]
pub enum Action {
    /// List the node's accounts.
    ListAccounts,
    /// Fetch the balance of this account.
    FetchBalance(Address),
    /// Read the wrapped-native token address from this router contract.
    QueryWrappedNative(Address),
    /// Compute a deadline this many milliseconds from now.
    ComputeDeadline(u128),
    /// Estimate the gas of this swap.
    EstimateGas(SwapCall),
    /// Fetch the node's gas price.
    FetchGasPrice,
    /// The run is complete.
    Report(SwapReport),
    /// The run has ended with this error.
    Abort(SwapError),
}

/// The account set of a run: the node's accounts in their order, then the
/// operator's, with no duplicate taken out.
pub fn account_set(reported: Vec<Address>, operator: Address) -> (r: Vec<Address>)
    ensures
        r@ == reported@.push(operator),
{
    let mut r = reported;
    r.push(operator);
    r
}

/// `call` is the swap that `config` describes, from and to `account`, along
/// the path from `wrapped_native` to the destination token, with `deadline`.
pub open spec fn is_swap_call(
    call: SwapCall,
    config: SwapConfig,
    account: Address,
    wrapped_native: Address,
    deadline: u128,
) -> bool {
    &&& call.amount_out_min == config.amount_out_min
    &&& call.path@ == seq![wrapped_native, config.destination_token]
    &&& call.recipient == account
    &&& call.deadline == deadline
    &&& call.sender == account
    &&& call.value == config.value
    &&& call.gas_limit == config.gas_limit
}

/// The swap whose gas is estimated.
pub fn swap_call(config: &SwapConfig, account: Address, wrapped_native: Address, deadline: u128) -> (r:
    SwapCall)
    ensures
        is_swap_call(r, *config, account, wrapped_native, deadline),
{
    let mut path: Vec<Address> = Vec::new();
    path.push(wrapped_native);
    path.push(config.destination_token);
    assert(path@ =~= seq![wrapped_native, config.destination_token]);
    SwapCall {
        amount_out_min: config.amount_out_min,
        path,
        recipient: account,
        deadline,
        sender: account,
        value: config.value,
        gas_limit: config.gas_limit,
    }
}

/// The state of one run: the settings, the stage, and what the node has
/// answered so far.
#[derive(Clone, Debug, PartialEq, Eq)]
pub struct SwapSession {
    pub config: SwapConfig,
    pub stage: Stage,
    pub accounts: Vec<Address>,
    pub balances: Vec<Wei>,
    pub wrapped_native: Option<Address>,
    pub deadline: Option<u128>,
    pub gas_estimate: Option<Wei>,
}

/// `t` holds the same settings and answers as `s`.
pub open spec fn keeps_data(s: SwapSession, t: SwapSession) -> bool {
    &&& t.config == s.config
    &&& t.accounts@ == s.accounts@
    &&& t.balances@ == s.balances@
    &&& t.wrapped_native == s.wrapped_native
    &&& t.deadline == s.deadline
    &&& t.gas_estimate == s.gas_estimate
}

/// The run ends from `s` in `t` with the error `e` and nothing else done.
pub open spec fn aborts_with(s: SwapSession, t: SwapSession, act: Action, e: SwapError) -> bool {
    &&& keeps_data(s, t)
    &&& t.stage == Stage::Aborted
    &&& act == Action::Abort(e)
}

/// One step of a run: from `s`, on the outcome `event`, the session becomes
/// `t` and asks for `act`. Each outcome is taken only in the stage that waits
/// for it; any failure, and any outcome out of order, ends the run at once;
/// an ended run changes no more.
pub open spec fn step_spec(s: SwapSession, event: Event, t: SwapSession, act: Action) -> bool {
    if !s.stage.is_live() {
        keeps_data(s, t) && t.stage == s.stage && act == Action::Abort(SwapError::OutOfOrder)
    } else {
        match event {
            Event::Failed(e) => aborts_with(s, t, act, e),
            Event::Accounts(reported) => if s.stage is ListAccounts {
                &&& t.config == s.config
                &&& t.accounts@ == reported@.push(s.config.operator)
                &&& t.balances@ == s.balances@
                &&& t.wrapped_native == s.wrapped_native
                &&& t.deadline == s.deadline
                &&& t.gas_estimate == s.gas_estimate
                &&& t.stage == Stage::FetchBalances
                &&& act == Action::FetchBalance(t.accounts@[0])
            } else {
                aborts_with(s, t, act, SwapError::OutOfOrder)
            },
            Event::Balance(b) => if s.stage is FetchBalances {
                &&& t.config == s.config
                &&& t.accounts@ == s.accounts@
                &&& t.balances@ == s.balances@.push(b)
                &&& t.wrapped_native == s.wrapped_native
                &&& t.deadline == s.deadline
                &&& t.gas_estimate == s.gas_estimate
                &&& if t.balances.len() < t.accounts.len() {
                    &&& t.stage == Stage::FetchBalances
                    &&& act == Action::FetchBalance(t.accounts@[t.balances.len() as int])
                } else {
                    &&& t.stage == Stage::ResolveWrappedNative
                    &&& act == Action::QueryWrappedNative(s.config.router)
                }
            } else {
                aborts_with(s, t, act, SwapError::OutOfOrder)
            },
            Event::WrappedNative(a) => if s.stage is ResolveWrappedNative {
                &&& t.config == s.config
                &&& t.accounts@ == s.accounts@
                &&& t.balances@ == s.balances@
                &&& t.wrapped_native == Some(a)
                &&& t.deadline == s.deadline
                &&& t.gas_estimate == s.gas_estimate
                &&& t.stage == Stage::ComputeDeadline
                &&& act == Action::ComputeDeadline(s.config.deadline_offset_ms)
            } else {
                aborts_with(s, t, act, SwapError::OutOfOrder)
            },
            Event::Deadline(d) => if s.stage is ComputeDeadline {
                &&& t.config == s.config
                &&& t.accounts@ == s.accounts@
                &&& t.balances@ == s.balances@
                &&& t.wrapped_native == s.wrapped_native
                &&& t.deadline == Some(d)
                &&& t.gas_estimate == s.gas_estimate
                &&& t.stage == Stage::EstimateGas
                &&& act matches Action::EstimateGas(call)
                &&& is_swap_call(call, s.config, s.accounts@[0], s.wrapped_native.unwrap(), d)
            } else {
                aborts_with(s, t, act, SwapError::OutOfOrder)
            },
            Event::GasEstimate(g) => if s.stage is EstimateGas {
                &&& t.config == s.config
                &&& t.accounts@ == s.accounts@
                &&& t.balances@ == s.balances@
                &&& t.wrapped_native == s.wrapped_native
                &&& t.deadline == s.deadline
                &&& t.gas_estimate == Some(g)
                &&& t.stage == Stage::FetchGasPrice
                &&& act == Action::FetchGasPrice
            } else {
                aborts_with(s, t, act, SwapError::OutOfOrder)
            },
            Event::GasPrice(p) => if s.stage is FetchGasPrice {
                &&& keeps_data(s, t)
                &&& t.stage == Stage::Finished
                &&& act matches Action::Report(rep)
                &&& rep.accounts@ == s.accounts@
                &&& rep.balances@ == s.balances@
                &&& rep.wrapped_native == s.wrapped_native.unwrap()
                &&& rep.deadline == s.deadline.unwrap()
                &&& rep.gas_estimate == s.gas_estimate.unwrap()
                &&& rep.gas_price == p
            } else {
                aborts_with(s, t, act, SwapError::OutOfOrder)
            },
        }
    }
}

impl SwapSession {
    /// The answers collected so far fit the stage.
    pub open spec fn wf(self) -> bool {
        let n = self.accounts.len();
        let all_fetched = 0 < n && self.balances.len() == n;
        match self.stage {
            Stage::ListAccounts => n == 0 && self.balances.len() == 0,
            Stage::FetchBalances => self.balances.len() < n,
            Stage::ResolveWrappedNative => all_fetched,
            Stage::ComputeDeadline => all_fetched && self.wrapped_native is Some,
            Stage::EstimateGas => {
                &&& all_fetched
                &&& self.wrapped_native is Some
                &&& self.deadline is Some
            },
            Stage::FetchGasPrice | Stage::Finished => {
                &&& all_fetched
                &&& self.wrapped_native is Some
                &&& self.deadline is Some
                &&& self.gas_estimate is Some
            },
            Stage::Aborted => true,
        }
    }

    /// A run with the settings `config`, and its first action: listing the
    /// node's accounts.
    pub fn start(config: SwapConfig) -> (r: (SwapSession, Action))
        ensures
            r.0.wf(),
            r.0.config == config,
            r.0.stage == Stage::ListAccounts,
            r.0.wrapped_native is None,
            r.0.deadline is None,
            r.0.gas_estimate is None,
            r.1 == Action::ListAccounts,
    {
        let session = SwapSession {
            config,
            stage: Stage::ListAccounts,
            accounts: Vec::new(),
            balances: Vec::new(),
            wrapped_native: None,
            deadline: None,
            gas_estimate: None,
        };
        (session, Action::ListAccounts)
    }

    /// Ends the run with `e`.
    fn abort(&mut self, e: SwapError) -> (act: Action)
        requires
            old(self).stage.is_live(),
        ensures
            final(self).wf(),
            aborts_with(*old(self), *final(self), act, e),
    {
        self.stage = Stage::Aborted;
        Action::Abort(e)
    }

    /// Takes the outcome of the last action and gives the next one.
    pub fn step(&mut self, event: Event) -> (act: Action)
        requires
            old(self).wf(),
        ensures
            final(self).wf(),
            step_spec(*old(self), event, *final(self), act),
    {
        if matches!(self.stage, Stage::Finished | Stage::Aborted) {
            return Action::Abort(SwapError::OutOfOrder);
        }
        match event {
            Event::Failed(e) => self.abort(e),
            Event::Accounts(reported) => {
                if !matches!(self.stage, Stage::ListAccounts) {
                    return self.abort(SwapError::OutOfOrder);
                }
                self.accounts = account_set(reported, self.config.operator);
                self.stage = Stage::FetchBalances;
                Action::FetchBalance(self.accounts[0])
            },
            Event::Balance(b) => {
                if !matches!(self.stage, Stage::FetchBalances) {
                    return self.abort(SwapError::OutOfOrder);
                }
                self.balances.push(b);
                if self.balances.len() < self.accounts.len() {
                    Action::FetchBalance(self.accounts[self.balances.len()])
                } else {
                    self.stage = Stage::ResolveWrappedNative;
                    Action::QueryWrappedNative(self.config.router)
                }
            },
            Event::WrappedNative(a) => {
                if !matches!(self.stage, Stage::ResolveWrappedNative) {
                    return self.abort(SwapError::OutOfOrder);
                }
                self.wrapped_native = Some(a);
                self.stage = Stage::ComputeDeadline;
                Action::ComputeDeadline(self.config.deadline_offset_ms)
            },
            Event::Deadline(d) => {
                if !matches!(self.stage, Stage::ComputeDeadline) {
                    return self.abort(SwapError::OutOfOrder);
                }
                self.deadline = Some(d);
                self.stage = Stage::EstimateGas;
                let wrapped = self.wrapped_native.unwrap();
                Action::EstimateGas(swap_call(&self.config, self.accounts[0], wrapped, d))
            },
            Event::GasEstimate(g) => {
                if !matches!(self.stage, Stage::EstimateGas) {
                    return self.abort(SwapError::OutOfOrder);
                }
                self.gas_estimate = Some(g);
                self.stage = Stage::FetchGasPrice;
                Action::FetchGasPrice
            },
            Event::GasPrice(p) => {
                if !matches!(self.stage, Stage::FetchGasPrice) {
                    return self.abort(SwapError::OutOfOrder);
                }
                self.stage = Stage::Finished;
                let report = SwapReport {
                    accounts: self.accounts.clone(),
                    balances: self.balances.clone(),
                    wrapped_native: self.wrapped_native.unwrap(),
                    deadline: self.deadline.unwrap(),
                    gas_estimate: self.gas_estimate.unwrap(),
                    gas_price: p,
                };
                Action::Report(report)
            },
        }
    }
}

/// `states`, `events` and `acts` record consecutive steps of a run.
pub open spec fn is_run(states: Seq<SwapSession>, events: Seq<Event>, acts: Seq<Action>) -> bool {
    &&& states.len() == events.len() + 1
    &&& acts.len() == events.len()
    &&& forall|i: int|
        0 <= i < events.len() ==> step_spec(states[i], #[trigger] events[i], states[i + 1], acts[i])
}

proof fn lemma_stays_aborted(states: Seq<SwapSession>, events: Seq<Event>, acts: Seq<Action>, k: int)
    requires
        is_run(states, events, acts),
        events.len() > 0,
        states[0].stage.is_live(),
        events[0] is Failed,
        1 <= k <= events.len(),
    ensures
        states[k].stage == Stage::Aborted,
    decreases k,
{
    assert(step_spec(states[k - 1], events[k - 1], states[k], acts[k - 1]));
    if k > 1 {
        lemma_stays_aborted(states, events, acts, k - 1);
    }
}

/// Fail fast: once a step of a live run fails, the run ends there. That
/// step's action reports exactly its failure, and every later step leaves
/// the run ended and asks for nothing but an abort, so no gas estimate and
/// no gas price is ever asked for after it.
pub proof fn lemma_fail_fast(states: Seq<SwapSession>, events: Seq<Event>, acts: Seq<Action>)
    requires
        is_run(states, events, acts),
        events.len() > 0,
        states[0].stage.is_live(),
        events[0] is Failed,
    ensures
        acts[0] == Action::Abort(events[0]->Failed_0),
        forall|i: int| 1 <= i <= events.len() ==> states[i].stage == Stage::Aborted,
        forall|i: int| 1 <= i < acts.len() ==> acts[i] == Action::Abort(SwapError::OutOfOrder),
        forall|i: int|
            0 <= i < acts.len() ==> !(acts[i] is EstimateGas) && !(acts[i] is FetchGasPrice),
{
    assert(step_spec(states[0], events[0], states[1], acts[0]));
    assert forall|i: int| 1 <= i <= events.len() implies states[i].stage == Stage::Aborted by {
        lemma_stays_aborted(states, events, acts, i);
    }
    assert forall|i: int| 1 <= i < acts.len() implies acts[i] == Action::Abort(
        SwapError::OutOfOrder,
    ) by {
        lemma_stays_aborted(states, events, acts, i);
        assert(step_spec(states[i], events[i], states[i + 1], acts[i]));
    }
    assert forall|i: int| 0 <= i < acts.len() implies !(acts[i] is EstimateGas) && !(
    acts[i] is FetchGasPrice) by {
        if i > 0 {
            lemma_stays_aborted(states, events, acts, i);
            assert(step_spec(states[i], events[i], states[i + 1], acts[i]));
        }
    }
}

} // verus!