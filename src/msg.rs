use vstd::prelude::*;

use crate::decimal::Decimal;
use crate::state::{UnbondingRequest, ValidatorInfo};

verus! {

/// An amount of one denomination.
#[derive(Clone, Debug, PartialEq, Eq)]
pub struct Coin {
    pub denom: String,
    pub amount: u128,
}

/// What the host knows when it runs an operation.
#[derive(Clone, Copy, Debug, PartialEq, Eq, Structural)]
pub struct Env {
    /// Seconds.
    pub block_time: u64,
    /// Rewards earned by the delegations and not yet withdrawn, as observed by
    /// the host; they count toward the exchange rate.
    pub accrued_rewards: u128,
}

/// Who calls, and what they attached.
#[derive(Clone, Debug, PartialEq, Eq)]
pub struct MessageInfo {
    pub sender: String,
    pub funds: Vec<Coin>,
}

/// An outbound instruction, to be carried out by the host together with the
/// state change of the operation that produced it.
#[derive(Clone, Debug, PartialEq, Eq)]
pub enum Effect {
    Delegate { validator: String, amount: u128 },
    Undelegate { validator: String, amount: u128 },
    WithdrawDelegatorReward { validator: String },
    /// Mint derivative tokens through the token contract.
    Mint { token: String, recipient: String, amount: u128 },
    /// Burn derivative tokens of `owner` through the token contract.
    BurnFrom { token: String, owner: String, amount: u128 },
    /// Send principal.
    Send { to_address: String, amount: u128 },
}

/// What an operation reports.
#[derive(Clone, Debug, PartialEq, Eq)]
pub enum Event {
    Instantiate { admin: String },
    Stake {
        staker: String,
        regen_amount: u128,
        dregen_amount: u128,
        exchange_rate: Decimal,
        fee_amount: u128,
    },
    Unbond {
        user: String,
        dregen_amount: u128,
        regen_amount: u128,
        unbonding_id: u64,
        completion_time: u64,
        exchange_rate: Decimal,
    },
    ClaimUnbonding { user: String, unbonding_id: u64, regen_amount: u128 },
    ClaimRewards { claimer: String },
    Rebalance {},
    UpdateValidators { count: u64 },
    Pause {},
    Resume {},
    UpdateConfig {},
}

/// The outcome of a successful operation.
#[derive(Clone, Debug, PartialEq, Eq)]
pub struct Response {
    pub messages: Vec<Effect>,
    pub event: Event,
}

#[derive(Clone, Debug, PartialEq, Eq)]
pub struct ValidatorParams {
    pub address: String,
    pub weight: Decimal,
}

#[derive(Clone, Debug, PartialEq, Eq)]
pub struct InstantiateMsg {
    pub admin: String,
    pub fee_rate: Decimal,
    pub unbonding_period: u64,
    pub max_validators: u32,
    pub min_delegation: u128,
    /// The derivative token; where omitted the admin stands in until
    /// `UpdateConfig` names it.
    pub dregen_token: Option<String>,
    pub validators: Vec<ValidatorParams>,
}

#[derive(Clone, Debug, PartialEq, Eq)]
pub enum ExecuteMsg {
    /// Stake the attached principal and mint derivative tokens.
    Stake {},
    /// Start redeeming derivative tokens.
    Unbond { dregen_amount: u128 },
    /// Collect a completed unbonding.
    ClaimUnbonding { unbonding_id: u64 },
    Rebalance {},
    /// Withdraw rewards from every active delegate.
    ClaimRewards {},
    /// Replace the active delegate set.
    UpdateValidators { validators: Vec<ValidatorParams> },
    Pause {},
    Resume {},
    UpdateConfig {
        admin: Option<String>,
        fee_rate: Option<Decimal>,
        max_validators: Option<u32>,
        dregen_token: Option<String>,
    },
}

#[derive(Clone, Debug, PartialEq, Eq)]
pub enum QueryMsg {
    Config {},
    State {},
    ExchangeRate {},
    Validators {},
    Unbonding { user: String },
    SimulateStake { amount: u128 },
    SimulateUnbond { dregen_amount: u128 },
}

#[derive(Clone, Debug, PartialEq, Eq)]
pub struct ConfigResponse {
    pub admin: String,
    pub dregen_token: String,
    pub fee_rate: Decimal,
    pub unbonding_period: u64,
    pub max_validators: u32,
    pub min_delegation: u128,
    pub pause_contract: bool,
}

#[derive(Clone, Copy, Debug, PartialEq, Eq, Structural)]
pub struct StateResponse {
    pub total_regen_staked: u128,
    pub total_dregen_supply: u128,
    pub exchange_rate: Decimal,
    pub last_update_time: u64,
    pub total_rewards_claimed: u128,
    pub pending_unbonding: u128,
}

#[derive(Clone, Copy, Debug, PartialEq, Eq, Structural)]
pub struct ExchangeRateResponse {
    pub rate: Decimal,
    pub last_updated: u64,
}

#[derive(Clone, Debug, PartialEq, Eq)]
pub struct ValidatorsResponse {
    pub validators: Vec<ValidatorInfo>,
}

#[derive(Clone, Debug, PartialEq, Eq)]
pub struct UnbondingResponse {
    pub requests: Vec<UnbondingRequest>,
}

#[derive(Clone, Copy, Debug, PartialEq, Eq, Structural)]
pub struct SimulateStakeResponse {
    pub dregen_amount: u128,
    pub exchange_rate: Decimal,
    pub fee_amount: u128,
}

#[derive(Clone, Copy, Debug, PartialEq, Eq, Structural)]
pub struct SimulateUnbondResponse {
    pub regen_amount: u128,
    pub completion_time: u64,
    pub fee_amount: u128,
}

/// The answer to a query.
#[derive(Clone, Debug, PartialEq, Eq)]
pub enum QueryResponse {
    Config(ConfigResponse),
    State(StateResponse),
    ExchangeRate(ExchangeRateResponse),
    Validators(ValidatorsResponse),
    Unbonding(UnbondingResponse),
    SimulateStake(SimulateStakeResponse),
    SimulateUnbond(SimulateUnbondResponse),
}

} // verus!
