use vstd::prelude::*;

use crate::decimal::Decimal;

verus! {

/// The highest fee rate the pool accepts: 20%, in atomics.
pub const MAX_FEE_ATOMICS: u128 = 200_000_000_000_000_000;

/// Pool configuration, changed only by the admin.
#[derive(Clone, Debug, PartialEq, Eq)]
pub struct Config {
    pub admin: String,
    pub dregen_token: String,
    pub fee_rate: Decimal,
    /// Seconds between an unbond and its claimability.
    pub unbonding_period: u64,
    pub max_validators: u32,
    pub min_delegation: u128,
    pub pause_contract: bool,
}

/// Pool-wide totals.
#[derive(Clone, Copy, Debug, PartialEq, Eq, Structural)]
pub struct State {
    pub total_regen_staked: u128,
    pub total_dregen_supply: u128,
    /// The exchange rate recomputed from the totals (and the accrued rewards
    /// then observed) by the last stake or unbond; one while nothing is staked.
    pub exchange_rate: Decimal,
    /// Seconds.
    pub last_update_time: u64,
    pub total_rewards_claimed: u128,
    pub pending_unbonding: u128,
}

/// A delegate of the pool.
#[derive(Clone, Debug, PartialEq, Eq)]
pub struct ValidatorInfo {
    pub address: String,
    pub delegated_amount: u128,
    /// Target weight for new stake.
    pub weight: Decimal,
    /// Seconds.
    pub last_reward_claim: u64,
    pub slashing_events: u32,
    pub uptime_percentage: Decimal,
    pub commission_rate: Decimal,
    pub is_active: bool,
}

/// A redemption waiting for its completion time.
#[derive(Clone, Debug, PartialEq, Eq)]
pub struct UnbondingRequest {
    pub user: String,
    pub dregen_amount: u128,
    /// Principal owed to `user` at completion.
    pub regen_amount: u128,
    /// Seconds; fixed when the request is made.
    pub completion_time: u64,
    /// The request's place in the pool-wide sequence.
    pub id: u64,
}

/// A reward paid out by a delegate.
#[derive(Clone, Debug, PartialEq, Eq)]
pub struct RewardDistribution {
    pub validator: String,
    pub amount: u128,
    /// Seconds.
    pub distribution_time: u64,
}

/// Everything the pool keeps between operations: the configuration, the
/// totals, the delegates in a stable order (the order in which distributions
/// visit them; the host keeps them by ascending address), the open unbonding
/// requests in order of their ids, and the next id to hand out.
#[derive(Clone, Debug, PartialEq, Eq)]
pub struct Pool {
    pub config: Config,
    pub state: State,
    pub validators: Vec<ValidatorInfo>,
    pub unbonding_requests: Vec<UnbondingRequest>,
    pub next_unbonding_id: u64,
}

impl ValidatorInfo {
    /// This delegate with another delegated amount.
    pub open spec fn with_delegated(self, amount: u128) -> ValidatorInfo {
        ValidatorInfo { delegated_amount: amount, ..self }
    }

    /// This delegate marked active or inactive.
    pub open spec fn with_active(self, active: bool) -> ValidatorInfo {
        ValidatorInfo { is_active: active, ..self }
    }

    pub fn set_delegated(&self, amount: u128) -> (r: ValidatorInfo)
        ensures
            r == self.with_delegated(amount),
    {
        ValidatorInfo {
            address: self.address.clone(),
            delegated_amount: amount,
            weight: self.weight,
            last_reward_claim: self.last_reward_claim,
            slashing_events: self.slashing_events,
            uptime_percentage: self.uptime_percentage,
            commission_rate: self.commission_rate,
            is_active: self.is_active,
        }
    }

    pub fn copy(&self) -> (r: ValidatorInfo)
        ensures
            r == *self,
    {
        self.set_delegated(self.delegated_amount)
    }
}

impl UnbondingRequest {
    pub fn copy(&self) -> (r: UnbondingRequest)
        ensures
            r == *self,
    {
        UnbondingRequest {
            user: self.user.clone(),
            dregen_amount: self.dregen_amount,
            regen_amount: self.regen_amount,
            completion_time: self.completion_time,
            id: self.id,
        }
    }
}

impl Config {
    pub fn copy(&self) -> (r: Config)
        ensures
            r == *self,
    {
        Config {
            admin: self.admin.clone(),
            dregen_token: self.dregen_token.clone(),
            fee_rate: self.fee_rate,
            unbonding_period: self.unbonding_period,
            max_validators: self.max_validators,
            min_delegation: self.min_delegation,
            pause_contract: self.pause_contract,
        }
    }
}

/// No two delegates share an address.
pub open spec fn addresses_unique(vals: Seq<ValidatorInfo>) -> bool {
    forall|i: int, j: int|
        0 <= i < vals.len() && 0 <= j < vals.len() && i != j ==> vals[i].address@
            != vals[j].address@
}

/// Request ids rise strictly along the queue and stay below `next`.
pub open spec fn ids_ordered(reqs: Seq<UnbondingRequest>, next: u64) -> bool {
    &&& forall|i: int, j: int| 0 <= i < j < reqs.len() ==> reqs[i].id < reqs[j].id
    &&& forall|i: int| 0 <= i < reqs.len() ==> reqs[i].id < next
}

impl Pool {
    /// The fee rate is within bounds, delegate addresses are unique, and each
    /// request id occurs once.
    pub open spec fn wf(&self) -> bool {
        &&& self.config.fee_rate.atomics <= MAX_FEE_ATOMICS
        &&& addresses_unique(self.validators@)
        &&& ids_ordered(self.unbonding_requests@, self.next_unbonding_id)
    }
}

} // verus!
