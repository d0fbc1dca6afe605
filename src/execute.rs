use vstd::prelude::*;

use crate::decimal::Decimal;
use crate::delegates::{get_active_validators, plan_shift, shift_all, targets};
use crate::distribution::{as_int_amounts, distribution};
use crate::error::ContractError;
use crate::helpers::{ensure_admin, ensure_not_paused, extract_uregen_amount};
use crate::math::{
    calculate_dregen_mint_amount, calculate_exchange_rate, calculate_fee,
    calculate_regen_return_amount, lemma_fee_at_most_amount,
};
use crate::msg::{Effect, Env, Event, MessageInfo, Response, ValidatorParams};
use crate::transitions::{
    admin_config_spec, claim_rewards_spec, claim_spec, deactivated, index_of_address, position_of,
    stake_spec, transfer_msgs, unbond_spec, update_config_spec, update_validators_spec, upsert_all,
};
use crate::state::{
    addresses_unique, Config, Pool, UnbondingRequest, ValidatorInfo, MAX_FEE_ATOMICS,
};

verus! {

// ---------------------------------------------------------------------------
// Shared steps.
// ---------------------------------------------------------------------------

/// The delegation (or undelegation) instructions for a distribution.
fn transfer_messages(dist: &Vec<(String, u128)>, undelegate: bool) -> (r: Vec<Effect>)
    ensures
        r@ == transfer_msgs(as_int_amounts(dist@), undelegate),
{
    let n = dist.len();
    let mut out: Vec<Effect> = Vec::new();
    let mut k: usize = 0;
    while k < n
        invariant
            n == dist@.len(),
            0 <= k <= n,
            out@ == transfer_msgs(as_int_amounts(dist@), undelegate).take(k as int),
        decreases n - k,
    {
        let validator = dist[k].0.clone();
        let amount = dist[k].1;
        if undelegate {
            out.push(Effect::Undelegate { validator, amount });
        } else {
            out.push(Effect::Delegate { validator, amount });
        }
        k = k + 1;
        proof {
            assert(out@ =~= transfer_msgs(as_int_amounts(dist@), undelegate).take(k as int));
        }
    }
    proof {
        assert(out@ =~= transfer_msgs(as_int_amounts(dist@), undelegate));
    }
    out
}

/// The delegates with their new delegated amounts.
fn apply_amounts(vals: &Vec<ValidatorInfo>, amounts: &Vec<u128>) -> (r: Vec<ValidatorInfo>)
    requires
        amounts@.len() == vals@.len(),
    ensures
        r@ == Seq::new(vals@.len(), |i: int| vals@[i].with_delegated(amounts@[i])),
{
    let n = vals.len();
    let mut out: Vec<ValidatorInfo> = Vec::new();
    let mut i: usize = 0;
    while i < n
        invariant
            n == vals@.len(),
            amounts@.len() == n,
            0 <= i <= n,
            out@ == Seq::new(i as nat, |j: int| vals@[j].with_delegated(amounts@[j])),
        decreases n - i,
    {
        out.push(vals[i].set_delegated(amounts[i]));
        i = i + 1;
        proof {
            assert(out@ =~= Seq::new(i as nat, |j: int| vals@[j].with_delegated(amounts@[j])));
        }
    }
    out
}

/// Where the delegate with `address` stands.
fn find_validator(vals: &Vec<ValidatorInfo>, address: &String) -> (r: Option<usize>)
    ensures
        match r {
            Some(k) => k < vals@.len() && vals@[k as int].address@ == address@,
            None => forall|i: int| 0 <= i < vals@.len() ==> vals@[i].address@ != address@,
        },
{
    let n = vals.len();
    let mut i: usize = 0;
    while i < n
        invariant
            n == vals@.len(),
            0 <= i <= n,
            forall|j: int| 0 <= j < i ==> vals@[j].address@ != address@,
        decreases n - i,
    {
        if vals[i].address == *address {
            return Some(i);
        }
        i = i + 1;
    }
    None
}

/// Upserts every entry of `params`, in order, into the delegates.
pub(crate) fn upsert_validators(vals: &mut Vec<ValidatorInfo>, params: &Vec<ValidatorParams>, now: u64)
    requires
        addresses_unique(old(vals)@),
    ensures
        addresses_unique(final(vals)@),
        final(vals)@ == upsert_all(old(vals)@, params@, now),
{
    let ghost start = vals@;
    let n = params.len();
    let mut i: usize = 0;
    proof {
        assert(params@.take(0) =~= Seq::<ValidatorParams>::empty());
    }
    while i < n
        invariant
            n == params@.len(),
            0 <= i <= n,
            addresses_unique(vals@),
            vals@ == upsert_all(start, params@.take(i as int), now),
        decreases n - i,
    {
        let p = &params[i];
        let ghost before = vals@;
        proof {
            assert(params@.take(i as int + 1).drop_last() =~= params@.take(i as int));
        }
        match find_validator(vals, &p.address) {
            Some(k) => {
                proof {
                    let c = index_of_address(before, p.address@);
                    assert(0 <= c < before.len() && before[c].address@ == p.address@);
                    assert(c == k as int);
                }
                let v = &vals[k];
                let updated = ValidatorInfo {
                    address: v.address.clone(),
                    delegated_amount: v.delegated_amount,
                    weight: p.weight,
                    last_reward_claim: v.last_reward_claim,
                    slashing_events: v.slashing_events,
                    uptime_percentage: v.uptime_percentage,
                    commission_rate: v.commission_rate,
                    is_active: true,
                };
                vals.set(k, updated);
            },
            None => {
                vals.push(
                    ValidatorInfo {
                        address: p.address.clone(),
                        delegated_amount: 0,
                        weight: p.weight,
                        last_reward_claim: now,
                        slashing_events: 0,
                        uptime_percentage: Decimal::percent(100),
                        commission_rate: Decimal::percent(10),
                        is_active: true,
                    },
                );
            },
        }
        i = i + 1;
    }
    proof {
        assert(params@.take(n as int) =~= params@);
    }
}

// ---------------------------------------------------------------------------
// Operations.
// ---------------------------------------------------------------------------

/// Stakes the principal attached to the call.
pub fn execute_stake(pool: &mut Pool, env: &Env, info: &MessageInfo) -> (r: Result<
    Response,
    ContractError,
>)
    requires
        old(pool).wf(),
    ensures
        final(pool).wf(),
        stake_spec(*old(pool), *final(pool), *env, *info, r),
{
    ensure_not_paused(&pool.config)?;
    let regen_amount = extract_uregen_amount(info);
    if regen_amount < pool.config.min_delegation {
        return Err(
            ContractError::InsufficientStake {
                minimum: pool.config.min_delegation,
                received: regen_amount,
            },
        );
    }
    let rate = calculate_exchange_rate(
        pool.state.total_regen_staked,
        pool.state.total_dregen_supply,
        env.accrued_rewards,
    )?;
    proof {
        lemma_fee_at_most_amount(regen_amount as int, pool.config.fee_rate.atomics as int);
    }
    let fee_amount = calculate_fee(regen_amount, pool.config.fee_rate)?;
    let net = regen_amount - fee_amount;
    let minted = calculate_dregen_mint_amount(net, rate)?;
    let (amounts, dist) = plan_shift(&pool.validators, false, net)?;
    let staked = match pool.state.total_regen_staked.checked_add(net) {
        Some(v) => v,
        None => return Err(ContractError::Overflow {}),
    };
    let supply = match pool.state.total_dregen_supply.checked_add(minted) {
        Some(v) => v,
        None => return Err(ContractError::Overflow {}),
    };
    let new_rate = calculate_exchange_rate(staked, supply, env.accrued_rewards)?;

    let mut messages = transfer_messages(&dist, false);
    messages.push(
        Effect::Mint {
            token: pool.config.dregen_token.clone(),
            recipient: info.sender.clone(),
            amount: minted,
        },
    );
    if fee_amount != 0 {
        messages.push(Effect::Send { to_address: pool.config.admin.clone(), amount: fee_amount });
    }
    let ghost old_pool = *pool;
    let validators = apply_amounts(&pool.validators, &amounts);
    pool.validators = validators;
    pool.state.total_regen_staked = staked;
    pool.state.total_dregen_supply = supply;
    pool.state.exchange_rate = new_rate;
    pool.state.last_update_time = env.block_time;
    proof {
        assert(pool.validators@ =~= shift_all(old_pool.validators@, false, net as int));
        assert(messages@ =~= transfer_msgs(
            distribution(net as int, targets(old_pool.validators@, false)),
            false,
        ) + seq![
            Effect::Mint {
                token: old_pool.config.dregen_token,
                recipient: info.sender,
                amount: minted,
            },
        ] + (if fee_amount > 0 {
            seq![Effect::Send { to_address: old_pool.config.admin, amount: fee_amount }]
        } else {
            Seq::empty()
        }));
    }
    Ok(
        Response {
            messages,
            event: Event::Stake {
                staker: info.sender.clone(),
                regen_amount,
                dregen_amount: minted,
                exchange_rate: rate,
                fee_amount,
            },
        },
    )
}

/// Starts redeeming `dregen_amount` derivative tokens of the caller.
pub fn execute_unbond(pool: &mut Pool, env: &Env, info: &MessageInfo, dregen_amount: u128) -> (r:
    Result<Response, ContractError>)
    requires
        old(pool).wf(),
    ensures
        final(pool).wf(),
        unbond_spec(*old(pool), *final(pool), *env, *info, dregen_amount, r),
{
    ensure_not_paused(&pool.config)?;
    if dregen_amount == 0 {
        return Err(ContractError::InvalidUnbondAmount {});
    }
    let rate = calculate_exchange_rate(
        pool.state.total_regen_staked,
        pool.state.total_dregen_supply,
        env.accrued_rewards,
    )?;
    let gross = calculate_regen_return_amount(dregen_amount, rate)?;
    proof {
        lemma_fee_at_most_amount(gross as int, pool.config.fee_rate.atomics as int);
    }
    let fee_amount = calculate_fee(gross, pool.config.fee_rate)?;
    let net = gross - fee_amount;
    let (amounts, dist) = plan_shift(&pool.validators, true, net)?;
    let completion_time = match env.block_time.checked_add(pool.config.unbonding_period) {
        Some(t) => t,
        None => return Err(ContractError::Overflow {}),
    };
    let unbonding_id = pool.next_unbonding_id;
    let next_id = match unbonding_id.checked_add(1) {
        Some(v) => v,
        None => return Err(ContractError::Overflow {}),
    };
    let staked = match pool.state.total_regen_staked.checked_sub(net) {
        Some(v) => v,
        None => return Err(ContractError::Underflow {}),
    };
    let supply = match pool.state.total_dregen_supply.checked_sub(dregen_amount) {
        Some(v) => v,
        None => return Err(ContractError::Underflow {}),
    };
    let pending = match pool.state.pending_unbonding.checked_add(net) {
        Some(v) => v,
        None => return Err(ContractError::Overflow {}),
    };
    let new_rate = calculate_exchange_rate(staked, supply, env.accrued_rewards)?;

    let mut messages = transfer_messages(&dist, true);
    messages.push(
        Effect::BurnFrom {
            token: pool.config.dregen_token.clone(),
            owner: info.sender.clone(),
            amount: dregen_amount,
        },
    );
    let ghost old_pool = *pool;
    let validators = apply_amounts(&pool.validators, &amounts);
    pool.validators = validators;
    pool.unbonding_requests.push(
        UnbondingRequest {
            user: info.sender.clone(),
            dregen_amount,
            regen_amount: net,
            completion_time,
            id: unbonding_id,
        },
    );
    pool.next_unbonding_id = next_id;
    pool.state.total_regen_staked = staked;
    pool.state.total_dregen_supply = supply;
    pool.state.pending_unbonding = pending;
    pool.state.exchange_rate = new_rate;
    pool.state.last_update_time = env.block_time;
    proof {
        assert(pool.validators@ =~= shift_all(old_pool.validators@, true, net as int));
        assert(messages@ =~= transfer_msgs(
            distribution(net as int, targets(old_pool.validators@, true)),
            true,
        ) + seq![
            Effect::BurnFrom {
                token: old_pool.config.dregen_token,
                owner: info.sender,
                amount: dregen_amount,
            },
        ]);
    }
    Ok(
        Response {
            messages,
            event: Event::Unbond {
                user: info.sender.clone(),
                dregen_amount,
                regen_amount: net,
                unbonding_id,
                completion_time,
                exchange_rate: rate,
            },
        },
    )
}

/// Where the request with `id` stands in the queue.
fn find_request(reqs: &Vec<UnbondingRequest>, id: u64) -> (r: Option<usize>)
    ensures
        match r {
            Some(k) => k < reqs@.len() && reqs@[k as int].id == id,
            None => forall|i: int| 0 <= i < reqs@.len() ==> reqs@[i].id != id,
        },
{
    let n = reqs.len();
    let mut i: usize = 0;
    while i < n
        invariant
            n == reqs@.len(),
            0 <= i <= n,
            forall|j: int| 0 <= j < i ==> reqs@[j].id != id,
        decreases n - i,
    {
        if reqs[i].id == id {
            return Some(i);
        }
        i = i + 1;
    }
    None
}

/// Pays out a completed unbonding request of the caller and removes it.
pub fn execute_claim_unbonding(pool: &mut Pool, env: &Env, info: &MessageInfo, unbonding_id: u64)
    -> (r: Result<Response, ContractError>)
    requires
        old(pool).wf(),
    ensures
        final(pool).wf(),
        claim_spec(*old(pool), *final(pool), *env, *info, unbonding_id, r),
{
    let k = match find_request(&pool.unbonding_requests, unbonding_id) {
        Some(k) => k,
        None => return Err(ContractError::NotFound { unbonding_id }),
    };
    proof {
        let reqs = pool.unbonding_requests@;
        let c = position_of(reqs, unbonding_id);
        assert(0 <= c < reqs.len() && reqs[c].id == unbonding_id);
        if c != k as int {
            if c < k as int {
                assert(reqs[c].id < reqs[k as int].id);
            } else {
                assert(reqs[k as int].id < reqs[c].id);
            }
        }
    }
    let req = &pool.unbonding_requests[k];
    if req.user != info.sender {
        return Err(ContractError::Unauthorized {});
    }
    if env.block_time < req.completion_time {
        return Err(ContractError::UnbondingNotComplete { completion_time: req.completion_time });
    }
    let amount = req.regen_amount;
    let pending = match pool.state.pending_unbonding.checked_sub(amount) {
        Some(v) => v,
        None => return Err(ContractError::Underflow {}),
    };
    let ghost old_pool = *pool;
    let mut messages: Vec<Effect> = Vec::new();
    messages.push(Effect::Send { to_address: info.sender.clone(), amount });
    proof {
        assert(messages@ =~= seq![Effect::Send { to_address: info.sender, amount }]);
    }
    pool.unbonding_requests.remove(k);
    pool.state.pending_unbonding = pending;
    proof {
        let reqs = old_pool.unbonding_requests@;
        let rest = pool.unbonding_requests@;
        assert forall|i: int, j: int| 0 <= i < j < rest.len() implies rest[i].id < rest[j].id by {
            let a = if i < k as int { i } else { i + 1 };
            let b = if j < k as int { j } else { j + 1 };
            assert(rest[i] == reqs[a] && rest[j] == reqs[b]);
        }
        assert forall|i: int| 0 <= i < rest.len() implies rest[i].id < pool.next_unbonding_id by {
            let a = if i < k as int { i } else { i + 1 };
            assert(rest[i] == reqs[a]);
        }
    }
    Ok(
        Response {
            messages,
            event: Event::ClaimUnbonding {
                user: info.sender.clone(),
                unbonding_id,
                regen_amount: amount,
            },
        },
    )
}

/// Asks every active delegate for its rewards. Admin only.
pub fn execute_claim_rewards(pool: &mut Pool, env: &Env, info: &MessageInfo) -> (r: Result<
    Response,
    ContractError,
>)
    requires
        old(pool).wf(),
    ensures
        final(pool).wf(),
        claim_rewards_spec(*old(pool), *final(pool), *info, r),
{
    ensure_admin(&info.sender, &pool.config)?;
    let active = get_active_validators(&pool.validators);
    let n = active.len();
    let mut messages: Vec<Effect> = Vec::new();
    let mut k: usize = 0;
    while k < n
        invariant
            n == active@.len(),
            0 <= k <= n,
            messages@ == Seq::new(
                k as nat,
                |j: int| Effect::WithdrawDelegatorReward { validator: active@[j].0 },
            ),
        decreases n - k,
    {
        messages.push(Effect::WithdrawDelegatorReward { validator: active[k].0.clone() });
        k = k + 1;
        proof {
            assert(messages@ =~= Seq::new(
                k as nat,
                |j: int| Effect::WithdrawDelegatorReward { validator: active@[j].0 },
            ));
        }
    }
    Ok(Response { messages, event: Event::ClaimRewards { claimer: info.sender.clone() } })
}

/// Rebalancing is not yet a policy of the pool: for the admin it changes
/// nothing.
pub fn execute_rebalance(pool: &mut Pool, env: &Env, info: &MessageInfo) -> (r: Result<
    Response,
    ContractError,
>)
    requires
        old(pool).wf(),
    ensures
        final(pool).wf(),
        admin_config_spec(*old(pool), *final(pool), *info, old(pool).config, Event::Rebalance {}, r),
{
    ensure_admin(&info.sender, &pool.config)?;
    Ok(Response { messages: Vec::new(), event: Event::Rebalance {} })
}

/// Replaces the active validator set. Admin only.
pub fn execute_update_validators(
    pool: &mut Pool,
    env: &Env,
    info: &MessageInfo,
    validators: Vec<ValidatorParams>,
) -> (r: Result<Response, ContractError>)
    requires
        old(pool).wf(),
    ensures
        final(pool).wf(),
        update_validators_spec(*old(pool), *final(pool), *env, *info, validators@, r),
{
    ensure_admin(&info.sender, &pool.config)?;
    if validators.len() as u64 > pool.config.max_validators as u64 {
        return Err(
            ContractError::TooManyValidators {
                max_validators: pool.config.max_validators,
                requested: validators.len() as u64,
            },
        );
    }
    let n = pool.validators.len();
    let mut all: Vec<ValidatorInfo> = Vec::new();
    let mut i: usize = 0;
    while i < n
        invariant
            n == pool.validators@.len(),
            0 <= i <= n,
            all@ == deactivated(pool.validators@).take(i as int),
        decreases n - i,
    {
        let v = &pool.validators[i];
        all.push(
            ValidatorInfo {
                address: v.address.clone(),
                delegated_amount: v.delegated_amount,
                weight: v.weight,
                last_reward_claim: v.last_reward_claim,
                slashing_events: v.slashing_events,
                uptime_percentage: v.uptime_percentage,
                commission_rate: v.commission_rate,
                is_active: false,
            },
        );
        i = i + 1;
        proof {
            assert(all@ =~= deactivated(pool.validators@).take(i as int));
        }
    }
    proof {
        assert(all@ =~= deactivated(pool.validators@));
    }
    upsert_validators(&mut all, &validators, env.block_time);
    pool.validators = all;
    let count = pool.validators.len() as u64;
    Ok(Response { messages: Vec::new(), event: Event::UpdateValidators { count } })
}

/// Pauses every stake and unbond. Admin only.
pub fn execute_pause(pool: &mut Pool, env: &Env, info: &MessageInfo) -> (r: Result<
    Response,
    ContractError,
>)
    requires
        old(pool).wf(),
    ensures
        final(pool).wf(),
        admin_config_spec(
            *old(pool),
            *final(pool),
            *info,
            Config { pause_contract: true, ..old(pool).config },
            Event::Pause {},
            r,
        ),
{
    ensure_admin(&info.sender, &pool.config)?;
    pool.config.pause_contract = true;
    Ok(Response { messages: Vec::new(), event: Event::Pause {} })
}

/// Lifts a pause. Admin only.
pub fn execute_resume(pool: &mut Pool, env: &Env, info: &MessageInfo) -> (r: Result<
    Response,
    ContractError,
>)
    requires
        old(pool).wf(),
    ensures
        final(pool).wf(),
        admin_config_spec(
            *old(pool),
            *final(pool),
            *info,
            Config { pause_contract: false, ..old(pool).config },
            Event::Resume {},
            r,
        ),
{
    ensure_admin(&info.sender, &pool.config)?;
    pool.config.pause_contract = false;
    Ok(Response { messages: Vec::new(), event: Event::Resume {} })
}

/// Replaces the given configuration fields. Admin only; a fee rate above 20%
/// fails `InvalidFeeRate` and changes nothing.
pub fn execute_update_config(
    pool: &mut Pool,
    env: &Env,
    info: &MessageInfo,
    admin: Option<String>,
    fee_rate: Option<Decimal>,
    max_validators: Option<u32>,
    dregen_token: Option<String>,
) -> (r: Result<Response, ContractError>)
    requires
        old(pool).wf(),
    ensures
        final(pool).wf(),
        update_config_spec(
            *old(pool),
            *final(pool),
            *info,
            admin,
            fee_rate,
            max_validators,
            dregen_token,
            r,
        ),
{
    ensure_admin(&info.sender, &pool.config)?;
    if let Some(f) = fee_rate {
        if f.atomics > MAX_FEE_ATOMICS {
            return Err(ContractError::InvalidFeeRate {});
        }
        pool.config.fee_rate = f;
    }
    if let Some(a) = admin {
        pool.config.admin = a;
    }
    if let Some(m) = max_validators {
        pool.config.max_validators = m;
    }
    if let Some(t) = dregen_token {
        pool.config.dregen_token = t;
    }
    Ok(Response { messages: Vec::new(), event: Event::UpdateConfig {} })
}

} // verus!
