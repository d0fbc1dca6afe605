use vstd::prelude::*;

use crate::decimal::Decimal;
use crate::error::ContractError;
use crate::transitions::{
    current_rate, current_rate_fits, pool_fee, stake_minted, stake_spec, unbond_gross, unbond_net,
    unbond_spec,
};
use crate::helpers::uregen_amount;
use crate::math::{
    calculate_dregen_mint_amount, calculate_exchange_rate, calculate_fee,
    calculate_regen_return_amount, lemma_fee_at_most_amount,
};
use crate::msg::{
    ConfigResponse, Env, Event, ExchangeRateResponse, MessageInfo, Response, SimulateStakeResponse, SimulateUnbondResponse,
    StateResponse, UnbondingResponse, ValidatorsResponse,
};
use crate::state::{Pool, UnbondingRequest, ValidatorInfo};

verus! {

pub open spec fn config_response(p: Pool) -> ConfigResponse {
    ConfigResponse {
        admin: p.config.admin,
        dregen_token: p.config.dregen_token,
        fee_rate: p.config.fee_rate,
        unbonding_period: p.config.unbonding_period,
        max_validators: p.config.max_validators,
        min_delegation: p.config.min_delegation,
        pause_contract: p.config.pause_contract,
    }
}

pub open spec fn state_response(p: Pool) -> StateResponse {
    StateResponse {
        total_regen_staked: p.state.total_regen_staked,
        total_dregen_supply: p.state.total_dregen_supply,
        exchange_rate: p.state.exchange_rate,
        last_update_time: p.state.last_update_time,
        total_rewards_claimed: p.state.total_rewards_claimed,
        pending_unbonding: p.state.pending_unbonding,
    }
}

/// The live exchange rate, as of `env`.
pub open spec fn exchange_rate_result(p: Pool, env: Env) -> Result<
    ExchangeRateResponse,
    ContractError,
> {
    if current_rate_fits(p, env) {
        Ok(
            ExchangeRateResponse {
                rate: Decimal { atomics: current_rate(p, env) as u128 },
                last_updated: env.block_time,
            },
        )
    } else {
        Err(ContractError::Overflow {})
    }
}

/// What a stake of `amount` would mint, at which rate, for which fee: the
/// same quantities a stake computes.
pub open spec fn simulate_stake_result(p: Pool, env: Env, amount: int) -> Result<
    SimulateStakeResponse,
    ContractError,
> {
    if !current_rate_fits(p, env) {
        Err(ContractError::Overflow {})
    } else if current_rate(p, env) == 0 {
        Err(ContractError::DivideByZero {})
    } else if stake_minted(p, env, amount) > u128::MAX {
        Err(ContractError::Overflow {})
    } else {
        Ok(
            SimulateStakeResponse {
                dregen_amount: stake_minted(p, env, amount) as u128,
                exchange_rate: Decimal { atomics: current_rate(p, env) as u128 },
                fee_amount: pool_fee(p, amount) as u128,
            },
        )
    }
}

/// What an unbond of `dregen` would owe, when, for which fee: the same
/// quantities an unbond computes.
pub open spec fn simulate_unbond_result(p: Pool, env: Env, dregen: int) -> Result<
    SimulateUnbondResponse,
    ContractError,
> {
    if !current_rate_fits(p, env) || unbond_gross(p, env, dregen) > u128::MAX || env.block_time
        + p.config.unbonding_period > u64::MAX {
        Err(ContractError::Overflow {})
    } else {
        Ok(
            SimulateUnbondResponse {
                regen_amount: unbond_net(p, env, dregen) as u128,
                completion_time: (env.block_time + p.config.unbonding_period) as u64,
                fee_amount: pool_fee(p, unbond_gross(p, env, dregen)) as u128,
            },
        )
    }
}

/// The requests of `user`, in queue order.
pub open spec fn requests_of(reqs: Seq<UnbondingRequest>, user: Seq<char>) -> Seq<
    UnbondingRequest,
>
    decreases reqs.len(),
{
    if reqs.len() == 0 {
        reqs
    } else if reqs.last().user@ == user {
        requests_of(reqs.drop_last(), user).push(reqs.last())
    } else {
        requests_of(reqs.drop_last(), user)
    }
}

pub fn query_config(pool: &Pool) -> (r: ConfigResponse)
    ensures
        r == config_response(*pool),
{
    let c = &pool.config;
    ConfigResponse {
        admin: c.admin.clone(),
        dregen_token: c.dregen_token.clone(),
        fee_rate: c.fee_rate,
        unbonding_period: c.unbonding_period,
        max_validators: c.max_validators,
        min_delegation: c.min_delegation,
        pause_contract: c.pause_contract,
    }
}

pub fn query_state(pool: &Pool) -> (r: StateResponse)
    ensures
        r == state_response(*pool),
{
    let st = &pool.state;
    StateResponse {
        total_regen_staked: st.total_regen_staked,
        total_dregen_supply: st.total_dregen_supply,
        exchange_rate: st.exchange_rate,
        last_update_time: st.last_update_time,
        total_rewards_claimed: st.total_rewards_claimed,
        pending_unbonding: st.pending_unbonding,
    }
}

pub fn query_exchange_rate(pool: &Pool, env: &Env) -> (r: Result<
    ExchangeRateResponse,
    ContractError,
>)
    ensures
        r == exchange_rate_result(*pool, *env),
{
    let rate = calculate_exchange_rate(
        pool.state.total_regen_staked,
        pool.state.total_dregen_supply,
        env.accrued_rewards,
    )?;
    Ok(ExchangeRateResponse { rate, last_updated: env.block_time })
}

pub fn query_validators(pool: &Pool) -> (r: ValidatorsResponse)
    ensures
        r.validators@ == pool.validators@,
{
    let n = pool.validators.len();
    let mut out: Vec<ValidatorInfo> = Vec::new();
    let mut i: usize = 0;
    while i < n
        invariant
            n == pool.validators@.len(),
            0 <= i <= n,
            out@ == pool.validators@.take(i as int),
        decreases n - i,
    {
        out.push(pool.validators[i].copy());
        i = i + 1;
        proof {
            assert(out@ =~= pool.validators@.take(i as int));
        }
    }
    proof {
        assert(out@ =~= pool.validators@);
    }
    ValidatorsResponse { validators: out }
}

/// The open requests of `user`; a linear scan of the queue.
pub fn query_unbonding(pool: &Pool, user: &String) -> (r: UnbondingResponse)
    ensures
        r.requests@ == requests_of(pool.unbonding_requests@, user@),
{
    let reqs = &pool.unbonding_requests;
    let n = reqs.len();
    let mut out: Vec<UnbondingRequest> = Vec::new();
    let mut i: usize = 0;
    proof {
        assert(reqs@.take(0) =~= Seq::<UnbondingRequest>::empty());
    }
    while i < n
        invariant
            n == reqs@.len(),
            0 <= i <= n,
            out@ == requests_of(reqs@.take(i as int), user@),
        decreases n - i,
    {
        proof {
            assert(reqs@.take(i as int + 1).drop_last() =~= reqs@.take(i as int));
        }
        if reqs[i].user == *user {
            out.push(reqs[i].copy());
        }
        i = i + 1;
    }
    proof {
        assert(reqs@.take(n as int) =~= reqs@);
    }
    UnbondingResponse { requests: out }
}

/// Estimates a stake of `amount` with the stake's own arithmetic.
pub fn query_simulate_stake(pool: &Pool, env: &Env, amount: u128) -> (r: Result<
    SimulateStakeResponse,
    ContractError,
>)
    requires
        pool.wf(),
    ensures
        r == simulate_stake_result(*pool, *env, amount as int),
{
    let exchange_rate = calculate_exchange_rate(
        pool.state.total_regen_staked,
        pool.state.total_dregen_supply,
        env.accrued_rewards,
    )?;
    proof {
        lemma_fee_at_most_amount(amount as int, pool.config.fee_rate.atomics as int);
    }
    let fee_amount = calculate_fee(amount, pool.config.fee_rate)?;
    let net = amount - fee_amount;
    let dregen_amount = calculate_dregen_mint_amount(net, exchange_rate)?;
    Ok(SimulateStakeResponse { dregen_amount, exchange_rate, fee_amount })
}

/// Estimates an unbond of `dregen_amount` with the unbond's own arithmetic.
pub fn query_simulate_unbond(pool: &Pool, env: &Env, dregen_amount: u128) -> (r: Result<
    SimulateUnbondResponse,
    ContractError,
>)
    requires
        pool.wf(),
    ensures
        r == simulate_unbond_result(*pool, *env, dregen_amount as int),
{
    let exchange_rate = calculate_exchange_rate(
        pool.state.total_regen_staked,
        pool.state.total_dregen_supply,
        env.accrued_rewards,
    )?;
    let gross = calculate_regen_return_amount(dregen_amount, exchange_rate)?;
    proof {
        lemma_fee_at_most_amount(gross as int, pool.config.fee_rate.atomics as int);
    }
    let fee_amount = calculate_fee(gross, pool.config.fee_rate)?;
    let regen_amount = gross - fee_amount;
    let completion_time = match env.block_time.checked_add(pool.config.unbonding_period) {
        Some(t) => t,
        None => return Err(ContractError::Overflow {}),
    };
    Ok(SimulateUnbondResponse { regen_amount, completion_time, fee_amount })
}

/// A stake that succeeds mints, at the rate and for the fee, exactly what
/// simulating it beforehand announced.
pub proof fn lemma_simulate_stake_matches(
    old: Pool,
    new: Pool,
    env: Env,
    info: MessageInfo,
    resp: Response,
)
    requires
        stake_spec(old, new, env, info, Ok(resp)),
    ensures
        simulate_stake_result(old, env, uregen_amount(info.funds@)) matches Ok(s) && resp.event
            == (Event::Stake {
            staker: info.sender,
            regen_amount: uregen_amount(info.funds@) as u128,
            dregen_amount: s.dregen_amount,
            exchange_rate: s.exchange_rate,
            fee_amount: s.fee_amount,
        }),
{
}

/// An unbond that succeeds owes, at the completion time, exactly what
/// simulating it beforehand announced.
pub proof fn lemma_simulate_unbond_matches(
    old: Pool,
    new: Pool,
    env: Env,
    info: MessageInfo,
    dregen: u128,
    resp: Response,
)
    requires
        unbond_spec(old, new, env, info, dregen, Ok(resp)),
    ensures
        simulate_unbond_result(old, env, dregen as int) matches Ok(s) && resp.event matches Event::Unbond {
            regen_amount,
            completion_time,
            ..
        } && regen_amount == s.regen_amount && completion_time == s.completion_time,
{
}

} // verus!
