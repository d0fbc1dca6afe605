use vstd::prelude::*;

use crate::conservation::{balanced, lemma_new_pool_balanced};
use crate::decimal::{scale, Decimal};
use crate::error::ContractError;
use crate::execute::{
    execute_claim_rewards, execute_claim_unbonding, execute_pause, execute_rebalance,
    execute_resume, execute_stake, execute_unbond, execute_update_config, execute_update_validators,
    upsert_validators,
};
use crate::transitions::{
    admin_config_spec, claim_rewards_spec, claim_spec, stake_spec, unbond_spec, update_config_spec,
    update_validators_spec, upsert_all,
};
use crate::msg::{
    Env, Event, ExecuteMsg, InstantiateMsg, MessageInfo, QueryMsg, QueryResponse, Response,
};
use crate::query::{
    config_response, exchange_rate_result, query_config, query_exchange_rate,
    query_simulate_stake, query_simulate_unbond, query_state, query_unbonding, query_validators,
    requests_of, simulate_stake_result, simulate_unbond_result, state_response,
};
use crate::state::{Config, Pool, State, ValidatorInfo, MAX_FEE_ATOMICS};

verus! {

/// The configuration a new pool starts with.
pub open spec fn initial_config(msg: InstantiateMsg) -> Config {
    Config {
        admin: msg.admin,
        dregen_token: match msg.dregen_token {
            Some(t) => t,
            None => msg.admin,
        },
        fee_rate: msg.fee_rate,
        unbonding_period: msg.unbonding_period,
        max_validators: msg.max_validators,
        min_delegation: msg.min_delegation,
        pause_contract: false,
    }
}

/// Creates a pool: empty totals at rate one, the given delegates active, no
/// requests. A fee rate above 20% fails `InvalidFeeRate`.
pub fn instantiate(env: &Env, info: &MessageInfo, msg: InstantiateMsg) -> (r: Result<
    (Pool, Response),
    ContractError,
>)
    ensures
        match r {
            Err(e) => msg.fee_rate.atomics > MAX_FEE_ATOMICS && e == ContractError::InvalidFeeRate {},
            Ok((pool, resp)) => {
                &&& msg.fee_rate.atomics <= MAX_FEE_ATOMICS
                &&& pool.wf()
                &&& balanced(pool)
                &&& pool.config == initial_config(msg)
                &&& pool.state == State {
                    total_regen_staked: 0,
                    total_dregen_supply: 0,
                    exchange_rate: Decimal { atomics: scale() as u128 },
                    last_update_time: env.block_time,
                    total_rewards_claimed: 0,
                    pending_unbonding: 0,
                }
                &&& pool.validators@ == upsert_all(
                    Seq::empty(),
                    msg.validators@,
                    env.block_time,
                )
                &&& pool.unbonding_requests@ == Seq::<crate::state::UnbondingRequest>::empty()
                &&& pool.next_unbonding_id == 0
                &&& resp.messages@.len() == 0
                &&& resp.event == Event::Instantiate { admin: msg.admin }
            },
        },
{
    if msg.fee_rate.atomics > MAX_FEE_ATOMICS {
        return Err(ContractError::InvalidFeeRate {});
    }
    let admin = msg.admin.clone();
    let dregen_token = match msg.dregen_token {
        Some(t) => t,
        None => msg.admin.clone(),
    };
    let config = Config {
        admin: msg.admin,
        dregen_token,
        fee_rate: msg.fee_rate,
        unbonding_period: msg.unbonding_period,
        max_validators: msg.max_validators,
        min_delegation: msg.min_delegation,
        pause_contract: false,
    };
    let state = State {
        total_regen_staked: 0,
        total_dregen_supply: 0,
        exchange_rate: Decimal::one(),
        last_update_time: env.block_time,
        total_rewards_claimed: 0,
        pending_unbonding: 0,
    };
    let mut validators: Vec<ValidatorInfo> = Vec::new();
    upsert_validators(&mut validators, &msg.validators, env.block_time);
    proof {
        assert(validators@ =~= upsert_all(Seq::empty(), msg.validators@, env.block_time));
        lemma_new_pool_balanced(msg.validators@, env.block_time);
    }
    let pool = Pool {
        config,
        state,
        validators,
        unbonding_requests: Vec::new(),
        next_unbonding_id: 0,
    };
    Ok((pool, Response { messages: Vec::new(), event: Event::Instantiate { admin } }))
}

/// What one mutating operation does, by message.
pub open spec fn execute_spec(
    old: Pool,
    new: Pool,
    env: Env,
    info: MessageInfo,
    msg: ExecuteMsg,
    r: Result<Response, ContractError>,
) -> bool {
    match msg {
        ExecuteMsg::Stake {  } => stake_spec(old, new, env, info, r),
        ExecuteMsg::Unbond { dregen_amount } => unbond_spec(
            old,
            new,
            env,
            info,
            dregen_amount,
            r,
        ),
        ExecuteMsg::ClaimUnbonding { unbonding_id } => claim_spec(
            old,
            new,
            env,
            info,
            unbonding_id,
            r,
        ),
        ExecuteMsg::Rebalance {  } => admin_config_spec(
            old,
            new,
            info,
            old.config,
            Event::Rebalance {},
            r,
        ),
        ExecuteMsg::ClaimRewards {  } => claim_rewards_spec(old, new, info, r),
        ExecuteMsg::UpdateValidators { validators } => update_validators_spec(
            old,
            new,
            env,
            info,
            validators@,
            r,
        ),
        ExecuteMsg::Pause {  } => admin_config_spec(
            old,
            new,
            info,
            Config { pause_contract: true, ..old.config },
            Event::Pause {},
            r,
        ),
        ExecuteMsg::Resume {  } => admin_config_spec(
            old,
            new,
            info,
            Config { pause_contract: false, ..old.config },
            Event::Resume {},
            r,
        ),
        ExecuteMsg::UpdateConfig { admin, fee_rate, max_validators, dregen_token } =>
            update_config_spec(
            old,
            new,
            info,
            admin,
            fee_rate,
            max_validators,
            dregen_token,
            r,
        ),
    }
}

/// Runs one mutating operation.
pub fn execute(pool: &mut Pool, env: &Env, info: &MessageInfo, msg: ExecuteMsg) -> (r: Result<
    Response,
    ContractError,
>)
    requires
        old(pool).wf(),
    ensures
        final(pool).wf(),
        execute_spec(*old(pool), *final(pool), *env, *info, msg, r),
{
    match msg {
        ExecuteMsg::Stake {  } => execute_stake(pool, env, info),
        ExecuteMsg::Unbond { dregen_amount } => execute_unbond(pool, env, info, dregen_amount),
        ExecuteMsg::ClaimUnbonding { unbonding_id } => execute_claim_unbonding(
            pool,
            env,
            info,
            unbonding_id,
        ),
        ExecuteMsg::Rebalance {  } => execute_rebalance(pool, env, info),
        ExecuteMsg::ClaimRewards {  } => execute_claim_rewards(pool, env, info),
        ExecuteMsg::UpdateValidators { validators } => execute_update_validators(
            pool,
            env,
            info,
            validators,
        ),
        ExecuteMsg::Pause {  } => execute_pause(pool, env, info),
        ExecuteMsg::Resume {  } => execute_resume(pool, env, info),
        ExecuteMsg::UpdateConfig { admin, fee_rate, max_validators, dregen_token } =>
            execute_update_config(pool, env, info, admin, fee_rate, max_validators, dregen_token),
    }
}

/// Answers one read-only query.
pub fn query(pool: &Pool, env: &Env, msg: QueryMsg) -> (r: Result<QueryResponse, ContractError>)
    requires
        pool.wf(),
    ensures
        match msg {
            QueryMsg::Config {  } => r == Ok::<QueryResponse, ContractError>(
                QueryResponse::Config(config_response(*pool)),
            ),
            QueryMsg::State {  } => r == Ok::<QueryResponse, ContractError>(
                QueryResponse::State(state_response(*pool)),
            ),
            QueryMsg::ExchangeRate {  } => match exchange_rate_result(*pool, *env) {
                Ok(x) => r == Ok::<QueryResponse, ContractError>(QueryResponse::ExchangeRate(x)),
                Err(e) => r == Err::<QueryResponse, ContractError>(e),
            },
            QueryMsg::Validators {  } => r matches Ok(QueryResponse::Validators(v))
                && v.validators@ == pool.validators@,
            QueryMsg::Unbonding { user } => r matches Ok(QueryResponse::Unbonding(u))
                && u.requests@ == requests_of(pool.unbonding_requests@, user@),
            QueryMsg::SimulateStake { amount } => match simulate_stake_result(
                *pool,
                *env,
                amount as int,
            ) {
                Ok(x) => r == Ok::<QueryResponse, ContractError>(QueryResponse::SimulateStake(x)),
                Err(e) => r == Err::<QueryResponse, ContractError>(e),
            },
            QueryMsg::SimulateUnbond { dregen_amount } => match simulate_unbond_result(
                *pool,
                *env,
                dregen_amount as int,
            ) {
                Ok(x) => r == Ok::<QueryResponse, ContractError>(QueryResponse::SimulateUnbond(x)),
                Err(e) => r == Err::<QueryResponse, ContractError>(e),
            },
        },
{
    match msg {
        QueryMsg::Config {  } => Ok(QueryResponse::Config(query_config(pool))),
        QueryMsg::State {  } => Ok(QueryResponse::State(query_state(pool))),
        QueryMsg::ExchangeRate {  } => {
            let x = query_exchange_rate(pool, env)?;
            Ok(QueryResponse::ExchangeRate(x))
        },
        QueryMsg::Validators {  } => Ok(QueryResponse::Validators(query_validators(pool))),
        QueryMsg::Unbonding { user } => Ok(QueryResponse::Unbonding(query_unbonding(pool, &user))),
        QueryMsg::SimulateStake { amount } => {
            let x = query_simulate_stake(pool, env, amount)?;
            Ok(QueryResponse::SimulateStake(x))
        },
        QueryMsg::SimulateUnbond { dregen_amount } => {
            let x = query_simulate_unbond(pool, env, dregen_amount)?;
            Ok(QueryResponse::SimulateUnbond(x))
        },
    }
}

} // verus!
