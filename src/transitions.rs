//! What each operation of the pool does, stated over the pool before and
//! after it: the order of its checks, the new state, and the response.
use vstd::prelude::*;

use crate::decimal::{scale, Decimal};
use crate::delegates::{shift_all, shifts_fit, targets};
use crate::distribution::{distribution, entry_weights, weight_total};
use crate::error::ContractError;
use crate::helpers::uregen_amount;
use crate::math::{exchange_rate_fits, exchange_rate_value, fee_value, mint_value, return_value};
use crate::msg::{Effect, Env, Event, MessageInfo, Response, ValidatorParams};
use crate::state::{Config, Pool, State, UnbondingRequest, ValidatorInfo, MAX_FEE_ATOMICS};

verus! {

/// The exchange rate an operation runs at.
pub open spec fn current_rate(p: Pool, env: Env) -> int {
    exchange_rate_value(
        p.state.total_regen_staked as int,
        p.state.total_dregen_supply as int,
        env.accrued_rewards as int,
    )
}

/// The current exchange rate can be formed.
pub open spec fn current_rate_fits(p: Pool, env: Env) -> bool {
    exchange_rate_fits(
        p.state.total_regen_staked as int,
        p.state.total_dregen_supply as int,
        env.accrued_rewards as int,
    )
}

/// The fee the pool takes from `amount`.
pub open spec fn pool_fee(p: Pool, amount: int) -> int {
    fee_value(amount, p.config.fee_rate.atomics as int)
}

/// Derivative minted for a stake of `amount`: its net after the fee, at the
/// current rate.
pub open spec fn stake_minted(p: Pool, env: Env, amount: int) -> int {
    mint_value(amount - pool_fee(p, amount), current_rate(p, env))
}

/// Principal that redeeming `dregen` is worth at the current rate, before the fee.
pub open spec fn unbond_gross(p: Pool, env: Env, dregen: int) -> int {
    return_value(dregen, current_rate(p, env))
}

/// Principal owed for redeeming `dregen`, after the fee.
pub open spec fn unbond_net(p: Pool, env: Env, dregen: int) -> int {
    unbond_gross(p, env, dregen) - pool_fee(p, unbond_gross(p, env, dregen))
}

/// One delegation (or undelegation) instruction per distribution entry.
pub open spec fn transfer_msgs(dist: Seq<(String, int)>, undelegate: bool) -> Seq<Effect> {
    Seq::new(
        dist.len(),
        |k: int|
            if undelegate {
                Effect::Undelegate { validator: dist[k].0, amount: dist[k].1 as u128 }
            } else {
                Effect::Delegate { validator: dist[k].0, amount: dist[k].1 as u128 }
            },
    )
}

/// The first check a stake of `amount` fails, if any.
pub open spec fn stake_error(p: Pool, env: Env, amount: int) -> Option<ContractError> {
    let net = amount - pool_fee(p, amount);
    let w = weight_total(entry_weights(targets(p.validators@, false)));
    if p.config.pause_contract {
        Some(ContractError::ContractPaused {})
    } else if amount < p.config.min_delegation {
        Some(
            ContractError::InsufficientStake {
                minimum: p.config.min_delegation,
                received: amount as u128,
            },
        )
    } else if !current_rate_fits(p, env) {
        Some(ContractError::Overflow {})
    } else if current_rate(p, env) == 0 {
        Some(ContractError::DivideByZero {})
    } else if stake_minted(p, env, amount) > u128::MAX {
        Some(ContractError::Overflow {})
    } else if w == 0 {
        Some(ContractError::ZeroWeight {})
    } else if w > u128::MAX || !shifts_fit(p.validators@, false, net) {
        Some(ContractError::Overflow {})
    } else if p.state.total_regen_staked + net > u128::MAX || p.state.total_dregen_supply
        + stake_minted(p, env, amount) > u128::MAX || !exchange_rate_fits(
        p.state.total_regen_staked + net,
        p.state.total_dregen_supply + stake_minted(p, env, amount),
        env.accrued_rewards as int,
    ) {
        Some(ContractError::Overflow {})
    } else {
        None
    }
}

/// What a stake does: on success the net principal is spread over the active
/// delegates by target weight, the totals grow by the net principal and the
/// minted derivative, the cached rate is recomputed from the new totals, and the response asks for the delegations, the mint to
/// the staker and, where there is one, the fee transfer to the admin. On
/// failure nothing changes.
pub open spec fn stake_spec(
    old: Pool,
    new: Pool,
    env: Env,
    info: MessageInfo,
    r: Result<Response, ContractError>,
) -> bool {
    let amount = uregen_amount(info.funds@);
    let fee = pool_fee(old, amount);
    let net = amount - fee;
    let minted = stake_minted(old, env, amount);
    let rate = current_rate(old, env);
    match r {
        Err(e) => stake_error(old, env, amount) == Some(e) && new == old,
        Ok(resp) => {
            &&& stake_error(old, env, amount) is None
            &&& new.config == old.config
            &&& new.unbonding_requests == old.unbonding_requests
            &&& new.next_unbonding_id == old.next_unbonding_id
            &&& new.validators@ == shift_all(old.validators@, false, net)
            &&& new.state == State {
                total_regen_staked: (old.state.total_regen_staked + net) as u128,
                total_dregen_supply: (old.state.total_dregen_supply + minted) as u128,
                exchange_rate: Decimal {
                    atomics: exchange_rate_value(
                        old.state.total_regen_staked + net,
                        old.state.total_dregen_supply + minted,
                        env.accrued_rewards as int,
                    ) as u128,
                },
                last_update_time: env.block_time,
                ..old.state
            }
            &&& resp.messages@ == transfer_msgs(
                distribution(net, targets(old.validators@, false)),
                false,
            ) + seq![
                Effect::Mint {
                    token: old.config.dregen_token,
                    recipient: info.sender,
                    amount: minted as u128,
                },
            ] + (if fee > 0 {
                seq![Effect::Send { to_address: old.config.admin, amount: fee as u128 }]
            } else {
                Seq::empty()
            })
            &&& resp.event == Event::Stake {
                staker: info.sender,
                regen_amount: amount as u128,
                dregen_amount: minted as u128,
                exchange_rate: Decimal { atomics: rate as u128 },
                fee_amount: fee as u128,
            }
        },
    }
}

/// The first check an unbond of `dregen` derivative fails, if any.
pub open spec fn unbond_error(p: Pool, env: Env, dregen: int) -> Option<ContractError> {
    let net = unbond_net(p, env, dregen);
    let w = weight_total(entry_weights(targets(p.validators@, true)));
    if p.config.pause_contract {
        Some(ContractError::ContractPaused {})
    } else if dregen == 0 {
        Some(ContractError::InvalidUnbondAmount {})
    } else if !current_rate_fits(p, env) || unbond_gross(p, env, dregen) > u128::MAX {
        Some(ContractError::Overflow {})
    } else if w == 0 {
        Some(ContractError::ZeroWeight {})
    } else if w > u128::MAX {
        Some(ContractError::Overflow {})
    } else if !shifts_fit(p.validators@, true, net) {
        Some(ContractError::Underflow {})
    } else if env.block_time + p.config.unbonding_period > u64::MAX || p.next_unbonding_id
        == u64::MAX {
        Some(ContractError::Overflow {})
    } else if p.state.total_regen_staked < net || p.state.total_dregen_supply < dregen {
        Some(ContractError::Underflow {})
    } else if p.state.pending_unbonding + net > u128::MAX || !exchange_rate_fits(
        p.state.total_regen_staked - net,
        p.state.total_dregen_supply - dregen,
        env.accrued_rewards as int,
    ) {
        Some(ContractError::Overflow {})
    } else {
        None
    }
}

/// What an unbond does: on success the net principal owed is taken from the
/// active delegates in proportion to what each holds, the totals shrink and
/// the cached rate is recomputed from them, the pending total grows, and a request with the next id, completing one
/// unbonding period from now, joins the queue; the response asks for the
/// undelegations and the burn of the caller's derivative. On failure nothing
/// changes.
pub open spec fn unbond_spec(
    old: Pool,
    new: Pool,
    env: Env,
    info: MessageInfo,
    dregen: u128,
    r: Result<Response, ContractError>,
) -> bool {
    let net = unbond_net(old, env, dregen as int);
    let rate = current_rate(old, env);
    let completion = (env.block_time + old.config.unbonding_period) as u64;
    match r {
        Err(e) => unbond_error(old, env, dregen as int) == Some(e) && new == old,
        Ok(resp) => {
            &&& unbond_error(old, env, dregen as int) is None
            &&& new.config == old.config
            &&& new.validators@ == shift_all(old.validators@, true, net)
            &&& new.unbonding_requests@ == old.unbonding_requests@.push(
                UnbondingRequest {
                    user: info.sender,
                    dregen_amount: dregen,
                    regen_amount: net as u128,
                    completion_time: completion,
                    id: old.next_unbonding_id,
                },
            )
            &&& new.next_unbonding_id == old.next_unbonding_id + 1
            &&& new.state == State {
                total_regen_staked: (old.state.total_regen_staked - net) as u128,
                total_dregen_supply: (old.state.total_dregen_supply - dregen) as u128,
                pending_unbonding: (old.state.pending_unbonding + net) as u128,
                exchange_rate: Decimal {
                    atomics: exchange_rate_value(
                        old.state.total_regen_staked - net,
                        old.state.total_dregen_supply - dregen,
                        env.accrued_rewards as int,
                    ) as u128,
                },
                last_update_time: env.block_time,
                ..old.state
            }
            &&& resp.messages@ == transfer_msgs(
                distribution(net, targets(old.validators@, true)),
                true,
            ) + seq![
                Effect::BurnFrom {
                    token: old.config.dregen_token,
                    owner: info.sender,
                    amount: dregen,
                },
            ]
            &&& resp.event == Event::Unbond {
                user: info.sender,
                dregen_amount: dregen,
                regen_amount: net as u128,
                unbonding_id: old.next_unbonding_id,
                completion_time: completion,
                exchange_rate: Decimal { atomics: rate as u128 },
            }
        },
    }
}

/// Where the request with `id` stands in the queue, or -1.
pub open spec fn position_of(reqs: Seq<UnbondingRequest>, id: u64) -> int {
    if exists|i: int| 0 <= i < reqs.len() && reqs[i].id == id {
        choose|i: int| 0 <= i < reqs.len() && reqs[i].id == id
    } else {
        -1
    }
}

/// The first check a claim of request `id` by `sender` fails, if any.
pub open spec fn claim_error(p: Pool, env: Env, sender: String, id: u64) -> Option<
    ContractError,
> {
    let k = position_of(p.unbonding_requests@, id);
    let req = p.unbonding_requests@[k];
    if k < 0 {
        Some(ContractError::NotFound { unbonding_id: id })
    } else if req.user@ != sender@ {
        Some(ContractError::Unauthorized {})
    } else if env.block_time < req.completion_time {
        Some(ContractError::UnbondingNotComplete { completion_time: req.completion_time })
    } else if p.state.pending_unbonding < req.regen_amount {
        Some(ContractError::Underflow {})
    } else {
        None
    }
}

/// What a claim does: on success the request leaves the queue, the pending
/// total drops by what it owed, and the response sends that principal to the
/// caller. On failure nothing changes.
pub open spec fn claim_spec(
    old: Pool,
    new: Pool,
    env: Env,
    info: MessageInfo,
    id: u64,
    r: Result<Response, ContractError>,
) -> bool {
    let k = position_of(old.unbonding_requests@, id);
    let req = old.unbonding_requests@[k];
    match r {
        Err(e) => claim_error(old, env, info.sender, id) == Some(e) && new == old,
        Ok(resp) => {
            &&& claim_error(old, env, info.sender, id) is None
            &&& new.config == old.config
            &&& new.validators == old.validators
            &&& new.unbonding_requests@ == old.unbonding_requests@.remove(k)
            &&& new.next_unbonding_id == old.next_unbonding_id
            &&& new.state == State {
                pending_unbonding: (old.state.pending_unbonding - req.regen_amount) as u128,
                ..old.state
            }
            &&& resp.messages@ == seq![
                Effect::Send { to_address: info.sender, amount: req.regen_amount },
            ]
            &&& resp.event == Event::ClaimUnbonding {
                user: info.sender,
                unbonding_id: id,
                regen_amount: req.regen_amount,
            }
        },
    }
}

/// What a reward claim does: for the admin, one withdrawal instruction per
/// active delegate, in order, and no change to the pool.
pub open spec fn claim_rewards_spec(
    old: Pool,
    new: Pool,
    info: MessageInfo,
    r: Result<Response, ContractError>,
) -> bool {
    let ts = targets(old.validators@, false);
    &&& new == old
    &&& match r {
        Err(e) => info.sender@ != old.config.admin@ && e == ContractError::Unauthorized {},
        Ok(resp) => {
            &&& info.sender@ == old.config.admin@
            &&& resp.messages@ == Seq::new(
                ts.len(),
                |k: int| Effect::WithdrawDelegatorReward { validator: ts[k].0 },
            )
            &&& resp.event == Event::ClaimRewards { claimer: info.sender }
        },
    }
}

/// A delegate registered from `params` at time `now`.
pub open spec fn new_validator(params: ValidatorParams, now: u64) -> ValidatorInfo {
    ValidatorInfo {
        address: params.address,
        delegated_amount: 0,
        weight: params.weight,
        last_reward_claim: now,
        slashing_events: 0,
        uptime_percentage: Decimal { atomics: scale() as u128 },
        commission_rate: Decimal { atomics: (scale() / 10) as u128 },
        is_active: true,
    }
}

/// Where the delegate with address `addr` stands, or -1.
pub open spec fn index_of_address(vals: Seq<ValidatorInfo>, addr: Seq<char>) -> int {
    if exists|i: int| 0 <= i < vals.len() && vals[i].address@ == addr {
        choose|i: int| 0 <= i < vals.len() && vals[i].address@ == addr
    } else {
        -1
    }
}

/// Every delegate marked inactive.
pub open spec fn deactivated(vals: Seq<ValidatorInfo>) -> Seq<ValidatorInfo> {
    Seq::new(vals.len(), |i: int| vals[i].with_active(false))
}

/// The delegate named by `params` made active with its weight: a known one
/// keeps its delegation and history, an unknown one joins at the end.
pub open spec fn upsert(vals: Seq<ValidatorInfo>, params: ValidatorParams, now: u64) -> Seq<
    ValidatorInfo,
> {
    let k = index_of_address(vals, params.address@);
    if k >= 0 {
        vals.update(k, ValidatorInfo { is_active: true, weight: params.weight, ..vals[k] })
    } else {
        vals.push(new_validator(params, now))
    }
}

/// Every entry of `ps` upserted, in order.
pub open spec fn upsert_all(vals: Seq<ValidatorInfo>, ps: Seq<ValidatorParams>, now: u64) -> Seq<
    ValidatorInfo,
>
    decreases ps.len(),
{
    if ps.len() == 0 {
        vals
    } else {
        upsert(upsert_all(vals, ps.drop_last(), now), ps.last(), now)
    }
}

/// What replacing the validator set does: for the admin, and for a set no
/// larger than the maximum, every delegate is marked inactive and then every
/// entry of the set is upserted as active with its weight.
pub open spec fn update_validators_spec(
    old: Pool,
    new: Pool,
    env: Env,
    info: MessageInfo,
    ps: Seq<ValidatorParams>,
    r: Result<Response, ContractError>,
) -> bool {
    match r {
        Err(e) => new == old && if info.sender@ != old.config.admin@ {
            e == ContractError::Unauthorized {}
        } else {
            ps.len() > old.config.max_validators && e == ContractError::TooManyValidators {
                max_validators: old.config.max_validators,
                requested: ps.len() as u64,
            }
        },
        Ok(resp) => {
            &&& info.sender@ == old.config.admin@
            &&& ps.len() <= old.config.max_validators
            &&& new.config == old.config
            &&& new.state == old.state
            &&& new.unbonding_requests == old.unbonding_requests
            &&& new.next_unbonding_id == old.next_unbonding_id
            &&& new.validators@ == upsert_all(deactivated(old.validators@), ps, env.block_time)
            &&& resp.messages@ == Seq::<Effect>::empty()
            &&& resp.event == Event::UpdateValidators { count: new.validators@.len() as u64 }
        },
    }
}

/// What an admin-only change of the configuration does: the admin gets
/// `config` (computed from the old one) and an empty response with `event`;
/// anyone else gets `Unauthorized`.
pub open spec fn admin_config_spec(
    old: Pool,
    new: Pool,
    info: MessageInfo,
    config: Config,
    event: Event,
    r: Result<Response, ContractError>,
) -> bool {
    match r {
        Err(e) => new == old && info.sender@ != old.config.admin@ && e
            == ContractError::Unauthorized {},
        Ok(resp) => {
            &&& info.sender@ == old.config.admin@
            &&& new == Pool { config, ..old }
            &&& resp.messages@ == Seq::<Effect>::empty()
            &&& resp.event == event
        },
    }
}

/// The configuration after an update: each given field replaced.
pub open spec fn updated_config(
    c: Config,
    admin: Option<String>,
    fee_rate: Option<Decimal>,
    max_validators: Option<u32>,
    dregen_token: Option<String>,
) -> Config {
    Config {
        admin: match admin {
            Some(a) => a,
            None => c.admin,
        },
        fee_rate: match fee_rate {
            Some(f) => f,
            None => c.fee_rate,
        },
        max_validators: match max_validators {
            Some(m) => m,
            None => c.max_validators,
        },
        dregen_token: match dregen_token {
            Some(t) => t,
            None => c.dregen_token,
        },
        ..c
    }
}

/// A fee rate above 20% is given.
pub open spec fn fee_rate_too_high(fee_rate: Option<Decimal>) -> bool {
    match fee_rate {
        Some(f) => f.atomics > MAX_FEE_ATOMICS,
        None => false,
    }
}

/// What a configuration update does: for the admin, a fee rate above 20%
/// fails `InvalidFeeRate`; otherwise each given field is replaced.
pub open spec fn update_config_spec(
    old: Pool,
    new: Pool,
    info: MessageInfo,
    admin: Option<String>,
    fee_rate: Option<Decimal>,
    max_validators: Option<u32>,
    dregen_token: Option<String>,
    r: Result<Response, ContractError>,
) -> bool {
    if info.sender@ == old.config.admin@ && fee_rate_too_high(fee_rate) {
        new == old && r == Err::<Response, ContractError>(ContractError::InvalidFeeRate {})
    } else {
        admin_config_spec(
            old,
            new,
            info,
            updated_config(old.config, admin, fee_rate, max_validators, dregen_token),
            Event::UpdateConfig {},
            r,
        )
    }
}

} // verus!
