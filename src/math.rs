use vstd::prelude::*;

use crate::decimal::{decimal_from_ratio, mul_ratio, scale, Decimal};
use crate::error::ContractError;

verus! {

/// The exchange rate in atomics: exactly one while no derivative exists,
/// else `floor((staked + rewards) * 10^18 / supply)`.
pub open spec fn exchange_rate_value(staked: int, supply: int, rewards: int) -> int {
    if supply == 0 {
        scale()
    } else {
        (staked + rewards) * scale() / supply
    }
}

/// The exchange rate can be formed: the total value and the rate fit `u128`.
pub open spec fn exchange_rate_fits(staked: int, supply: int, rewards: int) -> bool {
    supply == 0 || (staked + rewards <= u128::MAX && exchange_rate_value(staked, supply, rewards)
        <= u128::MAX)
}

/// Derivative minted for `principal` at `rate` (atomics): `floor(principal / rate)`.
pub open spec fn mint_value(principal: int, rate: int) -> int {
    principal * scale() / rate
}

/// Principal returned for `derivative` at `rate` (atomics): `floor(derivative * rate)`.
pub open spec fn return_value(derivative: int, rate: int) -> int {
    derivative * rate / scale()
}

/// Fee on `amount` at `fee_rate` (atomics): `floor(amount * fee_rate)`.
pub open spec fn fee_value(amount: int, fee_rate: int) -> int {
    amount * fee_rate / scale()
}

/// Yearly rate (atomics) of `rewards` earned over `days` on `staked`.
pub open spec fn apr_value(staked: int, rewards: int, days: int) -> int {
    if staked == 0 || days == 0 {
        0
    } else {
        rewards * (365 * scale() / days) / staked
    }
}

/// Current exchange rate between principal and derivative.
pub fn calculate_exchange_rate(
    total_regen_staked: u128,
    total_dregen_supply: u128,
    accumulated_rewards: u128,
) -> (r: Result<Decimal, ContractError>)
    ensures
        match r {
            Ok(d) => exchange_rate_fits(
                total_regen_staked as int,
                total_dregen_supply as int,
                accumulated_rewards as int,
            ) && d.atomics == exchange_rate_value(
                total_regen_staked as int,
                total_dregen_supply as int,
                accumulated_rewards as int,
            ),
            Err(e) => !exchange_rate_fits(
                total_regen_staked as int,
                total_dregen_supply as int,
                accumulated_rewards as int,
            ) && e == ContractError::Overflow {},
        },
        total_dregen_supply == 0 ==> (r matches Ok(d) && d.atomics == scale()),
{
    if total_dregen_supply == 0 {
        return Ok(Decimal::one());
    }
    let total_value = match total_regen_staked.checked_add(accumulated_rewards) {
        Some(v) => v,
        None => return Err(ContractError::Overflow {}),
    };
    match decimal_from_ratio(total_value, total_dregen_supply) {
        Some(rate) => Ok(rate),
        None => Err(ContractError::Overflow {}),
    }
}

/// Derivative to mint for `regen_amount` of principal, rounded down so that
/// the pool never issues more than it holds.
pub fn calculate_dregen_mint_amount(regen_amount: u128, exchange_rate: Decimal) -> (r: Result<
    u128,
    ContractError,
>)
    ensures
        match r {
            Ok(v) => exchange_rate.atomics > 0 && v == mint_value(
                regen_amount as int,
                exchange_rate.atomics as int,
            ),
            Err(e) => (exchange_rate.atomics == 0 && e == ContractError::DivideByZero {}) || (
            exchange_rate.atomics > 0 && mint_value(
                regen_amount as int,
                exchange_rate.atomics as int,
            ) > u128::MAX && e == ContractError::Overflow {}),
        },
{
    if exchange_rate.is_zero() {
        return Err(ContractError::DivideByZero {});
    }
    match mul_ratio(regen_amount, crate::decimal::DECIMAL_FRACTIONAL, exchange_rate.atomics) {
        Some(v) => Ok(v),
        None => Err(ContractError::Overflow {}),
    }
}

/// Principal owed for `dregen_amount` of derivative, rounded down.
pub fn calculate_regen_return_amount(dregen_amount: u128, exchange_rate: Decimal) -> (r: Result<
    u128,
    ContractError,
>)
    ensures
        match r {
            Ok(v) => v == return_value(dregen_amount as int, exchange_rate.atomics as int),
            Err(e) => return_value(dregen_amount as int, exchange_rate.atomics as int)
                > u128::MAX && e == ContractError::Overflow {},
        },
{
    match mul_ratio(dregen_amount, exchange_rate.atomics, crate::decimal::DECIMAL_FRACTIONAL) {
        Some(v) => Ok(v),
        None => Err(ContractError::Overflow {}),
    }
}

/// Fee on `amount` at `fee_rate`, rounded down; never fails for a rate of at
/// most one.
pub fn calculate_fee(amount: u128, fee_rate: Decimal) -> (r: Result<u128, ContractError>)
    ensures
        match r {
            Ok(v) => v == fee_value(amount as int, fee_rate.atomics as int),
            Err(e) => fee_value(amount as int, fee_rate.atomics as int) > u128::MAX && e
                == ContractError::Overflow {},
        },
        fee_rate.atomics <= scale() ==> r is Ok,
{
    proof {
        if fee_rate.atomics <= scale() {
            lemma_fee_at_most_amount(amount as int, fee_rate.atomics as int);
        }
    }
    match mul_ratio(amount, fee_rate.atomics, crate::decimal::DECIMAL_FRACTIONAL) {
        Some(v) => Ok(v),
        None => Err(ContractError::Overflow {}),
    }
}

/// Yearly rate implied by `rewards_over_period` earned over `period_days` on
/// `total_staked`; zero where either is zero.
pub fn calculate_apr(total_staked: u128, rewards_over_period: u128, period_days: u64) -> (r: Result<
    Decimal,
    ContractError,
>)
    ensures
        match r {
            Ok(d) => d.atomics == apr_value(
                total_staked as int,
                rewards_over_period as int,
                period_days as int,
            ),
            Err(e) => apr_value(total_staked as int, rewards_over_period as int, period_days as int)
                > u128::MAX && e == ContractError::Overflow {},
        },
{
    if total_staked == 0 || period_days == 0 {
        return Ok(Decimal::zero());
    }
    proof {
        assert(365 * scale() / period_days as int <= 365 * scale()) by (nonlinear_arith)
            requires
                period_days >= 1,
        ;
    }
    let yearly = match decimal_from_ratio(365, period_days as u128) {
        Some(d) => d,
        None => return Err(ContractError::Overflow {}),
    };
    match mul_ratio(rewards_over_period, yearly.atomics, total_staked) {
        Some(v) => Ok(Decimal::raw(v)),
        None => Err(ContractError::Overflow {}),
    }
}

/// A fee at a rate of at most one is at most the amount it is taken from.
pub proof fn lemma_fee_at_most_amount(amount: int, fee_rate: int)
    requires
        amount >= 0,
        0 <= fee_rate <= scale(),
    ensures
        0 <= fee_value(amount, fee_rate) <= amount,
{
    assert(0 <= amount * fee_rate / scale() <= amount) by (nonlinear_arith)
        requires
            amount >= 0,
            0 <= fee_rate <= scale(),
            scale() > 0,
    ;
}

/// Minting at any nonzero rate and redeeming at the same rate never returns
/// more principal than was put in: both legs round down.
pub proof fn lemma_round_trip_never_gains(principal: int, rate: int)
    requires
        principal >= 0,
        rate > 0,
    ensures
        return_value(mint_value(principal, rate), rate) <= principal,
{
    let s = scale();
    let m = principal * s / rate;
    assert(m * rate <= principal * s) by (nonlinear_arith)
        requires
            m == principal * s / rate,
            rate > 0,
            principal >= 0,
            s > 0,
    ;
    assert(m * rate / s <= principal) by (nonlinear_arith)
        requires
            m * rate <= principal * s,
            s > 0,
            m >= 0,
            rate > 0,
    ;
}

} // verus!
