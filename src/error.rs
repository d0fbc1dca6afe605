use vstd::prelude::*;

verus! {

/// Every way an operation of the pool can fail. An operation that fails leaves
/// the pool exactly as it found it.
#[derive(Clone, Debug, PartialEq, Eq)]
pub enum ContractError {
    /// The caller is not the admin, or not the owner of the request.
    Unauthorized {},
    /// A fee rate above 20%.
    InvalidFeeRate {},
    /// A mutating operation while the pool is paused.
    ContractPaused {},
    /// A stake below the configured minimum.
    InsufficientStake { minimum: u128, received: u128 },
    /// An unbond of zero derivative tokens.
    InvalidUnbondAmount {},
    /// A claim before the request's completion time (in seconds).
    UnbondingNotComplete { completion_time: u64 },
    /// No unbonding request has this id (never created, or already claimed).
    NotFound { unbonding_id: u64 },
    /// A validator set larger than the configured maximum.
    TooManyValidators { max_validators: u32, requested: u64 },
    /// A distribution over weights that sum to zero (or over no entries).
    ZeroWeight {},
    /// A conversion at an exchange rate of zero.
    DivideByZero {},
    /// A result that exceeds the range of its unsigned type.
    Overflow {},
    /// An unsigned subtraction that would go below zero.
    Underflow {},
}

} // verus!
