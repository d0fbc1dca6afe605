use vstd::prelude::*;

verus! {

/// The number of atomic units in one whole: decimals carry 18 fractional digits.
pub const DECIMAL_FRACTIONAL: u128 = 1_000_000_000_000_000_000;

/// `DECIMAL_FRACTIONAL` as a mathematical integer.
pub open spec fn scale() -> int {
    1_000_000_000_000_000_000
}

/// An unsigned fixed-point number with 18 fractional digits, held as its
/// atomic units: the value is `atomics / 10^18`.
#[derive(Clone, Copy, Debug, PartialEq, Eq, Structural)]
pub struct Decimal {
    pub atomics: u128,
}

impl Decimal {
    /// The value `atomics / 10^18`.
    pub fn raw(atomics: u128) -> (r: Decimal)
        ensures
            r.atomics == atomics,
    {
        Decimal { atomics }
    }

    pub fn zero() -> (r: Decimal)
        ensures
            r.atomics == 0,
    {
        Decimal { atomics: 0 }
    }

    pub fn one() -> (r: Decimal)
        ensures
            r.atomics == scale(),
    {
        Decimal { atomics: DECIMAL_FRACTIONAL }
    }

    /// `x` percent.
    pub fn percent(x: u64) -> (r: Decimal)
        ensures
            r.atomics == x as int * 10_000_000_000_000_000,
    {
        proof {
            assert(x as int * 10_000_000_000_000_000 <= u128::MAX) by (nonlinear_arith)
                requires
                    x <= u64::MAX,
            ;
        }
        Decimal { atomics: x as u128 * 10_000_000_000_000_000 }
    }

    pub fn atomics(&self) -> (r: u128)
        ensures
            r == self.atomics,
    {
        self.atomics
    }

    pub fn is_zero(&self) -> (r: bool)
        ensures
            r == (self.atomics == 0),
    {
        self.atomics == 0
    }

    /// The integer part, rounded down.
    pub fn to_uint_floor(&self) -> (r: u128)
        ensures
            r == self.atomics as int / scale(),
    {
        self.atomics / DECIMAL_FRACTIONAL
    }
}

/// `floor(x * numerator / denominator)`, or `None` where that exceeds `u128`.
/// Relies on `cosmwasm_std::Uint128::checked_multiply_ratio`, which forms the
/// product in 256 bits, divides rounding down, and fails only on a zero
/// denominator (excluded here) or a quotient beyond `u128::MAX`.
#[verifier::external_body]
pub(crate) fn mul_ratio(x: u128, numerator: u128, denominator: u128) -> (r: Option<u128>)
    requires
        denominator > 0,
    ensures
        match r {
            Some(v) => v == x as int * numerator as int / denominator as int,
            None => x as int * numerator as int / denominator as int > u128::MAX,
        },
{
    cosmwasm_std::Uint128::new(x).checked_multiply_ratio(numerator, denominator).ok().map(
        |v| v.u128(),
    )
}

/// The decimal `numerator / denominator` rounded down to 18 digits, or `None`
/// where it does not fit. Relies on `cosmwasm_std::Decimal::checked_from_ratio`,
/// whose atomics are `floor(numerator * 10^18 / denominator)`, failing only on a
/// zero denominator (excluded here) or an overflow of `u128`.
#[verifier::external_body]
pub(crate) fn decimal_from_ratio(numerator: u128, denominator: u128) -> (r: Option<Decimal>)
    requires
        denominator > 0,
    ensures
        match r {
            Some(d) => d.atomics == numerator as int * scale() / denominator as int,
            None => numerator as int * scale() / denominator as int > u128::MAX,
        },
{
    cosmwasm_std::Decimal::checked_from_ratio(numerator, denominator).ok().map(
        |d| Decimal { atomics: d.atomics().u128() },
    )
}

} // verus!
