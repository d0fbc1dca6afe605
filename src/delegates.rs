use vstd::prelude::*;

use crate::decimal::Decimal;
use crate::distribution::{
    allocation, as_int_amounts, calculate_validator_distribution, distribution, entry_weights,
    split_amounts, weight_total, weights_of,
};
use crate::error::ContractError;
use crate::state::ValidatorInfo;

verus! {

/// Whether a delegate takes part in a distribution. New stake goes to every
/// active delegate (`by_exposure` false); an unbonding is taken from every
/// active delegate that holds a delegation (`by_exposure` true).
pub open spec fn eligible(v: ValidatorInfo, by_exposure: bool) -> bool {
    v.is_active && (by_exposure ==> v.delegated_amount != 0)
}

/// The weight a taking-part delegate carries: its target weight for new
/// stake, its current delegation for an unbonding.
pub open spec fn basis_weight(v: ValidatorInfo, by_exposure: bool) -> Decimal {
    if by_exposure {
        Decimal { atomics: v.delegated_amount }
    } else {
        v.weight
    }
}

/// The `(address, weight)` entries of the delegates that take part, in the
/// delegates' order.
pub open spec fn targets(vals: Seq<ValidatorInfo>, by_exposure: bool) -> Seq<(String, Decimal)>
    decreases vals.len(),
{
    if vals.len() == 0 {
        Seq::empty()
    } else {
        let prev = targets(vals.drop_last(), by_exposure);
        if eligible(vals.last(), by_exposure) {
            prev.push((vals.last().address, basis_weight(vals.last(), by_exposure)))
        } else {
            prev
        }
    }
}

/// The position of delegate `i` among those that take part.
pub open spec fn rank(vals: Seq<ValidatorInfo>, by_exposure: bool, i: int) -> int {
    targets(vals.take(i), by_exposure).len() as int
}

/// What distributing `total` allots to delegate `i` (zero if it takes no part).
pub open spec fn share_of(vals: Seq<ValidatorInfo>, by_exposure: bool, total: int, i: int) -> int {
    if eligible(vals[i], by_exposure) {
        allocation(total, entry_weights(targets(vals, by_exposure)), rank(vals, by_exposure, i))
    } else {
        0
    }
}

/// Delegate `i`'s delegation once its share is added (new stake) or taken
/// away (unbonding).
pub open spec fn shifted(vals: Seq<ValidatorInfo>, by_exposure: bool, total: int, i: int) -> int {
    if by_exposure {
        vals[i].delegated_amount - share_of(vals, by_exposure, total, i)
    } else {
        vals[i].delegated_amount + share_of(vals, by_exposure, total, i)
    }
}

/// Every shifted delegation stays within `u128`.
pub open spec fn shifts_fit(vals: Seq<ValidatorInfo>, by_exposure: bool, total: int) -> bool {
    forall|i: int|
        0 <= i < vals.len() ==> 0 <= #[trigger] shifted(vals, by_exposure, total, i) <= u128::MAX
}

/// The delegates after the shift.
pub open spec fn shift_all(vals: Seq<ValidatorInfo>, by_exposure: bool, total: int) -> Seq<
    ValidatorInfo,
> {
    Seq::new(
        vals.len(),
        |i: int| vals[i].with_delegated(shifted(vals, by_exposure, total, i) as u128),
    )
}

proof fn lemma_targets_step(vals: Seq<ValidatorInfo>, by_exposure: bool, i: int)
    requires
        0 <= i < vals.len(),
    ensures
        targets(vals.take(i + 1), by_exposure) == (if eligible(vals[i], by_exposure) {
            targets(vals.take(i), by_exposure).push(
                (vals[i].address, basis_weight(vals[i], by_exposure)),
            )
        } else {
            targets(vals.take(i), by_exposure)
        }),
{
    assert(vals.take(i + 1).drop_last() =~= vals.take(i));
}

proof fn lemma_targets_prefix(vals: Seq<ValidatorInfo>, by_exposure: bool, m: int)
    requires
        0 <= m <= vals.len(),
    ensures
        targets(vals.take(m), by_exposure).len() <= targets(vals, by_exposure).len(),
        targets(vals, by_exposure).take(targets(vals.take(m), by_exposure).len() as int)
            == targets(vals.take(m), by_exposure),
    decreases vals.len(),
{
    let t = targets(vals, by_exposure);
    if m == vals.len() {
        assert(vals.take(m) =~= vals);
        assert(t.take(t.len() as int) =~= t);
    } else {
        lemma_targets_prefix(vals.drop_last(), by_exposure, m);
        assert(vals.drop_last().take(m) =~= vals.take(m));
        let l = targets(vals.take(m), by_exposure).len() as int;
        let p = targets(vals.drop_last(), by_exposure);
        assert(t.take(l) =~= p.take(l));
    }
}

/// The entry of a taking-part delegate sits at its rank.
pub(crate) proof fn lemma_target_at_rank(vals: Seq<ValidatorInfo>, by_exposure: bool, i: int)
    requires
        0 <= i < vals.len(),
    ensures
        rank(vals, by_exposure, i + 1) == rank(vals, by_exposure, i) + (if eligible(
            vals[i],
            by_exposure,
        ) {
            1int
        } else {
            0int
        }),
        eligible(vals[i], by_exposure) ==> rank(vals, by_exposure, i) < targets(
            vals,
            by_exposure,
        ).len() && targets(vals, by_exposure)[rank(vals, by_exposure, i)] == (
        vals[i].address,
        basis_weight(vals[i], by_exposure),
        ),
{
    lemma_targets_step(vals, by_exposure, i);
    lemma_targets_prefix(vals, by_exposure, i + 1);
    if eligible(vals[i], by_exposure) {
        let t = targets(vals, by_exposure);
        let r = rank(vals, by_exposure, i);
        assert(t.take(r + 1)[r] == t[r]);
    }
}

/// The entries of the delegates that take part.
pub(crate) fn collect_targets(vals: &Vec<ValidatorInfo>, by_exposure: bool) -> (r: Vec<
    (String, Decimal),
>)
    ensures
        r@ == targets(vals@, by_exposure),
{
    let n = vals.len();
    let mut out: Vec<(String, Decimal)> = Vec::new();
    let mut i: usize = 0;
    while i < n
        invariant
            n == vals@.len(),
            0 <= i <= n,
            out@ == targets(vals@.take(i as int), by_exposure),
        decreases n - i,
    {
        proof {
            lemma_targets_step(vals@, by_exposure, i as int);
        }
        let v = &vals[i];
        if v.is_active && (!by_exposure || v.delegated_amount != 0) {
            let w = if by_exposure {
                Decimal::raw(v.delegated_amount)
            } else {
                v.weight
            };
            out.push((v.address.clone(), w));
        }
        i = i + 1;
    }
    proof {
        assert(vals@.take(n as int) =~= vals@);
    }
    out
}

/// The active delegates with their target weights, for new stake.
pub fn get_active_validators(vals: &Vec<ValidatorInfo>) -> (r: Vec<(String, Decimal)>)
    ensures
        r@ == targets(vals@, false),
{
    collect_targets(vals, false)
}

/// The active delegates holding a delegation, weighted by it, for unbonding.
pub fn get_active_validators_with_delegations(vals: &Vec<ValidatorInfo>) -> (r: Vec<
    (String, Decimal),
>)
    ensures
        r@ == targets(vals@, true),
{
    collect_targets(vals, true)
}

/// Distributes `total` over the delegates that take part and works out every
/// delegate's new delegation, without changing anything. Returns the new
/// amounts, one per delegate, and the nonzero allocations in order.
pub(crate) fn plan_shift(vals: &Vec<ValidatorInfo>, by_exposure: bool, total: u128) -> (r: Result<
    (Vec<u128>, Vec<(String, u128)>),
    ContractError,
>)
    ensures
        match r {
            Ok((amounts, dist)) => {
                let w = weight_total(entry_weights(targets(vals@, by_exposure)));
                &&& 0 < w <= u128::MAX
                &&& shifts_fit(vals@, by_exposure, total as int)
                &&& amounts@.len() == vals@.len()
                &&& forall|i: int|
                    0 <= i < vals@.len() ==> amounts@[i] == shifted(
                        vals@,
                        by_exposure,
                        total as int,
                        i,
                    )
                &&& as_int_amounts(dist@) == distribution(
                    total as int,
                    targets(vals@, by_exposure),
                )
            },
            Err(e) => {
                let w = weight_total(entry_weights(targets(vals@, by_exposure)));
                ||| w == 0 && e == ContractError::ZeroWeight {}
                ||| w > u128::MAX && e == ContractError::Overflow {}
                ||| 0 < w <= u128::MAX && !shifts_fit(vals@, by_exposure, total as int) && e == (
                if by_exposure {
                    ContractError::Underflow {}
                } else {
                    ContractError::Overflow {}
                })
            },
        },
{
    let ts = collect_targets(vals, by_exposure);
    let dist = calculate_validator_distribution(total, ts.as_slice())?;
    let weights = weights_of(ts.as_slice());
    let allocs = split_amounts(total, &weights)?;
    let ghost t = ts@;
    let n = vals.len();
    let na = allocs.len();
    let mut amounts: Vec<u128> = Vec::new();
    let mut r: usize = 0;
    let mut i: usize = 0;
    proof {
        assert(vals@.take(0) =~= Seq::<ValidatorInfo>::empty());
    }
    while i < n
        invariant
            n == vals@.len(),
            t == targets(vals@, by_exposure),
            weights@ == entry_weights(t),
            0 < weight_total(weights@) <= u128::MAX,
            as_int_amounts(dist@) == distribution(total as int, t),
            allocs@.len() == t.len(),
            na == allocs@.len(),
            forall|j: int|
                0 <= j < allocs@.len() ==> allocs@[j] == allocation(total as int, weights@, j),
            0 <= i <= n,
            r == rank(vals@, by_exposure, i as int),
            amounts@.len() == i,
            forall|j: int|
                0 <= j < i ==> amounts@[j] == shifted(vals@, by_exposure, total as int, j),
            forall|j: int|
                0 <= j < i ==> 0 <= #[trigger] shifted(vals@, by_exposure, total as int, j)
                    <= u128::MAX,
        decreases n - i,
    {
        proof {
            lemma_target_at_rank(vals@, by_exposure, i as int);
        }
        let v = &vals[i];
        let cur = v.delegated_amount;
        let next = if v.is_active && (!by_exposure || cur != 0) {
            let a = allocs[r];
            proof {
                assert(a == share_of(vals@, by_exposure, total as int, i as int));
            }
            r = r + 1;
            if by_exposure {
                match cur.checked_sub(a) {
                    Some(x) => x,
                    None => {
                        proof {
                            assert(shifted(vals@, by_exposure, total as int, i as int) < 0);
                        }
                        return Err(ContractError::Underflow {});
                    },
                }
            } else {
                match cur.checked_add(a) {
                    Some(x) => x,
                    None => {
                        proof {
                            assert(shifted(vals@, by_exposure, total as int, i as int)
                                > u128::MAX);
                        }
                        return Err(ContractError::Overflow {});
                    },
                }
            }
        } else {
            cur
        };
        amounts.push(next);
        i = i + 1;
    }
    Ok((amounts, dist))
}

} // verus!
