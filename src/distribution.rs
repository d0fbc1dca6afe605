use vstd::prelude::*;

use crate::decimal::{mul_ratio, Decimal};
use crate::error::ContractError;

verus! {

/// Sum of the weights.
pub open spec fn weight_total(ws: Seq<u128>) -> int
    decreases ws.len(),
{
    if ws.len() == 0 {
        0
    } else {
        weight_total(ws.drop_last()) + ws.last()
    }
}

/// Sum of the proportional shares `floor(total * w / W)` of the first `n` weights.
pub open spec fn proportional_sum(total: int, ws: Seq<u128>, n: int) -> int
    decreases n,
{
    if n <= 0 {
        0
    } else {
        proportional_sum(total, ws, n - 1) + total * ws[n - 1] / weight_total(ws)
    }
}

/// What entry `k` receives: its proportional share rounded down, except the
/// last entry, which receives whatever the others left of `total`.
pub open spec fn allocation(total: int, ws: Seq<u128>, k: int) -> int {
    if k < ws.len() - 1 {
        total * ws[k] / weight_total(ws)
    } else {
        total - proportional_sum(total, ws, ws.len() - 1)
    }
}

/// The entries of `s` whose amount is not zero, in order.
pub open spec fn without_zeros(s: Seq<(String, int)>) -> Seq<(String, int)>
    decreases s.len(),
{
    if s.len() == 0 {
        s
    } else if s.last().1 == 0 {
        without_zeros(s.drop_last())
    } else {
        without_zeros(s.drop_last()).push(s.last())
    }
}

/// Sum of the amounts.
pub open spec fn amount_sum(s: Seq<(String, int)>) -> int
    decreases s.len(),
{
    if s.len() == 0 {
        0
    } else {
        amount_sum(s.drop_last()) + s.last().1
    }
}

/// The weights of `(id, weight)` entries, in atomics.
pub open spec fn entry_weights(vs: Seq<(String, Decimal)>) -> Seq<u128> {
    Seq::new(vs.len(), |k: int| vs[k].1.atomics)
}

/// Each entry's id with its allocation, zero allocations included.
pub open spec fn allocated_entries(total: int, vs: Seq<(String, Decimal)>) -> Seq<(String, int)> {
    Seq::new(vs.len(), |k: int| (vs[k].0, allocation(total, entry_weights(vs), k)))
}

/// The distribution of `total` over weighted entries, zero allocations left out.
pub open spec fn distribution(total: int, vs: Seq<(String, Decimal)>) -> Seq<(String, int)> {
    without_zeros(allocated_entries(total, vs))
}

/// A `(String, u128)` sequence read with integer amounts.
pub open spec fn as_int_amounts(s: Seq<(String, u128)>) -> Seq<(String, int)> {
    Seq::new(s.len(), |k: int| (s[k].0, s[k].1 as int))
}

proof fn lemma_weight_total_take(ws: Seq<u128>, k: int)
    requires
        0 <= k <= ws.len(),
    ensures
        0 <= weight_total(ws.take(k)) <= weight_total(ws),
        k < ws.len() ==> weight_total(ws.take(k + 1)) == weight_total(ws.take(k)) + ws[k],
    decreases ws.len(),
{
    if k < ws.len() {
        assert(ws.take(k + 1).drop_last() =~= ws.take(k));
        assert(ws.take(k) =~= ws.drop_last().take(k));
        lemma_weight_total_take(ws.drop_last(), k);
    } else {
        assert(ws.take(k) =~= ws);
        if ws.len() > 0 {
            lemma_weight_total_take(ws.drop_last(), k - 1);
            assert(ws.drop_last().take(k - 1) =~= ws.drop_last());
        }
    }
}

proof fn lemma_weight_le_total(ws: Seq<u128>, k: int)
    requires
        0 <= k < ws.len(),
    ensures
        ws[k] <= weight_total(ws),
{
    lemma_weight_total_take(ws, k);
    lemma_weight_total_take(ws, k + 1);
}

/// The proportional shares of the first `k` weights never exceed `total`.
proof fn lemma_proportional_sum_bound(total: int, ws: Seq<u128>, k: int)
    requires
        total >= 0,
        weight_total(ws) > 0,
        0 <= k <= ws.len(),
    ensures
        proportional_sum(total, ws, k) * weight_total(ws) <= total * weight_total(ws.take(k)),
        0 <= proportional_sum(total, ws, k) <= total,
    decreases k,
{
    let w = weight_total(ws);
    lemma_weight_total_take(ws, k);
    if k > 0 {
        lemma_proportional_sum_bound(total, ws, k - 1);
        lemma_weight_total_take(ws, k - 1);
        let p = proportional_sum(total, ws, k - 1);
        let x = ws[k - 1] as int;
        let q = total * x / w;
        let t = weight_total(ws.take(k - 1));
        assert(q * w <= total * x && q >= 0) by (nonlinear_arith)
            requires
                q == total * x / w,
                w > 0,
                total >= 0,
                x >= 0,
        ;
        assert((p + q) * w <= total * (t + x)) by (nonlinear_arith)
            requires
                p * w <= total * t,
                q * w <= total * x,
        ;
        assert(proportional_sum(total, ws, k) == p + q);
    }
    assert(proportional_sum(total, ws, k) >= 0);
    let p = proportional_sum(total, ws, k);
    let t = weight_total(ws.take(k));
    assert(0 <= p <= total) by (nonlinear_arith)
        requires
            p * w <= total * t,
            t <= w,
            w > 0,
            total >= 0,
            p >= 0,
    ;
}

/// Splits `total` over `weights` in proportion, entry by entry in the given
/// order, the last entry taking the remainder. Fails where the weights sum to
/// zero or past `u128`.
pub fn split_amounts(total: u128, weights: &Vec<u128>) -> (r: Result<Vec<u128>, ContractError>)
    ensures
        match r {
            Ok(v) => 0 < weight_total(weights@) <= u128::MAX && v@.len() == weights@.len() && (
            forall|k: int| 0 <= k < v@.len() ==> v@[k] == allocation(total as int, weights@, k)),
            Err(e) => (weight_total(weights@) == 0 && e == ContractError::ZeroWeight {}) || (
            weight_total(weights@) > u128::MAX && e == ContractError::Overflow {}),
        },
{
    let n = weights.len();
    let mut total_weight: u128 = 0;
    let mut i: usize = 0;
    while i < n
        invariant
            n == weights@.len(),
            0 <= i <= n,
            total_weight == weight_total(weights@.take(i as int)),
        decreases n - i,
    {
        proof {
            lemma_weight_total_take(weights@, i as int);
        }
        total_weight = match total_weight.checked_add(weights[i]) {
            Some(t) => t,
            None => {
                proof {
                    lemma_weight_total_take(weights@, i as int + 1);
                }
                return Err(ContractError::Overflow {});
            },
        };
        i = i + 1;
    }
    proof {
        assert(weights@.take(n as int) =~= weights@);
    }
    if total_weight == 0 {
        return Err(ContractError::ZeroWeight {});
    }
    let ghost ws = weights@;
    let ghost w = weight_total(ws);
    let mut out: Vec<u128> = Vec::new();
    let mut remaining: u128 = total;
    let mut k: usize = 0;
    while k < n
        invariant
            n == ws.len(),
            ws == weights@,
            w == weight_total(ws),
            0 < w <= u128::MAX,
            total_weight == w,
            0 <= k <= n,
            out@.len() == k,
            forall|j: int| 0 <= j < k ==> out@[j] == allocation(total as int, ws, j),
            k < n ==> remaining == total - proportional_sum(total as int, ws, k as int),
        decreases n - k,
    {
        if k == n - 1 {
            out.push(remaining);
        } else {
            proof {
                lemma_weight_le_total(ws, k as int);
                lemma_proportional_sum_bound(total as int, ws, k as int + 1);
                let x = ws[k as int] as int;
                assert(total as int * x / w <= total) by (nonlinear_arith)
                    requires
                        0 <= x <= w,
                        w > 0,
                        total >= 0,
                ;
            }
            let share = match mul_ratio(total, weights[k], total_weight) {
                Some(s) => s,
                None => return Err(ContractError::Overflow {}),
            };
            out.push(share);
            remaining = remaining - share;
        }
        k = k + 1;
    }
    Ok(out)
}

/// The weights of the entries, in atomics.
pub(crate) fn weights_of(entries: &[(String, Decimal)]) -> (r: Vec<u128>)
    ensures
        r@ == entry_weights(entries@),
{
    let n = entries.len();
    let mut weights: Vec<u128> = Vec::new();
    let mut i: usize = 0;
    while i < n
        invariant
            n == entries@.len(),
            0 <= i <= n,
            weights@ == entry_weights(entries@.take(i as int)),
        decreases n - i,
    {
        weights.push(entries[i].1.atomics);
        i = i + 1;
        proof {
            assert(weights@ =~= entry_weights(entries@.take(i as int)));
        }
    }
    proof {
        assert(entries@.take(n as int) =~= entries@);
    }
    weights
}

/// Splits `total_amount` over the `(id, weight)` entries in the given order:
/// each entry but the last receives `floor(weight / total_weight * total_amount)`,
/// the last the exact remainder, and entries that receive nothing are left out.
pub fn calculate_validator_distribution(total_amount: u128, validators: &[(String, Decimal)]) -> (r:
    Result<Vec<(String, u128)>, ContractError>)
    ensures
        match r {
            Ok(v) => 0 < weight_total(entry_weights(validators@)) <= u128::MAX && as_int_amounts(
                v@,
            ) == distribution(total_amount as int, validators@),
            Err(e) => (weight_total(entry_weights(validators@)) == 0 && e
                == ContractError::ZeroWeight {}) || (weight_total(entry_weights(validators@))
                > u128::MAX && e == ContractError::Overflow {}),
        },
{
    let n = validators.len();
    let weights = weights_of(validators);
    let amounts = split_amounts(total_amount, &weights)?;
    let ghost all = allocated_entries(total_amount as int, validators@);
    let mut out: Vec<(String, u128)> = Vec::new();
    let mut k: usize = 0;
    while k < n
        invariant
            n == validators@.len(),
            amounts@.len() == n,
            weights@ == entry_weights(validators@),
            all == allocated_entries(total_amount as int, validators@),
            forall|j: int|
                0 <= j < n ==> amounts@[j] == allocation(total_amount as int, weights@, j),
            0 <= k <= n,
            as_int_amounts(out@) == without_zeros(all.take(k as int)),
        decreases n - k,
    {
        proof {
            assert(all.take(k as int + 1).drop_last() =~= all.take(k as int));
        }
        if amounts[k] != 0 {
            out.push((validators[k].0.clone(), amounts[k]));
            proof {
                assert(as_int_amounts(out@) =~= without_zeros(all.take(k as int + 1)));
            }
        }
        k = k + 1;
    }
    proof {
        assert(all.take(n as int) =~= all);
    }
    Ok(out)
}

proof fn lemma_without_zeros(s: Seq<(String, int)>)
    requires
        forall|i: int| 0 <= i < s.len() ==> s[i].1 >= 0,
    ensures
        amount_sum(without_zeros(s)) == amount_sum(s),
        forall|i: int|
            0 <= i < without_zeros(s).len() ==> #[trigger] without_zeros(s)[i].1 > 0,
    decreases s.len(),
{
    if s.len() > 0 {
        lemma_without_zeros(s.drop_last());
        let prev = without_zeros(s.drop_last());
        if s.last().1 != 0 {
            assert(prev.push(s.last()).drop_last() =~= prev);
        }
    }
}

proof fn lemma_allocated_prefix_sum(total: int, vs: Seq<(String, Decimal)>, k: int)
    requires
        0 <= k < vs.len(),
    ensures
        amount_sum(allocated_entries(total, vs).take(k)) == proportional_sum(
            total,
            entry_weights(vs),
            k,
        ),
    decreases k,
{
    let all = allocated_entries(total, vs);
    if k > 0 {
        lemma_allocated_prefix_sum(total, vs, k - 1);
        assert(all.take(k).drop_last() =~= all.take(k - 1));
    }
}

/// For weights that sum above zero, the distribution hands out exactly
/// `total`, and none of its entries is zero.
pub proof fn lemma_distribution_exact(total: int, vs: Seq<(String, Decimal)>)
    requires
        total >= 0,
        weight_total(entry_weights(vs)) > 0,
    ensures
        amount_sum(distribution(total, vs)) == total,
        forall|i: int|
            0 <= i < distribution(total, vs).len() ==> #[trigger] distribution(total, vs)[i].1 > 0,
{
    let ws = entry_weights(vs);
    let all = allocated_entries(total, vs);
    let n = vs.len();
    assert(n > 0) by {
        if n == 0 {
            assert(ws.len() == 0);
        }
    }
    lemma_proportional_sum_bound(total, ws, n - 1);
    assert forall|i: int| 0 <= i < all.len() implies all[i].1 >= 0 by {
        if i < n - 1 {
            let x = ws[i] as int;
            let w = weight_total(ws);
            assert(total * x / w >= 0) by (nonlinear_arith)
                requires
                    total >= 0,
                    x >= 0,
                    w > 0,
            ;
        }
    }
    lemma_allocated_prefix_sum(total, vs, n - 1);
    assert(all.drop_last() =~= all.take(n - 1));
    lemma_without_zeros(all);
}

} // verus!
