//! Principal accounting: the delegates' amounts add up to the staked total,
//! and every operation keeps it so.
use vstd::prelude::*;

use crate::contract::execute_spec;
use crate::delegates::{
    lemma_target_at_rank, rank, share_of, shift_all, shifted, shifts_fit, targets,
};
use crate::distribution::{allocation, entry_weights, proportional_sum, weight_total};
use crate::transitions::{
    deactivated, index_of_address, new_validator, stake_error, unbond_error, unbond_net, upsert_all,
};
use crate::helpers::uregen_amount;
use crate::math::lemma_fee_at_most_amount;
use crate::msg::{Env, ExecuteMsg, MessageInfo, Response, ValidatorParams};
use crate::error::ContractError;
use crate::state::{Pool, ValidatorInfo};

verus! {

/// Sum of the delegates' delegated amounts.
pub open spec fn delegated_sum(vals: Seq<ValidatorInfo>) -> int
    decreases vals.len(),
{
    if vals.len() == 0 {
        0
    } else {
        delegated_sum(vals.drop_last()) + vals.last().delegated_amount
    }
}

/// The delegations account for exactly the principal the pool has staked.
pub open spec fn balanced(p: Pool) -> bool {
    delegated_sum(p.validators@) == p.state.total_regen_staked
}

spec fn alloc_prefix(total: int, ws: Seq<u128>, k: int) -> int
    decreases k,
{
    if k <= 0 {
        0
    } else {
        alloc_prefix(total, ws, k - 1) + allocation(total, ws, k - 1)
    }
}

spec fn share_prefix(vals: Seq<ValidatorInfo>, by_exposure: bool, total: int, i: int) -> int
    decreases i,
{
    if i <= 0 {
        0
    } else {
        share_prefix(vals, by_exposure, total, i - 1) + share_of(vals, by_exposure, total, i - 1)
    }
}

proof fn lemma_weight_total_nonneg(ws: Seq<u128>)
    ensures
        weight_total(ws) >= 0,
    decreases ws.len(),
{
    if ws.len() > 0 {
        lemma_weight_total_nonneg(ws.drop_last());
    }
}

proof fn lemma_alloc_prefix_proportional(total: int, ws: Seq<u128>, k: int)
    requires
        0 <= k < ws.len(),
    ensures
        alloc_prefix(total, ws, k) == proportional_sum(total, ws, k),
    decreases k,
{
    if k > 0 {
        lemma_alloc_prefix_proportional(total, ws, k - 1);
    }
}

/// All allocations together make up the total.
proof fn lemma_allocations_sum(total: int, ws: Seq<u128>)
    requires
        ws.len() > 0,
    ensures
        alloc_prefix(total, ws, ws.len() as int) == total,
{
    lemma_alloc_prefix_proportional(total, ws, ws.len() - 1);
}

proof fn lemma_share_prefix(vals: Seq<ValidatorInfo>, by_exposure: bool, total: int, i: int)
    requires
        0 <= i <= vals.len(),
    ensures
        share_prefix(vals, by_exposure, total, i) == alloc_prefix(
            total,
            entry_weights(targets(vals, by_exposure)),
            rank(vals, by_exposure, i),
        ),
    decreases i,
{
    if i > 0 {
        lemma_share_prefix(vals, by_exposure, total, i - 1);
        lemma_target_at_rank(vals, by_exposure, i - 1);
    } else {
        assert(vals.take(0) =~= Seq::<ValidatorInfo>::empty());
    }
}

/// The shares of all delegates make up the total distributed.
proof fn lemma_shares_sum(vals: Seq<ValidatorInfo>, by_exposure: bool, total: int)
    requires
        weight_total(entry_weights(targets(vals, by_exposure))) > 0,
    ensures
        share_prefix(vals, by_exposure, total, vals.len() as int) == total,
{
    let ws = entry_weights(targets(vals, by_exposure));
    lemma_share_prefix(vals, by_exposure, total, vals.len() as int);
    assert(vals.take(vals.len() as int) =~= vals);
    assert(ws.len() > 0) by {
        if ws.len() == 0 {
            assert(weight_total(ws) == 0);
        }
    }
    lemma_allocations_sum(total, ws);
}

proof fn lemma_shift_prefix(vals: Seq<ValidatorInfo>, by_exposure: bool, total: int, i: int)
    requires
        0 <= i <= vals.len(),
        shifts_fit(vals, by_exposure, total),
    ensures
        delegated_sum(shift_all(vals, by_exposure, total).take(i)) == delegated_sum(vals.take(i))
            + (if by_exposure {
            -share_prefix(vals, by_exposure, total, i)
        } else {
            share_prefix(vals, by_exposure, total, i)
        }),
    decreases i,
{
    if i > 0 {
        lemma_shift_prefix(vals, by_exposure, total, i - 1);
        let s = shift_all(vals, by_exposure, total);
        assert(s.take(i).drop_last() =~= s.take(i - 1));
        assert(vals.take(i).drop_last() =~= vals.take(i - 1));
        assert(0 <= shifted(vals, by_exposure, total, i - 1) <= u128::MAX);
    } else {
        assert(vals.take(0) =~= Seq::<ValidatorInfo>::empty());
        assert(shift_all(vals, by_exposure, total).take(0) =~= Seq::<ValidatorInfo>::empty());
    }
}

/// Shifting every delegate by its share moves the sum by the whole total.
proof fn lemma_shift_sum(vals: Seq<ValidatorInfo>, by_exposure: bool, total: int)
    requires
        weight_total(entry_weights(targets(vals, by_exposure))) > 0,
        shifts_fit(vals, by_exposure, total),
    ensures
        delegated_sum(shift_all(vals, by_exposure, total)) == delegated_sum(vals) + (if by_exposure {
            -total
        } else {
            total
        }),
{
    let n = vals.len() as int;
    lemma_shift_prefix(vals, by_exposure, total, n);
    lemma_shares_sum(vals, by_exposure, total);
    assert(vals.take(n) =~= vals);
    assert(shift_all(vals, by_exposure, total).take(n) =~= shift_all(vals, by_exposure, total));
}

proof fn lemma_sum_pointwise(a: Seq<ValidatorInfo>, b: Seq<ValidatorInfo>)
    requires
        a.len() == b.len(),
        forall|i: int| 0 <= i < a.len() ==> a[i].delegated_amount == b[i].delegated_amount,
    ensures
        delegated_sum(a) == delegated_sum(b),
    decreases a.len(),
{
    if a.len() > 0 {
        lemma_sum_pointwise(a.drop_last(), b.drop_last());
    }
}

proof fn lemma_sum_update(vals: Seq<ValidatorInfo>, k: int, v: ValidatorInfo)
    requires
        0 <= k < vals.len(),
    ensures
        delegated_sum(vals.update(k, v)) == delegated_sum(vals) - vals[k].delegated_amount
            + v.delegated_amount,
    decreases vals.len(),
{
    let u = vals.update(k, v);
    if k == vals.len() - 1 {
        assert(u.drop_last() =~= vals.drop_last());
    } else {
        lemma_sum_update(vals.drop_last(), k, v);
        assert(u.drop_last() =~= vals.drop_last().update(k, v));
    }
}

/// Upserting delegates leaves the sum of delegations as it was.
proof fn lemma_upsert_all_sum(vals: Seq<ValidatorInfo>, ps: Seq<ValidatorParams>, now: u64)
    ensures
        delegated_sum(upsert_all(vals, ps, now)) == delegated_sum(vals),
    decreases ps.len(),
{
    if ps.len() > 0 {
        lemma_upsert_all_sum(vals, ps.drop_last(), now);
        let before = upsert_all(vals, ps.drop_last(), now);
        let p = ps.last();
        let k = index_of_address(before, p.address@);
        if k >= 0 {
            assert(0 <= k < before.len() && before[k].address@ == p.address@);
            lemma_sum_update(
                before,
                k,
                ValidatorInfo { is_active: true, weight: p.weight, ..before[k] },
            );
        } else {
            assert(before.push(new_validator(p, now)).drop_last() =~= before);
        }
    }
}

/// A new pool is balanced: nothing staked, nothing delegated.
pub proof fn lemma_new_pool_balanced(ps: Seq<ValidatorParams>, now: u64)
    ensures
        delegated_sum(upsert_all(Seq::empty(), ps, now)) == 0,
{
    lemma_upsert_all_sum(Seq::empty(), ps, now);
}

/// Every operation keeps the delegations equal to the staked total: a stake
/// delegates exactly its net principal, an unbond undelegates exactly the
/// principal it owes, and nothing else moves delegations or the total.
pub proof fn lemma_execute_keeps_balance(
    old: Pool,
    new: Pool,
    env: Env,
    info: MessageInfo,
    msg: ExecuteMsg,
    r: Result<Response, ContractError>,
)
    requires
        old.wf(),
        balanced(old),
        execute_spec(old, new, env, info, msg, r),
    ensures
        balanced(new),
{
    if r is Ok {
        match msg {
            ExecuteMsg::Stake {  } => {
                let amount = uregen_amount(info.funds@);
                let net = amount - crate::transitions::pool_fee(old, amount);
                assert(stake_error(old, env, amount) is None);
                lemma_weight_total_nonneg(entry_weights(targets(old.validators@, false)));
                lemma_shift_sum(old.validators@, false, net);
                lemma_fee_at_most_amount(amount, old.config.fee_rate.atomics as int);
            },
            ExecuteMsg::Unbond { dregen_amount } => {
                let net = unbond_net(old, env, dregen_amount as int);
                let gross = crate::transitions::unbond_gross(old, env, dregen_amount as int);
                lemma_fee_at_most_amount(gross, old.config.fee_rate.atomics as int);
                assert(unbond_error(old, env, dregen_amount as int) is None);
                lemma_weight_total_nonneg(entry_weights(targets(old.validators@, true)));
                lemma_shift_sum(old.validators@, true, net);
            },
            ExecuteMsg::UpdateValidators { validators } => {
                let d = deactivated(old.validators@);
                lemma_sum_pointwise(d, old.validators@);
                lemma_upsert_all_sum(d, validators@, env.block_time);
            },
            _ => {},
        }
    }
}

} // verus!
