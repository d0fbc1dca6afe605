//! The unbonding queue consumes ids: once a request is claimed its id never
//! returns, so no later claim of it can succeed.
use vstd::prelude::*;

use crate::contract::execute_spec;
use crate::error::ContractError;
use crate::msg::{Env, ExecuteMsg, MessageInfo, Response};
use crate::state::Pool;
use crate::transitions::{claim_error, claim_spec, position_of};

verus! {

/// The id has been handed out and no open request carries it.
pub open spec fn consumed(p: Pool, id: u64) -> bool {
    &&& id < p.next_unbonding_id
    &&& forall|i: int|
        0 <= i < p.unbonding_requests@.len() ==> p.unbonding_requests@[i].id != id
}

/// A claim that succeeds consumes its id.
pub proof fn lemma_claim_consumes(
    old: Pool,
    new: Pool,
    env: Env,
    info: MessageInfo,
    id: u64,
    resp: Response,
)
    requires
        old.wf(),
        claim_spec(old, new, env, info, id, Ok(resp)),
    ensures
        consumed(new, id),
{
    let reqs = old.unbonding_requests@;
    let k = position_of(reqs, id);
    assert(0 <= k < reqs.len() && reqs[k].id == id);
    let rest = new.unbonding_requests@;
    assert forall|i: int| 0 <= i < rest.len() implies rest[i].id != id by {
        if i < k {
            assert(rest[i] == reqs[i]);
        } else {
            assert(rest[i] == reqs[i + 1]);
        }
    }
}

/// No operation, successful or not, brings a consumed id back: new requests
/// take ids from the counter, which only grows.
pub proof fn lemma_consumed_stays(
    old: Pool,
    new: Pool,
    env: Env,
    info: MessageInfo,
    msg: ExecuteMsg,
    r: Result<Response, ContractError>,
    id: u64,
)
    requires
        old.wf(),
        consumed(old, id),
        execute_spec(old, new, env, info, msg, r),
    ensures
        consumed(new, id),
{
    if r is Ok {
        match msg {
            ExecuteMsg::Unbond { dregen_amount } => {
                let rest = new.unbonding_requests@;
                assert forall|i: int| 0 <= i < rest.len() implies rest[i].id != id by {
                    if i < old.unbonding_requests@.len() {
                        assert(rest[i] == old.unbonding_requests@[i]);
                    }
                }
            },
            ExecuteMsg::ClaimUnbonding { unbonding_id } => {
                let reqs = old.unbonding_requests@;
                let k = position_of(reqs, unbonding_id);
                assert(0 <= k < reqs.len() && reqs[k].id == unbonding_id);
                let rest = new.unbonding_requests@;
                assert forall|i: int| 0 <= i < rest.len() implies rest[i].id != id by {
                    if i < k {
                        assert(rest[i] == reqs[i]);
                    } else {
                        assert(rest[i] == reqs[i + 1]);
                    }
                }
            },
            _ => {},
        }
    }
}

/// Claiming a consumed id fails `NotFound`, for any caller at any time, and
/// changes nothing. With the two lemmas above: a claimed id stays unclaimable
/// whatever operations follow.
pub proof fn lemma_consumed_claim_fails(
    old: Pool,
    new: Pool,
    env: Env,
    info: MessageInfo,
    id: u64,
    r: Result<Response, ContractError>,
)
    requires
        consumed(old, id),
        execute_spec(old, new, env, info, ExecuteMsg::ClaimUnbonding { unbonding_id: id }, r),
    ensures
        claim_error(old, env, info.sender, id) == Some(ContractError::NotFound { unbonding_id: id }),
        r == Err::<Response, ContractError>(ContractError::NotFound { unbonding_id: id }),
        new == old,
{
    assert(!(exists|i: int|
        0 <= i < old.unbonding_requests@.len() && old.unbonding_requests@[i].id == id));
}

} // verus!
