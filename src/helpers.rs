use vstd::prelude::*;

use crate::error::ContractError;
use crate::msg::{Coin, MessageInfo};
use crate::state::Config;

verus! {

/// The principal's denomination.
pub const DENOM_REGEN: &'static str = "uregen";

/// The amount of the first coin in the principal's denomination, or zero.
pub open spec fn uregen_amount(funds: Seq<Coin>) -> int
    decreases funds.len(),
{
    if funds.len() == 0 {
        0
    } else if funds[0].denom@ == DENOM_REGEN@ {
        funds[0].amount as int
    } else {
        uregen_amount(funds.drop_first())
    }
}

/// The principal attached to a call.
pub fn extract_uregen_amount(info: &MessageInfo) -> (r: u128)
    ensures
        r == uregen_amount(info.funds@),
{
    let denom = DENOM_REGEN.to_owned();
    let n = info.funds.len();
    let mut i: usize = 0;
    proof {
        assert(info.funds@.skip(0) =~= info.funds@);
    }
    while i < n
        invariant
            n == info.funds@.len(),
            0 <= i <= n,
            denom@ == DENOM_REGEN@,
            uregen_amount(info.funds@) == uregen_amount(info.funds@.skip(i as int)),
        decreases n - i,
    {
        proof {
            assert(info.funds@.skip(i as int).drop_first() =~= info.funds@.skip(i as int + 1));
        }
        if info.funds[i].denom == denom {
            return info.funds[i].amount;
        }
        i = i + 1;
    }
    0
}

/// Fails `ContractPaused` while the pool is paused.
pub fn ensure_not_paused(config: &Config) -> (r: Result<(), ContractError>)
    ensures
        r == (if config.pause_contract {
            Err(ContractError::ContractPaused {})
        } else {
            Ok(())
        }),
{
    if config.pause_contract {
        return Err(ContractError::ContractPaused {});
    }
    Ok(())
}

/// Fails `Unauthorized` unless `sender` is the admin.
pub fn ensure_admin(sender: &String, config: &Config) -> (r: Result<(), ContractError>)
    ensures
        r == (if sender@ == config.admin@ {
            Ok(())
        } else {
            Err(ContractError::Unauthorized {})
        }),
{
    if *sender != config.admin {
        return Err(ContractError::Unauthorized {});
    }
    Ok(())
}

} // verus!
