use regen_liquid_staking::contract::{execute, instantiate, query};
use regen_liquid_staking::decimal::Decimal;
use regen_liquid_staking::error::ContractError;
use regen_liquid_staking::msg::{
    Coin, Effect, Env, Event, ExecuteMsg, InstantiateMsg, MessageInfo, QueryMsg, QueryResponse,
    ValidatorParams,
};
use regen_liquid_staking::state::Pool;

const NOW: u64 = 1_571_797_419;
const PERIOD: u64 = 21 * 24 * 60 * 60;

fn env_at(block_time: u64) -> Env {
    Env { block_time, accrued_rewards: 0 }
}

fn mock_info(sender: &str, funds: &[(u128, &str)]) -> MessageInfo {
    MessageInfo {
        sender: sender.to_string(),
        funds: funds
            .iter()
            .map(|(amount, denom)| Coin { denom: denom.to_string(), amount: *amount })
            .collect(),
    }
}

fn setup(validators: Vec<(&str, u64)>) -> Pool {
    let msg = InstantiateMsg {
        admin: "admin".to_string(),
        fee_rate: Decimal::percent(5),
        unbonding_period: PERIOD,
        max_validators: 10,
        min_delegation: 1_000_000,
        dregen_token: Some("dregen".to_string()),
        validators: validators
            .into_iter()
            .map(|(a, w)| ValidatorParams { address: a.to_string(), weight: Decimal::percent(w) })
            .collect(),
    };
    instantiate(&env_at(NOW), &mock_info("creator", &[]), msg).unwrap().0
}

/// Scenario A: one delegate at 100%, a stake of 10,000,000.
fn staked_pool() -> Pool {
    let mut pool = setup(vec![("regenvaloper1test1", 100)]);
    execute(&mut pool, &env_at(NOW), &mock_info("user", &[(10_000_000, "uregen")]), ExecuteMsg::Stake {})
        .unwrap();
    pool
}

#[test]
fn test_instantiate() {
    let msg = InstantiateMsg {
        admin: "admin".to_string(),
        fee_rate: Decimal::percent(5),
        unbonding_period: 21 * 24 * 60 * 60, // 21 days
        max_validators: 10,
        min_delegation: 1_000_000,
        dregen_token: None,
        validators: vec![
            ValidatorParams { address: "regenvaloper1test1".to_string(), weight: Decimal::percent(50) },
            ValidatorParams { address: "regenvaloper1test2".to_string(), weight: Decimal::percent(50) },
        ],
    };

    let info = mock_info("creator", &[(1000, "uregen")]);
    let (pool, res) = instantiate(&env_at(NOW), &info, msg).unwrap();

    assert_eq!(0, res.messages.len());

    let cfg = match query(&pool, &env_at(NOW), QueryMsg::Config {}).unwrap() {
        QueryResponse::Config(c) => c,
        other => panic!("unexpected {:?}", other),
    };
    assert_eq!("admin", cfg.admin);
    assert_eq!(Decimal::percent(5), cfg.fee_rate);
}

#[test]
fn test_stake_flow() {
    let mut pool = setup(vec![("regenvaloper1test1", 100)]);

    let stake_info = mock_info("user", &[(10_000_000, "uregen")]);
    let res = execute(&mut pool, &env_at(NOW), &stake_info, ExecuteMsg::Stake {}).unwrap();

    // expect delegate and mint messages
    assert!(res.messages.len() >= 2);
}

#[test]
fn instantiate_rejects_high_fee() {
    let msg = InstantiateMsg {
        admin: "admin".to_string(),
        fee_rate: Decimal::percent(21),
        unbonding_period: PERIOD,
        max_validators: 10,
        min_delegation: 1,
        dregen_token: None,
        validators: vec![],
    };
    assert_eq!(instantiate(&env_at(NOW), &mock_info("c", &[]), msg).unwrap_err(), ContractError::InvalidFeeRate {});
}

#[test]
fn scenario_a_stake() {
    let mut pool = setup(vec![("regenvaloper1test1", 100)]);
    let res = execute(
        &mut pool,
        &env_at(NOW),
        &mock_info("user", &[(10_000_000, "uregen")]),
        ExecuteMsg::Stake {},
    )
    .unwrap();
    assert_eq!(
        res.messages,
        vec![
            Effect::Delegate { validator: "regenvaloper1test1".to_string(), amount: 9_500_000 },
            Effect::Mint { token: "dregen".to_string(), recipient: "user".to_string(), amount: 9_500_000 },
            Effect::Send { to_address: "admin".to_string(), amount: 500_000 },
        ]
    );
    assert_eq!(
        res.event,
        Event::Stake {
            staker: "user".to_string(),
            regen_amount: 10_000_000,
            dregen_amount: 9_500_000,
            exchange_rate: Decimal::one(),
            fee_amount: 500_000,
        }
    );
    assert_eq!(pool.validators[0].delegated_amount, 9_500_000);
    assert_eq!(pool.state.total_regen_staked, 9_500_000);
    assert_eq!(pool.state.total_dregen_supply, 9_500_000);
    assert_eq!(pool.state.exchange_rate, Decimal::one());
}

#[test]
fn scenario_b_unbond() {
    let mut pool = staked_pool();
    let res = execute(&mut pool, &env_at(NOW), &mock_info("user", &[]), ExecuteMsg::Unbond { dregen_amount: 5_000_000 })
        .unwrap();
    assert_eq!(
        res.messages,
        vec![
            Effect::Undelegate { validator: "regenvaloper1test1".to_string(), amount: 4_750_000 },
            Effect::BurnFrom { token: "dregen".to_string(), owner: "user".to_string(), amount: 5_000_000 },
        ]
    );
    assert_eq!(
        res.event,
        Event::Unbond {
            user: "user".to_string(),
            dregen_amount: 5_000_000,
            regen_amount: 4_750_000,
            unbonding_id: 0,
            completion_time: NOW + PERIOD,
            exchange_rate: Decimal::one(),
        }
    );
    assert_eq!(pool.validators[0].delegated_amount, 4_750_000);
    assert_eq!(pool.state.pending_unbonding, 4_750_000);
    assert_eq!(pool.state.total_regen_staked, 4_750_000);
    assert_eq!(pool.state.total_dregen_supply, 4_500_000);
    // the cached rate follows the new totals: 4,750,000 / 4,500,000
    assert_eq!(pool.state.exchange_rate, Decimal::raw(1_055_555_555_555_555_555));
    assert_eq!(pool.unbonding_requests.len(), 1);
    let req = &pool.unbonding_requests[0];
    assert_eq!(req.user, "user");
    assert_eq!(req.dregen_amount, 5_000_000);
    assert_eq!(req.regen_amount, 4_750_000);
    assert_eq!(req.completion_time, NOW + PERIOD);
    assert_eq!(pool.next_unbonding_id, 1);
}

#[test]
fn scenario_c_claim() {
    let mut pool = staked_pool();
    execute(&mut pool, &env_at(NOW), &mock_info("user", &[]), ExecuteMsg::Unbond { dregen_amount: 5_000_000 })
        .unwrap();

    let early = execute(
        &mut pool,
        &env_at(NOW + PERIOD - 1),
        &mock_info("user", &[]),
        ExecuteMsg::ClaimUnbonding { unbonding_id: 0 },
    );
    assert_eq!(early.unwrap_err(), ContractError::UnbondingNotComplete { completion_time: NOW + PERIOD });
    assert_eq!(pool.unbonding_requests.len(), 1);

    let res = execute(
        &mut pool,
        &env_at(NOW + PERIOD),
        &mock_info("user", &[]),
        ExecuteMsg::ClaimUnbonding { unbonding_id: 0 },
    )
    .unwrap();
    assert_eq!(res.messages, vec![Effect::Send { to_address: "user".to_string(), amount: 4_750_000 }]);
    assert!(pool.unbonding_requests.is_empty());
    assert_eq!(pool.state.pending_unbonding, 0);
}

#[test]
fn claim_twice_fails_not_found() {
    let mut pool = staked_pool();
    execute(&mut pool, &env_at(NOW), &mock_info("user", &[]), ExecuteMsg::Unbond { dregen_amount: 1_000_000 })
        .unwrap();
    let later = env_at(NOW + PERIOD + 5);
    execute(&mut pool, &later, &mock_info("user", &[]), ExecuteMsg::ClaimUnbonding { unbonding_id: 0 }).unwrap();
    let again = execute(&mut pool, &later, &mock_info("user", &[]), ExecuteMsg::ClaimUnbonding { unbonding_id: 0 });
    assert_eq!(again.unwrap_err(), ContractError::NotFound { unbonding_id: 0 });
}

#[test]
fn claim_by_another_user_fails() {
    let mut pool = staked_pool();
    execute(&mut pool, &env_at(NOW), &mock_info("user", &[]), ExecuteMsg::Unbond { dregen_amount: 1_000_000 })
        .unwrap();
    let before = pool.clone();
    let res = execute(
        &mut pool,
        &env_at(NOW + PERIOD),
        &mock_info("thief", &[]),
        ExecuteMsg::ClaimUnbonding { unbonding_id: 0 },
    );
    assert_eq!(res.unwrap_err(), ContractError::Unauthorized {});
    assert_eq!(pool, before);
}

#[test]
fn unbond_zero_fails() {
    let mut pool = staked_pool();
    let res = execute(&mut pool, &env_at(NOW), &mock_info("user", &[]), ExecuteMsg::Unbond { dregen_amount: 0 });
    assert_eq!(res.unwrap_err(), ContractError::InvalidUnbondAmount {});
}

#[test]
fn stake_below_minimum_fails() {
    let mut pool = setup(vec![("v1", 100)]);
    let before = pool.clone();
    let res = execute(&mut pool, &env_at(NOW), &mock_info("user", &[(999_999, "uregen")]), ExecuteMsg::Stake {});
    assert_eq!(res.unwrap_err(), ContractError::InsufficientStake { minimum: 1_000_000, received: 999_999 });
    // coins of another denomination do not count
    let res = execute(&mut pool, &env_at(NOW), &mock_info("user", &[(5_000_000, "uatom")]), ExecuteMsg::Stake {});
    assert_eq!(res.unwrap_err(), ContractError::InsufficientStake { minimum: 1_000_000, received: 0 });
    assert_eq!(pool, before);
}

#[test]
fn update_config_rejects_high_fee() {
    let mut pool = setup(vec![("v1", 100)]);
    let before = pool.clone();
    let msg = ExecuteMsg::UpdateConfig {
        admin: Some("other".to_string()),
        fee_rate: Some(Decimal::percent(21)),
        max_validators: None,
        dregen_token: None,
    };
    assert_eq!(execute(&mut pool, &env_at(NOW), &mock_info("admin", &[]), msg).unwrap_err(), ContractError::InvalidFeeRate {});
    assert_eq!(pool, before);

    let msg = ExecuteMsg::UpdateConfig {
        admin: None,
        fee_rate: Some(Decimal::percent(20)),
        max_validators: Some(3),
        dregen_token: Some("token2".to_string()),
    };
    execute(&mut pool, &env_at(NOW), &mock_info("admin", &[]), msg).unwrap();
    assert_eq!(pool.config.fee_rate, Decimal::percent(20));
    assert_eq!(pool.config.max_validators, 3);
    assert_eq!(pool.config.dregen_token, "token2");
    assert_eq!(pool.config.admin, "admin");
}

#[test]
fn scenario_d_stake_split() {
    let mut pool = setup(vec![("v1", 50), ("v2", 30), ("v3", 20)]);
    // 1,052,632 less a 5% fee of 52,631 leaves 1,000,001
    let res = execute(&mut pool, &env_at(NOW), &mock_info("user", &[(1_052_632, "uregen")]), ExecuteMsg::Stake {})
        .unwrap();
    assert_eq!(
        &res.messages[..3],
        &[
            Effect::Delegate { validator: "v1".to_string(), amount: 500_000 },
            Effect::Delegate { validator: "v2".to_string(), amount: 300_000 },
            Effect::Delegate { validator: "v3".to_string(), amount: 200_001 },
        ]
    );
    let amounts: Vec<u128> = pool.validators.iter().map(|v| v.delegated_amount).collect();
    assert_eq!(amounts, vec![500_000, 300_000, 200_001]);
}

#[test]
fn unbond_weighs_by_current_delegation() {
    let mut pool = setup(vec![("v1", 50), ("v2", 50)]);
    execute(&mut pool, &env_at(NOW), &mock_info("user", &[(2_000_000, "uregen")]), ExecuteMsg::Stake {}).unwrap();
    // the new set weighs v2 only; v1 keeps its delegation but leaves the active set
    execute(
        &mut pool,
        &env_at(NOW),
        &mock_info("admin", &[]),
        ExecuteMsg::UpdateValidators {
            validators: vec![
                ValidatorParams { address: "v2".to_string(), weight: Decimal::percent(100) },
                ValidatorParams { address: "v3".to_string(), weight: Decimal::percent(100) },
            ],
        },
    )
    .unwrap();
    assert_eq!(pool.validators.len(), 3);
    assert!(!pool.validators[0].is_active);
    assert_eq!(pool.validators[0].delegated_amount, 950_000);
    assert!(pool.validators[2].is_active);
    assert_eq!(pool.validators[2].delegated_amount, 0);

    // only v2 holds an active delegation, so the whole unbond comes from it
    let res = execute(&mut pool, &env_at(NOW), &mock_info("user", &[]), ExecuteMsg::Unbond { dregen_amount: 100_000 })
        .unwrap();
    assert_eq!(res.messages[0], Effect::Undelegate { validator: "v2".to_string(), amount: 95_000 });
    assert_eq!(pool.validators[1].delegated_amount, 855_000);
    assert_eq!(pool.validators[0].delegated_amount, 950_000);
}

#[test]
fn paused_pool_refuses_stake_and_unbond() {
    let mut pool = staked_pool();
    assert_eq!(
        execute(&mut pool, &env_at(NOW), &mock_info("user", &[]), ExecuteMsg::Pause {}).unwrap_err(),
        ContractError::Unauthorized {}
    );
    execute(&mut pool, &env_at(NOW), &mock_info("admin", &[]), ExecuteMsg::Pause {}).unwrap();
    assert!(pool.config.pause_contract);
    let stake = execute(&mut pool, &env_at(NOW), &mock_info("user", &[(2_000_000, "uregen")]), ExecuteMsg::Stake {});
    assert_eq!(stake.unwrap_err(), ContractError::ContractPaused {});
    let unbond = execute(&mut pool, &env_at(NOW), &mock_info("user", &[]), ExecuteMsg::Unbond { dregen_amount: 1 });
    assert_eq!(unbond.unwrap_err(), ContractError::ContractPaused {});
    execute(&mut pool, &env_at(NOW), &mock_info("admin", &[]), ExecuteMsg::Resume {}).unwrap();
    execute(&mut pool, &env_at(NOW), &mock_info("user", &[(2_000_000, "uregen")]), ExecuteMsg::Stake {}).unwrap();
}

#[test]
fn stake_without_active_delegates_fails_zero_weight() {
    let mut pool = setup(vec![]);
    let res = execute(&mut pool, &env_at(NOW), &mock_info("user", &[(10_000_000, "uregen")]), ExecuteMsg::Stake {});
    assert_eq!(res.unwrap_err(), ContractError::ZeroWeight {});
}

#[test]
fn too_many_validators_fails() {
    let mut pool = setup(vec![("v1", 100)]);
    let validators: Vec<ValidatorParams> = (0..11)
        .map(|i| ValidatorParams { address: format!("v{}", i), weight: Decimal::percent(1) })
        .collect();
    let res = execute(&mut pool, &env_at(NOW), &mock_info("admin", &[]), ExecuteMsg::UpdateValidators { validators });
    assert_eq!(res.unwrap_err(), ContractError::TooManyValidators { max_validators: 10, requested: 11 });
}

#[test]
fn claim_rewards_asks_every_active_delegate() {
    let mut pool = setup(vec![("v1", 50), ("v2", 50)]);
    assert_eq!(
        execute(&mut pool, &env_at(NOW), &mock_info("user", &[]), ExecuteMsg::ClaimRewards {}).unwrap_err(),
        ContractError::Unauthorized {}
    );
    let res = execute(&mut pool, &env_at(NOW), &mock_info("admin", &[]), ExecuteMsg::ClaimRewards {}).unwrap();
    assert_eq!(
        res.messages,
        vec![
            Effect::WithdrawDelegatorReward { validator: "v1".to_string() },
            Effect::WithdrawDelegatorReward { validator: "v2".to_string() },
        ]
    );
}

#[test]
fn rewards_raise_the_rate() {
    let mut pool = staked_pool();
    // 9,500,000 staked + 950,000 rewards over 9,500,000 supply: rate 1.1
    let env = Env { block_time: NOW, accrued_rewards: 950_000 };
    match query(&pool, &env, QueryMsg::ExchangeRate {}).unwrap() {
        QueryResponse::ExchangeRate(x) => {
            assert_eq!(x.rate, Decimal::raw(1_100_000_000_000_000_000));
            assert_eq!(x.last_updated, NOW);
        }
        other => panic!("unexpected {:?}", other),
    }
    let res = execute(&mut pool, &env, &mock_info("user2", &[(2_200_000, "uregen")]), ExecuteMsg::Stake {}).unwrap();
    // fee 110,000; net 2,090,000; minted 2,090,000 / 1.1 = 1,900,000
    assert_eq!(res.messages[1], Effect::Mint { token: "dregen".to_string(), recipient: "user2".to_string(), amount: 1_900_000 });
}

#[test]
fn simulations_match_operations() {
    let mut pool = staked_pool();
    let env = Env { block_time: NOW + 7, accrued_rewards: 950_000 };
    let sim = match query(&pool, &env, QueryMsg::SimulateStake { amount: 3_000_000 }).unwrap() {
        QueryResponse::SimulateStake(s) => s,
        other => panic!("unexpected {:?}", other),
    };
    let res = execute(&mut pool, &env, &mock_info("u", &[(3_000_000, "uregen")]), ExecuteMsg::Stake {}).unwrap();
    match res.event {
        Event::Stake { dregen_amount, exchange_rate, fee_amount, .. } => {
            assert_eq!(dregen_amount, sim.dregen_amount);
            assert_eq!(exchange_rate, sim.exchange_rate);
            assert_eq!(fee_amount, sim.fee_amount);
        }
        other => panic!("unexpected {:?}", other),
    }

    let sim = match query(&pool, &env, QueryMsg::SimulateUnbond { dregen_amount: 1_000_000 }).unwrap() {
        QueryResponse::SimulateUnbond(s) => s,
        other => panic!("unexpected {:?}", other),
    };
    let res = execute(&mut pool, &env, &mock_info("u", &[]), ExecuteMsg::Unbond { dregen_amount: 1_000_000 }).unwrap();
    match res.event {
        Event::Unbond { regen_amount, completion_time, .. } => {
            assert_eq!(regen_amount, sim.regen_amount);
            assert_eq!(completion_time, sim.completion_time);
        }
        other => panic!("unexpected {:?}", other),
    }
}

#[test]
fn queries_report_state_and_requests() {
    let mut pool = staked_pool();
    execute(&mut pool, &env_at(NOW), &mock_info("user", &[]), ExecuteMsg::Unbond { dregen_amount: 1_000_000 }).unwrap();
    execute(&mut pool, &env_at(NOW + 1), &mock_info("user", &[]), ExecuteMsg::Unbond { dregen_amount: 2_000_000 }).unwrap();
    match query(&pool, &env_at(NOW), QueryMsg::Unbonding { user: "user".to_string() }).unwrap() {
        QueryResponse::Unbonding(u) => {
            let ids: Vec<u64> = u.requests.iter().map(|r| r.id).collect();
            assert_eq!(ids, vec![0, 1]);
        }
        other => panic!("unexpected {:?}", other),
    }
    match query(&pool, &env_at(NOW), QueryMsg::Unbonding { user: "nobody".to_string() }).unwrap() {
        QueryResponse::Unbonding(u) => assert!(u.requests.is_empty()),
        other => panic!("unexpected {:?}", other),
    }
    match query(&pool, &env_at(NOW), QueryMsg::State {}).unwrap() {
        QueryResponse::State(s) => {
            // the first unbond leaves its fee in the pool: 8,550,000 over 8,500,000
            // makes the second worth floor(2,000,000 * 1.005882352941176470)
            // = 2,011,764, less a fee of 100,588
            assert_eq!(s.pending_unbonding, 950_000 + 1_911_176);
            assert_eq!(s.total_dregen_supply, 9_500_000 - 3_000_000);
            assert_eq!(s.last_update_time, NOW + 1);
        }
        other => panic!("unexpected {:?}", other),
    }
    match query(&pool, &env_at(NOW), QueryMsg::Validators {}).unwrap() {
        QueryResponse::Validators(v) => assert_eq!(v.validators, pool.validators),
        other => panic!("unexpected {:?}", other),
    }
}

#[test]
fn delegations_add_up_to_staked_total() {
    let mut pool = setup(vec![("v1", 33), ("v2", 33), ("v3", 34)]);
    let sum = |p: &Pool| p.validators.iter().map(|v| v.delegated_amount).sum::<u128>();
    let env = env_at(NOW);
    execute(&mut pool, &env, &mock_info("a", &[(3_333_333, "uregen")]), ExecuteMsg::Stake {}).unwrap();
    assert_eq!(sum(&pool), pool.state.total_regen_staked);
    execute(&mut pool, &env, &mock_info("b", &[(7_777_777, "uregen")]), ExecuteMsg::Stake {}).unwrap();
    assert_eq!(sum(&pool), pool.state.total_regen_staked);
    execute(&mut pool, &env, &mock_info("a", &[]), ExecuteMsg::Unbond { dregen_amount: 1_234_567 }).unwrap();
    assert_eq!(sum(&pool), pool.state.total_regen_staked);
    execute(
        &mut pool,
        &env,
        &mock_info("admin", &[]),
        ExecuteMsg::UpdateValidators {
            validators: vec![ValidatorParams { address: "v4".to_string(), weight: Decimal::percent(100) }],
        },
    )
    .unwrap();
    execute(&mut pool, &env, &mock_info("b", &[(2_000_000, "uregen")]), ExecuteMsg::Stake {}).unwrap();
    assert_eq!(pool.validators[3].delegated_amount, 1_900_000);
    assert_eq!(sum(&pool), pool.state.total_regen_staked);
}

#[test]
fn unbond_beyond_active_delegations_fails_underflow() {
    let mut pool = setup(vec![("v1", 50), ("v2", 50)]);
    execute(&mut pool, &env_at(NOW), &mock_info("user", &[(2_000_000, "uregen")]), ExecuteMsg::Stake {}).unwrap();
    // v1 leaves the active set holding 950,000; v2 alone holds 950,000 actively
    execute(
        &mut pool,
        &env_at(NOW),
        &mock_info("admin", &[]),
        ExecuteMsg::UpdateValidators {
            validators: vec![ValidatorParams { address: "v2".to_string(), weight: Decimal::percent(100) }],
        },
    )
    .unwrap();
    let before = pool.clone();
    // 1,500,000 derivative owes 1,425,000 after the fee, more than v2 holds
    let res = execute(&mut pool, &env_at(NOW), &mock_info("user", &[]), ExecuteMsg::Unbond { dregen_amount: 1_500_000 });
    assert_eq!(res.unwrap_err(), ContractError::Underflow {});
    assert_eq!(pool, before);
}

#[test]
fn test_full_staking_cycle() {
    let msg = InstantiateMsg {
        admin: "admin".to_string(),
        fee_rate: Decimal::percent(5),
        unbonding_period: 1814400, // 21 days
        max_validators: 10,
        min_delegation: 1_000_000,
        dregen_token: None,
        validators: vec![],
    };
    let (mut pool, _) = instantiate(&env_at(NOW), &mock_info("creator", &[]), msg).unwrap();
    let before = pool.clone();

    // with no delegates there is no weight to distribute the stake over
    let stake = execute(&mut pool, &env_at(NOW), &mock_info("user", &[(10_000_000, "uregen")]), ExecuteMsg::Stake {});
    assert_eq!(stake.unwrap_err(), ContractError::ZeroWeight {});
    assert_eq!(pool, before);

    // nothing was minted, so nothing can be redeemed
    let unbond = execute(&mut pool, &env_at(NOW), &mock_info("user", &[]), ExecuteMsg::Unbond { dregen_amount: 5_000_000 });
    assert!(unbond.is_err());
    assert_eq!(pool, before);

    match query(&pool, &env_at(NOW), QueryMsg::State {}).unwrap() {
        QueryResponse::State(s) => assert_eq!(s.total_regen_staked, 0),
        other => panic!("unexpected {:?}", other),
    }
}

#[test]
fn full_unbond_returns_rate_to_one() {
    let mut pool = staked_pool();
    execute(&mut pool, &env_at(NOW), &mock_info("user", &[]), ExecuteMsg::Unbond { dregen_amount: 9_500_000 })
        .unwrap();
    assert_eq!(pool.state.total_dregen_supply, 0);
    assert_eq!(pool.state.exchange_rate, Decimal::one());
}

#[test]
fn claimed_id_stays_consumed_after_later_unbonds() {
    let mut pool = staked_pool();
    execute(&mut pool, &env_at(NOW), &mock_info("user", &[]), ExecuteMsg::Unbond { dregen_amount: 1_000_000 }).unwrap();
    let later = env_at(NOW + PERIOD);
    execute(&mut pool, &later, &mock_info("user", &[]), ExecuteMsg::ClaimUnbonding { unbonding_id: 0 }).unwrap();
    execute(&mut pool, &later, &mock_info("user", &[]), ExecuteMsg::Unbond { dregen_amount: 1_000_000 }).unwrap();
    assert_eq!(pool.unbonding_requests[0].id, 1);
    let again = execute(&mut pool, &env_at(NOW + 3 * PERIOD), &mock_info("user", &[]), ExecuteMsg::ClaimUnbonding { unbonding_id: 0 });
    assert_eq!(again.unwrap_err(), ContractError::NotFound { unbonding_id: 0 });
}
