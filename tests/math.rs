use std::str::FromStr;

use regen_liquid_staking::decimal::Decimal;
use regen_liquid_staking::distribution::calculate_validator_distribution;
use regen_liquid_staking::error::ContractError;
use regen_liquid_staking::math::{
    calculate_apr, calculate_dregen_mint_amount, calculate_exchange_rate, calculate_fee,
    calculate_regen_return_amount,
};

fn dec(s: &str) -> Decimal {
    Decimal::raw(cosmwasm_std::Decimal::from_str(s).unwrap().atomics().u128())
}

#[test]
fn test_exchange_rate_calculation() {
    let rate = calculate_exchange_rate(1_000_000, 1_000_000, 100_000).unwrap();

    assert_eq!(rate, dec("1.1"));
}

#[test]
fn test_dregen_mint_calculation() {
    let dregen_amount = calculate_dregen_mint_amount(1_100, dec("1.1")).unwrap();

    assert_eq!(dregen_amount, 1_000);
}

#[test]
fn test_validator_distribution() {
    let validators = vec![
        ("validator1".to_string(), Decimal::percent(50)),
        ("validator2".to_string(), Decimal::percent(30)),
        ("validator3".to_string(), Decimal::percent(20)),
    ];

    let distribution = calculate_validator_distribution(1_000_000, &validators).unwrap();

    assert_eq!(distribution.len(), 3);
    assert_eq!(distribution[0].1, 500_000);
    assert_eq!(distribution[1].1, 300_000);
    assert_eq!(distribution[2].1, 200_000);
}

#[test]
fn rate_is_one_without_supply() {
    assert_eq!(calculate_exchange_rate(0, 0, 0).unwrap(), Decimal::one());
    assert_eq!(calculate_exchange_rate(5_000, 0, 7_000).unwrap(), Decimal::one());
}

#[test]
fn rate_counts_rewards() {
    // (900 + 100) / 800 = 1.25
    assert_eq!(calculate_exchange_rate(900, 800, 100).unwrap(), dec("1.25"));
    // 2 / 3 rounds down at the eighteenth digit
    assert_eq!(calculate_exchange_rate(2, 3, 0).unwrap(), Decimal::raw(666_666_666_666_666_666));
}

#[test]
fn rate_overflow_is_reported() {
    assert_eq!(calculate_exchange_rate(u128::MAX, 1, 1), Err(ContractError::Overflow {}));
    assert_eq!(calculate_exchange_rate(u128::MAX / 2, 1, 0), Err(ContractError::Overflow {}));
}

#[test]
fn mint_rounds_down() {
    // 1000 / 1.5 = 666.66...
    assert_eq!(calculate_dregen_mint_amount(1_000, dec("1.5")).unwrap(), 666);
    assert_eq!(calculate_dregen_mint_amount(1_000, Decimal::one()).unwrap(), 1_000);
}

#[test]
fn mint_at_zero_rate_fails() {
    assert_eq!(calculate_dregen_mint_amount(1_000, Decimal::zero()), Err(ContractError::DivideByZero {}));
}

#[test]
fn mint_overflow_is_reported() {
    assert_eq!(calculate_dregen_mint_amount(u128::MAX, dec("0.5")), Err(ContractError::Overflow {}));
    // a large amount at rate one is fine
    assert_eq!(calculate_dregen_mint_amount(u128::MAX, Decimal::one()).unwrap(), u128::MAX);
}

#[test]
fn return_rounds_down() {
    // 999 * 1.5 = 1498.5
    assert_eq!(calculate_regen_return_amount(999, dec("1.5")).unwrap(), 1_498);
    assert_eq!(calculate_regen_return_amount(0, dec("1.5")).unwrap(), 0);
    assert_eq!(calculate_regen_return_amount(u128::MAX, dec("2")), Err(ContractError::Overflow {}));
}

#[test]
fn round_trip_never_gains() {
    for (p, r) in [(1_000u128, "1.1"), (7, "3"), (1, "0.3"), (123_456_789, "0.999999999999999999"), (10, "1")] {
        let rate = dec(r);
        let minted = calculate_dregen_mint_amount(p, rate).unwrap();
        let back = calculate_regen_return_amount(minted, rate).unwrap();
        assert!(back <= p, "{} at {} came back as {}", p, r, back);
    }
    // 7 at rate 3: mint 2, back 6
    assert_eq!(calculate_dregen_mint_amount(7, dec("3")).unwrap(), 2);
    assert_eq!(calculate_regen_return_amount(2, dec("3")).unwrap(), 6);
}

#[test]
fn fee_rounds_down() {
    assert_eq!(calculate_fee(10_000_000, Decimal::percent(5)).unwrap(), 500_000);
    assert_eq!(calculate_fee(19, Decimal::percent(5)).unwrap(), 0);
    assert_eq!(calculate_fee(1_234, Decimal::zero()).unwrap(), 0);
}

#[test]
fn fee_does_not_overflow_at_most_one() {
    assert_eq!(calculate_fee(u128::MAX, Decimal::one()).unwrap(), u128::MAX);
    assert_eq!(calculate_fee(u128::MAX, Decimal::percent(20)).unwrap(), u128::MAX / 5);
}

#[test]
fn apr_of_rewards() {
    // 10 rewards over 365 days on 100 staked: 10%
    assert_eq!(calculate_apr(100, 10, 365).unwrap(), dec("0.1"));
    assert_eq!(calculate_apr(0, 10, 365).unwrap(), Decimal::zero());
    assert_eq!(calculate_apr(100, 10, 0).unwrap(), Decimal::zero());
    // 1 over 30 days on 1000: 365/30 = 12.1666..., / 1000
    assert_eq!(calculate_apr(1_000, 1, 30).unwrap(), Decimal::raw(12_166_666_666_666_666));
}

#[test]
fn distribution_remainder_goes_to_last() {
    let validators = vec![
        ("validator1".to_string(), Decimal::percent(50)),
        ("validator2".to_string(), Decimal::percent(30)),
        ("validator3".to_string(), Decimal::percent(20)),
    ];
    let d = calculate_validator_distribution(1_000_001, &validators).unwrap();
    assert_eq!(
        d,
        vec![
            ("validator1".to_string(), 500_000),
            ("validator2".to_string(), 300_000),
            ("validator3".to_string(), 200_001),
        ]
    );
}

#[test]
fn distribution_sums_exactly_and_drops_zeros() {
    let validators = vec![
        ("a".to_string(), Decimal::percent(1)),
        ("b".to_string(), Decimal::percent(1)),
        ("c".to_string(), Decimal::percent(1)),
    ];
    let d = calculate_validator_distribution(10, &validators).unwrap();
    assert_eq!(d, vec![("a".to_string(), 3), ("b".to_string(), 3), ("c".to_string(), 4)]);

    let skewed = vec![
        ("a".to_string(), Decimal::percent(99)),
        ("b".to_string(), Decimal::percent(1)),
        ("c".to_string(), Decimal::zero()),
    ];
    let d = calculate_validator_distribution(50, &skewed).unwrap();
    // b's share rounds to zero and is left out; c takes the remainder
    assert_eq!(d, vec![("a".to_string(), 49), ("c".to_string(), 1)]);
    assert_eq!(d.iter().map(|e| e.1).sum::<u128>(), 50);

    assert_eq!(calculate_validator_distribution(0, &validators).unwrap(), vec![]);
}

#[test]
fn distribution_with_zero_weight_fails() {
    let none: Vec<(String, Decimal)> = vec![];
    assert_eq!(calculate_validator_distribution(100, &none), Err(ContractError::ZeroWeight {}));
    let zeros = vec![("a".to_string(), Decimal::zero()), ("b".to_string(), Decimal::zero())];
    assert_eq!(calculate_validator_distribution(100, &zeros), Err(ContractError::ZeroWeight {}));
}

#[test]
fn distribution_weight_overflow_fails() {
    let huge = vec![("a".to_string(), Decimal::raw(u128::MAX)), ("b".to_string(), Decimal::raw(1))];
    assert_eq!(calculate_validator_distribution(100, &huge), Err(ContractError::Overflow {}));
}

#[test]
fn distribution_of_large_amounts_is_exact() {
    let validators = vec![("a".to_string(), Decimal::raw(1)), ("b".to_string(), Decimal::raw(2))];
    let d = calculate_validator_distribution(u128::MAX, &validators).unwrap();
    assert_eq!(d[0].1, u128::MAX / 3);
    assert_eq!(d[0].1 + d[1].1, u128::MAX);
}
