use liquidity_bank::error::LendingError;
use liquidity_bank::key::Pubkey;
use liquidity_bank::lending::{
    accrue_interest, add_reserve, borrow, calculate_health_factor, claim_rewards, deposit,
    initialize_market, liquidate, migrate_user_position, repay, update_reserve_config, withdraw,
    LendingMarket, Reserve, ReserveConfig, RewardEpoch, UserPosition, WAD,
};

fn key(b: u8) -> Pubkey {
    Pubkey::new_from_array([b; 32])
}

fn reserve(total_deposits: u64, total_borrows: u64) -> Reserve {
    Reserve {
        market: key(1),
        mint: key(2),
        vault: key(3),
        liquidation_threshold: 8000,
        ltv: 7000,
        liquidation_bonus: 500,
        total_deposits,
        total_borrows,
        cumulative_borrow_rate: WAD,
        last_update_timestamp: 100,
        bump: 7,
        vault_bump: 0,
    }
}

fn position(deposited: u64, borrowed: u64) -> UserPosition {
    UserPosition { deposited_amount: deposited, borrowed_amount: borrowed, version: 1 }
}

#[test]
fn market_starts_without_reserves() {
    let m = initialize_market(key(9), 254);
    assert_eq!(m, LendingMarket { admin: key(9), bump: 254, reserve_count: 0 });
}

#[test]
fn add_reserve_checks_risk_parameters() {
    let mut m = initialize_market(key(9), 254);
    let r = add_reserve(&mut m, key(1), key(2), key(3), 8000, 7000, 500, 1_700_000_000, 5, 6).unwrap();
    assert_eq!(r.cumulative_borrow_rate, WAD);
    assert_eq!(r.last_update_timestamp, 1_700_000_000);
    assert_eq!(r.total_deposits, 0);
    assert_eq!(r.ltv, 7000);
    assert_eq!(m.reserve_count, 1);
    assert_eq!(
        add_reserve(&mut m, key(1), key(2), key(3), 7000, 8000, 500, 0, 5, 6),
        Err(LendingError::InvalidRiskConfig)
    );
    assert_eq!(
        add_reserve(&mut m, key(1), key(2), key(3), 10_001, 100, 500, 0, 5, 6),
        Err(LendingError::InvalidRiskConfig)
    );
    assert_eq!(m.reserve_count, 1);
    assert!(add_reserve(&mut m, key(1), key(2), key(3), 10_000, 10_000, 0, 0, 5, 6).is_ok());
    assert_eq!(m.reserve_count, 2);
}

#[test]
fn update_reserve_config_keeps_ltv_below_threshold() {
    let mut r = reserve(0, 0);
    assert_eq!(
        update_reserve_config(&mut r, ReserveConfig { ltv: 9000, liquidation_threshold: 8500, liquidation_bonus: 0 }),
        Err(LendingError::InvalidRiskConfig)
    );
    assert_eq!(r, reserve(0, 0));
    update_reserve_config(&mut r, ReserveConfig { ltv: 6000, liquidation_threshold: 20_000, liquidation_bonus: 100 }).unwrap();
    assert_eq!((r.ltv, r.liquidation_threshold, r.liquidation_bonus), (6000, 20_000, 100));
}

#[test]
fn health_factor_values() {
    let r = reserve(0, 0);
    assert_eq!(calculate_health_factor(1000, 0, &r), Ok(u64::MAX));
    assert_eq!(calculate_health_factor(1000, 500, &r), Ok(1_600_000_000));
    assert_eq!(calculate_health_factor(1000, 800, &r), Ok(1_000_000_000));
    assert_eq!(calculate_health_factor(1000, 801, &r), Ok(998_751_560));
    // The quotient is capped at the largest u64.
    assert_eq!(calculate_health_factor(u64::MAX, 1, &r), Ok(u64::MAX));
    let mut full = r;
    full.liquidation_threshold = 10_000;
    assert_eq!(calculate_health_factor(18_446_744_074, 1, &full), Ok(u64::MAX));
    assert_eq!(calculate_health_factor(18_446_744_073, 1, &full), Ok(18_446_744_073_000_000_000));
}

#[test]
fn deposit_updates_reserve_and_position() {
    let mut r = reserve(100, 0);
    let mut p = position(10, 0);
    deposit(&mut r, &mut p, 50).unwrap();
    assert_eq!(r.total_deposits, 150);
    assert_eq!(p.deposited_amount, 60);
    assert_eq!(deposit(&mut r, &mut p, 0), Err(LendingError::InvalidAmount));
    let mut full = reserve(u64::MAX, 0);
    let mut p2 = position(0, 0);
    assert_eq!(deposit(&mut full, &mut p2, 1), Err(LendingError::MathOverflow));
    assert_eq!(full, reserve(u64::MAX, 0));
    assert_eq!(p2, position(0, 0));
}

#[test]
fn withdraw_checks_collateral_and_health() {
    let mut r = reserve(1000, 500);
    let mut p = position(1000, 500);
    assert_eq!(withdraw(&mut r, &mut p, 0), Err(LendingError::InvalidAmount));
    assert_eq!(withdraw(&mut r, &mut p, 1001), Err(LendingError::InsufficientCollateral));
    assert_eq!(withdraw(&mut r, &mut p, 400), Err(LendingError::HealthFactorTooLow));
    assert_eq!((r, p), (reserve(1000, 500), position(1000, 500)));
    withdraw(&mut r, &mut p, 375).unwrap();
    assert_eq!(r.total_deposits, 625);
    assert_eq!(p.deposited_amount, 625);
    let mut short = reserve(10, 0);
    let mut p2 = position(20, 0);
    assert_eq!(withdraw(&mut short, &mut p2, 15), Err(LendingError::MathOverflow));
}

#[test]
fn borrow_respects_ltv() {
    let mut r = reserve(1000, 0);
    let mut p = position(1000, 0);
    assert_eq!(borrow(&mut r, &mut p, 0), Err(LendingError::InvalidAmount));
    assert_eq!(borrow(&mut r, &mut p, 701), Err(LendingError::ExceedsLtvLimit));
    borrow(&mut r, &mut p, 700).unwrap();
    assert_eq!(p.borrowed_amount, 700);
    assert_eq!(r.total_borrows, 700);
    assert_eq!(borrow(&mut r, &mut p, 1), Err(LendingError::ExceedsLtvLimit));
    let mut r2 = reserve(0, 0);
    let mut p2 = position(0, u64::MAX);
    assert_eq!(borrow(&mut r2, &mut p2, 1), Err(LendingError::MathOverflow));
    let mut r3 = reserve(0, u64::MAX);
    let mut p3 = position(1000, 0);
    assert_eq!(borrow(&mut r3, &mut p3, 1), Err(LendingError::MathOverflow));
    assert_eq!(p3, position(1000, 0));
}

#[test]
fn repay_caps_at_debt() {
    let mut r = reserve(1000, 300);
    let mut p = position(1000, 300);
    assert_eq!(repay(&mut r, &mut p, 0), Err(LendingError::InvalidAmount));
    assert_eq!(repay(&mut r, &mut p, 100), Ok(100));
    assert_eq!(repay(&mut r, &mut p, 1000), Ok(200));
    assert_eq!((r.total_borrows, p.borrowed_amount), (0, 0));
    let mut thin = reserve(0, 5);
    let mut p2 = position(0, 10);
    assert_eq!(repay(&mut thin, &mut p2, 10), Err(LendingError::MathOverflow));
}

#[test]
fn accrue_interest_grows_the_rate() {
    let mut r = reserve(1000, 100);
    r.last_update_timestamp = 0;
    accrue_interest(&mut r, 31_536_000).unwrap();
    assert_eq!(r.cumulative_borrow_rate, WAD + 30_000_000);
    assert_eq!(r.last_update_timestamp, 31_536_000);
    // Nothing happens without elapsed time or without borrows.
    let before = r;
    accrue_interest(&mut r, 10).unwrap();
    assert_eq!(r, before);
    // Without borrows only the last update time moves.
    let mut idle = reserve(1000, 0);
    accrue_interest(&mut idle, 1_000_000).unwrap();
    let mut expected = reserve(1000, 0);
    expected.last_update_timestamp = 1_000_000;
    assert_eq!(idle, expected);
    // No deposits: utilization counts as zero.
    let mut empty = reserve(0, 100);
    empty.last_update_timestamp = 0;
    accrue_interest(&mut empty, 31_536_000).unwrap();
    assert_eq!(empty.cumulative_borrow_rate, WAD + 20_000_000);
}

#[test]
fn accrue_interest_overflows() {
    let mut r = reserve(1, u64::MAX);
    r.last_update_timestamp = i64::MIN;
    let before = r;
    assert_eq!(accrue_interest(&mut r, i64::MAX), Err(LendingError::MathOverflow));
    assert_eq!(r, before);
    let mut r2 = reserve(1000, 100);
    r2.last_update_timestamp = 0;
    r2.cumulative_borrow_rate = u64::MAX;
    assert_eq!(accrue_interest(&mut r2, 31_536_000), Err(LendingError::MathOverflow));
}

#[test]
fn liquidate_only_unhealthy() {
    let r = reserve(0, 0);
    let mut healthy = position(1000, 800);
    assert_eq!(liquidate(&mut healthy, &r, 100), Err(LendingError::PositionNotLiquidatable));
    let mut p = position(1000, 900);
    assert_eq!(liquidate(&mut p, &r, 100), Ok((100, 105)));
    assert_eq!(p, position(895, 800));
    let mut poor = position(100, 900);
    assert_eq!(liquidate(&mut poor, &r, 900), Err(LendingError::InsufficientCollateralToSeize));
    assert_eq!(poor, position(100, 900));
    let mut capped = position(1000, 950);
    assert_eq!(liquidate(&mut capped, &r, 5000), Ok((950, 997)));
}

#[test]
fn claim_rewards_sums_unclaimed() {
    let epochs = vec![
        RewardEpoch { amount: 10, is_claimed: false },
        RewardEpoch { amount: 20, is_claimed: true },
        RewardEpoch { amount: 5, is_claimed: false },
    ];
    assert_eq!(claim_rewards(&epochs), Ok(15));
    assert_eq!(claim_rewards(&vec![]), Err(LendingError::NoRewardsAvailable));
    let claimed = vec![RewardEpoch { amount: 20, is_claimed: true }];
    assert_eq!(claim_rewards(&claimed), Err(LendingError::NoRewardsAvailable));
    let huge = vec![
        RewardEpoch { amount: u64::MAX, is_claimed: false },
        RewardEpoch { amount: 1, is_claimed: false },
    ];
    assert_eq!(claim_rewards(&huge), Err(LendingError::MathOverflow));
    let just = vec![
        RewardEpoch { amount: u64::MAX, is_claimed: false },
        RewardEpoch { amount: 1, is_claimed: true },
    ];
    assert_eq!(claim_rewards(&just), Ok(u64::MAX));
}

#[test]
fn migrate_once() {
    let mut p = position(1, 2);
    migrate_user_position(&mut p).unwrap();
    assert_eq!(p.version, 2);
    assert_eq!(migrate_user_position(&mut p), Err(LendingError::AlreadyMigrated));
    assert_eq!(p.version, 2);
}

#[test]
fn withdraw_undoes_deposit() {
    let mut r = reserve(1000, 300);
    let mut p = position(1000, 300);
    deposit(&mut r, &mut p, 250).unwrap();
    withdraw(&mut r, &mut p, 250).unwrap();
    assert_eq!((r, p), (reserve(1000, 300), position(1000, 300)));
}

#[test]
fn repay_undoes_borrow() {
    let mut r = reserve(1000, 100);
    let mut p = position(1000, 100);
    borrow(&mut r, &mut p, 300).unwrap();
    assert_eq!(repay(&mut r, &mut p, 300), Ok(300));
    assert_eq!((r, p), (reserve(1000, 100), position(1000, 100)));
}

#[test]
fn withdraw_leaves_position_healthy() {
    let mut r = reserve(1000, 400);
    let mut p = position(1000, 400);
    withdraw(&mut r, &mut p, 500).unwrap();
    assert!(p.borrowed_amount as u128 <= p.deposited_amount as u128 * 8000 / 10_000);
    assert_eq!(withdraw(&mut r, &mut p, 1), Err(LendingError::HealthFactorTooLow));
}

#[test]
fn borrow_leaves_position_healthy() {
    let mut r = reserve(5000, 0);
    let mut p = position(5000, 0);
    borrow(&mut r, &mut p, 3500).unwrap();
    assert!(p.borrowed_amount as u128 <= p.deposited_amount as u128 * 8000 / 10_000);
}

#[test]
fn totals_move_with_position() {
    let mut r = reserve(5000, 1000);
    let mut p = position(2000, 500);
    let gap_d = r.total_deposits - p.deposited_amount;
    let gap_b = r.total_borrows - p.borrowed_amount;
    deposit(&mut r, &mut p, 100).unwrap();
    borrow(&mut r, &mut p, 200).unwrap();
    repay(&mut r, &mut p, 50).unwrap();
    withdraw(&mut r, &mut p, 30).unwrap();
    assert_eq!(r.total_deposits - p.deposited_amount, gap_d);
    assert_eq!(r.total_borrows - p.borrowed_amount, gap_b);
}

#[test]
fn backed_repay_never_overflows() {
    let mut r = reserve(10, 10);
    let mut p = position(10, 10);
    assert_eq!(repay(&mut r, &mut p, u64::MAX), Ok(10));
}

#[test]
fn accrual_is_monotone() {
    let mut r = reserve(1000, 500);
    let start = r;
    accrue_interest(&mut r, 1000).unwrap();
    accrue_interest(&mut r, 500).unwrap();
    assert!(r.cumulative_borrow_rate >= start.cumulative_borrow_rate);
    assert_eq!(r.last_update_timestamp, 1000);
}

#[test]
fn liquidation_pays_bonus() {
    let r = reserve(0, 0);
    let mut p = position(10_000, 9_000);
    let (repaid, seized) = liquidate(&mut p, &r, 4_000).unwrap();
    assert!(seized >= repaid);
    assert_eq!((repaid, seized), (4_000, 4_200));
}

#[test]
fn liquidation_refuses_seizure_beyond_64_bits() {
    let mut r = reserve(0, 0);
    r.liquidation_bonus = 10_000;
    let mut p = position(2, (1u64 << 63) + 1);
    assert_eq!(liquidate(&mut p, &r, u64::MAX), Err(LendingError::InsufficientCollateralToSeize));
    assert_eq!(p, position(2, (1u64 << 63) + 1));
}

#[test]
fn healthy_position_with_huge_ratio_is_not_liquidated() {
    let mut r = reserve(0, 0);
    r.liquidation_threshold = 10_000;
    let mut p = position(18_446_744_074, 1);
    assert_eq!(liquidate(&mut p, &r, 1), Err(LendingError::PositionNotLiquidatable));
    let mut r2 = reserve(18_446_744_075, 1);
    r2.liquidation_threshold = 10_000;
    let mut p2 = position(18_446_744_075, 1);
    withdraw(&mut r2, &mut p2, 1).unwrap();
    assert_eq!(p2.deposited_amount, 18_446_744_074);
}

#[test]
fn borrow_limit_beyond_64_bits() {
    let mut r = reserve(u64::MAX, 0);
    r.ltv = 20_000;
    r.liquidation_threshold = 20_000;
    let mut p = position(u64::MAX, 0);
    borrow(&mut r, &mut p, u64::MAX).unwrap();
    assert_eq!(p.borrowed_amount, u64::MAX);
}

#[test]
fn health_factor_is_monotone() {
    let mut r = reserve(0, 0);
    r.liquidation_threshold = 10_000;
    let low = calculate_health_factor(1_000_000_000, 1, &r).unwrap();
    let high = calculate_health_factor(18_446_744_074, 1, &r).unwrap();
    assert!(low <= high);
}

#[test]
fn add_reserve_keeps_vault_bump() {
    let mut m = initialize_market(key(9), 254);
    let r = add_reserve(&mut m, key(1), key(2), key(3), 8000, 7000, 500, 0, 5, 251).unwrap();
    assert_eq!((r.bump, r.vault_bump), (5, 251));
}

#[test]
fn accrued_factor_beyond_64_bits_overflows() {
    let mut r = reserve(1, u64::MAX);
    r.last_update_timestamp = 0;
    r.cumulative_borrow_rate = 0;
    let before = r;
    assert_eq!(accrue_interest(&mut r, 1), Err(LendingError::MathOverflow));
    assert_eq!(r, before);
}

#[test]
fn claimed_epochs_pay_nothing() {
    let mut epochs = vec![RewardEpoch { amount: 7, is_claimed: false }];
    let before = claim_rewards(&epochs);
    epochs.push(RewardEpoch { amount: 1000, is_claimed: true });
    assert_eq!(claim_rewards(&epochs), before);
    assert_eq!(before, Ok(7));
}

#[test]
fn risk_config_survives_balance_operations() {
    let mut r = reserve(1000, 0);
    let mut p = position(1000, 0);
    deposit(&mut r, &mut p, 10).unwrap();
    borrow(&mut r, &mut p, 10).unwrap();
    repay(&mut r, &mut p, 10).unwrap();
    withdraw(&mut r, &mut p, 10).unwrap();
    accrue_interest(&mut r, 5000).unwrap();
    assert!(r.ltv <= r.liquidation_threshold);
    assert_eq!((r.ltv, r.liquidation_threshold, r.liquidation_bonus), (7000, 8000, 500));
}
