//! The lending protocol: reserves, user positions, health factors,
//! deposits, withdrawals, borrows, repayments, interest and liquidation.
//!
//! Every operation here is the state change and the decision of one
//! instruction; the token transfers that accompany it are made by the
//! caller once the operation has succeeded, for the amounts it reports.

use vstd::prelude::*;

use crate::error::LendingError;
use crate::key::Pubkey;

verus! {

/// The fixed-point scale of health factors and borrow rates (1.0).
pub const WAD: u64 = 1_000_000_000;

/// The denominator of basis-point ratios (100%).
pub const BPS_DENOMINATOR: u64 = 10_000;

/// The borrow rate that applies at zero utilization (2%, in `WAD` units).
pub const BASE_BORROW_RATE: u64 = 20_000_000;

/// Seconds in a year, the period of the borrow rate.
pub const SECONDS_PER_YEAR: u64 = 31_536_000;

/// The position layout version that `migrate_user_position` moves to.
pub const TARGET_POSITION_VERSION: u8 = 2;

/// The global lending market.
#[derive(Clone, Copy, Debug, PartialEq, Eq)]
pub struct LendingMarket {
    pub admin: Pubkey,
    pub bump: u8,
    pub reserve_count: u16,
}

/// The state of one token reserve (vault) of the market.
#[derive(Clone, Copy, Debug, PartialEq, Eq)]
pub struct Reserve {
    pub market: Pubkey,
    pub mint: Pubkey,
    pub vault: Pubkey,
    /// Collateral ratio, in basis points, at which a position becomes liquidatable.
    pub liquidation_threshold: u16,
    /// Loan-to-value ratio, in basis points, that bounds borrowing.
    pub ltv: u16,
    /// Extra collateral, in basis points, that a liquidator receives.
    pub liquidation_bonus: u16,
    pub total_deposits: u64,
    pub total_borrows: u64,
    /// The accumulated borrow rate, in `WAD` units.
    pub cumulative_borrow_rate: u64,
    pub last_update_timestamp: i64,
    pub bump: u8,
    pub vault_bump: u8,
}

/// The risk parameters of a reserve.
#[derive(Clone, Copy, Debug, PartialEq, Eq)]
pub struct ReserveConfig {
    pub ltv: u16,
    pub liquidation_threshold: u16,
    pub liquidation_bonus: u16,
}

/// A user's collateral and debt in one reserve.
#[derive(Clone, Copy, Debug, PartialEq, Eq)]
pub struct UserPosition {
    pub deposited_amount: u64,
    pub borrowed_amount: u64,
    pub version: u8,
}

/// One epoch of liquidity-mining rewards.
#[derive(Clone, Copy, Debug, PartialEq, Eq)]
pub struct RewardEpoch {
    pub amount: u64,
    pub is_claimed: bool,
}

// ---------------------------------------------------------------------------
// Specification
// ---------------------------------------------------------------------------

/// The collateral that counts against debt: `collateral * threshold / 10000`.
pub open spec fn adjusted_collateral(collateral: u64, liquidation_threshold: u16) -> int {
    (collateral as int) * (liquidation_threshold as int) / (BPS_DENOMINATOR as int)
}

/// The exact health ratio `adjusted * WAD / borrowed` of an indebted position.
pub open spec fn health_ratio(collateral: u64, borrowed: u64, liquidation_threshold: u16) -> int {
    adjusted_collateral(collateral, liquidation_threshold) * (WAD as int) / (borrowed as int)
}

/// The health factor in `WAD` units, as a `u64`: the maximum when there is
/// no debt, otherwise the health ratio capped at the largest `u64`.
pub open spec fn health_factor(collateral: u64, borrowed: u64, liquidation_threshold: u16) -> u64 {
    if borrowed == 0 {
        u64::MAX
    } else if health_ratio(collateral, borrowed, liquidation_threshold) > u64::MAX {
        u64::MAX
    } else {
        health_ratio(collateral, borrowed, liquidation_threshold) as u64
    }
}

/// Whether the adjusted collateral covers the debt (health factor at least 1.0).
pub open spec fn is_healthy(collateral: u64, borrowed: u64, liquidation_threshold: u16) -> bool {
    (borrowed as int) <= adjusted_collateral(collateral, liquidation_threshold)
}

/// The most that a position with this collateral may owe: `deposited * ltv / 10000`.
pub open spec fn max_borrow(deposited: u64, ltv: u16) -> int {
    (deposited as int) * (ltv as int) / (BPS_DENOMINATOR as int)
}

/// The collateral a liquidator takes for repaying `repay`: the repayment
/// plus the liquidation bonus, `repay * (10000 + bonus) / 10000`.
pub open spec fn collateral_to_seize(repay: u64, liquidation_bonus: u16) -> int {
    (repay as int) * (BPS_DENOMINATOR + liquidation_bonus) / (BPS_DENOMINATOR as int)
}

/// The risk parameters are ordered: the LTV does not exceed the threshold.
pub open spec fn risk_config_valid(reserve: Reserve) -> bool {
    reserve.ltv <= reserve.liquidation_threshold
}

/// The reserve's totals cover the position's amounts.
pub open spec fn position_backed(reserve: Reserve, position: UserPosition) -> bool {
    &&& position.deposited_amount <= reserve.total_deposits
    &&& position.borrowed_amount <= reserve.total_borrows
}

pub open spec fn min_u64(a: u64, b: u64) -> u64 {
    if a <= b {
        a
    } else {
        b
    }
}

/// `a - b` saturated to the range of `i64`.
pub open spec fn saturating_sub_i64(a: i64, b: i64) -> i64 {
    if a - b > i64::MAX {
        i64::MAX
    } else if a - b < i64::MIN {
        i64::MIN
    } else {
        (a - b) as i64
    }
}

/// Utilization of the reserve in `WAD` units (0 when nothing is deposited).
pub open spec fn utilization(total_borrows: u64, total_deposits: u64) -> int {
    if total_deposits == 0 {
        0
    } else {
        (total_borrows as int) * (WAD as int) / (total_deposits as int)
    }
}

/// The yearly borrow rate in `WAD` units.
pub open spec fn borrow_rate(total_borrows: u64, total_deposits: u64) -> int {
    BASE_BORROW_RATE + utilization(total_borrows, total_deposits) / 10
}

/// The sum of the amounts of the epochs not yet claimed.
pub open spec fn unclaimed_total(epochs: Seq<RewardEpoch>) -> int
    decreases epochs.len(),
{
    if epochs.len() == 0 {
        0
    } else {
        unclaimed_total(epochs.drop_last()) + if epochs.last().is_claimed {
            0
        } else {
            epochs.last().amount as int
        }
    }
}

/// What claiming the rewards of `epochs` pays out.
pub open spec fn claim_outcome(epochs: Seq<RewardEpoch>) -> Result<u64, LendingError> {
    if unclaimed_total(epochs) > u64::MAX {
        Err(LendingError::MathOverflow)
    } else if unclaimed_total(epochs) == 0 {
        Err(LendingError::NoRewardsAvailable)
    } else {
        Ok(unclaimed_total(epochs) as u64)
    }
}

/// What a deposit of `amount` makes of the reserve and the position.
pub open spec fn deposit_outcome(reserve: Reserve, position: UserPosition, amount: u64) -> Result<
    (Reserve, UserPosition),
    LendingError,
> {
    if amount == 0 {
        Err(LendingError::InvalidAmount)
    } else if reserve.total_deposits + amount > u64::MAX || position.deposited_amount + amount
        > u64::MAX {
        Err(LendingError::MathOverflow)
    } else {
        Ok(
            (
                Reserve { total_deposits: (reserve.total_deposits + amount) as u64, ..reserve },
                UserPosition {
                    deposited_amount: (position.deposited_amount + amount) as u64,
                    ..position
                },
            ),
        )
    }
}

/// What a withdrawal of `amount` makes of the reserve and the position.
pub open spec fn withdraw_outcome(reserve: Reserve, position: UserPosition, amount: u64) -> Result<
    (Reserve, UserPosition),
    LendingError,
> {
    if amount == 0 {
        Err(LendingError::InvalidAmount)
    } else if position.deposited_amount < amount {
        Err(LendingError::InsufficientCollateral)
    } else if health_factor(
        (position.deposited_amount - amount) as u64,
        position.borrowed_amount,
        reserve.liquidation_threshold,
    ) < WAD {
        Err(LendingError::HealthFactorTooLow)
    } else if reserve.total_deposits < amount {
        Err(LendingError::MathOverflow)
    } else {
        Ok(
            (
                Reserve { total_deposits: (reserve.total_deposits - amount) as u64, ..reserve },
                UserPosition {
                    deposited_amount: (position.deposited_amount - amount) as u64,
                    ..position
                },
            ),
        )
    }
}

/// What a borrow of `amount` makes of the reserve and the position.
pub open spec fn borrow_outcome(reserve: Reserve, position: UserPosition, amount: u64) -> Result<
    (Reserve, UserPosition),
    LendingError,
> {
    if amount == 0 {
        Err(LendingError::InvalidAmount)
    } else if position.borrowed_amount + amount > u64::MAX {
        Err(LendingError::MathOverflow)
    } else if position.borrowed_amount + amount > max_borrow(
        position.deposited_amount,
        reserve.ltv,
    ) {
        Err(LendingError::ExceedsLtvLimit)
    } else if reserve.total_borrows + amount > u64::MAX {
        Err(LendingError::MathOverflow)
    } else {
        Ok(
            (
                Reserve { total_borrows: (reserve.total_borrows + amount) as u64, ..reserve },
                UserPosition {
                    borrowed_amount: (position.borrowed_amount + amount) as u64,
                    ..position
                },
            ),
        )
    }
}

/// What a repayment of up to `amount` makes of the reserve and the
/// position, with the amount actually repaid.
pub open spec fn repay_outcome(reserve: Reserve, position: UserPosition, amount: u64) -> Result<
    (Reserve, UserPosition, u64),
    LendingError,
> {
    let paid = min_u64(amount, position.borrowed_amount);
    if amount == 0 {
        Err(LendingError::InvalidAmount)
    } else if reserve.total_borrows < paid {
        Err(LendingError::MathOverflow)
    } else {
        Ok(
            (
                Reserve { total_borrows: (reserve.total_borrows - paid) as u64, ..reserve },
                UserPosition {
                    borrowed_amount: (position.borrowed_amount - paid) as u64,
                    ..position
                },
                paid,
            ),
        )
    }
}

/// What a liquidation of up to `max_amount` of debt makes of the position,
/// with the debt repaid and the collateral seized.
pub open spec fn liquidate_outcome(reserve: Reserve, position: UserPosition, max_amount: u64) -> Result<
    (UserPosition, u64, u64),
    LendingError,
> {
    let repay = min_u64(max_amount, position.borrowed_amount);
    let seize = collateral_to_seize(repay, reserve.liquidation_bonus);
    if health_factor(
        position.deposited_amount,
        position.borrowed_amount,
        reserve.liquidation_threshold,
    ) >= WAD {
        Err(LendingError::PositionNotLiquidatable)
    } else if position.deposited_amount < seize {
        Err(LendingError::InsufficientCollateralToSeize)
    } else {
        Ok(
            (
                UserPosition {
                    borrowed_amount: (position.borrowed_amount - repay) as u64,
                    deposited_amount: (position.deposited_amount - seize) as u64,
                    ..position
                },
                repay,
                seize as u64,
            ),
        )
    }
}

/// What accruing interest at time `now` makes of the reserve.
pub open spec fn accrue_outcome(reserve: Reserve, now: i64) -> Result<Reserve, LendingError> {
    let delta = saturating_sub_i64(now, reserve.last_update_timestamp);
    if delta <= 0 {
        Ok(reserve)
    } else if reserve.total_borrows == 0 {
        Ok(Reserve { last_update_timestamp: now, ..reserve })
    } else {
        let rate = borrow_rate(reserve.total_borrows, reserve.total_deposits);
        let factor = rate * delta / (SECONDS_PER_YEAR as int);
        if rate * delta > u128::MAX || reserve.cumulative_borrow_rate + factor > u64::MAX {
            Err(LendingError::MathOverflow)
        } else {
            Ok(
                Reserve {
                    cumulative_borrow_rate: (reserve.cumulative_borrow_rate + factor) as u64,
                    last_update_timestamp: now,
                    ..reserve
                },
            )
        }
    }
}

/// What migrating a position makes of it.
pub open spec fn migrate_outcome(position: UserPosition) -> Result<UserPosition, LendingError> {
    if position.version < TARGET_POSITION_VERSION {
        Ok(UserPosition { version: TARGET_POSITION_VERSION, ..position })
    } else {
        Err(LendingError::AlreadyMigrated)
    }
}

// ---------------------------------------------------------------------------
// Arithmetic facts
// ---------------------------------------------------------------------------

proof fn lemma_mul_bound(a: int, b: int, a_max: int, b_max: int)
    requires
        0 <= a <= a_max,
        0 <= b <= b_max,
    ensures
        0 <= a * b <= a_max * b_max,
{
    assert(0 <= a * b <= a_max * b_max) by (nonlinear_arith)
        requires
            0 <= a <= a_max,
            0 <= b <= b_max,
    ;
}

proof fn lemma_unclaimed_total_nonneg(epochs: Seq<RewardEpoch>)
    ensures
        unclaimed_total(epochs) >= 0,
    decreases epochs.len(),
{
    if epochs.len() > 0 {
        lemma_unclaimed_total_nonneg(epochs.drop_last());
    }
}

/// The unclaimed total of a prefix never exceeds that of the whole list.
proof fn lemma_unclaimed_total_prefix(epochs: Seq<RewardEpoch>, i: int)
    requires
        0 <= i <= epochs.len(),
    ensures
        unclaimed_total(epochs.take(i)) <= unclaimed_total(epochs),
    decreases epochs.len() - i,
{
    if i < epochs.len() {
        lemma_unclaimed_total_prefix(epochs, i + 1);
        assert(epochs.take(i + 1).drop_last() =~= epochs.take(i));
        lemma_unclaimed_total_nonneg(epochs.take(i));
    } else {
        assert(epochs.take(i) =~= epochs);
    }
}

// ---------------------------------------------------------------------------
// Operations
// ---------------------------------------------------------------------------

/// The health factor of a position with `collateral` and `borrowed`, in
/// `WAD` units; the maximum when nothing is borrowed.
pub fn calculate_health_factor(collateral: u64, borrowed: u64, reserve: &Reserve) -> (hf: Result<
    u64,
    LendingError,
>)
    ensures
        hf == Ok::<u64, LendingError>(
            health_factor(collateral, borrowed, reserve.liquidation_threshold),
        ),
{
    if borrowed == 0 {
        return Ok(u64::MAX);
    }
    proof {
        lemma_mul_bound(collateral as int, reserve.liquidation_threshold as int, u64::MAX as int, u16::MAX as int);
    }
    let adjusted: u128 = (collateral as u128) * (reserve.liquidation_threshold as u128) / 10_000;
    proof {
        lemma_mul_bound(adjusted as int, WAD as int, (u64::MAX as int) * (u16::MAX as int), WAD as int);
    }
    let scaled: u128 = adjusted * (WAD as u128);
    let ratio: u128 = scaled / (borrowed as u128);
    if ratio > (u64::MAX as u128) {
        return Ok(u64::MAX);
    }
    Ok(ratio as u64)
}

/// Creates the lending market with `admin` as its administrator and no reserves.
pub fn initialize_market(admin: Pubkey, bump: u8) -> (market: LendingMarket)
    ensures
        market == (LendingMarket { admin, bump, reserve_count: 0 }),
{
    LendingMarket { admin, bump, reserve_count: 0 }
}

/// Adds a reserve with the given risk parameters to the market, created at
/// time `now`, whose vault signs with `vault_bump`; the LTV must not exceed
/// the liquidation threshold, nor the threshold 100%.
pub fn add_reserve(
    market: &mut LendingMarket,
    market_key: Pubkey,
    mint: Pubkey,
    vault: Pubkey,
    liquidation_threshold: u16,
    ltv: u16,
    liquidation_bonus: u16,
    now: i64,
    bump: u8,
    vault_bump: u8,
) -> (res: Result<Reserve, LendingError>)
    requires
        ltv <= liquidation_threshold && liquidation_threshold <= BPS_DENOMINATOR ==> old(
            market,
        ).reserve_count < u16::MAX,
    ensures
        res is Ok <==> ltv <= liquidation_threshold && liquidation_threshold <= BPS_DENOMINATOR,
        res is Err ==> res == Err::<Reserve, LendingError>(LendingError::InvalidRiskConfig) && *final(market) == *old(market),
        res matches Ok(reserve) ==> {
            &&& reserve == (Reserve {
                market: market_key,
                mint,
                vault,
                liquidation_threshold,
                ltv,
                liquidation_bonus,
                total_deposits: 0,
                total_borrows: 0,
                cumulative_borrow_rate: WAD,
                last_update_timestamp: now,
                bump,
                vault_bump,
            })
            &&& risk_config_valid(reserve)
            &&& *final(market) == (LendingMarket {
                reserve_count: (old(market).reserve_count + 1) as u16,
                ..*old(market)
            })
        },
{
    if ltv > liquidation_threshold {
        return Err(LendingError::InvalidRiskConfig);
    }
    if liquidation_threshold > 10_000 {
        return Err(LendingError::InvalidRiskConfig);
    }
    let reserve = Reserve {
        market: market_key,
        mint,
        vault,
        liquidation_threshold,
        ltv,
        liquidation_bonus,
        total_deposits: 0,
        total_borrows: 0,
        cumulative_borrow_rate: WAD,
        last_update_timestamp: now,
        bump,
        vault_bump,
    };
    market.reserve_count = market.reserve_count + 1;
    Ok(reserve)
}

/// Replaces the risk parameters of a reserve; the LTV must not exceed the
/// liquidation threshold.
pub fn update_reserve_config(reserve: &mut Reserve, new_config: ReserveConfig) -> (res: Result<
    (),
    LendingError,
>)
    ensures
        res is Ok <==> new_config.ltv <= new_config.liquidation_threshold,
        res is Err ==> res == Err::<(), LendingError>(LendingError::InvalidRiskConfig)
            && *final(reserve) == *old(reserve),
        res is Ok ==> *final(reserve) == (Reserve {
            ltv: new_config.ltv,
            liquidation_threshold: new_config.liquidation_threshold,
            liquidation_bonus: new_config.liquidation_bonus,
            ..*old(reserve)
        }),
{
    if new_config.ltv > new_config.liquidation_threshold {
        return Err(LendingError::InvalidRiskConfig);
    }
    reserve.ltv = new_config.ltv;
    reserve.liquidation_threshold = new_config.liquidation_threshold;
    reserve.liquidation_bonus = new_config.liquidation_bonus;
    Ok(())
}

/// Deposits `amount` into the reserve on the position's behalf; the caller
/// moves `amount` tokens from the user to the vault when it succeeds.
pub fn deposit(reserve: &mut Reserve, position: &mut UserPosition, amount: u64) -> (res: Result<
    (),
    LendingError,
>)
    ensures
        match deposit_outcome(*old(reserve), *old(position), amount) {
            Ok((r, p)) => res is Ok && *final(reserve) == r && *final(position) == p,
            Err(e) => res == Err::<(), LendingError>(e) && *final(reserve) == *old(reserve)
                && *final(position) == *old(position),
        },
{
    if amount == 0 {
        return Err(LendingError::InvalidAmount);
    }
    let total = match reserve.total_deposits.checked_add(amount) {
        Some(t) => t,
        None => return Err(LendingError::MathOverflow),
    };
    let deposited = match position.deposited_amount.checked_add(amount) {
        Some(d) => d,
        None => return Err(LendingError::MathOverflow),
    };
    reserve.total_deposits = total;
    position.deposited_amount = deposited;
    Ok(())
}

/// Withdraws `amount` of the position's collateral, provided the position
/// stays healthy; the caller moves `amount` tokens from the vault to the
/// user when it succeeds.
pub fn withdraw(reserve: &mut Reserve, position: &mut UserPosition, amount: u64) -> (res: Result<
    (),
    LendingError,
>)
    ensures
        match withdraw_outcome(*old(reserve), *old(position), amount) {
            Ok((r, p)) => res is Ok && *final(reserve) == r && *final(position) == p,
            Err(e) => res == Err::<(), LendingError>(e) && *final(reserve) == *old(reserve)
                && *final(position) == *old(position),
        },
{
    if amount == 0 {
        return Err(LendingError::InvalidAmount);
    }
    if position.deposited_amount < amount {
        return Err(LendingError::InsufficientCollateral);
    }
    let remaining_collateral = position.deposited_amount - amount;
    let health_factor = match calculate_health_factor(
        remaining_collateral,
        position.borrowed_amount,
        reserve,
    ) {
        Ok(hf) => hf,
        Err(e) => return Err(e),
    };
    if health_factor < WAD {
        return Err(LendingError::HealthFactorTooLow);
    }
    let total = match reserve.total_deposits.checked_sub(amount) {
        Some(t) => t,
        None => return Err(LendingError::MathOverflow),
    };
    reserve.total_deposits = total;
    position.deposited_amount = remaining_collateral;
    Ok(())
}

/// Borrows `amount` against the position's collateral, within its LTV
/// limit; the caller moves `amount` tokens from the vault to the user when
/// it succeeds.
pub fn borrow(reserve: &mut Reserve, position: &mut UserPosition, amount: u64) -> (res: Result<
    (),
    LendingError,
>)
    ensures
        match borrow_outcome(*old(reserve), *old(position), amount) {
            Ok((r, p)) => res is Ok && *final(reserve) == r && *final(position) == p,
            Err(e) => res == Err::<(), LendingError>(e) && *final(reserve) == *old(reserve)
                && *final(position) == *old(position),
        },
{
    if amount == 0 {
        return Err(LendingError::InvalidAmount);
    }
    proof {
        lemma_mul_bound(position.deposited_amount as int, reserve.ltv as int, u64::MAX as int, u16::MAX as int);
    }
    let max_borrow: u128 = (position.deposited_amount as u128) * (reserve.ltv as u128) / 10_000;
    let new_borrowed_amount = match position.borrowed_amount.checked_add(amount) {
        Some(b) => b,
        None => return Err(LendingError::MathOverflow),
    };
    if (new_borrowed_amount as u128) > max_borrow {
        return Err(LendingError::ExceedsLtvLimit);
    }
    let total = match reserve.total_borrows.checked_add(amount) {
        Some(t) => t,
        None => return Err(LendingError::MathOverflow),
    };
    position.borrowed_amount = new_borrowed_amount;
    reserve.total_borrows = total;
    Ok(())
}

/// Repays up to `amount` of the position's debt and returns the amount
/// repaid (never more than the debt); the caller moves that many tokens
/// from the user to the vault when it succeeds.
pub fn repay(reserve: &mut Reserve, position: &mut UserPosition, amount: u64) -> (res: Result<
    u64,
    LendingError,
>)
    ensures
        match repay_outcome(*old(reserve), *old(position), amount) {
            Ok((r, p, paid)) => res == Ok::<u64, LendingError>(paid) && *final(reserve) == r
                && *final(position) == p,
            Err(e) => res == Err::<u64, LendingError>(e) && *final(reserve) == *old(reserve)
                && *final(position) == *old(position),
        },
{
    if amount == 0 {
        return Err(LendingError::InvalidAmount);
    }
    let repay_amount = if amount <= position.borrowed_amount {
        amount
    } else {
        position.borrowed_amount
    };
    let borrowed = position.borrowed_amount - repay_amount;
    let total = match reserve.total_borrows.checked_sub(repay_amount) {
        Some(t) => t,
        None => return Err(LendingError::MathOverflow),
    };
    position.borrowed_amount = borrowed;
    reserve.total_borrows = total;
    Ok(repay_amount)
}

/// Accrues interest on the reserve up to time `now`: when time has passed,
/// the cumulative borrow rate grows by the yearly rate (2% plus a tenth of
/// the utilization) pro rata temporis, if anything is borrowed, and the last
/// update time moves to `now`.
pub fn accrue_interest(reserve: &mut Reserve, now: i64) -> (res: Result<(), LendingError>)
    ensures
        match accrue_outcome(*old(reserve), now) {
            Ok(r) => res is Ok && *final(reserve) == r,
            Err(e) => res == Err::<(), LendingError>(e) && *final(reserve) == *old(reserve),
        },
{
    let diff: i128 = (now as i128) - (reserve.last_update_timestamp as i128);
    let time_delta: i64 = if diff > (i64::MAX as i128) {
        i64::MAX
    } else if diff < (i64::MIN as i128) {
        i64::MIN
    } else {
        diff as i64
    };
    if time_delta > 0 && reserve.total_borrows == 0 {
        reserve.last_update_timestamp = now;
    } else if time_delta > 0 {
        proof {
            lemma_mul_bound(reserve.total_borrows as int, WAD as int, u64::MAX as int, WAD as int);
        }
        let scaled: u128 = (reserve.total_borrows as u128) * (WAD as u128);
        let utilization: u128 = if reserve.total_deposits == 0 {
            0
        } else {
            scaled / (reserve.total_deposits as u128)
        };
        proof {
            assert(utilization <= scaled) by (nonlinear_arith)
                requires
                    reserve.total_deposits == 0 ==> utilization == 0,
                    reserve.total_deposits != 0 ==> utilization == scaled / (reserve.total_deposits as u128),
            ;
        }
        let rate: u128 = (BASE_BORROW_RATE as u128) + utilization / 10;
        let interest: u128 = match rate.checked_mul(time_delta as u128) {
            Some(x) => x,
            None => return Err(LendingError::MathOverflow),
        };
        let interest_factor: u128 = interest / (SECONDS_PER_YEAR as u128);
        if interest_factor > (u64::MAX as u128) {
            return Err(LendingError::MathOverflow);
        }
        let cumulative = match reserve.cumulative_borrow_rate.checked_add(interest_factor as u64) {
            Some(c) => c,
            None => return Err(LendingError::MathOverflow),
        };
        reserve.cumulative_borrow_rate = cumulative;
        reserve.last_update_timestamp = now;
    }
    Ok(())
}

/// Liquidates an unhealthy position: repays up to `max_liquidation_amount`
/// of its debt and seizes that much collateral plus the liquidation bonus.
/// Returns the debt repaid and the collateral seized; the caller moves the
/// repayment from the liquidator to the vault and the seized collateral
/// from the vault to the liquidator when it succeeds.
pub fn liquidate(
    position: &mut UserPosition,
    reserve: &Reserve,
    max_liquidation_amount: u64,
) -> (res: Result<(u64, u64), LendingError>)
    ensures
        match liquidate_outcome(*reserve, *old(position), max_liquidation_amount) {
            Ok((p, repaid, seized)) => res == Ok::<(u64, u64), LendingError>((repaid, seized))
                && *final(position) == p,
            Err(e) => res == Err::<(u64, u64), LendingError>(e) && *final(position) == *old(
                position,
            ),
        },
{
    let health_factor = match calculate_health_factor(
        position.deposited_amount,
        position.borrowed_amount,
        reserve,
    ) {
        Ok(hf) => hf,
        Err(e) => return Err(e),
    };
    if health_factor >= WAD {
        return Err(LendingError::PositionNotLiquidatable);
    }
    let actual_repay = if max_liquidation_amount <= position.borrowed_amount {
        max_liquidation_amount
    } else {
        position.borrowed_amount
    };
    proof {
        lemma_mul_bound(actual_repay as int, 10_000 + reserve.liquidation_bonus, u64::MAX as int, 10_000 + u16::MAX);
    }
    let scaled: u128 = (actual_repay as u128) * (10_000 + (reserve.liquidation_bonus as u128));
    let seize: u128 = scaled / 10_000;
    if (position.deposited_amount as u128) < seize {
        return Err(LendingError::InsufficientCollateralToSeize);
    }
    let collateral_to_seize = seize as u64;
    position.borrowed_amount = position.borrowed_amount - actual_repay;
    position.deposited_amount = position.deposited_amount - collateral_to_seize;
    Ok((actual_repay, collateral_to_seize))
}

/// The total of the reward epochs not yet claimed, which the caller pays
/// out to the user when it succeeds; fails when that total does not fit in
/// 64 bits or is zero.
pub fn claim_rewards(epochs: &Vec<RewardEpoch>) -> (res: Result<u64, LendingError>)
    ensures
        res == claim_outcome(epochs@),
{
    let mut total_reward: u64 = 0;
    let mut i: usize = 0;
    while i < epochs.len()
        invariant
            i <= epochs.len(),
            total_reward == unclaimed_total(epochs@.take(i as int)),
        decreases epochs.len() - i,
    {
        let epoch = epochs[i];
        assert(epochs@.take(i + 1).drop_last() =~= epochs@.take(i as int));
        if !epoch.is_claimed {
            total_reward = match total_reward.checked_add(epoch.amount) {
                Some(t) => t,
                None => {
                    proof {
                        lemma_unclaimed_total_prefix(epochs@, i + 1);
                    }
                    return Err(LendingError::MathOverflow);
                },
            };
        }
        i = i + 1;
    }
    assert(epochs@.take(epochs.len() as int) =~= epochs@);
    proof {
        lemma_unclaimed_total_nonneg(epochs@);
    }
    if total_reward == 0 {
        return Err(LendingError::NoRewardsAvailable);
    }
    Ok(total_reward)
}

/// Moves a position to the current layout version; fails when it is
/// already there.
pub fn migrate_user_position(position: &mut UserPosition) -> (res: Result<(), LendingError>)
    ensures
        match migrate_outcome(*old(position)) {
            Ok(p) => res is Ok && *final(position) == p,
            Err(e) => res == Err::<(), LendingError>(e) && *final(position) == *old(position),
        },
{
    if position.version >= TARGET_POSITION_VERSION {
        return Err(LendingError::AlreadyMigrated);
    }
    position.version = TARGET_POSITION_VERSION;
    Ok(())
}

} // verus!
