//! Properties of the lending protocol: what each operation does, stated over
//! its inputs, and how operations relate.

use vstd::prelude::*;

use crate::error::LendingError;
use crate::lending::{
    saturating_sub_i64, unclaimed_total,
    accrue_outcome, adjusted_collateral, borrow_outcome, claim_outcome, deposit_outcome, health_factor, is_healthy,
    liquidate_outcome, max_borrow, migrate_outcome, position_backed, repay_outcome,
    risk_config_valid, withdraw_outcome, Reserve, RewardEpoch, UserPosition, BPS_DENOMINATOR, WAD,
};

verus! {

/// The adjusted collateral is never negative.
proof fn lemma_adjusted_nonneg(collateral: u64, threshold: u16)
    ensures
        0 <= adjusted_collateral(collateral, threshold),
{
    let a = adjusted_collateral(collateral, threshold);
    assert(0 <= a) by (nonlinear_arith)
        requires
            a == (collateral as int) * (threshold as int) / 10000,
    ;
}

/// A health factor of at least 1.0 means exactly that the adjusted
/// collateral covers the debt.
pub proof fn law_health_factor_matches_healthy(collateral: u64, borrowed: u64, threshold: u16)
    ensures
        health_factor(collateral, borrowed, threshold) >= WAD <==> is_healthy(collateral, borrowed, threshold),
{
    lemma_adjusted_nonneg(collateral, threshold);
    if borrowed > 0 {
        let a = adjusted_collateral(collateral, threshold);
        let b = borrowed as int;
        let w = WAD as int;
        assert(a * w / b >= w <==> a >= b) by (nonlinear_arith)
            requires
                0 <= a,
                b > 0,
                w > 0,
        ;
    }
}

/// More collateral, or less debt, never lowers the health factor.
pub proof fn law_health_factor_monotone(c1: u64, b1: u64, c2: u64, b2: u64, threshold: u16)
    requires
        c1 <= c2,
        b1 >= b2,
    ensures
        health_factor(c1, b1, threshold) <= health_factor(c2, b2, threshold),
{
    if b2 > 0 {
        let t = threshold as int;
        let w = WAD as int;
        lemma_adjusted_nonneg(c1, threshold);
        assert((c1 as int) * t <= (c2 as int) * t) by (nonlinear_arith)
            requires
                c1 <= c2,
                0 <= t,
        ;
        vstd::arithmetic::div_mod::lemma_div_is_ordered((c1 as int) * t, (c2 as int) * t, 10000);
        let a1 = adjusted_collateral(c1, threshold);
        let a2 = adjusted_collateral(c2, threshold);
        assert(a1 * w <= a2 * w) by (nonlinear_arith)
            requires
                0 <= a1 <= a2,
                w > 0,
        ;
        assert(0 <= a1 * w) by (nonlinear_arith)
            requires
                0 <= a1,
                w > 0,
        ;
        vstd::arithmetic::div_mod::lemma_div_is_ordered_by_denominator(a1 * w, b2 as int, b1 as int);
        vstd::arithmetic::div_mod::lemma_div_is_ordered(a1 * w, a2 * w, b2 as int);
    }
}

/// A deposit followed by the withdrawal of the same amount gives back the
/// reserve and the position, when the position was healthy to begin with.
pub proof fn law_withdraw_undoes_deposit(reserve: Reserve, position: UserPosition, amount: u64)
    requires
        deposit_outcome(reserve, position, amount) is Ok,
        is_healthy(position.deposited_amount, position.borrowed_amount, reserve.liquidation_threshold),
    ensures
        ({
            let (r1, p1) = deposit_outcome(reserve, position, amount)->Ok_0;
            withdraw_outcome(r1, p1, amount) == Ok::<(Reserve, UserPosition), LendingError>((reserve, position))
        }),
{
    law_health_factor_matches_healthy(position.deposited_amount, position.borrowed_amount, reserve.liquidation_threshold);
    let (r1, p1) = deposit_outcome(reserve, position, amount)->Ok_0;
    assert((p1.deposited_amount - amount) as u64 == position.deposited_amount);
    let (r2, p2) = withdraw_outcome(r1, p1, amount)->Ok_0;
    assert(r2 == reserve);
    assert(p2 == position);
}

/// A borrow followed by the repayment of the same amount gives back the
/// reserve and the position, and the whole amount is repaid.
pub proof fn law_repay_undoes_borrow(reserve: Reserve, position: UserPosition, amount: u64)
    requires
        borrow_outcome(reserve, position, amount) is Ok,
    ensures
        ({
            let (r1, p1) = borrow_outcome(reserve, position, amount)->Ok_0;
            repay_outcome(r1, p1, amount) == Ok::<(Reserve, UserPosition, u64), LendingError>((reserve, position, amount))
        }),
{
    let (r1, p1) = borrow_outcome(reserve, position, amount)->Ok_0;
    let (r2, p2, paid) = repay_outcome(r1, p1, amount)->Ok_0;
    assert(r2 == reserve);
    assert(p2 == position);
}

/// After a successful withdrawal the adjusted collateral still covers the debt.
pub proof fn law_withdraw_keeps_position_healthy(reserve: Reserve, position: UserPosition, amount: u64)
    requires
        withdraw_outcome(reserve, position, amount) is Ok,
    ensures
        ({
            let (r1, p1) = withdraw_outcome(reserve, position, amount)->Ok_0;
            is_healthy(p1.deposited_amount, p1.borrowed_amount, r1.liquidation_threshold)
        }),
{
    let (r1, p1) = withdraw_outcome(reserve, position, amount)->Ok_0;
    law_health_factor_matches_healthy(p1.deposited_amount, p1.borrowed_amount, r1.liquidation_threshold);
}

/// A successful borrow never takes the debt past the LTV limit.
pub proof fn law_borrow_within_ltv(reserve: Reserve, position: UserPosition, amount: u64)
    requires
        borrow_outcome(reserve, position, amount) is Ok,
    ensures
        ({
            let (r1, p1) = borrow_outcome(reserve, position, amount)->Ok_0;
            p1.borrowed_amount <= max_borrow(p1.deposited_amount, r1.ltv)
        }),
{
}

/// With an LTV no higher than the liquidation threshold, a successful
/// borrow leaves the position healthy.
pub proof fn law_borrow_keeps_position_healthy(reserve: Reserve, position: UserPosition, amount: u64)
    requires
        reserve.ltv <= reserve.liquidation_threshold,
        borrow_outcome(reserve, position, amount) is Ok,
    ensures
        ({
            let (r1, p1) = borrow_outcome(reserve, position, amount)->Ok_0;
            is_healthy(p1.deposited_amount, p1.borrowed_amount, r1.liquidation_threshold)
        }),
{
    let (r1, p1) = borrow_outcome(reserve, position, amount)->Ok_0;
    let d = p1.deposited_amount as int;
    let l = r1.ltv as int;
    let t = r1.liquidation_threshold as int;
    assert(d * l <= d * t) by (nonlinear_arith)
        requires
            0 <= d,
            0 <= l <= t,
    ;
    vstd::arithmetic::div_mod::lemma_div_is_ordered(d * l, d * t, 10000);
}

/// Deposits, withdrawals, borrows and repayments move the reserve's totals
/// by exactly the amounts they move the position's balances.
pub proof fn law_totals_move_with_position(reserve: Reserve, position: UserPosition, amount: u64)
    ensures
        deposit_outcome(reserve, position, amount) matches Ok((r1, p1)) ==> {
            &&& r1.total_deposits - p1.deposited_amount == reserve.total_deposits - position.deposited_amount
            &&& r1.total_borrows == reserve.total_borrows
            &&& p1.borrowed_amount == position.borrowed_amount
        },
        withdraw_outcome(reserve, position, amount) matches Ok((r1, p1)) ==> {
            &&& r1.total_deposits - p1.deposited_amount == reserve.total_deposits - position.deposited_amount
            &&& r1.total_borrows == reserve.total_borrows
            &&& p1.borrowed_amount == position.borrowed_amount
        },
        borrow_outcome(reserve, position, amount) matches Ok((r1, p1)) ==> {
            &&& r1.total_borrows - p1.borrowed_amount == reserve.total_borrows - position.borrowed_amount
            &&& r1.total_deposits == reserve.total_deposits
            &&& p1.deposited_amount == position.deposited_amount
        },
        repay_outcome(reserve, position, amount) matches Ok((r1, p1, paid)) ==> {
            &&& r1.total_borrows - p1.borrowed_amount == reserve.total_borrows - position.borrowed_amount
            &&& p1.borrowed_amount == position.borrowed_amount - paid
            &&& paid <= amount
            &&& r1.total_deposits == reserve.total_deposits
            &&& p1.deposited_amount == position.deposited_amount
        },
{
}

/// The reserve's totals keep covering the position through deposits,
/// withdrawals, borrows, repayments and liquidations.
pub proof fn law_backing_is_preserved(reserve: Reserve, position: UserPosition, amount: u64)
    requires
        position_backed(reserve, position),
    ensures
        deposit_outcome(reserve, position, amount) matches Ok((r1, p1)) ==> position_backed(r1, p1),
        withdraw_outcome(reserve, position, amount) matches Ok((r1, p1)) ==> position_backed(r1, p1),
        borrow_outcome(reserve, position, amount) matches Ok((r1, p1)) ==> position_backed(r1, p1),
        repay_outcome(reserve, position, amount) matches Ok((r1, p1, paid)) ==> position_backed(r1, p1),
        liquidate_outcome(reserve, position, amount) matches Ok((p1, repaid, seized)) ==> position_backed(reserve, p1),
{
}

/// A repayment of a position that its reserve backs never overflows: it
/// fails only for a zero amount.
pub proof fn law_backed_repay_succeeds(reserve: Reserve, position: UserPosition, amount: u64)
    requires
        position_backed(reserve, position),
        amount > 0,
    ensures
        repay_outcome(reserve, position, amount) is Ok,
{
}

/// No operation on balances touches the risk parameters, so an ordered
/// configuration stays ordered; a configuration update keeps it ordered too.
pub proof fn law_risk_config_is_preserved(reserve: Reserve, position: UserPosition, amount: u64, now: i64)
    requires
        risk_config_valid(reserve),
    ensures
        deposit_outcome(reserve, position, amount) matches Ok((r1, p1)) ==> risk_config_valid(r1),
        withdraw_outcome(reserve, position, amount) matches Ok((r1, p1)) ==> risk_config_valid(r1),
        borrow_outcome(reserve, position, amount) matches Ok((r1, p1)) ==> risk_config_valid(r1),
        repay_outcome(reserve, position, amount) matches Ok((r1, p1, paid)) ==> risk_config_valid(r1),
        accrue_outcome(reserve, now) matches Ok(r1) ==> risk_config_valid(r1),
{
}

/// Accruing interest never lowers the cumulative borrow rate nor moves the
/// last update time backwards, and leaves the balances alone.
pub proof fn law_accrual_is_monotone(reserve: Reserve, now: i64)
    requires
        accrue_outcome(reserve, now) is Ok,
    ensures
        ({
            let r1 = accrue_outcome(reserve, now)->Ok_0;
            &&& r1.cumulative_borrow_rate >= reserve.cumulative_borrow_rate
            &&& r1.last_update_timestamp >= reserve.last_update_timestamp
            &&& r1.total_deposits == reserve.total_deposits
            &&& r1.total_borrows == reserve.total_borrows
        }),
{
}

/// Only an unhealthy position is liquidated, never for more than its debt
/// nor its collateral.
pub proof fn law_liquidation_bounds(reserve: Reserve, position: UserPosition, max_amount: u64)
    requires
        liquidate_outcome(reserve, position, max_amount) is Ok,
    ensures
        ({
            let (p1, repaid, seized) = liquidate_outcome(reserve, position, max_amount)->Ok_0;
            &&& !is_healthy(position.deposited_amount, position.borrowed_amount, reserve.liquidation_threshold)
            &&& repaid <= max_amount
            &&& repaid <= position.borrowed_amount
            &&& seized <= position.deposited_amount
            &&& p1.borrowed_amount == position.borrowed_amount - repaid
            &&& p1.deposited_amount == position.deposited_amount - seized
        }),
{
    law_health_factor_matches_healthy(position.deposited_amount, position.borrowed_amount, reserve.liquidation_threshold);
}

/// A healthy position is never liquidated.
pub proof fn law_healthy_is_not_liquidated(reserve: Reserve, position: UserPosition, max_amount: u64)
    requires
        is_healthy(position.deposited_amount, position.borrowed_amount, reserve.liquidation_threshold),
    ensures
        liquidate_outcome(reserve, position, max_amount) == Err::<(UserPosition, u64, u64), LendingError>(
            LendingError::PositionNotLiquidatable,
        ),
{
    law_health_factor_matches_healthy(position.deposited_amount, position.borrowed_amount, reserve.liquidation_threshold);
}

/// The liquidator receives the collateral for the debt it repays plus the
/// liquidation bonus on it: `seized - repaid == repaid * bonus / 10000`.
pub proof fn law_liquidation_pays_bonus(reserve: Reserve, position: UserPosition, max_amount: u64)
    requires
        liquidate_outcome(reserve, position, max_amount) is Ok,
    ensures
        ({
            let (p1, repaid, seized) = liquidate_outcome(reserve, position, max_amount)->Ok_0;
            &&& seized >= repaid
            &&& seized - repaid == (repaid as int) * (reserve.liquidation_bonus as int) / (BPS_DENOMINATOR as int)
        }),
{
    let (p1, repaid, seized) = liquidate_outcome(reserve, position, max_amount)->Ok_0;
    let r = repaid as int;
    let b = reserve.liquidation_bonus as int;
    assert(r * (10000 + b) / 10000 == r + r * b / 10000) by (nonlinear_arith)
        requires
            0 <= r,
            0 <= b,
    ;
    assert(0 <= r * b / 10000) by (nonlinear_arith)
        requires
            0 <= r,
            0 <= b,
    ;
}

/// A migrated position cannot be migrated again.
pub proof fn law_migration_is_once(position: UserPosition)
    requires
        migrate_outcome(position) is Ok,
    ensures
        migrate_outcome(migrate_outcome(position)->Ok_0) == Err::<UserPosition, LendingError>(LendingError::AlreadyMigrated),
{
}

/// Epochs already claimed never add to a claim: appending one leaves the
/// payout as it was.
pub proof fn law_claimed_epochs_pay_nothing(epochs: Seq<RewardEpoch>, claimed: RewardEpoch)
    requires
        claimed.is_claimed,
    ensures
        claim_outcome(epochs.push(claimed)) == claim_outcome(epochs),
{
    assert(epochs.push(claimed).drop_last() =~= epochs);
}

// ---------------------------------------------------------------------------
// What each operation does, stated over its inputs
// ---------------------------------------------------------------------------

/// For a whole number `n` and `x >= 0`: `n <= x / 10000` exactly when `n * 10000 <= x`.
proof fn lemma_floor_bound(n: int, x: int)
    requires
        0 <= x,
    ensures
        (n <= x / 10000) <==> (n * 10000 <= x),
{
}

/// The health factor is at least 1.0 exactly when the debt, in basis points,
/// is at most the collateral weighted by the liquidation threshold:
/// `borrowed * 10000 <= collateral * threshold`.
pub proof fn law_health_factor_threshold(collateral: u64, borrowed: u64, threshold: u16)
    ensures
        health_factor(collateral, borrowed, threshold) >= 1_000_000_000 <==> (borrowed as int) * 10000
            <= (collateral as int) * (threshold as int),
{
    law_health_factor_matches_healthy(collateral, borrowed, threshold);
    lemma_adjusted_nonneg(collateral, threshold);
    assert(0 <= (collateral as int) * (threshold as int)) by (nonlinear_arith);
    lemma_floor_bound(borrowed as int, (collateral as int) * (threshold as int));
}

/// The health factor is the largest `u64` without debt, and otherwise the
/// weighted collateral `collateral * threshold / 10000`, scaled by 1e9 and
/// divided by the debt, capped at the largest `u64`.
pub proof fn law_health_factor_value(collateral: u64, borrowed: u64, threshold: u16)
    ensures
        borrowed == 0 ==> health_factor(collateral, borrowed, threshold) == u64::MAX,
        borrowed > 0 ==> {
            let ratio = (collateral as int) * (threshold as int) / 10000 * 1_000_000_000 / (borrowed as int);
            &&& ratio <= u64::MAX ==> health_factor(collateral, borrowed, threshold) == ratio
            &&& ratio > u64::MAX ==> health_factor(collateral, borrowed, threshold) == u64::MAX
        },
{
}

/// A deposit of a positive amount always succeeds unless a total would pass
/// the largest `u64`; it adds the amount to the reserve's deposits and to
/// the position's collateral and changes nothing else.
pub proof fn law_deposit_behaviour(reserve: Reserve, position: UserPosition, amount: u64)
    ensures
        amount == 0 ==> deposit_outcome(reserve, position, amount) == Err::<(Reserve, UserPosition), LendingError>(LendingError::InvalidAmount),
        amount > 0 && (reserve.total_deposits + amount > u64::MAX || position.deposited_amount + amount > u64::MAX)
            ==> deposit_outcome(reserve, position, amount) == Err::<(Reserve, UserPosition), LendingError>(LendingError::MathOverflow),
        amount > 0 && reserve.total_deposits + amount <= u64::MAX && position.deposited_amount + amount <= u64::MAX
            ==> deposit_outcome(reserve, position, amount) == Ok::<(Reserve, UserPosition), LendingError>((
                Reserve { total_deposits: (reserve.total_deposits + amount) as u64, ..reserve },
                UserPosition { deposited_amount: (position.deposited_amount + amount) as u64, ..position },
            )),
{
}

/// A withdrawal of a positive amount no larger than the collateral succeeds
/// exactly when the remaining weighted collateral still covers the debt
/// (`borrowed * 10000 <= (deposited - amount) * threshold`) and the reserve
/// holds the amount; it then takes the amount off both and nothing else.
pub proof fn law_withdraw_behaviour(reserve: Reserve, position: UserPosition, amount: u64)
    ensures
        amount == 0 ==> withdraw_outcome(reserve, position, amount) == Err::<(Reserve, UserPosition), LendingError>(LendingError::InvalidAmount),
        amount > 0 && amount > position.deposited_amount ==> withdraw_outcome(reserve, position, amount)
            == Err::<(Reserve, UserPosition), LendingError>(LendingError::InsufficientCollateral),
        0 < amount <= position.deposited_amount && (position.borrowed_amount as int) * 10000
            > (position.deposited_amount - amount) * (reserve.liquidation_threshold as int)
            ==> withdraw_outcome(reserve, position, amount) == Err::<(Reserve, UserPosition), LendingError>(LendingError::HealthFactorTooLow),
        0 < amount <= position.deposited_amount && (position.borrowed_amount as int) * 10000
            <= (position.deposited_amount - amount) * (reserve.liquidation_threshold as int)
            && amount > reserve.total_deposits
            ==> withdraw_outcome(reserve, position, amount) == Err::<(Reserve, UserPosition), LendingError>(LendingError::MathOverflow),
        0 < amount <= position.deposited_amount && (position.borrowed_amount as int) * 10000
            <= (position.deposited_amount - amount) * (reserve.liquidation_threshold as int)
            && amount <= reserve.total_deposits
            ==> withdraw_outcome(reserve, position, amount) == Ok::<(Reserve, UserPosition), LendingError>((
                Reserve { total_deposits: (reserve.total_deposits - amount) as u64, ..reserve },
                UserPosition { deposited_amount: (position.deposited_amount - amount) as u64, ..position },
            )),
{
    if 0 < amount <= position.deposited_amount {
        law_health_factor_threshold((position.deposited_amount - amount) as u64, position.borrowed_amount, reserve.liquidation_threshold);
    }
}

/// A borrow of a positive amount succeeds exactly when the new debt stays
/// within the LTV limit (`(borrowed + amount) * 10000 <= deposited * ltv`)
/// and neither the debt nor the reserve's borrows pass the largest `u64`;
/// it then adds the amount to both and changes nothing else. The existing
/// debt counts once.
pub proof fn law_borrow_behaviour(reserve: Reserve, position: UserPosition, amount: u64)
    ensures
        amount == 0 ==> borrow_outcome(reserve, position, amount) == Err::<(Reserve, UserPosition), LendingError>(LendingError::InvalidAmount),
        amount > 0 && position.borrowed_amount + amount > u64::MAX ==> borrow_outcome(reserve, position, amount)
            == Err::<(Reserve, UserPosition), LendingError>(LendingError::MathOverflow),
        amount > 0 && position.borrowed_amount + amount <= u64::MAX
            && (position.borrowed_amount + amount) * 10000 > (position.deposited_amount as int) * (reserve.ltv as int)
            ==> borrow_outcome(reserve, position, amount) == Err::<(Reserve, UserPosition), LendingError>(LendingError::ExceedsLtvLimit),
        amount > 0 && position.borrowed_amount + amount <= u64::MAX
            && (position.borrowed_amount + amount) * 10000 <= (position.deposited_amount as int) * (reserve.ltv as int)
            && reserve.total_borrows + amount > u64::MAX
            ==> borrow_outcome(reserve, position, amount) == Err::<(Reserve, UserPosition), LendingError>(LendingError::MathOverflow),
        amount > 0 && position.borrowed_amount + amount <= u64::MAX
            && (position.borrowed_amount + amount) * 10000 <= (position.deposited_amount as int) * (reserve.ltv as int)
            && reserve.total_borrows + amount <= u64::MAX
            ==> borrow_outcome(reserve, position, amount) == Ok::<(Reserve, UserPosition), LendingError>((
                Reserve { total_borrows: (reserve.total_borrows + amount) as u64, ..reserve },
                UserPosition { borrowed_amount: (position.borrowed_amount + amount) as u64, ..position },
            )),
{
    assert(0 <= (position.deposited_amount as int) * (reserve.ltv as int)) by (nonlinear_arith);
    lemma_floor_bound(position.borrowed_amount + amount, (position.deposited_amount as int) * (reserve.ltv as int));
}

/// A repayment of a positive amount pays the smaller of the amount and the
/// debt; it succeeds unless the reserve's borrows are smaller than that, and
/// then takes it off the debt and the reserve's borrows and nothing else.
pub proof fn law_repay_behaviour(reserve: Reserve, position: UserPosition, amount: u64)
    ensures
        amount == 0 ==> repay_outcome(reserve, position, amount) == Err::<(Reserve, UserPosition, u64), LendingError>(LendingError::InvalidAmount),
        amount > 0 ==> {
            let paid: u64 = if amount <= position.borrowed_amount { amount } else { position.borrowed_amount };
            &&& paid > reserve.total_borrows ==> repay_outcome(reserve, position, amount)
                == Err::<(Reserve, UserPosition, u64), LendingError>(LendingError::MathOverflow)
            &&& paid <= reserve.total_borrows ==> repay_outcome(reserve, position, amount)
                == Ok::<(Reserve, UserPosition, u64), LendingError>((
                    Reserve { total_borrows: (reserve.total_borrows - paid) as u64, ..reserve },
                    UserPosition { borrowed_amount: (position.borrowed_amount - paid) as u64, ..position },
                    paid,
                ))
        },
{
}

/// A position is liquidatable exactly when its weighted collateral falls
/// short of its debt (`borrowed * 10000 > deposited * threshold`, health
/// factor below 1.0). The liquidator repays the smaller of its maximum and
/// the debt and seizes that plus the bonus,
/// `repaid * (10000 + bonus) / 10000`; this succeeds whenever the collateral
/// covers the seizure, and changes only the position's debt and collateral.
pub proof fn law_liquidate_behaviour(reserve: Reserve, position: UserPosition, max_amount: u64)
    ensures
        (position.borrowed_amount as int) * 10000 <= (position.deposited_amount as int) * (reserve.liquidation_threshold as int)
            ==> liquidate_outcome(reserve, position, max_amount)
            == Err::<(UserPosition, u64, u64), LendingError>(LendingError::PositionNotLiquidatable),
        (position.borrowed_amount as int) * 10000 > (position.deposited_amount as int) * (reserve.liquidation_threshold as int)
            ==> {
            let repaid: u64 = if max_amount <= position.borrowed_amount { max_amount } else { position.borrowed_amount };
            let seized = (repaid as int) * (10000 + reserve.liquidation_bonus) / 10000;
            &&& seized > position.deposited_amount ==> liquidate_outcome(reserve, position, max_amount)
                == Err::<(UserPosition, u64, u64), LendingError>(LendingError::InsufficientCollateralToSeize)
            &&& seized <= position.deposited_amount ==> liquidate_outcome(reserve, position, max_amount)
                == Ok::<(UserPosition, u64, u64), LendingError>((
                    UserPosition {
                        borrowed_amount: (position.borrowed_amount - repaid) as u64,
                        deposited_amount: (position.deposited_amount - seized) as u64,
                        ..position
                    },
                    repaid,
                    seized as u64,
                ))
        },
{
    law_health_factor_threshold(position.deposited_amount, position.borrowed_amount, reserve.liquidation_threshold);
}

/// Accrual charges interest for the time elapsed since the last update
/// (capped at the largest `i64`) at the yearly rate of 2% plus a tenth of
/// the utilization `borrows * 1e9 / deposits` (0 without deposits): the
/// cumulative rate grows by `rate * elapsed / 31536000` and the last update
/// moves to `now`. Without borrows only the last update moves; when no time
/// has passed nothing changes. It fails only when the product passes the
/// largest `u128` or the rate the largest `u64`.
pub proof fn law_accrue_behaviour(reserve: Reserve, now: i64)
    ensures
        now <= reserve.last_update_timestamp ==> accrue_outcome(reserve, now) == Ok::<Reserve, LendingError>(reserve),
        now > reserve.last_update_timestamp && reserve.total_borrows == 0 ==> accrue_outcome(reserve, now)
            == Ok::<Reserve, LendingError>(Reserve { last_update_timestamp: now, ..reserve }),
        now > reserve.last_update_timestamp && reserve.total_borrows > 0 ==> {
            let elapsed: int = if now - reserve.last_update_timestamp > i64::MAX { i64::MAX as int } else { now - reserve.last_update_timestamp };
            let utilization: int = if reserve.total_deposits == 0 { 0 } else {
                (reserve.total_borrows as int) * 1_000_000_000 / (reserve.total_deposits as int)
            };
            let rate: int = 20_000_000 + utilization / 10;
            let growth: int = rate * elapsed / 31_536_000;
            &&& rate * elapsed <= u128::MAX && reserve.cumulative_borrow_rate + growth <= u64::MAX
                ==> accrue_outcome(reserve, now) == Ok::<Reserve, LendingError>(Reserve {
                    cumulative_borrow_rate: (reserve.cumulative_borrow_rate + growth) as u64,
                    last_update_timestamp: now,
                    ..reserve
                })
            &&& !(rate * elapsed <= u128::MAX && reserve.cumulative_borrow_rate + growth <= u64::MAX)
                ==> accrue_outcome(reserve, now) == Err::<Reserve, LendingError>(LendingError::MathOverflow)
        },
{
}

/// The interest charged depends only on the time elapsed: moving both the
/// last update and `now` by the same shift changes neither whether accrual
/// succeeds nor how much the cumulative rate grows.
pub proof fn law_accrual_depends_on_elapsed_time(reserve: Reserve, now: i64, shift: i64)
    requires
        i64::MIN <= reserve.last_update_timestamp + shift <= i64::MAX,
        i64::MIN <= now + shift <= i64::MAX,
    ensures
        ({
            let moved = Reserve { last_update_timestamp: (reserve.last_update_timestamp + shift) as i64, ..reserve };
            &&& (accrue_outcome(reserve, now) is Ok <==> accrue_outcome(moved, (now + shift) as i64) is Ok)
            &&& accrue_outcome(reserve, now) is Ok ==> accrue_outcome(reserve, now)->Ok_0.cumulative_borrow_rate
                == accrue_outcome(moved, (now + shift) as i64)->Ok_0.cumulative_borrow_rate
        }),
{
    let moved = Reserve { last_update_timestamp: (reserve.last_update_timestamp + shift) as i64, ..reserve };
    assert(saturating_sub_i64(now, reserve.last_update_timestamp) == saturating_sub_i64((now + shift) as i64, moved.last_update_timestamp));
}

/// Claiming pays the sum of the unclaimed epochs: nothing to claim is
/// refused, a claimed epoch adds nothing, an unclaimed one adds its amount,
/// and once the sum passes the largest `u64` the claim fails.
pub proof fn law_claim_behaviour(epochs: Seq<RewardEpoch>, epoch: RewardEpoch)
    ensures
        claim_outcome(Seq::<RewardEpoch>::empty()) == Err::<u64, LendingError>(LendingError::NoRewardsAvailable),
        epoch.is_claimed ==> claim_outcome(epochs.push(epoch)) == claim_outcome(epochs),
        !epoch.is_claimed && claim_outcome(epochs) is Ok ==> {
            let before = claim_outcome(epochs)->Ok_0;
            &&& before + epoch.amount <= u64::MAX ==> claim_outcome(epochs.push(epoch)) == Ok::<u64, LendingError>((before + epoch.amount) as u64)
            &&& before + epoch.amount > u64::MAX ==> claim_outcome(epochs.push(epoch)) == Err::<u64, LendingError>(LendingError::MathOverflow)
        },
        !epoch.is_claimed && claim_outcome(epochs) == Err::<u64, LendingError>(LendingError::NoRewardsAvailable) ==> claim_outcome(
            epochs.push(epoch),
        ) == if epoch.amount == 0 {
            Err::<u64, LendingError>(LendingError::NoRewardsAvailable)
        } else {
            Ok::<u64, LendingError>(epoch.amount)
        },
        claim_outcome(epochs) == Err::<u64, LendingError>(LendingError::MathOverflow) ==> claim_outcome(epochs.push(epoch))
            == Err::<u64, LendingError>(LendingError::MathOverflow),
{
    assert(epochs.push(epoch).drop_last() =~= epochs);
    lemma_unclaimed_total_nonneg_law(epochs);
    assert(unclaimed_total(Seq::<RewardEpoch>::empty()) == 0);
}

proof fn lemma_unclaimed_total_nonneg_law(epochs: Seq<RewardEpoch>)
    ensures
        unclaimed_total(epochs) >= 0,
    decreases epochs.len(),
{
    if epochs.len() > 0 {
        lemma_unclaimed_total_nonneg_law(epochs.drop_last());
    }
}

/// Migration moves a position below the target version to version 2 and
/// changes nothing else; a position already there is refused.
pub proof fn law_migrate_behaviour(position: UserPosition)
    ensures
        position.version < 2 ==> migrate_outcome(position) == Ok::<UserPosition, LendingError>(UserPosition { version: 2, ..position }),
        position.version >= 2 ==> migrate_outcome(position) == Err::<UserPosition, LendingError>(LendingError::AlreadyMigrated),
{
}

} // verus!
