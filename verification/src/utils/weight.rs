//! The weight of a bet: its share of the reward pool if it wins.

use vstd::prelude::*;
use vstd::arithmetic::div_mod::lemma_div_is_ordered;
use vstd::arithmetic::mul::{lemma_mul_inequality, lemma_mul_is_commutative, lemma_mul_nonnegative};
use crate::constants::{BetDirection, MarketType};
use crate::error::GoldRushError;
use crate::utils::direction::{lemma_direction_factor_bounded, max_direction_factor, spec_direction_factor};
use crate::utils::time::{lemma_time_factor_bounded, spec_time_factor};

verus! {

/// The square of one hundred percent in basis points.
pub open spec fn weight_scale() -> int {
    100_000_000
}

/// The weight of a stake under the given factors:
/// `amount * direction_factor * time_factor / 10^8`, rounded down.
pub open spec fn spec_bet_weight(amount: int, direction_factor: int, time_factor: int) -> int {
    (amount * direction_factor * time_factor) / weight_scale()
}

/// Computes the weight of a stake. Fails with `Overflow` exactly when the
/// weight does not fit in 64 bits.
pub fn calculate_bet_weight(amount: u64, direction_factor: u64, time_factor: u64) -> (r: Result<
    u64,
    GoldRushError,
>)
    ensures
        match r {
            Ok(weight) => weight == spec_bet_weight(
                amount as int,
                direction_factor as int,
                time_factor as int,
            ),
            Err(e) => e == GoldRushError::Overflow && spec_bet_weight(
                amount as int,
                direction_factor as int,
                time_factor as int,
            ) > u64::MAX,
        },
{
    assert(amount * direction_factor <= 0xffff_ffff_ffff_ffff * 0xffff_ffff_ffff_ffff) by (nonlinear_arith)
        requires
            amount <= 0xffff_ffff_ffff_ffff,
            direction_factor <= 0xffff_ffff_ffff_ffff,
    ;
    let staked: u128 = (amount as u128) * (direction_factor as u128);
    let numerator: u128 = match staked.checked_mul(time_factor as u128) {
        Some(n) => n,
        None => {
            proof {
                lemma_div_is_ordered(
                    u128::MAX as int,
                    amount * direction_factor * time_factor,
                    weight_scale(),
                );
            }
            return Err(GoldRushError::Overflow);
        },
    };
    let weight: u128 = numerator / 100_000_000;
    if weight > u64::MAX as u128 {
        Err(GoldRushError::Overflow)
    } else {
        Ok(weight as u64)
    }
}

/// Weight grows with each factor: larger factors never give a smaller
/// weight.
pub proof fn lemma_weight_monotonic(
    amount: int,
    direction_factor: int,
    time_factor: int,
    direction_bound: int,
    time_bound: int,
)
    requires
        amount >= 0,
        0 <= direction_factor <= direction_bound,
        0 <= time_factor <= time_bound,
    ensures
        0 <= spec_bet_weight(amount, direction_factor, time_factor) <= spec_bet_weight(
            amount,
            direction_bound,
            time_bound,
        ),
{
    lemma_mul_is_commutative(amount, direction_factor);
    lemma_mul_is_commutative(amount, direction_bound);
    lemma_mul_inequality(direction_factor, direction_bound, amount);
    lemma_mul_nonnegative(amount, direction_factor);
    lemma_mul_inequality(amount * direction_factor, amount * direction_bound, time_factor);
    lemma_mul_nonnegative(amount * direction_bound, time_factor);
    lemma_mul_is_commutative(amount * direction_bound, time_factor);
    lemma_mul_is_commutative(amount * direction_bound, time_bound);
    lemma_mul_inequality(time_factor, time_bound, amount * direction_bound);
    lemma_mul_nonnegative(amount * direction_factor, time_factor);
    lemma_div_is_ordered(0, amount * direction_factor * time_factor, weight_scale());
    lemma_div_is_ordered(
        amount * direction_factor * time_factor,
        amount * direction_bound * time_bound,
        weight_scale(),
    );
}

/// No stake is inflated beyond the bounds of its market: whatever the
/// declared direction and the moment of the bet, its weight is at most
/// `amount * max_direction_factor * max_time_factor / 10^8`.
pub proof fn lemma_weight_bounded(
    market_type: MarketType,
    amount: int,
    bet_direction: BetDirection,
    time_elapsed: int,
    duration: int,
    default_direction_factor_bps: int,
    min_time_factor_bps: int,
    max_time_factor_bps: int,
)
    requires
        amount >= 0,
        duration > 0,
        0 <= time_elapsed <= duration,
        default_direction_factor_bps >= 0,
        0 <= min_time_factor_bps <= max_time_factor_bps,
        !(bet_direction matches BetDirection::PercentageChangeBps(p) && p == i16::MIN),
    ensures
        spec_bet_weight(
            amount,
            spec_direction_factor(market_type, bet_direction, default_direction_factor_bps),
            spec_time_factor(
                market_type,
                time_elapsed,
                min_time_factor_bps,
                max_time_factor_bps,
                duration,
            ),
        ) <= spec_bet_weight(
            amount,
            max_direction_factor(market_type, default_direction_factor_bps),
            max_time_factor_bps,
        ),
{
    lemma_direction_factor_bounded(market_type, bet_direction, default_direction_factor_bps);
    lemma_time_factor_bounded(
        market_type,
        time_elapsed,
        min_time_factor_bps,
        max_time_factor_bps,
        duration,
    );
    lemma_weight_monotonic(
        amount,
        spec_direction_factor(market_type, bet_direction, default_direction_factor_bps),
        spec_time_factor(
            market_type,
            time_elapsed,
            min_time_factor_bps,
            max_time_factor_bps,
            duration,
        ),
        max_direction_factor(market_type, default_direction_factor_bps),
        max_time_factor_bps,
    );
}

} // verus!
