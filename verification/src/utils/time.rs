//! The multiplier a bet earns for being placed early.

use vstd::prelude::*;
use vstd::arithmetic::div_mod::{lemma_div_is_ordered, lemma_div_multiples_vanish, lemma_div_pos_is_pos};
use vstd::arithmetic::mul::{lemma_mul_inequality, lemma_mul_is_commutative, lemma_mul_nonnegative, lemma_mul_strictly_positive};
use crate::constants::MarketType;
use crate::error::GoldRushError;

verus! {

/// The time that counts as elapsed: never negative.
pub open spec fn clamped_elapsed(time_elapsed: int) -> int {
    if time_elapsed < 0 {
        0
    } else {
        time_elapsed
    }
}

/// The time that counts as remaining: never negative.
pub open spec fn remaining_time(time_elapsed: int, duration: int) -> int {
    if clamped_elapsed(time_elapsed) >= duration {
        0
    } else {
        duration - clamped_elapsed(time_elapsed)
    }
}

/// The time factor before the floor is applied. A group battle decays
/// linearly, `max - elapsed * max / duration`; a single-asset round decays
/// with the square of the remaining share,
/// `remaining^2 * max / duration^2`.
pub open spec fn raw_time_factor(
    market_type: MarketType,
    time_elapsed: int,
    max_time_factor_bps: int,
    duration: int,
) -> int {
    match market_type {
        MarketType::GroupBattle => max_time_factor_bps - (clamped_elapsed(time_elapsed)
            * max_time_factor_bps) / duration,
        MarketType::SingleAsset => (remaining_time(time_elapsed, duration) * remaining_time(
            time_elapsed,
            duration,
        ) * max_time_factor_bps) / (duration * duration),
    }
}

/// The time factor, in basis points: the decayed factor, but never less than
/// the minimum.
pub open spec fn spec_time_factor(
    market_type: MarketType,
    time_elapsed: int,
    min_time_factor_bps: int,
    max_time_factor_bps: int,
    duration: int,
) -> int {
    let raw = raw_time_factor(market_type, time_elapsed, max_time_factor_bps, duration);
    if raw < min_time_factor_bps {
        min_time_factor_bps
    } else {
        raw
    }
}

/// Whether the quadratic decay leaves the range of 128-bit integers on the
/// way.
pub open spec fn time_factor_overflows(
    market_type: MarketType,
    time_elapsed: int,
    max_time_factor_bps: int,
    duration: int,
) -> bool {
    market_type == MarketType::SingleAsset && remaining_time(time_elapsed, duration)
        * remaining_time(time_elapsed, duration) * max_time_factor_bps > u128::MAX
}

/// Computes the time factor of a bet placed `time_elapsed` into a round that
/// lasts `duration`.
pub fn calculate_time_factor(
    market_type: &MarketType,
    time_elapsed: i64,
    min_time_factor_bps: u64,
    max_time_factor_bps: u64,
    duration: i64,
) -> (r: Result<u64, GoldRushError>)
    ensures
        match r {
            Ok(factor) => duration > 0 && !time_factor_overflows(
                *market_type,
                time_elapsed as int,
                max_time_factor_bps as int,
                duration as int,
            ) && factor == spec_time_factor(
                *market_type,
                time_elapsed as int,
                min_time_factor_bps as int,
                max_time_factor_bps as int,
                duration as int,
            ),
            Err(e) => if duration <= 0 {
                e == GoldRushError::InvalidDuration
            } else {
                e == GoldRushError::Overflow && time_factor_overflows(
                    *market_type,
                    time_elapsed as int,
                    max_time_factor_bps as int,
                    duration as int,
                )
            },
        },
{
    if duration <= 0 {
        return Err(GoldRushError::InvalidDuration);
    }
    let span: u128 = duration as u128;
    let elapsed: u128 = if time_elapsed < 0 {
        0
    } else {
        time_elapsed as u128
    };
    let max: u128 = max_time_factor_bps as u128;
    let factor_bps: u64 = match market_type {
        MarketType::GroupBattle => {
            assert(elapsed * max <= 0x8000_0000_0000_0000 * 0x1_0000_0000_0000_0000) by (nonlinear_arith)
                requires
                    elapsed <= 0x8000_0000_0000_0000,
                    max <= 0x1_0000_0000_0000_0000,
            ;
            let reduction: u128 = (elapsed * max) / span;
            if reduction >= max {
                0
            } else {
                (max - reduction) as u64
            }
        },
        MarketType::SingleAsset => {
            let remaining: u128 = if elapsed >= span {
                0
            } else {
                span - elapsed
            };
            assert(remaining * remaining <= span * span <= 0x8000_0000_0000_0000
                * 0x8000_0000_0000_0000 && span * span > 0) by (nonlinear_arith)
                requires
                    remaining <= span,
                    0 < span <= 0x8000_0000_0000_0000,
            ;
            let remaining_squared: u128 = remaining * remaining;
            let numerator: u128 = match remaining_squared.checked_mul(max) {
                Some(n) => n,
                None => {
                    return Err(GoldRushError::Overflow);
                },
            };
            let denominator: u128 = span * span;
            proof {
                lemma_mul_inequality(
                    (remaining * remaining) as int,
                    (span * span) as int,
                    max as int,
                );
                lemma_div_is_ordered(
                    (remaining * remaining * max) as int,
                    (span * span * max) as int,
                    (span * span) as int,
                );
                lemma_mul_is_commutative((span * span) as int, max as int);
                lemma_div_multiples_vanish(max as int, (span * span) as int);
            }
            (numerator / denominator) as u64
        },
    };
    proof {
        if *market_type == MarketType::GroupBattle {
            lemma_mul_nonnegative(elapsed as int, max as int);
            lemma_div_pos_is_pos((elapsed * max) as int, span as int);
        }
    }
    if factor_bps < min_time_factor_bps {
        Ok(min_time_factor_bps)
    } else {
        Ok(factor_bps)
    }
}

/// The undecayed factor never grows as time passes.
proof fn lemma_raw_time_factor_decreases(
    market_type: MarketType,
    earlier: int,
    later: int,
    max_time_factor_bps: int,
    duration: int,
)
    requires
        earlier <= later,
        duration > 0,
        max_time_factor_bps >= 0,
    ensures
        raw_time_factor(market_type, earlier, max_time_factor_bps, duration) >= raw_time_factor(
            market_type,
            later,
            max_time_factor_bps,
            duration,
        ),
{
    let max = max_time_factor_bps;
    match market_type {
        MarketType::GroupBattle => {
            let e1 = clamped_elapsed(earlier);
            let e2 = clamped_elapsed(later);
            lemma_mul_inequality(e1, e2, max);
            lemma_div_is_ordered(e1 * max, e2 * max, duration);
        },
        MarketType::SingleAsset => {
            let r1 = remaining_time(earlier, duration);
            let r2 = remaining_time(later, duration);
            assert(r2 * r2 <= r1 * r1) by (nonlinear_arith)
                requires
                    0 <= r2 <= r1,
            ;
            lemma_mul_inequality(r2 * r2, r1 * r1, max);
            lemma_mul_strictly_positive(duration, duration);
            lemma_div_is_ordered(r2 * r2 * max, r1 * r1 * max, duration * duration);
        },
    }
}

/// The time factor never grows as time passes, in either market.
pub proof fn lemma_time_factor_monotonic(
    market_type: MarketType,
    earlier: int,
    later: int,
    min_time_factor_bps: int,
    max_time_factor_bps: int,
    duration: int,
)
    requires
        earlier <= later,
        duration > 0,
        max_time_factor_bps >= 0,
    ensures
        spec_time_factor(market_type, earlier, min_time_factor_bps, max_time_factor_bps, duration)
            >= spec_time_factor(
            market_type,
            later,
            min_time_factor_bps,
            max_time_factor_bps,
            duration,
        ),
{
    lemma_raw_time_factor_decreases(market_type, earlier, later, max_time_factor_bps, duration);
}

/// At the start of the round the time factor is the maximum, in either
/// market.
pub proof fn lemma_time_factor_at_start(
    market_type: MarketType,
    min_time_factor_bps: int,
    max_time_factor_bps: int,
    duration: int,
)
    requires
        duration > 0,
        0 <= min_time_factor_bps <= max_time_factor_bps,
    ensures
        spec_time_factor(market_type, 0, min_time_factor_bps, max_time_factor_bps, duration)
            == max_time_factor_bps,
{
    let max = max_time_factor_bps;
    match market_type {
        MarketType::GroupBattle => {
            assert(0 * max == 0) by (nonlinear_arith);
        },
        MarketType::SingleAsset => {
            lemma_mul_strictly_positive(duration, duration);
            lemma_mul_is_commutative(duration * duration, max);
            lemma_div_multiples_vanish(max, duration * duration);
        },
    }
}

/// From the end of the round on the time factor is the minimum, in either
/// market.
pub proof fn lemma_time_factor_at_end(
    market_type: MarketType,
    time_elapsed: int,
    min_time_factor_bps: int,
    max_time_factor_bps: int,
    duration: int,
)
    requires
        duration > 0,
        time_elapsed >= duration,
        0 <= min_time_factor_bps,
        0 <= max_time_factor_bps,
    ensures
        spec_time_factor(
            market_type,
            time_elapsed,
            min_time_factor_bps,
            max_time_factor_bps,
            duration,
        ) == min_time_factor_bps,
{
    let max = max_time_factor_bps;
    match market_type {
        MarketType::GroupBattle => {
            lemma_mul_inequality(duration, time_elapsed, max);
            lemma_div_is_ordered(duration * max, time_elapsed * max, duration);
            lemma_mul_is_commutative(duration, max);
            lemma_div_multiples_vanish(max, duration);
        },
        MarketType::SingleAsset => {
            assert(0 * 0 * max == 0) by (nonlinear_arith);
            lemma_mul_strictly_positive(duration, duration);
        },
    }
}

/// The time factor lies between the minimum and the maximum.
pub proof fn lemma_time_factor_bounded(
    market_type: MarketType,
    time_elapsed: int,
    min_time_factor_bps: int,
    max_time_factor_bps: int,
    duration: int,
)
    requires
        duration > 0,
        0 <= min_time_factor_bps <= max_time_factor_bps,
    ensures
        min_time_factor_bps <= spec_time_factor(
            market_type,
            time_elapsed,
            min_time_factor_bps,
            max_time_factor_bps,
            duration,
        ) <= max_time_factor_bps,
{
    if time_elapsed >= 0 {
        lemma_time_factor_monotonic(
            market_type,
            0,
            time_elapsed,
            min_time_factor_bps,
            max_time_factor_bps,
            duration,
        );
    }
    lemma_time_factor_at_start(market_type, min_time_factor_bps, max_time_factor_bps, duration);
}

} // verus!
