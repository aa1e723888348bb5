//! The multiplier a bet earns for the conviction it declares.

use vstd::prelude::*;
use crate::constants::{BetDirection, MarketType, BPS_SCALING_FACTOR};
use crate::error::GoldRushError;

verus! {

/// The magnitude of a declared conviction.
pub open spec fn spec_abs(p: int) -> int {
    if p < 0 {
        -p
    } else {
        p
    }
}

/// The direction factor, in basis points. `Up`, `Down` and a conviction of
/// zero earn the default. Any other conviction `p` earns a bonus on top of
/// it: `p * p / 100` in a single-asset round, `|p|` in a group battle.
pub open spec fn spec_direction_factor(
    market_type: MarketType,
    bet_direction: BetDirection,
    default_direction_factor_bps: int,
) -> int {
    match bet_direction {
        BetDirection::Up | BetDirection::Down => default_direction_factor_bps,
        BetDirection::PercentageChangeBps(percent) => {
            if percent == 0 {
                default_direction_factor_bps
            } else {
                match market_type {
                    MarketType::SingleAsset => default_direction_factor_bps + (percent * percent)
                        / (BPS_SCALING_FACTOR as int),
                    MarketType::GroupBattle => default_direction_factor_bps + spec_abs(percent as int),
                }
            }
        },
    }
}

/// Whether the direction factor cannot be computed: the conviction has no
/// magnitude in sixteen bits, or the factor does not fit in 64 bits.
pub open spec fn direction_factor_overflows(
    market_type: MarketType,
    bet_direction: BetDirection,
    default_direction_factor_bps: int,
) -> bool {
    bet_direction matches BetDirection::PercentageChangeBps(percent) && percent != 0 && (percent
        == i16::MIN || spec_direction_factor(market_type, bet_direction, default_direction_factor_bps)
        > u64::MAX)
}

/// The largest direction factor any bet of the market can earn.
pub open spec fn max_direction_factor(market_type: MarketType, default_direction_factor_bps: int) -> int {
    match market_type {
        MarketType::SingleAsset => default_direction_factor_bps + (i16::MAX * i16::MAX) / (
        BPS_SCALING_FACTOR as int),
        MarketType::GroupBattle => default_direction_factor_bps + i16::MAX,
    }
}

/// Computes the direction factor of a bet.
pub fn calculate_direction_factor(
    market_type: &MarketType,
    bet_direction: &BetDirection,
    default_direction_factor_bps: u64,
) -> (r: Result<u64, GoldRushError>)
    ensures
        match r {
            Ok(factor) => !direction_factor_overflows(
                *market_type,
                *bet_direction,
                default_direction_factor_bps as int,
            ) && factor == spec_direction_factor(
                *market_type,
                *bet_direction,
                default_direction_factor_bps as int,
            ),
            Err(e) => e == GoldRushError::Overflow && direction_factor_overflows(
                *market_type,
                *bet_direction,
                default_direction_factor_bps as int,
            ),
        },
{
    match bet_direction {
        BetDirection::Up | BetDirection::Down => Ok(default_direction_factor_bps),
        BetDirection::PercentageChangeBps(percent) => {
            let percent: i16 = *percent;
            if percent == 0 {
                return Ok(default_direction_factor_bps);
            }
            if percent == i16::MIN {
                return Err(GoldRushError::Overflow);
            }
            let abs_percent_bps: u64 = if percent < 0 {
                (-percent) as u64
            } else {
                percent as u64
            };
            match market_type {
                MarketType::SingleAsset => {
                    assert(abs_percent_bps * abs_percent_bps == percent * percent
                        && abs_percent_bps * abs_percent_bps <= 32767 * 32767) by (nonlinear_arith)
                        requires
                            abs_percent_bps == spec_abs(percent as int),
                            abs_percent_bps <= 32767,
                    ;
                    let square: u128 = (abs_percent_bps as u128) * (abs_percent_bps as u128);
                    let bonus_bps: u128 = square / (BPS_SCALING_FACTOR as u128);
                    let total: u128 = (default_direction_factor_bps as u128) + bonus_bps;
                    if total > u64::MAX as u128 {
                        Err(GoldRushError::Overflow)
                    } else {
                        Ok(total as u64)
                    }
                },
                MarketType::GroupBattle => {
                    match default_direction_factor_bps.checked_add(abs_percent_bps) {
                        Some(result) => Ok(result),
                        None => Err(GoldRushError::Overflow),
                    }
                },
            }
        },
    }
}

/// No bet earns more than the largest direction factor of its market.
pub proof fn lemma_direction_factor_bounded(
    market_type: MarketType,
    bet_direction: BetDirection,
    default_direction_factor_bps: int,
)
    requires
        !(bet_direction matches BetDirection::PercentageChangeBps(p) && p == i16::MIN),
    ensures
        default_direction_factor_bps <= spec_direction_factor(
            market_type,
            bet_direction,
            default_direction_factor_bps,
        ) <= max_direction_factor(market_type, default_direction_factor_bps),
{
    match bet_direction {
        BetDirection::PercentageChangeBps(percent) => {
            let p = percent as int;
            assert(0 <= p * p <= 32767 * 32767) by (nonlinear_arith)
                requires
                    -32767 <= p <= 32767,
            ;
        },
        _ => {},
    }
}

} // verus!
