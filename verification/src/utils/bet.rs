//! Whether a bet on a single asset won.

use vstd::prelude::*;
use crate::constants::BetDirection;

verus! {

/// The outcome of a bet on a price that moved by `price_change`: `None`
/// when the price did not move, else whether the declared direction has the
/// sign of the move.
pub open spec fn spec_is_bet_winner(bet_direction: BetDirection, price_change: int) -> Option<bool> {
    if price_change == 0 {
        None
    } else {
        Some(
            match bet_direction {
                BetDirection::Up => price_change > 0,
                BetDirection::Down => price_change < 0,
                BetDirection::PercentageChangeBps(percent) => (percent > 0 && price_change > 0) || (
                percent < 0 && price_change < 0),
            },
        )
    }
}

/// Decides a bet on a price that moved by `price_change`.
pub fn is_bet_winner(bet_direction: BetDirection, price_change: i64) -> (r: Option<bool>)
    ensures
        r == spec_is_bet_winner(bet_direction, price_change as int),
{
    if price_change == 0 {
        return None;
    }
    match bet_direction {
        BetDirection::Up => Some(price_change > 0),
        BetDirection::Down => Some(price_change < 0),
        BetDirection::PercentageChangeBps(percent) => Some(
            (percent > 0 && price_change > 0) || (percent < 0 && price_change < 0),
        ),
    }
}

} // verus!
