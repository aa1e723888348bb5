//! Placing a bet on an active round.

use vstd::prelude::*;
use crate::address::Address;
use crate::constants::{BetDirection, BetStatus, ContractStatus, MarketType, RoundStatus};
use crate::error::GoldRushError;
use crate::state::bet::Bet;
use crate::state::config::Config;
use crate::state::group_asset::GroupAsset;
use crate::state::round::Round;
use crate::utils::direction::{calculate_direction_factor, direction_factor_overflows, spec_direction_factor};
use crate::utils::time::{calculate_time_factor, spec_time_factor, time_factor_overflows};
use crate::utils::weight::{calculate_bet_weight, spec_bet_weight};

verus! {

/// A group, with the address of its record.
#[derive(Clone, Copy, Debug)]
pub struct BackedGroup {
    pub key: Address,
    pub group: GroupAsset,
}

/// What a bettor hands in to place a bet.
#[derive(Debug)]
pub struct PlaceBet {
    pub signer: Address,
    pub config: Config,
    pub round: Round,
    /// Address of the round record.
    pub round_key: Address,
    /// The group the bet backs, with the address of its record; needed in a
    /// group-battle round.
    pub group_asset: Option<BackedGroup>,
    /// Bump seed of the new bet record.
    pub bump: u8,
    /// The current time.
    pub now: i64,
}

/// The weight of a stake placed at `now` on a round of the given schedule,
/// or why it has none: the schedule or the factors leave the range of the
/// machine integers, or the round has no duration.
pub open spec fn spec_weigh(
    market_type: MarketType,
    amount: u64,
    direction: BetDirection,
    start_time: i64,
    end_time: i64,
    now: i64,
    config: Config,
) -> Result<u64, GoldRushError> {
    let duration = end_time - start_time;
    let elapsed = now - start_time;
    let default_bps = config.default_direction_factor_bps as int;
    let min_bps = config.min_time_factor_bps as int;
    let max_bps = config.max_time_factor_bps as int;
    let direction_factor = spec_direction_factor(market_type, direction, default_bps);
    let time_factor = spec_time_factor(market_type, elapsed, min_bps, max_bps, duration);
    if !(i64::MIN <= duration <= i64::MAX) {
        Err(GoldRushError::Underflow)
    } else if !(i64::MIN <= elapsed <= i64::MAX) {
        Err(GoldRushError::Underflow)
    } else if direction_factor_overflows(market_type, direction, default_bps) {
        Err(GoldRushError::Overflow)
    } else if duration <= 0 {
        Err(GoldRushError::InvalidDuration)
    } else if time_factor_overflows(market_type, elapsed, max_bps, duration) {
        Err(GoldRushError::Overflow)
    } else if spec_bet_weight(amount as int, direction_factor, time_factor) > u64::MAX {
        Err(GoldRushError::Overflow)
    } else {
        Ok(spec_bet_weight(amount as int, direction_factor, time_factor) as u64)
    }
}

/// Weighs a stake placed at `now` on a round of the given schedule.
pub fn weigh(
    market_type: &MarketType,
    amount: u64,
    direction: &BetDirection,
    start_time: i64,
    end_time: i64,
    now: i64,
    config: &Config,
) -> (r: Result<u64, GoldRushError>)
    ensures
        r == spec_weigh(*market_type, amount, *direction, start_time, end_time, now, *config),
{
    let round_duration = match end_time.checked_sub(start_time) {
        Some(d) => d,
        None => {
            return Err(GoldRushError::Underflow);
        },
    };
    let time_elapsed = match now.checked_sub(start_time) {
        Some(e) => e,
        None => {
            return Err(GoldRushError::Underflow);
        },
    };
    let direction_factor = calculate_direction_factor(
        market_type,
        direction,
        config.default_direction_factor_bps as u64,
    )?;
    let time_factor = calculate_time_factor(
        market_type,
        time_elapsed,
        config.min_time_factor_bps as u64,
        config.max_time_factor_bps as u64,
        round_duration,
    )?;
    calculate_bet_weight(amount, direction_factor, time_factor)
}

/// What a placed bet leaves for the caller to carry out and store.
#[derive(Clone, Copy, Debug)]
pub struct PlaceBetReceipt {
    /// The new bet.
    pub bet: Bet,
    /// The stake to move from the bettor to the vault.
    pub transfer: u64,
}

impl PlaceBet {
    /// Who may bet how much on which round when: the first rule broken
    /// decides the error.
    pub open spec fn spec_validate(&self, amount: u64) -> Result<(), GoldRushError> {
        if self.config.status != ContractStatus::Active {
            Err(GoldRushError::ProgramPaused)
        } else if self.round.status != RoundStatus::Active {
            Err(GoldRushError::RoundNotActive)
        } else if self.now >= self.round.bet_cutoff_time {
            Err(GoldRushError::RoundEnded)
        } else if self.round.market_type == MarketType::GroupBattle && (self.group_asset is None
            || self.group_asset->0.group.round != self.round_key) {
            Err(GoldRushError::InvalidAssetAccount)
        } else if amount < self.config.min_bet_amount {
            Err(GoldRushError::BetBelowMinimum)
        } else {
            Ok(())
        }
    }

    /// Checks that the signer may place this bet now.
    pub fn validate(&self, amount: u64) -> (r: Result<(), GoldRushError>)
        ensures
            r == self.spec_validate(amount),
    {
        if self.config.status != ContractStatus::Active {
            return Err(GoldRushError::ProgramPaused);
        }
        if self.round.status != RoundStatus::Active {
            return Err(GoldRushError::RoundNotActive);
        }
        if self.now >= self.round.bet_cutoff_time {
            return Err(GoldRushError::RoundEnded);
        }
        if self.round.market_type == MarketType::GroupBattle {
            match &self.group_asset {
                None => {
                    return Err(GoldRushError::InvalidAssetAccount);
                },
                Some(group) => {
                    if group.group.round != self.round_key {
                        return Err(GoldRushError::InvalidAssetAccount);
                    }
                },
            }
        }
        if amount < self.config.min_bet_amount {
            return Err(GoldRushError::BetBelowMinimum);
        }
        Ok(())
    }

    /// The group a bet of this round backs: the one handed in, in a group
    /// battle; none in a single-asset round.
    pub open spec fn backed_group(&self) -> Option<Address> {
        if self.round.market_type == MarketType::GroupBattle && self.group_asset is Some {
            Some(self.group_asset->0.key)
        } else {
            None
        }
    }

    /// The bet that is placed, or why none is: the rules refuse it, it has
    /// no weight, or a total of the round would leave the range of 64 bits.
    pub open spec fn spec_handler(&self, amount: u64, direction: BetDirection) -> Result<Bet, GoldRushError> {
        let weight = spec_weigh(
            self.round.market_type,
            amount,
            direction,
            self.round.start_time,
            self.round.end_time,
            self.now,
            self.config,
        );
        if self.spec_validate(amount) is Err {
            Err(self.spec_validate(amount)->Err_0)
        } else if weight is Err {
            Err(weight->Err_0)
        } else if self.round.total_pool + amount > u64::MAX {
            Err(GoldRushError::Overflow)
        } else if self.round.total_bets + 1 > u64::MAX {
            Err(GoldRushError::Overflow)
        } else {
            Ok(
                Bet {
                    id: (self.round.total_bets + 1) as u64,
                    round: self.round_key,
                    bettor: self.signer,
                    group: self.backed_group(),
                    amount,
                    direction,
                    claimed: false,
                    weight: weight->Ok_0,
                    status: BetStatus::Pending,
                    created_at: self.now,
                    bump: self.bump,
                },
            )
        }
    }
}

/// The round with a stake added.
pub open spec fn round_with_bet(round: Round, amount: u64) -> Round {
    Round {
        total_pool: (round.total_pool + amount) as u64,
        total_bets: (round.total_bets + 1) as u64,
        ..round
    }
}

/// Places a bet: the bet gets the next number of the round and its weight,
/// and the round's pool grows by the stake. On failure nothing has changed.
pub fn handler(ctx: &mut PlaceBet, amount: u64, direction: BetDirection) -> (r: Result<
    PlaceBetReceipt,
    GoldRushError,
>)
    ensures
        match r {
            Ok(receipt) => {
                &&& old(ctx).spec_handler(amount, direction) == Ok::<Bet, GoldRushError>(receipt.bet)
                &&& receipt.transfer == amount
                &&& *final(ctx) == PlaceBet { round: round_with_bet(old(ctx).round, amount), ..*old(ctx) }
            },
            Err(e) => old(ctx).spec_handler(amount, direction) == Err::<Bet, GoldRushError>(e) && *final(ctx)
                == *old(ctx),
        },
        r is Ok && old(ctx).round.wf() ==> final(ctx).round.wf(),
{
    ctx.validate(amount)?;
    let group = if ctx.round.market_type == MarketType::GroupBattle {
        match &ctx.group_asset {
            Some(group) => Some(group.key),
            None => None,
        }
    } else {
        None
    };
    let weight = weigh(
        &ctx.round.market_type,
        amount,
        &direction,
        ctx.round.start_time,
        ctx.round.end_time,
        ctx.now,
        &ctx.config,
    )?;
    let total_pool = match ctx.round.total_pool.checked_add(amount) {
        Some(p) => p,
        None => {
            return Err(GoldRushError::Overflow);
        },
    };
    let total_bets = match ctx.round.total_bets.checked_add(1) {
        Some(b) => b,
        None => {
            return Err(GoldRushError::Overflow);
        },
    };
    let bet = Bet {
        id: total_bets,
        round: ctx.round_key,
        bettor: ctx.signer,
        group,
        amount,
        direction,
        claimed: false,
        weight,
        status: BetStatus::Pending,
        created_at: ctx.now,
        bump: ctx.bump,
    };
    ctx.round.total_pool = total_pool;
    ctx.round.total_bets = total_bets;
    Ok(PlaceBetReceipt { bet, transfer: amount })
}

} // verus!
