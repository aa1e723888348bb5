//! Scheduling a new round.

use vstd::prelude::*;
use crate::address::Address;
use crate::constants::{ContractStatus, MarketType, RoundStatus};
use crate::error::GoldRushError;
use crate::state::config::Config;
use crate::state::round::Round;

verus! {

/// What the administrator hands in to schedule a round.
#[derive(Debug)]
pub struct CreateRound {
    pub signer: Address,
    pub config: Config,
    /// Address of the vault made for the round.
    pub vault: Address,
    /// Bump seed of the vault's address.
    pub vault_bump: u8,
    /// Bump seed of the round record.
    pub bump: u8,
    /// The current time.
    pub now: i64,
}

/// The instant betting closes: the cutoff window before the end, but not
/// before the start.
pub open spec fn spec_bet_cutoff(start_time: i64, end_time: i64, window: i64) -> int {
    if end_time - window < start_time {
        start_time as int
    } else {
        end_time - window
    }
}

/// A round as it is scheduled: numbered, timed, and empty.
pub open spec fn scheduled_round(
    id: u64,
    market_type: MarketType,
    start_time: i64,
    end_time: i64,
    bet_cutoff_time: i64,
    winner_group_ids: Vec<u64>,
    ctx: CreateRound,
) -> Round {
    Round {
        id,
        start_time,
        end_time,
        bet_cutoff_time,
        vault: ctx.vault,
        vault_bump: ctx.vault_bump,
        market_type,
        status: RoundStatus::Scheduled,
        total_pool: 0,
        total_bets: 0,
        fee_locked: false,
        total_fee_collected: 0,
        total_reward_pool: 0,
        winners_weight: 0,
        settled_bets: 0,
        cancelled_bets: 0,
        start_price: None,
        final_price: None,
        total_groups: 0,
        captured_start_groups: 0,
        captured_end_groups: 0,
        winner_group_ids,
        created_at: ctx.now,
        settled_at: None,
        bump: ctx.bump,
    }
}

impl CreateRound {
    /// Who may schedule which round: the first rule broken decides the
    /// error. A round starts in the future and ends after it started.
    pub open spec fn spec_validate(&self, start_time: i64, end_time: i64) -> Result<(), GoldRushError> {
        if self.config.status != ContractStatus::Active {
            Err(GoldRushError::ProgramPaused)
        } else if self.signer != self.config.admin {
            Err(GoldRushError::Unauthorized)
        } else if start_time >= end_time {
            Err(GoldRushError::InvalidTimestamps)
        } else if start_time <= self.now {
            Err(GoldRushError::InvalidTimestamps)
        } else {
            Ok(())
        }
    }

    /// Checks that the signer may schedule this round.
    pub fn validate(&self, start_time: i64, end_time: i64) -> (r: Result<(), GoldRushError>)
        ensures
            r == self.spec_validate(start_time, end_time),
    {
        if self.config.status != ContractStatus::Active {
            return Err(GoldRushError::ProgramPaused);
        }
        if !self.config.is_admin(&self.signer) {
            return Err(GoldRushError::Unauthorized);
        }
        if start_time >= end_time {
            return Err(GoldRushError::InvalidTimestamps);
        }
        if start_time <= self.now {
            return Err(GoldRushError::InvalidTimestamps);
        }
        Ok(())
    }

    /// Why no round is scheduled, if none is: the rules refuse it, the
    /// round counter is exhausted, or the cutoff leaves the range of 64
    /// bits.
    pub open spec fn spec_refusal(&self, start_time: i64, end_time: i64) -> Option<GoldRushError> {
        if self.spec_validate(start_time, end_time) is Err {
            Some(self.spec_validate(start_time, end_time)->Err_0)
        } else if self.config.current_round_counter + 1 > u64::MAX {
            Some(GoldRushError::Overflow)
        } else if !(i64::MIN <= end_time - self.config.bet_cutoff_window_secs <= i64::MAX) {
            Some(GoldRushError::Underflow)
        } else {
            None
        }
    }
}

/// Schedules a round: it gets the next number, and the configuration counts
/// it. On failure nothing has changed.
pub fn handler(ctx: &mut CreateRound, market_type: MarketType, start_time: i64, end_time: i64) -> (r: Result<
    Round,
    GoldRushError,
>)
    ensures
        match r {
            Ok(round) => {
                &&& old(ctx).spec_refusal(start_time, end_time) is None
                &&& round.id == old(ctx).config.current_round_counter + 1
                &&& round.bet_cutoff_time == spec_bet_cutoff(
                    start_time,
                    end_time,
                    old(ctx).config.bet_cutoff_window_secs,
                )
                &&& round.winner_group_ids@.len() == 0
                &&& round == scheduled_round(
                    round.id,
                    market_type,
                    start_time,
                    end_time,
                    round.bet_cutoff_time,
                    round.winner_group_ids,
                    *old(ctx),
                )
                &&& round.wf()
                &&& final(ctx).config == Config { current_round_counter: round.id, ..old(ctx).config }
                &&& *final(ctx) == CreateRound { config: final(ctx).config, ..*old(ctx) }
            },
            Err(e) => old(ctx).spec_refusal(start_time, end_time) == Some(e) && *final(ctx) == *old(ctx),
        },
{
    ctx.validate(start_time, end_time)?;
    let id = match ctx.config.current_round_counter.checked_add(1) {
        Some(id) => id,
        None => {
            return Err(GoldRushError::Overflow);
        },
    };
    let default_cutoff = match end_time.checked_sub(ctx.config.bet_cutoff_window_secs) {
        Some(c) => c,
        None => {
            return Err(GoldRushError::Underflow);
        },
    };
    let bet_cutoff_time = if default_cutoff < start_time {
        start_time
    } else {
        default_cutoff
    };
    let round = Round {
        id,
        start_time,
        end_time,
        bet_cutoff_time,
        vault: ctx.vault,
        vault_bump: ctx.vault_bump,
        market_type,
        status: RoundStatus::Scheduled,
        total_pool: 0,
        total_bets: 0,
        fee_locked: false,
        total_fee_collected: 0,
        total_reward_pool: 0,
        winners_weight: 0,
        settled_bets: 0,
        cancelled_bets: 0,
        start_price: None,
        final_price: None,
        total_groups: 0,
        captured_start_groups: 0,
        captured_end_groups: 0,
        winner_group_ids: Vec::new(),
        created_at: ctx.now,
        settled_at: None,
        bump: ctx.bump,
    };
    ctx.config.current_round_counter = id;
    Ok(round)
}

} // verus!
