//! Withdrawing a bet before the cutoff.

use vstd::prelude::*;
use crate::address::Address;
use crate::constants::{BetStatus, ContractStatus, RoundStatus};
use crate::error::GoldRushError;
use crate::state::bet::Bet;
use crate::state::config::Config;
use crate::state::round::Round;

verus! {

/// What a bettor hands in to withdraw a bet.
#[derive(Debug)]
pub struct WithdrawBet {
    pub signer: Address,
    pub config: Config,
    pub round: Round,
    /// Address of the round record.
    pub round_key: Address,
    pub bet: Bet,
    /// The current time.
    pub now: i64,
}

/// The round with a stake taken out.
pub open spec fn round_without_bet(round: Round, amount: u64) -> Round {
    Round {
        total_pool: (round.total_pool - amount) as u64,
        total_bets: (round.total_bets - 1) as u64,
        ..round
    }
}

impl WithdrawBet {
    /// Who may withdraw which bet when: the first rule broken decides the
    /// error.
    pub open spec fn spec_validate(&self) -> Result<(), GoldRushError> {
        if self.config.status != ContractStatus::Active {
            Err(GoldRushError::ProgramPaused)
        } else if self.round.status != RoundStatus::Active {
            Err(GoldRushError::RoundNotActive)
        } else if self.now >= self.round.bet_cutoff_time {
            Err(GoldRushError::RoundEnded)
        } else if self.bet.bettor != self.signer {
            Err(GoldRushError::Unauthorized)
        } else if self.bet.round != self.round_key {
            Err(GoldRushError::InvalidBetAccount)
        } else if self.bet.status != BetStatus::Pending {
            Err(GoldRushError::InvalidBetStatus)
        } else {
            Ok(())
        }
    }

    /// Checks that the signer may withdraw this bet now.
    pub fn validate(&self) -> (r: Result<(), GoldRushError>)
        ensures
            r == self.spec_validate(),
    {
        if self.config.status != ContractStatus::Active {
            return Err(GoldRushError::ProgramPaused);
        }
        if self.round.status != RoundStatus::Active {
            return Err(GoldRushError::RoundNotActive);
        }
        if self.now >= self.round.bet_cutoff_time {
            return Err(GoldRushError::RoundEnded);
        }
        if self.bet.bettor != self.signer {
            return Err(GoldRushError::Unauthorized);
        }
        if self.bet.round != self.round_key {
            return Err(GoldRushError::InvalidBetAccount);
        }
        if self.bet.status != BetStatus::Pending {
            return Err(GoldRushError::InvalidBetStatus);
        }
        Ok(())
    }

    /// The stake that is paid back, or why none is: the rules refuse the
    /// withdrawal, or the round holds less than the bet takes out.
    pub open spec fn spec_handler(&self) -> Result<u64, GoldRushError> {
        if self.spec_validate() is Err {
            Err(self.spec_validate()->Err_0)
        } else if self.round.total_pool < self.bet.amount {
            Err(GoldRushError::Underflow)
        } else if self.round.total_bets < 1 {
            Err(GoldRushError::Underflow)
        } else {
            Ok(self.bet.amount)
        }
    }
}

/// Withdraws a bet: the stake goes back to the bettor, the round's pool
/// shrinks by it, and the bet record is to be deleted. Returns the stake to
/// pay back. On failure nothing has changed.
pub fn handler(ctx: &mut WithdrawBet) -> (r: Result<u64, GoldRushError>)
    ensures
        match r {
            Ok(refund) => {
                &&& old(ctx).spec_handler() == Ok::<u64, GoldRushError>(refund)
                &&& refund == old(ctx).bet.amount
                &&& *final(ctx) == WithdrawBet {
                    round: round_without_bet(old(ctx).round, old(ctx).bet.amount),
                    ..*old(ctx)
                }
            },
            Err(e) => old(ctx).spec_handler() == Err::<u64, GoldRushError>(e) && *final(ctx) == *old(ctx),
        },
        r is Ok && old(ctx).round.wf() ==> final(ctx).round.wf(),
{
    ctx.validate()?;
    let amount = ctx.bet.amount;
    let total_pool = match ctx.round.total_pool.checked_sub(amount) {
        Some(p) => p,
        None => {
            return Err(GoldRushError::Underflow);
        },
    };
    let total_bets = match ctx.round.total_bets.checked_sub(1) {
        Some(b) => b,
        None => {
            return Err(GoldRushError::Underflow);
        },
    };
    ctx.round.total_pool = total_pool;
    ctx.round.total_bets = total_bets;
    Ok(amount)
}

} // verus!
