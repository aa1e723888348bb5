//! Paying out a bet of an ended round.

use vstd::prelude::*;
use crate::address::Address;
use crate::constants::{BetStatus, ContractStatus, RoundStatus};
use crate::error::GoldRushError;
use crate::state::bet::Bet;
use crate::state::config::Config;
use crate::state::round::Round;

verus! {

/// What a bettor hands in to claim the payout of a bet.
#[derive(Debug)]
pub struct ClaimReward {
    pub signer: Address,
    pub config: Config,
    pub round: Round,
    pub bet: Bet,
    /// The token the payout is made in.
    pub mint: Address,
    /// The token the vault holds.
    pub round_vault_mint: Address,
    /// The token the bettor's account holds.
    pub bettor_token_account_mint: Address,
}

/// The share of the reward pool a winning weight earns:
/// `weight * reward_pool / winners_weight`, rounded down.
pub open spec fn spec_share(weight: u64, total_reward_pool: u64, winners_weight: u64) -> int {
    (weight * total_reward_pool) / (winners_weight as int)
}

/// What a bet pays out: its share of the reward pool if it won, its stake if
/// the round was a draw for it, nothing while it is pending or if it lost.
pub open spec fn spec_reward(bet: Bet, round: Round) -> Result<u64, GoldRushError> {
    match bet.status {
        BetStatus::Won => if round.winners_weight == 0 {
            Err(GoldRushError::RewardCalculationError)
        } else if spec_share(bet.weight, round.total_reward_pool, round.winners_weight) > u64::MAX {
            Err(GoldRushError::Overflow)
        } else {
            Ok(spec_share(bet.weight, round.total_reward_pool, round.winners_weight) as u64)
        },
        BetStatus::Draw => Ok(bet.amount),
        BetStatus::Pending => Err(GoldRushError::ClaimPendingBet),
        BetStatus::Lost => Err(GoldRushError::ClaimLosingBet),
    }
}

/// Computes what a bet pays out.
pub fn calculate_reward(bet: &Bet, round: &Round) -> (r: Result<u64, GoldRushError>)
    ensures
        r == spec_reward(*bet, *round),
{
    match bet.status {
        BetStatus::Won => {
            if round.winners_weight == 0 {
                return Err(GoldRushError::RewardCalculationError);
            }
            assert(bet.weight * round.total_reward_pool <= 0xffff_ffff_ffff_ffff * 0xffff_ffff_ffff_ffff)
                by (nonlinear_arith)
                requires
                    bet.weight <= 0xffff_ffff_ffff_ffff,
                    round.total_reward_pool <= 0xffff_ffff_ffff_ffff,
            ;
            let share: u128 = ((bet.weight as u128) * (round.total_reward_pool as u128)) / (
            round.winners_weight as u128);
            if share > u64::MAX as u128 {
                Err(GoldRushError::Overflow)
            } else {
                Ok(share as u64)
            }
        },
        BetStatus::Draw => Ok(bet.amount),
        BetStatus::Pending => Err(GoldRushError::ClaimPendingBet),
        BetStatus::Lost => Err(GoldRushError::ClaimLosingBet),
    }
}

impl ClaimReward {
    /// Who may claim which bet when: the first rule broken decides the
    /// error. A bet is paid out once: a claimed bet is refused.
    pub open spec fn spec_validate(&self) -> Result<(), GoldRushError> {
        if self.config.status != ContractStatus::Active && self.config.status
            != ContractStatus::EmergencyPaused {
            Err(GoldRushError::ProgramPaused)
        } else if self.signer != self.bet.bettor {
            Err(GoldRushError::Unauthorized)
        } else if self.round.status != RoundStatus::Ended {
            Err(GoldRushError::RoundNotEnded)
        } else if self.bet.status != BetStatus::Won && self.bet.status != BetStatus::Draw {
            Err(GoldRushError::BetNotWonOrDraw)
        } else if self.bet.claimed {
            Err(GoldRushError::AlreadyClaimed)
        } else if self.round_vault_mint != self.mint {
            Err(GoldRushError::InvalidMint)
        } else if self.bettor_token_account_mint != self.mint {
            Err(GoldRushError::InvalidMint)
        } else if self.bet.status == BetStatus::Won && self.round.winners_weight == 0 {
            Err(GoldRushError::RewardCalculationError)
        } else {
            Ok(())
        }
    }

    /// Checks that the signer may claim this bet now.
    pub fn validate(&self) -> (r: Result<(), GoldRushError>)
        ensures
            r == self.spec_validate(),
    {
        if self.config.status != ContractStatus::Active && self.config.status
            != ContractStatus::EmergencyPaused {
            return Err(GoldRushError::ProgramPaused);
        }
        if self.signer != self.bet.bettor {
            return Err(GoldRushError::Unauthorized);
        }
        if self.round.status != RoundStatus::Ended {
            return Err(GoldRushError::RoundNotEnded);
        }
        if self.bet.status != BetStatus::Won && self.bet.status != BetStatus::Draw {
            return Err(GoldRushError::BetNotWonOrDraw);
        }
        if self.bet.claimed {
            return Err(GoldRushError::AlreadyClaimed);
        }
        if self.round_vault_mint != self.mint {
            return Err(GoldRushError::InvalidMint);
        }
        if self.bettor_token_account_mint != self.mint {
            return Err(GoldRushError::InvalidMint);
        }
        if self.bet.status == BetStatus::Won && self.round.winners_weight == 0 {
            return Err(GoldRushError::RewardCalculationError);
        }
        Ok(())
    }

    /// The amount that is paid out, or why none is.
    pub open spec fn spec_handler(&self) -> Result<u64, GoldRushError> {
        if self.spec_validate() is Err {
            Err(self.spec_validate()->Err_0)
        } else {
            spec_reward(self.bet, self.round)
        }
    }
}

/// Pays out a bet: returns the amount to move from the vault to the bettor
/// and marks the bet claimed. On failure nothing has changed.
pub fn handler(ctx: &mut ClaimReward) -> (r: Result<u64, GoldRushError>)
    ensures
        r == old(ctx).spec_handler(),
        match r {
            Ok(_) => *final(ctx) == ClaimReward { bet: Bet { claimed: true, ..old(ctx).bet }, ..*old(ctx) },
            Err(_) => *final(ctx) == *old(ctx),
        },
{
    ctx.validate()?;
    let reward_amount = calculate_reward(&ctx.bet, &ctx.round)?;
    ctx.bet.claimed = true;
    Ok(reward_amount)
}

/// A winner is never paid more than the reward pool, as long as its weight
/// is part of the winners' weight.
pub proof fn lemma_share_within_pool(weight: u64, total_reward_pool: u64, winners_weight: u64)
    requires
        0 < winners_weight,
        weight <= winners_weight,
    ensures
        0 <= spec_share(weight, total_reward_pool, winners_weight) <= total_reward_pool,
{
    let w = weight as int;
    let p = total_reward_pool as int;
    let t = winners_weight as int;
    assert(0 <= w * p <= t * p) by (nonlinear_arith)
        requires
            0 <= w <= t,
            0 <= p,
    ;
    vstd::arithmetic::div_mod::lemma_div_is_ordered(0, w * p, t);
    vstd::arithmetic::div_mod::lemma_div_is_ordered(w * p, t * p, t);
    vstd::arithmetic::mul::lemma_mul_is_commutative(t, p);
    vstd::arithmetic::div_mod::lemma_div_multiples_vanish(p, t);
}

/// Sum of a list of weights.
pub open spec fn total_weight(weights: Seq<u64>) -> int
    decreases weights.len(),
{
    if weights.len() == 0 {
        0
    } else {
        total_weight(weights.drop_last()) + weights.last()
    }
}

/// Sum of the shares of the reward pool a list of winning weights earns.
pub open spec fn total_share(weights: Seq<u64>, total_reward_pool: u64, winners_weight: u64) -> int
    decreases weights.len(),
{
    if weights.len() == 0 {
        0
    } else {
        total_share(weights.drop_last(), total_reward_pool, winners_weight) + spec_share(
            weights.last(),
            total_reward_pool,
            winners_weight,
        )
    }
}

/// Rounding each share down never gives out more than the whole is worth.
proof fn lemma_shares_within_whole(weights: Seq<u64>, total_reward_pool: u64, winners_weight: u64)
    requires
        0 < winners_weight,
    ensures
        0 <= total_share(weights, total_reward_pool, winners_weight) <= (total_weight(weights)
            * total_reward_pool) / (winners_weight as int),
        0 <= total_weight(weights),
    decreases weights.len(),
{
    let p = total_reward_pool as int;
    let t = winners_weight as int;
    if weights.len() == 0 {
    } else {
        let before = weights.drop_last();
        lemma_shares_within_whole(before, total_reward_pool, winners_weight);
        let a = total_weight(before) * p;
        let b = weights.last() * p;
        assert(a >= 0 && b >= 0 && a + b == (total_weight(before) + weights.last()) * p)
            by (nonlinear_arith)
            requires
                a == total_weight(before) * p,
                b == weights.last() * p,
                total_weight(before) >= 0,
                p >= 0,
        ;
        assert(a / t + b / t <= (a + b) / t && b / t >= 0) by (nonlinear_arith)
            requires
                t > 0,
                a >= 0,
                b >= 0,
        ;
    }
}

/// The winners of a round are never paid more than the reward pool between
/// them: whatever their weights, as long as these add up to no more than the
/// winners' weight of the round, their shares add up to no more than the
/// pool.
pub proof fn lemma_payouts_within_pool(weights: Seq<u64>, total_reward_pool: u64, winners_weight: u64)
    requires
        0 < winners_weight,
        total_weight(weights) <= winners_weight,
    ensures
        0 <= total_share(weights, total_reward_pool, winners_weight) <= total_reward_pool,
{
    let p = total_reward_pool as int;
    let t = winners_weight as int;
    lemma_shares_within_whole(weights, total_reward_pool, winners_weight);
    let w = total_weight(weights);
    assert((w * p) / t <= p) by (nonlinear_arith)
        requires
            0 <= w <= t,
            0 < t,
            0 <= p,
    ;
}

} // verus!
