//! Settling a batch of bets of a single-asset round.

use vstd::prelude::*;
use crate::address::Address;
use crate::constants::{BetDirection, BetStatus, ContractStatus, MarketType, RoundStatus, MAX_REMAINING_ACCOUNTS};
use crate::error::GoldRushError;
use crate::settlement::{sum_won_weight, with_status, won_weight, Settlement, SettlementReceipt};
use crate::state::bet::Bet;
use crate::state::config::Config;
use crate::state::oracle::{OraclePrice, PriceUpdate};
use crate::state::record::{bet_faults, check_bet_records, decoded_bets, first_fault, RecordHandle};
use crate::state::round::Round;
use crate::utils::bet::{is_bet_winner, spec_is_bet_winner};
use crate::utils::price::{normalize_price_to_u64, spec_normalize_price};

verus! {

/// What a keeper hands in to settle a batch of a single-asset round.
#[derive(Debug)]
pub struct SettleSingleRound {
    pub signer: Address,
    pub config: Config,
    pub round: Round,
    /// Address of the round record.
    pub round_key: Address,
    /// The oracle's reading of the configured feed.
    pub price_update: PriceUpdate,
    pub treasury: Address,
    /// The engine's own address, which owns every record.
    pub program_id: Address,
    /// The bets of this batch.
    pub remaining_accounts: Vec<RecordHandle<Bet>>,
    /// The current time.
    pub now: i64,
}

/// The price a round is settled at: the one it already holds, else the
/// oracle's, normalized, which must be positive.
pub open spec fn spec_final_price(round: Round, price: Option<OraclePrice>) -> Result<u64, GoldRushError> {
    match round.final_price {
        Some(final_price) => Ok(final_price),
        None => match price {
            None => Err(GoldRushError::PythError),
            Some(quote) => match spec_normalize_price(quote.price, quote.exponent) {
                Err(e) => Err(e),
                Ok(final_price) => if final_price > 0 {
                    Ok(final_price)
                } else {
                    Err(GoldRushError::InvalidAssetPrice)
                },
            },
        },
    }
}

/// Determines the price a round is settled at.
pub fn resolve_final_price(round: &Round, price: &Option<OraclePrice>) -> (r: Result<u64, GoldRushError>)
    ensures
        r == spec_final_price(*round, *price),
{
    match round.final_price {
        Some(final_price) => Ok(final_price),
        None => match price {
            None => Err(GoldRushError::PythError),
            Some(quote) => {
                let final_price = normalize_price_to_u64(quote.price, quote.exponent)?;
                if final_price > 0 {
                    Ok(final_price)
                } else {
                    Err(GoldRushError::InvalidAssetPrice)
                }
            },
        },
    }
}

/// The move of the price over the round, `final - start`, or `Overflow`
/// when it does not fit in 64 signed bits.
pub open spec fn spec_price_change(final_price: u64, start_price: u64) -> Result<i64, GoldRushError> {
    let change = final_price - start_price;
    if i64::MIN <= change <= i64::MAX {
        Ok(change as i64)
    } else {
        Err(GoldRushError::Overflow)
    }
}

/// Computes the move of the price over the round.
pub fn price_change(final_price: u64, start_price: u64) -> (r: Result<i64, GoldRushError>)
    ensures
        r == spec_price_change(final_price, start_price),
{
    let change: i128 = final_price as i128 - start_price as i128;
    if change < i64::MIN as i128 || change > i64::MAX as i128 {
        Err(GoldRushError::Overflow)
    } else {
        Ok(change as i64)
    }
}

/// The outcome of a bet of a single-asset round: a draw when the price did
/// not move, else won or lost by the sign of the move.
pub open spec fn spec_single_asset_status(direction: BetDirection, price_change: int) -> BetStatus {
    match spec_is_bet_winner(direction, price_change) {
        None => BetStatus::Draw,
        Some(true) => BetStatus::Won,
        Some(false) => BetStatus::Lost,
    }
}

/// Decides a bet of a single-asset round.
pub fn single_asset_status(direction: BetDirection, price_change: i64) -> (r: BetStatus)
    ensures
        r == spec_single_asset_status(direction, price_change as int),
{
    match is_bet_winner(direction, price_change) {
        None => BetStatus::Draw,
        Some(true) => BetStatus::Won,
        Some(false) => BetStatus::Lost,
    }
}

/// A batch of bets, each with its outcome under the given move of the price.
pub open spec fn settled_single(bets: Seq<Bet>, price_change: int) -> Seq<Bet> {
    Seq::new(
        bets.len(),
        |i: int| with_status(bets[i], spec_single_asset_status(bets[i].direction, price_change)),
    )
}

/// Writes into each bet of a batch its outcome under the given move of the
/// price.
pub fn settle_single_bets(bets: &Vec<Bet>, price_change: i64) -> (settled: Vec<Bet>)
    ensures
        settled@ == settled_single(bets@, price_change as int),
{
    let mut settled: Vec<Bet> = Vec::new();
    let mut i: usize = 0;
    while i < bets.len()
        invariant
            i <= bets@.len(),
            settled@.len() == i,
            forall|j: int|
                0 <= j < i ==> settled@[j] == with_status(
                    bets@[j],
                    spec_single_asset_status(bets@[j].direction, price_change as int),
                ),
        decreases bets@.len() - i,
    {
        let mut bet = bets[i];
        bet.status = single_asset_status(bet.direction, price_change);
        settled.push(bet);
        i += 1;
    }
    settled
}

impl SettleSingleRound {
    /// Who may settle which round when: the first rule broken decides the
    /// error.
    pub open spec fn spec_validate(&self) -> Result<(), GoldRushError> {
        if self.config.status != ContractStatus::Active {
            Err(GoldRushError::ProgramPaused)
        } else if !self.config.keeper_authorities@.contains(self.signer) {
            Err(GoldRushError::UnauthorizedKeeper)
        } else if self.treasury != self.config.treasury {
            Err(GoldRushError::InvalidTreasuryAuthority)
        } else if self.round.market_type != MarketType::SingleAsset {
            Err(GoldRushError::InvalidRoundMarketType)
        } else if self.round.status != RoundStatus::Active && self.round.status
            != RoundStatus::PendingSettlement {
            Err(GoldRushError::InvalidRoundStatus)
        } else if self.now < self.round.end_time {
            Err(GoldRushError::RoundNotReadyForSettlement)
        } else if self.round.start_price is None {
            Err(GoldRushError::InvalidAssetPrice)
        } else {
            Ok(())
        }
    }

    /// Checks that the signer may settle this round now.
    pub fn validate(&self) -> (r: Result<(), GoldRushError>)
        ensures
            r == self.spec_validate(),
    {
        if self.config.status != ContractStatus::Active {
            return Err(GoldRushError::ProgramPaused);
        }
        if !self.config.is_keeper(&self.signer) {
            return Err(GoldRushError::UnauthorizedKeeper);
        }
        if self.treasury != self.config.treasury {
            return Err(GoldRushError::InvalidTreasuryAuthority);
        }
        if self.round.market_type != MarketType::SingleAsset {
            return Err(GoldRushError::InvalidRoundMarketType);
        }
        if self.round.status != RoundStatus::Active && self.round.status != RoundStatus::PendingSettlement {
            return Err(GoldRushError::InvalidRoundStatus);
        }
        if self.now < self.round.end_time {
            return Err(GoldRushError::RoundNotReadyForSettlement);
        }
        if self.round.start_price.is_none() {
            return Err(GoldRushError::InvalidAssetPrice);
        }
        Ok(())
    }

    /// What settling the batch comes to. A round without bets ends at once.
    /// Otherwise the first batch locks the price, the fee and the reward
    /// pool; every handle of the batch must be a genuine bet of the round;
    /// each bet gets its outcome; and the round's counters advance by the
    /// batch.
    pub open spec fn spec_handler(&self) -> Result<Settlement, GoldRushError> {
        if self.spec_validate() is Err {
            Err(self.spec_validate()->Err_0)
        } else if self.remaining_accounts@.len() > MAX_REMAINING_ACCOUNTS {
            Err(GoldRushError::InvalidRemainingAccountsLength)
        } else {
            match spec_final_price(self.round, self.price_update.price) {
                Err(e) => Err(e),
                Ok(final_price) => if self.round.total_bets == 0 {
                    Ok(
                        Settlement {
                            round: self.round.ended_empty(Some(final_price), self.now),
                            settled: Seq::empty(),
                            fee_transfer: 0,
                        },
                    )
                } else {
                    match spec_price_change(final_price, self.round.start_price->0) {
                        Err(e) => Err(e),
                        Ok(change) => match self.round.spec_fee_split(
                            self.config.fee_single_asset_bps,
                            change == 0,
                        ) {
                            Err(e) => Err(e),
                            Ok((fee, reward)) => match first_fault(
                                bet_faults(self.remaining_accounts@, self.round_key, self.program_id),
                            ) {
                                Some(e) => Err(e),
                                None => {
                                    let settled = settled_single(
                                        decoded_bets(self.remaining_accounts@),
                                        change as int,
                                    );
                                    if self.round.winners_weight + won_weight(settled) > u64::MAX
                                        || self.round.settled_bets + settled.len() > u64::MAX {
                                        Err(GoldRushError::Overflow)
                                    } else {
                                        Ok(
                                            Settlement {
                                                round: self.round.after_batch(
                                                    fee,
                                                    reward,
                                                    Some(final_price),
                                                    won_weight(settled) as u64,
                                                    settled.len() as u64,
                                                    self.now,
                                                ),
                                                settled,
                                                fee_transfer: if self.round.fee_locked {
                                                    0
                                                } else {
                                                    fee
                                                },
                                            },
                                        )
                                    }
                                },
                            },
                        },
                    }
                },
            }
        }
    }
}

/// Settlement is not run again on a round that has ended, nor on one that is
/// being cancelled or has not started.
pub proof fn lemma_closed_round_is_refused(ctx: SettleSingleRound)
    requires
        ctx.round.status != RoundStatus::Active,
        ctx.round.status != RoundStatus::PendingSettlement,
    ensures
        ctx.spec_validate() is Err,
        ctx.spec_handler() is Err,
{
}

/// Settles a batch of bets of a single-asset round. On failure nothing has
/// changed.
pub fn handler(ctx: &mut SettleSingleRound) -> (r: Result<SettlementReceipt, GoldRushError>)
    ensures
        match r {
            Ok(receipt) => {
                &&& old(ctx).spec_handler() matches Ok(settlement)
                &&& receipt.settled@ == settlement.settled
                &&& receipt.fee_transfer == settlement.fee_transfer
                &&& *final(ctx) == SettleSingleRound { round: settlement.round, ..*old(ctx) }
            },
            Err(e) => old(ctx).spec_handler() == Err::<Settlement, GoldRushError>(e) && *final(ctx) == *old(
                ctx,
            ),
        },
        r is Ok && old(ctx).round.wf() ==> final(ctx).round.wf(),
        r is Ok && old(ctx).round.total_bets > 0 && (old(ctx).round.wf() || !old(ctx).round.fee_locked)
            ==> final(ctx).round.total_fee_collected + final(ctx).round.total_reward_pool
            == final(ctx).round.total_pool,
{
    ctx.validate()?;
    if ctx.remaining_accounts.len() > MAX_REMAINING_ACCOUNTS {
        return Err(GoldRushError::InvalidRemainingAccountsLength);
    }
    let final_price = resolve_final_price(&ctx.round, &ctx.price_update.price)?;
    if ctx.round.total_bets == 0 {
        ctx.round.end_empty(Some(final_price), ctx.now);
        return Ok(SettlementReceipt { fee_transfer: 0, settled: Vec::new() });
    }
    let start_price = match ctx.round.start_price {
        Some(p) => p,
        None => {
            return Err(GoldRushError::InvalidAssetPrice);
        },
    };
    let change = price_change(final_price, start_price)?;
    let (fee, reward) = ctx.round.fee_split(ctx.config.fee_single_asset_bps, change == 0)?;
    let bets = check_bet_records(&ctx.remaining_accounts, &ctx.round_key, &ctx.program_id)?;
    let settled = settle_single_bets(&bets, change);
    let batch_weight = match sum_won_weight(&settled) {
        Ok(w) => w,
        Err(e) => {
            return Err(e);
        },
    };
    let fee_transfer = if ctx.round.fee_locked {
        0
    } else {
        fee
    };
    let ghost before = ctx.round;
    let now = ctx.now;
    ctx.round.record_batch(fee, reward, Some(final_price), batch_weight, settled.len() as u64, now)?;
    proof {
        if before.wf() {
            before.lemma_after_batch_wf(
                fee,
                reward,
                Some(final_price),
                batch_weight,
                settled.len() as u64,
                now,
            );
        }
    }
    Ok(SettlementReceipt { fee_transfer, settled })
}

} // verus!
