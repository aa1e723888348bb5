//! The steps both kinds of settlement share: splitting the pool into fee and
//! reward, adding up the weight of the winners, and advancing the round.

use vstd::prelude::*;
use vstd::arithmetic::div_mod::lemma_div_is_ordered;
use vstd::arithmetic::mul::{lemma_mul_inequality, lemma_mul_nonnegative};
use crate::constants::{BetStatus, RoundStatus, HUNDRED_PERCENT_BPS};
use crate::error::GoldRushError;
use crate::state::bet::Bet;
use crate::state::round::Round;

verus! {

/// What a settled batch leaves for the caller to carry out and write back.
#[derive(Debug)]
pub struct SettlementReceipt {
    /// Amount to move from the vault to the treasury; zero unless this batch
    /// locked a fee.
    pub fee_transfer: u64,
    /// The bets of the batch with their outcome, in the order given.
    pub settled: Vec<Bet>,
}

/// The result of settling a batch, as a value of the model.
pub struct Settlement {
    pub round: Round,
    pub settled: Seq<Bet>,
    pub fee_transfer: u64,
}

/// The fee a pool owes: `total_pool * fee_bps / 10000`, rounded down, and
/// nothing in a full draw, in which nobody lost.
pub open spec fn spec_fee(total_pool: int, fee_bps: int, full_draw: bool) -> int {
    if full_draw {
        0
    } else {
        (total_pool * fee_bps) / (HUNDRED_PERCENT_BPS as int)
    }
}

/// The fee and the reward pool a pool splits into, or `Underflow` when the
/// fee would exceed the pool, which takes a fee rate above one hundred
/// percent.
pub open spec fn spec_split_pool(total_pool: u64, fee_bps: u16, full_draw: bool) -> Result<
    (u64, u64),
    GoldRushError,
> {
    let fee = spec_fee(total_pool as int, fee_bps as int, full_draw);
    if fee > total_pool {
        Err(GoldRushError::Underflow)
    } else {
        Ok((fee as u64, (total_pool - fee) as u64))
    }
}

/// Splits a pool into the fee and the reward pool.
pub fn split_pool(total_pool: u64, fee_bps: u16, full_draw: bool) -> (r: Result<(u64, u64), GoldRushError>)
    ensures
        r == spec_split_pool(total_pool, fee_bps, full_draw),
        r matches Ok((fee, reward)) ==> fee + reward == total_pool,
        fee_bps <= HUNDRED_PERCENT_BPS ==> r is Ok,
{
    if full_draw {
        return Ok((0, total_pool));
    }
    proof {
        lemma_mul_nonnegative(total_pool as int, fee_bps as int);
        lemma_div_is_ordered(0, total_pool * fee_bps, 10_000);
    }
    assert(total_pool * fee_bps <= 0xffff_ffff_ffff_ffff * 0xffff) by (nonlinear_arith)
        requires
            total_pool <= 0xffff_ffff_ffff_ffff,
            fee_bps <= 0xffff,
    ;
    let fee: u128 = ((total_pool as u128) * (fee_bps as u128)) / (HUNDRED_PERCENT_BPS as u128);
    proof {
        if fee_bps <= HUNDRED_PERCENT_BPS {
            lemma_mul_inequality(fee_bps as int, 10_000, total_pool as int);
            assert(total_pool * fee_bps <= total_pool * 10_000) by (nonlinear_arith)
                requires
                    fee_bps * total_pool <= 10_000 * total_pool,
            ;
            lemma_div_is_ordered(total_pool * fee_bps, total_pool * 10_000, 10_000);
        }
    }
    if fee > total_pool as u128 {
        Err(GoldRushError::Underflow)
    } else {
        Ok((fee as u64, total_pool - fee as u64))
    }
}

/// The bet with its outcome written in.
pub open spec fn with_status(bet: Bet, status: BetStatus) -> Bet {
    Bet { status, ..bet }
}

/// Sum of the weights of the bets of a batch that won.
pub open spec fn won_weight(bets: Seq<Bet>) -> int
    decreases bets.len(),
{
    if bets.len() == 0 {
        0
    } else {
        won_weight(bets.drop_last()) + if bets.last().status == BetStatus::Won {
            bets.last().weight as int
        } else {
            0
        }
    }
}

/// Sum of the stakes of a batch of bets.
pub open spec fn staked(bets: Seq<Bet>) -> int
    decreases bets.len(),
{
    if bets.len() == 0 {
        0
    } else {
        staked(bets.drop_last()) + bets.last().amount
    }
}

/// The weight of the winners never shrinks as a batch grows.
pub proof fn lemma_won_weight_grows(bets: Seq<Bet>, n: int)
    requires
        0 <= n <= bets.len(),
    ensures
        0 <= won_weight(bets.take(n)) <= won_weight(bets),
    decreases bets.len(),
{
    if n == bets.len() {
        assert(bets.take(n) =~= bets);
        if n > 0 {
            lemma_won_weight_grows(bets.drop_last(), n - 1);
        }
    } else {
        lemma_won_weight_grows(bets.drop_last(), n);
        assert(bets.drop_last().take(n) =~= bets.take(n));
    }
}

/// The weight of the winners of two batches is the sum of the weights of
/// the winners of each, so that it does not matter how the bets of a round
/// are spread over batches, nor in which order the batches come.
pub proof fn lemma_won_weight_adds(first: Seq<Bet>, second: Seq<Bet>)
    ensures
        won_weight(first + second) == won_weight(first) + won_weight(second),
        won_weight(first + second) == won_weight(second + first),
    decreases first.len() + second.len(),
{
    if first.len() > 0 && second.len() > 0 {
        lemma_won_weight_adds(first, second.drop_last());
        assert((first + second).drop_last() =~= first + second.drop_last());
        lemma_won_weight_adds(second, first.drop_last());
        assert((second + first).drop_last() =~= second + first.drop_last());
        lemma_won_weight_adds(first.drop_last(), second);
    }
}

/// The stakes of a batch never shrink as the batch grows.
pub proof fn lemma_staked_grows(bets: Seq<Bet>, n: int)
    requires
        0 <= n <= bets.len(),
    ensures
        0 <= staked(bets.take(n)) <= staked(bets),
    decreases bets.len(),
{
    if n == bets.len() {
        assert(bets.take(n) =~= bets);
        if n > 0 {
            lemma_staked_grows(bets.drop_last(), n - 1);
        }
    } else {
        lemma_staked_grows(bets.drop_last(), n);
        assert(bets.drop_last().take(n) =~= bets.take(n));
    }
}

/// Takes the stakes of a batch out of a pool. Fails with `Underflow`
/// exactly when the batch stakes more than the pool holds.
pub fn pool_without(total_pool: u64, bets: &Vec<Bet>) -> (r: Result<u64, GoldRushError>)
    ensures
        match r {
            Ok(rest) => rest == total_pool - staked(bets@),
            Err(e) => e == GoldRushError::Underflow && staked(bets@) > total_pool,
        },
{
    let mut rest: u64 = total_pool;
    let mut i: usize = 0;
    while i < bets.len()
        invariant
            i <= bets@.len(),
            rest == total_pool - staked(bets@.take(i as int)),
        decreases bets@.len() - i,
    {
        proof {
            assert(bets@.take(i + 1).drop_last() =~= bets@.take(i as int));
        }
        match rest.checked_sub(bets[i].amount) {
            Some(left) => {
                rest = left;
            },
            None => {
                proof {
                    lemma_staked_grows(bets@, i + 1);
                }
                return Err(GoldRushError::Underflow);
            },
        }
        i += 1;
    }
    proof {
        assert(bets@.take(i as int) =~= bets@);
    }
    Ok(rest)
}

/// Adds up the weight of the winners of a settled batch. Fails with
/// `Overflow` exactly when the sum does not fit in 64 bits.
pub fn sum_won_weight(bets: &Vec<Bet>) -> (r: Result<u64, GoldRushError>)
    ensures
        match r {
            Ok(total) => total == won_weight(bets@),
            Err(e) => e == GoldRushError::Overflow && won_weight(bets@) > u64::MAX,
        },
{
    let mut total: u64 = 0;
    let mut i: usize = 0;
    while i < bets.len()
        invariant
            i <= bets@.len(),
            total == won_weight(bets@.take(i as int)),
        decreases bets@.len() - i,
    {
        proof {
            assert(bets@.take(i + 1).drop_last() =~= bets@.take(i as int));
        }
        if bets[i].status == BetStatus::Won {
            match total.checked_add(bets[i].weight) {
                Some(t) => {
                    total = t;
                },
                None => {
                    proof {
                        lemma_won_weight_grows(bets@, i + 1);
                    }
                    return Err(GoldRushError::Overflow);
                },
            }
        }
        i += 1;
    }
    proof {
        assert(bets@.take(i as int) =~= bets@);
    }
    Ok(total)
}

impl Round {
    /// The fee and reward pool in force once a batch has been settled: the
    /// locked ones, or the ones the first batch locks.
    pub open spec fn locked_split(self, fee: u64, reward: u64) -> (u64, u64) {
        if self.fee_locked {
            (self.total_fee_collected, self.total_reward_pool)
        } else {
            (fee, reward)
        }
    }

    /// The fee and the reward pool a batch goes by: those already locked,
    /// else the split of the pool at the given rate.
    pub open spec fn spec_fee_split(self, fee_bps: u16, full_draw: bool) -> Result<(u64, u64), GoldRushError> {
        if self.fee_locked {
            Ok((self.total_fee_collected, self.total_reward_pool))
        } else {
            spec_split_pool(self.total_pool, fee_bps, full_draw)
        }
    }

    /// Looks up the locked fee and reward pool, or computes the ones to lock.
    pub fn fee_split(&self, fee_bps: u16, full_draw: bool) -> (r: Result<(u64, u64), GoldRushError>)
        ensures
            r == self.spec_fee_split(fee_bps, full_draw),
            r matches Ok((fee, reward)) ==> self.wf() || !self.fee_locked ==> fee + reward
                == self.total_pool,
            fee_bps <= HUNDRED_PERCENT_BPS ==> r is Ok,
    {
        if self.fee_locked {
            Ok((self.total_fee_collected, self.total_reward_pool))
        } else {
            split_pool(self.total_pool, fee_bps, full_draw)
        }
    }

    /// The round after a batch of `batch_len` bets has been settled, of
    /// which the winners weigh `batch_weight`. The fee and the reward pool
    /// are locked by the first batch; the counters only grow; and the round
    /// ends once every bet has been settled.
    pub open spec fn after_batch(
        self,
        fee: u64,
        reward: u64,
        final_price: Option<u64>,
        batch_weight: u64,
        batch_len: u64,
        now: i64,
    ) -> Round {
        let settled = (self.settled_bets + batch_len) as u64;
        let done = settled >= self.total_bets;
        Round {
            fee_locked: true,
            total_fee_collected: self.locked_split(fee, reward).0,
            total_reward_pool: self.locked_split(fee, reward).1,
            final_price,
            winners_weight: (self.winners_weight + batch_weight) as u64,
            settled_bets: settled,
            status: if done {
                RoundStatus::Ended
            } else if self.status == RoundStatus::Active {
                RoundStatus::PendingSettlement
            } else {
                self.status
            },
            settled_at: if done {
                Some(now)
            } else {
                self.settled_at
            },
            ..self
        }
    }

    /// The round ended at once because it holds no bet.
    pub open spec fn ended_empty(self, final_price: Option<u64>, now: i64) -> Round {
        Round { status: RoundStatus::Ended, final_price, settled_at: Some(now), ..self }
    }

    /// Ends a round that holds no bet.
    pub fn end_empty(&mut self, final_price: Option<u64>, now: i64)
        ensures
            *final(self) == old(self).ended_empty(final_price, now),
            old(self).wf() && old(self).total_bets == 0 && (old(self).status == RoundStatus::Active
                || old(self).status == RoundStatus::PendingSettlement) ==> final(self).wf(),
    {
        self.status = RoundStatus::Ended;
        self.final_price = final_price;
        self.settled_at = Some(now);
    }

    /// Records a settled batch on the round. Fails with `Overflow`, and
    /// leaves the round as it was, exactly when a counter would leave the
    /// range of 64 bits.
    pub fn record_batch(
        &mut self,
        fee: u64,
        reward: u64,
        final_price: Option<u64>,
        batch_weight: u64,
        batch_len: u64,
        now: i64,
    ) -> (r: Result<(), GoldRushError>)
        ensures
            match r {
                Ok(()) => {
                    &&& old(self).winners_weight + batch_weight <= u64::MAX
                    &&& old(self).settled_bets + batch_len <= u64::MAX
                    &&& *final(self) == old(self).after_batch(
                        fee,
                        reward,
                        final_price,
                        batch_weight,
                        batch_len,
                        now,
                    )
                },
                Err(e) => {
                    &&& e == GoldRushError::Overflow
                    &&& (old(self).winners_weight + batch_weight > u64::MAX || old(self).settled_bets
                        + batch_len > u64::MAX)
                    &&& *final(self) == *old(self)
                },
            },
    {
        let winners_weight = match self.winners_weight.checked_add(batch_weight) {
            Some(w) => w,
            None => {
                return Err(GoldRushError::Overflow);
            },
        };
        let settled_bets = match self.settled_bets.checked_add(batch_len) {
            Some(s) => s,
            None => {
                return Err(GoldRushError::Overflow);
            },
        };
        if !self.fee_locked {
            self.fee_locked = true;
            self.total_fee_collected = fee;
            self.total_reward_pool = reward;
        }
        self.final_price = final_price;
        self.winners_weight = winners_weight;
        self.settled_bets = settled_bets;
        if self.settled_bets >= self.total_bets {
            self.status = RoundStatus::Ended;
            self.settled_at = Some(now);
        } else if self.status == RoundStatus::Active {
            self.status = RoundStatus::PendingSettlement;
        }
        Ok(())
    }

    /// Once the fee is locked, the fee and the reward pool add up to the
    /// pool, in every state the engine leaves a round in.
    pub proof fn lemma_locked_split_conserves_pool(self)
        requires
            self.wf(),
            self.fee_locked,
        ensures
            self.total_fee_collected + self.total_reward_pool == self.total_pool,
    {
    }

    /// A settled batch leaves a round in order: the fee and the reward pool
    /// still add up to the pool, and once locked they stay what they were.
    pub proof fn lemma_after_batch_wf(
        self,
        fee: u64,
        reward: u64,
        final_price: Option<u64>,
        batch_weight: u64,
        batch_len: u64,
        now: i64,
    )
        requires
            self.wf(),
            self.status == RoundStatus::Active || self.status == RoundStatus::PendingSettlement,
            fee + reward == self.total_pool,
            self.winners_weight + batch_weight <= u64::MAX,
            self.settled_bets + batch_len <= u64::MAX,
        ensures
            self.after_batch(fee, reward, final_price, batch_weight, batch_len, now).wf(),
            self.after_batch(fee, reward, final_price, batch_weight, batch_len, now).fee_locked,
            self.after_batch(
                fee,
                reward,
                final_price,
                batch_weight,
                batch_len,
                now,
            ).total_fee_collected + self.after_batch(
                fee,
                reward,
                final_price,
                batch_weight,
                batch_len,
                now,
            ).total_reward_pool == self.total_pool,
            self.fee_locked ==> self.after_batch(
                fee,
                reward,
                final_price,
                batch_weight,
                batch_len,
                now,
            ).total_fee_collected == self.total_fee_collected && self.after_batch(
                fee,
                reward,
                final_price,
                batch_weight,
                batch_len,
                now,
            ).total_reward_pool == self.total_reward_pool,
    {
    }
}

} // verus!
