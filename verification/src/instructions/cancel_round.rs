//! Cancelling a round and refunding its bets, batch by batch.

use vstd::prelude::*;
use crate::address::Address;
use crate::constants::{ContractStatus, RoundStatus, MAX_REMAINING_ACCOUNTS};
use crate::error::GoldRushError;
use crate::settlement::{pool_without, staked};
use crate::state::bet::Bet;
use crate::state::config::Config;
use crate::state::record::{bet_faults, check_bet_records, decoded_bets, first_fault, RecordHandle};
use crate::state::round::Round;

verus! {

/// What the administrator hands in to cancel a round.
#[derive(Debug)]
pub struct CancelRound {
    pub signer: Address,
    pub config: Config,
    pub round: Round,
    /// Address of the round record.
    pub round_key: Address,
    pub treasury: Address,
    /// The engine's own address, which owns every record.
    pub program_id: Address,
    /// Pairs of handles: a bet, then the account its stake goes back to, of
    /// which only the address counts.
    pub remaining_accounts: Vec<RecordHandle<Bet>>,
}

/// One stake to pay back.
#[derive(Clone, Copy, Debug)]
pub struct Refund {
    /// The bet record, which is deleted.
    pub bet: Address,
    /// The account the stake goes to.
    pub destination: Address,
    pub amount: u64,
}

/// What a cancellation leaves for the caller to carry out.
#[derive(Debug)]
pub struct CancellationReceipt {
    /// The stakes to pay back, one per bet of the batch, in order.
    pub refunds: Vec<Refund>,
    /// Whether the vault and the round are to be closed, the treasury
    /// receiving what the vault is left with.
    pub closed: bool,
}

/// The result of a cancellation, as a value of the model.
pub struct Cancellation {
    pub round: Round,
    pub refunds: Seq<Refund>,
    pub closed: bool,
}

/// The handles at the even places of a list of pairs.
pub open spec fn paired_bets(records: Seq<RecordHandle<Bet>>) -> Seq<RecordHandle<Bet>> {
    Seq::new(records.len() / 2, |i: int| records[2 * i])
}

/// The refunds a list of pairs calls for.
pub open spec fn spec_refunds(records: Seq<RecordHandle<Bet>>) -> Seq<Refund> {
    Seq::new(
        records.len() / 2,
        |i: int|
            Refund {
                bet: records[2 * i].address,
                destination: records[2 * i + 1].address,
                amount: records[2 * i].data->0.amount,
            },
    )
}

/// Sum of the amounts of a list of refunds.
pub open spec fn refunded(refunds: Seq<Refund>) -> int
    decreases refunds.len(),
{
    if refunds.len() == 0 {
        0
    } else {
        refunded(refunds.drop_last()) + refunds.last().amount
    }
}

/// The refunds a list of pairs calls for add up to the stakes of its bets.
pub proof fn lemma_refunds_are_stakes(records: Seq<RecordHandle<Bet>>)
    requires
        records.len() % 2 == 0,
    ensures
        refunded(spec_refunds(records)) == staked(decoded_bets(paired_bets(records))),
    decreases records.len(),
{
    let refunds = spec_refunds(records);
    let bets = decoded_bets(paired_bets(records));
    if records.len() > 0 {
        let shorter = records.take(records.len() - 2);
        lemma_refunds_are_stakes(shorter);
        assert(spec_refunds(shorter) =~= refunds.drop_last());
        assert(decoded_bets(paired_bets(shorter)) =~= bets.drop_last());
    }
}

/// The round after the given bets have been paid back.
pub open spec fn round_after_refunds(round: Round, bets: Seq<Bet>) -> Round {
    Round {
        status: RoundStatus::Cancelling,
        total_pool: (round.total_pool - staked(bets)) as u64,
        cancelled_bets: (round.cancelled_bets + bets.len()) as u64,
        ..round
    }
}

/// Whether a round being cancelled is to be closed: as many bets have been
/// paid back as the round holds.
pub open spec fn is_refunded(round: Round) -> bool {
    round.cancelled_bets >= round.total_bets
}

impl CancelRound {
    /// Who may cancel which round: the first rule broken decides the error.
    pub open spec fn spec_validate(&self) -> Result<(), GoldRushError> {
        if self.config.status != ContractStatus::Active && self.config.status
            != ContractStatus::EmergencyPaused {
            Err(GoldRushError::ProgramPaused)
        } else if self.signer != self.config.admin {
            Err(GoldRushError::Unauthorized)
        } else if self.treasury != self.config.treasury {
            Err(GoldRushError::InvalidTreasuryAuthority)
        } else if self.round.status != RoundStatus::Scheduled && self.round.status != RoundStatus::Active
            && self.round.status != RoundStatus::Cancelling {
            Err(GoldRushError::InvalidRoundStatus)
        } else {
            Ok(())
        }
    }

    /// Checks that the signer may cancel this round.
    pub fn validate(&self) -> (r: Result<(), GoldRushError>)
        ensures
            r == self.spec_validate(),
    {
        if self.config.status != ContractStatus::Active && self.config.status
            != ContractStatus::EmergencyPaused {
            return Err(GoldRushError::ProgramPaused);
        }
        if !self.config.is_admin(&self.signer) {
            return Err(GoldRushError::Unauthorized);
        }
        if self.treasury != self.config.treasury {
            return Err(GoldRushError::InvalidTreasuryAuthority);
        }
        if self.round.status != RoundStatus::Scheduled && self.round.status != RoundStatus::Active
            && self.round.status != RoundStatus::Cancelling {
            return Err(GoldRushError::InvalidRoundStatus);
        }
        Ok(())
    }

    /// What the cancellation comes to. A round without bets is closed at
    /// once. Otherwise the round turns to `Cancelling`, every bet of the
    /// batch is paid back out of the pool, and the round is closed once as
    /// many bets have been paid back as the round holds.
    pub open spec fn spec_handler(&self) -> Result<Cancellation, GoldRushError> {
        let records = self.remaining_accounts@;
        let bets = decoded_bets(paired_bets(records));
        if self.spec_validate() is Err {
            Err(self.spec_validate()->Err_0)
        } else if records.len() > MAX_REMAINING_ACCOUNTS || records.len() % 2 != 0 {
            Err(GoldRushError::InvalidRemainingAccountsLength)
        } else if self.round.total_bets == 0 {
            Ok(Cancellation { round: self.round, refunds: Seq::empty(), closed: true })
        } else if first_fault(bet_faults(paired_bets(records), self.round_key, self.program_id)) is Some {
            Err(first_fault(bet_faults(paired_bets(records), self.round_key, self.program_id))->0)
        } else if staked(bets) > self.round.total_pool {
            Err(GoldRushError::Underflow)
        } else if self.round.cancelled_bets + bets.len() > u64::MAX {
            Err(GoldRushError::Overflow)
        } else {
            Ok(
                Cancellation {
                    round: round_after_refunds(self.round, bets),
                    refunds: spec_refunds(records),
                    closed: is_refunded(round_after_refunds(self.round, bets)),
                },
            )
        }
    }
}

/// Splits a list of pairs into the bets and the refunds they call for.
fn pair_up(records: &Vec<RecordHandle<Bet>>) -> (r: (Vec<RecordHandle<Bet>>, Vec<Address>))
    requires
        records@.len() % 2 == 0,
    ensures
        r.0@ == paired_bets(records@),
        r.1@ == Seq::new(records@.len() / 2, |i: int| records@[2 * i + 1].address),
{
    let mut bets: Vec<RecordHandle<Bet>> = Vec::new();
    let mut destinations: Vec<Address> = Vec::new();
    let mut i: usize = 0;
    while i < records.len()
        invariant
            i <= records@.len(),
            i % 2 == 0,
            records@.len() % 2 == 0,
            bets@.len() == i / 2,
            destinations@.len() == i / 2,
            forall|j: int| 0 <= j < i / 2 ==> bets@[j] == records@[2 * j],
            forall|j: int| 0 <= j < i / 2 ==> destinations@[j] == records@[2 * j + 1].address,
        decreases records@.len() - i,
    {
        bets.push(records[i]);
        destinations.push(records[i + 1].address);
        i += 2;
    }
    (bets, destinations)
}

/// Cancels a round, or goes on cancelling it. On failure nothing has
/// changed. Whatever is paid back leaves the pool: the refunds and the pool
/// that is left add up to the pool there was.
pub fn handler(ctx: &mut CancelRound) -> (r: Result<CancellationReceipt, GoldRushError>)
    ensures
        match r {
            Ok(receipt) => {
                &&& old(ctx).spec_handler() matches Ok(cancellation)
                &&& receipt.refunds@ == cancellation.refunds
                &&& receipt.closed == cancellation.closed
                &&& *final(ctx) == CancelRound { round: cancellation.round, ..*old(ctx) }
                &&& refunded(receipt.refunds@) + final(ctx).round.total_pool == old(ctx).round.total_pool
            },
            Err(e) => old(ctx).spec_handler() == Err::<Cancellation, GoldRushError>(e) && *final(ctx) == *old(
                ctx,
            ),
        },
        r is Ok && old(ctx).round.wf() ==> final(ctx).round.wf(),
{
    ctx.validate()?;
    let count = ctx.remaining_accounts.len();
    if count > MAX_REMAINING_ACCOUNTS || count % 2 != 0 {
        return Err(GoldRushError::InvalidRemainingAccountsLength);
    }
    if ctx.round.total_bets == 0 {
        return Ok(CancellationReceipt { refunds: Vec::new(), closed: true });
    }
    let (handles, destinations) = pair_up(&ctx.remaining_accounts);
    let bets = check_bet_records(&handles, &ctx.round_key, &ctx.program_id)?;
    let total_pool = pool_without(ctx.round.total_pool, &bets)?;
    let cancelled_bets = match ctx.round.cancelled_bets.checked_add(bets.len() as u64) {
        Some(c) => c,
        None => {
            return Err(GoldRushError::Overflow);
        },
    };
    let mut refunds: Vec<Refund> = Vec::new();
    let mut i: usize = 0;
    while i < bets.len()
        invariant
            i <= bets@.len(),
            bets@.len() == handles@.len() == destinations@.len(),
            refunds@.len() == i,
            forall|j: int|
                0 <= j < i ==> refunds@[j] == (Refund {
                    bet: handles@[j].address,
                    destination: destinations@[j],
                    amount: bets@[j].amount,
                }),
        decreases bets@.len() - i,
    {
        refunds.push(
            Refund { bet: handles[i].address, destination: destinations[i], amount: bets[i].amount },
        );
        i += 1;
    }
    proof {
        assert(refunds@ =~= spec_refunds(ctx.remaining_accounts@));
        lemma_refunds_are_stakes(ctx.remaining_accounts@);
    }
    ctx.round.status = RoundStatus::Cancelling;
    ctx.round.total_pool = total_pool;
    ctx.round.cancelled_bets = cancelled_bets;
    let closed = ctx.round.cancelled_bets >= ctx.round.total_bets;
    Ok(CancellationReceipt { refunds, closed })
}

/// A round that is being settled, or has ended, is not cancelled.
pub proof fn lemma_settling_round_is_not_cancelled(ctx: CancelRound)
    requires
        ctx.round.in_settlement(),
    ensures
        ctx.spec_validate() is Err,
        ctx.spec_handler() is Err,
{
}

/// The stakes of two batches add up.
pub proof fn lemma_staked_adds(first: Seq<Bet>, second: Seq<Bet>)
    ensures
        staked(first + second) == staked(first) + staked(second),
    decreases second.len(),
{
    if second.len() > 0 {
        lemma_staked_adds(first, second.drop_last());
        assert((first + second).drop_last() =~= first + second.drop_last());
    }
}

/// Refunding in batches comes to the same as refunding at once: two batches
/// one after the other leave the round as their concatenation does.
pub proof fn lemma_refund_batches_compose(round: Round, first: Seq<Bet>, second: Seq<Bet>)
    requires
        staked(first) + staked(second) <= round.total_pool,
        round.cancelled_bets + first.len() + second.len() <= u64::MAX,
    ensures
        round_after_refunds(round_after_refunds(round, first), second) == round_after_refunds(
            round,
            first + second,
        ),
{
    lemma_staked_adds(first, second);
    crate::settlement::lemma_staked_grows(first, 0);
    crate::settlement::lemma_staked_grows(second, 0);
}

/// A round whose pool is the stakes of its bets is closed exactly when the
/// last of its bets has been paid back, and by then the refunds add up to
/// the pool there was. Here `bets` are the bets of the round, of which the
/// first `done` have been paid back.
pub proof fn lemma_cancellation_pays_all_back(round: Round, bets: Seq<Bet>, done: int)
    requires
        round.total_bets == bets.len(),
        round.total_pool == staked(bets),
        round.cancelled_bets == 0,
        0 <= done <= bets.len(),
    ensures
        is_refunded(round_after_refunds(round, bets.take(done))) <==> done == bets.len(),
        staked(bets.take(done)) + round_after_refunds(round, bets.take(done)).total_pool
            == round.total_pool,
        done == bets.len() ==> staked(bets.take(done)) == round.total_pool && round_after_refunds(
            round,
            bets.take(done),
        ).total_pool == 0,
{
    crate::settlement::lemma_staked_grows(bets, done);
    if done == bets.len() {
        assert(bets.take(done) =~= bets);
    }
}

} // verus!
