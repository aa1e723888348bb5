//! Settling a batch of bets of a group-battle round.

use vstd::prelude::*;
use crate::address::{group_asset_address, spec_group_asset_address, Address};
use crate::constants::{BetStatus, ContractStatus, MarketType, RoundStatus, MAX_REMAINING_ACCOUNTS};
use crate::error::GoldRushError;
use crate::settlement::{sum_won_weight, with_status, won_weight, Settlement, SettlementReceipt};
use crate::state::bet::Bet;
use crate::state::config::Config;
use crate::state::record::{bet_faults, check_bet_records, decoded_bets, first_fault, RecordHandle};
use crate::state::round::Round;

verus! {

/// What a keeper hands in to settle a batch of a group-battle round.
#[derive(Debug)]
pub struct SettleGroupRound {
    pub signer: Address,
    pub config: Config,
    pub round: Round,
    /// Address of the round record.
    pub round_key: Address,
    pub treasury: Address,
    /// The engine's own address, which owns every record.
    pub program_id: Address,
    /// The bets of this batch.
    pub remaining_accounts: Vec<RecordHandle<Bet>>,
    /// The current time.
    pub now: i64,
}

/// Whether `group` is one of the given addresses.
pub open spec fn is_among(group: Option<Address>, winners: Seq<Option<Address>>) -> bool {
    group is Some && exists|k: int| 0 <= k < winners.len() && #[trigger] winners[k] == group
}

/// The outcome of a bet of a group-battle round, given the addresses of the
/// winning groups: a draw when every group won, else won exactly when the
/// bet backs one of the winners. A bet that backs no group never wins.
pub open spec fn status_among(full_draw: bool, group: Option<Address>, winners: Seq<Option<Address>>) -> BetStatus {
    if full_draw {
        BetStatus::Draw
    } else if is_among(group, winners) {
        BetStatus::Won
    } else {
        BetStatus::Lost
    }
}

/// Decides a bet of a group-battle round, given the addresses of the winning
/// groups.
pub fn group_battle_status(full_draw: bool, group: &Option<Address>, winners: &Vec<Option<Address>>) -> (r:
    BetStatus)
    ensures
        r == status_among(full_draw, *group, winners@),
{
    if full_draw {
        return BetStatus::Draw;
    }
    let backed = match group {
        Some(g) => *g,
        None => {
            return BetStatus::Lost;
        },
    };
    let mut k: usize = 0;
    while k < winners.len()
        invariant
            k <= winners@.len(),
            !full_draw,
            *group == Some(backed),
            forall|j: int| 0 <= j < k ==> winners@[j] != *group,
        decreases winners@.len() - k,
    {
        match &winners[k] {
            Some(w) => {
                if *w == backed {
                    return BetStatus::Won;
                }
            },
            None => {},
        }
        k += 1;
    }
    BetStatus::Lost
}

/// The canonical addresses of the winning groups of the round at `round`.
pub open spec fn spec_winner_addresses(round: Address, winner_ids: Seq<u64>, program_id: Address) -> Seq<
    Option<Seq<u8>>,
> {
    Seq::new(winner_ids.len(), |k: int| spec_group_asset_address(round, winner_ids[k], program_id))
}

/// The bytes of each address of a list.
pub open spec fn views(addresses: Seq<Option<Address>>) -> Seq<Option<Seq<u8>>> {
    Seq::new(
        addresses.len(),
        |k: int|
            match addresses[k] {
                Some(a) => Some(a@),
                None => None,
            },
    )
}

/// Derives the canonical addresses of the winning groups of the round at
/// `round`.
pub fn winner_addresses(round: &Address, winner_ids: &Vec<u64>, program_id: &Address) -> (r: Vec<Option<Address>>)
    ensures
        views(r@) == spec_winner_addresses(*round, winner_ids@, *program_id),
{
    let mut out: Vec<Option<Address>> = Vec::new();
    let mut k: usize = 0;
    while k < winner_ids.len()
        invariant
            k <= winner_ids@.len(),
            out@.len() == k,
            forall|j: int|
                0 <= j < k ==> (match out@[j] {
                    Some(a) => Some(a@),
                    None => None,
                }) == spec_group_asset_address(*round, winner_ids@[j], *program_id),
        decreases winner_ids@.len() - k,
    {
        let derived = group_asset_address(round, winner_ids[k], program_id);
        out.push(derived);
        k += 1;
    }
    out
}

/// Whether the bet backs a group whose canonical address is that of one of
/// the winners.
pub open spec fn backs_winner(group: Option<Address>, round: Address, winner_ids: Seq<u64>, program_id: Address) -> bool {
    group is Some && exists|k: int|
        0 <= k < winner_ids.len() && spec_group_asset_address(round, winner_ids[k], program_id) == Some(
            group->0@,
        )
}

/// The outcome of a bet of a group-battle round.
pub open spec fn spec_group_battle_status(
    full_draw: bool,
    group: Option<Address>,
    round: Address,
    winner_ids: Seq<u64>,
    program_id: Address,
) -> BetStatus {
    if full_draw {
        BetStatus::Draw
    } else if backs_winner(group, round, winner_ids, program_id) {
        BetStatus::Won
    } else {
        BetStatus::Lost
    }
}

/// Deciding by the derived addresses is deciding by the winners' ids.
pub proof fn lemma_status_among(
    full_draw: bool,
    group: Option<Address>,
    winners: Seq<Option<Address>>,
    round: Address,
    winner_ids: Seq<u64>,
    program_id: Address,
)
    requires
        views(winners) == spec_winner_addresses(round, winner_ids, program_id),
    ensures
        status_among(full_draw, group, winners) == spec_group_battle_status(
            full_draw,
            group,
            round,
            winner_ids,
            program_id,
        ),
{
    let derived = spec_winner_addresses(round, winner_ids, program_id);
    assert(winners.len() == winner_ids.len()) by {
        assert(views(winners).len() == derived.len());
    }
    if group is Some {
        let g = group->0;
        if is_among(group, winners) {
            let k = choose|k: int| 0 <= k < winners.len() && winners[k] == group;
            assert(views(winners)[k] == Some(g@));
        }
        if backs_winner(group, round, winner_ids, program_id) {
            let k = choose|k: int|
                0 <= k < winner_ids.len() && spec_group_asset_address(round, winner_ids[k], program_id)
                    == Some(g@);
            assert(derived[k] == Some(g@));
            Address::lemma_view_injective(winners[k]->0, g);
        }
    }
}

/// A batch of bets, each with its outcome.
pub open spec fn settled_group(
    bets: Seq<Bet>,
    full_draw: bool,
    round: Address,
    winner_ids: Seq<u64>,
    program_id: Address,
) -> Seq<Bet> {
    Seq::new(
        bets.len(),
        |i: int|
            with_status(
                bets[i],
                spec_group_battle_status(full_draw, bets[i].group, round, winner_ids, program_id),
            ),
    )
}

/// Writes into each bet of a batch its outcome.
pub fn settle_group_bets(
    bets: &Vec<Bet>,
    full_draw: bool,
    round: &Address,
    winner_ids: &Vec<u64>,
    program_id: &Address,
) -> (settled: Vec<Bet>)
    ensures
        settled@ == settled_group(bets@, full_draw, *round, winner_ids@, *program_id),
{
    let winners = winner_addresses(round, winner_ids, program_id);
    let mut settled: Vec<Bet> = Vec::new();
    let mut i: usize = 0;
    while i < bets.len()
        invariant
            i <= bets@.len(),
            settled@.len() == i,
            views(winners@) == spec_winner_addresses(*round, winner_ids@, *program_id),
            forall|j: int|
                0 <= j < i ==> settled@[j] == with_status(
                    bets@[j],
                    spec_group_battle_status(full_draw, bets@[j].group, *round, winner_ids@, *program_id),
                ),
        decreases bets@.len() - i,
    {
        let mut bet = bets[i];
        proof {
            lemma_status_among(full_draw, bet.group, winners@, *round, winner_ids@, *program_id);
        }
        bet.status = group_battle_status(full_draw, &bet.group, &winners);
        settled.push(bet);
        i += 1;
    }
    settled
}

impl SettleGroupRound {
    /// Who may settle which round when: the first rule broken decides the
    /// error.
    pub open spec fn spec_validate(&self) -> Result<(), GoldRushError> {
        if self.config.status != ContractStatus::Active {
            Err(GoldRushError::ProgramPaused)
        } else if !self.config.keeper_authorities@.contains(self.signer) {
            Err(GoldRushError::UnauthorizedKeeper)
        } else if self.treasury != self.config.treasury {
            Err(GoldRushError::InvalidTreasuryAuthority)
        } else if self.round.market_type != MarketType::GroupBattle {
            Err(GoldRushError::InvalidRoundMarketType)
        } else if self.round.status != RoundStatus::Active && self.round.status
            != RoundStatus::PendingSettlement {
            Err(GoldRushError::InvalidRoundStatus)
        } else if self.now < self.round.end_time {
            Err(GoldRushError::RoundNotReadyForSettlement)
        } else if self.round.total_bets > 0 && self.round.settled_bets >= self.round.total_bets {
            Err(GoldRushError::AllBetsAlreadySettled)
        } else if self.round.winner_group_ids@.len() == 0 {
            Err(GoldRushError::SettlementFailed)
        } else {
            Ok(())
        }
    }

    /// Checks that the signer may settle this round now.
    pub fn validate(&self) -> (r: Result<(), GoldRushError>)
        ensures
            r == self.spec_validate(),
    {
        if self.config.status != ContractStatus::Active {
            return Err(GoldRushError::ProgramPaused);
        }
        if !self.config.is_keeper(&self.signer) {
            return Err(GoldRushError::UnauthorizedKeeper);
        }
        if self.treasury != self.config.treasury {
            return Err(GoldRushError::InvalidTreasuryAuthority);
        }
        if self.round.market_type != MarketType::GroupBattle {
            return Err(GoldRushError::InvalidRoundMarketType);
        }
        if self.round.status != RoundStatus::Active && self.round.status != RoundStatus::PendingSettlement {
            return Err(GoldRushError::InvalidRoundStatus);
        }
        if self.now < self.round.end_time {
            return Err(GoldRushError::RoundNotReadyForSettlement);
        }
        if self.round.total_bets > 0 && self.round.settled_bets >= self.round.total_bets {
            return Err(GoldRushError::AllBetsAlreadySettled);
        }
        if self.round.winner_group_ids.len() == 0 {
            return Err(GoldRushError::SettlementFailed);
        }
        Ok(())
    }

    /// What settling the batch comes to. A round without bets ends at once.
    /// Otherwise the first batch locks the fee and the reward pool, with no
    /// fee in a full draw; every handle of the batch must be a genuine bet
    /// of the round; each bet gets its outcome; and the round's counters
    /// advance by the batch.
    pub open spec fn spec_handler(&self) -> Result<Settlement, GoldRushError> {
        if self.spec_validate() is Err {
            Err(self.spec_validate()->Err_0)
        } else if self.remaining_accounts@.len() > MAX_REMAINING_ACCOUNTS {
            Err(GoldRushError::InvalidRemainingAccountsLength)
        } else if self.round.total_bets == 0 {
            Ok(
                Settlement {
                    round: self.round.ended_empty(self.round.final_price, self.now),
                    settled: Seq::empty(),
                    fee_transfer: 0,
                },
            )
        } else {
            match self.round.spec_fee_split(self.config.fee_group_battle_bps, self.round.is_full_draw()) {
                Err(e) => Err(e),
                Ok((fee, reward)) => match first_fault(
                    bet_faults(self.remaining_accounts@, self.round_key, self.program_id),
                ) {
                    Some(e) => Err(e),
                    None => {
                        let settled = settled_group(
                            decoded_bets(self.remaining_accounts@),
                            self.round.is_full_draw(),
                            self.round_key,
                            self.round.winner_group_ids@,
                            self.program_id,
                        );
                        if self.round.winners_weight + won_weight(settled) > u64::MAX
                            || self.round.settled_bets + settled.len() > u64::MAX {
                            Err(GoldRushError::Overflow)
                        } else {
                            Ok(
                                Settlement {
                                    round: self.round.after_batch(
                                        fee,
                                        reward,
                                        self.round.final_price,
                                        won_weight(settled) as u64,
                                        settled.len() as u64,
                                        self.now,
                                    ),
                                    settled,
                                    fee_transfer: if self.round.fee_locked {
                                        0
                                    } else {
                                        fee
                                    },
                                },
                            )
                        }
                    },
                },
            }
        }
    }
}

/// Settlement is not run again on a round that has ended, nor on one that is
/// being cancelled or has not started.
pub proof fn lemma_closed_round_is_refused(ctx: SettleGroupRound)
    requires
        ctx.round.status != RoundStatus::Active,
        ctx.round.status != RoundStatus::PendingSettlement,
    ensures
        ctx.spec_validate() is Err,
        ctx.spec_handler() is Err,
{
}

/// Settles a batch of bets of a group-battle round. On failure nothing has
/// changed.
pub fn handler(ctx: &mut SettleGroupRound) -> (r: Result<SettlementReceipt, GoldRushError>)
    ensures
        match r {
            Ok(receipt) => {
                &&& old(ctx).spec_handler() matches Ok(settlement)
                &&& receipt.settled@ == settlement.settled
                &&& receipt.fee_transfer == settlement.fee_transfer
                &&& *final(ctx) == SettleGroupRound { round: settlement.round, ..*old(ctx) }
            },
            Err(e) => old(ctx).spec_handler() == Err::<Settlement, GoldRushError>(e) && *final(ctx) == *old(
                ctx,
            ),
        },
        r is Ok && old(ctx).round.wf() ==> final(ctx).round.wf(),
        r is Ok && old(ctx).round.total_bets > 0 && (old(ctx).round.wf() || !old(ctx).round.fee_locked)
            ==> final(ctx).round.total_fee_collected + final(ctx).round.total_reward_pool
            == final(ctx).round.total_pool,
{
    ctx.validate()?;
    if ctx.remaining_accounts.len() > MAX_REMAINING_ACCOUNTS {
        return Err(GoldRushError::InvalidRemainingAccountsLength);
    }
    let now = ctx.now;
    if ctx.round.total_bets == 0 {
        let final_price = ctx.round.final_price;
        ctx.round.end_empty(final_price, now);
        return Ok(SettlementReceipt { fee_transfer: 0, settled: Vec::new() });
    }
    let full_draw = ctx.round.total_groups > 0 && ctx.round.winner_group_ids.len() as u64
        >= ctx.round.total_groups;
    let (fee, reward) = ctx.round.fee_split(ctx.config.fee_group_battle_bps, full_draw)?;
    let bets = check_bet_records(&ctx.remaining_accounts, &ctx.round_key, &ctx.program_id)?;
    let settled = settle_group_bets(
        &bets,
        full_draw,
        &ctx.round_key,
        &ctx.round.winner_group_ids,
        &ctx.program_id,
    );
    let batch_weight = match sum_won_weight(&settled) {
        Ok(w) => w,
        Err(e) => {
            return Err(e);
        },
    };
    let fee_transfer = if ctx.round.fee_locked {
        0
    } else {
        fee
    };
    let ghost before = ctx.round;
    let final_price = ctx.round.final_price;
    ctx.round.record_batch(fee, reward, final_price, batch_weight, settled.len() as u64, now)?;
    proof {
        if before.wf() {
            before.lemma_after_batch_wf(
                fee,
                reward,
                final_price,
                batch_weight,
                settled.len() as u64,
                now,
            );
        }
    }
    Ok(SettlementReceipt { fee_transfer, settled })
}

} // verus!
