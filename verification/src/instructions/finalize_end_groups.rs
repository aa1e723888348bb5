//! Choosing the winning groups of a group-battle round.

use vstd::prelude::*;
use crate::address::Address;
use crate::constants::{
    ContractStatus, MarketType, RoundStatus, MAX_REMAINING_ACCOUNTS, MAX_WINNER_GROUP_IDS,
};
use crate::error::GoldRushError;
use crate::state::config::Config;
use crate::state::group_asset::GroupAsset;
use crate::state::record::{check_group_records, decoded_groups, first_fault, group_faults, RecordHandle};
use crate::state::round::Round;

verus! {

/// What a keeper hands in to choose the winners of a round.
#[derive(Debug)]
pub struct FinalizeEndGroups {
    pub signer: Address,
    pub config: Config,
    pub round: Round,
    /// Address of the round record.
    pub round_key: Address,
    /// The engine's own address, which owns every record.
    pub program_id: Address,
    /// The groups of the round.
    pub remaining_accounts: Vec<RecordHandle<GroupAsset>>,
    /// The current time.
    pub now: i64,
}

/// What keeps a group out of the comparison: members that are not
/// finalized, or no average.
pub open spec fn group_fault(group: GroupAsset) -> Option<GoldRushError> {
    if group.is_finalized() {
        None
    } else {
        Some(GoldRushError::SettlementFailed)
    }
}

/// The faults of the groups to compare, group by group.
pub open spec fn unready_groups(groups: Seq<GroupAsset>) -> Seq<Option<GoldRushError>> {
    Seq::new(groups.len(), |i: int| group_fault(groups[i]))
}

/// The best average growth among the groups.
pub open spec fn best_average(groups: Seq<GroupAsset>) -> i64
    recommends
        groups.len() > 0,
    decreases groups.len(),
{
    if groups.len() <= 1 {
        groups.last().avg_growth_rate_bps->0
    } else {
        let before = best_average(groups.drop_last());
        let last = groups.last().avg_growth_rate_bps->0;
        if last > before {
            last
        } else {
            before
        }
    }
}

/// The ids of the groups whose average growth is `average`, in the order
/// the groups are given.
pub open spec fn tied_at(groups: Seq<GroupAsset>, average: i64) -> Seq<u64>
    decreases groups.len(),
{
    if groups.len() == 0 {
        Seq::empty()
    } else {
        let before = tied_at(groups.drop_last(), average);
        if groups.last().avg_growth_rate_bps->0 == average {
            before.push(groups.last().id)
        } else {
            before
        }
    }
}

/// The winners: every group whose average growth is the best. Groups that
/// tie all win.
pub open spec fn winners(groups: Seq<GroupAsset>) -> Seq<u64> {
    tied_at(groups, best_average(groups))
}

/// No group grows more than the best average, and some group attains it.
pub proof fn lemma_best_average_is_maximum(groups: Seq<GroupAsset>)
    requires
        groups.len() > 0,
    ensures
        forall|i: int| 0 <= i < groups.len() ==> groups[i].avg_growth_rate_bps->0 <= best_average(groups),
        exists|i: int| 0 <= i < groups.len() && groups[i].avg_growth_rate_bps->0 == best_average(groups),
    decreases groups.len(),
{
    if groups.len() > 1 {
        let shorter = groups.drop_last();
        lemma_best_average_is_maximum(shorter);
        assert forall|i: int| 0 <= i < groups.len() implies groups[i].avg_growth_rate_bps->0
            <= best_average(groups) by {
            if i < shorter.len() {
                assert(shorter[i] == groups[i]);
            }
        }
    }
}

/// A group is among the ids tied at an average exactly when it has that
/// average; the ids come in the order of the groups.
pub proof fn lemma_tied_at_members(groups: Seq<GroupAsset>, average: i64)
    ensures
        tied_at(groups, average).len() <= groups.len(),
        forall|i: int|
            0 <= i < groups.len() && groups[i].avg_growth_rate_bps->0 == average ==> tied_at(
                groups,
                average,
            ).contains(groups[i].id),
        forall|id: u64|
            tied_at(groups, average).contains(id) ==> exists|i: int|
                0 <= i < groups.len() && groups[i].id == id && groups[i].avg_growth_rate_bps->0
                    == average,
    decreases groups.len(),
{
    if groups.len() > 0 {
        let shorter = groups.drop_last();
        let before = tied_at(shorter, average);
        let all = tied_at(groups, average);
        lemma_tied_at_members(shorter, average);
        let n = groups.len() - 1;
        assert forall|i: int|
            0 <= i < groups.len() && groups[i].avg_growth_rate_bps->0 == average implies all.contains(
            groups[i].id,
        ) by {
            if i < n {
                assert(shorter[i] == groups[i]);
                let k = choose|k: int| 0 <= k < before.len() && before[k] == groups[i].id;
                assert(all[k] == groups[i].id);
            } else {
                assert(all[all.len() - 1] == groups[i].id);
            }
        }
        assert forall|id: u64| all.contains(id) implies exists|i: int|
            0 <= i < groups.len() && groups[i].id == id && groups[i].avg_growth_rate_bps->0
                == average by {
            let k = choose|k: int| 0 <= k < all.len() && all[k] == id;
            if k < before.len() {
                assert(before.contains(id));
            }
        }
    }
}

/// No group is tied at an average above the best.
proof fn lemma_none_tied_above(groups: Seq<GroupAsset>, average: i64)
    requires
        groups.len() == 0 || average > best_average(groups),
    ensures
        tied_at(groups, average) =~= Seq::<u64>::empty(),
    decreases groups.len(),
{
    if groups.len() > 0 {
        lemma_best_average_is_maximum(groups);
        let shorter = groups.drop_last();
        if shorter.len() > 0 {
            lemma_best_average_is_maximum(shorter);
        }
        lemma_none_tied_above(shorter, average);
    }
}

/// Picks the winners among groups that are all finalized.
pub fn select_winners(groups: &Vec<GroupAsset>) -> (r: Vec<u64>)
    requires
        groups@.len() > 0,
        first_fault(unready_groups(groups@)) is None,
    ensures
        r@ == winners(groups@),
{
    let ghost faults = unready_groups(groups@);
    proof {
        crate::state::record::lemma_first_fault(faults);
        assert(tied_at(groups@.take(1).drop_last(), groups@[0].avg_growth_rate_bps->0) =~= Seq::<
            u64,
        >::empty());
    }
    let mut best: i64 = match groups[0].avg_growth_rate_bps {
        Some(a) => a,
        None => 0,
    };
    let mut ids: Vec<u64> = Vec::new();
    ids.push(groups[0].id);
    let mut i: usize = 1;
    while i < groups.len()
        invariant
            1 <= i <= groups@.len(),
            faults == unready_groups(groups@),
            forall|j: int| 0 <= j < groups@.len() ==> faults[j] is None,
            best == best_average(groups@.take(i as int)),
            ids@ == tied_at(groups@.take(i as int), best),
        decreases groups@.len() - i,
    {
        proof {
            assert(groups@.take(i + 1).drop_last() =~= groups@.take(i as int));
            assert(faults[i as int] is None);
        }
        let average: i64 = match groups[i].avg_growth_rate_bps {
            Some(a) => a,
            None => 0,
        };
        if average > best {
            proof {
                lemma_none_tied_above(groups@.take(i as int), average);
            }
            best = average;
            ids = Vec::new();
            ids.push(groups[i].id);
        } else if average == best {
            ids.push(groups[i].id);
        }
        i += 1;
    }
    proof {
        assert(groups@.take(i as int) =~= groups@);
    }
    ids
}

impl FinalizeEndGroups {
    /// Who may choose the winners of which round when: the first rule
    /// broken decides the error. Winners are chosen once: a round that has
    /// winners is refused.
    pub open spec fn spec_validate(&self) -> Result<(), GoldRushError> {
        if self.config.status != ContractStatus::Active && self.config.status
            != ContractStatus::EmergencyPaused {
            Err(GoldRushError::ProgramPaused)
        } else if !self.config.keeper_authorities@.contains(self.signer) {
            Err(GoldRushError::UnauthorizedKeeper)
        } else if self.round.status != RoundStatus::Active {
            Err(GoldRushError::InvalidRoundStatus)
        } else if self.round.market_type != MarketType::GroupBattle {
            Err(GoldRushError::InvalidRoundMarketType)
        } else if self.now < self.round.end_time {
            Err(GoldRushError::RoundNotReadyForSettlement)
        } else if self.round.captured_end_groups >= self.round.total_groups {
            Err(GoldRushError::GroupAssetAlreadyCapturedEndPrice)
        } else if self.round.winner_group_ids@.len() != 0 {
            Err(GoldRushError::SettlementFailed)
        } else {
            Ok(())
        }
    }

    /// Checks that the signer may choose the winners of this round now.
    pub fn validate(&self) -> (r: Result<(), GoldRushError>)
        ensures
            r == self.spec_validate(),
    {
        if self.config.status != ContractStatus::Active && self.config.status
            != ContractStatus::EmergencyPaused {
            return Err(GoldRushError::ProgramPaused);
        }
        if !self.config.is_keeper(&self.signer) {
            return Err(GoldRushError::UnauthorizedKeeper);
        }
        if self.round.status != RoundStatus::Active {
            return Err(GoldRushError::InvalidRoundStatus);
        }
        if self.round.market_type != MarketType::GroupBattle {
            return Err(GoldRushError::InvalidRoundMarketType);
        }
        if self.now < self.round.end_time {
            return Err(GoldRushError::RoundNotReadyForSettlement);
        }
        if self.round.captured_end_groups >= self.round.total_groups {
            return Err(GoldRushError::GroupAssetAlreadyCapturedEndPrice);
        }
        if self.round.winner_group_ids.len() != 0 {
            return Err(GoldRushError::SettlementFailed);
        }
        Ok(())
    }

    /// The winners the round gets: every handle must be a genuine group of
    /// the round, every group must be finalized, and no more groups may tie
    /// for the win than a round can hold, or nothing is written at all.
    pub open spec fn spec_handler(&self) -> Result<Seq<u64>, GoldRushError> {
        let records = self.remaining_accounts@;
        let handle_fault = first_fault(
            group_faults(
                records,
                self.round_key,
                self.program_id,
                GoldRushError::InvalidAssetAccount,
                GoldRushError::InvalidAssetAccountData,
            ),
        );
        let groups = decoded_groups(records);
        if self.spec_validate() is Err {
            Err(self.spec_validate()->Err_0)
        } else if records.len() == 0 || records.len() > MAX_REMAINING_ACCOUNTS {
            Err(GoldRushError::InvalidRemainingAccountsLength)
        } else if handle_fault is Some {
            Err(handle_fault->0)
        } else if first_fault(unready_groups(groups)) is Some {
            Err(GoldRushError::SettlementFailed)
        } else if winners(groups).len() > MAX_WINNER_GROUP_IDS {
            Err(GoldRushError::SettlementFailed)
        } else {
            Ok(winners(groups))
        }
    }
}

/// Whether every group of a batch is finalized.
fn all_finalized(groups: &Vec<GroupAsset>) -> (r: bool)
    ensures
        r == (first_fault(unready_groups(groups@)) is None),
{
    let ghost faults = unready_groups(groups@);
    let mut i: usize = 0;
    while i < groups.len()
        invariant
            i <= groups@.len(),
            faults == unready_groups(groups@),
            forall|j: int| 0 <= j < i ==> faults[j] is None,
        decreases groups@.len() - i,
    {
        let group = &groups[i];
        if group.finalized_end_price_assets < group.total_assets || group.avg_growth_rate_bps.is_none() {
            proof {
                assert(faults[i as int] is Some);
                crate::state::record::lemma_first_fault(faults);
            }
            return false;
        }
        i += 1;
    }
    proof {
        crate::state::record::lemma_first_fault(faults);
    }
    true
}

/// Chooses the winners of a round among its groups and writes their ids
/// into the round. On failure nothing has changed.
pub fn handler(ctx: &mut FinalizeEndGroups) -> (r: Result<(), GoldRushError>)
    ensures
        match r {
            Ok(()) => {
                &&& old(ctx).spec_handler() matches Ok(ids)
                &&& final(ctx).round.winner_group_ids@ == ids
                &&& final(ctx).round.winner_group_ids@.len() > 0
                &&& final(ctx).round == Round {
                    winner_group_ids: final(ctx).round.winner_group_ids,
                    ..old(ctx).round
                }
                &&& *final(ctx) == FinalizeEndGroups { round: final(ctx).round, ..*old(ctx) }
            },
            Err(e) => old(ctx).spec_handler() == Err::<Seq<u64>, GoldRushError>(e) && *final(ctx) == *old(
                ctx,
            ),
        },
        r is Ok && old(ctx).round.wf() ==> final(ctx).round.wf(),
{
    ctx.validate()?;
    let count = ctx.remaining_accounts.len();
    if count == 0 || count > MAX_REMAINING_ACCOUNTS {
        return Err(GoldRushError::InvalidRemainingAccountsLength);
    }
    let groups = check_group_records(
        &ctx.remaining_accounts,
        &ctx.round_key,
        &ctx.program_id,
        GoldRushError::InvalidAssetAccount,
        GoldRushError::InvalidAssetAccountData,
    )?;
    if !all_finalized(&groups) {
        return Err(GoldRushError::SettlementFailed);
    }
    let ids = select_winners(&groups);
    if ids.len() > MAX_WINNER_GROUP_IDS {
        return Err(GoldRushError::SettlementFailed);
    }
    proof {
        lemma_best_average_is_maximum(groups@);
        lemma_tied_at_members(groups@, best_average(groups@));
    }
    ctx.round.winner_group_ids = ids;
    Ok(())
}

} // verus!
