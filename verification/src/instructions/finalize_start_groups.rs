//! Counting the groups of a round whose start prices are confirmed.

use vstd::prelude::*;
use crate::address::Address;
use crate::constants::{ContractStatus, MarketType, RoundStatus, MAX_REMAINING_ACCOUNTS};
use crate::error::GoldRushError;
use crate::state::config::Config;
use crate::state::group_asset::GroupAsset;
use crate::state::record::{check_group_records, decoded_groups, first_fault, group_faults, RecordHandle};
use crate::state::round::Round;

verus! {

/// What a keeper hands in to count confirmed groups.
#[derive(Debug)]
pub struct FinalizeStartGroups {
    pub signer: Address,
    pub config: Config,
    pub round: Round,
    /// Address of the round record.
    pub round_key: Address,
    /// The engine's own address, which owns every record.
    pub program_id: Address,
    /// The groups of this batch.
    pub remaining_accounts: Vec<RecordHandle<GroupAsset>>,
}

/// What keeps a group from being counted: members whose start price is not
/// confirmed.
pub open spec fn unconfirmed_fault(group: GroupAsset) -> Option<GoldRushError> {
    if group.finalized_start_price_assets >= group.total_assets {
        None
    } else {
        Some(GoldRushError::GroupAssetNotFullyCapturedStartPrice)
    }
}

/// The faults of a batch of groups to count, group by group.
pub open spec fn unconfirmed_groups(groups: Seq<GroupAsset>) -> Seq<Option<GoldRushError>> {
    Seq::new(groups.len(), |i: int| unconfirmed_fault(groups[i]))
}

/// Looks for the first group of a batch with unconfirmed members.
pub fn check_confirmed(groups: &Vec<GroupAsset>) -> (r: Result<(), GoldRushError>)
    ensures
        match r {
            Ok(()) => first_fault(unconfirmed_groups(groups@)) is None,
            Err(e) => first_fault(unconfirmed_groups(groups@)) == Some(e),
        },
{
    let ghost faults = unconfirmed_groups(groups@);
    let mut i: usize = 0;
    proof {
        assert(faults.skip(0) =~= faults);
    }
    while i < groups.len()
        invariant
            i <= groups@.len(),
            faults == unconfirmed_groups(groups@),
            first_fault(faults) == first_fault(faults.skip(i as int)),
        decreases groups@.len() - i,
    {
        proof {
            assert(faults.skip(i as int).drop_first() =~= faults.skip(i + 1));
        }
        if groups[i].finalized_start_price_assets < groups[i].total_assets {
            return Err(GoldRushError::GroupAssetNotFullyCapturedStartPrice);
        }
        i += 1;
    }
    Ok(())
}

impl FinalizeStartGroups {
    /// Who may count the confirmed groups of which round: the first rule
    /// broken decides the error.
    pub open spec fn spec_validate(&self) -> Result<(), GoldRushError> {
        if self.config.status != ContractStatus::Active && self.config.status
            != ContractStatus::EmergencyPaused {
            Err(GoldRushError::ProgramPaused)
        } else if !self.config.keeper_authorities@.contains(self.signer) {
            Err(GoldRushError::UnauthorizedKeeper)
        } else if self.round.status != RoundStatus::Scheduled {
            Err(GoldRushError::InvalidRoundStatus)
        } else if self.round.market_type != MarketType::GroupBattle {
            Err(GoldRushError::InvalidRoundMarketType)
        } else if self.round.captured_start_groups >= self.round.total_groups {
            Err(GoldRushError::RoundAlreadyCapturedStartPrice)
        } else {
            Ok(())
        }
    }

    /// Checks that the signer may count the confirmed groups of this round.
    pub fn validate(&self) -> (r: Result<(), GoldRushError>)
        ensures
            r == self.spec_validate(),
    {
        if self.config.status != ContractStatus::Active && self.config.status
            != ContractStatus::EmergencyPaused {
            return Err(GoldRushError::ProgramPaused);
        }
        if !self.config.is_keeper(&self.signer) {
            return Err(GoldRushError::UnauthorizedKeeper);
        }
        if self.round.status != RoundStatus::Scheduled {
            return Err(GoldRushError::InvalidRoundStatus);
        }
        if self.round.market_type != MarketType::GroupBattle {
            return Err(GoldRushError::InvalidRoundMarketType);
        }
        if self.round.captured_start_groups >= self.round.total_groups {
            return Err(GoldRushError::RoundAlreadyCapturedStartPrice);
        }
        Ok(())
    }

    /// Why the groups are not counted, if they are not: the rules refuse
    /// it, a handle is not a genuine group of the round, a group has
    /// unconfirmed members, or the counter is exhausted.
    pub open spec fn spec_refusal(&self) -> Option<GoldRushError> {
        let records = self.remaining_accounts@;
        let handle_fault = first_fault(
            group_faults(
                records,
                self.round_key,
                self.program_id,
                GoldRushError::InvalidGroupAssetAccount,
                GoldRushError::InvalidGroupAssetAccount,
            ),
        );
        if self.spec_validate() is Err {
            Some(self.spec_validate()->Err_0)
        } else if records.len() == 0 || records.len() > MAX_REMAINING_ACCOUNTS {
            Some(GoldRushError::InvalidRemainingAccountsLength)
        } else if handle_fault is Some {
            handle_fault
        } else if first_fault(unconfirmed_groups(decoded_groups(records))) is Some {
            first_fault(unconfirmed_groups(decoded_groups(records)))
        } else if self.round.captured_start_groups + records.len() > u64::MAX {
            Some(GoldRushError::Overflow)
        } else {
            None
        }
    }
}

/// Counts a batch of groups whose start prices are confirmed. On failure
/// nothing has changed.
pub fn handler(ctx: &mut FinalizeStartGroups) -> (r: Result<(), GoldRushError>)
    ensures
        match r {
            Ok(()) => {
                &&& old(ctx).spec_refusal() is None
                &&& *final(ctx) == FinalizeStartGroups {
                    round: Round {
                        captured_start_groups: (old(ctx).round.captured_start_groups + old(
                            ctx,
                        ).remaining_accounts@.len()) as u64,
                        ..old(ctx).round
                    },
                    ..*old(ctx)
                }
            },
            Err(e) => old(ctx).spec_refusal() == Some(e) && *final(ctx) == *old(ctx),
        },
        r is Ok && old(ctx).round.wf() ==> final(ctx).round.wf(),
{
    ctx.validate()?;
    let count = ctx.remaining_accounts.len();
    if count == 0 || count > MAX_REMAINING_ACCOUNTS {
        return Err(GoldRushError::InvalidRemainingAccountsLength);
    }
    let groups = check_group_records(
        &ctx.remaining_accounts,
        &ctx.round_key,
        &ctx.program_id,
        GoldRushError::InvalidGroupAssetAccount,
        GoldRushError::InvalidGroupAssetAccount,
    )?;
    check_confirmed(&groups)?;
    let captured = match ctx.round.captured_start_groups.checked_add(count as u64) {
        Some(c) => c,
        None => {
            return Err(GoldRushError::Overflow);
        },
    };
    ctx.round.captured_start_groups = captured;
    Ok(())
}

} // verus!
