//! Adding a group to a round.

use vstd::prelude::*;
use crate::address::Address;
use crate::constants::ContractStatus;
use crate::error::GoldRushError;
use crate::state::config::Config;
use crate::state::group_asset::GroupAsset;
use crate::state::round::Round;

verus! {

/// What is handed in to add a group to a round.
#[derive(Debug)]
pub struct InsertGroupAsset {
    pub signer: Address,
    pub config: Config,
    pub round: Round,
    /// Address of the round record.
    pub round_key: Address,
    /// Bump seed of the new group record.
    pub bump: u8,
    /// The current time.
    pub now: i64,
}

/// A group as it is added: numbered, named, and without members.
pub open spec fn new_group(id: u64, symbol: [u8; 8], ctx: InsertGroupAsset) -> GroupAsset {
    GroupAsset {
        id,
        round: ctx.round_key,
        symbol,
        total_assets: 0,
        finalized_start_price_assets: 0,
        captured_end_price_assets: 0,
        finalized_end_price_assets: 0,
        total_final_price: 0,
        total_growth_rate_bps: 0,
        avg_growth_rate_bps: None,
        created_at: ctx.now,
        start_price_at: None,
        finalized_price_at: None,
        bump: ctx.bump,
    }
}

impl InsertGroupAsset {
    /// Groups are added unless the engine is paused.
    pub open spec fn spec_validate(&self) -> Result<(), GoldRushError> {
        if self.config.status != ContractStatus::Active && self.config.status
            != ContractStatus::EmergencyPaused {
            Err(GoldRushError::ProgramPaused)
        } else {
            Ok(())
        }
    }

    /// Checks that the engine is not paused.
    pub fn validate(&self) -> (r: Result<(), GoldRushError>)
        ensures
            r == self.spec_validate(),
    {
        if self.config.status != ContractStatus::Active && self.config.status
            != ContractStatus::EmergencyPaused {
            return Err(GoldRushError::ProgramPaused);
        }
        Ok(())
    }

    /// The group that is added, or why none is: the engine is paused, or
    /// the round's group counter is exhausted.
    pub open spec fn spec_handler(&self, symbol: [u8; 8]) -> Result<GroupAsset, GoldRushError> {
        if self.spec_validate() is Err {
            Err(self.spec_validate()->Err_0)
        } else if self.round.total_groups + 1 > u64::MAX {
            Err(GoldRushError::Overflow)
        } else {
            Ok(new_group((self.round.total_groups + 1) as u64, symbol, *self))
        }
    }
}

/// Adds a group to a round: the group gets the next number of the round,
/// and the round counts it. On failure nothing has changed.
pub fn handler(ctx: &mut InsertGroupAsset, symbol: [u8; 8]) -> (r: Result<GroupAsset, GoldRushError>)
    ensures
        r == old(ctx).spec_handler(symbol),
        match r {
            Ok(group) => *final(ctx) == InsertGroupAsset {
                round: Round { total_groups: group.id, ..old(ctx).round },
                ..*old(ctx)
            },
            Err(_) => *final(ctx) == *old(ctx),
        },
        r is Ok && old(ctx).round.wf() ==> final(ctx).round.wf(),
{
    ctx.validate()?;
    let id = match ctx.round.total_groups.checked_add(1) {
        Some(id) => id,
        None => {
            return Err(GoldRushError::Overflow);
        },
    };
    let group = GroupAsset {
        id,
        round: ctx.round_key,
        symbol,
        total_assets: 0,
        finalized_start_price_assets: 0,
        captured_end_price_assets: 0,
        finalized_end_price_assets: 0,
        total_final_price: 0,
        total_growth_rate_bps: 0,
        avg_growth_rate_bps: None,
        created_at: ctx.now,
        start_price_at: None,
        finalized_price_at: None,
        bump: ctx.bump,
    };
    ctx.round.total_groups = id;
    Ok(group)
}

} // verus!
