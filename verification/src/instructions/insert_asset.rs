//! Adding an asset to a group.

use vstd::prelude::*;
use crate::address::Address;
use crate::constants::{ContractStatus, MAX_ASSETS_IN_GROUP};
use crate::error::GoldRushError;
use crate::state::asset::Asset;
use crate::state::config::Config;
use crate::state::group_asset::GroupAsset;
use crate::state::round::Round;

verus! {

/// What the administrator hands in to add an asset to a group.
#[derive(Debug)]
pub struct InsertAsset {
    pub signer: Address,
    pub config: Config,
    pub round: Round,
    /// Address of the round record.
    pub round_key: Address,
    pub group_asset: GroupAsset,
    /// Address of the group record.
    pub group_asset_key: Address,
    /// The oracle feed that prices the asset.
    pub feed_id: [u8; 32],
    /// Bump seed of the new asset record.
    pub bump: u8,
    /// The current time.
    pub now: i64,
}

/// An asset as it is added: numbered, named, and without prices.
pub open spec fn new_asset(id: u64, symbol: [u8; 8], ctx: InsertAsset) -> Asset {
    Asset {
        id,
        group: ctx.group_asset_key,
        round: ctx.round_key,
        feed_id: ctx.feed_id,
        symbol,
        start_price: None,
        final_price: None,
        growth_rate_bps: None,
        created_at: ctx.now,
        started_price_at: None,
        finalized_at: None,
        bump: ctx.bump,
    }
}

impl InsertAsset {
    /// Who may add an asset to which group: the first rule broken decides
    /// the error. A group holds a bounded number of assets.
    pub open spec fn spec_validate(&self) -> Result<(), GoldRushError> {
        if self.config.status != ContractStatus::Active && self.config.status
            != ContractStatus::EmergencyPaused {
            Err(GoldRushError::ProgramPaused)
        } else if self.signer != self.config.admin {
            Err(GoldRushError::Unauthorized)
        } else if self.group_asset.total_assets >= MAX_ASSETS_IN_GROUP {
            Err(GoldRushError::MaxAssetsReached)
        } else {
            Ok(())
        }
    }

    /// Checks that the signer may add an asset to this group.
    pub fn validate(&self) -> (r: Result<(), GoldRushError>)
        ensures
            r == self.spec_validate(),
    {
        if self.config.status != ContractStatus::Active && self.config.status
            != ContractStatus::EmergencyPaused {
            return Err(GoldRushError::ProgramPaused);
        }
        if !self.config.is_admin(&self.signer) {
            return Err(GoldRushError::Unauthorized);
        }
        if self.group_asset.total_assets >= MAX_ASSETS_IN_GROUP as u64 {
            return Err(GoldRushError::MaxAssetsReached);
        }
        Ok(())
    }

    /// The asset that is added, or why none is.
    pub open spec fn spec_handler(&self, symbol: [u8; 8]) -> Result<Asset, GoldRushError> {
        if self.spec_validate() is Err {
            Err(self.spec_validate()->Err_0)
        } else {
            Ok(new_asset((self.group_asset.total_assets + 1) as u64, symbol, *self))
        }
    }
}

/// Adds an asset to a group: the asset gets the next number of the group,
/// and the group counts it. On failure nothing has changed.
pub fn handler(ctx: &mut InsertAsset, symbol: [u8; 8]) -> (r: Result<Asset, GoldRushError>)
    ensures
        r == old(ctx).spec_handler(symbol),
        match r {
            Ok(asset) => *final(ctx) == InsertAsset {
                group_asset: GroupAsset { total_assets: asset.id, ..old(ctx).group_asset },
                ..*old(ctx)
            },
            Err(_) => *final(ctx) == *old(ctx),
        },
{
    ctx.validate()?;
    let id = ctx.group_asset.total_assets + 1;
    let asset = Asset {
        id,
        group: ctx.group_asset_key,
        round: ctx.round_key,
        feed_id: ctx.feed_id,
        symbol,
        start_price: None,
        final_price: None,
        growth_rate_bps: None,
        created_at: ctx.now,
        started_price_at: None,
        finalized_at: None,
        bump: ctx.bump,
    };
    ctx.group_asset.total_assets = id;
    Ok(asset)
}

} // verus!
