//! Confirming that the assets of a group have their start prices.

use vstd::prelude::*;
use crate::address::Address;
use crate::constants::{ContractStatus, MarketType, RoundStatus, MAX_REMAINING_ACCOUNTS};
use crate::error::GoldRushError;
use crate::state::asset::Asset;
use crate::state::config::Config;
use crate::state::group_asset::GroupAsset;
use crate::state::record::{asset_faults, check_asset_records, decoded_assets, first_fault, RecordHandle};
use crate::state::round::Round;

verus! {

/// What a keeper hands in to confirm the start prices of a group.
#[derive(Debug)]
pub struct FinalizeStartGroupAsset {
    pub signer: Address,
    pub config: Config,
    pub round: Round,
    /// Address of the round record.
    pub round_key: Address,
    pub group_asset: GroupAsset,
    /// Address of the group record.
    pub group_asset_key: Address,
    /// The engine's own address, which owns every record.
    pub program_id: Address,
    /// The assets of the group.
    pub remaining_accounts: Vec<RecordHandle<Asset>>,
}

/// What is wrong with the start price of an asset: there is none, or it is
/// zero.
pub open spec fn start_price_fault(asset: Asset) -> Option<GoldRushError> {
    if asset.start_price is None {
        Some(GoldRushError::InvalidAssetPrice)
    } else if asset.start_price->0 == 0 {
        Some(GoldRushError::AssetStartPriceNotSet)
    } else {
        None
    }
}

/// The faults of the start prices of a batch, asset by asset.
pub open spec fn start_price_faults(assets: Seq<Asset>) -> Seq<Option<GoldRushError>> {
    Seq::new(assets.len(), |i: int| start_price_fault(assets[i]))
}

/// Looks for the first asset of a batch without a positive start price.
pub fn check_start_prices(assets: &Vec<Asset>) -> (r: Result<(), GoldRushError>)
    ensures
        match r {
            Ok(()) => first_fault(start_price_faults(assets@)) is None,
            Err(e) => first_fault(start_price_faults(assets@)) == Some(e),
        },
{
    let ghost faults = start_price_faults(assets@);
    let mut i: usize = 0;
    proof {
        assert(faults.skip(0) =~= faults);
    }
    while i < assets.len()
        invariant
            i <= assets@.len(),
            faults == start_price_faults(assets@),
            first_fault(faults) == first_fault(faults.skip(i as int)),
        decreases assets@.len() - i,
    {
        proof {
            assert(faults.skip(i as int).drop_first() =~= faults.skip(i + 1));
        }
        match assets[i].start_price {
            None => {
                return Err(GoldRushError::InvalidAssetPrice);
            },
            Some(price) => {
                if price == 0 {
                    return Err(GoldRushError::AssetStartPriceNotSet);
                }
            },
        }
        i += 1;
    }
    Ok(())
}

impl FinalizeStartGroupAsset {
    /// Who may confirm the start prices of which group: the first rule
    /// broken decides the error.
    pub open spec fn spec_validate(&self) -> Result<(), GoldRushError> {
        if self.config.status != ContractStatus::Active && self.config.status
            != ContractStatus::EmergencyPaused {
            Err(GoldRushError::ProgramPaused)
        } else if !self.config.keeper_authorities@.contains(self.signer) {
            Err(GoldRushError::UnauthorizedKeeper)
        } else if self.round.status != RoundStatus::Scheduled {
            Err(GoldRushError::InvalidRoundStatus)
        } else if self.round.market_type != MarketType::GroupBattle {
            Err(GoldRushError::InvalidRoundStatus)
        } else if self.group_asset.round != self.round_key {
            Err(GoldRushError::InvalidAssetAccount)
        } else if self.group_asset.finalized_start_price_assets >= self.group_asset.total_assets {
            Err(GoldRushError::GroupAssetAlreadyFinalizedStartPrice)
        } else {
            Ok(())
        }
    }

    /// Checks that the signer may confirm the start prices of this group.
    pub fn validate(&self) -> (r: Result<(), GoldRushError>)
        ensures
            r == self.spec_validate(),
    {
        if self.config.status != ContractStatus::Active && self.config.status
            != ContractStatus::EmergencyPaused {
            return Err(GoldRushError::ProgramPaused);
        }
        if !self.config.is_keeper(&self.signer) {
            return Err(GoldRushError::UnauthorizedKeeper);
        }
        if self.round.status != RoundStatus::Scheduled {
            return Err(GoldRushError::InvalidRoundStatus);
        }
        if self.round.market_type != MarketType::GroupBattle {
            return Err(GoldRushError::InvalidRoundStatus);
        }
        if self.group_asset.round != self.round_key {
            return Err(GoldRushError::InvalidAssetAccount);
        }
        if self.group_asset.finalized_start_price_assets >= self.group_asset.total_assets {
            return Err(GoldRushError::GroupAssetAlreadyFinalizedStartPrice);
        }
        Ok(())
    }

    /// Why the start prices are not confirmed, if they are not: the rules
    /// refuse it, a handle is not a genuine asset of the group, or an asset
    /// has no positive start price.
    pub open spec fn spec_refusal(&self) -> Option<GoldRushError> {
        let records = self.remaining_accounts@;
        let handle_fault = first_fault(
            asset_faults(records, self.group_asset_key, self.round_key, self.program_id),
        );
        if self.spec_validate() is Err {
            Some(self.spec_validate()->Err_0)
        } else if records.len() == 0 || records.len() > MAX_REMAINING_ACCOUNTS {
            Some(GoldRushError::InvalidRemainingAccountsLength)
        } else if handle_fault is Some {
            handle_fault
        } else {
            first_fault(start_price_faults(decoded_assets(records)))
        }
    }
}

/// Confirms the start prices of a group: every asset handed in has one, and
/// the group counts all its members as confirmed. On failure nothing has
/// changed.
pub fn handler(ctx: &mut FinalizeStartGroupAsset) -> (r: Result<(), GoldRushError>)
    ensures
        match r {
            Ok(()) => {
                &&& old(ctx).spec_refusal() is None
                &&& *final(ctx) == FinalizeStartGroupAsset {
                    group_asset: GroupAsset {
                        finalized_start_price_assets: old(ctx).group_asset.total_assets,
                        ..old(ctx).group_asset
                    },
                    ..*old(ctx)
                }
            },
            Err(e) => old(ctx).spec_refusal() == Some(e) && *final(ctx) == *old(ctx),
        },
{
    ctx.validate()?;
    let count = ctx.remaining_accounts.len();
    if count == 0 || count > MAX_REMAINING_ACCOUNTS {
        return Err(GoldRushError::InvalidRemainingAccountsLength);
    }
    let assets = check_asset_records(
        &ctx.remaining_accounts,
        &ctx.group_asset_key,
        &ctx.round_key,
        &ctx.program_id,
    )?;
    check_start_prices(&assets)?;
    ctx.group_asset.finalized_start_price_assets = ctx.group_asset.total_assets;
    Ok(())
}

} // verus!
