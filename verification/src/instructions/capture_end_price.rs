//! Capturing the final prices of a group's assets.

use vstd::prelude::*;
use crate::address::Address;
use crate::capture::{capture_batch, capture_faults, captured_assets, fresh_count, PricePhase};
use crate::constants::{ContractStatus, MarketType, RoundStatus, MAX_REMAINING_ACCOUNTS};
use crate::error::GoldRushError;
use crate::state::asset::Asset;
use crate::state::config::Config;
use crate::state::group_asset::GroupAsset;
use crate::state::oracle::PriceUpdate;
use crate::state::record::{asset_faults, check_asset_records, decoded_assets, first_fault, RecordHandle};
use crate::state::round::Round;

verus! {

/// What a keeper hands in to capture final prices.
#[derive(Debug)]
pub struct CaptureEndPrice {
    pub signer: Address,
    pub config: Config,
    pub round: Round,
    /// Address of the round record.
    pub round_key: Address,
    pub group_asset: GroupAsset,
    /// Address of the group record.
    pub group_asset_key: Address,
    /// The engine's own address, which owns every record.
    pub program_id: Address,
    /// The assets of this batch.
    pub remaining_accounts: Vec<RecordHandle<Asset>>,
    /// The oracle's update for each asset of the batch, in the same order,
    /// read as of `reference_time`; `None` where the update did not decode.
    pub price_updates: Vec<Option<PriceUpdate>>,
    /// The current time.
    pub now: i64,
}

/// The result of a capture, as a value of the model.
pub struct Capture {
    pub group_asset: GroupAsset,
    pub assets: Seq<Asset>,
}

impl CaptureEndPrice {
    /// The instant the final prices of the group are read as of: that of
    /// the group's first capture, so that every asset of the group is priced
    /// at the same moment.
    pub open spec fn spec_reference_time(&self) -> i64 {
        match self.group_asset.finalized_price_at {
            Some(at) => at,
            None => self.now,
        }
    }

    /// The instant to read the oracle as of.
    pub fn reference_time(&self) -> (at: i64)
        ensures
            at == self.spec_reference_time(),
    {
        match self.group_asset.finalized_price_at {
            Some(at) => at,
            None => self.now,
        }
    }

    /// Who may capture final prices of which group when: the first rule
    /// broken decides the error.
    pub open spec fn spec_validate(&self) -> Result<(), GoldRushError> {
        if self.config.status != ContractStatus::Active && self.config.status
            != ContractStatus::EmergencyPaused {
            Err(GoldRushError::ProgramPaused)
        } else if !self.config.keeper_authorities@.contains(self.signer) {
            Err(GoldRushError::UnauthorizedKeeper)
        } else if self.round.status != RoundStatus::Active {
            Err(GoldRushError::InvalidRoundStatus)
        } else if self.round.market_type != MarketType::GroupBattle {
            Err(GoldRushError::InvalidRoundMarketType)
        } else if self.now < self.round.end_time {
            Err(GoldRushError::RoundNotReadyForSettlement)
        } else if self.group_asset.captured_end_price_assets >= self.group_asset.total_assets {
            Err(GoldRushError::GroupAssetAlreadyCapturedEndPrice)
        } else {
            Ok(())
        }
    }

    /// Checks that the signer may capture final prices of this group now.
    pub fn validate(&self) -> (r: Result<(), GoldRushError>)
        ensures
            r == self.spec_validate(),
    {
        if self.config.status != ContractStatus::Active && self.config.status
            != ContractStatus::EmergencyPaused {
            return Err(GoldRushError::ProgramPaused);
        }
        if !self.config.is_keeper(&self.signer) {
            return Err(GoldRushError::UnauthorizedKeeper);
        }
        if self.round.status != RoundStatus::Active {
            return Err(GoldRushError::InvalidRoundStatus);
        }
        if self.round.market_type != MarketType::GroupBattle {
            return Err(GoldRushError::InvalidRoundMarketType);
        }
        if self.now < self.round.end_time {
            return Err(GoldRushError::RoundNotReadyForSettlement);
        }
        if self.group_asset.captured_end_price_assets >= self.group_asset.total_assets {
            return Err(GoldRushError::GroupAssetAlreadyCapturedEndPrice);
        }
        Ok(())
    }

    /// What the capture comes to: there must be one update per asset, every
    /// handle must be a genuine asset of the group, and every asset without
    /// a final price gets the positive price its update carries. The group
    /// remembers the instant of its first capture and counts the assets
    /// that got their price.
    pub open spec fn spec_handler(&self) -> Result<Capture, GoldRushError> {
        let records = self.remaining_accounts@;
        let updates = self.price_updates@;
        let handle_fault = first_fault(
            asset_faults(records, self.group_asset_key, self.round_key, self.program_id),
        );
        let assets = decoded_assets(records);
        let capture_fault = first_fault(capture_faults(assets, updates, PricePhase::End));
        if self.spec_validate() is Err {
            Err(self.spec_validate()->Err_0)
        } else if records.len() != updates.len() || records.len() + updates.len()
            > MAX_REMAINING_ACCOUNTS {
            Err(GoldRushError::InvalidRemainingAccountsLength)
        } else if handle_fault is Some {
            Err(handle_fault->0)
        } else if capture_fault is Some {
            Err(capture_fault->0)
        } else if self.group_asset.captured_end_price_assets + fresh_count(assets, PricePhase::End)
            > u64::MAX {
            Err(GoldRushError::Overflow)
        } else {
            Ok(
                Capture {
                    group_asset: GroupAsset {
                        finalized_price_at: Some(self.spec_reference_time()),
                        captured_end_price_assets: (self.group_asset.captured_end_price_assets
                            + fresh_count(assets, PricePhase::End)) as u64,
                        ..self.group_asset
                    },
                    assets: captured_assets(assets, updates, PricePhase::End),
                },
            )
        }
    }
}

/// Captures the final prices of a batch of assets. Returns the assets of the
/// batch as they are to be written back. On failure nothing has changed.
pub fn handler(ctx: &mut CaptureEndPrice) -> (r: Result<Vec<Asset>, GoldRushError>)
    ensures
        match r {
            Ok(assets) => {
                &&& old(ctx).spec_handler() matches Ok(capture)
                &&& assets@ == capture.assets
                &&& *final(ctx) == CaptureEndPrice { group_asset: capture.group_asset, ..*old(ctx) }
            },
            Err(e) => old(ctx).spec_handler() == Err::<Capture, GoldRushError>(e) && *final(ctx) == *old(ctx),
        },
{
    ctx.validate()?;
    let count = ctx.remaining_accounts.len();
    if count != ctx.price_updates.len() || count > MAX_REMAINING_ACCOUNTS / 2 {
        return Err(GoldRushError::InvalidRemainingAccountsLength);
    }
    let assets = check_asset_records(
        &ctx.remaining_accounts,
        &ctx.group_asset_key,
        &ctx.round_key,
        &ctx.program_id,
    )?;
    let (captured, fresh) = capture_batch(&assets, &ctx.price_updates, PricePhase::End)?;
    let counted = match ctx.group_asset.captured_end_price_assets.checked_add(fresh as u64) {
        Some(c) => c,
        None => {
            return Err(GoldRushError::Overflow);
        },
    };
    let at = ctx.reference_time();
    ctx.group_asset.finalized_price_at = Some(at);
    ctx.group_asset.captured_end_price_assets = counted;
    Ok(captured)
}

} // verus!
