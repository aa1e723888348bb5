//! Capturing the start prices of a group's assets.

use vstd::prelude::*;
use crate::address::Address;
use crate::capture::{capture_batch, capture_faults, captured_assets, PricePhase};
use crate::constants::{ContractStatus, MAX_REMAINING_ACCOUNTS};
use crate::error::GoldRushError;
use crate::state::asset::Asset;
use crate::state::config::Config;
use crate::state::group_asset::GroupAsset;
use crate::state::oracle::PriceUpdate;
use crate::state::record::{asset_faults, check_asset_records, decoded_assets, first_fault, RecordHandle};
use crate::state::round::Round;

verus! {

/// What is handed in to capture start prices.
#[derive(Debug)]
pub struct CaptureStartPrice {
    pub signer: Address,
    pub config: Config,
    pub round: Round,
    /// Address of the round record.
    pub round_key: Address,
    pub group_asset: GroupAsset,
    /// Address of the group record.
    pub group_asset_key: Address,
    /// The engine's own address, which owns every record.
    pub program_id: Address,
    /// The assets of this batch.
    pub remaining_accounts: Vec<RecordHandle<Asset>>,
    /// The oracle's update for each asset of the batch, in the same order,
    /// read as of `now`; `None` where the update did not decode.
    pub price_updates: Vec<Option<PriceUpdate>>,
    /// The current time.
    pub now: i64,
}

impl CaptureStartPrice {
    /// Start prices are captured unless the engine is paused.
    pub open spec fn spec_validate(&self) -> Result<(), GoldRushError> {
        if self.config.status != ContractStatus::Active && self.config.status
            != ContractStatus::EmergencyPaused {
            Err(GoldRushError::ProgramPaused)
        } else {
            Ok(())
        }
    }

    /// Checks that the engine is not paused.
    pub fn validate(&self) -> (r: Result<(), GoldRushError>)
        ensures
            r == self.spec_validate(),
    {
        if self.config.status != ContractStatus::Active && self.config.status
            != ContractStatus::EmergencyPaused {
            return Err(GoldRushError::ProgramPaused);
        }
        Ok(())
    }

    /// What the capture comes to: there must be one update per asset, every
    /// handle must be a genuine asset of the group, and every asset without
    /// a start price gets the positive price its update carries.
    pub open spec fn spec_handler(&self) -> Result<Seq<Asset>, GoldRushError> {
        let records = self.remaining_accounts@;
        let updates = self.price_updates@;
        let handle_fault = first_fault(
            asset_faults(records, self.group_asset_key, self.round_key, self.program_id),
        );
        let assets = decoded_assets(records);
        let capture_fault = first_fault(capture_faults(assets, updates, PricePhase::Start));
        if self.spec_validate() is Err {
            Err(self.spec_validate()->Err_0)
        } else if records.len() != updates.len() || records.len() + updates.len()
            > MAX_REMAINING_ACCOUNTS {
            Err(GoldRushError::InvalidRemainingAccountsLength)
        } else if handle_fault is Some {
            Err(handle_fault->0)
        } else if capture_fault is Some {
            Err(capture_fault->0)
        } else {
            Ok(captured_assets(assets, updates, PricePhase::Start))
        }
    }
}

/// Captures the start prices of a batch of assets. Returns the assets of the
/// batch as they are to be written back.
pub fn handler(ctx: &CaptureStartPrice) -> (r: Result<Vec<Asset>, GoldRushError>)
    ensures
        match r {
            Ok(assets) => ctx.spec_handler() matches Ok(captured) && assets@ == captured,
            Err(e) => ctx.spec_handler() == Err::<Seq<Asset>, GoldRushError>(e),
        },
{
    ctx.validate()?;
    let count = ctx.remaining_accounts.len();
    if count != ctx.price_updates.len() || count > MAX_REMAINING_ACCOUNTS / 2 {
        return Err(GoldRushError::InvalidRemainingAccountsLength);
    }
    let assets = check_asset_records(
        &ctx.remaining_accounts,
        &ctx.group_asset_key,
        &ctx.round_key,
        &ctx.program_id,
    )?;
    let (captured, _) = capture_batch(&assets, &ctx.price_updates, PricePhase::Start)?;
    Ok(captured)
}

} // verus!
