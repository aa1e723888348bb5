//! Working the growth of a group's assets into the group's totals.

use vstd::prelude::*;
use crate::address::Address;
use crate::constants::{ContractStatus, MarketType, RoundStatus, HUNDRED_PERCENT_BPS, MAX_REMAINING_ACCOUNTS};
use crate::error::GoldRushError;
use crate::state::asset::Asset;
use crate::state::config::Config;
use crate::state::group_asset::GroupAsset;
use crate::state::record::{asset_faults, check_asset_records, decoded_assets, first_fault, RecordHandle};
use crate::state::round::Round;
use crate::utils::math::{spec_trunc_div, trunc_div};

verus! {

/// What a keeper hands in to finalize assets of a group.
#[derive(Debug)]
pub struct FinalizeEndGroupAsset {
    pub signer: Address,
    pub config: Config,
    pub round: Round,
    /// Address of the round record.
    pub round_key: Address,
    pub group_asset: GroupAsset,
    /// Address of the group record.
    pub group_asset_key: Address,
    /// The engine's own address, which owns every record.
    pub program_id: Address,
    /// The assets of this batch.
    pub remaining_accounts: Vec<RecordHandle<Asset>>,
    /// The current time.
    pub now: i64,
}

/// The growth of a price in basis points, `(final - start) * 10000 / start`,
/// rounded toward zero.
pub open spec fn spec_growth_rate_bps(start_price: u64, final_price: u64) -> int {
    spec_trunc_div((final_price - start_price) * (HUNDRED_PERCENT_BPS as int), start_price as int)
}

/// Computes the growth of a price in basis points. Fails with `Overflow`
/// exactly when the rate does not fit in 64 signed bits.
pub fn growth_rate_bps(start_price: u64, final_price: u64) -> (r: Result<i64, GoldRushError>)
    requires
        start_price > 0,
    ensures
        match r {
            Ok(rate) => rate == spec_growth_rate_bps(start_price, final_price),
            Err(e) => e == GoldRushError::Overflow && !(i64::MIN <= spec_growth_rate_bps(
                start_price,
                final_price,
            ) <= i64::MAX),
        },
{
    let numerator: i128 = final_price as i128 - start_price as i128;
    let scaled: i128 = numerator * 10_000;
    let rate: i128 = trunc_div(scaled, start_price as i128);
    if rate < i64::MIN as i128 || rate > i64::MAX as i128 {
        Err(GoldRushError::Overflow)
    } else {
        Ok(rate as i64)
    }
}

/// Whether an asset still awaits its growth rate.
pub open spec fn is_pending(asset: Asset) -> bool {
    asset.growth_rate_bps is None
}

/// What keeps an asset from being finalized: a price that is missing or
/// zero, or a growth rate out of range. An asset that has its growth rate is
/// passed over, so nothing is wrong with it.
pub open spec fn growth_fault(asset: Asset) -> Option<GoldRushError> {
    if !is_pending(asset) {
        None
    } else if asset.start_price is None || asset.start_price->0 == 0 {
        Some(GoldRushError::InvalidAssetPrice)
    } else if asset.final_price is None || asset.final_price->0 == 0 {
        Some(GoldRushError::InvalidAssetPrice)
    } else if !(i64::MIN <= spec_growth_rate_bps(asset.start_price->0, asset.final_price->0)
        <= i64::MAX) {
        Some(GoldRushError::Overflow)
    } else {
        None
    }
}

/// The asset once finalized at `now`. An asset that has its growth rate
/// stays as it is.
pub open spec fn finalized_asset(asset: Asset, now: i64) -> Asset {
    if is_pending(asset) {
        Asset {
            growth_rate_bps: Some(
                spec_growth_rate_bps(asset.start_price->0, asset.final_price->0) as i64,
            ),
            finalized_at: Some(now),
            ..asset
        }
    } else {
        asset
    }
}

/// Finalizes one asset: computes its growth rate unless it has one.
pub fn finalize_asset(asset: &Asset, now: i64) -> (r: Result<Asset, GoldRushError>)
    ensures
        match r {
            Ok(done) => growth_fault(*asset) is None && done == finalized_asset(*asset, now),
            Err(e) => growth_fault(*asset) == Some(e),
        },
{
    if asset.growth_rate_bps.is_some() {
        return Ok(*asset);
    }
    let start_price = match asset.start_price {
        Some(p) => p,
        None => {
            return Err(GoldRushError::InvalidAssetPrice);
        },
    };
    if start_price == 0 {
        return Err(GoldRushError::InvalidAssetPrice);
    }
    let final_price = match asset.final_price {
        Some(p) => p,
        None => {
            return Err(GoldRushError::InvalidAssetPrice);
        },
    };
    if final_price == 0 {
        return Err(GoldRushError::InvalidAssetPrice);
    }
    let rate = growth_rate_bps(start_price, final_price)?;
    let mut done = *asset;
    done.growth_rate_bps = Some(rate);
    done.finalized_at = Some(now);
    Ok(done)
}

/// What a batch of assets adds to the totals of its group.
pub struct GrowthTally {
    pub final_price: int,
    pub growth_rate_bps: int,
    pub count: int,
}

/// What a batch of assets adds to the totals of its group: the final price
/// and the growth rate of each asset that still awaited its growth rate.
pub open spec fn tally(assets: Seq<Asset>) -> GrowthTally
    decreases assets.len(),
{
    if assets.len() == 0 {
        GrowthTally { final_price: 0, growth_rate_bps: 0, count: 0 }
    } else {
        let before = tally(assets.drop_last());
        let asset = assets.last();
        if is_pending(asset) {
            GrowthTally {
                final_price: before.final_price + asset.final_price->0,
                growth_rate_bps: before.growth_rate_bps + spec_growth_rate_bps(
                    asset.start_price->0,
                    asset.final_price->0,
                ),
                count: before.count + 1,
            }
        } else {
            before
        }
    }
}

/// The faults of a batch of assets to finalize, asset by asset.
pub open spec fn growth_faults(assets: Seq<Asset>) -> Seq<Option<GoldRushError>> {
    Seq::new(assets.len(), |i: int| growth_fault(assets[i]))
}

/// A batch of assets, each finalized at `now`.
pub open spec fn finalized_assets(assets: Seq<Asset>, now: i64) -> Seq<Asset> {
    Seq::new(assets.len(), |i: int| finalized_asset(assets[i], now))
}

/// The average growth of a group, rounded toward zero.
pub open spec fn spec_average(total_growth_rate_bps: i64, count: u64) -> int {
    spec_trunc_div(total_growth_rate_bps as int, count as int)
}

/// The group once a batch has been added to its totals; the average is set
/// as soon as every member is in.
pub open spec fn group_after(group: GroupAsset, added: GrowthTally) -> GroupAsset {
    let count = (group.finalized_end_price_assets + added.count) as u64;
    let growth = (group.total_growth_rate_bps + added.growth_rate_bps) as i64;
    GroupAsset {
        total_final_price: (group.total_final_price + added.final_price) as u64,
        total_growth_rate_bps: growth,
        finalized_end_price_assets: count,
        avg_growth_rate_bps: if count >= group.total_assets && count > 0 {
            Some(spec_average(growth, count) as i64)
        } else {
            group.avg_growth_rate_bps
        },
        ..group
    }
}

/// Whether a total would leave the range of its machine integer.
pub open spec fn tally_overflows(group: GroupAsset, added: GrowthTally) -> bool {
    ||| group.total_final_price + added.final_price > u64::MAX
    ||| !(i64::MIN <= group.total_growth_rate_bps + added.growth_rate_bps <= i64::MAX)
    ||| group.finalized_end_price_assets + added.count > u64::MAX
}

/// The result of finalizing a batch of assets, as a value of the model.
pub struct GroupFinalization {
    pub group_asset: GroupAsset,
    pub assets: Seq<Asset>,
}

impl FinalizeEndGroupAsset {
    /// Who may finalize assets of which group when: the first rule broken
    /// decides the error.
    pub open spec fn spec_validate(&self) -> Result<(), GoldRushError> {
        if self.config.status != ContractStatus::Active && self.config.status
            != ContractStatus::EmergencyPaused {
            Err(GoldRushError::ProgramPaused)
        } else if !self.config.keeper_authorities@.contains(self.signer) {
            Err(GoldRushError::UnauthorizedKeeper)
        } else if self.round.status != RoundStatus::Active {
            Err(GoldRushError::InvalidRoundStatus)
        } else if self.round.market_type != MarketType::GroupBattle {
            Err(GoldRushError::InvalidRoundMarketType)
        } else if self.now < self.round.end_time {
            Err(GoldRushError::RoundNotReadyForSettlement)
        } else if self.group_asset.round != self.round_key {
            Err(GoldRushError::InvalidAssetAccount)
        } else if self.group_asset.finalized_end_price_assets >= self.group_asset.total_assets {
            Err(GoldRushError::GroupAssetAlreadyFinalizedEndPrice)
        } else {
            Ok(())
        }
    }

    /// Checks that the signer may finalize assets of this group now.
    pub fn validate(&self) -> (r: Result<(), GoldRushError>)
        ensures
            r == self.spec_validate(),
    {
        if self.config.status != ContractStatus::Active && self.config.status
            != ContractStatus::EmergencyPaused {
            return Err(GoldRushError::ProgramPaused);
        }
        if !self.config.is_keeper(&self.signer) {
            return Err(GoldRushError::UnauthorizedKeeper);
        }
        if self.round.status != RoundStatus::Active {
            return Err(GoldRushError::InvalidRoundStatus);
        }
        if self.round.market_type != MarketType::GroupBattle {
            return Err(GoldRushError::InvalidRoundMarketType);
        }
        if self.now < self.round.end_time {
            return Err(GoldRushError::RoundNotReadyForSettlement);
        }
        if self.group_asset.round != self.round_key {
            return Err(GoldRushError::InvalidAssetAccount);
        }
        if self.group_asset.finalized_end_price_assets >= self.group_asset.total_assets {
            return Err(GoldRushError::GroupAssetAlreadyFinalizedEndPrice);
        }
        Ok(())
    }

    /// What finalizing the batch comes to: every handle must be a genuine
    /// asset of the group, every asset that still awaits its growth rate
    /// must have both prices, and the group's totals grow by what those
    /// assets add.
    pub open spec fn spec_handler(&self) -> Result<GroupFinalization, GoldRushError> {
        let records = self.remaining_accounts@;
        let handle_fault = first_fault(
            asset_faults(records, self.group_asset_key, self.round_key, self.program_id),
        );
        let assets = decoded_assets(records);
        if self.spec_validate() is Err {
            Err(self.spec_validate()->Err_0)
        } else if records.len() == 0 || records.len() > MAX_REMAINING_ACCOUNTS {
            Err(GoldRushError::InvalidRemainingAccountsLength)
        } else if handle_fault is Some {
            Err(handle_fault->0)
        } else if first_fault(growth_faults(assets)) is Some {
            Err(first_fault(growth_faults(assets))->0)
        } else if tally_overflows(self.group_asset, tally(assets)) {
            Err(GoldRushError::Overflow)
        } else {
            Ok(
                GroupFinalization {
                    group_asset: group_after(self.group_asset, tally(assets)),
                    assets: finalized_assets(assets, self.now),
                },
            )
        }
    }
}

/// The totals of a batch, kept in integers wide enough for any batch.
struct RunningTally {
    final_price: u128,
    growth_rate_bps: i128,
    count: u64,
}

/// Finalizes every asset of a batch and adds up what the batch adds.
fn finalize_batch(assets: &Vec<Asset>, now: i64) -> (r: Result<(Vec<Asset>, RunningTally), GoldRushError>)
    requires
        assets@.len() <= MAX_REMAINING_ACCOUNTS,
    ensures
        match r {
            Ok((done, sums)) => {
                &&& first_fault(growth_faults(assets@)) is None
                &&& done@ == finalized_assets(assets@, now)
                &&& sums.final_price == tally(assets@).final_price
                &&& sums.growth_rate_bps == tally(assets@).growth_rate_bps
                &&& sums.count == tally(assets@).count
                &&& sums.count <= MAX_REMAINING_ACCOUNTS
                &&& sums.final_price <= MAX_REMAINING_ACCOUNTS * u64::MAX
                &&& MAX_REMAINING_ACCOUNTS * i64::MIN <= sums.growth_rate_bps <= MAX_REMAINING_ACCOUNTS
                    * i64::MAX
            },
            Err(e) => first_fault(growth_faults(assets@)) == Some(e),
        },
{
    let ghost faults = growth_faults(assets@);
    let mut done: Vec<Asset> = Vec::new();
    let mut sums = RunningTally { final_price: 0, growth_rate_bps: 0, count: 0 };
    let mut i: usize = 0;
    proof {
        assert(faults.skip(0) =~= faults);
    }
    while i < assets.len()
        invariant
            i <= assets@.len() <= MAX_REMAINING_ACCOUNTS,
            faults == growth_faults(assets@),
            first_fault(faults) == first_fault(faults.skip(i as int)),
            done@.len() == i,
            forall|j: int| 0 <= j < i ==> done@[j] == finalized_asset(assets@[j], now),
            sums.final_price == tally(assets@.take(i as int)).final_price,
            sums.growth_rate_bps == tally(assets@.take(i as int)).growth_rate_bps,
            sums.count == tally(assets@.take(i as int)).count,
            sums.count <= i,
            sums.final_price <= i * u64::MAX,
            i * i64::MIN <= sums.growth_rate_bps <= i * i64::MAX,
        decreases assets@.len() - i,
    {
        proof {
            assert(faults.skip(i as int).drop_first() =~= faults.skip(i + 1));
            assert(assets@.take(i + 1).drop_last() =~= assets@.take(i as int));
        }
        let asset = assets[i];
        let finalized = finalize_asset(&asset, now)?;
        if asset.growth_rate_bps.is_none() {
            match (finalized.final_price, finalized.growth_rate_bps) {
                (Some(price), Some(rate)) => {
                    sums.final_price = sums.final_price + price as u128;
                    sums.growth_rate_bps = sums.growth_rate_bps + rate as i128;
                    sums.count = sums.count + 1;
                },
                _ => {},
            }
        }
        done.push(finalized);
        i += 1;
    }
    proof {
        assert(assets@.take(i as int) =~= assets@);
    }
    Ok((done, sums))
}

/// Finalizes a batch of assets of a group: each asset that still awaits its
/// growth rate gets it, and the group's totals grow by what those assets
/// add. Returns the assets of the batch as they are to be written back. On
/// failure nothing has changed.
pub fn handler(ctx: &mut FinalizeEndGroupAsset) -> (r: Result<Vec<Asset>, GoldRushError>)
    ensures
        match r {
            Ok(assets) => {
                &&& old(ctx).spec_handler() matches Ok(finalization)
                &&& assets@ == finalization.assets
                &&& *final(ctx) == FinalizeEndGroupAsset { group_asset: finalization.group_asset, ..*old(ctx) }
            },
            Err(e) => old(ctx).spec_handler() == Err::<GroupFinalization, GoldRushError>(e) && *final(ctx)
                == *old(ctx),
        },
{
    ctx.validate()?;
    let count = ctx.remaining_accounts.len();
    if count == 0 || count > MAX_REMAINING_ACCOUNTS {
        return Err(GoldRushError::InvalidRemainingAccountsLength);
    }
    let assets = check_asset_records(
        &ctx.remaining_accounts,
        &ctx.group_asset_key,
        &ctx.round_key,
        &ctx.program_id,
    )?;
    let (done, sums) = finalize_batch(&assets, ctx.now)?;
    let total_final_price: u128 = ctx.group_asset.total_final_price as u128 + sums.final_price;
    let total_growth: i128 = ctx.group_asset.total_growth_rate_bps as i128 + sums.growth_rate_bps;
    let finalized: u128 = ctx.group_asset.finalized_end_price_assets as u128 + sums.count as u128;
    if total_final_price > u64::MAX as u128 || total_growth < i64::MIN as i128 || total_growth
        > i64::MAX as i128 || finalized > u64::MAX as u128 {
        return Err(GoldRushError::Overflow);
    }
    ctx.group_asset.total_final_price = total_final_price as u64;
    ctx.group_asset.total_growth_rate_bps = total_growth as i64;
    ctx.group_asset.finalized_end_price_assets = finalized as u64;
    if ctx.group_asset.finalized_end_price_assets >= ctx.group_asset.total_assets && finalized > 0 {
        let average: i128 = trunc_div(total_growth, finalized as i128);
        proof {
            let t = total_growth as int;
            let c = finalized as int;
            assert(i64::MIN <= spec_trunc_div(t, c) <= i64::MAX) by (nonlinear_arith)
                requires
                    i64::MIN <= t <= i64::MAX,
                    c >= 1,
            ;
        }
        ctx.group_asset.avg_growth_rate_bps = Some(average as i64);
    }
    Ok(done)
}

} // verus!
