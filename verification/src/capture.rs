//! Capturing oracle prices into assets. A price is captured once: an asset
//! that has the price keeps it.

use vstd::prelude::*;
use crate::error::GoldRushError;
use crate::state::asset::Asset;
use crate::state::oracle::PriceUpdate;
use crate::state::record::first_fault;
use crate::utils::price::{normalize_price_to_u64, spec_normalize_price};

verus! {

/// Which price of an asset is being captured.
#[derive(Clone, Copy, Debug, PartialEq, Eq, Structural)]
pub enum PricePhase {
    Start,
    End,
}

/// Whether two feed ids are the same.
pub fn same_feed(a: &[u8; 32], b: &[u8; 32]) -> (r: bool)
    ensures
        r == (*a == *b),
{
    let mut i: usize = 0;
    while i < 32
        invariant
            i <= 32,
            forall|k: int| 0 <= k < i ==> a[k] == b[k],
        decreases 32 - i,
    {
        if a[i] != b[i] {
            return false;
        }
        i += 1;
    }
    proof {
        assert(*a =~= *b);
    }
    true
}

/// The normalized price an update carries for the feed `feed_id`: the
/// update must have decoded, must be of that feed and must hold a price.
pub open spec fn spec_read_price(feed_id: [u8; 32], update: Option<PriceUpdate>) -> Result<u64, GoldRushError> {
    match update {
        None => Err(GoldRushError::InvalidPriceUpdateAccountData),
        Some(u) => if u.feed_id != feed_id {
            Err(GoldRushError::InvalidPriceFeedAccount)
        } else {
            match u.price {
                None => Err(GoldRushError::PythError),
                Some(quote) => spec_normalize_price(quote.price, quote.exponent),
            }
        },
    }
}

/// Reads the normalized price an update carries for the feed `feed_id`.
pub fn read_price(feed_id: &[u8; 32], update: &Option<PriceUpdate>) -> (r: Result<u64, GoldRushError>)
    ensures
        r == spec_read_price(*feed_id, *update),
{
    match update {
        None => Err(GoldRushError::InvalidPriceUpdateAccountData),
        Some(u) => {
            if !same_feed(&u.feed_id, feed_id) {
                return Err(GoldRushError::InvalidPriceFeedAccount);
            }
            match u.price {
                None => Err(GoldRushError::PythError),
                Some(quote) => normalize_price_to_u64(quote.price, quote.exponent),
            }
        },
    }
}

/// The price of the phase as the asset holds it.
pub open spec fn held_price(asset: Asset, phase: PricePhase) -> Option<u64> {
    match phase {
        PricePhase::Start => asset.start_price,
        PricePhase::End => asset.final_price,
    }
}

/// Whether the capture writes a price into the asset.
pub open spec fn is_fresh(asset: Asset, phase: PricePhase) -> bool {
    held_price(asset, phase) is None
}

/// The asset after a capture of the price `read`, or why the capture fails:
/// the reading failed, or the price is zero. An asset that has the price of
/// the phase is left as it is.
pub open spec fn spec_capture(asset: Asset, phase: PricePhase, read: Result<u64, GoldRushError>) -> Result<
    Asset,
    GoldRushError,
> {
    match read {
        Err(e) => Err(e),
        Ok(price) => if !is_fresh(asset, phase) {
            Ok(asset)
        } else if price == 0 {
            Err(GoldRushError::InvalidAssetPrice)
        } else {
            Ok(
                match phase {
                    PricePhase::Start => Asset { start_price: Some(price), ..asset },
                    PricePhase::End => Asset { final_price: Some(price), ..asset },
                },
            )
        },
    }
}

/// Captures the price of an update into an asset.
pub fn capture(asset: &Asset, phase: PricePhase, update: &Option<PriceUpdate>) -> (r: Result<
    Asset,
    GoldRushError,
>)
    ensures
        r == spec_capture(*asset, phase, spec_read_price(asset.feed_id, *update)),
{
    let price = read_price(&asset.feed_id, update)?;
    let held = match phase {
        PricePhase::Start => asset.start_price,
        PricePhase::End => asset.final_price,
    };
    if held.is_some() {
        return Ok(*asset);
    }
    if price == 0 {
        return Err(GoldRushError::InvalidAssetPrice);
    }
    let mut captured = *asset;
    match phase {
        PricePhase::Start => {
            captured.start_price = Some(price);
        },
        PricePhase::End => {
            captured.final_price = Some(price);
        },
    }
    Ok(captured)
}

/// What each pair of a batch comes to: the asset after the capture, or the
/// error.
pub open spec fn captures(assets: Seq<Asset>, updates: Seq<Option<PriceUpdate>>, phase: PricePhase) -> Seq<
    Result<Asset, GoldRushError>,
> {
    Seq::new(
        assets.len(),
        |i: int| spec_capture(assets[i], phase, spec_read_price(assets[i].feed_id, updates[i])),
    )
}

/// The faults of a batch of captures, pair by pair.
pub open spec fn capture_faults(assets: Seq<Asset>, updates: Seq<Option<PriceUpdate>>, phase: PricePhase) -> Seq<
    Option<GoldRushError>,
> {
    Seq::new(
        assets.len(),
        |i: int|
            match captures(assets, updates, phase)[i] {
                Ok(_) => None,
                Err(e) => Some(e),
            },
    )
}

/// The assets of a batch after their captures.
pub open spec fn captured_assets(assets: Seq<Asset>, updates: Seq<Option<PriceUpdate>>, phase: PricePhase) -> Seq<
    Asset,
> {
    Seq::new(assets.len(), |i: int| captures(assets, updates, phase)[i]->Ok_0)
}

/// The number of assets of a batch that had no price of the phase.
pub open spec fn fresh_count(assets: Seq<Asset>, phase: PricePhase) -> int
    decreases assets.len(),
{
    if assets.len() == 0 {
        0
    } else {
        fresh_count(assets.drop_last(), phase) + if is_fresh(assets.last(), phase) {
            1int
        } else {
            0int
        }
    }
}

/// Captures a batch of prices, pair by pair. The first pair that fails
/// decides the error. Also counts the assets that got their price by it.
pub fn capture_batch(assets: &Vec<Asset>, updates: &Vec<Option<PriceUpdate>>, phase: PricePhase) -> (r: Result<
    (Vec<Asset>, usize),
    GoldRushError,
>)
    requires
        assets@.len() == updates@.len(),
    ensures
        match r {
            Ok((captured, fresh)) => {
                &&& first_fault(capture_faults(assets@, updates@, phase)) is None
                &&& captured@ == captured_assets(assets@, updates@, phase)
                &&& fresh == fresh_count(assets@, phase)
            },
            Err(e) => first_fault(capture_faults(assets@, updates@, phase)) == Some(e),
        },
{
    let ghost faults = capture_faults(assets@, updates@, phase);
    let mut captured: Vec<Asset> = Vec::new();
    let mut fresh: usize = 0;
    let mut i: usize = 0;
    proof {
        assert(faults.skip(0) =~= faults);
    }
    while i < assets.len()
        invariant
            i <= assets@.len() == updates@.len(),
            faults == capture_faults(assets@, updates@, phase),
            first_fault(faults) == first_fault(faults.skip(i as int)),
            captured@.len() == i,
            forall|j: int| 0 <= j < i ==> captures(assets@, updates@, phase)[j] == Ok::<
                Asset,
                GoldRushError,
            >(captured@[j]),
            fresh == fresh_count(assets@.take(i as int), phase),
            fresh <= i,
        decreases assets@.len() - i,
    {
        proof {
            assert(faults.skip(i as int).drop_first() =~= faults.skip(i + 1));
            assert(assets@.take(i + 1).drop_last() =~= assets@.take(i as int));
        }
        let asset = assets[i];
        let after = capture(&asset, phase, &updates[i])?;
        let held = match phase {
            PricePhase::Start => asset.start_price,
            PricePhase::End => asset.final_price,
        };
        if held.is_none() {
            fresh += 1;
        }
        captured.push(after);
        i += 1;
    }
    proof {
        assert(assets@.take(i as int) =~= assets@);
    }
    Ok((captured, fresh))
}

} // verus!
