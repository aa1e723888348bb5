//! One competing group of a group-battle round.

use vstd::prelude::*;
use crate::address::Address;

verus! {

/// A group of assets, with the running totals of its members' prices.
#[derive(Clone, Copy, Debug)]
pub struct GroupAsset {
    // --- Identity ---
    pub id: u64,
    pub round: Address,
    // --- State ---
    pub symbol: [u8; 8],
    /// Number of member assets.
    pub total_assets: u64,
    /// Members whose start price has been confirmed.
    pub finalized_start_price_assets: u64,
    /// Members whose final price has been captured.
    pub captured_end_price_assets: u64,
    /// Members whose growth rate has been added to the totals.
    pub finalized_end_price_assets: u64,
    pub total_final_price: u64,
    pub total_growth_rate_bps: i64,
    /// Average growth rate, known once every member is finalized.
    pub avg_growth_rate_bps: Option<i64>,
    // --- Metadata ---
    pub created_at: i64,
    pub start_price_at: Option<i64>,
    pub finalized_price_at: Option<i64>,
    pub bump: u8,
}

impl GroupAsset {
    /// Whether every member has been finalized and the average is known.
    pub open spec fn is_finalized(&self) -> bool {
        self.finalized_end_price_assets >= self.total_assets && self.avg_growth_rate_bps is Some
    }
}

} // verus!
