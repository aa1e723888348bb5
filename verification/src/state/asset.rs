//! One asset of a group.

use vstd::prelude::*;
use crate::address::Address;

verus! {

/// A member asset of a group, with the prices captured for it.
#[derive(Clone, Copy, Debug)]
pub struct Asset {
    // --- Identity ---
    pub id: u64,
    pub group: Address,
    pub round: Address,
    pub feed_id: [u8; 32],
    // --- State ---
    pub symbol: [u8; 8],
    pub start_price: Option<u64>,
    pub final_price: Option<u64>,
    pub growth_rate_bps: Option<i64>,
    // --- Metadata ---
    pub created_at: i64,
    pub started_price_at: Option<i64>,
    pub finalized_at: Option<i64>,
    pub bump: u8,
}

} // verus!
