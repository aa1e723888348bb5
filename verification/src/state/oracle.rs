//! What the price oracle hands to the engine.

use vstd::prelude::*;

verus! {

/// A price as the oracle publishes it: `price * 10^exponent`.
#[derive(Clone, Copy, Debug, PartialEq, Eq, Structural)]
pub struct OraclePrice {
    pub price: i64,
    pub exponent: i32,
    pub published_at: i64,
}

/// One price update read from the oracle.
#[derive(Clone, Copy, Debug)]
pub struct PriceUpdate {
    /// The feed the update belongs to.
    pub feed_id: [u8; 32],
    /// The price, or `None` when the oracle refused to give one for the
    /// requested feed and age.
    pub price: Option<OraclePrice>,
}

} // verus!
