//! One stake placed on a round.

use vstd::prelude::*;
use crate::address::Address;
use crate::constants::{BetDirection, BetStatus};

verus! {

/// A bet: who staked how much on what, and what became of it.
#[derive(Clone, Copy, Debug)]
pub struct Bet {
    // --- Identity ---
    /// Number of the bet within its round, from 1.
    pub id: u64,
    pub round: Address,
    pub bettor: Address,
    /// The group the bet backs; only bets of group-battle rounds have one.
    pub group: Option<Address>,
    // --- Bet info ---
    pub amount: u64,
    pub direction: BetDirection,
    /// Whether the reward or the stake has been paid out.
    pub claimed: bool,
    /// Share of the reward pool the bet is entitled to if it wins.
    pub weight: u64,
    // --- State ---
    pub status: BetStatus,
    // --- Metadata ---
    pub created_at: i64,
    pub bump: u8,
}

} // verus!
