//! One betting round.

use vstd::prelude::*;
use crate::address::Address;
use crate::constants::{MarketType, RoundStatus, MAX_WINNER_GROUP_IDS};

verus! {

/// A round: its schedule, its status and its running totals.
#[derive(Clone, Debug)]
pub struct Round {
    // --- Identity ---
    pub id: u64,
    pub start_time: i64,
    pub end_time: i64,
    /// Bets and withdrawals are accepted strictly before this instant.
    pub bet_cutoff_time: i64,
    pub vault: Address,
    pub vault_bump: u8,
    pub market_type: MarketType,
    // --- State ---
    pub status: RoundStatus,
    /// Sum of the stakes of the bets that are in the round.
    pub total_pool: u64,
    pub total_bets: u64,
    /// Whether the fee and the reward pool have been fixed. They are fixed
    /// by the first settlement batch and never change afterwards.
    pub fee_locked: bool,
    pub total_fee_collected: u64,
    pub total_reward_pool: u64,
    /// Sum of the weights of the bets settled as won so far.
    pub winners_weight: u64,
    pub settled_bets: u64,
    pub cancelled_bets: u64,
    /// Oracle price at the start (single-asset rounds).
    pub start_price: Option<u64>,
    /// Oracle price settlement goes by (single-asset rounds).
    pub final_price: Option<u64>,
    /// Number of groups (group-battle rounds).
    pub total_groups: u64,
    pub captured_start_groups: u64,
    pub captured_end_groups: u64,
    /// Ids of the groups that share the best average growth.
    pub winner_group_ids: Vec<u64>,
    // --- Metadata ---
    pub created_at: i64,
    pub settled_at: Option<i64>,
    pub bump: u8,
}

impl Round {
    /// Whether settlement has begun.
    pub open spec fn in_settlement(&self) -> bool {
        self.status == RoundStatus::PendingSettlement || self.status == RoundStatus::Ended
    }

    /// What holds of a round in every state the engine leaves it in.
    pub open spec fn wf(&self) -> bool {
        &&& self.start_time < self.end_time
        &&& self.start_time <= self.bet_cutoff_time
        &&& self.winner_group_ids@.len() <= MAX_WINNER_GROUP_IDS
        &&& self.fee_locked ==> {
            &&& self.in_settlement()
            &&& self.total_fee_collected + self.total_reward_pool == self.total_pool
        }
        &&& !self.fee_locked ==> {
            &&& self.total_fee_collected == 0
            &&& self.total_reward_pool == 0
            &&& self.winners_weight == 0
            &&& self.settled_bets == 0
        }
        &&& self.status == RoundStatus::PendingSettlement ==> {
            &&& self.fee_locked
            &&& self.settled_bets < self.total_bets
        }
        &&& self.status == RoundStatus::Ended ==> {
            &&& self.settled_at is Some
            &&& self.settled_bets >= self.total_bets
        }
        &&& self.status != RoundStatus::Cancelling ==> self.cancelled_bets == 0
    }

    /// Whether every group of the round is among the winners, so that
    /// nobody lost.
    pub open spec fn is_full_draw(&self) -> bool {
        self.total_groups > 0 && self.winner_group_ids@.len() >= self.total_groups
    }
}

} // verus!
