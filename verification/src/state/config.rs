//! The engine's configuration.

use vstd::prelude::*;
use crate::address::Address;
use crate::constants::{ContractStatus, HUNDRED_PERCENT_BPS, MAX_KEEPER_AUTHORITIES};

verus! {

/// The single configuration record.
#[derive(Clone, Debug)]
pub struct Config {
    // --- Authorities ---
    pub admin: Address,
    pub keeper_authorities: Vec<Address>,
    // --- Token & treasury ---
    pub token_mint: Address,
    pub treasury: Address,
    pub single_asset_feed_id: [u8; 32],
    pub max_price_update_age_secs: u64,
    // --- Fees ---
    pub fee_single_asset_bps: u16,
    pub fee_group_battle_bps: u16,
    // --- Betting rules ---
    pub min_bet_amount: u64,
    pub bet_cutoff_window_secs: i64,
    // --- Reward calculation ---
    pub min_time_factor_bps: u16,
    pub max_time_factor_bps: u16,
    pub default_direction_factor_bps: u16,
    // --- Global state ---
    pub status: ContractStatus,
    pub current_round_counter: u64,
    // --- Metadata ---
    pub version: u8,
    pub bump: u8,
}

impl Config {
    /// The rules a configuration obeys from initialization on.
    pub open spec fn wf(&self) -> bool {
        &&& 0 < self.keeper_authorities@.len() <= MAX_KEEPER_AUTHORITIES
        &&& self.fee_single_asset_bps <= HUNDRED_PERCENT_BPS
        &&& self.fee_group_battle_bps <= HUNDRED_PERCENT_BPS
        &&& self.min_bet_amount > 0
        &&& self.bet_cutoff_window_secs >= 0
        &&& self.min_time_factor_bps <= self.max_time_factor_bps <= HUNDRED_PERCENT_BPS
        &&& self.default_direction_factor_bps <= HUNDRED_PERCENT_BPS
    }

    /// Whether `who` is the administrator.
    pub fn is_admin(&self, who: &Address) -> (r: bool)
        ensures
            r == (*who == self.admin),
    {
        *who == self.admin
    }

    /// Whether `who` is one of the keepers.
    pub fn is_keeper(&self, who: &Address) -> (r: bool)
        ensures
            r == self.keeper_authorities@.contains(*who),
    {
        let mut i: usize = 0;
        while i < self.keeper_authorities.len()
            invariant
                i <= self.keeper_authorities@.len(),
                forall|k: int| 0 <= k < i ==> self.keeper_authorities@[k] != *who,
            decreases self.keeper_authorities@.len() - i,
        {
            if self.keeper_authorities[i] == *who {
                return true;
            }
            i += 1;
        }
        false
    }
}

} // verus!
