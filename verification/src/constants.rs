//! Status enums, numeric limits and record seeds shared by the whole engine.

use vstd::prelude::*;

verus! {

/// Seed of the configuration record's address.
pub const CONFIG_SEED: &'static str = "config";

/// Seed of a round record's address.
pub const ROUND_SEED: &'static str = "round";

/// Seed of a group record's address.
pub const GROUP_ASSET_SEED: &'static str = "group_asset";

/// Seed of an asset record's address.
pub const ASSET_SEED: &'static str = "asset";

/// Seed of a round vault's address.
pub const VAULT_SEED: &'static str = "vault";

/// Seed of a bet record's address.
pub const BET_SEED: &'static str = "bet";

/// Overall status of the engine.
#[derive(Clone, Copy, Debug, PartialEq, Eq, Structural)]
pub enum ContractStatus {
    Active,
    Paused,
    EmergencyPaused,
}

/// Lifecycle status of a round.
#[derive(Clone, Copy, Debug, PartialEq, Eq, Structural)]
pub enum RoundStatus {
    /// Created but not started yet.
    Scheduled,
    /// Started; accepts bets until the cutoff.
    Active,
    /// Being cancelled; bets are refunded in batches.
    Cancelling,
    /// Settlement has begun and some bets are still unprocessed.
    PendingSettlement,
    /// Every bet has been settled.
    Ended,
}

/// Kind of market a round runs.
#[derive(Clone, Copy, Debug, PartialEq, Eq, Structural)]
pub enum MarketType {
    /// One asset; start and final price come straight from the oracle.
    SingleAsset,
    /// Several groups of assets compete on average growth.
    GroupBattle,
}

/// Direction a bettor declares.
#[derive(Clone, Copy, Debug, PartialEq, Eq, Structural)]
pub enum BetDirection {
    Up,
    Down,
    /// Signed conviction in basis points: 10 is 0.1%, -25 is -0.25%.
    PercentageChangeBps(i16),
}

/// Outcome of a bet.
#[derive(Clone, Copy, Debug, PartialEq, Eq, Structural)]
pub enum BetStatus {
    Pending,
    Won,
    Lost,
    Draw,
}

/// Size of the tag that precedes every stored record.
pub const DISRIMINATOR_SIZE: u8 = 8;

/// One hundred percent, in basis points.
pub const HUNDRED_PERCENT_BPS: u16 = 10_000;

/// Divisor applied to the squared conviction of a single-asset bet.
pub const BPS_SCALING_FACTOR: u16 = 100;

/// Most keepers a configuration may name.
pub const MAX_KEEPER_AUTHORITIES: usize = 5;

/// Most records one batched call may carry.
pub const MAX_REMAINING_ACCOUNTS: usize = 20;

/// Most assets a group may hold.
pub const MAX_ASSETS_IN_GROUP: usize = 10;

/// Most groups that may share a win.
pub const MAX_WINNER_GROUP_IDS: usize = 10;

/// Decimal places of a normalized price.
pub const ASSET_PRICE_DECIMALS: i32 = 6;

} // verus!
