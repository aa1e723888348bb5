//! The operations of the engine, one module each.

pub mod cancel_round;
pub mod capture_end_price;
pub mod capture_start_price;
pub mod claim_reward;
pub mod create_round;
pub mod emergency_pause;
pub mod emergency_unpause;
pub mod finalize_end_group_asset;
pub mod finalize_end_groups;
pub mod finalize_start_group_asset;
pub mod finalize_start_groups;
pub mod initialize;
pub mod insert_asset;
pub mod insert_group_asset;
pub mod pause_program;
pub mod place_bet;
pub mod settle_group_round;
pub mod settle_single_round;
pub mod start_round;
pub mod unpause_program;
pub mod update_config;
pub mod withdraw_bet;

pub use cancel_round::CancelRound;
pub use capture_end_price::CaptureEndPrice;
pub use capture_start_price::CaptureStartPrice;
pub use claim_reward::ClaimReward;
pub use create_round::CreateRound;
pub use emergency_pause::EmergencyPause;
pub use emergency_unpause::EmergencyUnpause;
pub use finalize_end_group_asset::FinalizeEndGroupAsset;
pub use finalize_end_groups::FinalizeEndGroups;
pub use finalize_start_group_asset::FinalizeStartGroupAsset;
pub use finalize_start_groups::FinalizeStartGroups;
pub use initialize::Initialize;
pub use insert_asset::InsertAsset;
pub use insert_group_asset::InsertGroupAsset;
pub use pause_program::PauseProgram;
pub use place_bet::PlaceBet;
pub use settle_group_round::SettleGroupRound;
pub use settle_single_round::SettleSingleRound;
pub use start_round::StartRound;
pub use unpause_program::UnpauseProgram;
pub use update_config::UpdateConfig;
pub use withdraw_bet::WithdrawBet;
