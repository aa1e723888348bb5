//! Creating the configuration.

use vstd::prelude::*;
use crate::address::Address;
use crate::constants::{ContractStatus, HUNDRED_PERCENT_BPS, MAX_KEEPER_AUTHORITIES};
use crate::error::GoldRushError;
use crate::state::config::Config;

verus! {

/// What is handed in to create the configuration.
#[derive(Debug)]
pub struct Initialize {
    /// Who creates the configuration, and becomes its administrator.
    pub signer: Address,
    /// Bump seed of the configuration record.
    pub bump: u8,
}

/// The rules the settings of a configuration obey: the first rule broken
/// decides the error.
pub open spec fn spec_validate_settings(
    keeper_count: nat,
    fee_single_asset_bps: u16,
    fee_group_battle_bps: u16,
    min_bet_amount: u64,
    bet_cutoff_window_secs: i64,
    min_time_factor_bps: u16,
    max_time_factor_bps: u16,
    default_direction_factor_bps: u16,
) -> Result<(), GoldRushError> {
    if keeper_count == 0 {
        Err(GoldRushError::InvalidKeeperAuthorities)
    } else if keeper_count > MAX_KEEPER_AUTHORITIES {
        Err(GoldRushError::InvalidKeeperAuthorities)
    } else if fee_single_asset_bps > HUNDRED_PERCENT_BPS {
        Err(GoldRushError::InvalidFee)
    } else if fee_group_battle_bps > HUNDRED_PERCENT_BPS {
        Err(GoldRushError::InvalidFee)
    } else if min_bet_amount == 0 {
        Err(GoldRushError::InvalidMinBetAmount)
    } else if bet_cutoff_window_secs < 0 {
        Err(GoldRushError::InvalidNewBetCutoffWindowSecs)
    } else if min_time_factor_bps > HUNDRED_PERCENT_BPS {
        Err(GoldRushError::InvalidTimeFactorConfig)
    } else if max_time_factor_bps > HUNDRED_PERCENT_BPS {
        Err(GoldRushError::InvalidTimeFactorConfig)
    } else if default_direction_factor_bps > HUNDRED_PERCENT_BPS {
        Err(GoldRushError::InvalidDirectionFactorConfig)
    } else if min_time_factor_bps > max_time_factor_bps {
        Err(GoldRushError::InvalidTimeFactorRange)
    } else {
        Ok(())
    }
}

impl Initialize {
    /// Checks the settings of a configuration.
    pub fn validate(
        &self,
        keeper_authorities: &Vec<Address>,
        fee_single_asset_bps: u16,
        fee_group_battle_bps: u16,
        min_bet_amount: u64,
        bet_cutoff_window_secs: i64,
        min_time_factor_bps: u16,
        max_time_factor_bps: u16,
        default_direction_factor_bps: u16,
    ) -> (r: Result<(), GoldRushError>)
        ensures
            r == spec_validate_settings(
                keeper_authorities@.len(),
                fee_single_asset_bps,
                fee_group_battle_bps,
                min_bet_amount,
                bet_cutoff_window_secs,
                min_time_factor_bps,
                max_time_factor_bps,
                default_direction_factor_bps,
            ),
    {
        if keeper_authorities.len() == 0 {
            return Err(GoldRushError::InvalidKeeperAuthorities);
        }
        if keeper_authorities.len() > MAX_KEEPER_AUTHORITIES {
            return Err(GoldRushError::InvalidKeeperAuthorities);
        }
        if fee_single_asset_bps > HUNDRED_PERCENT_BPS {
            return Err(GoldRushError::InvalidFee);
        }
        if fee_group_battle_bps > HUNDRED_PERCENT_BPS {
            return Err(GoldRushError::InvalidFee);
        }
        if min_bet_amount == 0 {
            return Err(GoldRushError::InvalidMinBetAmount);
        }
        if bet_cutoff_window_secs < 0 {
            return Err(GoldRushError::InvalidNewBetCutoffWindowSecs);
        }
        if min_time_factor_bps > HUNDRED_PERCENT_BPS {
            return Err(GoldRushError::InvalidTimeFactorConfig);
        }
        if max_time_factor_bps > HUNDRED_PERCENT_BPS {
            return Err(GoldRushError::InvalidTimeFactorConfig);
        }
        if default_direction_factor_bps > HUNDRED_PERCENT_BPS {
            return Err(GoldRushError::InvalidDirectionFactorConfig);
        }
        if min_time_factor_bps > max_time_factor_bps {
            return Err(GoldRushError::InvalidTimeFactorRange);
        }
        Ok(())
    }
}

/// Creates the configuration: the signer becomes the administrator, the
/// engine is active, and no round has been counted. The settings are
/// refused exactly as `spec_validate_settings` says.
pub fn handler(
    ctx: &Initialize,
    keeper_authorities: Vec<Address>,
    token_mint: Address,
    treasury: Address,
    single_asset_feed_id: [u8; 32],
    max_price_update_age_secs: u64,
    fee_single_asset_bps: u16,
    fee_group_battle_bps: u16,
    min_bet_amount: u64,
    bet_cutoff_window_secs: i64,
    min_time_factor_bps: u16,
    max_time_factor_bps: u16,
    default_direction_factor_bps: u16,
) -> (r: Result<Config, GoldRushError>)
    ensures
        match r {
            Ok(config) => {
                &&& spec_validate_settings(
                    keeper_authorities@.len(),
                    fee_single_asset_bps,
                    fee_group_battle_bps,
                    min_bet_amount,
                    bet_cutoff_window_secs,
                    min_time_factor_bps,
                    max_time_factor_bps,
                    default_direction_factor_bps,
                ) is Ok
                &&& config == (Config {
                    admin: ctx.signer,
                    keeper_authorities,
                    token_mint,
                    treasury,
                    single_asset_feed_id,
                    max_price_update_age_secs,
                    fee_single_asset_bps,
                    fee_group_battle_bps,
                    min_bet_amount,
                    bet_cutoff_window_secs,
                    min_time_factor_bps,
                    max_time_factor_bps,
                    default_direction_factor_bps,
                    status: ContractStatus::Active,
                    current_round_counter: 0,
                    version: 0,
                    bump: ctx.bump,
                })
                &&& config.wf()
            },
            Err(e) => spec_validate_settings(
                keeper_authorities@.len(),
                fee_single_asset_bps,
                fee_group_battle_bps,
                min_bet_amount,
                bet_cutoff_window_secs,
                min_time_factor_bps,
                max_time_factor_bps,
                default_direction_factor_bps,
            ) == Err::<(), GoldRushError>(e),
        },
{
    ctx.validate(
        &keeper_authorities,
        fee_single_asset_bps,
        fee_group_battle_bps,
        min_bet_amount,
        bet_cutoff_window_secs,
        min_time_factor_bps,
        max_time_factor_bps,
        default_direction_factor_bps,
    )?;
    Ok(
        Config {
            admin: ctx.signer,
            keeper_authorities,
            token_mint,
            treasury,
            single_asset_feed_id,
            max_price_update_age_secs,
            fee_single_asset_bps,
            fee_group_battle_bps,
            min_bet_amount,
            bet_cutoff_window_secs,
            min_time_factor_bps,
            max_time_factor_bps,
            default_direction_factor_bps,
            status: ContractStatus::Active,
            current_round_counter: 0,
            version: 0,
            bump: ctx.bump,
        },
    )
}

} // verus!
