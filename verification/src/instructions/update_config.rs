//! Changing the configuration.

use vstd::prelude::*;
use crate::address::Address;
use crate::constants::{HUNDRED_PERCENT_BPS, MAX_KEEPER_AUTHORITIES};
use crate::error::GoldRushError;
use crate::state::config::Config;

verus! {

/// What the administrator hands in to change the configuration.
#[derive(Debug)]
pub struct UpdateConfig {
    pub signer: Address,
    pub config: Config,
}

/// The new value of a setting: the one given, else the one there is.
pub open spec fn or_keep<T>(new: Option<T>, current: T) -> T {
    match new {
        Some(value) => value,
        None => current,
    }
}

impl UpdateConfig {
    /// Who may change what: the first rule broken decides the error. A new
    /// administrator, token or treasury must differ from the one there is; a
    /// new fee must stay below one hundred percent; a new minimum stake must
    /// be positive; a new list of keepers must name one to five keepers.
    pub open spec fn spec_validate(
        &self,
        new_admin: Option<Address>,
        new_keeper_authorities: Option<Vec<Address>>,
        new_token_mint: Option<Address>,
        new_treasury: Option<Address>,
        new_fee_single_asset_bps: Option<u16>,
        new_fee_group_battle_bps: Option<u16>,
        new_min_bet_amount: Option<u64>,
    ) -> Result<(), GoldRushError> {
        if self.signer != self.config.admin {
            Err(GoldRushError::Unauthorized)
        } else if new_admin == Some(self.config.admin) {
            Err(GoldRushError::InvalidNewAdmin)
        } else if new_keeper_authorities is Some && new_keeper_authorities->0@.len() == 0 {
            Err(GoldRushError::NoNewKeeperAuthorities)
        } else if new_keeper_authorities is Some && new_keeper_authorities->0@.len()
            > MAX_KEEPER_AUTHORITIES {
            Err(GoldRushError::MaxKeeperAuthoritiesReached)
        } else if new_token_mint == Some(self.config.token_mint) {
            Err(GoldRushError::InvalidNewTokenMint)
        } else if new_treasury == Some(self.config.treasury) {
            Err(GoldRushError::InvalidNewTreasury)
        } else if new_fee_single_asset_bps is Some && new_fee_single_asset_bps->0
            >= HUNDRED_PERCENT_BPS {
            Err(GoldRushError::InvalidNewFeeGoldPriceBps)
        } else if new_fee_group_battle_bps is Some && new_fee_group_battle_bps->0
            >= HUNDRED_PERCENT_BPS {
            Err(GoldRushError::InvalidNewFeeStockPriceBps)
        } else if new_min_bet_amount == Some(0u64) {
            Err(GoldRushError::InvalidNewMinBetAmount)
        } else {
            Ok(())
        }
    }

    /// Checks that the signer may make these changes.
    pub fn validate(
        &self,
        new_admin: Option<Address>,
        new_keeper_authorities: &Option<Vec<Address>>,
        new_token_mint: Option<Address>,
        new_treasury: Option<Address>,
        new_fee_single_asset_bps: Option<u16>,
        new_fee_group_battle_bps: Option<u16>,
        new_min_bet_amount: Option<u64>,
    ) -> (r: Result<(), GoldRushError>)
        ensures
            r == self.spec_validate(
                new_admin,
                *new_keeper_authorities,
                new_token_mint,
                new_treasury,
                new_fee_single_asset_bps,
                new_fee_group_battle_bps,
                new_min_bet_amount,
            ),
    {
        if !self.config.is_admin(&self.signer) {
            return Err(GoldRushError::Unauthorized);
        }
        if let Some(admin) = new_admin {
            if admin == self.config.admin {
                return Err(GoldRushError::InvalidNewAdmin);
            }
        }
        if let Some(keepers) = new_keeper_authorities {
            if keepers.len() == 0 {
                return Err(GoldRushError::NoNewKeeperAuthorities);
            }
            if keepers.len() > MAX_KEEPER_AUTHORITIES {
                return Err(GoldRushError::MaxKeeperAuthoritiesReached);
            }
        }
        if let Some(mint) = new_token_mint {
            if mint == self.config.token_mint {
                return Err(GoldRushError::InvalidNewTokenMint);
            }
        }
        if let Some(treasury) = new_treasury {
            if treasury == self.config.treasury {
                return Err(GoldRushError::InvalidNewTreasury);
            }
        }
        if let Some(fee) = new_fee_single_asset_bps {
            if fee >= HUNDRED_PERCENT_BPS {
                return Err(GoldRushError::InvalidNewFeeGoldPriceBps);
            }
        }
        if let Some(fee) = new_fee_group_battle_bps {
            if fee >= HUNDRED_PERCENT_BPS {
                return Err(GoldRushError::InvalidNewFeeStockPriceBps);
            }
        }
        if let Some(amount) = new_min_bet_amount {
            if amount == 0 {
                return Err(GoldRushError::InvalidNewMinBetAmount);
            }
        }
        Ok(())
    }

    /// Why the configuration is not changed, if it is not: the rules refuse
    /// the changes, the new cutoff window is negative, or the version
    /// counter is exhausted.
    pub open spec fn spec_refusal(
        &self,
        new_admin: Option<Address>,
        new_keeper_authorities: Option<Vec<Address>>,
        new_token_mint: Option<Address>,
        new_treasury: Option<Address>,
        new_fee_single_asset_bps: Option<u16>,
        new_fee_group_battle_bps: Option<u16>,
        new_min_bet_amount: Option<u64>,
        new_bet_cutoff_window_secs: Option<i64>,
    ) -> Option<GoldRushError> {
        let checked = self.spec_validate(
            new_admin,
            new_keeper_authorities,
            new_token_mint,
            new_treasury,
            new_fee_single_asset_bps,
            new_fee_group_battle_bps,
            new_min_bet_amount,
        );
        if checked is Err {
            Some(checked->Err_0)
        } else if new_bet_cutoff_window_secs is Some && new_bet_cutoff_window_secs->0 < 0 {
            Some(GoldRushError::InvalidNewBetCutoffWindowSecs)
        } else if self.config.version + 1 > u8::MAX {
            Some(GoldRushError::Overflow)
        } else {
            None
        }
    }
}

/// Changes the configuration: each setting given replaces the one there is,
/// the others stay, and the version goes up by one. On failure nothing has
/// changed.
pub fn handler(
    ctx: &mut UpdateConfig,
    new_admin: Option<Address>,
    new_keeper_authorities: Option<Vec<Address>>,
    new_token_mint: Option<Address>,
    new_treasury: Option<Address>,
    new_single_asset_feed_id: Option<[u8; 32]>,
    new_max_price_update_age_secs: Option<u64>,
    new_fee_single_asset_bps: Option<u16>,
    new_fee_group_battle_bps: Option<u16>,
    new_min_bet_amount: Option<u64>,
    new_bet_cutoff_window_secs: Option<i64>,
) -> (r: Result<(), GoldRushError>)
    ensures
        match r {
            Ok(()) => {
                &&& old(ctx).spec_refusal(
                    new_admin,
                    new_keeper_authorities,
                    new_token_mint,
                    new_treasury,
                    new_fee_single_asset_bps,
                    new_fee_group_battle_bps,
                    new_min_bet_amount,
                    new_bet_cutoff_window_secs,
                ) is None
                &&& final(ctx).signer == old(ctx).signer
                &&& final(ctx).config == (Config {
                    admin: or_keep(new_admin, old(ctx).config.admin),
                    keeper_authorities: or_keep(new_keeper_authorities, old(ctx).config.keeper_authorities),
                    token_mint: or_keep(new_token_mint, old(ctx).config.token_mint),
                    treasury: or_keep(new_treasury, old(ctx).config.treasury),
                    single_asset_feed_id: or_keep(
                        new_single_asset_feed_id,
                        old(ctx).config.single_asset_feed_id,
                    ),
                    max_price_update_age_secs: or_keep(
                        new_max_price_update_age_secs,
                        old(ctx).config.max_price_update_age_secs,
                    ),
                    fee_single_asset_bps: or_keep(
                        new_fee_single_asset_bps,
                        old(ctx).config.fee_single_asset_bps,
                    ),
                    fee_group_battle_bps: or_keep(
                        new_fee_group_battle_bps,
                        old(ctx).config.fee_group_battle_bps,
                    ),
                    min_bet_amount: or_keep(new_min_bet_amount, old(ctx).config.min_bet_amount),
                    bet_cutoff_window_secs: or_keep(
                        new_bet_cutoff_window_secs,
                        old(ctx).config.bet_cutoff_window_secs,
                    ),
                    version: (old(ctx).config.version + 1) as u8,
                    ..old(ctx).config
                })
            },
            Err(e) => old(ctx).spec_refusal(
                new_admin,
                new_keeper_authorities,
                new_token_mint,
                new_treasury,
                new_fee_single_asset_bps,
                new_fee_group_battle_bps,
                new_min_bet_amount,
                new_bet_cutoff_window_secs,
            ) == Some(e) && *final(ctx) == *old(ctx),
        },
        r is Ok && old(ctx).config.wf() ==> final(ctx).config.wf(),
{
    ctx.validate(
        new_admin,
        &new_keeper_authorities,
        new_token_mint,
        new_treasury,
        new_fee_single_asset_bps,
        new_fee_group_battle_bps,
        new_min_bet_amount,
    )?;
    if let Some(window) = new_bet_cutoff_window_secs {
        if window < 0 {
            return Err(GoldRushError::InvalidNewBetCutoffWindowSecs);
        }
    }
    let version = match ctx.config.version.checked_add(1) {
        Some(v) => v,
        None => {
            return Err(GoldRushError::Overflow);
        },
    };
    if let Some(admin) = new_admin {
        ctx.config.admin = admin;
    }
    if let Some(keepers) = new_keeper_authorities {
        ctx.config.keeper_authorities = keepers;
    }
    if let Some(mint) = new_token_mint {
        ctx.config.token_mint = mint;
    }
    if let Some(treasury) = new_treasury {
        ctx.config.treasury = treasury;
    }
    if let Some(feed_id) = new_single_asset_feed_id {
        ctx.config.single_asset_feed_id = feed_id;
    }
    if let Some(age) = new_max_price_update_age_secs {
        ctx.config.max_price_update_age_secs = age;
    }
    if let Some(fee) = new_fee_single_asset_bps {
        ctx.config.fee_single_asset_bps = fee;
    }
    if let Some(fee) = new_fee_group_battle_bps {
        ctx.config.fee_group_battle_bps = fee;
    }
    if let Some(amount) = new_min_bet_amount {
        ctx.config.min_bet_amount = amount;
    }
    if let Some(window) = new_bet_cutoff_window_secs {
        ctx.config.bet_cutoff_window_secs = window;
    }
    ctx.config.version = version;
    Ok(())
}

} // verus!
