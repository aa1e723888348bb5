//! Starting a scheduled round.

use vstd::prelude::*;
use crate::address::Address;
use crate::constants::{ContractStatus, MarketType, RoundStatus};
use crate::error::GoldRushError;
use crate::state::config::Config;
use crate::state::oracle::PriceUpdate;
use crate::state::round::Round;
use crate::utils::price::{normalize_price_to_u64, spec_normalize_price};

verus! {

/// What a keeper hands in to start a round.
#[derive(Debug)]
pub struct StartRound {
    pub signer: Address,
    pub config: Config,
    pub round: Round,
    /// The oracle's reading of the configured feed; needed in a
    /// single-asset round.
    pub price_update: Option<PriceUpdate>,
    /// The current time.
    pub now: i64,
}

/// The start price an oracle reading gives: its price, normalized, which
/// must be positive.
pub open spec fn spec_start_price(price_update: Option<PriceUpdate>) -> Result<u64, GoldRushError> {
    match price_update {
        None => Err(GoldRushError::InvalidPriceUpdateAccountData),
        Some(update) => match update.price {
            None => Err(GoldRushError::PythError),
            Some(quote) => match spec_normalize_price(quote.price, quote.exponent) {
                Err(e) => Err(e),
                Ok(price) => if price > 0 {
                    Ok(price)
                } else {
                    Err(GoldRushError::InvalidAssetPrice)
                },
            },
        },
    }
}

/// Takes the start price out of an oracle reading.
pub fn start_price(price_update: &Option<PriceUpdate>) -> (r: Result<u64, GoldRushError>)
    ensures
        r == spec_start_price(*price_update),
{
    match price_update {
        None => Err(GoldRushError::InvalidPriceUpdateAccountData),
        Some(update) => match update.price {
            None => Err(GoldRushError::PythError),
            Some(quote) => {
                let price = normalize_price_to_u64(quote.price, quote.exponent)?;
                if price > 0 {
                    Ok(price)
                } else {
                    Err(GoldRushError::InvalidAssetPrice)
                }
            },
        },
    }
}

impl StartRound {
    /// Who may start which round when: the first rule broken decides the
    /// error. A single-asset round needs an oracle reading; a group battle
    /// needs the start prices of all its groups.
    pub open spec fn spec_validate(&self) -> Result<(), GoldRushError> {
        if self.config.status != ContractStatus::Active {
            Err(GoldRushError::ProgramPaused)
        } else if !self.config.keeper_authorities@.contains(self.signer) {
            Err(GoldRushError::UnauthorizedKeeper)
        } else if self.round.status != RoundStatus::Scheduled {
            Err(GoldRushError::InvalidRoundStatus)
        } else if self.now < self.round.start_time {
            Err(GoldRushError::RoundNotReadyForStart)
        } else if self.round.market_type == MarketType::SingleAsset && self.price_update is None {
            Err(GoldRushError::InvalidPriceUpdateAccountData)
        } else if self.round.market_type == MarketType::GroupBattle && self.round.captured_start_groups
            < self.round.total_groups {
            Err(GoldRushError::RoundNotCapturedStartPrice)
        } else {
            Ok(())
        }
    }

    /// Checks that the signer may start this round now.
    pub fn validate(&self) -> (r: Result<(), GoldRushError>)
        ensures
            r == self.spec_validate(),
    {
        if self.config.status != ContractStatus::Active {
            return Err(GoldRushError::ProgramPaused);
        }
        if !self.config.is_keeper(&self.signer) {
            return Err(GoldRushError::UnauthorizedKeeper);
        }
        if self.round.status != RoundStatus::Scheduled {
            return Err(GoldRushError::InvalidRoundStatus);
        }
        if self.now < self.round.start_time {
            return Err(GoldRushError::RoundNotReadyForStart);
        }
        if self.round.market_type == MarketType::SingleAsset && self.price_update.is_none() {
            return Err(GoldRushError::InvalidPriceUpdateAccountData);
        }
        if self.round.market_type == MarketType::GroupBattle && self.round.captured_start_groups
            < self.round.total_groups {
            return Err(GoldRushError::RoundNotCapturedStartPrice);
        }
        Ok(())
    }

    /// The round once started, or why it does not start: the rules refuse
    /// it, or the oracle gives a single-asset round no start price.
    pub open spec fn spec_handler(&self) -> Result<Round, GoldRushError> {
        if self.spec_validate() is Err {
            Err(self.spec_validate()->Err_0)
        } else if self.round.market_type == MarketType::SingleAsset {
            match spec_start_price(self.price_update) {
                Err(e) => Err(e),
                Ok(price) => Ok(
                    Round { start_price: Some(price), status: RoundStatus::Active, ..self.round },
                ),
            }
        } else {
            Ok(Round { status: RoundStatus::Active, ..self.round })
        }
    }
}

/// Starts a round: it turns `Active`, and a single-asset round gets its
/// start price. On failure nothing has changed.
pub fn handler(ctx: &mut StartRound) -> (r: Result<(), GoldRushError>)
    ensures
        match r {
            Ok(()) => old(ctx).spec_handler() matches Ok(round) && *final(ctx) == StartRound {
                round,
                ..*old(ctx)
            },
            Err(e) => old(ctx).spec_handler() == Err::<Round, GoldRushError>(e) && *final(ctx) == *old(ctx),
        },
        r is Ok && old(ctx).round.wf() ==> final(ctx).round.wf(),
{
    ctx.validate()?;
    if ctx.round.market_type == MarketType::SingleAsset {
        let price = start_price(&ctx.price_update)?;
        ctx.round.start_price = Some(price);
    }
    ctx.round.status = RoundStatus::Active;
    Ok(())
}

} // verus!
