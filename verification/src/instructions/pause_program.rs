//! Pausing the engine.

use vstd::prelude::*;
use crate::address::Address;
use crate::constants::ContractStatus;
use crate::error::GoldRushError;
use crate::state::config::Config;

verus! {

/// What the administrator hands in to pause the engine.
#[derive(Debug)]
pub struct PauseProgram {
    pub signer: Address,
    pub config: Config,
}

impl PauseProgram {
    /// Who may pause the engine when: the first rule broken decides the error.
    pub open spec fn spec_validate(&self) -> Result<(), GoldRushError> {
        if self.config.status == ContractStatus::Paused {
            Err(GoldRushError::AlreadyPaused)
        } else if self.signer != self.config.admin {
            Err(GoldRushError::Unauthorized)
        } else {
            Ok(())
        }
    }

    /// Checks that the signer may pause the engine now.
    pub fn validate(&self) -> (r: Result<(), GoldRushError>)
        ensures
            r == self.spec_validate(),
    {
        if self.config.status == ContractStatus::Paused {
            return Err(GoldRushError::AlreadyPaused);
        }
        if !self.config.is_admin(&self.signer) {
            return Err(GoldRushError::Unauthorized);
        }
        Ok(())
    }
}

/// Sets the status of the engine to `Paused`. On failure nothing has changed.
pub fn handler(ctx: &mut PauseProgram) -> (r: Result<(), GoldRushError>)
    ensures
        r == old(ctx).spec_validate(),
        match r {
            Ok(()) => *final(ctx) == PauseProgram {
                config: Config { status: ContractStatus::Paused, ..old(ctx).config },
                ..*old(ctx)
            },
            Err(_) => *final(ctx) == *old(ctx),
        },
        r is Ok && old(ctx).config.wf() ==> final(ctx).config.wf(),
{
    ctx.validate()?;
    ctx.config.status = ContractStatus::Paused;
    Ok(())
}

} // verus!
