//! Resuming the paused engine.

use vstd::prelude::*;
use crate::address::Address;
use crate::constants::ContractStatus;
use crate::error::GoldRushError;
use crate::state::config::Config;

verus! {

/// What the administrator hands in to resume the engine.
#[derive(Debug)]
pub struct UnpauseProgram {
    pub signer: Address,
    pub config: Config,
}

impl UnpauseProgram {
    /// Who may resume the engine when: the first rule broken decides the error.
    pub open spec fn spec_validate(&self) -> Result<(), GoldRushError> {
        if self.config.status != ContractStatus::Paused {
            Err(GoldRushError::AlreadyActive)
        } else if self.signer != self.config.admin {
            Err(GoldRushError::Unauthorized)
        } else {
            Ok(())
        }
    }

    /// Checks that the signer may resume the engine now.
    pub fn validate(&self) -> (r: Result<(), GoldRushError>)
        ensures
            r == self.spec_validate(),
    {
        if self.config.status != ContractStatus::Paused {
            return Err(GoldRushError::AlreadyActive);
        }
        if !self.config.is_admin(&self.signer) {
            return Err(GoldRushError::Unauthorized);
        }
        Ok(())
    }
}

/// Sets the status of the engine to `Active`. On failure nothing has changed.
pub fn handler(ctx: &mut UnpauseProgram) -> (r: Result<(), GoldRushError>)
    ensures
        r == old(ctx).spec_validate(),
        match r {
            Ok(()) => *final(ctx) == UnpauseProgram {
                config: Config { status: ContractStatus::Active, ..old(ctx).config },
                ..*old(ctx)
            },
            Err(_) => *final(ctx) == *old(ctx),
        },
        r is Ok && old(ctx).config.wf() ==> final(ctx).config.wf(),
{
    ctx.validate()?;
    ctx.config.status = ContractStatus::Active;
    Ok(())
}

} // verus!
