//! Halting the engine in an emergency.

use vstd::prelude::*;
use crate::address::Address;
use crate::constants::ContractStatus;
use crate::error::GoldRushError;
use crate::state::config::Config;

verus! {

/// What the administrator hands in to halt the engine in an emergency.
#[derive(Debug)]
pub struct EmergencyPause {
    pub signer: Address,
    pub config: Config,
}

impl EmergencyPause {
    /// Who may halt the engine in an emergency when: the first rule broken decides the error.
    pub open spec fn spec_validate(&self) -> Result<(), GoldRushError> {
        if self.config.status == ContractStatus::EmergencyPaused {
            Err(GoldRushError::AlreadyEmergencyPaused)
        } else if self.signer != self.config.admin {
            Err(GoldRushError::Unauthorized)
        } else {
            Ok(())
        }
    }

    /// Checks that the signer may halt the engine in an emergency now.
    pub fn validate(&self) -> (r: Result<(), GoldRushError>)
        ensures
            r == self.spec_validate(),
    {
        if self.config.status == ContractStatus::EmergencyPaused {
            return Err(GoldRushError::AlreadyEmergencyPaused);
        }
        if !self.config.is_admin(&self.signer) {
            return Err(GoldRushError::Unauthorized);
        }
        Ok(())
    }
}

/// Sets the status of the engine to `EmergencyPaused`. On failure nothing has changed.
pub fn handler(ctx: &mut EmergencyPause) -> (r: Result<(), GoldRushError>)
    ensures
        r == old(ctx).spec_validate(),
        match r {
            Ok(()) => *final(ctx) == EmergencyPause {
                config: Config { status: ContractStatus::EmergencyPaused, ..old(ctx).config },
                ..*old(ctx)
            },
            Err(_) => *final(ctx) == *old(ctx),
        },
        r is Ok && old(ctx).config.wf() ==> final(ctx).config.wf(),
{
    ctx.validate()?;
    ctx.config.status = ContractStatus::EmergencyPaused;
    Ok(())
}

} // verus!
