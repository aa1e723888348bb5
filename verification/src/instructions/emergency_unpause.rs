//! Lifting the emergency halt.

use vstd::prelude::*;
use crate::address::Address;
use crate::constants::ContractStatus;
use crate::error::GoldRushError;
use crate::state::config::Config;

verus! {

/// What the administrator hands in to lift the emergency halt.
#[derive(Debug)]
pub struct EmergencyUnpause {
    pub signer: Address,
    pub config: Config,
}

impl EmergencyUnpause {
    /// Who may lift the emergency halt when: the first rule broken decides the error.
    pub open spec fn spec_validate(&self) -> Result<(), GoldRushError> {
        if self.config.status != ContractStatus::EmergencyPaused {
            Err(GoldRushError::NotEmergencyPaused)
        } else if self.signer != self.config.admin {
            Err(GoldRushError::Unauthorized)
        } else {
            Ok(())
        }
    }

    /// Checks that the signer may lift the emergency halt now.
    pub fn validate(&self) -> (r: Result<(), GoldRushError>)
        ensures
            r == self.spec_validate(),
    {
        if self.config.status != ContractStatus::EmergencyPaused {
            return Err(GoldRushError::NotEmergencyPaused);
        }
        if !self.config.is_admin(&self.signer) {
            return Err(GoldRushError::Unauthorized);
        }
        Ok(())
    }
}

/// Sets the status of the engine to `Active`. On failure nothing has changed.
pub fn handler(ctx: &mut EmergencyUnpause) -> (r: Result<(), GoldRushError>)
    ensures
        r == old(ctx).spec_validate(),
        match r {
            Ok(()) => *final(ctx) == EmergencyUnpause {
                config: Config { status: ContractStatus::Active, ..old(ctx).config },
                ..*old(ctx)
            },
            Err(_) => *final(ctx) == *old(ctx),
        },
        r is Ok && old(ctx).config.wf() ==> final(ctx).config.wf(),
{
    ctx.validate()?;
    ctx.config.status = ContractStatus::Active;
    Ok(())
}

} // verus!
