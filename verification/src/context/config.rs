use vstd::prelude::*;
use crate::state::account::Account;
use crate::state::config::ConfigState;
use crate::util::errors::ContractError;
use crate::util::pubkey::Pubkey;

verus! {

/// The accounts of the setting up of the registry.
#[derive(Clone, Copy, Debug, PartialEq, Eq)]
pub struct InitializeConfig {
    /// Who signed the call and becomes the first administrator.
    pub admin: Pubkey,
    /// Where the registry is to be stored: it holds nothing yet.
    pub config: Account<ConfigState>,
}

impl InitializeConfig {
    /// The bump seed of the registry's address under `program_id`, where the registry
    /// account presented is at that address.
    pub open spec fn registry(&self, program_id: Pubkey) -> Option<u8> {
        ConfigState::bump_at(self.config.key, program_id)
    }

    /// The first guard that the call fails, if any, given what the derivation says:
    /// `registry`, as in [`Self::registry`]. The account is not where the registry
    /// belongs, or the registry exists already.
    pub open spec fn rejection(&self, registry: Option<u8>) -> Option<ContractError> {
        if registry is None {
            Some(ContractError::InvalidAuthority)
        } else if self.config.data is Some {
            Some(ContractError::AccountAlreadyInitialized)
        } else {
            None
        }
    }

    /// The accounts after a call that passes: the registry exists, with the caller in
    /// office.
    pub open spec fn installed(&self, bump: u8) -> InitializeConfig {
        InitializeConfig {
            config: Account {
                key: self.config.key,
                data: Some(ConfigState { admin: self.admin, bump }),
            },
            ..*self
        }
    }

    /// The setting up, given what the derivation says. Where both guards pass, stores
    /// the registry with the caller in office. A call that fails a guard changes nothing.
    pub fn apply(&mut self, registry: Option<u8>) -> (res: Result<(), ContractError>)
        ensures
            match res {
                Ok(_) => {
                    &&& old(self).rejection(registry) is None
                    &&& registry is Some
                    &&& *final(self) == old(self).installed(registry->0)
                },
                Err(e) => old(self).rejection(registry) == Some(e) && *final(self) == *old(self),
            },
    {
        let bump = match registry {
            Some(bump) => bump,
            None => {
                return Err(ContractError::InvalidAuthority);
            },
        };
        if self.config.data.is_some() {
            return Err(ContractError::AccountAlreadyInitialized);
        }
        self.config = Account {
            key: self.config.key,
            data: Some(ConfigState { admin: self.admin, bump }),
        };
        Ok(())
    }
}

} // verus!
