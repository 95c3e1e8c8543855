use vstd::prelude::*;
use crate::state::account::Account;
use crate::state::config::ConfigState;
use crate::util::errors::ContractError;
use crate::util::events::AdminUpdated;
use crate::util::pubkey::Pubkey;

verus! {

/// The accounts of a change of administrator.
#[derive(Clone, Copy, Debug, PartialEq, Eq)]
pub struct UpdateAdmin {
    /// Who signed the call: the administrator in office.
    pub admin: Pubkey,
    pub config: Account<ConfigState>,
}

impl UpdateAdmin {
    /// The bump seed of the registry's address under `program_id`, where the registry
    /// account presented is at that address.
    pub open spec fn registry(&self, program_id: Pubkey) -> Option<u8> {
        ConfigState::bump_at(self.config.key, program_id)
    }

    /// The first guard that the call fails, if any, given what the derivation says:
    /// `registry`, as in [`Self::registry`]. Checked in turn: that the registry exists
    /// where it belongs; who calls; that the successor is someone, and someone else.
    pub open spec fn rejection(&self, registry: Option<u8>, new_admin: Pubkey) -> Option<
        ContractError,
    > {
        if self.config.data is None {
            Some(ContractError::AccountNotInitialized)
        } else if registry is None {
            Some(ContractError::InvalidAuthority)
        } else if self.admin != self.config.data->0.admin {
            Some(ContractError::Unauthorized)
        } else if new_admin.is_default() {
            Some(ContractError::InvalidBountyState)
        } else if new_admin == self.config.data->0.admin {
            Some(ContractError::InvalidBountyState)
        } else {
            None
        }
    }

    /// What observers are told of a call that passes.
    pub open spec fn event(&self, new_admin: Pubkey) -> AdminUpdated {
        AdminUpdated { old_admin: self.config.data->0.admin, new_admin }
    }

    /// The accounts after a call that passes: the successor is in office.
    pub open spec fn rotated(&self, new_admin: Pubkey) -> UpdateAdmin {
        UpdateAdmin {
            config: Account {
                key: self.config.key,
                data: Some(ConfigState { admin: new_admin, ..self.config.data->0 }),
            },
            ..*self
        }
    }

    /// The change of administrator, given what the derivation says. Runs the guards in
    /// their order; where all of them pass, puts the successor in office and gives the
    /// event. A call that fails a guard changes nothing.
    pub fn apply(&mut self, registry: Option<u8>, new_admin: Pubkey) -> (res: Result<
        AdminUpdated,
        ContractError,
    >)
        ensures
            match res {
                Ok(event) => {
                    &&& old(self).rejection(registry, new_admin) is None
                    &&& event == old(self).event(new_admin)
                    &&& *final(self) == old(self).rotated(new_admin)
                },
                Err(e) => old(self).rejection(registry, new_admin) == Some(e) && *final(self)
                    == *old(self),
            },
    {
        let config = match self.config.data {
            Some(config) => config,
            None => {
                return Err(ContractError::AccountNotInitialized);
            },
        };
        if registry.is_none() {
            return Err(ContractError::InvalidAuthority);
        }
        if self.admin != config.admin {
            return Err(ContractError::Unauthorized);
        }
        if new_admin.is_empty() {
            return Err(ContractError::InvalidBountyState);
        }
        if new_admin == config.admin {
            return Err(ContractError::InvalidBountyState);
        }
        self.config = Account {
            key: self.config.key,
            data: Some(ConfigState { admin: new_admin, ..config }),
        };
        Ok(AdminUpdated { old_admin: config.admin, new_admin })
    }
}

} // verus!
