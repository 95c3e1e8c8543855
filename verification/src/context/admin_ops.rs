use vstd::prelude::*;
use crate::state::account::{Account, TokenAccount};
use crate::state::bounty::{Bounty, BountyState};
use crate::state::config::ConfigState;
use crate::state::escrow::EscrowAuthority;
use crate::util::errors::ContractError;
use crate::util::events::{BountyCompleted, ContributorAssigned};
use crate::util::ledger::Settlement;
use crate::util::pubkey::Pubkey;

verus! {

/// The accounts of an administrator's override: a contributor is named and paid in one
/// step.
#[derive(Clone, Copy, Debug, PartialEq, Eq)]
pub struct AdminAssignAndRelease {
    /// Who signed the call: the administrator in office.
    pub admin: Pubkey,
    pub config: Account<ConfigState>,
    pub bounty: Account<Bounty>,
    /// The custodian of the bounty's funds.
    pub escrow_authority: Pubkey,
    /// Who gets the deposits back.
    pub maintainer: Pubkey,
    /// Who is named and paid.
    pub contributor: Pubkey,
    /// Where the funds go.
    pub contributor_token_account: TokenAccount,
    /// Where the funds are held.
    pub escrow_token_account: TokenAccount,
}

impl AdminAssignAndRelease {
    /// The bump seed of the registry's address under `program_id`, where the registry
    /// account presented is at that address.
    pub open spec fn registry(&self, program_id: Pubkey) -> Option<u8> {
        ConfigState::bump_at(self.config.key, program_id)
    }

    /// Whether, under `program_id`, the custodian presented is the one that the record's
    /// address and bump seed give.
    pub open spec fn custody(&self, program_id: Pubkey) -> bool {
        self.bounty.data is Some && (EscrowAuthority {
            identity: self.escrow_authority,
            bump: self.bounty.data->0.bump,
        }).holds_for(self.bounty.key, program_id)
    }

    /// The first guard that the call fails, if any, given what the derivations say:
    /// `registry`, as in [`Self::registry`], and `custody`, as in [`Self::custody`].
    /// Checked in turn: that registry and record exist; who calls and whether the
    /// custodian is the bounty's own; the record's number and stage; that the accounts
    /// fit the record. Either stage before the end will do, with or without a contributor;
    /// a record at either final stage is not at a stage for this operation.
    pub open spec fn rejection(&self, registry: Option<u8>, custody: bool, bounty_id: u64)
        -> Option<ContractError> {
        if self.config.data is None || self.bounty.data is None {
            Some(ContractError::AccountNotInitialized)
        } else {
            let config = self.config.data->0;
            let bounty = self.bounty.data->0;
            if registry is None {
                Some(ContractError::InvalidAuthority)
            } else if self.admin != config.admin {
                Some(ContractError::Unauthorized)
            } else if !custody {
                Some(ContractError::InvalidAuthority)
            } else if self.escrow_token_account.owner != self.escrow_authority {
                Some(ContractError::InvalidAuthority)
            } else if bounty.bounty_id != bounty_id {
                Some(ContractError::InvalidBountyState)
            } else if bounty.state.is_terminal() {
                Some(ContractError::InvalidBountyStateForOperation)
            } else if self.contributor_token_account.mint != bounty.mint {
                Some(ContractError::InvalidMint)
            } else if self.contributor_token_account.owner != self.contributor {
                Some(ContractError::InvalidTokenAccount)
            } else if self.escrow_token_account.mint != bounty.mint {
                Some(ContractError::InvalidMint)
            } else if bounty.maintainer != self.maintainer {
                Some(ContractError::MaintainerMismatch)
            } else if self.contributor_token_account.key == self.escrow_token_account.key {
                Some(ContractError::InvalidTokenAccount)
            } else {
                None
            }
        }
    }

    /// What the ledger is to do for a call that passes: all that is locked goes to the
    /// account of the contributor named in the call.
    pub open spec fn settlement(&self) -> Settlement {
        Settlement::paying(
            self.bounty.key,
            self.bounty.data->0.assigned(self.contributor).completed(),
            self.escrow_authority,
            self.escrow_token_account.key,
            self.contributor_token_account.key,
        )
    }

    /// What observers are told first of a call that passes.
    pub open spec fn assigned_event(&self) -> ContributorAssigned {
        ContributorAssigned {
            bounty_id: self.bounty.data->0.bounty_id,
            contributor: self.contributor,
        }
    }

    /// What observers are told next of a call that passes.
    pub open spec fn completed_event(&self) -> BountyCompleted {
        BountyCompleted {
            bounty_id: self.bounty.data->0.bounty_id,
            contributor: self.contributor,
            amount: self.bounty.data->0.amount,
        }
    }

    /// The accounts after a call that passes: the record is gone.
    pub open spec fn closed(&self) -> AdminAssignAndRelease {
        AdminAssignAndRelease { bounty: Account { key: self.bounty.key, data: None }, ..*self }
    }

    /// The override, given what the derivations say. Runs the guards in their order;
    /// where all of them pass, destroys the record and gives the settlement and the two
    /// events. A call that fails a guard changes nothing.
    pub fn apply(&mut self, registry: Option<u8>, custody: bool, bounty_id: u64) -> (res: Result<
        (Settlement, ContributorAssigned, BountyCompleted),
        ContractError,
    >)
        ensures
            match res {
                Ok((settlement, assigned, completed)) => {
                    &&& old(self).rejection(registry, custody, bounty_id) is None
                    &&& settlement == old(self).settlement()
                    &&& assigned == old(self).assigned_event()
                    &&& completed == old(self).completed_event()
                    &&& *final(self) == old(self).closed()
                },
                Err(e) => old(self).rejection(registry, custody, bounty_id) == Some(e)
                    && *final(self) == *old(self),
            },
    {
        let config = match self.config.data {
            Some(config) => config,
            None => {
                return Err(ContractError::AccountNotInitialized);
            },
        };
        let bounty = match self.bounty.data {
            Some(bounty) => bounty,
            None => {
                return Err(ContractError::AccountNotInitialized);
            },
        };
        if registry.is_none() {
            return Err(ContractError::InvalidAuthority);
        }
        if self.admin != config.admin {
            return Err(ContractError::Unauthorized);
        }
        if !custody {
            return Err(ContractError::InvalidAuthority);
        }
        if self.escrow_token_account.owner != self.escrow_authority {
            return Err(ContractError::InvalidAuthority);
        }
        if bounty.bounty_id != bounty_id {
            return Err(ContractError::InvalidBountyState);
        }
        if bounty.state == BountyState::Completed || bounty.state == BountyState::Cancelled {
            return Err(ContractError::InvalidBountyStateForOperation);
        }
        if self.contributor_token_account.mint != bounty.mint {
            return Err(ContractError::InvalidMint);
        }
        if self.contributor_token_account.owner != self.contributor {
            return Err(ContractError::InvalidTokenAccount);
        }
        if self.escrow_token_account.mint != bounty.mint {
            return Err(ContractError::InvalidMint);
        }
        if bounty.maintainer != self.maintainer {
            return Err(ContractError::MaintainerMismatch);
        }
        if self.contributor_token_account.key == self.escrow_token_account.key {
            return Err(ContractError::InvalidTokenAccount);
        }
        let contributor = self.contributor;
        let record = Bounty {
            contributor: Some(contributor),
            state: BountyState::Completed,
            ..bounty
        };
        let settlement = Settlement::pay(
            self.bounty.key,
            record,
            self.escrow_authority,
            self.escrow_token_account.key,
            self.contributor_token_account.key,
        );
        let assigned = ContributorAssigned { bounty_id: bounty.bounty_id, contributor };
        let completed = BountyCompleted {
            bounty_id: bounty.bounty_id,
            contributor,
            amount: bounty.amount,
        };
        self.bounty = Account { key: self.bounty.key, data: None };
        Ok((settlement, assigned, completed))
    }
}

} // verus!
