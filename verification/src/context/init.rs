use vstd::prelude::*;
use crate::state::account::{Account, TokenAccount};
use crate::state::bounty::{Bounty, BountyState};
use crate::state::config::ConfigState;
use crate::state::escrow::EscrowAuthority;
use crate::util::errors::ContractError;
use crate::util::events::BountyCreated;
use crate::util::ledger::Transfer;
use crate::util::pubkey::Pubkey;

verus! {

/// The accounts of a creation.
#[derive(Clone, Copy, Debug, PartialEq, Eq)]
pub struct InitializeBounty {
    /// Who signed the call and funds the bounty.
    pub maintainer: Pubkey,
    /// Where the record is to be stored: it holds nothing yet.
    pub bounty: Account<Bounty>,
    /// Where the funds come from.
    pub maintainer_token_account: TokenAccount,
    /// The custodian of the funds: the authority derived from the record's address.
    pub escrow_authority: Pubkey,
    pub config: Account<ConfigState>,
    /// Where the funds are to be held.
    pub escrow_token_account: TokenAccount,
    /// The asset to lock.
    pub mint: Pubkey,
}

impl InitializeBounty {
    /// The bump seed of the registry's address under `program_id`, where the registry
    /// account presented is at that address.
    pub open spec fn registry(&self, program_id: Pubkey) -> Option<u8> {
        ConfigState::bump_at(self.config.key, program_id)
    }

    /// The bump seed of the custodian derived under `program_id` from the record's
    /// address, where the custodian presented is that one.
    pub open spec fn escrow(&self, program_id: Pubkey) -> Option<u8> {
        EscrowAuthority::bump_at(self.escrow_authority, self.bounty.key, program_id)
    }

    /// The first guard that the call fails, if any, given what the derivations say:
    /// `registry`, as in [`Self::registry`], and `escrow`, as in [`Self::escrow`].
    /// Checked in turn: that the registry exists where it belongs and the custodian is the
    /// one derived for the record; that no record is stored there yet; that the accounts
    /// fit the asset and their owners; the amount.
    pub open spec fn rejection(
        &self,
        registry: Option<u8>,
        escrow: Option<u8>,
        minimum_bounty_amount: u64,
        amount: u64,
    ) -> Option<ContractError> {
        if self.config.data is None {
            Some(ContractError::AccountNotInitialized)
        } else if registry is None {
            Some(ContractError::InvalidAuthority)
        } else if escrow is None {
            Some(ContractError::InvalidAuthority)
        } else if self.escrow_token_account.owner != self.escrow_authority {
            Some(ContractError::InvalidAuthority)
        } else if self.bounty.data is Some {
            Some(ContractError::AccountAlreadyInitialized)
        } else if self.maintainer_token_account.owner != self.maintainer {
            Some(ContractError::InvalidTokenAccount)
        } else if self.maintainer_token_account.mint != self.mint {
            Some(ContractError::InvalidMint)
        } else if self.escrow_token_account.mint != self.mint {
            Some(ContractError::InvalidMint)
        } else if self.maintainer_token_account.key == self.escrow_token_account.key {
            Some(ContractError::InvalidTokenAccount)
        } else if amount == 0 {
            Some(ContractError::InvalidAmount)
        } else if amount < minimum_bounty_amount {
            Some(ContractError::InsufficientAmount)
        } else {
            None
        }
    }

    /// The record that a call which passes creates: at its first stage, without a
    /// contributor, with the administrator in office as its keeper.
    pub open spec fn record(&self, bump: u8, bounty_id: u64, amount: u64) -> Bounty {
        Bounty::created(
            self.maintainer,
            self.mint,
            bump,
            amount,
            bounty_id,
            self.config.data->0.admin,
        )
    }

    /// What the ledger is to do for a call that passes: the amount goes from the
    /// maintainer's account into escrow, on the maintainer's own word.
    pub open spec fn transfer(&self, amount: u64) -> Transfer {
        Transfer {
            from: self.maintainer_token_account.key,
            to: self.escrow_token_account.key,
            authority: self.maintainer,
            amount,
        }
    }

    /// What observers are told of a call that passes.
    pub open spec fn event(&self, bounty_id: u64, amount: u64) -> BountyCreated {
        BountyCreated { bounty_id, maintainer: self.maintainer, amount }
    }

    /// The accounts after a call that passes: the record is stored.
    pub open spec fn opened(&self, bump: u8, bounty_id: u64, amount: u64) -> InitializeBounty {
        InitializeBounty {
            bounty: Account {
                key: self.bounty.key,
                data: Some(self.record(bump, bounty_id, amount)),
            },
            ..*self
        }
    }

    /// The creation, given what the derivations say. Runs the guards in their order;
    /// where all of them pass, stores the record and gives the order to lock the amount
    /// and the event. A call that fails a guard changes nothing.
    pub fn apply(
        &mut self,
        registry: Option<u8>,
        escrow: Option<u8>,
        minimum_bounty_amount: u64,
        bounty_id: u64,
        amount: u64,
    ) -> (res: Result<(Transfer, BountyCreated), ContractError>)
        ensures
            match res {
                Ok((transfer, event)) => {
                    &&& old(self).rejection(registry, escrow, minimum_bounty_amount, amount)
                        is None
                    &&& escrow is Some
                    &&& transfer == old(self).transfer(amount)
                    &&& event == old(self).event(bounty_id, amount)
                    &&& *final(self) == old(self).opened(escrow->0, bounty_id, amount)
                },
                Err(e) => old(self).rejection(registry, escrow, minimum_bounty_amount, amount)
                    == Some(e) && *final(self) == *old(self),
            },
    {
        let config = match self.config.data {
            Some(config) => config,
            None => {
                return Err(ContractError::AccountNotInitialized);
            },
        };
        if registry.is_none() {
            return Err(ContractError::InvalidAuthority);
        }
        let bump = match escrow {
            Some(bump) => bump,
            None => {
                return Err(ContractError::InvalidAuthority);
            },
        };
        if self.escrow_token_account.owner != self.escrow_authority {
            return Err(ContractError::InvalidAuthority);
        }
        if self.bounty.data.is_some() {
            return Err(ContractError::AccountAlreadyInitialized);
        }
        if self.maintainer_token_account.owner != self.maintainer {
            return Err(ContractError::InvalidTokenAccount);
        }
        if self.maintainer_token_account.mint != self.mint {
            return Err(ContractError::InvalidMint);
        }
        if self.escrow_token_account.mint != self.mint {
            return Err(ContractError::InvalidMint);
        }
        if self.maintainer_token_account.key == self.escrow_token_account.key {
            return Err(ContractError::InvalidTokenAccount);
        }
        if amount == 0 {
            return Err(ContractError::InvalidAmount);
        }
        if amount < minimum_bounty_amount {
            return Err(ContractError::InsufficientAmount);
        }
        let record = Bounty {
            maintainer: self.maintainer,
            contributor: None,
            mint: self.mint,
            bump,
            amount,
            state: BountyState::Created,
            bounty_id,
            keeper: config.admin,
        };
        let transfer = Transfer {
            from: self.maintainer_token_account.key,
            to: self.escrow_token_account.key,
            authority: self.maintainer,
            amount,
        };
        let event = BountyCreated { bounty_id, maintainer: self.maintainer, amount };
        self.bounty = Account { key: self.bounty.key, data: Some(record) };
        Ok((transfer, event))
    }
}

} // verus!
