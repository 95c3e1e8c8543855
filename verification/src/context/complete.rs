use vstd::prelude::*;
use crate::state::account::{Account, TokenAccount};
use crate::state::bounty::{Bounty, BountyState};
use crate::state::escrow::EscrowAuthority;
use crate::util::errors::ContractError;
use crate::util::events::BountyCompleted;
use crate::util::ledger::Settlement;
use crate::util::pubkey::Pubkey;

verus! {

/// The accounts of a completion.
#[derive(Clone, Copy, Debug, PartialEq, Eq)]
pub struct CompleteBounty {
    pub bounty: Account<Bounty>,
    /// The custodian of the bounty's funds.
    pub escrow_authority: Pubkey,
    /// Who gets the deposits back.
    pub maintainer: Pubkey,
    /// Who is paid.
    pub contributor: Pubkey,
    /// Who signed the call: the bounty's keeper, or its maintainer.
    pub keeper: Pubkey,
    /// Where the funds go.
    pub contributor_token_account: TokenAccount,
    /// Where the funds are held.
    pub escrow_token_account: TokenAccount,
}

impl CompleteBounty {
    /// Whether, under `program_id`, the custodian presented is the one that the record's
    /// address and bump seed give.
    pub open spec fn custody(&self, program_id: Pubkey) -> bool {
        self.bounty.data is Some && (EscrowAuthority {
            identity: self.escrow_authority,
            bump: self.bounty.data->0.bump,
        }).holds_for(self.bounty.key, program_id)
    }

    /// The first guard that the call fails, if any, given what the derivation says:
    /// `custody`, as in [`Self::custody`]. Checked in turn: that the record exists; who
    /// calls and whether the custodian is the bounty's own; the record's number and
    /// stage; that the accounts fit the record.
    pub open spec fn rejection(&self, custody: bool, bounty_id: u64) -> Option<ContractError> {
        if self.bounty.data is None {
            Some(ContractError::AccountNotInitialized)
        } else {
            let bounty = self.bounty.data->0;
            if self.keeper != bounty.keeper && self.keeper != bounty.maintainer {
                Some(ContractError::Unauthorized)
            } else if !custody {
                Some(ContractError::InvalidAuthority)
            } else if self.escrow_token_account.owner != self.escrow_authority {
                Some(ContractError::InvalidAuthority)
            } else if bounty.bounty_id != bounty_id {
                Some(ContractError::InvalidBountyState)
            } else if bounty.state != BountyState::InProgress {
                Some(ContractError::InvalidBountyStateForOperation)
            } else if bounty.contributor != Some(self.contributor) {
                Some(ContractError::InvalidContributor)
            } else if self.contributor_token_account.mint != bounty.mint {
                Some(ContractError::InvalidMint)
            } else if self.contributor_token_account.owner != self.contributor {
                Some(ContractError::InvalidTokenAccount)
            } else if self.escrow_token_account.mint != bounty.mint {
                Some(ContractError::InvalidMint)
            } else if bounty.maintainer != self.maintainer {
                Some(ContractError::MaintainerMismatch)
            } else if self.contributor_token_account.key == self.escrow_token_account.key {
                Some(ContractError::InvalidTokenAccount)
            } else {
                None
            }
        }
    }

    /// What the ledger is to do for a call that passes: all that is locked goes to the
    /// contributor's account.
    pub open spec fn settlement(&self) -> Settlement {
        Settlement::paying(
            self.bounty.key,
            self.bounty.data->0.completed(),
            self.escrow_authority,
            self.escrow_token_account.key,
            self.contributor_token_account.key,
        )
    }

    /// What observers are told of a call that passes.
    pub open spec fn event(&self) -> BountyCompleted {
        BountyCompleted {
            bounty_id: self.bounty.data->0.bounty_id,
            contributor: self.contributor,
            amount: self.bounty.data->0.amount,
        }
    }

    /// The accounts after a call that passes: the record is gone.
    pub open spec fn closed(&self) -> CompleteBounty {
        CompleteBounty { bounty: Account { key: self.bounty.key, data: None }, ..*self }
    }

    /// The completion, given what the derivation says. Runs the guards in their order;
    /// where all of them pass, destroys the record and gives the settlement and the
    /// event. A call that fails a guard changes nothing.
    pub fn apply(&mut self, custody: bool, bounty_id: u64) -> (res: Result<
        (Settlement, BountyCompleted),
        ContractError,
    >)
        ensures
            match res {
                Ok((settlement, event)) => {
                    &&& old(self).rejection(custody, bounty_id) is None
                    &&& settlement == old(self).settlement()
                    &&& event == old(self).event()
                    &&& *final(self) == old(self).closed()
                },
                Err(e) => old(self).rejection(custody, bounty_id) == Some(e) && *final(self)
                    == *old(self),
            },
    {
        let bounty = match self.bounty.data {
            Some(bounty) => bounty,
            None => {
                return Err(ContractError::AccountNotInitialized);
            },
        };
        if self.keeper != bounty.keeper && self.keeper != bounty.maintainer {
            return Err(ContractError::Unauthorized);
        }
        if !custody {
            return Err(ContractError::InvalidAuthority);
        }
        if self.escrow_token_account.owner != self.escrow_authority {
            return Err(ContractError::InvalidAuthority);
        }
        if bounty.bounty_id != bounty_id {
            return Err(ContractError::InvalidBountyState);
        }
        if bounty.state != BountyState::InProgress {
            return Err(ContractError::InvalidBountyStateForOperation);
        }
        match bounty.contributor {
            Some(contributor) => {
                if contributor != self.contributor {
                    return Err(ContractError::InvalidContributor);
                }
            },
            None => {
                return Err(ContractError::InvalidContributor);
            },
        }
        if self.contributor_token_account.mint != bounty.mint {
            return Err(ContractError::InvalidMint);
        }
        if self.contributor_token_account.owner != self.contributor {
            return Err(ContractError::InvalidTokenAccount);
        }
        if self.escrow_token_account.mint != bounty.mint {
            return Err(ContractError::InvalidMint);
        }
        if bounty.maintainer != self.maintainer {
            return Err(ContractError::MaintainerMismatch);
        }
        if self.contributor_token_account.key == self.escrow_token_account.key {
            return Err(ContractError::InvalidTokenAccount);
        }
        let record = Bounty { state: BountyState::Completed, ..bounty };
        let settlement = Settlement::pay(
            self.bounty.key,
            record,
            self.escrow_authority,
            self.escrow_token_account.key,
            self.contributor_token_account.key,
        );
        let event = BountyCompleted {
            bounty_id: bounty.bounty_id,
            contributor: self.contributor,
            amount: bounty.amount,
        };
        self.bounty = Account { key: self.bounty.key, data: None };
        Ok((settlement, event))
    }
}

} // verus!
