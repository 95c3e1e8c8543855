use vstd::prelude::*;
use crate::state::account::Account;
use crate::state::bounty::{Bounty, BountyState};
use crate::util::errors::ContractError;
use crate::util::events::ContributorAssigned;
use crate::util::pubkey::Pubkey;

verus! {

/// The accounts of an assignment.
#[derive(Clone, Copy, Debug, PartialEq, Eq)]
pub struct AssignContributor {
    /// Who signed the call: the bounty's maintainer.
    pub maintainer: Pubkey,
    pub bounty: Account<Bounty>,
    /// Who takes the work.
    pub contributor: Pubkey,
}

impl AssignContributor {
    /// The first guard that the call fails, if any. Checked in turn: that the record
    /// exists; who calls; that no contributor is named yet and the record is at its
    /// first stage.
    pub open spec fn rejection(&self) -> Option<ContractError> {
        if self.bounty.data is None {
            Some(ContractError::AccountNotInitialized)
        } else {
            let bounty = self.bounty.data->0;
            if bounty.maintainer != self.maintainer {
                Some(ContractError::MaintainerMismatch)
            } else if bounty.contributor is Some {
                Some(ContractError::ContributorAlreadyAssigned)
            } else if bounty.state != BountyState::Created {
                Some(ContractError::InvalidBountyStateForOperation)
            } else {
                None
            }
        }
    }

    /// What observers are told of a call that passes.
    pub open spec fn event(&self) -> ContributorAssigned {
        ContributorAssigned {
            bounty_id: self.bounty.data->0.bounty_id,
            contributor: self.contributor,
        }
    }

    /// The accounts after a call that passes: the record names the contributor and is in
    /// progress.
    pub open spec fn assigned(&self) -> AssignContributor {
        AssignContributor {
            bounty: Account {
                key: self.bounty.key,
                data: Some(self.bounty.data->0.assigned(self.contributor)),
            },
            ..*self
        }
    }

    /// The assignment. Runs the guards in their order; where all of them pass, names the
    /// contributor in the record, which is then in progress, and gives the event. A call
    /// that fails a guard changes nothing.
    pub fn apply(&mut self) -> (res: Result<ContributorAssigned, ContractError>)
        ensures
            match res {
                Ok(event) => {
                    &&& old(self).rejection() is None
                    &&& event == old(self).event()
                    &&& *final(self) == old(self).assigned()
                },
                Err(e) => old(self).rejection() == Some(e) && *final(self) == *old(self),
            },
    {
        let bounty = match self.bounty.data {
            Some(bounty) => bounty,
            None => {
                return Err(ContractError::AccountNotInitialized);
            },
        };
        if bounty.maintainer != self.maintainer {
            return Err(ContractError::MaintainerMismatch);
        }
        if bounty.contributor.is_some() {
            return Err(ContractError::ContributorAlreadyAssigned);
        }
        if bounty.state != BountyState::Created {
            return Err(ContractError::InvalidBountyStateForOperation);
        }
        let contributor = self.contributor;
        let record = Bounty {
            contributor: Some(contributor),
            state: BountyState::InProgress,
            ..bounty
        };
        self.bounty = Account { key: self.bounty.key, data: Some(record) };
        Ok(ContributorAssigned { bounty_id: bounty.bounty_id, contributor })
    }
}

} // verus!
