use vstd::prelude::*;
use crate::util::pubkey::Pubkey;

verus! {

/// The stage of a bounty. `Completed` and `Cancelled` are final.
#[derive(Clone, Copy, Debug, PartialEq, Eq, Structural, Hash)]
pub enum BountyState {
    Created,
    InProgress,
    Completed,
    Cancelled,
}

impl BountyState {
    /// Whether no operation may act on a record at this stage.
    pub open spec fn is_terminal(self) -> bool {
        self == BountyState::Completed || self == BountyState::Cancelled
    }
}

/// The record of one funded issue.
#[derive(Clone, Copy, Debug, PartialEq, Eq)]
pub struct Bounty {
    /// Who locked the funds.
    pub maintainer: Pubkey,
    /// Who does the work: absent until assigned.
    pub contributor: Option<Pubkey>,
    /// The asset locked.
    pub mint: Pubkey,
    /// The bump seed of the escrow authority.
    pub bump: u8,
    /// How much is locked.
    pub amount: u64,
    pub state: BountyState,
    /// The number the maintainer gave the bounty.
    pub bounty_id: u64,
    /// Who, beside the maintainer, may release the funds to the contributor.
    pub keeper: Pubkey,
}

impl Bounty {
    /// Bytes of storage that a record takes.
    pub const LEN: usize = 8 + 32 + 33 + 8 + 1 + 8 + 32 + 8 + 32;

    /// What holds of every record that the operations make: something is locked, and a
    /// contributor is named exactly from assignment on.
    pub open spec fn wf(self) -> bool {
        &&& self.amount > 0
        &&& (self.contributor is Some <==> (self.state == BountyState::InProgress || self.state
            == BountyState::Completed))
    }

    /// The record right after creation.
    pub open spec fn created(
        maintainer: Pubkey,
        mint: Pubkey,
        bump: u8,
        amount: u64,
        bounty_id: u64,
        keeper: Pubkey,
    ) -> Bounty {
        Bounty {
            maintainer,
            contributor: None,
            mint,
            bump,
            amount,
            state: BountyState::Created,
            bounty_id,
            keeper,
        }
    }

    /// The record once `contributor` has taken the work.
    pub open spec fn assigned(self, contributor: Pubkey) -> Bounty {
        Bounty { contributor: Some(contributor), state: BountyState::InProgress, ..self }
    }

    /// The record once the funds have gone to its contributor.
    pub open spec fn completed(self) -> Bounty {
        Bounty { state: BountyState::Completed, ..self }
    }

    /// The record once the funds have gone back to the maintainer: an assignment made
    /// before lapses.
    pub open spec fn cancelled(self) -> Bounty {
        Bounty { contributor: None, state: BountyState::Cancelled, ..self }
    }
}

} // verus!
