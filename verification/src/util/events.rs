use vstd::prelude::*;
use crate::util::pubkey::Pubkey;

verus! {

/// Funds were locked for a new bounty.
#[derive(Clone, Copy, Debug, PartialEq, Eq)]
pub struct BountyCreated {
    pub bounty_id: u64,
    pub maintainer: Pubkey,
    pub amount: u64,
}

/// A contributor took a bounty.
#[derive(Clone, Copy, Debug, PartialEq, Eq)]
pub struct ContributorAssigned {
    pub bounty_id: u64,
    pub contributor: Pubkey,
}

/// A bounty's funds went to its contributor.
#[derive(Clone, Copy, Debug, PartialEq, Eq)]
pub struct BountyCompleted {
    pub bounty_id: u64,
    pub contributor: Pubkey,
    pub amount: u64,
}

/// A bounty's funds went back to its maintainer.
#[derive(Clone, Copy, Debug, PartialEq, Eq)]
pub struct BountyCancelled {
    pub bounty_id: u64,
    pub maintainer: Pubkey,
    pub amount: u64,
}

/// The office of administrator changed hands.
#[derive(Clone, Copy, Debug, PartialEq, Eq)]
pub struct AdminUpdated {
    pub old_admin: Pubkey,
    pub new_admin: Pubkey,
}

} // verus!
