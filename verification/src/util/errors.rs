use vstd::prelude::*;

verus! {

/// Why an operation was rejected. One operation reports one kind: that of the first
/// guard that failed.
#[derive(Clone, Copy, Debug, PartialEq, Eq, Structural, Hash)]
pub enum ContractError {
    /// The amount to lock is zero.
    InvalidAmount,
    /// The amount to lock is under the minimum that the deployment asks for.
    InsufficientAmount,
    /// The request names another bounty than the record holds, or a new administrator
    /// that is empty or already in office.
    InvalidBountyState,
    /// The record has no contributor, or another one than the account to be paid.
    InvalidContributor,
    /// The caller does not hold the role that the operation asks for.
    Unauthorized,
    /// The record is not at the stage from which the operation starts.
    InvalidBountyStateForOperation,
    /// The maintainer given is not the one who funded the bounty.
    MaintainerMismatch,
    /// A contributor was assigned before.
    ContributorAlreadyAssigned,
    /// The bounty was paid out before.
    BountyAlreadyCompleted,
    /// The bounty was refunded before.
    BountyAlreadyCancelled,
    /// A token account holds another asset than the bounty.
    InvalidMint,
    /// A token account is not owned by the party it is presented for, or stands on both
    /// sides of a transfer.
    InvalidTokenAccount,
    /// An address given does not match the one derived for it: the registry's, or the
    /// escrow authority's.
    InvalidAuthority,
    /// The record or the registry does not exist: never created, or destroyed since.
    AccountNotInitialized,
    /// The record or the registry to create exists already.
    AccountAlreadyInitialized,
}

impl ContractError {
    /// The number under which callers see the error: 6000 and the variant's position.
    pub open spec fn spec_code(self) -> u32 {
        match self {
            ContractError::InvalidAmount => 6000,
            ContractError::InsufficientAmount => 6001,
            ContractError::InvalidBountyState => 6002,
            ContractError::InvalidContributor => 6003,
            ContractError::Unauthorized => 6004,
            ContractError::InvalidBountyStateForOperation => 6005,
            ContractError::MaintainerMismatch => 6006,
            ContractError::ContributorAlreadyAssigned => 6007,
            ContractError::BountyAlreadyCompleted => 6008,
            ContractError::BountyAlreadyCancelled => 6009,
            ContractError::InvalidMint => 6010,
            ContractError::InvalidTokenAccount => 6011,
            ContractError::InvalidAuthority => 6012,
            ContractError::AccountNotInitialized => 6013,
            ContractError::AccountAlreadyInitialized => 6014,
        }
    }

    #[verifier::when_used_as_spec(spec_code)]
    pub fn code(self) -> (code: u32)
        ensures
            code == self.spec_code(),
    {
        match self {
            ContractError::InvalidAmount => 6000,
            ContractError::InsufficientAmount => 6001,
            ContractError::InvalidBountyState => 6002,
            ContractError::InvalidContributor => 6003,
            ContractError::Unauthorized => 6004,
            ContractError::InvalidBountyStateForOperation => 6005,
            ContractError::MaintainerMismatch => 6006,
            ContractError::ContributorAlreadyAssigned => 6007,
            ContractError::BountyAlreadyCompleted => 6008,
            ContractError::BountyAlreadyCancelled => 6009,
            ContractError::InvalidMint => 6010,
            ContractError::InvalidTokenAccount => 6011,
            ContractError::InvalidAuthority => 6012,
            ContractError::AccountNotInitialized => 6013,
            ContractError::AccountAlreadyInitialized => 6014,
        }
    }

    /// The sentence shown to the caller.
    pub open spec fn spec_message(self) -> Seq<char> {
        match self {
            ContractError::InvalidAmount => "Amount must be greater than zero"@,
            ContractError::InsufficientAmount => "Insufficient bounty amount"@,
            ContractError::InvalidBountyState => "Invalid bounty state"@,
            ContractError::InvalidContributor => "Invalid contributor"@,
            ContractError::Unauthorized => "Unauthorized access"@,
            ContractError::InvalidBountyStateForOperation => "Bounty is not in correct state for this operation"@,
            ContractError::MaintainerMismatch => "Maintainer mismatch"@,
            ContractError::ContributorAlreadyAssigned => "Contributor already assigned"@,
            ContractError::BountyAlreadyCompleted => "Bounty is already completed"@,
            ContractError::BountyAlreadyCancelled => "Bounty is already cancelled"@,
            ContractError::InvalidMint => "Invalid mint"@,
            ContractError::InvalidTokenAccount => "Invalid token account"@,
            ContractError::InvalidAuthority => "Invalid escrow authority"@,
            ContractError::AccountNotInitialized => "Account is not initialized"@,
            ContractError::AccountAlreadyInitialized => "Account is already initialized"@,
        }
    }

    pub fn message(self) -> (text: &'static str)
        ensures
            text@ == self.spec_message(),
    {
        match self {
            ContractError::InvalidAmount => "Amount must be greater than zero",
            ContractError::InsufficientAmount => "Insufficient bounty amount",
            ContractError::InvalidBountyState => "Invalid bounty state",
            ContractError::InvalidContributor => "Invalid contributor",
            ContractError::Unauthorized => "Unauthorized access",
            ContractError::InvalidBountyStateForOperation => "Bounty is not in correct state for this operation",
            ContractError::MaintainerMismatch => "Maintainer mismatch",
            ContractError::ContributorAlreadyAssigned => "Contributor already assigned",
            ContractError::BountyAlreadyCompleted => "Bounty is already completed",
            ContractError::BountyAlreadyCancelled => "Bounty is already cancelled",
            ContractError::InvalidMint => "Invalid mint",
            ContractError::InvalidTokenAccount => "Invalid token account",
            ContractError::InvalidAuthority => "Invalid escrow authority",
            ContractError::AccountNotInitialized => "Account is not initialized",
            ContractError::AccountAlreadyInitialized => "Account is already initialized",
        }
    }
}

} // verus!
