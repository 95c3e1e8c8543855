use vstd::prelude::*;
use crate::util::pubkey::Pubkey;

pub mod admin_ops;
pub mod assign;
pub mod cancel;
pub mod complete;
pub mod config;
pub mod init;
pub mod update_admin;

pub use self::admin_ops::AdminAssignAndRelease;
pub use self::assign::AssignContributor;
pub use self::cancel::CancelBounty;
pub use self::complete::CompleteBounty;
pub use self::config::InitializeConfig;
pub use self::init::InitializeBounty;
pub use self::update_admin::UpdateAdmin;

verus! {

/// One call: the program that runs it, what the deployment fixes, and the accounts that
/// the caller presents.
#[derive(Clone, Copy, Debug, PartialEq, Eq)]
pub struct Context<T> {
    /// The program's own address, under which every address is derived.
    pub program_id: Pubkey,
    /// The least amount that a new bounty may lock (zero: any amount but zero).
    pub minimum_bounty_amount: u64,
    pub accounts: T,
}

impl<T> Context<T> {
    /// The same call with `accounts` in place of its own.
    pub open spec fn carrying(self, accounts: T) -> Context<T> {
        Context { accounts, ..self }
    }

    /// A call to a deployment that asks for no minimum.
    pub fn new(program_id: Pubkey, accounts: T) -> (ctx: Context<T>)
        ensures
            ctx.program_id == program_id,
            ctx.minimum_bounty_amount == 0,
            ctx.accounts == accounts,
    {
        Context { program_id, minimum_bounty_amount: 0, accounts }
    }

    /// A call to a deployment that asks for at least `minimum_bounty_amount`.
    pub fn with_minimum(program_id: Pubkey, minimum_bounty_amount: u64, accounts: T) -> (ctx:
        Context<T>)
        ensures
            ctx.program_id == program_id,
            ctx.minimum_bounty_amount == minimum_bounty_amount,
            ctx.accounts == accounts,
    {
        Context { program_id, minimum_bounty_amount, accounts }
    }
}

} // verus!
