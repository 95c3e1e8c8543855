//! An escrow for bounties on issues. A maintainer locks tokens for an issue, a
//! contributor is assigned, and the tokens go to the contributor on completion or back to
//! the maintainer on cancellation. No key holds the locked tokens: their custodian is an
//! address derived from the bounty's own, for which only the program can sign.
//!
//! Each operation takes the accounts that the caller presents, derives the addresses that
//! must be derived, checks its guards in a fixed order and either rejects the call,
//! changing nothing, or changes the record and says what the token ledger is to do. The
//! ledger itself is not part of this library: a caller whose ledger refuses an order
//! drops the changed accounts with it, so that the call as a whole changes all or nothing.

use vstd::prelude::*;

pub mod context;
pub mod lifecycle;
pub mod state;
pub mod util;

use crate::context::{
    AdminAssignAndRelease,
    AssignContributor,
    CancelBounty,
    CompleteBounty,
    Context,
    InitializeBounty,
    InitializeConfig,
    UpdateAdmin,
};
use crate::state::config::ConfigState;
use crate::state::escrow::EscrowAuthority;
use crate::util::errors::ContractError;
use crate::util::events::{
    AdminUpdated,
    BountyCancelled,
    BountyCompleted,
    BountyCreated,
    ContributorAssigned,
};
use crate::util::ledger::{Settlement, Transfer};
use crate::util::pubkey::Pubkey;

verus! {

/// Sets up the registry, once, with the caller as the first administrator.
/// A call that fails a guard changes nothing.
pub fn initialize_config(ctx: &mut Context<InitializeConfig>) -> (res: Result<(), ContractError>)
    ensures
        match res {
            Ok(_) => {
                &&& old(ctx).accounts.rejection(old(ctx).accounts.registry(old(ctx).program_id))
                    is None
                &&& *final(ctx) == old(ctx).carrying(
                    old(ctx).accounts.installed(
                        old(ctx).accounts.registry(old(ctx).program_id)->0,
                    ),
                )
            },
            Err(e) => old(ctx).accounts.rejection(old(ctx).accounts.registry(old(ctx).program_id))
                == Some(e) && *final(ctx) == *old(ctx),
        },
{
    let registry = ConfigState::locate(&ctx.accounts.config.key, &ctx.program_id);
    ctx.accounts.apply(registry)
}

/// Creates a bounty of `amount`, numbered `bounty_id`: the record is stored at its first
/// stage, and the ledger is to move `amount` from the maintainer's account into escrow.
/// A call that fails a guard changes nothing.
pub fn initialize_bounty(ctx: &mut Context<InitializeBounty>, bounty_id: u64, amount: u64) -> (res:
    Result<(Transfer, BountyCreated), ContractError>)
    ensures
        match res {
            Ok((transfer, event)) => {
                &&& old(ctx).accounts.rejection(
                    old(ctx).accounts.registry(old(ctx).program_id),
                    old(ctx).accounts.escrow(old(ctx).program_id),
                    old(ctx).minimum_bounty_amount,
                    amount,
                ) is None
                &&& transfer == old(ctx).accounts.transfer(amount)
                &&& event == old(ctx).accounts.event(bounty_id, amount)
                &&& *final(ctx) == old(ctx).carrying(
                    old(ctx).accounts.opened(
                        old(ctx).accounts.escrow(old(ctx).program_id)->0,
                        bounty_id,
                        amount,
                    ),
                )
            },
            Err(e) => old(ctx).accounts.rejection(
                old(ctx).accounts.registry(old(ctx).program_id),
                old(ctx).accounts.escrow(old(ctx).program_id),
                old(ctx).minimum_bounty_amount,
                amount,
            ) == Some(e) && *final(ctx) == *old(ctx),
        },
{
    let registry = ConfigState::locate(&ctx.accounts.config.key, &ctx.program_id);
    let escrow = EscrowAuthority::locate(
        &ctx.accounts.escrow_authority,
        &ctx.accounts.bounty.key,
        &ctx.program_id,
    );
    let minimum = ctx.minimum_bounty_amount;
    ctx.accounts.apply(registry, escrow, minimum, bounty_id, amount)
}

/// Assigns the contributor to a bounty at its first stage, which is then in progress.
/// Only the maintainer may assign, and only once.
/// A call that fails a guard changes nothing.
pub fn assign_contributor(ctx: &mut Context<AssignContributor>) -> (res: Result<
    ContributorAssigned,
    ContractError,
>)
    ensures
        match res {
            Ok(event) => {
                &&& old(ctx).accounts.rejection() is None
                &&& event == old(ctx).accounts.event()
                &&& *final(ctx) == old(ctx).carrying(old(ctx).accounts.assigned())
            },
            Err(e) => old(ctx).accounts.rejection() == Some(e) && *final(ctx) == *old(ctx),
        },
{
    ctx.accounts.apply()
}

/// Completes the bounty numbered `bounty_id`, which is in progress: all that is locked
/// goes to the contributor's account, the escrow account is closed and the record is
/// destroyed, both deposits going to the maintainer. The bounty's keeper may complete it,
/// and so may its maintainer.
/// A call that fails a guard changes nothing.
pub fn complete_bounty(ctx: &mut Context<CompleteBounty>, bounty_id: u64) -> (res: Result<
    (Settlement, BountyCompleted),
    ContractError,
>)
    ensures
        match res {
            Ok((settlement, event)) => {
                &&& old(ctx).accounts.rejection(
                    old(ctx).accounts.custody(old(ctx).program_id),
                    bounty_id,
                ) is None
                &&& settlement == old(ctx).accounts.settlement()
                &&& event == old(ctx).accounts.event()
                &&& *final(ctx) == old(ctx).carrying(old(ctx).accounts.closed())
            },
            Err(e) => old(ctx).accounts.rejection(
                old(ctx).accounts.custody(old(ctx).program_id),
                bounty_id,
            ) == Some(e) && *final(ctx) == *old(ctx),
        },
{
    let custody = match ctx.accounts.bounty.data {
        Some(bounty) => (EscrowAuthority {
            identity: ctx.accounts.escrow_authority,
            bump: bounty.bump,
        }).verify(&ctx.accounts.bounty.key, &ctx.program_id),
        None => false,
    };
    ctx.accounts.apply(custody, bounty_id)
}

/// Cancels a bounty that has not ended: all that is locked goes back to the maintainer's
/// account, the escrow account is closed and the record is destroyed, both deposits going
/// to the maintainer. An assignment made before lapses. The administrator in office may
/// cancel, and so may the maintainer.
/// A call that fails a guard changes nothing.
pub fn cancel_bounty(ctx: &mut Context<CancelBounty>) -> (res: Result<
    (Settlement, BountyCancelled),
    ContractError,
>)
    ensures
        match res {
            Ok((settlement, event)) => {
                &&& old(ctx).accounts.rejection(
                    old(ctx).accounts.registry(old(ctx).program_id),
                    old(ctx).accounts.custody(old(ctx).program_id),
                ) is None
                &&& settlement == old(ctx).accounts.settlement()
                &&& event == old(ctx).accounts.event()
                &&& *final(ctx) == old(ctx).carrying(old(ctx).accounts.closed())
            },
            Err(e) => old(ctx).accounts.rejection(
                old(ctx).accounts.registry(old(ctx).program_id),
                old(ctx).accounts.custody(old(ctx).program_id),
            ) == Some(e) && *final(ctx) == *old(ctx),
        },
{
    let registry = ConfigState::locate(&ctx.accounts.config.key, &ctx.program_id);
    let custody = match ctx.accounts.bounty.data {
        Some(bounty) => (EscrowAuthority {
            identity: ctx.accounts.escrow_authority,
            bump: bounty.bump,
        }).verify(&ctx.accounts.bounty.key, &ctx.program_id),
        None => false,
    };
    ctx.accounts.apply(registry, custody)
}

/// Hands the office of administrator to `new_admin`, who must be someone, and someone
/// else. Only the administrator in office may do so; from then on every guard on the
/// administrator asks for the successor.
/// A call that fails a guard changes nothing.
pub fn update_admin(ctx: &mut Context<UpdateAdmin>, new_admin: Pubkey) -> (res: Result<
    AdminUpdated,
    ContractError,
>)
    ensures
        match res {
            Ok(event) => {
                &&& old(ctx).accounts.rejection(
                    old(ctx).accounts.registry(old(ctx).program_id),
                    new_admin,
                ) is None
                &&& event == old(ctx).accounts.event(new_admin)
                &&& *final(ctx) == old(ctx).carrying(old(ctx).accounts.rotated(new_admin))
            },
            Err(e) => old(ctx).accounts.rejection(
                old(ctx).accounts.registry(old(ctx).program_id),
                new_admin,
            ) == Some(e) && *final(ctx) == *old(ctx),
        },
{
    let registry = ConfigState::locate(&ctx.accounts.config.key, &ctx.program_id);
    ctx.accounts.apply(registry, new_admin)
}

/// The administrator's override on the bounty numbered `bounty_id`, which has not ended:
/// the contributor of the call is named, whoever was named before, and paid all that is
/// locked in the same step; the escrow account is closed and the record is destroyed,
/// both deposits going to the maintainer. Only the administrator in office may do so. A
/// record that has ended is rejected as not at a stage for this operation.
/// A call that fails a guard changes nothing.
pub fn admin_assign_and_release(ctx: &mut Context<AdminAssignAndRelease>, bounty_id: u64) -> (res:
    Result<(Settlement, ContributorAssigned, BountyCompleted), ContractError>)
    ensures
        match res {
            Ok((settlement, assigned, completed)) => {
                &&& old(ctx).accounts.rejection(
                    old(ctx).accounts.registry(old(ctx).program_id),
                    old(ctx).accounts.custody(old(ctx).program_id),
                    bounty_id,
                ) is None
                &&& settlement == old(ctx).accounts.settlement()
                &&& assigned == old(ctx).accounts.assigned_event()
                &&& completed == old(ctx).accounts.completed_event()
                &&& *final(ctx) == old(ctx).carrying(old(ctx).accounts.closed())
            },
            Err(e) => old(ctx).accounts.rejection(
                old(ctx).accounts.registry(old(ctx).program_id),
                old(ctx).accounts.custody(old(ctx).program_id),
                bounty_id,
            ) == Some(e) && *final(ctx) == *old(ctx),
        },
{
    let registry = ConfigState::locate(&ctx.accounts.config.key, &ctx.program_id);
    let custody = match ctx.accounts.bounty.data {
        Some(bounty) => (EscrowAuthority {
            identity: ctx.accounts.escrow_authority,
            bump: bounty.bump,
        }).verify(&ctx.accounts.bounty.key, &ctx.program_id),
        None => false,
    };
    ctx.accounts.apply(registry, custody, bounty_id)
}

} // verus!
