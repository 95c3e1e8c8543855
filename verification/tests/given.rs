use octasol_contract::context::{
    AdminAssignAndRelease, AssignContributor, CancelBounty, CompleteBounty, InitializeBounty,
    InitializeConfig, UpdateAdmin,
};
use octasol_contract::state::account::{Account, TokenAccount};
use octasol_contract::state::bounty::{Bounty, BountyState};
use octasol_contract::state::config::ConfigState;
use octasol_contract::state::escrow::EscrowAuthority;
use octasol_contract::util::errors::ContractError;
use octasol_contract::util::events::{AdminUpdated, BountyCreated, ContributorAssigned};
use octasol_contract::util::ledger::{CloseAccount, Settlement, Transfer};
use octasol_contract::util::pubkey::Pubkey;

fn a(n: u8) -> Pubkey {
    Pubkey::new_from_array([n; 32])
}

fn wallet(at: u8, owner: u8) -> TokenAccount {
    TokenAccount { key: a(at), mint: a(4), owner: a(owner) }
}

fn stored(state: BountyState, contributor: Option<Pubkey>) -> Account<Bounty> {
    Account::holding(
        a(30),
        Bounty {
            maintainer: a(2),
            contributor,
            mint: a(4),
            bump: 250,
            amount: 80,
            state,
            bounty_id: 9,
            keeper: a(1),
        },
    )
}

fn office() -> Account<ConfigState> {
    Account::holding(a(40), ConfigState { admin: a(1), bump: 251 })
}

#[test]
fn config_apply_follows_the_derivation_given() {
    let mut accounts = InitializeConfig { admin: a(1), config: Account::vacant(a(40)) };
    assert_eq!(accounts.apply(None), Err(ContractError::InvalidAuthority));
    assert!(accounts.config.is_vacant());
    assert_eq!(accounts.apply(Some(251)), Ok(()));
    assert_eq!(accounts.config, office());
    assert_eq!(accounts.apply(Some(251)), Err(ContractError::AccountAlreadyInitialized));
    assert_eq!(accounts.apply(None), Err(ContractError::InvalidAuthority));
}

#[test]
fn creation_apply_follows_the_derivations_given() {
    let fresh = InitializeBounty {
        maintainer: a(2),
        bounty: Account::vacant(a(30)),
        maintainer_token_account: wallet(12, 2),
        escrow_authority: a(5),
        config: office(),
        escrow_token_account: wallet(14, 5),
        mint: a(4),
    };
    let mut accounts = fresh;
    assert_eq!(accounts.apply(None, Some(250), 0, 9, 80), Err(ContractError::InvalidAuthority));
    assert_eq!(accounts.apply(Some(251), None, 0, 9, 80), Err(ContractError::InvalidAuthority));
    assert_eq!(accounts, fresh);
    let (transfer, event) = accounts.apply(Some(251), Some(250), 0, 9, 80).unwrap();
    assert_eq!(transfer, Transfer { from: a(12), to: a(14), authority: a(2), amount: 80 });
    assert_eq!(event, BountyCreated { bounty_id: 9, maintainer: a(2), amount: 80 });
    assert_eq!(accounts.bounty, stored(BountyState::Created, None));
    assert_eq!(
        accounts.apply(Some(251), Some(250), 0, 9, 80),
        Err(ContractError::AccountAlreadyInitialized)
    );
}

#[test]
fn assignment_apply() {
    let mut accounts = AssignContributor {
        maintainer: a(2),
        bounty: stored(BountyState::Created, None),
        contributor: a(3),
    };
    assert_eq!(accounts.apply(), Ok(ContributorAssigned { bounty_id: 9, contributor: a(3) }));
    assert_eq!(accounts.bounty, stored(BountyState::InProgress, Some(a(3))));
    assert_eq!(accounts.apply(), Err(ContractError::ContributorAlreadyAssigned));
}

#[test]
fn completion_apply_follows_the_derivation_given() {
    let ready = CompleteBounty {
        bounty: stored(BountyState::InProgress, Some(a(3))),
        escrow_authority: a(5),
        maintainer: a(2),
        contributor: a(3),
        keeper: a(1),
        contributor_token_account: wallet(13, 3),
        escrow_token_account: wallet(14, 5),
    };
    let mut accounts = ready;
    assert_eq!(accounts.apply(false, 9), Err(ContractError::InvalidAuthority));
    assert_eq!(accounts, ready);
    let (settlement, event) = accounts.apply(true, 9).unwrap();
    assert_eq!(event.amount, 80);
    assert_eq!(
        settlement,
        Settlement {
            bounty: a(30),
            record: stored(BountyState::Completed, Some(a(3))).data.unwrap(),
            authority: EscrowAuthority { identity: a(5), bump: 250 },
            transfer: Transfer { from: a(14), to: a(13), authority: a(5), amount: 80 },
            close: CloseAccount { account: a(14), destination: a(2), authority: a(5) },
            refund_to: a(2),
        }
    );
    assert!(accounts.bounty.is_vacant());
    assert_eq!(accounts.apply(true, 9), Err(ContractError::AccountNotInitialized));
}

#[test]
fn cancellation_apply_follows_the_derivations_given() {
    let ready = CancelBounty {
        admin: a(1),
        config: office(),
        bounty: stored(BountyState::InProgress, Some(a(3))),
        escrow_authority: a(5),
        maintainer: a(2),
        maintainer_token_account: wallet(12, 2),
        escrow_token_account: wallet(14, 5),
    };
    let mut accounts = ready;
    assert_eq!(accounts.apply(None, true), Err(ContractError::InvalidAuthority));
    assert_eq!(accounts.apply(Some(251), false), Err(ContractError::InvalidAuthority));
    assert_eq!(accounts, ready);
    let (settlement, event) = accounts.apply(Some(251), true).unwrap();
    assert_eq!(event.maintainer, a(2));
    assert_eq!(settlement.record, stored(BountyState::Cancelled, None).data.unwrap());
    assert_eq!(
        settlement.transfer,
        Transfer { from: a(14), to: a(12), authority: a(5), amount: 80 }
    );
    assert!(accounts.bounty.is_vacant());
}

#[test]
fn rotation_apply_follows_the_derivation_given() {
    let mut accounts = UpdateAdmin { admin: a(1), config: office() };
    assert_eq!(accounts.apply(None, a(50)), Err(ContractError::InvalidAuthority));
    assert_eq!(
        accounts.apply(Some(251), a(50)),
        Ok(AdminUpdated { old_admin: a(1), new_admin: a(50) })
    );
    assert_eq!(accounts.config.data, Some(ConfigState { admin: a(50), bump: 251 }));
    assert_eq!(accounts.apply(Some(251), a(51)), Err(ContractError::Unauthorized));
}

#[test]
fn override_apply_follows_the_derivations_given() {
    let ready = AdminAssignAndRelease {
        admin: a(1),
        config: office(),
        bounty: stored(BountyState::Created, None),
        escrow_authority: a(5),
        maintainer: a(2),
        contributor: a(3),
        contributor_token_account: wallet(13, 3),
        escrow_token_account: wallet(14, 5),
    };
    let mut accounts = ready;
    assert_eq!(accounts.apply(None, true, 9), Err(ContractError::InvalidAuthority));
    assert_eq!(accounts.apply(Some(251), false, 9), Err(ContractError::InvalidAuthority));
    assert_eq!(accounts, ready);
    let (settlement, assigned, completed) = accounts.apply(Some(251), true, 9).unwrap();
    assert_eq!(assigned.contributor, a(3));
    assert_eq!(completed.amount, 80);
    assert_eq!(settlement.record, stored(BountyState::Completed, Some(a(3))).data.unwrap());
    assert!(accounts.bounty.is_vacant());

    let mut ended = AdminAssignAndRelease {
        bounty: stored(BountyState::Completed, Some(a(3))),
        ..ready
    };
    assert_eq!(
        ended.apply(Some(251), true, 9),
        Err(ContractError::InvalidBountyStateForOperation)
    );
    let mut ended =
        AdminAssignAndRelease { bounty: stored(BountyState::Cancelled, None), ..ready };
    let before = ended;
    assert_eq!(
        ended.apply(Some(251), true, 9),
        Err(ContractError::InvalidBountyStateForOperation)
    );
    assert_eq!(ended, before);
}
