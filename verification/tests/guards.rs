use octasol_contract::context::{
    AdminAssignAndRelease, AssignContributor, CancelBounty, CompleteBounty, Context,
    InitializeBounty,
};
use octasol_contract::state::account::{Account, TokenAccount};
use octasol_contract::state::bounty::{Bounty, BountyState};
use octasol_contract::state::config::ConfigState;
use octasol_contract::state::escrow::EscrowAuthority;
use octasol_contract::util::errors::ContractError;
use octasol_contract::util::pubkey::Pubkey;
use octasol_contract::{
    admin_assign_and_release, assign_contributor, cancel_bounty, complete_bounty,
    initialize_bounty,
};

fn k(n: u8) -> Pubkey {
    Pubkey::new_from_array([n; 32])
}

fn program() -> Pubkey {
    k(200)
}

fn config() -> Account<ConfigState> {
    let (address, bump) = ConfigState::address(&program()).unwrap();
    Account::holding(address, ConfigState { admin: k(1), bump })
}

fn authority() -> EscrowAuthority {
    EscrowAuthority::derive(&k(30), &program()).unwrap()
}

fn tokens(at: u8, owner: Pubkey) -> TokenAccount {
    TokenAccount { key: k(at), mint: k(4), owner }
}

fn record(state: BountyState, contributor: Option<Pubkey>) -> Bounty {
    Bounty {
        maintainer: k(2),
        contributor,
        mint: k(4),
        bump: authority().bump,
        amount: 640,
        state,
        bounty_id: 5,
        keeper: k(1),
    }
}

fn in_progress() -> Account<Bounty> {
    Account::holding(k(30), record(BountyState::InProgress, Some(k(3))))
}

fn created() -> Account<Bounty> {
    Account::holding(k(30), record(BountyState::Created, None))
}

fn creating() -> InitializeBounty {
    InitializeBounty {
        maintainer: k(2),
        bounty: Account::vacant(k(30)),
        maintainer_token_account: tokens(12, k(2)),
        escrow_authority: authority().identity,
        config: config(),
        escrow_token_account: tokens(14, authority().identity),
        mint: k(4),
    }
}

fn completing() -> CompleteBounty {
    CompleteBounty {
        bounty: in_progress(),
        escrow_authority: authority().identity,
        maintainer: k(2),
        contributor: k(3),
        keeper: k(1),
        contributor_token_account: tokens(13, k(3)),
        escrow_token_account: tokens(14, authority().identity),
    }
}

fn cancelling() -> CancelBounty {
    CancelBounty {
        admin: k(1),
        config: config(),
        bounty: created(),
        escrow_authority: authority().identity,
        maintainer: k(2),
        maintainer_token_account: tokens(12, k(2)),
        escrow_token_account: tokens(14, authority().identity),
    }
}

fn overriding() -> AdminAssignAndRelease {
    AdminAssignAndRelease {
        admin: k(1),
        config: config(),
        bounty: created(),
        escrow_authority: authority().identity,
        maintainer: k(2),
        contributor: k(3),
        contributor_token_account: tokens(13, k(3)),
        escrow_token_account: tokens(14, authority().identity),
    }
}

fn create(accounts: InitializeBounty, amount: u64) -> Result<(), ContractError> {
    let mut ctx = Context::with_minimum(program(), 100, accounts);
    let before = ctx;
    let res = initialize_bounty(&mut ctx, 5, amount).map(|_| ());
    if res.is_err() {
        assert_eq!(ctx, before);
    }
    res
}

fn complete(accounts: CompleteBounty, id: u64) -> Result<(), ContractError> {
    let mut ctx = Context::new(program(), accounts);
    let before = ctx;
    let res = complete_bounty(&mut ctx, id).map(|_| ());
    if res.is_err() {
        assert_eq!(ctx, before);
    }
    res
}

fn cancel(accounts: CancelBounty) -> Result<(), ContractError> {
    let mut ctx = Context::new(program(), accounts);
    let before = ctx;
    let res = cancel_bounty(&mut ctx).map(|_| ());
    if res.is_err() {
        assert_eq!(ctx, before);
    }
    res
}

fn override_(accounts: AdminAssignAndRelease, id: u64) -> Result<(), ContractError> {
    let mut ctx = Context::new(program(), accounts);
    let before = ctx;
    let res = admin_assign_and_release(&mut ctx, id).map(|_| ());
    if res.is_err() {
        assert_eq!(ctx, before);
    }
    res
}

fn assign(accounts: AssignContributor) -> Result<(), ContractError> {
    let mut ctx = Context::new(program(), accounts);
    let before = ctx;
    let res = assign_contributor(&mut ctx).map(|_| ());
    if res.is_err() {
        assert_eq!(ctx, before);
    }
    res
}

#[test]
fn the_fixtures_pass() {
    assert_eq!(create(creating(), 640), Ok(()));
    assert_eq!(complete(completing(), 5), Ok(()));
    assert_eq!(cancel(cancelling()), Ok(()));
    assert_eq!(override_(overriding(), 5), Ok(()));
    assert_eq!(
        assign(AssignContributor { maintainer: k(2), bounty: created(), contributor: k(3) }),
        Ok(())
    );
}

#[test]
fn creation_guards() {
    let ok = creating();
    assert_eq!(
        create(InitializeBounty { config: Account::vacant(ok.config.key), ..ok }, 640),
        Err(ContractError::AccountNotInitialized)
    );
    assert_eq!(
        create(
            InitializeBounty { config: Account::holding(k(77), ok.config.data.unwrap()), ..ok },
            640
        ),
        Err(ContractError::InvalidAuthority)
    );
    assert_eq!(
        create(InitializeBounty { escrow_authority: k(78), ..ok }, 640),
        Err(ContractError::InvalidAuthority)
    );
    assert_eq!(
        create(InitializeBounty { bounty: Account::vacant(k(31)), ..ok }, 640),
        Err(ContractError::InvalidAuthority)
    );
    assert_eq!(
        create(InitializeBounty { escrow_token_account: tokens(14, k(2)), ..ok }, 640),
        Err(ContractError::InvalidAuthority)
    );
    assert_eq!(
        create(InitializeBounty { bounty: created(), ..ok }, 640),
        Err(ContractError::AccountAlreadyInitialized)
    );
    assert_eq!(
        create(InitializeBounty { maintainer_token_account: tokens(12, k(9)), ..ok }, 640),
        Err(ContractError::InvalidTokenAccount)
    );
    assert_eq!(
        create(
            InitializeBounty {
                maintainer_token_account: TokenAccount { mint: k(5), ..ok.maintainer_token_account },
                ..ok
            },
            640
        ),
        Err(ContractError::InvalidMint)
    );
    assert_eq!(
        create(
            InitializeBounty {
                escrow_token_account: TokenAccount { mint: k(5), ..ok.escrow_token_account },
                ..ok
            },
            640
        ),
        Err(ContractError::InvalidMint)
    );
    assert_eq!(
        create(
            InitializeBounty {
                escrow_token_account: TokenAccount { key: k(12), ..ok.escrow_token_account },
                ..ok
            },
            640
        ),
        Err(ContractError::InvalidTokenAccount)
    );
    assert_eq!(create(ok, 0), Err(ContractError::InvalidAmount));
    assert_eq!(create(ok, 99), Err(ContractError::InsufficientAmount));
    assert_eq!(create(ok, 100), Ok(()));
    assert_eq!(create(ok, u64::MAX), Ok(()));
}

#[test]
fn creation_reports_the_first_guard_that_fails() {
    let ok = creating();
    let all_wrong = InitializeBounty {
        bounty: created(),
        maintainer_token_account: TokenAccount { key: k(14), mint: k(5), owner: k(9) },
        escrow_authority: k(78),
        ..ok
    };
    assert_eq!(create(all_wrong, 0), Err(ContractError::InvalidAuthority));
    let stored = InitializeBounty { escrow_authority: ok.escrow_authority, ..all_wrong };
    assert_eq!(create(stored, 0), Err(ContractError::AccountAlreadyInitialized));
    let vacant = InitializeBounty { bounty: ok.bounty, ..stored };
    assert_eq!(create(vacant, 0), Err(ContractError::InvalidTokenAccount));
    let owned = InitializeBounty {
        maintainer_token_account: TokenAccount { owner: k(2), ..vacant.maintainer_token_account },
        ..vacant
    };
    assert_eq!(create(owned, 0), Err(ContractError::InvalidMint));
}

#[test]
fn assignment_guards() {
    let ok = AssignContributor { maintainer: k(2), bounty: created(), contributor: k(3) };
    assert_eq!(
        assign(AssignContributor { bounty: Account::vacant(k(30)), ..ok }),
        Err(ContractError::AccountNotInitialized)
    );
    assert_eq!(
        assign(AssignContributor { maintainer: k(1), ..ok }),
        Err(ContractError::MaintainerMismatch)
    );
    assert_eq!(
        assign(AssignContributor { bounty: in_progress(), ..ok }),
        Err(ContractError::ContributorAlreadyAssigned)
    );
    assert_eq!(
        assign(AssignContributor {
            bounty: Account::holding(k(30), record(BountyState::Cancelled, None)),
            ..ok
        }),
        Err(ContractError::InvalidBountyStateForOperation)
    );
    assert_eq!(
        assign(AssignContributor {
            maintainer: k(1),
            bounty: Account::holding(k(30), record(BountyState::Completed, Some(k(3)))),
            ..ok
        }),
        Err(ContractError::MaintainerMismatch)
    );
}

#[test]
fn completion_guards() {
    let ok = completing();
    let with = |bounty: Bounty| CompleteBounty { bounty: Account::holding(k(30), bounty), ..ok };
    assert_eq!(
        complete(CompleteBounty { bounty: Account::vacant(k(30)), ..ok }, 5),
        Err(ContractError::AccountNotInitialized)
    );
    assert_eq!(
        complete(CompleteBounty { keeper: k(3), ..ok }, 5),
        Err(ContractError::Unauthorized)
    );
    assert_eq!(complete(CompleteBounty { keeper: k(2), ..ok }, 5), Ok(()));
    assert_eq!(
        complete(CompleteBounty { escrow_authority: k(78), ..ok }, 5),
        Err(ContractError::InvalidAuthority)
    );
    assert_eq!(
        complete(
            with(Bounty { bump: authority().bump.wrapping_sub(1), ..ok.bounty.data.unwrap() }),
            5
        ),
        Err(ContractError::InvalidAuthority)
    );
    assert_eq!(
        complete(CompleteBounty { bounty: Account::holding(k(31), ok.bounty.data.unwrap()), ..ok }, 5),
        Err(ContractError::InvalidAuthority)
    );
    assert_eq!(
        complete(CompleteBounty { escrow_token_account: tokens(14, k(2)), ..ok }, 5),
        Err(ContractError::InvalidAuthority)
    );
    assert_eq!(complete(ok, 6), Err(ContractError::InvalidBountyState));
    assert_eq!(
        complete(CompleteBounty { bounty: created(), ..ok }, 5),
        Err(ContractError::InvalidBountyStateForOperation)
    );
    assert_eq!(
        complete(with(record(BountyState::Completed, Some(k(3)))), 5),
        Err(ContractError::InvalidBountyStateForOperation)
    );
    assert_eq!(
        complete(with(record(BountyState::InProgress, None)), 5),
        Err(ContractError::InvalidContributor)
    );
    assert_eq!(
        complete(CompleteBounty { contributor: k(9), ..ok }, 5),
        Err(ContractError::InvalidContributor)
    );
    assert_eq!(
        complete(
            CompleteBounty {
                contributor_token_account: TokenAccount { mint: k(5), ..ok.contributor_token_account },
                ..ok
            },
            5
        ),
        Err(ContractError::InvalidMint)
    );
    assert_eq!(
        complete(CompleteBounty { contributor_token_account: tokens(13, k(9)), ..ok }, 5),
        Err(ContractError::InvalidTokenAccount)
    );
    assert_eq!(
        complete(
            CompleteBounty {
                escrow_token_account: TokenAccount { mint: k(5), ..ok.escrow_token_account },
                ..ok
            },
            5
        ),
        Err(ContractError::InvalidMint)
    );
    assert_eq!(
        complete(CompleteBounty { maintainer: k(9), ..ok }, 5),
        Err(ContractError::MaintainerMismatch)
    );
    assert_eq!(
        complete(
            CompleteBounty {
                contributor_token_account: TokenAccount { key: k(14), ..ok.contributor_token_account },
                ..ok
            },
            5
        ),
        Err(ContractError::InvalidTokenAccount)
    );
}

#[test]
fn completion_reports_the_first_guard_that_fails() {
    let ok = completing();
    let wrong = CompleteBounty {
        bounty: Account::holding(k(30), record(BountyState::Created, None)),
        escrow_authority: k(78),
        maintainer: k(9),
        contributor: k(9),
        keeper: k(8),
        contributor_token_account: TokenAccount { key: k(14), mint: k(5), owner: k(7) },
        ..ok
    };
    assert_eq!(complete(wrong, 6), Err(ContractError::Unauthorized));
    let signed = CompleteBounty { keeper: k(1), ..wrong };
    assert_eq!(complete(signed, 6), Err(ContractError::InvalidAuthority));
    let held = CompleteBounty { escrow_authority: ok.escrow_authority, ..signed };
    assert_eq!(complete(held, 6), Err(ContractError::InvalidBountyState));
    assert_eq!(complete(held, 5), Err(ContractError::InvalidBountyStateForOperation));
    let staged = CompleteBounty { bounty: in_progress(), ..held };
    assert_eq!(complete(staged, 5), Err(ContractError::InvalidContributor));
    let named = CompleteBounty { contributor: k(3), ..staged };
    assert_eq!(complete(named, 5), Err(ContractError::InvalidMint));
}

#[test]
fn cancellation_guards() {
    let ok = cancelling();
    assert_eq!(
        cancel(CancelBounty { config: Account::vacant(ok.config.key), ..ok }),
        Err(ContractError::AccountNotInitialized)
    );
    assert_eq!(
        cancel(CancelBounty { bounty: Account::vacant(k(30)), ..ok }),
        Err(ContractError::AccountNotInitialized)
    );
    assert_eq!(
        cancel(CancelBounty { config: Account::holding(k(77), ok.config.data.unwrap()), ..ok }),
        Err(ContractError::InvalidAuthority)
    );
    assert_eq!(cancel(CancelBounty { admin: k(3), ..ok }), Err(ContractError::Unauthorized));
    assert_eq!(cancel(CancelBounty { admin: k(2), ..ok }), Ok(()));
    assert_eq!(
        cancel(CancelBounty { escrow_authority: k(78), ..ok }),
        Err(ContractError::InvalidAuthority)
    );
    assert_eq!(
        cancel(CancelBounty { escrow_token_account: tokens(14, k(2)), ..ok }),
        Err(ContractError::InvalidAuthority)
    );
    assert_eq!(
        cancel(CancelBounty {
            bounty: Account::holding(k(30), record(BountyState::Completed, Some(k(3)))),
            ..ok
        }),
        Err(ContractError::BountyAlreadyCompleted)
    );
    assert_eq!(
        cancel(CancelBounty {
            bounty: Account::holding(k(30), record(BountyState::Cancelled, None)),
            ..ok
        }),
        Err(ContractError::BountyAlreadyCancelled)
    );
    assert_eq!(cancel(CancelBounty { bounty: in_progress(), ..ok }), Ok(()));
    assert_eq!(
        cancel(CancelBounty {
            maintainer_token_account: TokenAccount { mint: k(5), ..ok.maintainer_token_account },
            ..ok
        }),
        Err(ContractError::InvalidMint)
    );
    assert_eq!(
        cancel(CancelBounty { maintainer_token_account: tokens(12, k(9)), ..ok }),
        Err(ContractError::InvalidTokenAccount)
    );
    assert_eq!(
        cancel(CancelBounty {
            escrow_token_account: TokenAccount { mint: k(5), ..ok.escrow_token_account },
            ..ok
        }),
        Err(ContractError::InvalidMint)
    );
    assert_eq!(
        cancel(CancelBounty {
            maintainer: k(9),
            maintainer_token_account: tokens(12, k(9)),
            ..ok
        }),
        Err(ContractError::MaintainerMismatch)
    );
    assert_eq!(
        cancel(CancelBounty {
            maintainer_token_account: TokenAccount { key: k(14), ..ok.maintainer_token_account },
            ..ok
        }),
        Err(ContractError::InvalidTokenAccount)
    );
}

#[test]
fn cancellation_reports_the_first_guard_that_fails() {
    let ok = cancelling();
    let wrong = CancelBounty {
        admin: k(8),
        bounty: Account::holding(k(30), record(BountyState::Completed, Some(k(3)))),
        escrow_authority: k(78),
        maintainer: k(9),
        maintainer_token_account: TokenAccount { key: k(14), mint: k(5), owner: k(7) },
        ..ok
    };
    assert_eq!(cancel(wrong), Err(ContractError::Unauthorized));
    let signed = CancelBounty { admin: k(1), ..wrong };
    assert_eq!(cancel(signed), Err(ContractError::InvalidAuthority));
    let held = CancelBounty { escrow_authority: ok.escrow_authority, ..signed };
    assert_eq!(cancel(held), Err(ContractError::BountyAlreadyCompleted));
    let open = CancelBounty { bounty: created(), ..held };
    assert_eq!(cancel(open), Err(ContractError::InvalidMint));
}

#[test]
fn override_guards() {
    let ok = overriding();
    assert_eq!(
        override_(AdminAssignAndRelease { config: Account::vacant(ok.config.key), ..ok }, 5),
        Err(ContractError::AccountNotInitialized)
    );
    assert_eq!(
        override_(AdminAssignAndRelease { bounty: Account::vacant(k(30)), ..ok }, 5),
        Err(ContractError::AccountNotInitialized)
    );
    assert_eq!(
        override_(
            AdminAssignAndRelease {
                config: Account::holding(k(77), ok.config.data.unwrap()),
                ..ok
            },
            5
        ),
        Err(ContractError::InvalidAuthority)
    );
    assert_eq!(
        override_(AdminAssignAndRelease { admin: k(2), ..ok }, 5),
        Err(ContractError::Unauthorized)
    );
    assert_eq!(
        override_(AdminAssignAndRelease { escrow_authority: k(78), ..ok }, 5),
        Err(ContractError::InvalidAuthority)
    );
    assert_eq!(
        override_(AdminAssignAndRelease { escrow_token_account: tokens(14, k(2)), ..ok }, 5),
        Err(ContractError::InvalidAuthority)
    );
    assert_eq!(override_(ok, 6), Err(ContractError::InvalidBountyState));
    assert_eq!(
        override_(
            AdminAssignAndRelease {
                contributor_token_account: TokenAccount { mint: k(5), ..ok.contributor_token_account },
                ..ok
            },
            5
        ),
        Err(ContractError::InvalidMint)
    );
    assert_eq!(
        override_(AdminAssignAndRelease { contributor_token_account: tokens(13, k(9)), ..ok }, 5),
        Err(ContractError::InvalidTokenAccount)
    );
    assert_eq!(
        override_(
            AdminAssignAndRelease {
                escrow_token_account: TokenAccount { mint: k(5), ..ok.escrow_token_account },
                ..ok
            },
            5
        ),
        Err(ContractError::InvalidMint)
    );
    assert_eq!(
        override_(AdminAssignAndRelease { maintainer: k(9), ..ok }, 5),
        Err(ContractError::MaintainerMismatch)
    );
    assert_eq!(
        override_(
            AdminAssignAndRelease {
                contributor_token_account: TokenAccount { key: k(14), ..ok.contributor_token_account },
                ..ok
            },
            5
        ),
        Err(ContractError::InvalidTokenAccount)
    );
    assert_eq!(override_(AdminAssignAndRelease { bounty: in_progress(), ..ok }, 5), Ok(()));
    assert_eq!(
        override_(
            AdminAssignAndRelease {
                bounty: Account::holding(k(30), record(BountyState::Completed, Some(k(3)))),
                ..ok
            },
            5
        ),
        Err(ContractError::InvalidBountyStateForOperation)
    );
    assert_eq!(
        override_(
            AdminAssignAndRelease {
                bounty: Account::holding(k(30), record(BountyState::Cancelled, None)),
                ..ok
            },
            5
        ),
        Err(ContractError::InvalidBountyStateForOperation)
    );
}

#[test]
fn override_reports_the_first_guard_that_fails() {
    let ok = overriding();
    let wrong = AdminAssignAndRelease {
        admin: k(8),
        bounty: Account::holding(k(30), record(BountyState::Completed, Some(k(3)))),
        escrow_authority: k(78),
        maintainer: k(9),
        contributor_token_account: TokenAccount { key: k(14), mint: k(5), owner: k(7) },
        ..ok
    };
    assert_eq!(override_(wrong, 6), Err(ContractError::Unauthorized));
    let signed = AdminAssignAndRelease { admin: k(1), ..wrong };
    assert_eq!(override_(signed, 6), Err(ContractError::InvalidAuthority));
    let held = AdminAssignAndRelease { escrow_authority: ok.escrow_authority, ..signed };
    assert_eq!(override_(held, 6), Err(ContractError::InvalidBountyState));
    assert_eq!(override_(held, 5), Err(ContractError::InvalidBountyStateForOperation));
    let open = AdminAssignAndRelease { bounty: created(), ..held };
    assert_eq!(override_(open, 5), Err(ContractError::InvalidMint));
}

#[test]
fn error_codes_and_messages() {
    let all = [
        (ContractError::InvalidAmount, 6000, "Amount must be greater than zero"),
        (ContractError::InsufficientAmount, 6001, "Insufficient bounty amount"),
        (ContractError::InvalidBountyState, 6002, "Invalid bounty state"),
        (ContractError::InvalidContributor, 6003, "Invalid contributor"),
        (ContractError::Unauthorized, 6004, "Unauthorized access"),
        (
            ContractError::InvalidBountyStateForOperation,
            6005,
            "Bounty is not in correct state for this operation",
        ),
        (ContractError::MaintainerMismatch, 6006, "Maintainer mismatch"),
        (ContractError::ContributorAlreadyAssigned, 6007, "Contributor already assigned"),
        (ContractError::BountyAlreadyCompleted, 6008, "Bounty is already completed"),
        (ContractError::BountyAlreadyCancelled, 6009, "Bounty is already cancelled"),
        (ContractError::InvalidMint, 6010, "Invalid mint"),
        (ContractError::InvalidTokenAccount, 6011, "Invalid token account"),
        (ContractError::InvalidAuthority, 6012, "Invalid escrow authority"),
        (ContractError::AccountNotInitialized, 6013, "Account is not initialized"),
        (ContractError::AccountAlreadyInitialized, 6014, "Account is already initialized"),
    ];
    for (error, code, message) in all {
        assert_eq!(error.code(), code);
        assert_eq!(error.message(), message);
    }
}
