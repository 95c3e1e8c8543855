//! What holds of every bounty over its life, whatever is called on it and by whom.

use vstd::prelude::*;
use crate::context::{
    AdminAssignAndRelease,
    AssignContributor,
    CancelBounty,
    CompleteBounty,
    InitializeBounty,
    UpdateAdmin,
};
use crate::state::account::Account;
use crate::state::bounty::{Bounty, BountyState};
use crate::state::escrow::EscrowAuthority;
use crate::util::errors::ContractError;
use crate::util::ledger::Settlement;
use crate::util::pubkey::Pubkey;

verus! {

/// One call on a stored bounty, with the accounts presented and its argument.
#[derive(Clone, Copy, Debug, PartialEq, Eq)]
pub enum Call {
    Assign(AssignContributor),
    Complete(CompleteBounty, u64),
    Cancel(CancelBounty),
    Override(AdminAssignAndRelease, u64),
}

impl Call {
    /// The call made on the bounty account `slot`, whatever account it named before.
    pub open spec fn on(self, slot: Account<Bounty>) -> Call {
        match self {
            Call::Assign(accounts) => Call::Assign(AssignContributor { bounty: slot, ..accounts }),
            Call::Complete(accounts, bounty_id) => Call::Complete(
                CompleteBounty { bounty: slot, ..accounts },
                bounty_id,
            ),
            Call::Cancel(accounts) => Call::Cancel(CancelBounty { bounty: slot, ..accounts }),
            Call::Override(accounts, bounty_id) => Call::Override(
                AdminAssignAndRelease { bounty: slot, ..accounts },
                bounty_id,
            ),
        }
    }

    /// The bounty account that the call is made on.
    pub open spec fn slot(self) -> Account<Bounty> {
        match self {
            Call::Assign(accounts) => accounts.bounty,
            Call::Complete(accounts, _) => accounts.bounty,
            Call::Cancel(accounts) => accounts.bounty,
            Call::Override(accounts, _) => accounts.bounty,
        }
    }

    /// The first guard that the call fails, if any.
    pub open spec fn rejection(self, program_id: Pubkey) -> Option<ContractError> {
        match self {
            Call::Assign(accounts) => accounts.rejection(),
            Call::Complete(accounts, bounty_id) => accounts.rejection(
                accounts.custody(program_id),
                bounty_id,
            ),
            Call::Cancel(accounts) => accounts.rejection(
                accounts.registry(program_id),
                accounts.custody(program_id),
            ),
            Call::Override(accounts, bounty_id) => accounts.rejection(
                accounts.registry(program_id),
                accounts.custody(program_id),
                bounty_id,
            ),
        }
    }

    /// The bounty account as the call leaves it: as it was, where the call is rejected.
    pub open spec fn leaves(self, program_id: Pubkey) -> Account<Bounty> {
        if self.rejection(program_id) is Some {
            self.slot()
        } else {
            match self {
                Call::Assign(accounts) => accounts.assigned().bounty,
                Call::Complete(accounts, _) => accounts.closed().bounty,
                Call::Cancel(accounts) => accounts.closed().bounty,
                Call::Override(accounts, _) => accounts.closed().bounty,
            }
        }
    }

    /// The settlement that the call orders: none where it is rejected, and none for an
    /// assignment.
    pub open spec fn settles(self, program_id: Pubkey) -> Option<Settlement> {
        if self.rejection(program_id) is Some {
            None
        } else {
            match self {
                Call::Assign(_) => None,
                Call::Complete(accounts, _) => Some(accounts.settlement()),
                Call::Cancel(accounts) => Some(accounts.settlement()),
                Call::Override(accounts, _) => Some(accounts.settlement()),
            }
        }
    }
}

/// The bounty account after `calls` were made on it in turn, starting from `slot`.
pub open spec fn after(slot: Account<Bounty>, calls: Seq<Call>, program_id: Pubkey) -> Account<
    Bounty,
>
    decreases calls.len(),
{
    if calls.len() == 0 {
        slot
    } else {
        after(calls[0].on(slot).leaves(program_id), calls.drop_first(), program_id)
    }
}

/// The settlements that `calls` ordered, in turn, when made on the bounty account starting
/// from `slot`.
pub open spec fn settlements(slot: Account<Bounty>, calls: Seq<Call>, program_id: Pubkey) -> Seq<
    Settlement,
>
    decreases calls.len(),
{
    if calls.len() == 0 {
        Seq::empty()
    } else {
        let first = calls[0].on(slot);
        let rest = settlements(first.leaves(program_id), calls.drop_first(), program_id);
        match first.settles(program_id) {
            Some(settlement) => seq![settlement] + rest,
            None => rest,
        }
    }
}

/// All that `settlements` pay out, taken together.
pub open spec fn total_paid(settlements: Seq<Settlement>) -> nat
    decreases settlements.len(),
{
    if settlements.len() == 0 {
        0
    } else {
        settlements[0].transfer.amount as nat + total_paid(settlements.drop_first())
    }
}

/// A valid creation stores a record at its first stage, without a contributor, and
/// orders exactly the amount into escrow: on a ledger that can carry the order out, the
/// escrow account gains the amount and the maintainer's account loses it.
pub proof fn lemma_creation_locks_amount(
    accounts: InitializeBounty,
    registry: Option<u8>,
    escrow: Option<u8>,
    minimum_bounty_amount: u64,
    bounty_id: u64,
    amount: u64,
    balances: Map<Pubkey, nat>,
)
    requires
        accounts.rejection(registry, escrow, minimum_bounty_amount, amount) is None,
        accounts.transfer(amount).covered_by(balances),
    ensures
        escrow is Some,
        accounts.opened(escrow->0, bounty_id, amount).bounty.data == Some(
            accounts.record(escrow->0, bounty_id, amount),
        ),
        accounts.record(escrow->0, bounty_id, amount).state == BountyState::Created,
        accounts.record(escrow->0, bounty_id, amount).contributor is None,
        accounts.record(escrow->0, bounty_id, amount).amount == amount,
        accounts.record(escrow->0, bounty_id, amount).wf(),
        amount >= minimum_bounty_amount,
        accounts.transfer(amount).settle(balances)[accounts.escrow_token_account.key]
            == balances[accounts.escrow_token_account.key] + amount,
        accounts.transfer(amount).settle(balances)[accounts.maintainer_token_account.key]
            == balances[accounts.maintainer_token_account.key] - amount,
{
    accounts.transfer(amount).lemma_settle_moves_amount(balances);
}

/// The custodian under which a bounty is created is the one that every later payment
/// asks for: the bump seed stored in the record gives the custodian's address again, so
/// that the custody guard of a completion, a cancellation or an override made with the
/// same custodian on the record just created is met.
pub proof fn lemma_creation_binds_authority(
    accounts: InitializeBounty,
    program_id: Pubkey,
    minimum_bounty_amount: u64,
    bounty_id: u64,
    amount: u64,
    completion: CompleteBounty,
)
    requires
        accounts.rejection(
            accounts.registry(program_id),
            accounts.escrow(program_id),
            minimum_bounty_amount,
            amount,
        ) is None,
        completion.bounty == accounts.opened(
            accounts.escrow(program_id)->0,
            bounty_id,
            amount,
        ).bounty,
        completion.escrow_authority == accounts.escrow_authority,
    ensures
        (EscrowAuthority {
            identity: accounts.escrow_authority,
            bump: accounts.record(accounts.escrow(program_id)->0, bounty_id, amount).bump,
        }).holds_for(accounts.bounty.key, program_id),
        completion.custody(program_id),
{
}

/// A second assignment is always rejected, whoever is to be named: to the maintainer as
/// already made, to anyone else as not theirs to make. The contributor named first stays.
pub proof fn lemma_assign_once(first: AssignContributor, second: AssignContributor)
    requires
        first.rejection() is None,
        second.bounty == first.assigned().bounty,
    ensures
        second.rejection() == Some(
            if second.maintainer == first.maintainer {
                ContractError::ContributorAlreadyAssigned
            } else {
                ContractError::MaintainerMismatch
            },
        ),
        second.bounty.data->0.contributor == Some(first.contributor),
{
}

/// No operation acts on a bounty account that holds nothing: each is rejected, and the
/// account still holds nothing.
pub proof fn lemma_no_call_on_vacant(call: Call, program_id: Pubkey)
    requires
        call.slot().data is None,
    ensures
        call.rejection(program_id) == Some(ContractError::AccountNotInitialized),
        call.leaves(program_id) == call.slot(),
        call.settles(program_id) is None,
{
}

/// A completion leaves nothing to act on: the record is gone, and every call made on its
/// account afterwards is rejected.
pub proof fn lemma_nothing_after_completion(
    completion: CompleteBounty,
    custody: bool,
    bounty_id: u64,
    later: Call,
    program_id: Pubkey,
)
    requires
        completion.rejection(custody, bounty_id) is None,
    ensures
        completion.closed().bounty.data is None,
        later.on(completion.closed().bounty).rejection(program_id) == Some(
            ContractError::AccountNotInitialized,
        ),
{
    lemma_no_call_on_vacant(later.on(completion.closed().bounty), program_id);
}

/// A cancellation that passes is made on a bounty that has not ended, and orders exactly
/// what is locked, in the bounty's asset, out of escrow into an account of the bounty's
/// maintainer: on a ledger that can carry the order out, that account gains the amount.
pub proof fn lemma_cancel_refunds_maintainer(
    accounts: CancelBounty,
    registry: Option<u8>,
    custody: bool,
    balances: Map<Pubkey, nat>,
)
    requires
        accounts.rejection(registry, custody) is None,
        accounts.settlement().transfer.covered_by(balances),
    ensures
        accounts.settlement().transfer.settle(balances)[accounts.maintainer_token_account.key]
            == balances[accounts.maintainer_token_account.key] + accounts.bounty.data->0.amount,
        accounts.settlement().transfer.settle(balances)[accounts.escrow_token_account.key]
            == balances[accounts.escrow_token_account.key] - accounts.bounty.data->0.amount,
        !accounts.bounty.data->0.state.is_terminal(),
        accounts.settlement().transfer.amount == accounts.bounty.data->0.amount,
        accounts.settlement().transfer.from == accounts.escrow_token_account.key,
        accounts.settlement().transfer.to == accounts.maintainer_token_account.key,
        accounts.maintainer_token_account.owner == accounts.bounty.data->0.maintainer,
        accounts.maintainer_token_account.mint == accounts.bounty.data->0.mint,
        accounts.settlement().refund_to == accounts.bounty.data->0.maintainer,
        accounts.settlement().close.destination == accounts.bounty.data->0.maintainer,
        accounts.settlement().record.state == BountyState::Cancelled,
        accounts.closed().bounty.data is None,
{
    accounts.settlement().transfer.lemma_settle_moves_amount(balances);
}

/// Whether a cancellation passes does not depend on how far the bounty has come, as long
/// as it has not ended: what passes at the first stage passes in progress, and the other
/// way round.
pub proof fn lemma_cancel_from_either_stage(
    accounts: CancelBounty,
    other_stage: CancelBounty,
    registry: Option<u8>,
    custody: bool,
)
    requires
        accounts.bounty.data is Some,
        other_stage.bounty.data is Some,
        !accounts.bounty.data->0.state.is_terminal(),
        !other_stage.bounty.data->0.state.is_terminal(),
        other_stage == (CancelBounty {
            bounty: Account {
                key: accounts.bounty.key,
                data: Some(
                    Bounty {
                        state: other_stage.bounty.data->0.state,
                        contributor: other_stage.bounty.data->0.contributor,
                        ..accounts.bounty.data->0
                    },
                ),
            },
            ..accounts
        }),
    ensures
        other_stage.rejection(registry, custody) == accounts.rejection(registry, custody),
{
}

/// A cancellation that is rightly presented passes from either stage before the end, and
/// is rejected after the end with the error that names how the bounty ended. Rightly
/// presented: registry and record exist, the registry is where it belongs, the caller is
/// the administrator in office or the maintainer, the custodian is the bounty's own and
/// owns the escrow account, and the accounts fit the record.
pub proof fn lemma_cancel_by_stage(accounts: CancelBounty, registry: Option<u8>, custody: bool)
    requires
        accounts.config.data is Some,
        accounts.bounty.data is Some,
        registry is Some,
        accounts.admin == accounts.config.data->0.admin || accounts.admin
            == accounts.bounty.data->0.maintainer,
        custody,
        accounts.escrow_token_account.owner == accounts.escrow_authority,
        accounts.maintainer_token_account.mint == accounts.bounty.data->0.mint,
        accounts.maintainer_token_account.owner == accounts.maintainer,
        accounts.escrow_token_account.mint == accounts.bounty.data->0.mint,
        accounts.maintainer == accounts.bounty.data->0.maintainer,
        accounts.maintainer_token_account.key != accounts.escrow_token_account.key,
    ensures
        accounts.rejection(registry, custody) == match accounts.bounty.data->0.state {
            BountyState::Created => None,
            BountyState::InProgress => None,
            BountyState::Completed => Some(ContractError::BountyAlreadyCompleted),
            BountyState::Cancelled => Some(ContractError::BountyAlreadyCancelled),
        },
{
}

/// A cancellation of a bounty that has ended is always rejected.
pub proof fn lemma_cancel_rejected_after_end(
    accounts: CancelBounty,
    registry: Option<u8>,
    custody: bool,
)
    requires
        accounts.bounty.data is Some,
        accounts.bounty.data->0.state.is_terminal(),
    ensures
        accounts.rejection(registry, custody) is Some,
{
}

/// An override that is rightly presented passes from either stage before the end, and is
/// rejected after the end, however the bounty ended, as not at a stage for the operation.
/// Rightly presented: registry and record exist, the registry is where it belongs, the
/// caller is the administrator in office, the custodian is the bounty's own and owns the
/// escrow account, the number is the record's, and the accounts fit the record.
pub proof fn lemma_override_by_stage(
    accounts: AdminAssignAndRelease,
    registry: Option<u8>,
    custody: bool,
    bounty_id: u64,
)
    requires
        accounts.config.data is Some,
        accounts.bounty.data is Some,
        registry is Some,
        accounts.admin == accounts.config.data->0.admin,
        custody,
        accounts.escrow_token_account.owner == accounts.escrow_authority,
        accounts.bounty.data->0.bounty_id == bounty_id,
        accounts.contributor_token_account.mint == accounts.bounty.data->0.mint,
        accounts.contributor_token_account.owner == accounts.contributor,
        accounts.escrow_token_account.mint == accounts.bounty.data->0.mint,
        accounts.maintainer == accounts.bounty.data->0.maintainer,
        accounts.contributor_token_account.key != accounts.escrow_token_account.key,
    ensures
        accounts.rejection(registry, custody, bounty_id) == match accounts.bounty.data->0.state {
            BountyState::Created => None,
            BountyState::InProgress => None,
            BountyState::Completed => Some(ContractError::InvalidBountyStateForOperation),
            BountyState::Cancelled => Some(ContractError::InvalidBountyStateForOperation),
        },
{
}

/// The override passes only for the administrator in office.
pub proof fn lemma_override_only_by_admin(
    accounts: AdminAssignAndRelease,
    registry: Option<u8>,
    custody: bool,
    bounty_id: u64,
)
    requires
        accounts.rejection(registry, custody, bounty_id) is None,
    ensures
        accounts.config.data is Some,
        accounts.admin == accounts.config.data->0.admin,
{
}

/// Once the office has changed hands, the override is rejected for the administrator who
/// left, and passes for the successor exactly where it passed for the predecessor before.
pub proof fn lemma_rotation_moves_override(
    rotation: UpdateAdmin,
    new_admin: Pubkey,
    before: AdminAssignAndRelease,
    registry: Option<u8>,
    custody: bool,
    bounty_id: u64,
)
    requires
        rotation.rejection(registry, new_admin) is None,
        before.config == rotation.config,
        before.admin == rotation.admin,
    ensures
        (AdminAssignAndRelease { config: rotation.rotated(new_admin).config, ..before }).rejection(
            registry,
            custody,
            bounty_id,
        ) is Some,
        (AdminAssignAndRelease {
            config: rotation.rotated(new_admin).config,
            admin: new_admin,
            ..before
        }).rejection(registry, custody, bounty_id) == before.rejection(
            registry,
            custody,
            bounty_id,
        ),
{
}

/// What a call leaves of a stored record: the record is well formed again and locks the
/// same amount for the same maintainer in the same asset, or it is gone and the one
/// settlement ordered pays out exactly what was locked.
pub proof fn lemma_call_keeps_or_settles(call: Call, program_id: Pubkey)
    requires
        call.slot().data is Some,
        call.slot().data->0.wf(),
    ensures
        call.leaves(program_id).key == call.slot().key,
        match call.leaves(program_id).data {
            Some(record) => {
                &&& call.settles(program_id) is None
                &&& record.wf()
                &&& record.amount == call.slot().data->0.amount
                &&& record.maintainer == call.slot().data->0.maintainer
                &&& record.mint == call.slot().data->0.mint
                &&& record.bump == call.slot().data->0.bump
                &&& record.bounty_id == call.slot().data->0.bounty_id
                &&& record.keeper == call.slot().data->0.keeper
                &&& record.state.is_terminal() == call.slot().data->0.state.is_terminal()
            },
            None => {
                &&& call.settles(program_id) matches Some(settlement)
                &&& settlement.transfer.amount == call.slot().data->0.amount
                &&& settlement.record.wf()
                &&& settlement.record.state.is_terminal()
                &&& settlement.record.amount == call.slot().data->0.amount
                &&& settlement.refund_to == call.slot().data->0.maintainer
            },
        },
{
}

/// Conservation: whatever calls are made on a stored bounty, in whatever order, they
/// order at most one settlement. While the record is there nothing has been paid out and
/// the amount locked is unchanged; once it is gone exactly one settlement was ordered, of
/// exactly the amount locked.
pub proof fn lemma_conservation(slot: Account<Bounty>, calls: Seq<Call>, program_id: Pubkey)
    requires
        slot.data is Some,
        slot.data->0.wf(),
    ensures
        after(slot, calls, program_id).key == slot.key,
        match after(slot, calls, program_id).data {
            Some(record) => {
                &&& settlements(slot, calls, program_id).len() == 0
                &&& record.wf()
                &&& record.amount == slot.data->0.amount
            },
            None => {
                &&& settlements(slot, calls, program_id).len() == 1
                &&& settlements(slot, calls, program_id)[0].transfer.amount
                    == slot.data->0.amount
            },
        },
    decreases calls.len(),
{
    if calls.len() > 0 {
        let first = calls[0].on(slot);
        let next = first.leaves(program_id);
        lemma_call_keeps_or_settles(first, program_id);
        if next.data is Some {
            lemma_conservation(next, calls.drop_first(), program_id);
        } else {
            lemma_vacant_stays_vacant(next, calls.drop_first(), program_id);
        }
    }
}

/// Conservation, from the start: of a bounty created with `amount`, whatever calls follow
/// on its account, nothing is paid out while the record is there and exactly `amount`,
/// in one settlement, once it is gone.
pub proof fn lemma_paid_out_is_locked(
    creation: InitializeBounty,
    registry: Option<u8>,
    escrow: Option<u8>,
    minimum_bounty_amount: u64,
    bounty_id: u64,
    amount: u64,
    calls: Seq<Call>,
    program_id: Pubkey,
)
    requires
        creation.rejection(registry, escrow, minimum_bounty_amount, amount) is None,
    ensures
        ({
            let slot = creation.opened(escrow->0, bounty_id, amount).bounty;
            let paid = total_paid(settlements(slot, calls, program_id));
            if after(slot, calls, program_id).data is Some {
                paid == 0
            } else {
                paid == amount
            }
        }),
{
    let slot = creation.opened(escrow->0, bounty_id, amount).bounty;
    lemma_conservation(slot, calls, program_id);
    let made = settlements(slot, calls, program_id);
    if made.len() == 1 {
        assert(made.drop_first().len() == 0);
        assert(total_paid(made.drop_first()) == 0);
    }
}

/// On a bounty account that holds nothing, no sequence of calls stores or orders anything.
pub proof fn lemma_vacant_stays_vacant(slot: Account<Bounty>, calls: Seq<Call>, program_id: Pubkey)
    requires
        slot.data is None,
    ensures
        after(slot, calls, program_id) == slot,
        settlements(slot, calls, program_id).len() == 0,
    decreases calls.len(),
{
    if calls.len() > 0 {
        lemma_no_call_on_vacant(calls[0].on(slot), program_id);
        lemma_vacant_stays_vacant(slot, calls.drop_first(), program_id);
    }
}

} // verus!
