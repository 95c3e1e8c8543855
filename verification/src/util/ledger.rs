use vstd::prelude::*;
use crate::state::bounty::Bounty;
use crate::state::escrow::EscrowAuthority;
use crate::util::pubkey::Pubkey;

verus! {

/// An order to the token ledger: move `amount` from one account to another, on the word
/// of `authority`.
#[derive(Clone, Copy, Debug, PartialEq, Eq)]
pub struct Transfer {
    pub from: Pubkey,
    pub to: Pubkey,
    pub authority: Pubkey,
    pub amount: u64,
}

/// An order to the token ledger: close `account`, on the word of `authority`, and hand
/// its deposit to `destination`.
#[derive(Clone, Copy, Debug, PartialEq, Eq)]
pub struct CloseAccount {
    pub account: Pubkey,
    pub destination: Pubkey,
    pub authority: Pubkey,
}

impl Transfer {
    /// Whether a ledger with these balances can carry the order out: both accounts
    /// exist and the source holds enough.
    pub open spec fn covered_by(self, balances: Map<Pubkey, nat>) -> bool {
        &&& balances.dom().contains(self.from)
        &&& balances.dom().contains(self.to)
        &&& balances[self.from] >= self.amount
    }

    /// The balances once the ledger has carried the order out.
    pub open spec fn settle(self, balances: Map<Pubkey, nat>) -> Map<Pubkey, nat> {
        let debited = balances.insert(self.from, (balances[self.from] - self.amount) as nat);
        debited.insert(self.to, (debited[self.to] + self.amount) as nat)
    }

    /// A transfer between two accounts takes from the one exactly what it gives to the
    /// other, and touches no third account.
    pub proof fn lemma_settle_moves_amount(self, balances: Map<Pubkey, nat>)
        requires
            self.covered_by(balances),
            self.from != self.to,
        ensures
            self.settle(balances)[self.to] == balances[self.to] + self.amount,
            self.settle(balances)[self.from] == balances[self.from] - self.amount,
            self.settle(balances).dom() == balances.dom(),
            forall|other: Pubkey|
                other != self.from && other != self.to && balances.dom().contains(other)
                    ==> #[trigger] self.settle(balances)[other] == balances[other],
    {
        assert(self.settle(balances).dom() =~= balances.dom());
    }
}

/// What the ledger is to do when a bounty ends, and the record as it ends.
#[derive(Clone, Copy, Debug, PartialEq, Eq)]
pub struct Settlement {
    /// Where the record was stored.
    pub bounty: Pubkey,
    /// The record at its last stage.
    pub record: Bounty,
    /// The custodian that signs both orders.
    pub authority: EscrowAuthority,
    /// The payment of all that was locked.
    pub transfer: Transfer,
    /// The closing of the emptied escrow account.
    pub close: CloseAccount,
    /// Who gets the deposit of the record's storage back: the maintainer.
    pub refund_to: Pubkey,
}

impl Settlement {
    /// The settlement that ends `record`, stored at `bounty`: all that is locked goes
    /// from the account `escrow` to the account `recipient`, and both deposits go to the
    /// record's maintainer.
    pub open spec fn paying(
        bounty: Pubkey,
        record: Bounty,
        authority: Pubkey,
        escrow: Pubkey,
        recipient: Pubkey,
    ) -> Settlement {
        Settlement {
            bounty,
            record,
            authority: EscrowAuthority { identity: authority, bump: record.bump },
            transfer: Transfer { from: escrow, to: recipient, authority, amount: record.amount },
            close: CloseAccount { account: escrow, destination: record.maintainer, authority },
            refund_to: record.maintainer,
        }
    }

    pub(crate) fn pay(
        bounty: Pubkey,
        record: Bounty,
        authority: Pubkey,
        escrow: Pubkey,
        recipient: Pubkey,
    ) -> (settlement: Settlement)
        ensures
            settlement == Settlement::paying(bounty, record, authority, escrow, recipient),
    {
        Settlement {
            bounty,
            record,
            authority: EscrowAuthority { identity: authority, bump: record.bump },
            transfer: Transfer { from: escrow, to: recipient, authority, amount: record.amount },
            close: CloseAccount { account: escrow, destination: record.maintainer, authority },
            refund_to: record.maintainer,
        }
    }
}

} // verus!
