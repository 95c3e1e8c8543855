use vstd::prelude::*;
use crate::util::pda::{
    create_program_address,
    found_program_address,
    program_address,
    try_find_program_address,
    with_bump,
};
use crate::util::pubkey::Pubkey;

verus! {

/// The first seed of every escrow authority: the bytes of `escrow_auth`.
pub open spec fn escrow_namespace() -> Seq<u8> {
    seq![101u8, 115u8, 99u8, 114u8, 111u8, 119u8, 95u8, 97u8, 117u8, 116u8, 104u8]
}

/// The seeds of the escrow authority of the bounty stored at `bounty_key`.
pub open spec fn escrow_seeds(bounty_key: Pubkey) -> Seq<Seq<u8>> {
    seq![escrow_namespace(), bounty_key@]
}

/// The custodian of one bounty's funds: an address derived from the bounty's own, with
/// the bump seed that makes the derivation valid. No key signs for it; whoever holds the
/// seeds and runs as the program does.
#[derive(Clone, Copy, Debug, PartialEq, Eq)]
pub struct EscrowAuthority {
    pub identity: Pubkey,
    pub bump: u8,
}

impl EscrowAuthority {
    /// Whether this is what the search for the bounty's authority ends on.
    pub open spec fn is_derived_from(self, bounty_key: Pubkey, program_id: Pubkey) -> bool {
        found_program_address(escrow_seeds(bounty_key), program_id@) == Some(
            (self.identity@, self.bump),
        )
    }

    /// Whether the bounty's seeds and this bump seed give this identity.
    pub open spec fn holds_for(self, bounty_key: Pubkey, program_id: Pubkey) -> bool {
        program_address(with_bump(escrow_seeds(bounty_key), self.bump), program_id@) == Some(
            self.identity@,
        )
    }

    /// Whether the search for the bounty's authority finds none.
    pub open spec fn none_derived(bounty_key: Pubkey, program_id: Pubkey) -> bool {
        found_program_address(escrow_seeds(bounty_key), program_id@) is None
    }

    /// The seeds of the authority of the bounty at `bounty_key`, without the bump seed.
    fn seeds(bounty_key: &Pubkey) -> (seeds: Vec<Vec<u8>>)
        ensures
            seeds.deep_view() == escrow_seeds(*bounty_key),
    {
        let mut namespace: Vec<u8> = Vec::new();
        namespace.push(101u8);
        namespace.push(115u8);
        namespace.push(99u8);
        namespace.push(114u8);
        namespace.push(111u8);
        namespace.push(119u8);
        namespace.push(95u8);
        namespace.push(97u8);
        namespace.push(117u8);
        namespace.push(116u8);
        namespace.push(104u8);
        assert(namespace@ =~= escrow_namespace());
        let key = bounty_key.to_vec();
        let mut seeds: Vec<Vec<u8>> = Vec::new();
        seeds.push(namespace);
        seeds.push(key);
        assert(seeds.deep_view() =~= escrow_seeds(*bounty_key)) by {
            assert(seeds@[0].deep_view() =~= escrow_namespace());
            assert(seeds@[1].deep_view() =~= bounty_key@);
        }
        seeds
    }

    /// Searches for the authority of the bounty at `bounty_key`. What it finds holds for
    /// the bounty: the bump seed found reproduces the identity without a new search.
    pub fn derive(bounty_key: &Pubkey, program_id: &Pubkey) -> (found: Option<EscrowAuthority>)
        ensures
            match found {
                Some(authority) => authority.is_derived_from(*bounty_key, *program_id)
                    && authority.holds_for(*bounty_key, *program_id),
                None => EscrowAuthority::none_derived(*bounty_key, *program_id),
            },
    {
        let seeds = EscrowAuthority::seeds(bounty_key);
        match try_find_program_address(&seeds, program_id) {
            Some((identity, bump)) => Some(EscrowAuthority { identity, bump }),
            None => None,
        }
    }

    /// Whether `derived`, the outcome of a derivation, is this identity.
    pub open spec fn confirmed_by(self, derived: Option<Seq<u8>>) -> bool {
        derived == Some(self.identity@)
    }

    /// Holds this identity against the outcome `derived` of a derivation: nothing is
    /// corrected where the derivation gave another address or none.
    pub fn confirm(&self, derived: Option<Pubkey>) -> (valid: bool)
        ensures
            valid == self.confirmed_by(
                match derived {
                    Some(identity) => Some(identity@),
                    None => None,
                },
            ),
    {
        match derived {
            Some(identity) => {
                proof {
                    Pubkey::lemma_view_injective(identity, self.identity);
                }
                identity == self.identity
            },
            None => false,
        }
    }

    /// Whether the bounty's seeds and this bump seed give this identity: the derivation is
    /// made again, without a search.
    pub fn verify(&self, bounty_key: &Pubkey, program_id: &Pubkey) -> (valid: bool)
        ensures
            valid == self.holds_for(*bounty_key, *program_id),
    {
        let seeds = self.signer_seeds(bounty_key);
        self.confirm(create_program_address(&seeds, program_id))
    }

    /// The bump seed of `found`, the authority that a search ended on, where that
    /// authority has the identity `identity`; `None` where it has another, or where the
    /// search found none.
    pub open spec fn bump_if(found: Option<EscrowAuthority>, identity: Pubkey) -> Option<u8> {
        match found {
            Some(authority) => if authority.identity == identity {
                Some(authority.bump)
            } else {
                None
            },
            None => None,
        }
    }

    /// Holds `identity` against the authority `found` that a search ended on.
    pub fn matching(found: Option<EscrowAuthority>, identity: &Pubkey) -> (bump: Option<u8>)
        ensures
            bump == EscrowAuthority::bump_if(found, *identity),
    {
        match found {
            Some(authority) => if authority.identity == *identity {
                Some(authority.bump)
            } else {
                None
            },
            None => None,
        }
    }

    /// The bump seed of the bounty's authority where the search ends on `identity` and the
    /// bump seed found gives `identity` again; `None` where it does not.
    pub open spec fn bump_at(identity: Pubkey, bounty_key: Pubkey, program_id: Pubkey) -> Option<
        u8,
    > {
        match found_program_address(escrow_seeds(bounty_key), program_id@) {
            Some((address, bump)) => if address == identity@ && (EscrowAuthority {
                identity,
                bump,
            }).holds_for(bounty_key, program_id) {
                Some(bump)
            } else {
                None
            },
            None => None,
        }
    }

    /// Searches for the bounty's authority and holds `identity` against what it finds.
    pub fn locate(identity: &Pubkey, bounty_key: &Pubkey, program_id: &Pubkey) -> (bump: Option<
        u8,
    >)
        ensures
            bump == EscrowAuthority::bump_at(*identity, *bounty_key, *program_id),
    {
        let found = EscrowAuthority::derive(bounty_key, program_id);
        proof {
            if found is Some {
                Pubkey::lemma_view_injective(found->0.identity, *identity);
            }
        }
        EscrowAuthority::matching(found, identity)
    }

    /// The seeds that sign for this authority on the ledger: the bounty's seeds and the
    /// bump seed.
    pub fn signer_seeds(&self, bounty_key: &Pubkey) -> (seeds: Vec<Vec<u8>>)
        ensures
            seeds.deep_view() == with_bump(escrow_seeds(*bounty_key), self.bump),
    {
        let mut seeds = EscrowAuthority::seeds(bounty_key);
        let mut last: Vec<u8> = Vec::new();
        last.push(self.bump);
        seeds.push(last);
        assert(seeds.deep_view() =~= with_bump(escrow_seeds(*bounty_key), self.bump)) by {
            assert(seeds@[2].deep_view() =~= seq![self.bump]);
            assert(forall|i: int| 0 <= i < 2 ==> seeds@[i].deep_view() == escrow_seeds(*bounty_key)[i]);
        }
        seeds
    }
}

} // verus!
