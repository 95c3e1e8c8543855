use vstd::prelude::*;
use crate::util::pda::{found_program_address, try_find_program_address};
use crate::util::pubkey::Pubkey;

verus! {

/// The registry: who administers the program. There is one per program, at the address
/// that the program derives for it.
#[derive(Clone, Copy, Debug, PartialEq, Eq)]
pub struct ConfigState {
    /// The administrator in office.
    pub admin: Pubkey,
    /// The bump seed of the registry's address.
    pub bump: u8,
}

/// The seed of the registry's address: the bytes of `config`.
pub open spec fn config_namespace() -> Seq<u8> {
    seq![99u8, 111u8, 110u8, 102u8, 105u8, 103u8]
}

/// The seeds of the registry's address.
pub open spec fn config_seeds() -> Seq<Seq<u8>> {
    seq![config_namespace()]
}

impl ConfigState {
    /// Bytes of storage that the registry takes.
    pub const LEN: usize = 8 + 32 + 1;

    /// The bump seed found where `found`, the outcome of a search for an address, is the
    /// address `key`; `None` where it is another address or none.
    pub open spec fn bump_if_at(found: Option<(Seq<u8>, u8)>, key: Seq<u8>) -> Option<u8> {
        match found {
            Some((address, bump)) => if address == key {
                Some(bump)
            } else {
                None
            },
            None => None,
        }
    }

    /// The bump seed of the registry's address where `key` is that address, and `None`
    /// where it is not, or where the program derives none.
    pub open spec fn bump_at(key: Pubkey, program_id: Pubkey) -> Option<u8> {
        ConfigState::bump_if_at(found_program_address(config_seeds(), program_id@), key@)
    }

    /// The registry's address under `program_id`, with its bump seed, where the program
    /// derives one.
    pub fn address(program_id: &Pubkey) -> (found: Option<(Pubkey, u8)>)
        ensures
            match found {
                Some((address, bump)) => found_program_address(config_seeds(), program_id@)
                    == Some((address@, bump)),
                None => found_program_address(config_seeds(), program_id@) is None,
            },
    {
        let mut namespace: Vec<u8> = Vec::new();
        namespace.push(99u8);
        namespace.push(111u8);
        namespace.push(110u8);
        namespace.push(102u8);
        namespace.push(105u8);
        namespace.push(103u8);
        assert(namespace@ =~= config_namespace());
        let mut seeds: Vec<Vec<u8>> = Vec::new();
        seeds.push(namespace);
        assert(seeds.deep_view() =~= config_seeds()) by {
            assert(seeds@[0].deep_view() =~= config_namespace());
        }
        try_find_program_address(&seeds, program_id)
    }

    /// Holds `key` against the outcome `found` of a search for an address: the bump seed
    /// found where the address found is `key`.
    pub fn matching(found: Option<(Pubkey, u8)>, key: &Pubkey) -> (bump: Option<u8>)
        ensures
            bump == ConfigState::bump_if_at(
                match found {
                    Some((address, bump)) => Some((address@, bump)),
                    None => None,
                },
                key@,
            ),
    {
        match found {
            Some((address, bump)) => {
                proof {
                    Pubkey::lemma_view_injective(address, *key);
                }
                if address == *key {
                    Some(bump)
                } else {
                    None
                }
            },
            None => None,
        }
    }

    /// Derives the registry's address under `program_id` and holds `key` against it.
    pub fn locate(key: &Pubkey, program_id: &Pubkey) -> (bump: Option<u8>)
        ensures
            bump == ConfigState::bump_at(*key, *program_id),
    {
        ConfigState::matching(ConfigState::address(program_id), key)
    }
}

} // verus!
