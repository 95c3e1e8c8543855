use vstd::prelude::*;
use crate::util::pubkey::Pubkey;

verus! {

/// A place in storage, at an address, that holds one value of the program or nothing.
/// It holds nothing before the value is created and again after it is destroyed.
#[derive(Clone, Copy, Debug, PartialEq, Eq)]
pub struct Account<T> {
    pub key: Pubkey,
    pub data: Option<T>,
}

impl<T> Account<T> {
    /// The place at `key` that holds nothing.
    pub fn vacant(key: Pubkey) -> (account: Account<T>)
        ensures
            account.key == key,
            account.data is None,
    {
        Account { key, data: None }
    }

    /// The place at `key` that holds `data`.
    pub fn holding(key: Pubkey, data: T) -> (account: Account<T>)
        ensures
            account.key == key,
            account.data == Some(data),
    {
        Account { key, data: Some(data) }
    }

    pub fn is_vacant(&self) -> (vacant: bool)
        ensures
            vacant == (self.data is None),
    {
        self.data.is_none()
    }
}

/// What the rules read of an account of the token ledger: where it is, which asset it
/// holds and who may spend from it.
#[derive(Clone, Copy, Debug, PartialEq, Eq)]
pub struct TokenAccount {
    pub key: Pubkey,
    pub mint: Pubkey,
    pub owner: Pubkey,
}

} // verus!
