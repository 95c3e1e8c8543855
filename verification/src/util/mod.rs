pub mod errors;
pub mod events;
pub mod ledger;
pub mod pda;
pub mod pubkey;
