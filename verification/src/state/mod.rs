pub mod account;
pub mod bounty;
pub mod config;
pub mod escrow;

pub use self::account::{Account, TokenAccount};
pub use self::bounty::{Bounty, BountyState};
pub use self::config::ConfigState;
pub use self::escrow::EscrowAuthority;
