//! An escrow vault: a derived vault address per (creator, campaign), deposits
//! while the vault is open, and a one-time 50/30/20 payout to three winners.

pub mod engine;
pub mod errors;
pub mod events;
pub mod identity;
pub mod split;
pub mod state;

pub use engine::{deposit, disburse, disburse_rewards, initialize, toggle_lock, Disperse, InitializeVault};
pub use errors::VaultError;
pub use events::{DepositEvent, InitializeVaultEvent, ToggleLockEvent, WithdrawEvent};
pub use identity::{derive_identity, Identity};
pub use split::{split, Shares};
pub use state::{Account, LockPolicy, Vault};
