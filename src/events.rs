//! The events that successful operations hand back, in the order they happen.

use vstd::prelude::*;
use crate::identity::Identity;

verus! {

#[derive(Clone, Copy, Debug, PartialEq, Eq)]
pub struct InitializeVaultEvent {
    pub vault: Identity,
    pub vault_authority: Identity,
    pub locked: bool,
}

#[derive(Clone, Copy, Debug, PartialEq, Eq)]
pub struct DepositEvent {
    pub amount: u64,
    pub user: Identity,
    pub vault: Identity,
}

/// A disbursement: the three shares, and the remainder of the integer
/// division, which is paid to the first winner on top of `w1`.
#[derive(Clone, Debug, PartialEq, Eq)]
pub struct WithdrawEvent {
    pub campaign_id: String,
    pub w1: u64,
    pub w2: u64,
    pub w3: u64,
    pub remainder: u64,
    pub vault: Identity,
}

#[derive(Clone, Copy, Debug, PartialEq, Eq)]
pub struct ToggleLockEvent {
    pub vault: Identity,
    pub vault_authority: Identity,
    pub locked: bool,
}

} // verus!
