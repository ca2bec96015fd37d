//! What a vault operation can fail with.

use vstd::prelude::*;

verus! {

#[derive(Clone, Copy, Debug, PartialEq, Eq, Structural)]
pub enum VaultError {
    /// The vault has been disbursed (or, where the lock is honoured, is locked).
    VaultLocked,
    /// The caller is not the vault's recorded authority.
    Unauthorized,
    /// The depositor holds less than the amount.
    InsufficientBalance,
    /// A payout transfer was refused; nothing was moved.
    TransferFailed,
    /// A vault already exists at the derived address.
    IdentityCollision,
    /// The vault's balance would not fit after the deposit.
    Overflow,
    /// A deposit of zero.
    InvalidAmount,
    /// The vault account is not the one derived from the creator and campaign.
    AddressMismatch,
    /// No program address exists for the creator and campaign.
    AddressUnavailable,
}

} // verus!
