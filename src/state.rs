//! The persisted vault record and the balances the engine moves.

use vstd::prelude::*;
use crate::identity::Identity;

verus! {

/// The longest campaign id text that a vault record holds.
pub const MAX_ID_LEN: usize = 32;

/// An account key with its balance.
#[derive(Clone, Copy, Debug, PartialEq, Eq)]
pub struct Account {
    pub key: Identity,
    pub lamports: u64,
}

/// The persisted record of a vault.
#[derive(Clone, Debug, PartialEq, Eq)]
pub struct Vault {
    /// The campaign id, in decimal.
    pub id: String,
    /// Set once, by the one successful disbursement.
    pub is_dispersed: bool,
    /// The intended end of the campaign; advisory only.
    pub deadline: u64,
    /// The only key that may disburse or toggle the lock.
    pub authority: Identity,
    /// The bump of the vault's derived address.
    pub bump: u8,
    /// The toggle of `toggle_lock`, honoured only under `LockPolicy::DispersedOrLocked`.
    pub locked: bool,
}

/// Which flags close a vault to deposits and disbursement.
#[derive(Clone, Copy, Debug, PartialEq, Eq, Structural)]
pub enum LockPolicy {
    /// Only `is_dispersed` closes the vault; the lock toggle is recorded and
    /// otherwise ignored.
    DispersedOnly,
    /// `is_dispersed` and the lock toggle both close the vault.
    DispersedOrLocked,
}

/// Whether `v` refuses deposits and disbursement under `policy`.
pub open spec fn is_closed(v: Vault, policy: LockPolicy) -> bool {
    v.is_dispersed || (policy == LockPolicy::DispersedOrLocked && v.locked)
}

/// The decimal digits of `n`, most significant first.
pub open spec fn decimal_text(n: nat) -> Seq<char>
    decreases n,
{
    let digit = seq!['0', '1', '2', '3', '4', '5', '6', '7', '8', '9'][(n % 10) as int];
    if n < 10 {
        seq![digit]
    } else {
        decimal_text(n / 10).push(digit)
    }
}

pub open spec fn pow10(k: nat) -> nat
    decreases k,
{
    if k == 0 {
        1
    } else {
        10 * pow10((k - 1) as nat)
    }
}

/// A number below `10^k` has at most `k` digits.
pub proof fn lemma_decimal_text_len(n: nat, k: nat)
    requires
        1 <= k,
        n < pow10(k),
    ensures
        decimal_text(n).len() <= k,
    decreases k,
{
    if n >= 10 {
        assert(k >= 2) by {
            if k == 1 {
                reveal_with_fuel(pow10, 2);
            }
        }
        assert(n / 10 < pow10((k - 1) as nat)) by (nonlinear_arith)
            requires
                n < 10 * pow10((k - 1) as nat),
        ;
        lemma_decimal_text_len(n / 10, (k - 1) as nat);
    }
}

/// The decimal text of a `u64` fits the vault record's id field.
pub proof fn lemma_u64_text_fits(n: u64)
    ensures
        decimal_text(n as nat).len() <= MAX_ID_LEN,
{
    reveal_with_fuel(pow10, 21);
    assert(pow10(20) == 100_000_000_000_000_000_000nat);
    lemma_decimal_text_len(n as nat, 20);
}

/// Relies on std's `ToString` for `u64` (its `Display`): plain decimal digits,
/// no sign and no leading zeros.
#[verifier::external_body]
pub(crate) fn decimal_string(n: u64) -> (r: String)
    ensures
        r@ == decimal_text(n as nat),
{
    n.to_string()
}

impl Vault {
    pub fn closed(&self, policy: LockPolicy) -> (r: bool)
        ensures
            r == is_closed(*self, policy),
    {
        match policy {
            LockPolicy::DispersedOnly => self.is_dispersed,
            LockPolicy::DispersedOrLocked => self.is_dispersed || self.locked,
        }
    }
}

} // verus!
