//! The vault's state transitions: creation with a first deposit, deposits,
//! the lock toggle, and the one-time disbursement.

use vstd::prelude::*;
use crate::errors::VaultError;
use crate::events::{DepositEvent, InitializeVaultEvent, ToggleLockEvent, WithdrawEvent};
use crate::identity::{derive_identity, program_address, vault_seeds, Identity};
use crate::split::{share, split};
use crate::state::{decimal_string, decimal_text, is_closed, lemma_u64_text_fits, Account, LockPolicy, Vault, MAX_ID_LEN};

verus! {

/// The error a deposit of `amount` from `depositor` into `vault` fails with,
/// if any, checked in this order.
pub open spec fn deposit_error(
    state: Vault,
    depositor: Account,
    vault: Account,
    amount: u64,
    policy: LockPolicy,
) -> Option<VaultError> {
    transfer_error(depositor, vault, amount, is_closed(state, policy))
}

/// The error of a deposit into a vault that is `closed` or not.
pub open spec fn transfer_error(depositor: Account, vault: Account, amount: u64, closed: bool) -> Option<VaultError> {
    if amount == 0 {
        Some(VaultError::InvalidAmount)
    } else if depositor.lamports < amount {
        Some(VaultError::InsufficientBalance)
    } else if closed {
        Some(VaultError::VaultLocked)
    } else if vault.lamports + amount > u64::MAX {
        Some(VaultError::Overflow)
    } else {
        None
    }
}

/// What a deposit call did: on an error nothing moved; otherwise `amount`
/// went from the depositor to the vault and the event says so.
pub open spec fn deposit_outcome(
    state: Vault,
    depositor: Account,
    vault: Account,
    amount: u64,
    policy: LockPolicy,
    depositor_after: Account,
    vault_after: Account,
    r: Result<DepositEvent, VaultError>,
) -> bool {
    match deposit_error(state, depositor, vault, amount, policy) {
        Some(e) => r == Err::<DepositEvent, VaultError>(e) && depositor_after == depositor
            && vault_after == vault,
        None => {
            &&& r is Ok
            &&& r->Ok_0.amount == amount
            &&& r->Ok_0.user == depositor.key
            &&& r->Ok_0.vault == vault.key
            &&& depositor_after == Account { lamports: (depositor.lamports - amount) as u64, ..depositor }
            &&& vault_after == Account { lamports: (vault.lamports + amount) as u64, ..vault }
        },
    }
}

/// Moves `amount` from `depositor` to the vault account while the vault is
/// open, all or nothing.
pub fn deposit(
    state: &Vault,
    depositor: &mut Account,
    vault: &mut Account,
    amount: u64,
    policy: LockPolicy,
) -> (r: Result<DepositEvent, VaultError>)
    ensures
        deposit_outcome(*state, *old(depositor), *old(vault), amount, policy, *final(depositor), *final(vault), r),
{
    if amount == 0 {
        return Err(VaultError::InvalidAmount);
    }
    if depositor.lamports < amount {
        return Err(VaultError::InsufficientBalance);
    }
    if state.closed(policy) {
        return Err(VaultError::VaultLocked);
    }
    if vault.lamports > u64::MAX - amount {
        return Err(VaultError::Overflow);
    }
    depositor.lamports = depositor.lamports - amount;
    vault.lamports = vault.lamports + amount;
    Ok(DepositEvent { amount, user: depositor.key, vault: vault.key })
}

/// Two deposits that both succeed add both amounts to the vault's balance and
/// take both from the depositor.
pub proof fn lemma_deposits_add_up(
    state: Vault,
    policy: LockPolicy,
    d0: Account,
    v0: Account,
    a: u64,
    d1: Account,
    v1: Account,
    r1: Result<DepositEvent, VaultError>,
    b: u64,
    d2: Account,
    v2: Account,
    r2: Result<DepositEvent, VaultError>,
)
    requires
        deposit_outcome(state, d0, v0, a, policy, d1, v1, r1),
        deposit_outcome(state, d1, v1, b, policy, d2, v2, r2),
        r1 is Ok,
        r2 is Ok,
    ensures
        v2.lamports == v0.lamports + a + b,
        d2.lamports == d0.lamports - a - b,
        v2.key == v0.key,
{
}

/// A deposit that fails moves nothing; a deposit of zero, or of more than the
/// depositor holds, always fails.
pub proof fn lemma_refused_deposit_moves_nothing(
    state: Vault,
    policy: LockPolicy,
    d0: Account,
    v0: Account,
    amount: u64,
    d1: Account,
    v1: Account,
    r: Result<DepositEvent, VaultError>,
)
    requires
        deposit_outcome(state, d0, v0, amount, policy, d1, v1, r),
        amount == 0 || d0.lamports < amount,
    ensures
        r is Err,
        amount == 0 ==> r == Err::<DepositEvent, VaultError>(VaultError::InvalidAmount),
        amount > 0 ==> r == Err::<DepositEvent, VaultError>(VaultError::InsufficientBalance),
        d1 == d0,
        v1 == v0,
{
}

/// The accounts of a vault's creation: the program that owns the vault, the
/// creator who pays the first deposit, the vault account, and its record if
/// one already exists.
#[derive(Clone, Debug, PartialEq, Eq)]
pub struct InitializeVault {
    pub program_id: Identity,
    pub creater: Account,
    pub vault: Account,
    pub vault_state: Option<Vault>,
}

/// The accounts of a disbursement: the program, the caller, the vault account
/// and its record, and the three winners.
#[derive(Clone, Debug, PartialEq, Eq)]
pub struct Disperse {
    pub program_id: Identity,
    pub authority: Identity,
    pub vault: Account,
    pub vault_state: Vault,
    pub winner1: Account,
    pub winner2: Account,
    pub winner3: Account,
}

/// The derived address of the vault of `creator` for `campaign_id`.
pub open spec fn vault_address(program_id: Identity, creator: Seq<u8>, campaign_id: u64) -> Option<(Seq<u8>, u8)> {
    program_address(vault_seeds(creator, campaign_id), program_id@)
}

/// The error that creating a vault fails with before any funds move, if any.
pub open spec fn initialize_address_error(c: InitializeVault, campaignid: u64) -> Option<VaultError> {
    let derived = vault_address(c.program_id, c.creater.key@, campaignid);
    if derived is None {
        Some(VaultError::AddressUnavailable)
    } else if derived->Some_0.0 != c.vault.key@ {
        Some(VaultError::AddressMismatch)
    } else if c.vault_state is Some {
        Some(VaultError::IdentityCollision)
    } else {
        None
    }
}

/// The record a new vault starts with.
pub open spec fn fresh_vault(v: Vault, campaignid: u64, deadline: u64, authority: Identity, bump: u8) -> bool {
    &&& v.id@ == decimal_text(campaignid as nat)
    &&& v.id@.len() <= MAX_ID_LEN
    &&& !v.is_dispersed
    &&& !v.locked
    &&& v.deadline == deadline
    &&& v.authority == authority
    &&& v.bump == bump
}

/// Creates the vault of the creator for `campaignid` at its derived address
/// and makes the first deposit from the creator, all or nothing; hands back the
/// creation event and then the deposit event.
pub fn initialize(
    ctx: &mut InitializeVault,
    campaignid: u64,
    deadline: u64,
    authority: Identity,
    amount: u64,
) -> (r: Result<(InitializeVaultEvent, DepositEvent), VaultError>)
    ensures
        match initialize_address_error(*old(ctx), campaignid) {
            Some(e) => r == Err::<(InitializeVaultEvent, DepositEvent), VaultError>(e) && *final(ctx) == *old(ctx),
            None => {
                let bump = vault_address(old(ctx).program_id, old(ctx).creater.key@, campaignid)->Some_0.1;
                match transfer_error(old(ctx).creater, old(ctx).vault, amount, false) {
                    Some(e) => r == Err::<(InitializeVaultEvent, DepositEvent), VaultError>(e) && *final(ctx) == *old(ctx),
                    None => {
                        &&& r is Ok
                        &&& final(ctx).vault_state is Some
                        &&& fresh_vault(final(ctx).vault_state->Some_0, campaignid, deadline, authority, bump)
                        &&& final(ctx).program_id == old(ctx).program_id
                        &&& r->Ok_0.0 == (InitializeVaultEvent { vault: old(ctx).vault.key, vault_authority: authority, locked: false })
                        &&& deposit_outcome(final(ctx).vault_state->Some_0, old(ctx).creater, old(ctx).vault, amount,
                            LockPolicy::DispersedOnly, final(ctx).creater, final(ctx).vault, Ok(r->Ok_0.1))
                    },
                }
            },
        },
{
    let (key, bump) = match derive_identity(&ctx.program_id, &ctx.creater.key, campaignid) {
        Some(found) => found,
        None => {
            return Err(VaultError::AddressUnavailable);
        },
    };
    if !key.same_as(&ctx.vault.key) {
        return Err(VaultError::AddressMismatch);
    }
    if ctx.vault_state.is_some() {
        return Err(VaultError::IdentityCollision);
    }
    proof {
        lemma_u64_text_fits(campaignid);
    }
    let state = Vault {
        id: decimal_string(campaignid),
        is_dispersed: false,
        deadline,
        authority,
        bump,
        locked: false,
    };
    let created = InitializeVaultEvent { vault: ctx.vault.key, vault_authority: authority, locked: false };
    let mut creater = ctx.creater;
    let mut vault = ctx.vault;
    let deposited = deposit(&state, &mut creater, &mut vault, amount, LockPolicy::DispersedOnly);
    match deposited {
        Ok(event) => {
            ctx.creater = creater;
            ctx.vault = vault;
            ctx.vault_state = Some(state);
            Ok((created, event))
        },
        Err(e) => Err(e),
    }
}

/// What the first winner receives: its share and the rounding remainder.
pub open spec fn first_payout(total: nat) -> nat {
    (total - share(total, 30) - share(total, 20)) as nat
}

/// Whether the winners' balances can take their payouts out of `total`.
pub open spec fn payouts_fit(c: Disperse) -> bool {
    let total = c.vault.lamports as nat;
    &&& c.winner1.lamports + first_payout(total) <= u64::MAX
    &&& c.winner2.lamports + share(total, 30) <= u64::MAX
    &&& c.winner3.lamports + share(total, 20) <= u64::MAX
}

/// The error that a disbursement fails with, if any, checked in this order.
pub open spec fn disburse_error(c: Disperse, creator: Seq<u8>, campaign_id: u64, policy: LockPolicy) -> Option<VaultError> {
    let derived = vault_address(c.program_id, creator, campaign_id);
    if derived is None {
        Some(VaultError::AddressUnavailable)
    } else if derived->Some_0.0 != c.vault.key@ {
        Some(VaultError::AddressMismatch)
    } else if is_closed(c.vault_state, policy) {
        Some(VaultError::VaultLocked)
    } else if c.authority@ != c.vault_state.authority@ {
        Some(VaultError::Unauthorized)
    } else if !payouts_fit(c) {
        Some(VaultError::TransferFailed)
    } else {
        None
    }
}

/// The accounts after a successful disbursement: the winners paid, the vault
/// emptied and marked dispersed.
pub open spec fn disbursed(c: Disperse) -> Disperse {
    let total = c.vault.lamports as nat;
    Disperse {
        vault: Account { lamports: 0, ..c.vault },
        vault_state: Vault { is_dispersed: true, ..c.vault_state },
        winner1: Account { lamports: (c.winner1.lamports + first_payout(total)) as u64, ..c.winner1 },
        winner2: Account { lamports: (c.winner2.lamports + share(total, 30)) as u64, ..c.winner2 },
        winner3: Account { lamports: (c.winner3.lamports + share(total, 20)) as u64, ..c.winner3 },
        ..c
    }
}

/// What a disbursement call did: on an error nothing changed; otherwise the
/// accounts are `disbursed(pre)` and the event gives the shares.
pub open spec fn disburse_outcome(
    pre: Disperse,
    post: Disperse,
    creator: Seq<u8>,
    campaign_id: u64,
    policy: LockPolicy,
    r: Result<WithdrawEvent, VaultError>,
) -> bool {
    match disburse_error(pre, creator, campaign_id, policy) {
        Some(e) => r == Err::<WithdrawEvent, VaultError>(e) && post == pre,
        None => {
            let total = pre.vault.lamports as nat;
            &&& post == disbursed(pre)
            &&& r is Ok
            &&& r->Ok_0.campaign_id@ == decimal_text(campaign_id as nat)
            &&& r->Ok_0.w1 == share(total, 50)
            &&& r->Ok_0.w2 == share(total, 30)
            &&& r->Ok_0.w3 == share(total, 20)
            &&& r->Ok_0.remainder == total - share(total, 50) - share(total, 30) - share(total, 20)
            &&& r->Ok_0.vault == pre.vault.key
        },
    }
}

/// Pays out the vault of `creator` for `campaign_id` 50/30/20 to the three
/// winners when the caller is the vault's authority and the vault is open; the
/// rounding remainder goes to the first winner, the vault ends empty and
/// dispersed. All or nothing.
pub fn disburse(
    ctx: &mut Disperse,
    creator: &Identity,
    campaign_id: u64,
    policy: LockPolicy,
) -> (r: Result<WithdrawEvent, VaultError>)
    ensures
        disburse_outcome(*old(ctx), *final(ctx), creator@, campaign_id, policy, r),
{
    let key = match derive_identity(&ctx.program_id, creator, campaign_id) {
        Some((key, _bump)) => key,
        None => {
            return Err(VaultError::AddressUnavailable);
        },
    };
    if !key.same_as(&ctx.vault.key) {
        return Err(VaultError::AddressMismatch);
    }
    if ctx.vault_state.closed(policy) {
        return Err(VaultError::VaultLocked);
    }
    if !ctx.authority.same_as(&ctx.vault_state.authority) {
        return Err(VaultError::Unauthorized);
    }
    let total = ctx.vault.lamports;
    let shares = split(total);
    let first = shares.w1 + shares.remainder;
    if ctx.winner1.lamports > u64::MAX - first || ctx.winner2.lamports > u64::MAX - shares.w2
        || ctx.winner3.lamports > u64::MAX - shares.w3 {
        return Err(VaultError::TransferFailed);
    }
    ctx.winner1.lamports = ctx.winner1.lamports + first;
    ctx.winner2.lamports = ctx.winner2.lamports + shares.w2;
    ctx.winner3.lamports = ctx.winner3.lamports + shares.w3;
    ctx.vault.lamports = 0;
    ctx.vault_state.is_dispersed = true;
    Ok(WithdrawEvent {
        campaign_id: decimal_string(campaign_id),
        w1: shares.w1,
        w2: shares.w2,
        w3: shares.w3,
        remainder: shares.remainder,
        vault: ctx.vault.key,
    })
}

/// Disburses under the recorded behaviour, where only `is_dispersed` closes a
/// vault and the lock toggle is not consulted.
pub fn disburse_rewards(ctx: &mut Disperse, creater: Identity, campaignid: u64) -> (r: Result<WithdrawEvent, VaultError>)
    ensures
        disburse_outcome(*old(ctx), *final(ctx), creater@, campaignid, LockPolicy::DispersedOnly, r),
{
    disburse(ctx, &creater, campaignid, LockPolicy::DispersedOnly)
}

/// A disbursement moves no funds in or out: what left the vault is exactly
/// what the three winners received.
pub proof fn lemma_disburse_conserves(
    pre: Disperse,
    post: Disperse,
    creator: Seq<u8>,
    campaign_id: u64,
    policy: LockPolicy,
    r: Result<WithdrawEvent, VaultError>,
)
    requires
        disburse_outcome(pre, post, creator, campaign_id, policy, r),
    ensures
        post.vault.lamports + post.winner1.lamports + post.winner2.lamports + post.winner3.lamports
            == pre.vault.lamports + pre.winner1.lamports + pre.winner2.lamports + pre.winner3.lamports,
        r is Ok ==> post.vault.lamports == 0 && post.vault_state.is_dispersed,
{
}

/// Disbursing twice: the second call fails with `VaultLocked` and changes
/// nothing.
pub proof fn lemma_disburse_twice(
    s0: Disperse,
    s1: Disperse,
    s2: Disperse,
    creator: Seq<u8>,
    campaign_id: u64,
    policy: LockPolicy,
    r1: Result<WithdrawEvent, VaultError>,
    r2: Result<WithdrawEvent, VaultError>,
)
    requires
        disburse_outcome(s0, s1, creator, campaign_id, policy, r1),
        disburse_outcome(s1, s2, creator, campaign_id, policy, r2),
        r1 is Ok,
    ensures
        r2 == Err::<WithdrawEvent, VaultError>(VaultError::VaultLocked),
        s2 == s1,
{
}

/// A caller other than the vault's authority is refused, with `Unauthorized`
/// once the address and the lock pass, and nothing changes.
pub proof fn lemma_stranger_cannot_disburse(
    pre: Disperse,
    post: Disperse,
    creator: Seq<u8>,
    campaign_id: u64,
    policy: LockPolicy,
    r: Result<WithdrawEvent, VaultError>,
)
    requires
        disburse_outcome(pre, post, creator, campaign_id, policy, r),
        pre.authority@ != pre.vault_state.authority@,
    ensures
        r is Err,
        post == pre,
        vault_address(pre.program_id, creator, campaign_id) matches Some((k, _)) && k == pre.vault.key@
            && !is_closed(pre.vault_state, policy) ==> r == Err::<WithdrawEvent, VaultError>(VaultError::Unauthorized),
{
}

/// Attempts that race on one vault, applied one after another: attempt `i`
/// starts from the vault and record that attempt `i - 1` left (its caller and
/// winners may differ). At most one attempt succeeds, every later one fails
/// with `VaultLocked`, and the vault stays empty after the success.
pub proof fn lemma_one_disbursement_wins(
    pres: Seq<Disperse>,
    posts: Seq<Disperse>,
    rs: Seq<Result<WithdrawEvent, VaultError>>,
    creator: Seq<u8>,
    campaign_id: u64,
    policy: LockPolicy,
)
    requires
        pres.len() == posts.len(),
        pres.len() == rs.len(),
        forall|i: int| 0 <= i < pres.len() ==> disburse_outcome(#[trigger] pres[i], posts[i], creator, campaign_id, policy, rs[i]),
        forall|i: int| 0 < i < pres.len() ==> (#[trigger] pres[i]).vault == posts[i - 1].vault
            && pres[i].vault_state == posts[i - 1].vault_state && pres[i].program_id == pres[0].program_id,
    ensures
        forall|i: int, j: int| 0 <= i < rs.len() && 0 <= j < rs.len() && rs[i] is Ok && rs[j] is Ok ==> i == j,
        forall|i: int, j: int| 0 <= i < j < rs.len() && rs[i] is Ok
            ==> rs[j] == Err::<WithdrawEvent, VaultError>(VaultError::VaultLocked) && posts[j].vault.lamports == 0,
{
    assert forall|i: int, j: int| 0 <= i < j < rs.len() && rs[i] is Ok implies
        rs[j] == Err::<WithdrawEvent, VaultError>(VaultError::VaultLocked) && posts[j].vault.lamports == 0 by {
        lemma_stays_dispersed(pres, posts, rs, creator, campaign_id, policy, i, j);
    }
}

proof fn lemma_stays_dispersed(
    pres: Seq<Disperse>,
    posts: Seq<Disperse>,
    rs: Seq<Result<WithdrawEvent, VaultError>>,
    creator: Seq<u8>,
    campaign_id: u64,
    policy: LockPolicy,
    i: int,
    j: int,
)
    requires
        pres.len() == posts.len(),
        pres.len() == rs.len(),
        forall|i: int| 0 <= i < pres.len() ==> disburse_outcome(#[trigger] pres[i], posts[i], creator, campaign_id, policy, rs[i]),
        forall|i: int| 0 < i < pres.len() ==> (#[trigger] pres[i]).vault == posts[i - 1].vault
            && pres[i].vault_state == posts[i - 1].vault_state && pres[i].program_id == pres[0].program_id,
        0 <= i < j < rs.len(),
        rs[i] is Ok,
    ensures
        pres[j].vault == posts[i].vault,
        pres[j].vault_state.is_dispersed,
        rs[j] == Err::<WithdrawEvent, VaultError>(VaultError::VaultLocked),
        posts[j] == pres[j],
        posts[j].vault.lamports == 0,
    decreases j - i,
{
    assert(pres[i].program_id == pres[0].program_id);
    assert(pres[j].program_id == pres[0].program_id);
    if j > i + 1 {
        lemma_stays_dispersed(pres, posts, rs, creator, campaign_id, policy, i, j - 1);
    }
    assert(pres[j].vault == posts[j - 1].vault);
}

/// Flips the vault's lock toggle when the caller is its authority, and hands
/// back the new state.
pub fn toggle_lock(state: &mut Vault, vault: &Identity, caller: &Identity) -> (r: Result<ToggleLockEvent, VaultError>)
    ensures
        caller@ != old(state).authority@ ==> r == Err::<ToggleLockEvent, VaultError>(VaultError::Unauthorized)
            && *final(state) == *old(state),
        caller@ == old(state).authority@ ==> r == Ok::<ToggleLockEvent, VaultError>(
            ToggleLockEvent { vault: *vault, vault_authority: old(state).authority, locked: !old(state).locked },
        ) && *final(state) == (Vault { locked: !old(state).locked, ..*old(state) }),
{
    if !caller.same_as(&state.authority) {
        return Err(VaultError::Unauthorized);
    }
    state.locked = !state.locked;
    Ok(ToggleLockEvent { vault: *vault, vault_authority: state.authority, locked: state.locked })
}

} // verus!
