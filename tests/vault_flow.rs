use sip_escrow::{
    deposit, derive_identity, disburse, disburse_rewards, initialize, split, toggle_lock, Account,
    Disperse, Identity, InitializeVault, LockPolicy, Vault, VaultError,
};

fn key(b: u8) -> Identity {
    Identity::new([b; 32])
}

fn program() -> Identity {
    key(7)
}

fn vault_key(creator: &Identity, campaign: u64) -> Identity {
    derive_identity(&program(), creator, campaign).expect("address").0
}

fn open_vault(authority: Identity) -> Vault {
    Vault {
        id: "9".to_string(),
        is_dispersed: false,
        deadline: 1000,
        authority,
        bump: 255,
        locked: false,
    }
}

fn disperse_ctx(caller: Identity, lamports: u64) -> Disperse {
    let creator = key(1);
    Disperse {
        program_id: program(),
        authority: caller,
        vault: Account { key: vault_key(&creator, 9), lamports },
        vault_state: open_vault(key(2)),
        winner1: Account { key: key(11), lamports: 0 },
        winner2: Account { key: key(12), lamports: 0 },
        winner3: Account { key: key(13), lamports: 0 },
    }
}

#[test]
fn derive_identity_is_repeatable() {
    let a = derive_identity(&program(), &key(1), 5);
    let b = derive_identity(&program(), &key(1), 5);
    assert!(a.is_some());
    assert_eq!(a, b);
}

#[test]
fn derive_identity_separates_pairs() {
    let a = derive_identity(&program(), &key(1), 5).unwrap().0;
    let b = derive_identity(&program(), &key(1), 6).unwrap().0;
    let c = derive_identity(&program(), &key(2), 5).unwrap().0;
    assert_ne!(a, b);
    assert_ne!(a, c);
    assert_ne!(b, c);
    assert_ne!(a, key(1));
}

#[test]
fn same_as_compares_every_byte() {
    let mut bytes = [3u8; 32];
    let a = Identity::new(bytes);
    bytes[31] = 4;
    let b = Identity::new(bytes);
    assert!(a.same_as(&a));
    assert!(!a.same_as(&b));
}

#[test]
fn two_deposits_add_up() {
    let state = open_vault(key(2));
    let mut depositor = Account { key: key(3), lamports: 1000 };
    let mut vault = Account { key: key(4), lamports: 0 };
    let e1 = deposit(&state, &mut depositor, &mut vault, 40, LockPolicy::DispersedOnly).unwrap();
    let e2 = deposit(&state, &mut depositor, &mut vault, 60, LockPolicy::DispersedOnly).unwrap();
    assert_eq!(vault.lamports, 100);
    assert_eq!(depositor.lamports, 900);
    assert_eq!(e1.amount, 40);
    assert_eq!(e2.amount, 60);
    assert_eq!(e2.user, key(3));
    assert_eq!(e2.vault, key(4));
}

#[test]
fn deposit_of_zero_is_refused() {
    let state = open_vault(key(2));
    let mut depositor = Account { key: key(3), lamports: 10 };
    let mut vault = Account { key: key(4), lamports: 5 };
    let r = deposit(&state, &mut depositor, &mut vault, 0, LockPolicy::DispersedOnly);
    assert_eq!(r, Err(VaultError::InvalidAmount));
    assert_eq!(depositor.lamports, 10);
    assert_eq!(vault.lamports, 5);
}

#[test]
fn deposit_beyond_balance_is_refused() {
    let state = open_vault(key(2));
    let mut depositor = Account { key: key(3), lamports: 10 };
    let mut vault = Account { key: key(4), lamports: 5 };
    let r = deposit(&state, &mut depositor, &mut vault, 11, LockPolicy::DispersedOnly);
    assert_eq!(r, Err(VaultError::InsufficientBalance));
    assert_eq!(depositor.lamports, 10);
    assert_eq!(vault.lamports, 5);
}

#[test]
fn deposit_into_dispersed_vault_is_refused() {
    let mut state = open_vault(key(2));
    state.is_dispersed = true;
    let mut depositor = Account { key: key(3), lamports: 10 };
    let mut vault = Account { key: key(4), lamports: 0 };
    let r = deposit(&state, &mut depositor, &mut vault, 5, LockPolicy::DispersedOnly);
    assert_eq!(r, Err(VaultError::VaultLocked));
    assert_eq!(vault.lamports, 0);
}

#[test]
fn deposit_that_overflows_the_vault_is_refused() {
    let state = open_vault(key(2));
    let mut depositor = Account { key: key(3), lamports: 10 };
    let mut vault = Account { key: key(4), lamports: u64::MAX - 4 };
    let r = deposit(&state, &mut depositor, &mut vault, 5, LockPolicy::DispersedOnly);
    assert_eq!(r, Err(VaultError::Overflow));
    assert_eq!(depositor.lamports, 10);
}

#[test]
fn initialize_creates_and_funds_the_vault() {
    let creator = key(1);
    let (vkey, bump) = derive_identity(&program(), &creator, 42).unwrap();
    let mut ctx = InitializeVault {
        program_id: program(),
        creater: Account { key: creator, lamports: 500 },
        vault: Account { key: vkey, lamports: 0 },
        vault_state: None,
    };
    let (created, deposited) = initialize(&mut ctx, 42, 99, key(2), 200).unwrap();
    assert_eq!(created.vault, vkey);
    assert_eq!(created.vault_authority, key(2));
    assert!(!created.locked);
    assert_eq!(deposited.amount, 200);
    assert_eq!(deposited.user, creator);
    assert_eq!(ctx.creater.lamports, 300);
    assert_eq!(ctx.vault.lamports, 200);
    let state = ctx.vault_state.clone().unwrap();
    assert_eq!(state.id, "42");
    assert_eq!(state.bump, bump);
    assert_eq!(state.deadline, 99);
    assert_eq!(state.authority, key(2));
    assert!(!state.is_dispersed);
}

#[test]
fn initialize_twice_is_a_collision() {
    let creator = key(1);
    let vkey = vault_key(&creator, 42);
    let mut ctx = InitializeVault {
        program_id: program(),
        creater: Account { key: creator, lamports: 500 },
        vault: Account { key: vkey, lamports: 0 },
        vault_state: None,
    };
    initialize(&mut ctx, 42, 99, key(2), 200).unwrap();
    let before = ctx.clone();
    let r = initialize(&mut ctx, 42, 99, key(2), 100);
    assert_eq!(r, Err(VaultError::IdentityCollision));
    assert_eq!(ctx, before);
}

#[test]
fn initialize_at_wrong_address_is_refused() {
    let mut ctx = InitializeVault {
        program_id: program(),
        creater: Account { key: key(1), lamports: 500 },
        vault: Account { key: key(9), lamports: 0 },
        vault_state: None,
    };
    let r = initialize(&mut ctx, 42, 99, key(2), 200);
    assert_eq!(r, Err(VaultError::AddressMismatch));
    assert!(ctx.vault_state.is_none());
}

#[test]
fn initialize_without_funds_creates_nothing() {
    let creator = key(1);
    let vkey = vault_key(&creator, 42);
    let mut ctx = InitializeVault {
        program_id: program(),
        creater: Account { key: creator, lamports: 50 },
        vault: Account { key: vkey, lamports: 0 },
        vault_state: None,
    };
    let r = initialize(&mut ctx, 42, 99, key(2), 200);
    assert_eq!(r, Err(VaultError::InsufficientBalance));
    assert!(ctx.vault_state.is_none());
    assert_eq!(ctx.creater.lamports, 50);
    let r0 = initialize(&mut ctx, 42, 99, key(2), 0);
    assert_eq!(r0, Err(VaultError::InvalidAmount));
    assert!(ctx.vault_state.is_none());
}

#[test]
fn disburse_hundred_splits_exactly() {
    let mut ctx = disperse_ctx(key(2), 100);
    let e = disburse_rewards(&mut ctx, key(1), 9).unwrap();
    assert_eq!((e.w1, e.w2, e.w3, e.remainder), (50, 30, 20, 0));
    assert_eq!(ctx.winner1.lamports, 50);
    assert_eq!(ctx.winner2.lamports, 30);
    assert_eq!(ctx.winner3.lamports, 20);
    assert_eq!(ctx.vault.lamports, 0);
    assert!(ctx.vault_state.is_dispersed);
    assert_eq!(e.campaign_id, "9");
    assert_eq!(e.vault, ctx.vault.key);
}

#[test]
fn disburse_hundred_one_pays_remainder_to_first_winner() {
    let mut ctx = disperse_ctx(key(2), 101);
    let e = disburse_rewards(&mut ctx, key(1), 9).unwrap();
    assert_eq!((e.w1, e.w2, e.w3), (50, 30, 20));
    assert_eq!(e.remainder, 1);
    assert_eq!(ctx.winner1.lamports, 51);
    assert_eq!(ctx.winner2.lamports, 30);
    assert_eq!(ctx.winner3.lamports, 20);
    assert_eq!(ctx.vault.lamports, 0);
}

#[test]
fn disburse_twice_is_locked() {
    let mut ctx = disperse_ctx(key(2), 100);
    disburse_rewards(&mut ctx, key(1), 9).unwrap();
    let after_first = ctx.clone();
    let r = disburse_rewards(&mut ctx, key(1), 9);
    assert_eq!(r, Err(VaultError::VaultLocked));
    assert_eq!(ctx, after_first);
}

#[test]
fn disburse_by_stranger_is_unauthorized() {
    let mut ctx = disperse_ctx(key(5), 100);
    let before = ctx.clone();
    let r = disburse_rewards(&mut ctx, key(1), 9);
    assert_eq!(r, Err(VaultError::Unauthorized));
    assert_eq!(ctx, before);
}

#[test]
fn disburse_with_wrong_campaign_is_refused() {
    let mut ctx = disperse_ctx(key(2), 100);
    let before = ctx.clone();
    let r = disburse_rewards(&mut ctx, key(1), 10);
    assert_eq!(r, Err(VaultError::AddressMismatch));
    assert_eq!(ctx, before);
}

#[test]
fn disburse_refused_transfer_moves_nothing() {
    let mut ctx = disperse_ctx(key(2), 100);
    ctx.winner3.lamports = u64::MAX - 10;
    let before = ctx.clone();
    let r = disburse_rewards(&mut ctx, key(1), 9);
    assert_eq!(r, Err(VaultError::TransferFailed));
    assert_eq!(ctx, before);
}

#[test]
fn racing_disbursements_pay_once() {
    let mut ctx = disperse_ctx(key(2), 1000);
    let callers = [key(2), key(2), key(5), key(2)];
    let mut wins = 0;
    for caller in callers.iter() {
        ctx.authority = *caller;
        match disburse_rewards(&mut ctx, key(1), 9) {
            Ok(_) => wins += 1,
            Err(e) => assert_eq!(e, VaultError::VaultLocked),
        }
    }
    assert_eq!(wins, 1);
    assert_eq!(ctx.vault.lamports, 0);
    assert_eq!(ctx.winner1.lamports + ctx.winner2.lamports + ctx.winner3.lamports, 1000);
}

#[test]
fn toggle_lock_by_authority_flips() {
    let mut state = open_vault(key(2));
    let e = toggle_lock(&mut state, &key(4), &key(2)).unwrap();
    assert!(e.locked);
    assert!(state.locked);
    assert_eq!(e.vault, key(4));
    assert_eq!(e.vault_authority, key(2));
    let e2 = toggle_lock(&mut state, &key(4), &key(2)).unwrap();
    assert!(!e2.locked);
    assert!(!state.locked);
}

#[test]
fn toggle_lock_by_stranger_is_refused() {
    let mut state = open_vault(key(2));
    let r = toggle_lock(&mut state, &key(4), &key(5));
    assert_eq!(r, Err(VaultError::Unauthorized));
    assert!(!state.locked);
}

#[test]
fn lock_is_honoured_only_under_strict_policy() {
    let mut ctx = disperse_ctx(key(2), 100);
    toggle_lock(&mut ctx.vault_state, &key(4), &key(2)).unwrap();
    let mut depositor = Account { key: key(3), lamports: 10 };
    let r = deposit(&ctx.vault_state, &mut depositor, &mut ctx.vault, 5, LockPolicy::DispersedOrLocked);
    assert_eq!(r, Err(VaultError::VaultLocked));
    let r2 = disburse(&mut ctx, &key(1), 9, LockPolicy::DispersedOrLocked);
    assert_eq!(r2, Err(VaultError::VaultLocked));
    assert_eq!(ctx.vault.lamports, 100);
    let r3 = disburse(&mut ctx, &key(1), 9, LockPolicy::DispersedOnly);
    assert!(r3.is_ok());
    assert_eq!(ctx.vault.lamports, 0);
}

#[test]
fn split_values() {
    let s = split(0);
    assert_eq!((s.w1, s.w2, s.w3, s.remainder), (0, 0, 0, 0));
    let s = split(7);
    assert_eq!((s.w1, s.w2, s.w3, s.remainder), (3, 2, 1, 1));
    let s = split(9);
    assert_eq!((s.w1, s.w2, s.w3, s.remainder), (4, 2, 1, 2));
    let s = split(u64::MAX);
    assert_eq!(s.w1, u64::MAX / 2);
    assert_eq!(s.w1 + s.w2 + s.w3 + s.remainder, u64::MAX);
    assert_eq!(s.w2, 5534023222112865484);
    assert_eq!(s.w3, 3689348814741910323);
}

#[test]
fn campaign_id_bytes_are_little_endian() {
    let b = sip_escrow::identity::u64_le_bytes(0x0102_0304_0506_0708);
    assert_eq!(b, vec![8, 7, 6, 5, 4, 3, 2, 1]);
    assert_eq!(sip_escrow::identity::u64_le_bytes(0), vec![0; 8]);
}

#[test]
fn vault_seeds_are_tag_creator_and_id() {
    let seeds = sip_escrow::identity::vault_seed_list(&key(1), 258);
    assert_eq!(seeds.len(), 3);
    assert_eq!(seeds[0], b"vault".to_vec());
    assert_eq!(seeds[1], vec![1u8; 32]);
    assert_eq!(seeds[2], vec![2, 1, 0, 0, 0, 0, 0, 0]);
}
