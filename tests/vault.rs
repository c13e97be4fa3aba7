use anchor_lang::prelude::Pubkey;
use token_vault::address::{derive_vault_address, find_vault_address};
use token_vault::deposit::{deposit_at, Deposit, DepositEvent};
use token_vault::error::ErrorCode;
use token_vault::initialize::{initialize_at, Initialize};
use token_vault::state::{vault_seed_bytes, Account, Identity, VaultState};
use token_vault::token_vault::{deposit, initialize, withdraw};
use token_vault::withdraw::{withdraw_at, Withdraw, WithdrawEvent};

const PROGRAM: [u8; 32] = [7u8; 32];

fn id(b: u8) -> Identity {
    Identity { bytes: [b; 32] }
}

fn program() -> Identity {
    Identity { bytes: PROGRAM }
}

fn canonical() -> (Identity, u8) {
    let (p, b) = Pubkey::find_program_address(&[b"vault_state"], &Pubkey::new_from_array(PROGRAM));
    (Identity { bytes: p.to_bytes() }, b)
}

fn signer(key: Identity, lamports: u64) -> Account {
    Account { key, lamports, is_signer: true }
}

fn plain(key: Identity, lamports: u64) -> Account {
    Account { key, lamports, is_signer: false }
}

fn fresh_init(payer: Account, rent: u64) -> Initialize {
    Initialize {
        payer,
        vault: plain(canonical().0, 0),
        vault_state: None,
        program_id: program(),
        rent,
    }
}

fn created(owner: Identity) -> VaultState {
    let mut ctx = fresh_init(signer(id(1), 10), 0);
    initialize(&mut ctx, owner).unwrap();
    ctx.vault_state.unwrap()
}

fn deposit_ctx(depositor: Account, vault_lamports: u64, state: VaultState) -> Deposit {
    Deposit {
        depositor,
        vault: plain(canonical().0, vault_lamports),
        vault_state: state,
        program_id: program(),
    }
}

fn withdraw_ctx(caller: Account, vault_lamports: u64, state: VaultState, recipient: Account) -> Withdraw {
    Withdraw {
        owner: caller,
        vault: plain(canonical().0, vault_lamports),
        vault_state: state,
        recipient,
        program_id: program(),
    }
}

#[test]
fn seed_is_vault_state() {
    assert_eq!(vault_seed_bytes(), b"vault_state".to_vec());
}

#[test]
fn derived_address_matches_runtime() {
    let (key, bump) = canonical();
    let found = find_vault_address(&program()).unwrap();
    assert_eq!(found.0, key);
    assert_eq!(found.1, bump);
    assert_eq!(derive_vault_address(&program(), bump), Some(key));
    assert_ne!(key, program());
}

#[test]
fn identities_compare_by_every_byte() {
    let a = id(4);
    let mut b = id(4);
    assert!(a.same_as(&b));
    b.bytes[31] = 5;
    assert!(!a.same_as(&b));
    b.bytes[31] = 4;
    b.bytes[0] = 0;
    assert!(!a.same_as(&b));
}

#[test]
fn create_deposit_withdraw_scenario() {
    let payer = id(1);
    let owner = id(2);
    let depositor = id(3);
    let recipient = id(4);
    let mut init = fresh_init(signer(payer, 10), 0);
    assert_eq!(initialize(&mut init, owner), Ok(()));
    let state = init.vault_state.unwrap();
    assert_eq!(state.owner, owner);
    assert_eq!(state.revenue, 0);
    assert_eq!(state.tokens_deployed, 0);
    assert_eq!(state.vault_state_bump, canonical().1);

    let mut d = deposit_ctx(signer(depositor, 1000), init.vault.lamports, state);
    let ev = deposit(&mut d, 500, 1_700_000_000).unwrap();
    assert_eq!(ev, DepositEvent { depositor, amount: 500, timestamp: 1_700_000_000 });
    assert_eq!(d.vault_state.revenue, 500);
    assert_eq!(d.vault_state.tokens_deployed, 1);
    assert_eq!(d.vault.lamports, 500);

    let mut w = withdraw_ctx(signer(owner, 0), d.vault.lamports, d.vault_state, plain(recipient, 0));
    let ev = withdraw(&mut w, 500, 1_700_000_001).unwrap();
    assert_eq!(ev, WithdrawEvent { recipient, amount: 500, timestamp: 1_700_000_001 });
    assert_eq!(w.vault.lamports, 0);
    assert_eq!(w.recipient.lamports, 500);
    assert_eq!(w.vault_state.revenue, 500);

    let mut bad = withdraw_ctx(signer(depositor, 500), w.vault.lamports, w.vault_state, signer(depositor, 500));
    assert_eq!(withdraw(&mut bad, 1, 0), Err(ErrorCode::UnauthorizedWithdrawal));

    let before = w;
    assert_eq!(withdraw(&mut w, 1, 0), Err(ErrorCode::InsufficientFunds));
    assert_eq!(w, before);
}

#[test]
fn second_initialize_fails() {
    let mut ctx = fresh_init(signer(id(1), 100), 10);
    initialize(&mut ctx, id(2)).unwrap();
    assert_eq!(ctx.payer.lamports, 90);
    assert_eq!(ctx.vault.lamports, 10);
    let after_first = ctx;
    assert_eq!(initialize(&mut ctx, id(9)), Err(ErrorCode::AlreadyInitialized));
    assert_eq!(ctx, after_first);
    assert_eq!(ctx.vault_state.unwrap().owner, id(2));
}

#[test]
fn initialize_at_wrong_address_fails() {
    let mut ctx = fresh_init(signer(id(1), 100), 10);
    ctx.vault.key = id(8);
    let before = ctx;
    assert_eq!(initialize(&mut ctx, id(2)), Err(ErrorCode::InvalidVaultHandle));
    assert_eq!(ctx, before);
    let mut ctx = fresh_init(signer(id(1), 100), 10);
    assert_eq!(initialize_at(&mut ctx, id(2), None), Err(ErrorCode::InvalidVaultHandle));
}

#[test]
fn initialize_needs_a_funded_signing_payer() {
    let mut ctx = fresh_init(signer(id(1), 9), 10);
    assert_eq!(initialize(&mut ctx, id(2)), Err(ErrorCode::AllocationFailed));
    assert!(ctx.vault_state.is_none());
    let mut ctx = fresh_init(plain(id(1), 100), 10);
    assert_eq!(initialize(&mut ctx, id(2)), Err(ErrorCode::AllocationFailed));
    let mut ctx = fresh_init(signer(id(1), 100), 10);
    ctx.vault.lamports = u64::MAX;
    assert_eq!(initialize(&mut ctx, id(2)), Err(ErrorCode::AllocationFailed));
}

#[test]
fn initialize_at_records_given_bump() {
    let mut ctx = fresh_init(signer(id(1), 5), 5);
    ctx.vault.key = id(6);
    assert_eq!(initialize_at(&mut ctx, id(2), Some((id(6), 200))), Ok(()));
    assert_eq!(ctx.payer.lamports, 0);
    assert_eq!(ctx.vault.lamports, 5);
    assert_eq!(
        ctx.vault_state,
        Some(VaultState { owner: id(2), vault_state_bump: 200, revenue: 0, tokens_deployed: 0 })
    );
}

#[test]
fn deposits_sum_into_revenue() {
    let mut d = deposit_ctx(signer(id(3), 1000), 0, created(id(2)));
    for a in [5u64, 0, 120, 75] {
        deposit(&mut d, a, 0).unwrap();
    }
    assert_eq!(d.vault_state.revenue, 200);
    assert_eq!(d.vault_state.tokens_deployed, 4);
    assert_eq!(d.vault.lamports, 200);
    assert_eq!(d.depositor.lamports, 800);
    assert_eq!(d.vault_state.owner, id(2));
}

#[test]
fn zero_deposit_still_counts() {
    let mut d = deposit_ctx(signer(id(3), 0), 0, created(id(2)));
    deposit(&mut d, 0, 0).unwrap();
    assert_eq!(d.vault_state.revenue, 0);
    assert_eq!(d.vault_state.tokens_deployed, 1);
}

#[test]
fn deposit_conserves_value() {
    let mut d = deposit_ctx(signer(id(3), 70), 30, created(id(2)));
    deposit(&mut d, 25, 0).unwrap();
    assert_eq!(d.vault.lamports, 55);
    assert_eq!(d.depositor.lamports, 45);
    assert_eq!(d.vault.lamports + d.depositor.lamports, 100);
}

#[test]
fn deposit_transfer_failures() {
    let mut d = deposit_ctx(signer(id(3), 10), 0, created(id(2)));
    let before = d;
    assert_eq!(deposit(&mut d, 11, 0), Err(ErrorCode::TransferFailed));
    assert_eq!(d, before);
    let mut d = deposit_ctx(plain(id(3), 10), 0, created(id(2)));
    assert_eq!(deposit(&mut d, 1, 0), Err(ErrorCode::TransferFailed));
    let mut d = deposit_ctx(signer(id(3), 10), u64::MAX, created(id(2)));
    assert_eq!(deposit(&mut d, 1, 0), Err(ErrorCode::TransferFailed));
}

#[test]
fn deposit_counter_overflow() {
    let mut state = created(id(2));
    state.revenue = u64::MAX - 4;
    let mut d = deposit_ctx(signer(id(3), 10), 0, state);
    let before = d;
    assert_eq!(deposit(&mut d, 5, 0), Err(ErrorCode::Overflow));
    assert_eq!(d, before);
    assert!(deposit(&mut d, 4, 0).is_ok());
    let mut state = created(id(2));
    state.tokens_deployed = u64::MAX;
    let mut d = deposit_ctx(signer(id(3), 10), 0, state);
    assert_eq!(deposit(&mut d, 0, 0), Err(ErrorCode::Overflow));
}

#[test]
fn deposit_rejects_forged_handle() {
    let mut state = created(id(2));
    state.vault_state_bump = state.vault_state_bump.wrapping_sub(1);
    let mut d = deposit_ctx(signer(id(3), 10), 0, state);
    assert_eq!(deposit(&mut d, 1, 0), Err(ErrorCode::InvalidVaultHandle));
    let mut d = deposit_ctx(signer(id(3), 10), 0, created(id(2)));
    d.vault.key = id(9);
    assert_eq!(deposit(&mut d, 1, 0), Err(ErrorCode::InvalidVaultHandle));
    let mut d = deposit_ctx(signer(id(3), 10), 0, created(id(2)));
    assert_eq!(deposit_at(&mut d, 1, 0, None), Err(ErrorCode::InvalidVaultHandle));
}

#[test]
fn non_owner_cannot_withdraw() {
    let state = created(id(2));
    let mut w = withdraw_ctx(signer(id(3), 0), 100, state, plain(id(3), 0));
    let before = w;
    assert_eq!(withdraw(&mut w, 1, 0), Err(ErrorCode::UnauthorizedWithdrawal));
    assert_eq!(w, before);
    let mut w = withdraw_ctx(plain(id(2), 0), 100, state, plain(id(3), 0));
    assert_eq!(withdraw(&mut w, 1, 0), Err(ErrorCode::UnauthorizedWithdrawal));
}

#[test]
fn overdraw_fails_and_keeps_custody() {
    let state = created(id(2));
    let mut w = withdraw_ctx(signer(id(2), 0), 100, state, plain(id(4), 0));
    let before = w;
    assert_eq!(withdraw(&mut w, 101, 0), Err(ErrorCode::InsufficientFunds));
    assert_eq!(w, before);
    assert!(withdraw(&mut w, 100, 0).is_ok());
    assert_eq!(w.vault.lamports, 0);
}

#[test]
fn withdraw_to_full_recipient_overflows() {
    let state = created(id(2));
    let mut w = withdraw_ctx(signer(id(2), 0), 100, state, plain(id(4), u64::MAX));
    assert_eq!(withdraw(&mut w, 1, 0), Err(ErrorCode::Overflow));
}

#[test]
fn withdraw_rejects_forged_handle() {
    let mut state = created(id(2));
    state.vault_state_bump = state.vault_state_bump.wrapping_add(1);
    let mut w = withdraw_ctx(signer(id(2), 0), 100, state, plain(id(4), 0));
    assert_eq!(withdraw(&mut w, 1, 0), Err(ErrorCode::InvalidVaultHandle));
    let mut w = withdraw_ctx(signer(id(2), 0), 100, created(id(2)), plain(id(4), 0));
    assert_eq!(withdraw_at(&mut w, 1, 0, Some(id(8))), Err(ErrorCode::InvalidVaultHandle));
}

#[test]
fn withdraw_to_any_recipient() {
    let state = created(id(2));
    let mut w = withdraw_ctx(signer(id(2), 3), 100, state, plain(id(2), 3));
    let ev = withdraw(&mut w, 40, 12).unwrap();
    assert_eq!(ev.recipient, id(2));
    assert_eq!(w.recipient.lamports, 43);
    assert_eq!(w.vault.lamports, 60);
    assert_eq!(w.vault_state, state);
}
