use vault::address::same_address;
use vault::error::{ErrorCode, VaultError};
use vault::instructions::deposit::{handle_deposit, Deposit};
use vault::instructions::initialize::{handle_initialize, Initialize, InitializeBumps};
use vault::instructions::withdraw::{handle_withdraw, Withdraw, WithdrawBumps};
use vault::ledger::Ledger;
use vault::pda::{derive_vault, derive_vault_state, find_program_address, STATE_SEED, VAULT_SEED};
use vault::rent::state_account_rent;
use vault::state::{VaultState, VAULT_STATE_SPACE};
use vault::system::{is_system_program, Transfer};
use vault::Address;

const AIRDROP: u64 = 10_000_000_000;
const PROGRAM_ID: Address = [7u8; 32];
const USER: Address = [1u8; 32];
const STRANGER: Address = [9u8; 32];
const SYSTEM_PROGRAM: Address = [0u8; 32];

/// The default rent rate of a cluster, in lamports per byte.
const LAMPORTS_PER_BYTE: u64 = 6_960;
/// The rent-exempt minimum of an account without data at that rate.
const SYSTEM_RENT: u64 = 128 * LAMPORTS_PER_BYTE;

fn rent() -> u64 {
    anchor_lang::prelude::Rent::default().minimum_balance(VAULT_STATE_SPACE as usize)
}

fn ledger() -> Ledger {
    let mut ledger = Ledger::new(PROGRAM_ID, LAMPORTS_PER_BYTE);
    ledger.airdrop(&USER, AIRDROP).unwrap();
    ledger.airdrop(&STRANGER, AIRDROP).unwrap();
    ledger
}

fn state_of(a: &Address) -> Address {
    derive_vault_state(a, &PROGRAM_ID).unwrap()
}

fn vault_of(a: &Address) -> Address {
    derive_vault(a, &PROGRAM_ID).unwrap()
}

fn init_ix(a: &Address) -> Initialize {
    Initialize { authority: *a, vault_state: state_of(a), vault: vault_of(a), system_program: SYSTEM_PROGRAM }
}

fn deposit_ix(a: &Address) -> Deposit {
    Deposit { authority: *a, vault_state: state_of(a), vault: vault_of(a), system_program: SYSTEM_PROGRAM }
}

fn withdraw_ix(a: &Address) -> Withdraw {
    Withdraw { authority: *a, vault_state: state_of(a), vault: vault_of(a), system_program: SYSTEM_PROGRAM }
}

// ── addresses ─────────────────────────────────────────────────────────────────

#[test]
fn derived_addresses_are_distinct_and_stable() {
    let s = state_of(&USER);
    let v = vault_of(&USER);
    assert_ne!(s, v);
    assert_ne!(s, USER);
    assert_ne!(v, USER);
    assert_ne!(state_of(&STRANGER), s);
    assert_eq!(state_of(&USER), s);
    let (address, bump) = find_program_address(&STATE_SEED, &USER, &PROGRAM_ID).unwrap();
    assert_eq!(address, s);
    assert!(bump >= 1);
    let (address, _) = find_program_address(&VAULT_SEED, &USER, &PROGRAM_ID).unwrap();
    assert_eq!(address, v);
}

#[test]
fn derived_addresses_match_anchor() {
    let pid = anchor_lang::prelude::Pubkey::new_from_array(PROGRAM_ID);
    let user = anchor_lang::prelude::Pubkey::new_from_array(USER);
    let (expected, _) = anchor_lang::prelude::Pubkey::find_program_address(&[b"state", user.as_ref()], &pid);
    assert_eq!(state_of(&USER), expected.to_bytes());
    let (expected, _) = anchor_lang::prelude::Pubkey::find_program_address(&[b"vault", user.as_ref()], &pid);
    assert_eq!(vault_of(&USER), expected.to_bytes());
}

#[test]
fn same_address_compares_bytes() {
    let mut other = USER;
    assert!(same_address(&USER, &other));
    other[31] = 9;
    assert!(!same_address(&USER, &other));
}

#[test]
fn system_program_is_all_zero() {
    assert!(is_system_program(&SYSTEM_PROGRAM));
    assert!(!is_system_program(&USER));
}

// ── errors ────────────────────────────────────────────────────────────────────

#[test]
fn error_codes_have_names_messages_numbers() {
    assert_eq!(ErrorCode::Unauthorized.name(), "Unauthorized");
    assert_eq!(ErrorCode::InsufficientFunds.name(), "InsufficientFunds");
    assert_eq!(ErrorCode::Unauthorized.message(), "Only the vault authority can withdraw funds");
    assert_eq!(ErrorCode::InsufficientFunds.message(), "Insufficient funds in the vault");
    assert_eq!(ErrorCode::Unauthorized.number(), 6000);
    assert_eq!(ErrorCode::InsufficientFunds.number(), 6001);
}

// ── handlers ──────────────────────────────────────────────────────────────────

#[test]
fn handle_initialize_records_authority_and_bump() {
    let ix = init_ix(&USER);
    let state = handle_initialize(&ix, &InitializeBumps { vault_state: 254, vault: 253 });
    assert_eq!(state.authority, USER);
    assert_eq!(state.bump, 254);
}

#[test]
fn handle_deposit_moves_from_authority_to_vault() {
    let ix = deposit_ix(&USER);
    let t: Transfer = handle_deposit(&ix, 42);
    assert_eq!(t.from, USER);
    assert_eq!(t.to, ix.vault);
    assert_eq!(t.lamports, 42);
}

#[test]
fn handle_withdraw_checks_vault_balance() {
    let ix = withdraw_ix(&USER);
    let bumps = WithdrawBumps { vault: 253 };
    let (t, seeds) = handle_withdraw(&ix, &bumps, 100, 100).unwrap();
    assert_eq!(t.from, ix.vault);
    assert_eq!(t.to, USER);
    assert_eq!(t.lamports, 100);
    assert_eq!(&seeds.prefix, b"vault");
    assert_eq!(seeds.authority, USER);
    assert_eq!(seeds.bump, [253]);
    assert_eq!(handle_withdraw(&ix, &bumps, 100, 101).unwrap_err(), ErrorCode::InsufficientFunds);
}

#[test]
fn vault_seeds_derive_the_vault() {
    let ix = withdraw_ix(&USER);
    let (_, bump) = find_program_address(&VAULT_SEED, &USER, &PROGRAM_ID).unwrap();
    let (_, seeds) = handle_withdraw(&ix, &WithdrawBumps { vault: bump }, 1, 1).unwrap();
    let pid = anchor_lang::prelude::Pubkey::new_from_array(PROGRAM_ID);
    let derived = anchor_lang::prelude::Pubkey::create_program_address(
        &[&seeds.prefix[..], &seeds.authority[..], &seeds.bump[..]],
        &pid,
    )
    .unwrap();
    assert_eq!(derived.to_bytes(), vault_of(&USER));
}

// ── ledger ────────────────────────────────────────────────────────────────────

#[test]
fn new_ledger_is_empty() {
    let l = Ledger::new(PROGRAM_ID, 5);
    assert_eq!(l.program_id(), PROGRAM_ID);
    assert_eq!(l.lamports_per_byte(), 5);
    assert_eq!(l.balance(&USER), 0);
    assert!(l.vault_state(&USER).is_none());
}

#[test]
fn airdrop_overflow_is_refused() {
    let mut l = ledger();
    assert_eq!(l.airdrop(&USER, u64::MAX), Err(VaultError::ArithmeticOverflow));
    assert_eq!(l.balance(&USER), AIRDROP);
    l.airdrop(&USER, 5).unwrap();
    assert_eq!(l.balance(&USER), AIRDROP + 5);
}

// ── initialize ────────────────────────────────────────────────────────────────

#[test]
fn initialize_charges_rent_and_stores_canonical_bump() {
    let mut l = ledger();
    l.initialize(&init_ix(&USER), &USER).unwrap();
    assert_eq!(l.balance(&USER), AIRDROP - rent());
    assert_eq!(l.balance(&state_of(&USER)), rent());
    let (_, bump) = find_program_address(&STATE_SEED, &USER, &PROGRAM_ID).unwrap();
    let state: VaultState = l.vault_state(&state_of(&USER)).unwrap();
    assert_eq!(state.authority, USER);
    assert_eq!(state.bump, bump);
    assert_eq!(l.balance(&vault_of(&USER)), 0);
}

#[test]
fn initialize_twice_reports_account_in_use() {
    let mut l = ledger();
    l.initialize(&init_ix(&USER), &USER).unwrap();
    assert_eq!(l.initialize(&init_ix(&USER), &USER), Err(VaultError::AccountAlreadyInUse));
    assert_eq!(l.balance(&USER), AIRDROP - rent());
}

#[test]
fn initialize_requires_the_authority_to_sign() {
    let mut l = ledger();
    assert_eq!(l.initialize(&init_ix(&USER), &STRANGER), Err(VaultError::AccountNotSigner));
    assert!(l.vault_state(&state_of(&USER)).is_none());
}

#[test]
fn initialize_requires_the_system_program() {
    let mut l = ledger();
    let ix = Initialize { system_program: [9u8; 32], ..init_ix(&USER) };
    assert_eq!(l.initialize(&ix, &USER), Err(VaultError::InvalidProgramId));
}

#[test]
fn initialize_requires_the_derived_state_address() {
    let mut l = ledger();
    let ix = Initialize { vault_state: state_of(&STRANGER), ..init_ix(&USER) };
    assert_eq!(l.initialize(&ix, &USER), Err(VaultError::ConstraintSeeds));
}

#[test]
fn initialize_requires_the_derived_vault_address_and_changes_nothing_on_failure() {
    let mut l = ledger();
    let ix = Initialize { vault: vault_of(&STRANGER), ..init_ix(&USER) };
    assert_eq!(l.initialize(&ix, &USER), Err(VaultError::ConstraintSeeds));
    assert_eq!(l.balance(&USER), AIRDROP);
    assert_eq!(l.balance(&state_of(&USER)), 0);
    assert!(l.vault_state(&state_of(&USER)).is_none());
}

#[test]
fn initialize_refuses_a_vault_owned_by_the_program() {
    let mut l = ledger();
    l.initialize(&init_ix(&STRANGER), &STRANGER).unwrap();
    let ix = Initialize { vault: state_of(&STRANGER), ..init_ix(&USER) };
    assert_eq!(l.initialize(&ix, &USER), Err(VaultError::AccountNotSystemOwned));
}

#[test]
fn initialize_needs_lamports_for_rent() {
    let poor: Address = [3u8; 32];
    let mut l = ledger();
    assert_eq!(l.initialize(&init_ix(&poor), &poor), Err(VaultError::ResultWithNegativeLamports));
}

#[test]
fn initialize_tops_up_a_prefunded_state_account() {
    let mut l = ledger();
    l.airdrop(&state_of(&USER), 900_000).unwrap();
    l.initialize(&init_ix(&USER), &USER).unwrap();
    assert_eq!(l.balance(&state_of(&USER)), rent());
    assert_eq!(l.balance(&USER), AIRDROP - (rent() - 900_000));
    assert_eq!(l.vault_state(&state_of(&USER)).unwrap().authority, USER);
}

#[test]
fn initialize_keeps_a_richly_prefunded_state_account() {
    let mut l = ledger();
    l.airdrop(&state_of(&USER), rent() + 7).unwrap();
    l.initialize(&init_ix(&USER), &USER).unwrap();
    assert_eq!(l.balance(&state_of(&USER)), rent() + 7);
    assert_eq!(l.balance(&USER), AIRDROP);
}

#[test]
fn initialize_with_given_addresses() {
    let s: Address = [3u8; 32];
    let v: Address = [4u8; 32];
    let mut l = Ledger::new(PROGRAM_ID, 1);
    l.airdrop(&USER, 1_000).unwrap();
    let ix = Initialize { authority: USER, vault_state: s, vault: v, system_program: SYSTEM_PROGRAM };
    assert_eq!(l.initialize_given(&ix, &USER, None, Some((v, 3))), Err(VaultError::ProgramFailedToComplete));
    assert_eq!(l.initialize_given(&ix, &USER, Some((s, 5)), None), Err(VaultError::ProgramFailedToComplete));
    assert_eq!(l.initialize_given(&ix, &USER, Some((s, 5)), Some((s, 3))), Err(VaultError::ConstraintSeeds));
    l.initialize_given(&ix, &USER, Some((s, 5)), Some((v, 3))).unwrap();
    let state = l.vault_state(&s).unwrap();
    assert_eq!(state.authority, USER);
    assert_eq!(state.bump, 5);
    assert_eq!(l.balance(&USER), 831);
    assert_eq!(l.balance(&s), 169);
}

// ── deposit ───────────────────────────────────────────────────────────────────

#[test]
fn deposit_moves_lamports_from_the_authority() {
    let mut l = ledger();
    l.initialize(&init_ix(&USER), &USER).unwrap();
    l.deposit(&deposit_ix(&USER), &USER, 1_000_000).unwrap();
    assert_eq!(l.balance(&vault_of(&USER)), 1_000_000);
    assert_eq!(l.balance(&USER), AIRDROP - rent() - 1_000_000);
    assert_eq!(l.balance(&STRANGER), AIRDROP);
}

#[test]
fn deposit_before_initialize_reports_not_initialized() {
    let mut l = ledger();
    assert_eq!(l.deposit(&deposit_ix(&USER), &USER, 1), Err(VaultError::AccountNotInitialized));
}

#[test]
fn deposit_into_a_funded_but_unclaimed_state_reports_wrong_owner() {
    let mut l = ledger();
    l.airdrop(&state_of(&USER), 900_000).unwrap();
    assert_eq!(l.deposit(&deposit_ix(&USER), &USER, 1), Err(VaultError::AccountOwnedByWrongProgram));
}

#[test]
fn deposit_by_a_stranger_fails_on_the_seeds() {
    let mut l = ledger();
    l.initialize(&init_ix(&USER), &USER).unwrap();
    let ix = Deposit { authority: STRANGER, ..deposit_ix(&USER) };
    assert_eq!(l.deposit(&ix, &STRANGER, 1), Err(VaultError::ConstraintSeeds));
    let ix = deposit_ix(&USER);
    assert_eq!(l.deposit(&ix, &STRANGER, 1), Err(VaultError::AccountNotSigner));
}

#[test]
fn deposit_into_a_wrong_vault_fails_on_the_seeds() {
    let mut l = ledger();
    l.initialize(&init_ix(&USER), &USER).unwrap();
    let ix = Deposit { vault: vault_of(&STRANGER), ..deposit_ix(&USER) };
    assert_eq!(l.deposit(&ix, &USER, 1), Err(VaultError::ConstraintSeeds));
}

#[test]
fn deposit_beyond_the_wallet_fails() {
    let mut l = ledger();
    l.initialize(&init_ix(&USER), &USER).unwrap();
    let before = l.balance(&USER);
    assert_eq!(l.deposit(&deposit_ix(&USER), &USER, before + 1), Err(VaultError::ResultWithNegativeLamports));
    assert_eq!(l.balance(&USER), before);
    assert_eq!(l.balance(&vault_of(&USER)), 0);
}

#[test]
fn deposit_with_given_addresses() {
    let s: Address = [3u8; 32];
    let v: Address = [4u8; 32];
    let mut l = Ledger::new(PROGRAM_ID, 1);
    l.airdrop(&USER, 1_000).unwrap();
    let ix = Initialize { authority: USER, vault_state: s, vault: v, system_program: SYSTEM_PROGRAM };
    l.initialize_given(&ix, &USER, Some((s, 5)), Some((v, 3))).unwrap();
    let d = Deposit { authority: USER, vault_state: s, vault: v, system_program: SYSTEM_PROGRAM };
    assert_eq!(l.deposit_given(&d, &USER, 300, None, Some((v, 3))), Err(VaultError::ConstraintSeeds));
    assert_eq!(l.deposit_given(&d, &USER, 300, Some(s), None), Err(VaultError::ProgramFailedToComplete));
    assert_eq!(l.deposit_given(&d, &USER, 100, Some(s), Some((v, 3))), Err(VaultError::InsufficientFundsForRent));
    l.deposit_given(&d, &USER, 300, Some(s), Some((v, 3))).unwrap();
    assert_eq!(l.balance(&v), 300);
    assert_eq!(l.balance(&USER), 531);
}

// ── withdraw ──────────────────────────────────────────────────────────────────

#[test]
fn withdraw_everything_then_nothing_is_left() {
    let mut l = ledger();
    l.initialize(&init_ix(&USER), &USER).unwrap();
    l.deposit(&deposit_ix(&USER), &USER, 5_000_000).unwrap();
    l.withdraw(&withdraw_ix(&USER), &USER, 5_000_000).unwrap();
    assert_eq!(l.balance(&vault_of(&USER)), 0);
    assert_eq!(
        l.withdraw(&withdraw_ix(&USER), &USER, 1),
        Err(VaultError::Program(ErrorCode::InsufficientFunds))
    );
}

#[test]
fn deposit_then_withdraw_restores_balances() {
    let mut l = ledger();
    l.initialize(&init_ix(&USER), &USER).unwrap();
    let user_before = l.balance(&USER);
    l.deposit(&deposit_ix(&USER), &USER, 1_234_567).unwrap();
    l.withdraw(&withdraw_ix(&USER), &USER, 1_234_567).unwrap();
    assert_eq!(l.balance(&USER), user_before);
    assert_eq!(l.balance(&vault_of(&USER)), 0);
    assert_eq!(l.vault_state(&state_of(&USER)).unwrap().authority, USER);
}

#[test]
fn withdraw_by_a_stranger_is_refused_and_changes_nothing() {
    let mut l = ledger();
    l.initialize(&init_ix(&USER), &USER).unwrap();
    l.deposit(&deposit_ix(&USER), &USER, 1_000_000).unwrap();
    let ix = Withdraw { authority: STRANGER, ..withdraw_ix(&USER) };
    assert_eq!(l.withdraw(&ix, &STRANGER, 1_000_000), Err(VaultError::ConstraintSeeds));
    assert_eq!(l.withdraw(&withdraw_ix(&USER), &STRANGER, 1_000_000), Err(VaultError::AccountNotSigner));
    assert_eq!(l.balance(&vault_of(&USER)), 1_000_000);
    assert_eq!(l.balance(&STRANGER), AIRDROP);
}

#[test]
fn withdraw_with_given_addresses() {
    let s: Address = [3u8; 32];
    let v: Address = [4u8; 32];
    let mut l = Ledger::new(PROGRAM_ID, 1);
    l.airdrop(&USER, 1_000).unwrap();
    let ix = Initialize { authority: USER, vault_state: s, vault: v, system_program: SYSTEM_PROGRAM };
    l.initialize_given(&ix, &USER, Some((s, 5)), Some((v, 3))).unwrap();
    let d = Deposit { authority: USER, vault_state: s, vault: v, system_program: SYSTEM_PROGRAM };
    l.deposit_given(&d, &USER, 300, Some(s), Some((v, 3))).unwrap();
    let w = Withdraw { authority: USER, vault_state: s, vault: v, system_program: SYSTEM_PROGRAM };
    assert_eq!(
        l.withdraw_given(&w, &USER, 500, Some(s), Some((v, 3)), Some(v)),
        Err(VaultError::Program(ErrorCode::InsufficientFunds))
    );
    assert_eq!(l.withdraw_given(&w, &USER, 100, Some(v), Some((v, 3)), Some(v)), Err(VaultError::ConstraintSeeds));
    assert_eq!(l.withdraw_given(&w, &USER, 100, Some(s), Some((v, 3)), None), Err(VaultError::MissingRequiredSignature));
    assert_eq!(l.withdraw_given(&w, &USER, 100, Some(s), Some((v, 3)), Some(s)), Err(VaultError::MissingRequiredSignature));
    assert_eq!(l.withdraw_given(&w, &USER, 250, Some(s), Some((v, 3)), Some(v)), Err(VaultError::InsufficientFundsForRent));
    l.withdraw_given(&w, &USER, 100, Some(s), Some((v, 3)), Some(v)).unwrap();
    assert_eq!(l.balance(&v), 200);
    assert_eq!(l.balance(&USER), 631);
}

// ── rent ──────────────────────────────────────────────────────────────────────

#[test]
fn state_account_rent_is_the_default_rent_of_its_bytes() {
    assert_eq!(VAULT_STATE_SPACE, 41);
    assert_eq!(state_account_rent(LAMPORTS_PER_BYTE), 1_176_240);
    assert_eq!(state_account_rent(LAMPORTS_PER_BYTE), rent());
    assert_eq!(state_account_rent(1), 169);
}

#[test]
fn airdrop_of_dust_is_refused_for_rent() {
    let mut l = ledger();
    let other: Address = [6u8; 32];
    assert_eq!(l.airdrop(&other, SYSTEM_RENT - 1), Err(VaultError::InsufficientFundsForRent));
    assert_eq!(l.balance(&other), 0);
    l.airdrop(&other, SYSTEM_RENT).unwrap();
    assert_eq!(l.balance(&other), SYSTEM_RENT);
    l.airdrop(&other, 1).unwrap();
    assert_eq!(l.balance(&other), SYSTEM_RENT + 1);
}

#[test]
fn deposit_of_dust_into_an_empty_vault_is_refused_for_rent() {
    let mut l = ledger();
    l.initialize(&init_ix(&USER), &USER).unwrap();
    let before = l.balance(&USER);
    assert_eq!(l.deposit(&deposit_ix(&USER), &USER, 100), Err(VaultError::InsufficientFundsForRent));
    assert_eq!(l.balance(&USER), before);
    assert_eq!(l.balance(&vault_of(&USER)), 0);
    l.deposit(&deposit_ix(&USER), &USER, SYSTEM_RENT).unwrap();
    l.deposit(&deposit_ix(&USER), &USER, 100).unwrap();
    assert_eq!(l.balance(&vault_of(&USER)), SYSTEM_RENT + 100);
}

#[test]
fn withdraw_leaving_dust_is_refused_for_rent() {
    let mut l = ledger();
    l.initialize(&init_ix(&USER), &USER).unwrap();
    l.deposit(&deposit_ix(&USER), &USER, 1_000_000).unwrap();
    assert_eq!(l.withdraw(&withdraw_ix(&USER), &USER, 500_000), Err(VaultError::InsufficientFundsForRent));
    assert_eq!(l.balance(&vault_of(&USER)), 1_000_000);
    l.withdraw(&withdraw_ix(&USER), &USER, 1_000_000 - SYSTEM_RENT).unwrap();
    assert_eq!(l.balance(&vault_of(&USER)), SYSTEM_RENT);
}

#[test]
fn initialize_leaving_the_payer_with_dust_is_refused_for_rent() {
    let poor: Address = [3u8; 32];
    let mut l = ledger();
    l.airdrop(&poor, rent() + 100).unwrap();
    assert_eq!(l.initialize(&init_ix(&poor), &poor), Err(VaultError::InsufficientFundsForRent));
    assert_eq!(l.balance(&poor), rent() + 100);
    assert!(l.vault_state(&state_of(&poor)).is_none());
    l.airdrop(&poor, SYSTEM_RENT).unwrap();
    l.initialize(&init_ix(&poor), &poor).unwrap();
    assert_eq!(l.balance(&poor), SYSTEM_RENT + 100);
}

// ── over many transactions ────────────────────────────────────────────────────

#[test]
fn vault_balance_is_deposits_less_withdrawals() {
    let mut l = ledger();
    l.initialize(&init_ix(&USER), &USER).unwrap();
    let mut deposited: u64 = 0;
    let mut withdrawn: u64 = 0;
    for (deposit, amount) in [
        (true, 2_000_000u64),
        (true, 3_000_000),
        (false, 1_000_000),
        (false, 10_000_000),
        (true, 100),
        (false, 3_500_000),
        (false, 500_000),
        (true, 50),
    ] {
        let ok = if deposit {
            l.deposit(&deposit_ix(&USER), &USER, amount).is_ok()
        } else {
            l.withdraw(&withdraw_ix(&USER), &USER, amount).is_ok()
        };
        if ok && deposit {
            deposited += amount;
        }
        if ok && !deposit {
            withdrawn += amount;
        }
        assert_eq!(l.balance(&vault_of(&USER)), deposited - withdrawn);
    }
    assert_eq!(deposited, 5_000_150);
    assert_eq!(withdrawn, 1_500_000);
    assert_eq!(l.balance(&vault_of(&USER)), 3_500_150);
}

#[test]
fn state_account_keeps_its_rent_through_deposits_and_withdrawals() {
    let mut l = ledger();
    l.initialize(&init_ix(&USER), &USER).unwrap();
    assert_eq!(l.balance(&USER), AIRDROP - 1_176_240);
    l.deposit(&deposit_ix(&USER), &USER, 2_000_000).unwrap();
    l.withdraw(&withdraw_ix(&USER), &USER, 2_000_000).unwrap();
    let _ = l.withdraw(&withdraw_ix(&USER), &USER, 1);
    l.initialize(&init_ix(&STRANGER), &STRANGER).unwrap();
    assert_eq!(l.balance(&state_of(&USER)), 1_176_240);
    let state = l.vault_state(&state_of(&USER)).unwrap();
    assert_eq!(state.authority, USER);
    let (_, bump) = find_program_address(&STATE_SEED, &USER, &PROGRAM_ID).unwrap();
    assert_eq!(state.bump, bump);
}

// ── signatures ────────────────────────────────────────────────────────────────

#[test]
fn signers_are_curve_points_and_derived_addresses_are_not() {
    for key in [USER, STRANGER, [3u8; 32]] {
        assert!(anchor_lang::prelude::Pubkey::new_from_array(key).is_on_curve());
    }
    assert!(!anchor_lang::prelude::Pubkey::new_from_array(vault_of(&USER)).is_on_curve());
    assert!(!anchor_lang::prelude::Pubkey::new_from_array(state_of(&USER)).is_on_curve());
}

#[test]
fn a_signer_off_the_curve_is_refused() {
    let mut l = ledger();
    let pda = vault_of(&USER);
    l.airdrop(&pda, AIRDROP).unwrap();
    assert_eq!(l.initialize(&init_ix(&pda), &pda), Err(VaultError::SignatureFailure));
    assert!(l.vault_state(&state_of(&pda)).is_none());
    l.initialize(&init_ix(&USER), &USER).unwrap();
    let ix = Deposit { authority: pda, ..deposit_ix(&USER) };
    assert_eq!(l.deposit(&ix, &pda, SYSTEM_RENT), Err(VaultError::SignatureFailure));
    let ix = Withdraw { authority: pda, ..withdraw_ix(&USER) };
    assert_eq!(l.withdraw(&ix, &pda, SYSTEM_RENT), Err(VaultError::SignatureFailure));
    assert_eq!(l.balance(&pda), AIRDROP);
    assert_eq!(l.balance(&USER), AIRDROP - rent());
}
