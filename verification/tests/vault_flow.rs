use vault::error::VaultError;
use vault::instructions::deposit::Deposit;
use vault::instructions::initialize::Initialize;
use vault::instructions::withdraw::Withdraw;
use vault::ledger::Ledger;
use vault::pda::{derive_vault, derive_vault_state};
use vault::Address;

const AIRDROP_AMOUNT: u64 = 10_000_000_000; // 10 SOL
const DEPOSIT_AMOUNT: u64 = 1_000_000_000; // 1 SOL
const SMALL_DEPOSIT: u64 = 500_000_000; // 0.5 SOL
const WITHDRAW_AMOUNT: u64 = 500_000_000; // 0.5 SOL
const EXCESSIVE_WITHDRAW: u64 = 5_000_000_000; // 5 SOL, more than the vault holds

const PROGRAM_ID: Address = [7u8; 32];
const USER: Address = [1u8; 32];
const STRANGER: Address = [9u8; 32];
const SYSTEM_PROGRAM: Address = [0u8; 32];

/// The default rent rate of a cluster, in lamports per byte.
const LAMPORTS_PER_BYTE: u64 = 6_960;

/// A ledger with the vault program, and a user and a stranger who both hold
/// ten SOL.
fn setup() -> (Ledger, Address, Address) {
    let mut ledger = Ledger::new(PROGRAM_ID, LAMPORTS_PER_BYTE);
    ledger.airdrop(&USER, AIRDROP_AMOUNT).unwrap();
    ledger.airdrop(&STRANGER, AIRDROP_AMOUNT).unwrap();
    (ledger, USER, STRANGER)
}

fn state_of(authority: &Address) -> Address {
    derive_vault_state(authority, &PROGRAM_ID).unwrap()
}

fn vault_of(authority: &Address) -> Address {
    derive_vault(authority, &PROGRAM_ID).unwrap()
}

fn initialize_ix(authority: &Address) -> Initialize {
    Initialize {
        authority: *authority,
        vault_state: state_of(authority),
        vault: vault_of(authority),
        system_program: SYSTEM_PROGRAM,
    }
}

fn deposit_ix(authority: &Address) -> Deposit {
    Deposit {
        authority: *authority,
        vault_state: state_of(authority),
        vault: vault_of(authority),
        system_program: SYSTEM_PROGRAM,
    }
}

fn withdraw_ix(authority: &Address) -> Withdraw {
    Withdraw {
        authority: *authority,
        vault_state: state_of(authority),
        vault: vault_of(authority),
        system_program: SYSTEM_PROGRAM,
    }
}

fn get_vault_balance(ledger: &Ledger, authority: &Address) -> u64 {
    ledger.balance(&vault_of(authority))
}

// ── initialize ────────────────────────────────────────────────────────────────

#[test]
fn test_initialize_success() {
    let (mut ledger, user, _stranger) = setup();

    let result = ledger.initialize(&initialize_ix(&user), &user);
    assert!(result.is_ok(), "Initialize should succeed");

    let state = ledger.vault_state(&state_of(&user)).unwrap();
    assert_eq!(state.authority, user, "Authority should be the user");
}

#[test]
fn test_initialize_twice_fails() {
    let (mut ledger, user, _stranger) = setup();

    ledger.initialize(&initialize_ix(&user), &user).unwrap();

    let result = ledger.initialize(&initialize_ix(&user), &user);
    assert!(result.is_err(), "Second initialize should fail — account already exists");
}

// ── deposit ───────────────────────────────────────────────────────────────────

#[test]
fn test_deposit_success() {
    let (mut ledger, user, _stranger) = setup();

    ledger.initialize(&initialize_ix(&user), &user).unwrap();

    let result = ledger.deposit(&deposit_ix(&user), &user, DEPOSIT_AMOUNT);
    assert!(result.is_ok(), "Deposit should succeed");

    let vault_balance = get_vault_balance(&ledger, &user);
    assert_eq!(vault_balance, DEPOSIT_AMOUNT, "Vault should hold the deposited amount");
}

#[test]
fn test_deposit_without_initialize_fails() {
    let (mut ledger, user, _stranger) = setup();

    let result = ledger.deposit(&deposit_ix(&user), &user, DEPOSIT_AMOUNT);
    assert!(result.is_err(), "Deposit should fail — vault not initialized");
}

#[test]
fn test_deposit_wrong_authority_fails() {
    let (mut ledger, user, stranger) = setup();

    ledger.initialize(&initialize_ix(&user), &user).unwrap();

    // The stranger names the user's vault but signs with their own key.
    let ix = Deposit {
        authority: stranger,
        vault_state: state_of(&user),
        vault: vault_of(&user),
        system_program: SYSTEM_PROGRAM,
    };

    let result = ledger.deposit(&ix, &stranger, DEPOSIT_AMOUNT);
    assert!(result.is_err(), "Deposit with wrong authority should fail");
}

// ── withdraw ──────────────────────────────────────────────────────────────────

#[test]
fn test_withdraw_success() {
    let (mut ledger, user, _stranger) = setup();

    ledger.initialize(&initialize_ix(&user), &user).unwrap();
    ledger.deposit(&deposit_ix(&user), &user, DEPOSIT_AMOUNT).unwrap();

    let result = ledger.withdraw(&withdraw_ix(&user), &user, WITHDRAW_AMOUNT);
    assert!(result.is_ok(), "Withdraw should succeed");

    let vault_balance = get_vault_balance(&ledger, &user);
    assert_eq!(
        vault_balance,
        DEPOSIT_AMOUNT - WITHDRAW_AMOUNT,
        "Vault should hold the remaining balance after withdrawal"
    );
}

#[test]
fn test_withdraw_without_initialize_fails() {
    let (mut ledger, user, _stranger) = setup();

    let result = ledger.withdraw(&withdraw_ix(&user), &user, WITHDRAW_AMOUNT);
    assert!(result.is_err(), "Withdraw should fail — vault not initialized");
}

#[test]
fn test_withdraw_excessive_amount_fails() {
    let (mut ledger, user, _stranger) = setup();

    ledger.initialize(&initialize_ix(&user), &user).unwrap();
    ledger.deposit(&deposit_ix(&user), &user, SMALL_DEPOSIT).unwrap();

    // Try to withdraw 5 SOL when only 0.5 SOL is in the vault.
    let result = ledger.withdraw(&withdraw_ix(&user), &user, EXCESSIVE_WITHDRAW);
    assert!(result.is_err(), "Withdraw should fail — amount exceeds vault balance");

    // The error is the program's own InsufficientFunds.
    let err = result.unwrap_err();
    let name = match err {
        VaultError::Program(code) => code.name(),
        other => format!("{:?}", other),
    };
    assert!(
        name.contains("InsufficientFunds"),
        "Expected InsufficientFunds error, got: {}", name
    );

    // The vault balance is untouched.
    let vault_balance = get_vault_balance(&ledger, &user);
    assert_eq!(
        vault_balance,
        SMALL_DEPOSIT,
        "Vault balance should be unchanged after failed withdraw"
    );
}

#[test]
fn test_withdraw_wrong_authority_fails() {
    let (mut ledger, user, stranger) = setup();

    ledger.initialize(&initialize_ix(&user), &user).unwrap();
    ledger.deposit(&deposit_ix(&user), &user, DEPOSIT_AMOUNT).unwrap();

    // The stranger names the user's vault but signs with their own key.
    let ix = Withdraw {
        authority: stranger,
        vault_state: state_of(&user),
        vault: vault_of(&user),
        system_program: SYSTEM_PROGRAM,
    };

    let result = ledger.withdraw(&ix, &stranger, WITHDRAW_AMOUNT);
    assert!(result.is_err(), "Withdraw with wrong authority should fail");

    // The vault is untouched.
    let vault_balance = get_vault_balance(&ledger, &user);
    assert_eq!(
        vault_balance,
        DEPOSIT_AMOUNT,
        "Vault balance should be unchanged after failed withdraw"
    );
}
