//! Properties of the vault program that span its checks, its handlers and
//! the system program's transfers, proved over the outcome functions that
//! the ledger's operations are specified by.
use vstd::prelude::*;

use crate::address::Address;
use crate::error::{ErrorCode, VaultError};
use crate::instructions::checks::vault_accounts_check;
use crate::instructions::deposit::{deposit_outcome, Deposit};
use crate::instructions::initialize::{fund_state_account, initialize_outcome, rent_floor, Initialize};
use crate::instructions::withdraw::{vault_signer_address, withdraw_outcome, Withdraw};
use crate::ledger::{
    accounts_wf, balance_in, ledger_wf, lemma_accounts_ext, lemma_put_wf, lemma_record_in_put,
    lemma_record_in_wf, put, record_in, state_in, AccountRecord, Accounts,
};
use crate::pda::{derived_address, is_on_curve, program_address, STATE_SEED, VAULT_SEED};
use crate::rent::{data_len, lamports_per_byte_ok, minimum_balance, state_rent_minimum};
use crate::state::{VaultState, VAULT_STATE_SPACE};
use crate::system::{lemma_transfer_moves_lamports, spec_system_program_id, transfer_outcome, Transfer};

verus! {

/// A successful deposit is signed by the authority and moves exactly
/// `amount` lamports from the authority into the vault: every other account
/// keeps its record, no account's data changes, and the two balances keep
/// their sum.
pub proof fn law_deposit_moves_amount(
    program_id: Address,
    lamports_per_byte: u64,
    accounts: Accounts,
    signer: Address,
    deposit: Deposit,
    amount: u64,
)
    requires
        accounts_wf(accounts),
        deposit_outcome(program_id, lamports_per_byte, accounts, signer, deposit, amount) is Ok,
    ensures
        ({
            let after = deposit_outcome(program_id, lamports_per_byte, accounts, signer, deposit, amount)->Ok_0;
            &&& deposit.authority == signer
            &&& accounts_wf(after)
            &&& forall|k: Address| k != deposit.authority && k != deposit.vault
                ==> #[trigger] record_in(after, k) == record_in(accounts, k)
            &&& forall|k: Address| #[trigger] state_in(after, k) == state_in(accounts, k)
            &&& balance_in(after, deposit.authority) + balance_in(after, deposit.vault)
                == balance_in(accounts, deposit.authority) + balance_in(accounts, deposit.vault)
            &&& deposit.authority != deposit.vault ==> balance_in(after, deposit.vault)
                == balance_in(accounts, deposit.vault) + amount
            &&& deposit.authority != deposit.vault ==> balance_in(after, deposit.authority)
                == balance_in(accounts, deposit.authority) - amount
        }),
{
    lemma_transfer_moves_lamports(
        accounts,
        Transfer { from: deposit.authority, to: deposit.vault, lamports: amount },
    );
}

/// Withdrawals are restricted to the vault authority: a withdrawal succeeds
/// only where the signer is the authority that the vault's state records,
/// the state account lies at the address derived from `"state"`, that
/// authority and the stored bump, and the lamports leave the account derived
/// from `"vault"` and that authority, for which the program signs with the
/// seeds `["vault", authority, [canonical bump]]`, which derive it.
pub proof fn law_withdraw_only_by_authority(
    program_id: Address,
    lamports_per_byte: u64,
    accounts: Accounts,
    signer: Address,
    withdraw: Withdraw,
    amount: u64,
)
    requires
        withdraw_outcome(program_id, lamports_per_byte, accounts, signer, withdraw, amount) is Ok,
    ensures
        withdraw.authority == signer,
        state_in(accounts, withdraw.vault_state) matches Some(state) && state.authority == signer
            && program_address(STATE_SEED@, signer@, state.bump, program_id@) == Some(withdraw.vault_state@),
        derived_address(VAULT_SEED@, signer@, program_id@) matches Some((vault, bump)) && vault == withdraw.vault@
            && program_address(VAULT_SEED@, signer@, bump, program_id@) == Some(withdraw.vault@),
        vault_signer_address(signer, program_id) == Some(withdraw.vault@),
        amount <= balance_in(accounts, withdraw.vault),
{
}

/// A successful withdrawal moves exactly `amount` lamports from the vault
/// back to the authority: every other account keeps its record, no
/// account's data changes, and the two balances keep their sum.
pub proof fn law_withdraw_moves_amount(
    program_id: Address,
    lamports_per_byte: u64,
    accounts: Accounts,
    signer: Address,
    withdraw: Withdraw,
    amount: u64,
)
    requires
        accounts_wf(accounts),
        withdraw_outcome(program_id, lamports_per_byte, accounts, signer, withdraw, amount) is Ok,
    ensures
        ({
            let after = withdraw_outcome(program_id, lamports_per_byte, accounts, signer, withdraw, amount)->Ok_0;
            &&& accounts_wf(after)
            &&& forall|k: Address| k != withdraw.authority && k != withdraw.vault
                ==> #[trigger] record_in(after, k) == record_in(accounts, k)
            &&& forall|k: Address| #[trigger] state_in(after, k) == state_in(accounts, k)
            &&& balance_in(after, withdraw.authority) + balance_in(after, withdraw.vault)
                == balance_in(accounts, withdraw.authority) + balance_in(accounts, withdraw.vault)
            &&& withdraw.authority != withdraw.vault ==> balance_in(after, withdraw.vault)
                == balance_in(accounts, withdraw.vault) - amount
            &&& withdraw.authority != withdraw.vault ==> balance_in(after, withdraw.authority)
                == balance_in(accounts, withdraw.authority) + amount
        }),
{
    lemma_transfer_moves_lamports(
        accounts,
        Transfer { from: withdraw.vault, to: withdraw.authority, lamports: amount },
    );
}

/// A withdrawal signed by a key, whose accounts pass the checks but that
/// asks for more than the vault holds, fails with the program's
/// `InsufficientFunds`.
pub proof fn law_withdraw_beyond_balance_fails(
    program_id: Address,
    lamports_per_byte: u64,
    accounts: Accounts,
    signer: Address,
    withdraw: Withdraw,
    amount: u64,
)
    requires
        vault_accounts_check(
            program_id,
            accounts,
            signer,
            withdraw.authority,
            withdraw.vault_state,
            withdraw.vault,
            withdraw.system_program,
        ) is Ok,
        amount > balance_in(accounts, withdraw.vault),
        is_on_curve(signer@),
    ensures
        withdraw_outcome(program_id, lamports_per_byte, accounts, signer, withdraw, amount)
            == Err::<Accounts, VaultError>(VaultError::Program(ErrorCode::InsufficientFunds)),
{
}

/// Initialization never overwrites a vault: where the state account already
/// holds a vault state, initialization fails.
pub proof fn law_initialize_never_overwrites(
    program_id: Address,
    lamports_per_byte: u64,
    accounts: Accounts,
    signer: Address,
    init: Initialize,
)
    requires
        accounts_wf(accounts),
        state_in(accounts, init.vault_state) is Some,
    ensures
        initialize_outcome(program_id, lamports_per_byte, accounts, signer, init) is Err,
{
    lemma_record_in_wf(accounts, init.vault_state);
}

/// What funding the state account does: the payer and the state account
/// keep the sum of their balances, every other account keeps its record,
/// and the state account then holds lamports (given a positive rent-exempt
/// minimum) and no vault state yet, nor does any other account gain one.
proof fn lemma_fund_state_account(rent_minimum: u64, accounts: Accounts, payer: Address, target: Address)
    requires
        accounts_wf(accounts),
        fund_state_account(rent_minimum, accounts, payer, target) is Ok,
    ensures
        ({
            let funded = fund_state_account(rent_minimum, accounts, payer, target)->Ok_0;
            &&& accounts_wf(funded)
            &&& forall|k: Address| k != payer && k != target ==> #[trigger] record_in(funded, k) == record_in(accounts, k)
            &&& forall|k: Address| #[trigger] state_in(funded, k) == state_in(accounts, k)
            &&& state_in(funded, target) is None
            &&& payer != target ==> balance_in(funded, payer) + balance_in(funded, target)
                == balance_in(accounts, payer) + balance_in(accounts, target)
            &&& rent_minimum > 0 ==> balance_in(funded, target) > 0
            &&& balance_in(funded, target) == if balance_in(accounts, target) == 0 {
                rent_minimum
            } else if rent_floor(rent_minimum) > balance_in(accounts, target) {
                rent_floor(rent_minimum)
            } else {
                balance_in(accounts, target)
            }
        }),
{
    let current: u64 = balance_in(accounts, target);
    lemma_record_in_wf(accounts, target);
    if current == 0 {
        let t = Transfer { from: payer, to: target, lamports: rent_minimum };
        lemma_transfer_moves_lamports(accounts, t);
    } else if rent_floor(rent_minimum) > current {
        let t = Transfer { from: payer, to: target, lamports: (rent_floor(rent_minimum) - current) as u64 };
        lemma_transfer_moves_lamports(accounts, t);
    }
}

/// A successful initialization is signed by the authority, and the state
/// account, which lies at the address derived from `"state"` and the
/// authority, then records that authority and the canonical bump of its own
/// address and holds the `VAULT_STATE_SPACE` bytes of a vault state; the
/// vault lies at the address derived from `"vault"` and the authority. The
/// state account ends holding its rent-exempt minimum (or what it held, if
/// that was more), and the authority pays exactly what it lacked: the two
/// balances keep their sum and every other account keeps its record.
pub proof fn law_initialize_records_authority(
    program_id: Address,
    lamports_per_byte: u64,
    accounts: Accounts,
    signer: Address,
    init: Initialize,
)
    requires
        accounts_wf(accounts),
        lamports_per_byte > 0,
        lamports_per_byte_ok(lamports_per_byte),
        initialize_outcome(program_id, lamports_per_byte, accounts, signer, init) is Ok,
    ensures
        ({
            let after = initialize_outcome(program_id, lamports_per_byte, accounts, signer, init)->Ok_0;
            let rent = minimum_balance(lamports_per_byte, VAULT_STATE_SPACE);
            let held = balance_in(accounts, init.vault_state);
            &&& init.authority == signer
            &&& init.authority != init.vault_state
            &&& accounts_wf(after)
            &&& derived_address(STATE_SEED@, signer@, program_id@) matches Some((state_address, bump))
                && state_address == init.vault_state@
                && state_in(after, init.vault_state) == Some(VaultState { authority: signer, bump })
            &&& data_len(record_in(after, init.vault_state)) == VAULT_STATE_SPACE
            &&& derived_address(VAULT_SEED@, signer@, program_id@) matches Some((vault, _)) && vault == init.vault@
            &&& balance_in(after, init.vault_state) == if held < rent { rent } else { held as int }
            &&& balance_in(after, init.authority) == balance_in(accounts, init.authority) - (balance_in(
                after,
                init.vault_state,
            ) - held)
            &&& forall|k: Address| k != init.authority && k != init.vault_state
                ==> #[trigger] record_in(after, k) == record_in(accounts, k)
        }),
{
    let rent_minimum = state_rent_minimum(lamports_per_byte);
    assert(rent_minimum == minimum_balance(lamports_per_byte, VAULT_STATE_SPACE));
    assert(minimum_balance(lamports_per_byte, VAULT_STATE_SPACE) > 1) by (nonlinear_arith)
        requires
            lamports_per_byte > 0,
            VAULT_STATE_SPACE == 41,
    ;
    let funded = fund_state_account(rent_minimum, accounts, init.authority, init.vault_state)->Ok_0;
    lemma_fund_state_account(rent_minimum, accounts, init.authority, init.vault_state);
    lemma_record_in_wf(accounts, init.vault_state);
    lemma_record_in_wf(accounts, init.authority);
    let bump: u8 = (derived_address(STATE_SEED@, signer@, program_id@)->Some_0).1;
    let record = AccountRecord {
        state: Some(VaultState { authority: init.authority, bump }),
        ..record_in(funded, init.vault_state)
    };
    lemma_put_wf(funded, record);
    lemma_record_in_wf(funded, init.vault_state);
    lemma_record_in_put(funded, record, init.vault_state);
    assert forall|k: Address| k != init.authority && k != init.vault_state implies #[trigger] record_in(
        put(funded, record),
        k,
    ) == record_in(accounts, k) by {
        lemma_record_in_put(funded, record, k);
    }
    lemma_record_in_put(funded, record, init.authority);
    assert(init.authority != init.vault_state);
}

/// A vault that initialization has just created accepts its authority: the
/// checks that a deposit or a withdrawal makes of the same accounts, signed
/// by the same authority, pass, and yield the recorded state.
pub proof fn law_initialized_vault_accepts_authority(
    program_id: Address,
    lamports_per_byte: u64,
    accounts: Accounts,
    signer: Address,
    init: Initialize,
)
    requires
        accounts_wf(accounts),
        lamports_per_byte > 0,
        lamports_per_byte_ok(lamports_per_byte),
        init.vault != init.vault_state,
        initialize_outcome(program_id, lamports_per_byte, accounts, signer, init) is Ok,
    ensures
        ({
            let after = initialize_outcome(program_id, lamports_per_byte, accounts, signer, init)->Ok_0;
            vault_accounts_check(
                program_id,
                after,
                signer,
                init.authority,
                init.vault_state,
                init.vault,
                init.system_program,
            ) matches Ok((state, _)) && state.authority == signer
        }),
{
    law_initialize_records_authority(program_id, lamports_per_byte, accounts, signer, init);
    lemma_fund_state_account(state_rent_minimum(lamports_per_byte), accounts, init.authority, init.vault_state);
    let funded = fund_state_account(state_rent_minimum(lamports_per_byte), accounts, init.authority, init.vault_state)->Ok_0;
    let bump: u8 = (derived_address(STATE_SEED@, signer@, program_id@)->Some_0).1;
    let record = crate::ledger::AccountRecord {
        state: Some(VaultState { authority: init.authority, bump }),
        ..record_in(funded, init.vault_state)
    };
    lemma_record_in_put(funded, record, init.vault);
    lemma_record_in_put(funded, record, init.vault_state);
}

/// Depositing an amount and then withdrawing the same amount, with the same
/// accounts and the same signer, succeeds and gives back exactly the
/// accounts that were there before the deposit.
pub proof fn law_deposit_then_withdraw_restores(
    program_id: Address,
    lamports_per_byte: u64,
    accounts: Accounts,
    signer: Address,
    deposit: Deposit,
    amount: u64,
)
    requires
        ledger_wf(lamports_per_byte, accounts),
        deposit_outcome(program_id, lamports_per_byte, accounts, signer, deposit, amount) is Ok,
    ensures
        ({
            let after = deposit_outcome(program_id, lamports_per_byte, accounts, signer, deposit, amount)->Ok_0;
            let withdraw = Withdraw {
                authority: deposit.authority,
                vault_state: deposit.vault_state,
                vault: deposit.vault,
                system_program: deposit.system_program,
            };
            withdraw_outcome(program_id, lamports_per_byte, after, signer, withdraw, amount) == Ok::<Accounts, VaultError>(accounts)
        }),
{
    let t1 = Transfer { from: deposit.authority, to: deposit.vault, lamports: amount };
    let t2 = Transfer { from: deposit.vault, to: deposit.authority, lamports: amount };
    let after = transfer_outcome(accounts, t1)->Ok_0;
    lemma_transfer_moves_lamports(accounts, t1);
    // The checks read the same records as before.
    lemma_record_in_wf(accounts, deposit.vault_state);
    assert(deposit.vault_state != deposit.authority);
    assert(deposit.vault_state != deposit.vault);
    assert(record_in(after, deposit.vault_state) == record_in(accounts, deposit.vault_state));
    assert(vault_accounts_check(
        program_id,
        after,
        signer,
        deposit.authority,
        deposit.vault_state,
        deposit.vault,
        deposit.system_program,
    ) == vault_accounts_check(
        program_id,
        accounts,
        signer,
        deposit.authority,
        deposit.vault_state,
        deposit.vault,
        deposit.system_program,
    ));
    if deposit.authority != deposit.vault {
        assert(transfer_outcome(after, t2) is Ok);
        let back = transfer_outcome(after, t2)->Ok_0;
        lemma_transfer_moves_lamports(after, t2);
        assert forall|k: Address| #[trigger] record_in(back, k) == record_in(accounts, k) by {
            lemma_record_in_wf(accounts, k);
            lemma_record_in_wf(back, k);
            if k != deposit.authority && k != deposit.vault {
                assert(record_in(after, k) == record_in(accounts, k));
            } else {
                assert(state_in(back, k) == state_in(accounts, k));
                assert(balance_in(back, k) == balance_in(accounts, k));
            }
        }
        lemma_accounts_ext(back, accounts);
    }
}

/// Deposits, too, go only through the vault authority: a deposit succeeds
/// only where the signer is the authority that the vault's state records,
/// the state account lies at the address derived from `"state"`, that
/// authority and the stored bump, and the lamports go to the account derived
/// from `"vault"` and that authority.
pub proof fn law_deposit_only_by_authority(
    program_id: Address,
    lamports_per_byte: u64,
    accounts: Accounts,
    signer: Address,
    deposit: Deposit,
    amount: u64,
)
    requires
        deposit_outcome(program_id, lamports_per_byte, accounts, signer, deposit, amount) is Ok,
    ensures
        deposit.authority == signer,
        state_in(accounts, deposit.vault_state) matches Some(state) && state.authority == signer
            && program_address(STATE_SEED@, signer@, state.bump, program_id@) == Some(deposit.vault_state@),
        derived_address(VAULT_SEED@, signer@, program_id@) matches Some((vault, _)) && vault == deposit.vault@,
{
}

/// A vault that was never initialized refuses deposits and withdrawals:
/// where the state account holds no vault state, both fail, and where it
/// does not exist at all and the authority signed with its key, they fail
/// with `AccountNotInitialized`.
pub proof fn law_uninitialized_vault_refuses(
    program_id: Address,
    lamports_per_byte: u64,
    accounts: Accounts,
    signer: Address,
    deposit: Deposit,
    withdraw: Withdraw,
    amount: u64,
)
    requires
        state_in(accounts, deposit.vault_state) is None,
        state_in(accounts, withdraw.vault_state) is None,
    ensures
        deposit_outcome(program_id, lamports_per_byte, accounts, signer, deposit, amount) is Err,
        withdraw_outcome(program_id, lamports_per_byte, accounts, signer, withdraw, amount) is Err,
        deposit.authority == signer && is_on_curve(signer@) && balance_in(accounts, deposit.vault_state) == 0
            ==> deposit_outcome(program_id, lamports_per_byte, accounts, signer, deposit, amount)
            == Err::<Accounts, VaultError>(VaultError::AccountNotInitialized),
        withdraw.authority == signer && is_on_curve(signer@) && balance_in(accounts, withdraw.vault_state) == 0
            ==> withdraw_outcome(program_id, lamports_per_byte, accounts, signer, withdraw, amount)
            == Err::<Accounts, VaultError>(VaultError::AccountNotInitialized),
{
}

/// Initializing the same vault twice fails: after a successful
/// initialization, the same initialization fails, whoever signs it.
pub proof fn law_initialize_twice_fails(
    program_id: Address,
    lamports_per_byte: u64,
    accounts: Accounts,
    signer: Address,
    second_signer: Address,
    init: Initialize,
)
    requires
        accounts_wf(accounts),
        lamports_per_byte > 0,
        lamports_per_byte_ok(lamports_per_byte),
        initialize_outcome(program_id, lamports_per_byte, accounts, signer, init) is Ok,
    ensures
        ({
            let after = initialize_outcome(program_id, lamports_per_byte, accounts, signer, init)->Ok_0;
            initialize_outcome(program_id, lamports_per_byte, after, second_signer, init) is Err
        }),
{
    law_initialize_records_authority(program_id, lamports_per_byte, accounts, signer, init);
    let after = initialize_outcome(program_id, lamports_per_byte, accounts, signer, init)->Ok_0;
    law_initialize_never_overwrites(program_id, lamports_per_byte, after, second_signer, init);
}

/// A successful initialization is signed by the authority, keeps the
/// accounts well formed, and changes no account but the authority and the
/// state account.
proof fn lemma_initialize_frame(
    program_id: Address,
    lamports_per_byte: u64,
    accounts: Accounts,
    signer: Address,
    init: Initialize,
)
    requires
        accounts_wf(accounts),
        initialize_outcome(program_id, lamports_per_byte, accounts, signer, init) is Ok,
    ensures
        ({
            let after = initialize_outcome(program_id, lamports_per_byte, accounts, signer, init)->Ok_0;
            &&& init.authority == signer
            &&& accounts_wf(after)
            &&& forall|k: Address| k != init.authority && k != init.vault_state
                ==> #[trigger] record_in(after, k) == record_in(accounts, k)
        }),
{
    let rent_minimum = state_rent_minimum(lamports_per_byte);
    let funded = fund_state_account(rent_minimum, accounts, init.authority, init.vault_state)->Ok_0;
    lemma_fund_state_account(rent_minimum, accounts, init.authority, init.vault_state);
    let bump: u8 = (derived_address(STATE_SEED@, signer@, program_id@)->Some_0).1;
    let record = AccountRecord {
        state: Some(VaultState { authority: init.authority, bump }),
        ..record_in(funded, init.vault_state)
    };
    lemma_put_wf(funded, record);
    assert forall|k: Address| k != init.authority && k != init.vault_state implies #[trigger] record_in(
        put(funded, record),
        k,
    ) == record_in(accounts, k) by {
        lemma_record_in_put(funded, record, k);
    }
}

/// One instruction to the vault program, with the account that signs its
/// transaction.
pub enum Instruction {
    /// Create a vault.
    Initialize { accounts: Initialize, signer: Address },
    /// Move `amount` lamports into a vault.
    Deposit { accounts: Deposit, signer: Address, amount: u64 },
    /// Move `amount` lamports out of a vault.
    Withdraw { accounts: Withdraw, signer: Address, amount: u64 },
}

/// `ix` is an initialization that names `key` as the state account to create.
pub open spec fn creates_state_at(ix: Instruction, key: Address) -> bool {
    ix matches Instruction::Initialize { accounts: init, .. } && init.vault_state == key
}

/// What `ix` makes of `accounts` under the vault program `program_id`.
pub open spec fn instruction_outcome(
    program_id: Address,
    lamports_per_byte: u64,
    accounts: Accounts,
    ix: Instruction,
) -> Result<Accounts, VaultError> {
    match ix {
        Instruction::Initialize { accounts: init, signer } => initialize_outcome(
            program_id,
            lamports_per_byte,
            accounts,
            signer,
            init,
        ),
        Instruction::Deposit { accounts: deposit, signer, amount } => deposit_outcome(
            program_id,
            lamports_per_byte,
            accounts,
            signer,
            deposit,
            amount,
        ),
        Instruction::Withdraw { accounts: withdraw, signer, amount } => withdraw_outcome(
            program_id,
            lamports_per_byte,
            accounts,
            signer,
            withdraw,
            amount,
        ),
    }
}

/// The accounts after the transaction of `ix`: its outcome where it
/// succeeds; a transaction that fails changes nothing.
pub open spec fn apply_instruction(
    program_id: Address,
    lamports_per_byte: u64,
    accounts: Accounts,
    ix: Instruction,
) -> Accounts {
    match instruction_outcome(program_id, lamports_per_byte, accounts, ix) {
        Ok(after) => after,
        Err(_) => accounts,
    }
}

/// The accounts after the transactions of `ixs`, in order, from `accounts`.
pub open spec fn run_instructions(
    program_id: Address,
    lamports_per_byte: u64,
    accounts: Accounts,
    ixs: Seq<Instruction>,
) -> Accounts
    decreases ixs.len(),
{
    if ixs.len() == 0 {
        accounts
    } else {
        apply_instruction(
            program_id,
            lamports_per_byte,
            run_instructions(program_id, lamports_per_byte, accounts, ixs.drop_last()),
            ixs.last(),
        )
    }
}

/// The lamports that the successful deposits among `ixs`, run in order from
/// `accounts`, put into `vault`.
pub open spec fn deposited_into(
    program_id: Address,
    lamports_per_byte: u64,
    accounts: Accounts,
    ixs: Seq<Instruction>,
    vault: Address,
) -> int
    decreases ixs.len(),
{
    if ixs.len() == 0 {
        0
    } else {
        let before = run_instructions(program_id, lamports_per_byte, accounts, ixs.drop_last());
        deposited_into(program_id, lamports_per_byte, accounts, ixs.drop_last(), vault) + match ixs.last() {
            Instruction::Deposit { accounts: deposit, signer, amount } => if deposit.vault == vault
                && deposit_outcome(program_id, lamports_per_byte, before, signer, deposit, amount) is Ok {
                amount as int
            } else {
                0
            },
            _ => 0,
        }
    }
}

/// The lamports that the successful withdrawals among `ixs`, run in order
/// from `accounts`, take out of `vault`.
pub open spec fn withdrawn_from(
    program_id: Address,
    lamports_per_byte: u64,
    accounts: Accounts,
    ixs: Seq<Instruction>,
    vault: Address,
) -> int
    decreases ixs.len(),
{
    if ixs.len() == 0 {
        0
    } else {
        let before = run_instructions(program_id, lamports_per_byte, accounts, ixs.drop_last());
        withdrawn_from(program_id, lamports_per_byte, accounts, ixs.drop_last(), vault) + match ixs.last() {
            Instruction::Withdraw { accounts: withdraw, signer, amount } => if withdraw.vault == vault
                && withdraw_outcome(program_id, lamports_per_byte, before, signer, withdraw, amount) is Ok {
                amount as int
            } else {
                0
            },
            _ => 0,
        }
    }
}

/// One transaction's effect on `vault`, an address off the curve that it
/// does not name as a state account to create: a successful deposit into it adds its amount, a successful withdrawal from
/// it takes its amount, and nothing else changes its balance.
proof fn lemma_instruction_moves_vault(
    program_id: Address,
    lamports_per_byte: u64,
    accounts: Accounts,
    ix: Instruction,
    vault: Address,
)
    requires
        accounts_wf(accounts),
        !is_on_curve(vault@),
        !creates_state_at(ix, vault),
    ensures
        ({
            let after = apply_instruction(program_id, lamports_per_byte, accounts, ix);
            &&& accounts_wf(after)
            &&& balance_in(after, vault) == balance_in(accounts, vault) + match ix {
                Instruction::Deposit { accounts: deposit, signer, amount } => if deposit.vault == vault
                    && deposit_outcome(program_id, lamports_per_byte, accounts, signer, deposit, amount) is Ok {
                    amount as int
                } else {
                    0
                },
                _ => 0,
            } - match ix {
                Instruction::Withdraw { accounts: withdraw, signer, amount } => if withdraw.vault == vault
                    && withdraw_outcome(program_id, lamports_per_byte, accounts, signer, withdraw, amount) is Ok {
                    amount as int
                } else {
                    0
                },
                _ => 0,
            }
        }),
{
    match ix {
        Instruction::Initialize { accounts: init, signer } => {
            if initialize_outcome(program_id, lamports_per_byte, accounts, signer, init) is Ok {
                lemma_initialize_frame(program_id, lamports_per_byte, accounts, signer, init);
            }
        },
        Instruction::Deposit { accounts: deposit, signer, amount } => {
            if deposit_outcome(program_id, lamports_per_byte, accounts, signer, deposit, amount) is Ok {
                law_deposit_moves_amount(program_id, lamports_per_byte, accounts, signer, deposit, amount);
            }
        },
        Instruction::Withdraw { accounts: withdraw, signer, amount } => {
            if withdraw_outcome(program_id, lamports_per_byte, accounts, signer, withdraw, amount) is Ok {
                law_withdraw_only_by_authority(program_id, lamports_per_byte, accounts, signer, withdraw, amount);
                law_withdraw_moves_amount(program_id, lamports_per_byte, accounts, signer, withdraw, amount);
            }
        },
    }
}

/// A vault holds what it held, plus what the successful deposits into it
/// put in, less what the successful withdrawals from it took out, after any
/// sequence of transactions that creates no state account at its address.
/// The vault lies off the curve, as every program-derived address does, so
/// no transaction that succeeds is signed by it; a transaction that fails
/// changes neither the sums nor the balance.
pub proof fn law_vault_balance_tracks_transfers(
    program_id: Address,
    lamports_per_byte: u64,
    accounts: Accounts,
    ixs: Seq<Instruction>,
    vault: Address,
)
    requires
        accounts_wf(accounts),
        !is_on_curve(vault@),
        forall|i: int| 0 <= i < ixs.len() ==> !creates_state_at(#[trigger] ixs[i], vault),
    ensures
        accounts_wf(run_instructions(program_id, lamports_per_byte, accounts, ixs)),
        balance_in(run_instructions(program_id, lamports_per_byte, accounts, ixs), vault) == balance_in(
            accounts,
            vault,
        ) + deposited_into(program_id, lamports_per_byte, accounts, ixs, vault) - withdrawn_from(
            program_id,
            lamports_per_byte,
            accounts,
            ixs,
            vault,
        ),
    decreases ixs.len(),
{
    if ixs.len() > 0 {
        let prefix = ixs.drop_last();
        assert forall|i: int| 0 <= i < prefix.len() implies !creates_state_at(#[trigger] prefix[i], vault) by {
            assert(prefix[i] == ixs[i]);
        }
        law_vault_balance_tracks_transfers(program_id, lamports_per_byte, accounts, prefix, vault);
        let before = run_instructions(program_id, lamports_per_byte, accounts, prefix);
        assert(!creates_state_at(ixs[ixs.len() - 1], vault));
        lemma_instruction_moves_vault(program_id, lamports_per_byte, before, ixs.last(), vault);
    }
}

/// A state account that holds a vault state, at an address off the curve
/// (as every program-derived address is, so that it signs no transaction),
/// keeps its record, lamports and state alike, through any sequence of
/// transactions: deposits and withdrawals move lamports only between an authority and a
/// system-owned vault, and initialization never overwrites a vault.
pub proof fn law_state_account_persists(
    program_id: Address,
    lamports_per_byte: u64,
    accounts: Accounts,
    ixs: Seq<Instruction>,
    state_account: Address,
)
    requires
        accounts_wf(accounts),
        state_in(accounts, state_account) is Some,
        !is_on_curve(state_account@),
    ensures
        accounts_wf(run_instructions(program_id, lamports_per_byte, accounts, ixs)),
        record_in(run_instructions(program_id, lamports_per_byte, accounts, ixs), state_account) == record_in(
            accounts,
            state_account,
        ),
    decreases ixs.len(),
{
    if ixs.len() > 0 {
        let prefix = ixs.drop_last();
        law_state_account_persists(program_id, lamports_per_byte, accounts, prefix, state_account);
        let before = run_instructions(program_id, lamports_per_byte, accounts, prefix);
        match ixs.last() {
            Instruction::Initialize { accounts: init, signer } => {
                if initialize_outcome(program_id, lamports_per_byte, before, signer, init) is Ok {
                    lemma_initialize_frame(program_id, lamports_per_byte, before, signer, init);
                    if init.vault_state == state_account {
                        law_initialize_never_overwrites(program_id, lamports_per_byte, before, signer, init);
                    }
                }
            },
            Instruction::Deposit { accounts: deposit, signer, amount } => {
                if deposit_outcome(program_id, lamports_per_byte, before, signer, deposit, amount) is Ok {
                    law_deposit_moves_amount(program_id, lamports_per_byte, before, signer, deposit, amount);
                }
            },
            Instruction::Withdraw { accounts: withdraw, signer, amount } => {
                if withdraw_outcome(program_id, lamports_per_byte, before, signer, withdraw, amount) is Ok {
                    law_withdraw_only_by_authority(program_id, lamports_per_byte, before, signer, withdraw, amount);
                    law_withdraw_moves_amount(program_id, lamports_per_byte, before, signer, withdraw, amount);
                }
            },
        }
    }
}

/// Initializing a vault whose state account held no lamports leaves that
/// account holding exactly the rent-exempt minimum of its
/// `VAULT_STATE_SPACE` bytes, paid by the authority, with a vault state that
/// records the authority and the account's canonical bump; and it keeps all
/// of that through any later sequence of transactions (it lies off the
/// curve, as every program-derived address does, so it signs none).
pub proof fn law_initialized_state_account_keeps_rent(
    program_id: Address,
    lamports_per_byte: u64,
    accounts: Accounts,
    signer: Address,
    init: Initialize,
    ixs: Seq<Instruction>,
)
    requires
        accounts_wf(accounts),
        lamports_per_byte > 0,
        lamports_per_byte_ok(lamports_per_byte),
        balance_in(accounts, init.vault_state) == 0,
        initialize_outcome(program_id, lamports_per_byte, accounts, signer, init) is Ok,
        !is_on_curve(init.vault_state@),
    ensures
        ({
            let created = initialize_outcome(program_id, lamports_per_byte, accounts, signer, init)->Ok_0;
            let later = run_instructions(program_id, lamports_per_byte, created, ixs);
            let rent = minimum_balance(lamports_per_byte, VAULT_STATE_SPACE);
            &&& balance_in(created, signer) == balance_in(accounts, signer) - rent
            &&& balance_in(later, init.vault_state) == rent
            &&& data_len(record_in(later, init.vault_state)) == VAULT_STATE_SPACE
            &&& derived_address(STATE_SEED@, signer@, program_id@) matches Some((_, bump))
                && state_in(later, init.vault_state) == Some(VaultState { authority: signer, bump })
        }),
{
    law_initialize_records_authority(program_id, lamports_per_byte, accounts, signer, init);
    let created = initialize_outcome(program_id, lamports_per_byte, accounts, signer, init)->Ok_0;
    law_state_account_persists(program_id, lamports_per_byte, created, ixs, init.vault_state);
}

/// A balance that a transaction may leave an account without data: none at
/// all, or at least the rent-exempt minimum of an account without data.
pub open spec fn settled_balance(lamports_per_byte: u64, lamports: int) -> bool {
    lamports == 0 || lamports >= minimum_balance(lamports_per_byte, 0)
}

/// The system program's transfer moves any amount, large or small: from an
/// account without data that holds at least the amount, to another account
/// whose balance stays within `u64`, it succeeds, debiting and crediting
/// exactly the amount.
pub proof fn law_transfer_moves_any_amount(accounts: Accounts, t: Transfer)
    requires
        accounts_wf(accounts),
        state_in(accounts, t.from) is None,
        t.lamports <= balance_in(accounts, t.from),
        t.from != t.to,
        balance_in(accounts, t.to) + t.lamports <= u64::MAX,
    ensures
        transfer_outcome(accounts, t) matches Ok(after) && balance_in(after, t.from) == balance_in(accounts, t.from)
            - t.lamports && balance_in(after, t.to) == balance_in(accounts, t.to) + t.lamports,
{
    lemma_transfer_moves_lamports(accounts, t);
}

/// Every deposit that the program should accept succeeds, whatever its
/// amount: signed with the authority's key, naming a state account at the
/// address derived from `"state"`, the authority and its stored bump that
/// records this authority, a system-owned vault at the address derived from
/// `"vault"` and the authority (with whichever canonical bump), and the
/// system program, for an amount that the authority's wallet holds and that
/// leaves both the wallet and the vault empty or rent-exempt. The vault then
/// holds the amount more and the wallet the amount less.
pub proof fn law_deposit_succeeds(
    program_id: Address,
    lamports_per_byte: u64,
    accounts: Accounts,
    signer: Address,
    deposit: Deposit,
    amount: u64,
)
    requires
        accounts_wf(accounts),
        is_on_curve(signer@),
        deposit.authority == signer,
        state_in(accounts, deposit.vault_state) matches Some(state) && state.authority == signer
            && program_address(STATE_SEED@, signer@, state.bump, program_id@) == Some(deposit.vault_state@),
        derived_address(VAULT_SEED@, signer@, program_id@) matches Some((vault, _)) && vault == deposit.vault@,
        state_in(accounts, deposit.vault) is None,
        deposit.system_program@ == spec_system_program_id(),
        state_in(accounts, signer) is None,
        signer != deposit.vault,
        amount <= balance_in(accounts, signer),
        balance_in(accounts, deposit.vault) + amount <= u64::MAX,
        settled_balance(lamports_per_byte, balance_in(accounts, signer) - amount),
        settled_balance(lamports_per_byte, balance_in(accounts, deposit.vault) + amount),
    ensures
        deposit_outcome(program_id, lamports_per_byte, accounts, signer, deposit, amount) matches Ok(after)
            && balance_in(after, deposit.vault) == balance_in(accounts, deposit.vault) + amount
            && balance_in(after, signer) == balance_in(accounts, signer) - amount,
{
    let t = Transfer { from: deposit.authority, to: deposit.vault, lamports: amount };
    lemma_transfer_moves_lamports(accounts, t);
    lemma_record_in_wf(accounts, deposit.vault_state);
}

/// Every withdrawal that the program should accept succeeds, whatever its
/// amount and however the vault's balance was built up: signed with the
/// authority's key, with accounts as a deposit needs them, for an amount no
/// larger than the vault holds, that leaves the vault empty or rent-exempt
/// and the authority's wallet rent-exempt within `u64`. The vault then holds
/// the amount less and the wallet the amount more.
pub proof fn law_withdraw_succeeds(
    program_id: Address,
    lamports_per_byte: u64,
    accounts: Accounts,
    signer: Address,
    withdraw: Withdraw,
    amount: u64,
)
    requires
        accounts_wf(accounts),
        is_on_curve(signer@),
        withdraw.authority == signer,
        state_in(accounts, withdraw.vault_state) matches Some(state) && state.authority == signer
            && program_address(STATE_SEED@, signer@, state.bump, program_id@) == Some(withdraw.vault_state@),
        derived_address(VAULT_SEED@, signer@, program_id@) matches Some((vault, _)) && vault == withdraw.vault@,
        state_in(accounts, withdraw.vault) is None,
        withdraw.system_program@ == spec_system_program_id(),
        state_in(accounts, signer) is None,
        signer != withdraw.vault,
        amount <= balance_in(accounts, withdraw.vault),
        balance_in(accounts, signer) + amount <= u64::MAX,
        settled_balance(lamports_per_byte, balance_in(accounts, withdraw.vault) - amount),
        settled_balance(lamports_per_byte, balance_in(accounts, signer) + amount),
    ensures
        withdraw_outcome(program_id, lamports_per_byte, accounts, signer, withdraw, amount) matches Ok(after)
            && balance_in(after, withdraw.vault) == balance_in(accounts, withdraw.vault) - amount
            && balance_in(after, signer) == balance_in(accounts, signer) + amount,
{
    let t = Transfer { from: withdraw.vault, to: withdraw.authority, lamports: amount };
    lemma_transfer_moves_lamports(accounts, t);
    lemma_record_in_wf(accounts, withdraw.vault_state);
}

/// Every initialization that the program should accept succeeds: signed
/// with the authority's key, naming the addresses derived from `"state"` and
/// from `"vault"` and the authority (with whichever canonical bumps) and the
/// system program, where the state account holds nothing yet, the vault is
/// system-owned, and the authority's wallet holds the state account's
/// rent-exempt minimum and is left empty or rent-exempt. The state account
/// then holds exactly that minimum, paid by the authority, and (at a
/// positive rent rate) a vault state recording the authority and the state
/// address's canonical bump.
pub proof fn law_initialize_succeeds(
    program_id: Address,
    lamports_per_byte: u64,
    accounts: Accounts,
    signer: Address,
    init: Initialize,
)
    requires
        accounts_wf(accounts),
        lamports_per_byte_ok(lamports_per_byte),
        is_on_curve(signer@),
        init.authority == signer,
        derived_address(STATE_SEED@, signer@, program_id@) matches Some((state, _)) && state == init.vault_state@,
        derived_address(VAULT_SEED@, signer@, program_id@) matches Some((vault, _)) && vault == init.vault@,
        init.system_program@ == spec_system_program_id(),
        balance_in(accounts, init.vault_state) == 0,
        state_in(accounts, init.vault) is None,
        state_in(accounts, signer) is None,
        minimum_balance(lamports_per_byte, VAULT_STATE_SPACE) <= balance_in(accounts, signer),
        settled_balance(
            lamports_per_byte,
            balance_in(accounts, signer) - minimum_balance(lamports_per_byte, VAULT_STATE_SPACE),
        ),
    ensures
        initialize_outcome(program_id, lamports_per_byte, accounts, signer, init) matches Ok(after)
            && balance_in(after, init.vault_state) == minimum_balance(lamports_per_byte, VAULT_STATE_SPACE)
            && balance_in(after, signer) == balance_in(accounts, signer) - minimum_balance(
            lamports_per_byte,
            VAULT_STATE_SPACE,
        ),
        lamports_per_byte > 0 ==> (initialize_outcome(program_id, lamports_per_byte, accounts, signer, init) matches Ok(
            after,
        ) && (derived_address(STATE_SEED@, signer@, program_id@) matches Some((_, bump)) && state_in(
            after,
            init.vault_state,
        ) == Some(VaultState { authority: signer, bump }))),
{
    let rent_minimum = state_rent_minimum(lamports_per_byte);
    assert(rent_minimum == minimum_balance(lamports_per_byte, VAULT_STATE_SPACE));
    lemma_record_in_wf(accounts, init.vault_state);
    lemma_record_in_wf(accounts, signer);
    let t = Transfer { from: signer, to: init.vault_state, lamports: rent_minimum };
    lemma_transfer_moves_lamports(accounts, t);
    let funded = transfer_outcome(accounts, t)->Ok_0;
    let bump: u8 = (derived_address(STATE_SEED@, signer@, program_id@)->Some_0).1;
    let record = AccountRecord {
        state: Some(VaultState { authority: signer, bump }),
        ..record_in(funded, init.vault_state)
    };
    lemma_record_in_wf(funded, init.vault_state);
    lemma_record_in_put(funded, record, init.vault_state);
    lemma_record_in_put(funded, record, signer);
    lemma_record_in_put(funded, record, init.vault);
    if lamports_per_byte > 0 {
        assert(minimum_balance(lamports_per_byte, VAULT_STATE_SPACE) > 0) by (nonlinear_arith)
            requires
                lamports_per_byte > 0,
                VAULT_STATE_SPACE == 41,
        ;
    }
    crate::rent::lemma_state_minimum_covers_system_minimum(lamports_per_byte);
}

/// An initialization that finds the state account already holding lamports
/// (sent there by anyone, but not yet claimed) succeeds too, where otherwise
/// it would: the authority tops the account up to its rent-exempt minimum
/// (nothing, where it holds that much already), and the account keeps its
/// lamports and then records the authority and its canonical bump.
pub proof fn law_initialize_succeeds_on_a_prefunded_state_account(
    program_id: Address,
    lamports_per_byte: u64,
    accounts: Accounts,
    signer: Address,
    init: Initialize,
)
    requires
        accounts_wf(accounts),
        lamports_per_byte_ok(lamports_per_byte),
        is_on_curve(signer@),
        init.authority == signer,
        derived_address(STATE_SEED@, signer@, program_id@) matches Some((state, _)) && state == init.vault_state@,
        derived_address(VAULT_SEED@, signer@, program_id@) matches Some((vault, _)) && vault == init.vault@,
        init.system_program@ == spec_system_program_id(),
        balance_in(accounts, init.vault_state) > 0,
        state_in(accounts, init.vault_state) is None,
        signer != init.vault_state,
        state_in(accounts, init.vault) is None,
        state_in(accounts, signer) is None,
        ({
            let rent = minimum_balance(lamports_per_byte, VAULT_STATE_SPACE);
            let held = balance_in(accounts, init.vault_state);
            let top_up = if held < rent { rent - held } else { 0 };
            &&& top_up <= balance_in(accounts, signer)
            &&& settled_balance(lamports_per_byte, balance_in(accounts, signer) - top_up)
        }),
    ensures
        ({
            let rent = minimum_balance(lamports_per_byte, VAULT_STATE_SPACE);
            let held = balance_in(accounts, init.vault_state);
            let top_up = if held < rent { rent - held } else { 0 };
            initialize_outcome(program_id, lamports_per_byte, accounts, signer, init) matches Ok(after)
                && balance_in(after, init.vault_state) == held + top_up
                && balance_in(after, signer) == balance_in(accounts, signer) - top_up
                && (derived_address(STATE_SEED@, signer@, program_id@) matches Some((_, bump)) && state_in(
                after,
                init.vault_state,
            ) == Some(VaultState { authority: signer, bump }))
        }),
{
    let rent_minimum = state_rent_minimum(lamports_per_byte);
    assert(rent_minimum == minimum_balance(lamports_per_byte, VAULT_STATE_SPACE));
    lemma_record_in_wf(accounts, init.vault_state);
    lemma_record_in_wf(accounts, signer);
    crate::rent::lemma_state_minimum_covers_system_minimum(lamports_per_byte);
    let held = balance_in(accounts, init.vault_state);
    let bump: u8 = (derived_address(STATE_SEED@, signer@, program_id@)->Some_0).1;
    if rent_floor(rent_minimum) > held {
        let t = Transfer { from: signer, to: init.vault_state, lamports: (rent_floor(rent_minimum) - held) as u64 };
        lemma_transfer_moves_lamports(accounts, t);
        let funded = transfer_outcome(accounts, t)->Ok_0;
        let record = AccountRecord {
            state: Some(VaultState { authority: signer, bump }),
            ..record_in(funded, init.vault_state)
        };
        lemma_record_in_wf(funded, init.vault_state);
        lemma_record_in_put(funded, record, init.vault_state);
        lemma_record_in_put(funded, record, signer);
        lemma_record_in_put(funded, record, init.vault);
    } else {
        let record = AccountRecord {
            state: Some(VaultState { authority: signer, bump }),
            ..record_in(accounts, init.vault_state)
        };
        lemma_record_in_put(accounts, record, init.vault_state);
        lemma_record_in_put(accounts, record, signer);
        lemma_record_in_put(accounts, record, init.vault);
    }
}

} // verus!
