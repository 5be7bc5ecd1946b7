use vstd::prelude::*;

use crate::address::Address;
use crate::error::VaultError;
use crate::instructions::checks::{
    address_view, check_vault_accounts_given, derivation_view, derive_check_addresses, stored_bump,
    vault_accounts_check_given,
};
use crate::ledger::{ledger_wf, rent_checked, Accounts, Ledger};
use crate::pda::{address_is_on_curve, derived_address, is_on_curve, program_address, STATE_SEED, VAULT_SEED};
use crate::rent::check_rent_transition;
use crate::system::{
    apply_transfer, lemma_transfer_moves_lamports, record_after_transfer, transfer_error,
    transfer_outcome, Transfer,
};

verus! {

/// The accounts of a deposit, by address.
#[derive(Clone, Copy, Debug)]
pub struct Deposit {
    /// The vault's authority, who signs and pays.
    pub authority: Address,
    /// The vault's state account, derived from `"state"` and the authority.
    pub vault_state: Address,
    /// The account that holds the vault's lamports, derived from `"vault"`
    /// and the authority.
    pub vault: Address,
    /// The system program.
    pub system_program: Address,
}

/// What a deposit of `amount` asks of the system program: move `amount`
/// lamports from the authority into the vault.
pub fn handle_deposit(accounts: &Deposit, amount: u64) -> (t: Transfer)
    ensures
        t == (Transfer { from: accounts.authority, to: accounts.vault, lamports: amount }),
{
    Transfer { from: accounts.authority, to: accounts.vault, lamports: amount }
}

/// What a deposit of `amount` signed by `signer` makes of `accounts`, given
/// the derived addresses that the checks compare against: the accounts must
/// pass `vault_accounts_check_given`, the system program moves `amount`
/// lamports from the authority into the vault, and the runtime's rule on
/// rent states must hold for the three accounts named.
pub open spec fn deposit_outcome_given(
    lamports_per_byte: u64,
    accounts: Accounts,
    signer: Address,
    deposit: Deposit,
    amount: u64,
    state_address: Option<Seq<u8>>,
    vault_derivation: Option<(Seq<u8>, u8)>,
) -> Result<Accounts, VaultError> {
    match vault_accounts_check_given(
        accounts,
        signer,
        deposit.authority,
        deposit.vault_state,
        deposit.vault,
        deposit.system_program,
        state_address,
        vault_derivation,
    ) {
        Err(e) => Err(e),
        Ok(_) => rent_checked(
            lamports_per_byte,
            accounts,
            transfer_outcome(accounts, Transfer { from: deposit.authority, to: deposit.vault, lamports: amount }),
            deposit.authority,
            deposit.vault_state,
            deposit.vault,
        ),
    }
}

/// What a deposit of `amount` signed by `signer` makes of `accounts` under
/// the vault program `program_id`: the runtime first refuses a signer that
/// no key can sign for (an address off the ed25519 curve); then
/// `deposit_outcome_given`, the addresses derived as the program derives
/// them.
pub open spec fn deposit_outcome(
    program_id: Address,
    lamports_per_byte: u64,
    accounts: Accounts,
    signer: Address,
    deposit: Deposit,
    amount: u64,
) -> Result<Accounts, VaultError> {
    if !is_on_curve(signer@) {
        Err(VaultError::SignatureFailure)
    } else {
        deposit_outcome_given(
            lamports_per_byte,
            accounts,
            signer,
            deposit,
            amount,
            program_address(STATE_SEED@, deposit.authority@, stored_bump(accounts, deposit.vault_state), program_id@),
            derived_address(VAULT_SEED@, deposit.authority@, program_id@),
        )
    }
}

impl Ledger {
    /// Runs a deposit of `amount` lamports in a transaction signed by
    /// `signer`, whose signature the runtime has verified, with the derived
    /// addresses that its checks compare against given. On success
    /// the accounts become `deposit_outcome_given`; on failure the error is
    /// the one that it names and no account changes.
    pub fn deposit_given(
        &mut self,
        accounts: &Deposit,
        signer: &Address,
        amount: u64,
        state_address: Option<Address>,
        vault_derivation: Option<(Address, u8)>,
    ) -> (r: Result<(), VaultError>)
        ensures
            final(self).spec_program_id() == old(self).spec_program_id(),
            final(self).spec_lamports_per_byte() == old(self).spec_lamports_per_byte(),
            ledger_wf(final(self).spec_lamports_per_byte(), final(self).accounts()),
            match deposit_outcome_given(
                old(self).spec_lamports_per_byte(),
                old(self).accounts(),
                *signer,
                *accounts,
                amount,
                address_view(state_address),
                derivation_view(vault_derivation),
            ) {
                Ok(after) => r is Ok && final(self).accounts() == after,
                Err(e) => r == Err::<(), VaultError>(e) && final(self).accounts() == old(self).accounts(),
            },
    {
        self.accounts_are_wf();
        match check_vault_accounts_given(
            self,
            signer,
            &accounts.authority,
            &accounts.vault_state,
            &accounts.vault,
            &accounts.system_program,
            state_address,
            vault_derivation,
        ) {
            Err(e) => {
                return Err(e);
            },
            Ok(_) => {},
        }
        let transfer = handle_deposit(accounts, amount);
        match transfer_error(self, &transfer) {
            Some(e) => {
                return Err(e);
            },
            None => {},
        }
        let lamports_per_byte: u64 = self.lamports_per_byte();
        let from_before = self.record(&transfer.from);
        let to_before = self.record(&transfer.to);
        let from_after = record_after_transfer(self, &transfer, &transfer.from);
        let to_after = record_after_transfer(self, &transfer, &transfer.to);
        proof {
            lemma_transfer_moves_lamports(self.accounts(), transfer);
        }
        if !check_rent_transition(lamports_per_byte, &from_before, &from_after)
            || !check_rent_transition(lamports_per_byte, &to_before, &to_after) {
            return Err(VaultError::InsufficientFundsForRent);
        }
        proof {
            let pre = self.accounts();
            if pre.contains_key(transfer.from) {
                assert(!crate::rent::rent_paying(lamports_per_byte, pre[transfer.from]));
            }
            if pre.contains_key(transfer.to) {
                assert(!crate::rent::rent_paying(lamports_per_byte, pre[transfer.to]));
            }
        }
        apply_transfer(self, &transfer);
        self.accounts_are_wf();
        Ok(())
    }

    /// Runs a deposit of `amount` lamports signed by `signer`. On success the
    /// accounts become `deposit_outcome`; on failure the error is the one
    /// that `deposit_outcome` names and no account changes.
    pub fn deposit(&mut self, accounts: &Deposit, signer: &Address, amount: u64) -> (r: Result<(), VaultError>)
        ensures
            final(self).spec_program_id() == old(self).spec_program_id(),
            final(self).spec_lamports_per_byte() == old(self).spec_lamports_per_byte(),
            ledger_wf(final(self).spec_lamports_per_byte(), final(self).accounts()),
            match deposit_outcome(
                old(self).spec_program_id(),
                old(self).spec_lamports_per_byte(),
                old(self).accounts(),
                *signer,
                *accounts,
                amount,
            ) {
                Ok(after) => r is Ok && final(self).accounts() == after,
                Err(e) => r == Err::<(), VaultError>(e) && final(self).accounts() == old(self).accounts(),
            },
    {
        self.accounts_are_wf();
        if !address_is_on_curve(signer) {
            return Err(VaultError::SignatureFailure);
        }
        let (state_address, vault_derivation) = derive_check_addresses(self, &accounts.authority, &accounts.vault_state);
        self.accounts_are_wf();
        self.deposit_given(accounts, signer, amount, state_address, vault_derivation)
    }
}

} // verus!
