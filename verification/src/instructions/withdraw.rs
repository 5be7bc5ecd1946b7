use vstd::prelude::*;

use crate::address::{lemma_address_view_eq, same_address, Address};
use crate::error::{ErrorCode, VaultError};
use crate::instructions::checks::{
    address_view, check_vault_accounts_given, derivation_view, derive_check_addresses, stored_bump,
    vault_accounts_check_given,
};
use crate::ledger::{balance_in, ledger_wf, rent_checked, Accounts, Ledger};
use crate::pda::{
    address_is_on_curve, create_program_address, derived_address, is_on_curve, program_address, STATE_SEED,
    VAULT_SEED,
};
use crate::rent::check_rent_transition;
use crate::system::{
    apply_transfer, lemma_transfer_moves_lamports, record_after_transfer, transfer_error,
    transfer_outcome, Transfer,
};

verus! {

/// The accounts of a withdrawal, by address.
#[derive(Clone, Copy, Debug)]
pub struct Withdraw {
    /// The vault's authority, who signs and receives the lamports.
    pub authority: Address,
    /// The vault's state account, derived from `"state"` and the authority.
    pub vault_state: Address,
    /// The account that holds the vault's lamports, derived from `"vault"`
    /// and the authority; the program signs for it with its seeds.
    pub vault: Address,
    /// The system program.
    pub system_program: Address,
}

/// The canonical bump of the vault's address, found while checking the
/// accounts of a withdrawal.
#[derive(Clone, Copy, Debug)]
pub struct WithdrawBumps {
    /// The bump of the vault's address.
    pub vault: u8,
}

/// The seeds with which the program signs for the vault:
/// `[prefix, authority, [bump]]`.
#[derive(Clone, Copy, Debug)]
pub struct VaultSeeds {
    /// The seed prefix, `"vault"`.
    pub prefix: [u8; 5],
    /// The authority's address.
    pub authority: Address,
    /// The vault's bump, as a one-byte seed.
    pub bump: [u8; 1],
}

/// What a withdrawal of `amount` from a vault holding `vault_lamports` asks
/// of the system program: move `amount` lamports from the vault back to the
/// authority, signed for the vault with the seeds `["vault", authority,
/// [bumps.vault]]`; or fail with `InsufficientFunds` where the vault holds
/// less.
pub fn handle_withdraw(
    accounts: &Withdraw,
    bumps: &WithdrawBumps,
    vault_lamports: u64,
    amount: u64,
) -> (r: Result<(Transfer, VaultSeeds), ErrorCode>)
    ensures
        amount > vault_lamports ==> r == Err::<(Transfer, VaultSeeds), ErrorCode>(ErrorCode::InsufficientFunds),
        amount <= vault_lamports ==> (r matches Ok((t, seeds)) && t == (Transfer {
            from: accounts.vault,
            to: accounts.authority,
            lamports: amount,
        }) && seeds.prefix@ == VAULT_SEED@ && seeds.authority == accounts.authority && seeds.bump@ == seq![
            bumps.vault,
        ]),
{
    if amount > vault_lamports {
        return Err(ErrorCode::InsufficientFunds);
    }
    let transfer = Transfer { from: accounts.vault, to: accounts.authority, lamports: amount };
    let seeds = VaultSeeds { prefix: VAULT_SEED, authority: accounts.authority, bump: [bumps.vault] };
    proof {
        broadcast use vstd::array::group_array_axioms;

        assert(seeds.bump@ =~= seq![bumps.vault]);
    }
    Ok((transfer, seeds))
}

/// What a withdrawal of `amount` signed by `signer` makes of `accounts`,
/// given the derived addresses that the checks compare against and the
/// address that the vault's signer seeds derive (`vault_signer`): the
/// accounts must pass `vault_accounts_check_given`, the vault must hold at
/// least `amount` lamports, the seeds must derive the vault (else the system
/// program finds it unsigned), the system program moves the lamports to the
/// authority, and the runtime's rule on rent states must hold for the three
/// accounts named.
pub open spec fn withdraw_outcome_given(
    lamports_per_byte: u64,
    accounts: Accounts,
    signer: Address,
    withdraw: Withdraw,
    amount: u64,
    state_address: Option<Seq<u8>>,
    vault_derivation: Option<(Seq<u8>, u8)>,
    vault_signer: Option<Seq<u8>>,
) -> Result<Accounts, VaultError> {
    match vault_accounts_check_given(
        accounts,
        signer,
        withdraw.authority,
        withdraw.vault_state,
        withdraw.vault,
        withdraw.system_program,
        state_address,
        vault_derivation,
    ) {
        Err(e) => Err(e),
        Ok(_) => if amount > balance_in(accounts, withdraw.vault) {
            Err(VaultError::Program(ErrorCode::InsufficientFunds))
        } else if vault_signer != Some(withdraw.vault@) {
            Err(VaultError::MissingRequiredSignature)
        } else {
            rent_checked(
                lamports_per_byte,
                accounts,
                transfer_outcome(
                    accounts,
                    Transfer { from: withdraw.vault, to: withdraw.authority, lamports: amount },
                ),
                withdraw.authority,
                withdraw.vault_state,
                withdraw.vault,
            )
        },
    }
}

/// The address that the seeds `["vault", authority, [bump]]` derive, with
/// the bump of the vault's derivation.
pub open spec fn vault_signer_address(authority: Address, program_id: Address) -> Option<Seq<u8>> {
    match derived_address(VAULT_SEED@, authority@, program_id@) {
        Some((_, bump)) => program_address(VAULT_SEED@, authority@, bump, program_id@),
        None => None,
    }
}

/// What a withdrawal of `amount` signed by `signer` makes of `accounts`
/// under the vault program `program_id`: the runtime first refuses a signer
/// that no key can sign for (an address off the ed25519 curve); then
/// `withdraw_outcome_given`, the addresses derived as the program derives
/// them.
pub open spec fn withdraw_outcome(
    program_id: Address,
    lamports_per_byte: u64,
    accounts: Accounts,
    signer: Address,
    withdraw: Withdraw,
    amount: u64,
) -> Result<Accounts, VaultError> {
    if !is_on_curve(signer@) {
        Err(VaultError::SignatureFailure)
    } else {
        withdraw_outcome_given(
            lamports_per_byte,
            accounts,
            signer,
            withdraw,
            amount,
            program_address(STATE_SEED@, withdraw.authority@, stored_bump(accounts, withdraw.vault_state), program_id@),
            derived_address(VAULT_SEED@, withdraw.authority@, program_id@),
            vault_signer_address(withdraw.authority, program_id),
        )
    }
}

impl Ledger {
    /// Runs a withdrawal of `amount` lamports in a transaction signed by
    /// `signer`, whose signature the runtime has verified, with the derived
    /// addresses that its checks compare against, and the address
    /// that the vault's signer seeds derive, given. On success the accounts
    /// become `withdraw_outcome_given`; on failure the error is the one that
    /// it names and no account changes.
    pub fn withdraw_given(
        &mut self,
        accounts: &Withdraw,
        signer: &Address,
        amount: u64,
        state_address: Option<Address>,
        vault_derivation: Option<(Address, u8)>,
        vault_signer: Option<Address>,
    ) -> (r: Result<(), VaultError>)
        ensures
            final(self).spec_program_id() == old(self).spec_program_id(),
            final(self).spec_lamports_per_byte() == old(self).spec_lamports_per_byte(),
            ledger_wf(final(self).spec_lamports_per_byte(), final(self).accounts()),
            match withdraw_outcome_given(
                old(self).spec_lamports_per_byte(),
                old(self).accounts(),
                *signer,
                *accounts,
                amount,
                address_view(state_address),
                derivation_view(vault_derivation),
                address_view(vault_signer),
            ) {
                Ok(after) => r is Ok && final(self).accounts() == after,
                Err(e) => r == Err::<(), VaultError>(e) && final(self).accounts() == old(self).accounts(),
            },
    {
        self.accounts_are_wf();
        let vault_bump: u8 = match check_vault_accounts_given(
            self,
            signer,
            &accounts.authority,
            &accounts.vault_state,
            &accounts.vault,
            &accounts.system_program,
            state_address,
            vault_derivation,
        ) {
            Err(e) => {
                return Err(e);
            },
            Ok((_, bump)) => bump,
        };
        let vault_lamports: u64 = self.balance(&accounts.vault);
        let bumps = WithdrawBumps { vault: vault_bump };
        let transfer = match handle_withdraw(accounts, &bumps, vault_lamports, amount) {
            Ok((t, _)) => t,
            Err(code) => {
                return Err(VaultError::Program(code));
            },
        };
        match vault_signer {
            Some(address) => {
                if !same_address(&address, &accounts.vault) {
                    proof {
                        lemma_address_view_eq(address, accounts.vault);
                    }
                    return Err(VaultError::MissingRequiredSignature);
                }
            },
            None => {
                return Err(VaultError::MissingRequiredSignature);
            },
        }
        match transfer_error(self, &transfer) {
            Some(e) => {
                return Err(e);
            },
            None => {},
        }
        let lamports_per_byte: u64 = self.lamports_per_byte();
        let from_before = self.record(&transfer.from);
        let to_before = self.record(&transfer.to);
        let from_after = record_after_transfer(self, &transfer, &transfer.from);
        let to_after = record_after_transfer(self, &transfer, &transfer.to);
        proof {
            lemma_transfer_moves_lamports(self.accounts(), transfer);
        }
        if !check_rent_transition(lamports_per_byte, &from_before, &from_after)
            || !check_rent_transition(lamports_per_byte, &to_before, &to_after) {
            return Err(VaultError::InsufficientFundsForRent);
        }
        proof {
            let pre = self.accounts();
            if pre.contains_key(transfer.from) {
                assert(!crate::rent::rent_paying(lamports_per_byte, pre[transfer.from]));
            }
            if pre.contains_key(transfer.to) {
                assert(!crate::rent::rent_paying(lamports_per_byte, pre[transfer.to]));
            }
        }
        apply_transfer(self, &transfer);
        self.accounts_are_wf();
        Ok(())
    }

    /// Runs a withdrawal of `amount` lamports signed by `signer`. On success
    /// the accounts become `withdraw_outcome`; on failure the error is the
    /// one that `withdraw_outcome` names and no account changes.
    pub fn withdraw(&mut self, accounts: &Withdraw, signer: &Address, amount: u64) -> (r: Result<(), VaultError>)
        ensures
            final(self).spec_program_id() == old(self).spec_program_id(),
            final(self).spec_lamports_per_byte() == old(self).spec_lamports_per_byte(),
            ledger_wf(final(self).spec_lamports_per_byte(), final(self).accounts()),
            match withdraw_outcome(
                old(self).spec_program_id(),
                old(self).spec_lamports_per_byte(),
                old(self).accounts(),
                *signer,
                *accounts,
                amount,
            ) {
                Ok(after) => r is Ok && final(self).accounts() == after,
                Err(e) => r == Err::<(), VaultError>(e) && final(self).accounts() == old(self).accounts(),
            },
    {
        self.accounts_are_wf();
        if !address_is_on_curve(signer) {
            return Err(VaultError::SignatureFailure);
        }
        let (state_address, vault_derivation) = derive_check_addresses(self, &accounts.authority, &accounts.vault_state);
        let program_id = self.program_id();
        let vault_signer: Option<Address> = match vault_derivation {
            Some((_, bump)) => create_program_address(&VAULT_SEED, &accounts.authority, bump, &program_id),
            None => None,
        };
        self.withdraw_given(accounts, signer, amount, state_address, vault_derivation, vault_signer)
    }
}

} // verus!
