use vstd::prelude::*;

use crate::address::{lemma_address_view_eq, same_address, Address};
use crate::error::VaultError;
use crate::ledger::{
    accounts_wf, balance_in, ledger_wf, lemma_record_in_put, lemma_record_in_wf, put, record_in, rent_checked,
    state_in, AccountRecord, Accounts, Ledger,
};
use crate::instructions::checks::derivation_view;
use crate::pda::{address_is_on_curve, derived_address, find_program_address, is_on_curve, STATE_SEED, VAULT_SEED};
use crate::rent::{
    check_rent_transition, lemma_state_minimum_covers_system_minimum, rent_paying, state_account_rent,
    state_rent_minimum,
};
use crate::state::VaultState;
use crate::system::{
    apply_transfer, is_system_program, lemma_transfer_moves_lamports, record_after_transfer,
    spec_system_program_id, transfer_error, transfer_outcome, Transfer,
};

verus! {

/// The accounts of an initialization, by address.
#[derive(Clone, Copy, Debug)]
pub struct Initialize {
    /// The new vault's authority, who signs and pays for the state account.
    pub authority: Address,
    /// The state account to create, derived from `"state"` and the authority.
    pub vault_state: Address,
    /// The account that will hold the vault's lamports, derived from
    /// `"vault"` and the authority; it holds no data.
    pub vault: Address,
    /// The system program.
    pub system_program: Address,
}

/// The canonical bumps of the two addresses of an initialization.
#[derive(Clone, Copy, Debug)]
pub struct InitializeBumps {
    /// The bump of the state account's address.
    pub vault_state: u8,
    /// The bump of the vault's address.
    pub vault: u8,
}

/// The state that a new vault starts with: the signing authority and the
/// bump of the state account's address.
pub fn handle_initialize(accounts: &Initialize, bumps: &InitializeBumps) -> (state: VaultState)
    ensures
        state == (VaultState { authority: accounts.authority, bump: bumps.vault_state }),
{
    VaultState { authority: accounts.authority, bump: bumps.vault_state }
}

/// The larger of the rent-exempt minimum and one lamport.
pub open spec fn rent_floor(rent_minimum: u64) -> u64 {
    if rent_minimum > 1 {
        rent_minimum
    } else {
        1
    }
}

/// How the framework funds and claims a new state account `target` paid for
/// by `payer`. Where the account holds no lamports, the system program
/// creates it with the rent-exempt minimum taken from the payer. Otherwise
/// the payer may not be the account itself, the system program refuses to
/// claim an account that already holds data, and it moves from the payer
/// what the account lacks of the rent-exempt minimum (at least one lamport).
pub open spec fn fund_state_account(
    rent_minimum: u64,
    accounts: Accounts,
    payer: Address,
    target: Address,
) -> Result<Accounts, VaultError> {
    let current: u64 = balance_in(accounts, target);
    if current == 0 {
        transfer_outcome(accounts, Transfer { from: payer, to: target, lamports: rent_minimum })
    } else if payer == target {
        Err(VaultError::TryingToInitPayerAsProgramAccount)
    } else if state_in(accounts, target) is Some {
        Err(VaultError::AccountAlreadyInUse)
    } else if rent_floor(rent_minimum) > current {
        transfer_outcome(
            accounts,
            Transfer { from: payer, to: target, lamports: (rent_floor(rent_minimum) - current) as u64 },
        )
    } else {
        Ok(accounts)
    }
}

/// The accounts that funding the state account leaves: those after the
/// system program's transfer `funding`, where there is one.
pub open spec fn funded_accounts(accounts: Accounts, funding: Option<Transfer>) -> Accounts {
    match funding {
        Some(t) => transfer_outcome(accounts, t)->Ok_0,
        None => accounts,
    }
}

/// What an initialization signed by `signer` does to `accounts` before the
/// runtime's rule on rent states is applied, given the address derived from
/// `"state"` and the authority with its canonical bump (`state_derivation`)
/// and the one derived from `"vault"` and the authority
/// (`vault_derivation`), with the framework's checks in its order: the
/// authority signed; the vault is a system account; the system program is
/// the system program; the state account lies at the derived state address;
/// the state account is funded with the rent-exempt minimum of its
/// `VAULT_STATE_SPACE` bytes and claimed (`fund_state_account`); the vault
/// lies at the derived vault address. Then the state account holds the
/// authority and the bump of its own address.
pub open spec fn initialize_effect(
    lamports_per_byte: u64,
    accounts: Accounts,
    signer: Address,
    init: Initialize,
    state_derivation: Option<(Seq<u8>, u8)>,
    vault_derivation: Option<(Seq<u8>, u8)>,
) -> Result<Accounts, VaultError> {
    if init.authority != signer {
        Err(VaultError::AccountNotSigner)
    } else if state_in(accounts, init.vault) is Some {
        Err(VaultError::AccountNotSystemOwned)
    } else if init.system_program@ != spec_system_program_id() {
        Err(VaultError::InvalidProgramId)
    } else {
        match state_derivation {
            None => Err(VaultError::ProgramFailedToComplete),
            Some((state_address, state_bump)) => if init.vault_state@ != state_address {
                Err(VaultError::ConstraintSeeds)
            } else {
                match fund_state_account(state_rent_minimum(lamports_per_byte), accounts, init.authority, init.vault_state) {
                    Err(e) => Err(e),
                    Ok(funded) => match vault_derivation {
                        None => Err(VaultError::ProgramFailedToComplete),
                        Some((vault_address, _)) => if init.vault@ != vault_address {
                            Err(VaultError::ConstraintSeeds)
                        } else {
                            Ok(
                                put(
                                    funded,
                                    AccountRecord {
                                        state: Some(VaultState { authority: init.authority, bump: state_bump }),
                                        ..record_in(funded, init.vault_state)
                                    },
                                ),
                            )
                        },
                    },
                }
            },
        }
    }
}

/// What an initialization signed by `signer` makes of `accounts`, given the
/// derived addresses that its checks compare against: `initialize_effect`,
/// then the runtime's rule on rent states for the three accounts named.
pub open spec fn initialize_outcome_given(
    lamports_per_byte: u64,
    accounts: Accounts,
    signer: Address,
    init: Initialize,
    state_derivation: Option<(Seq<u8>, u8)>,
    vault_derivation: Option<(Seq<u8>, u8)>,
) -> Result<Accounts, VaultError> {
    rent_checked(
        lamports_per_byte,
        accounts,
        initialize_effect(lamports_per_byte, accounts, signer, init, state_derivation, vault_derivation),
        init.authority,
        init.vault_state,
        init.vault,
    )
}

/// What an initialization signed by `signer` makes of `accounts` under the
/// vault program `program_id`: the runtime first refuses a signer that no
/// key can sign for (an address off the ed25519 curve); then
/// `initialize_outcome_given`, the addresses derived as the program derives
/// them.
pub open spec fn initialize_outcome(
    program_id: Address,
    lamports_per_byte: u64,
    accounts: Accounts,
    signer: Address,
    init: Initialize,
) -> Result<Accounts, VaultError> {
    if !is_on_curve(signer@) {
        Err(VaultError::SignatureFailure)
    } else {
        initialize_outcome_given(
            lamports_per_byte,
            accounts,
            signer,
            init,
            derived_address(STATE_SEED@, init.authority@, program_id@),
            derived_address(VAULT_SEED@, init.authority@, program_id@),
        )
    }
}

/// What the record of `key` becomes once `funding`, which must succeed, has moved.
fn record_after_funding(ledger: &Ledger, funding: &Option<Transfer>, key: &Address) -> (r: AccountRecord)
    requires
        match *funding {
            Some(t) => transfer_outcome(ledger.accounts(), t) is Ok,
            None => true,
        },
    ensures
        r == record_in(funded_accounts(ledger.accounts(), *funding), *key),
{
    match funding {
        Some(t) => record_after_transfer(ledger, t, key),
        None => ledger.record(key),
    }
}

/// What the record of `key` becomes once `funding` has moved and `target`
/// has been claimed with `state`.
fn record_after_claim(
    ledger: &Ledger,
    funding: &Option<Transfer>,
    target: &Address,
    state: VaultState,
    key: &Address,
) -> (r: AccountRecord)
    requires
        accounts_wf(ledger.accounts()),
        match *funding {
            Some(t) => transfer_outcome(ledger.accounts(), t) is Ok,
            None => true,
        },
    ensures
        ({
            let funded = funded_accounts(ledger.accounts(), *funding);
            r == record_in(put(funded, AccountRecord { state: Some(state), ..record_in(funded, *target) }), *key)
        }),
{
    let funded_target = record_after_funding(ledger, funding, target);
    proof {
        let funded = funded_accounts(ledger.accounts(), *funding);
        match *funding {
            Some(t) => {
                lemma_transfer_moves_lamports(ledger.accounts(), t);
            },
            None => {},
        }
        lemma_record_in_wf(funded, *target);
        lemma_record_in_put(funded, AccountRecord { state: Some(state), ..record_in(funded, *target) }, *key);
    }
    if same_address(key, target) {
        if funded_target.lamports == 0 {
            AccountRecord { key: *key, lamports: 0, state: None }
        } else {
            AccountRecord { state: Some(state), ..funded_target }
        }
    } else {
        record_after_funding(ledger, funding, key)
    }
}

impl Ledger {
    /// Runs an initialization in a transaction signed by `signer`, whose
    /// signature the runtime has verified, with the derived addresses that
    /// its checks compare against given. On success the accounts become
    /// `initialize_outcome_given`; on failure the error is the one that it
    /// names and no account changes.
    pub fn initialize_given(
        &mut self,
        accounts: &Initialize,
        signer: &Address,
        state_derivation: Option<(Address, u8)>,
        vault_derivation: Option<(Address, u8)>,
    ) -> (r: Result<(), VaultError>)
        ensures
            final(self).spec_program_id() == old(self).spec_program_id(),
            final(self).spec_lamports_per_byte() == old(self).spec_lamports_per_byte(),
            ledger_wf(final(self).spec_lamports_per_byte(), final(self).accounts()),
            match initialize_outcome_given(
                old(self).spec_lamports_per_byte(),
                old(self).accounts(),
                *signer,
                *accounts,
                derivation_view(state_derivation),
                derivation_view(vault_derivation),
            ) {
                Ok(after) => r is Ok && final(self).accounts() == after,
                Err(e) => r == Err::<(), VaultError>(e) && final(self).accounts() == old(self).accounts(),
            },
    {
        self.accounts_are_wf();
        if !same_address(&accounts.authority, signer) {
            return Err(VaultError::AccountNotSigner);
        }
        if self.vault_state(&accounts.vault).is_some() {
            return Err(VaultError::AccountNotSystemOwned);
        }
        if !is_system_program(&accounts.system_program) {
            return Err(VaultError::InvalidProgramId);
        }
        let state_bump: u8 = match state_derivation {
            None => {
                return Err(VaultError::ProgramFailedToComplete);
            },
            Some((address, bump)) => {
                if !same_address(&address, &accounts.vault_state) {
                    proof {
                        lemma_address_view_eq(address, accounts.vault_state);
                    }
                    return Err(VaultError::ConstraintSeeds);
                }
                bump
            },
        };
        // Fund and claim the state account.
        let lamports_per_byte: u64 = self.lamports_per_byte();
        let current: u64 = self.balance(&accounts.vault_state);
        let rent_minimum: u64 = state_account_rent(lamports_per_byte);
        let funding: Option<Transfer> = if current == 0 {
            Some(Transfer { from: accounts.authority, to: accounts.vault_state, lamports: rent_minimum })
        } else {
            if same_address(&accounts.authority, &accounts.vault_state) {
                return Err(VaultError::TryingToInitPayerAsProgramAccount);
            }
            if self.vault_state(&accounts.vault_state).is_some() {
                return Err(VaultError::AccountAlreadyInUse);
            }
            let floor: u64 = if rent_minimum > 1 { rent_minimum } else { 1 };
            if floor > current {
                Some(Transfer { from: accounts.authority, to: accounts.vault_state, lamports: floor - current })
            } else {
                None
            }
        };
        match funding {
            Some(t) => match transfer_error(self, &t) {
                Some(e) => {
                    return Err(e);
                },
                None => {},
            },
            None => {},
        }
        assert(fund_state_account(rent_minimum, self.accounts(), accounts.authority, accounts.vault_state)
            == Ok::<Accounts, VaultError>(funded_accounts(self.accounts(), funding)));
        let vault_bump: u8 = match vault_derivation {
            None => {
                return Err(VaultError::ProgramFailedToComplete);
            },
            Some((address, bump)) => {
                if !same_address(&address, &accounts.vault) {
                    proof {
                        lemma_address_view_eq(address, accounts.vault);
                    }
                    return Err(VaultError::ConstraintSeeds);
                }
                bump
            },
        };
        let bumps = InitializeBumps { vault_state: state_bump, vault: vault_bump };
        let state = handle_initialize(accounts, &bumps);
        // The runtime's rule on rent states, for the three accounts named.
        let authority_before = self.record(&accounts.authority);
        let state_before = self.record(&accounts.vault_state);
        let vault_before = self.record(&accounts.vault);
        let authority_after = record_after_claim(self, &funding, &accounts.vault_state, state, &accounts.authority);
        let state_after = record_after_claim(self, &funding, &accounts.vault_state, state, &accounts.vault_state);
        let vault_after = record_after_claim(self, &funding, &accounts.vault_state, state, &accounts.vault);
        if !check_rent_transition(lamports_per_byte, &authority_before, &authority_after)
            || !check_rent_transition(lamports_per_byte, &state_before, &state_after)
            || !check_rent_transition(lamports_per_byte, &vault_before, &vault_after) {
            return Err(VaultError::InsufficientFundsForRent);
        }
        // Commit: move the funding, then write the new state.
        proof {
            let pre = self.accounts();
            let funded = funded_accounts(pre, funding);
            lemma_state_minimum_covers_system_minimum(lamports_per_byte);
            lemma_record_in_wf(pre, accounts.authority);
            lemma_record_in_wf(pre, accounts.vault_state);
            if pre.contains_key(accounts.authority) {
                assert(!rent_paying(lamports_per_byte, pre[accounts.authority]));
            }
            if pre.contains_key(accounts.vault_state) {
                assert(!rent_paying(lamports_per_byte, pre[accounts.vault_state]));
            }
            match funding {
                Some(t) => {
                    lemma_transfer_moves_lamports(pre, t);
                    lemma_record_in_wf(funded, accounts.vault_state);
                    lemma_record_in_put(
                        funded,
                        AccountRecord { state: Some(state), ..record_in(funded, accounts.vault_state) },
                        accounts.authority,
                    );
                },
                None => {},
            }
        }
        match funding {
            Some(t) => {
                apply_transfer(self, &t);
            },
            None => {},
        }
        let record = self.record(&accounts.vault_state);
        self.store(AccountRecord { state: Some(state), ..record });
        self.accounts_are_wf();
        Ok(())
    }

    /// Runs an initialization signed by `signer`. On success the accounts
    /// become `initialize_outcome`; on failure the error is the one that
    /// `initialize_outcome` names and no account changes.
    pub fn initialize(&mut self, accounts: &Initialize, signer: &Address) -> (r: Result<(), VaultError>)
        ensures
            final(self).spec_program_id() == old(self).spec_program_id(),
            final(self).spec_lamports_per_byte() == old(self).spec_lamports_per_byte(),
            ledger_wf(final(self).spec_lamports_per_byte(), final(self).accounts()),
            match initialize_outcome(
                old(self).spec_program_id(),
                old(self).spec_lamports_per_byte(),
                old(self).accounts(),
                *signer,
                *accounts,
            ) {
                Ok(after) => r is Ok && final(self).accounts() == after,
                Err(e) => r == Err::<(), VaultError>(e) && final(self).accounts() == old(self).accounts(),
            },
    {
        self.accounts_are_wf();
        if !address_is_on_curve(signer) {
            return Err(VaultError::SignatureFailure);
        }
        let program_id = self.program_id();
        let state_derivation = find_program_address(&STATE_SEED, &accounts.authority, &program_id);
        let vault_derivation = find_program_address(&VAULT_SEED, &accounts.authority, &program_id);
        self.initialize_given(accounts, signer, state_derivation, vault_derivation)
    }
}

} // verus!
