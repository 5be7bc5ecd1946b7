use vstd::prelude::*;

use crate::address::{lemma_address_view_eq, same_address, Address};
use crate::error::VaultError;
use crate::ledger::{record_in, state_in, Accounts, Ledger};
use crate::pda::{
    create_program_address, derived_address, find_program_address, program_address, STATE_SEED,
    VAULT_SEED,
};
use crate::state::VaultState;
use crate::system::{is_system_program, spec_system_program_id};

verus! {

/// The bytes of an address that may be missing.
pub open spec fn address_view(a: Option<Address>) -> Option<Seq<u8>> {
    match a {
        Some(a) => Some(a@),
        None => None,
    }
}

/// The bytes of a derived address and its bump, which may be missing.
pub open spec fn derivation_view(d: Option<(Address, u8)>) -> Option<(Seq<u8>, u8)> {
    match d {
        Some((a, b)) => Some((a@, b)),
        None => None,
    }
}

/// The checks that the framework makes, in its order, of the accounts of a
/// deposit or a withdrawal signed by `signer`, given the address derived
/// from `"state"`, the authority and the bump stored in the state account
/// (`state_address`), and the address derived from `"vault"` and the
/// authority with its canonical bump (`vault_derivation`): the authority
/// signed; the state account holds a vault state; the vault is a system
/// account; the system program is the system program; the state account
/// lies at `state_address`; the state records this authority; the vault
/// lies at the derived vault address. `Ok` carries the vault state and the
/// vault's bump.
pub open spec fn vault_accounts_check_given(
    accounts: Accounts,
    signer: Address,
    authority: Address,
    vault_state: Address,
    vault: Address,
    system_program: Address,
    state_address: Option<Seq<u8>>,
    vault_derivation: Option<(Seq<u8>, u8)>,
) -> Result<(VaultState, u8), VaultError> {
    let state_record = record_in(accounts, vault_state);
    if authority != signer {
        Err(VaultError::AccountNotSigner)
    } else if state_record.state is None {
        if state_record.lamports == 0 {
            Err(VaultError::AccountNotInitialized)
        } else {
            Err(VaultError::AccountOwnedByWrongProgram)
        }
    } else if state_in(accounts, vault) is Some {
        Err(VaultError::AccountNotSystemOwned)
    } else if system_program@ != spec_system_program_id() {
        Err(VaultError::InvalidProgramId)
    } else {
        let state = state_record.state->Some_0;
        if state_address != Some(vault_state@) {
            Err(VaultError::ConstraintSeeds)
        } else if state.authority != authority {
            Err(VaultError::ConstraintHasOne)
        } else {
            match vault_derivation {
                None => Err(VaultError::ProgramFailedToComplete),
                Some((vault_address, vault_bump)) => if vault@ != vault_address {
                    Err(VaultError::ConstraintSeeds)
                } else {
                    Ok((state, vault_bump))
                },
            }
        }
    }
}

/// The bump stored in the vault state at `vault_state`, zero where there is none.
pub open spec fn stored_bump(accounts: Accounts, vault_state: Address) -> u8 {
    match state_in(accounts, vault_state) {
        Some(state) => state.bump,
        None => 0,
    }
}

/// The checks of `vault_accounts_check_given`, with the addresses derived
/// under `program_id` by `create_program_address` and `find_program_address`.
pub open spec fn vault_accounts_check(
    program_id: Address,
    accounts: Accounts,
    signer: Address,
    authority: Address,
    vault_state: Address,
    vault: Address,
    system_program: Address,
) -> Result<(VaultState, u8), VaultError> {
    vault_accounts_check_given(
        accounts,
        signer,
        authority,
        vault_state,
        vault,
        system_program,
        program_address(STATE_SEED@, authority@, stored_bump(accounts, vault_state), program_id@),
        derived_address(VAULT_SEED@, authority@, program_id@),
    )
}

/// Makes the checks of `vault_accounts_check_given` on `ledger`, with the
/// derived addresses given.
pub fn check_vault_accounts_given(
    ledger: &Ledger,
    signer: &Address,
    authority: &Address,
    vault_state: &Address,
    vault: &Address,
    system_program: &Address,
    state_address: Option<Address>,
    vault_derivation: Option<(Address, u8)>,
) -> (r: Result<(VaultState, u8), VaultError>)
    ensures
        r == vault_accounts_check_given(
            ledger.accounts(),
            *signer,
            *authority,
            *vault_state,
            *vault,
            *system_program,
            address_view(state_address),
            derivation_view(vault_derivation),
        ),
{
    if !same_address(authority, signer) {
        return Err(VaultError::AccountNotSigner);
    }
    let state_record = ledger.record(vault_state);
    let state = match state_record.state {
        Some(state) => state,
        None => {
            if state_record.lamports == 0 {
                return Err(VaultError::AccountNotInitialized);
            } else {
                return Err(VaultError::AccountOwnedByWrongProgram);
            }
        },
    };
    if ledger.vault_state(vault).is_some() {
        return Err(VaultError::AccountNotSystemOwned);
    }
    if !is_system_program(system_program) {
        return Err(VaultError::InvalidProgramId);
    }
    match state_address {
        Some(address) => {
            if !same_address(&address, vault_state) {
                proof {
                    lemma_address_view_eq(address, *vault_state);
                }
                return Err(VaultError::ConstraintSeeds);
            }
        },
        None => {
            return Err(VaultError::ConstraintSeeds);
        },
    }
    if !same_address(&state.authority, authority) {
        return Err(VaultError::ConstraintHasOne);
    }
    match vault_derivation {
        None => Err(VaultError::ProgramFailedToComplete),
        Some((address, bump)) => {
            if !same_address(&address, vault) {
                proof {
                    lemma_address_view_eq(address, *vault);
                }
                Err(VaultError::ConstraintSeeds)
            } else {
                Ok((state, bump))
            }
        },
    }
}

/// Derives the two addresses that the checks of a deposit or a withdrawal
/// compare against: the state address from `"state"`, the authority and the
/// bump stored in the state account, and the vault address from `"vault"`
/// and the authority, with its canonical bump.
pub fn derive_check_addresses(
    ledger: &Ledger,
    authority: &Address,
    vault_state: &Address,
) -> (r: (Option<Address>, Option<(Address, u8)>))
    ensures
        address_view(r.0) == program_address(
            STATE_SEED@,
            authority@,
            stored_bump(ledger.accounts(), *vault_state),
            ledger.spec_program_id()@,
        ),
        derivation_view(r.1) == derived_address(VAULT_SEED@, authority@, ledger.spec_program_id()@),
{
    let program_id = ledger.program_id();
    let bump: u8 = match ledger.vault_state(vault_state) {
        Some(state) => state.bump,
        None => 0,
    };
    let state_address = create_program_address(&STATE_SEED, authority, bump, &program_id);
    let vault_derivation = find_program_address(&VAULT_SEED, authority, &program_id);
    (state_address, vault_derivation)
}

} // verus!
