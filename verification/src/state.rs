use vstd::prelude::*;

use crate::address::Address;

verus! {

/// The data of a vault's state account.
#[derive(Clone, Copy, Debug)]
pub struct VaultState {
    /// Who can withdraw from the vault.
    pub authority: Address,
    /// The canonical bump of the state account's address.
    pub bump: u8,
}

/// Bytes that a state account holds: the framework's 8-byte account
/// discriminator, then the 32-byte authority and the 1-byte bump.
pub const VAULT_STATE_SPACE: u64 = 8 + 32 + 1;

} // verus!
