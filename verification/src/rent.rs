use vstd::prelude::*;

use crate::ledger::AccountRecord;
use crate::state::VAULT_STATE_SPACE;

verus! {

/// The bytes that the runtime counts for every account on top of its data.
pub const ACCOUNT_STORAGE_OVERHEAD: u64 = 128;

/// The rent-exempt minimum balance of an account holding `data_len` bytes,
/// on a cluster charging `lamports_per_byte` for each byte.
pub open spec fn minimum_balance(lamports_per_byte: u64, data_len: u64) -> int {
    (ACCOUNT_STORAGE_OVERHEAD + data_len) * lamports_per_byte
}

/// The rate is small enough that every minimum balance of this program is
/// computed exactly (it fits the 53 bits of a double's mantissa).
pub open spec fn lamports_per_byte_ok(lamports_per_byte: u64) -> bool {
    minimum_balance(lamports_per_byte, VAULT_STATE_SPACE) <= 0x20_0000_0000_0000
}

/// Calls `Rent::with_lamports_per_byte(lamports_per_byte).minimum_balance(data_len)`.
/// Trusted, as its source shows: with an exemption threshold of 1.0 it
/// returns `(128 + data_len) * lamports_per_byte`, computed in `u64` and
/// passed through `f64`, which is exact below 2^53.
#[verifier::external_body]
fn rent_minimum_balance(lamports_per_byte: u64, data_len: u64) -> (r: u64)
    requires
        ACCOUNT_STORAGE_OVERHEAD + data_len <= u64::MAX,
        minimum_balance(lamports_per_byte, data_len) <= 0x20_0000_0000_0000,
    ensures
        r == minimum_balance(lamports_per_byte, data_len),
{
    anchor_lang::prelude::Rent::with_lamports_per_byte(lamports_per_byte).minimum_balance(data_len as usize)
}

/// The rent-exempt minimum balance of a vault's state account.
pub open spec fn state_rent_minimum(lamports_per_byte: u64) -> u64 {
    minimum_balance(lamports_per_byte, VAULT_STATE_SPACE) as u64
}

/// An account with data needs at least the minimum balance of one without.
pub proof fn lemma_state_minimum_covers_system_minimum(lamports_per_byte: u64)
    ensures
        minimum_balance(lamports_per_byte, 0) <= minimum_balance(lamports_per_byte, VAULT_STATE_SPACE),
{
    assert(minimum_balance(lamports_per_byte, 0) <= minimum_balance(lamports_per_byte, VAULT_STATE_SPACE)) by (nonlinear_arith)
        requires
            VAULT_STATE_SPACE == 41,
    ;
}

/// The rent-exempt minimum balance of a vault's state account, on a cluster
/// charging `lamports_per_byte` for each byte.
pub fn state_account_rent(lamports_per_byte: u64) -> (r: u64)
    requires
        lamports_per_byte_ok(lamports_per_byte),
    ensures
        r == minimum_balance(lamports_per_byte, VAULT_STATE_SPACE),
        r == state_rent_minimum(lamports_per_byte),
{
    rent_minimum_balance(lamports_per_byte, VAULT_STATE_SPACE)
}

/// The bytes of data that an account of the ledger holds: a vault state
/// account holds `VAULT_STATE_SPACE`, a system account none.
pub open spec fn data_len(record: AccountRecord) -> u64 {
    if record.state is Some {
        VAULT_STATE_SPACE
    } else {
        0
    }
}

/// The account holds lamports, but fewer than its rent-exempt minimum.
pub open spec fn rent_paying(lamports_per_byte: u64, record: AccountRecord) -> bool {
    0 < record.lamports < minimum_balance(lamports_per_byte, data_len(record))
}

/// The runtime's rule on an account's rent state across a transaction: it
/// may end without lamports or rent-exempt; it may end rent-paying only if
/// it began rent-paying with the same data size and was not credited.
pub open spec fn rent_transition_allowed(lamports_per_byte: u64, pre: AccountRecord, post: AccountRecord) -> bool {
    !rent_paying(lamports_per_byte, post) || (rent_paying(lamports_per_byte, pre) && data_len(pre) == data_len(
        post,
    ) && post.lamports <= pre.lamports)
}

/// Decides `rent_transition_allowed`.
pub fn check_rent_transition(lamports_per_byte: u64, pre: &AccountRecord, post: &AccountRecord) -> (r: bool)
    requires
        lamports_per_byte_ok(lamports_per_byte),
    ensures
        r == rent_transition_allowed(lamports_per_byte, *pre, *post),
{
    let post_len: u64 = if post.state.is_some() { VAULT_STATE_SPACE } else { 0 };
    let pre_len: u64 = if pre.state.is_some() { VAULT_STATE_SPACE } else { 0 };
    proof {
        lemma_state_minimum_covers_system_minimum(lamports_per_byte);
    }
    let post_minimum: u64 = rent_minimum_balance(lamports_per_byte, post_len);
    let post_paying: bool = 0 < post.lamports && post.lamports < post_minimum;
    if !post_paying {
        return true;
    }
    let pre_minimum: u64 = rent_minimum_balance(lamports_per_byte, pre_len);
    let pre_paying: bool = 0 < pre.lamports && pre.lamports < pre_minimum;
    pre_paying && pre_len == post_len && post.lamports <= pre.lamports
}

} // verus!
