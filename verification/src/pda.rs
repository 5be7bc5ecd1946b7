use vstd::prelude::*;

use crate::address::Address;

verus! {

/// Seed prefix of a vault's state account: the bytes of `"state"`.
pub const STATE_SEED: [u8; 5] = [115, 116, 97, 116, 101];

/// Seed prefix of a vault's lamport-holding account: the bytes of `"vault"`.
pub const VAULT_SEED: [u8; 5] = [118, 97, 117, 108, 116];

/// What `Pubkey::create_program_address` returns for the seeds
/// `[prefix, key, [bump]]` and the program `program_id`: `Some` of the derived
/// address, or `None` where it returns an error (seeds too long, or the hash
/// lies on the ed25519 curve).
pub uninterp spec fn program_address(
    prefix: Seq<u8>,
    key: Seq<u8>,
    bump: u8,
    program_id: Seq<u8>,
) -> Option<Seq<u8>>;

/// What `Pubkey::is_on_curve` returns for `address`: whether its bytes
/// decompress to a point of the ed25519 curve. On-curve addresses are the
/// public keys that can have private keys and sign; program-derived addresses
/// lie off the curve.
pub uninterp spec fn is_on_curve(address: Seq<u8>) -> bool;

/// Calls `Pubkey::is_on_curve`. Trusted: the result is `is_on_curve` of the
/// address's bytes.
#[verifier::external_body]
pub(crate) fn address_is_on_curve(address: &Address) -> (r: bool)
    ensures
        r == is_on_curve(address@),
{
    anchor_lang::prelude::Pubkey::new_from_array(*address).is_on_curve()
}

/// `bump` is the bump that `find_program_address` settles on: the largest
/// non-zero bump for which an address can be derived.
pub open spec fn is_canonical_bump(prefix: Seq<u8>, key: Seq<u8>, bump: u8, program_id: Seq<u8>) -> bool {
    &&& 1 <= bump
    &&& program_address(prefix, key, bump, program_id) is Some
    &&& forall|c: u8| bump < c ==> #[trigger] program_address(prefix, key, c, program_id) is None
}

/// The program-derived address of `[prefix, key]` under `program_id`, with its
/// canonical bump; `None` where no non-zero bump yields an address.
pub open spec fn derived_address(prefix: Seq<u8>, key: Seq<u8>, program_id: Seq<u8>) -> Option<(Seq<u8>, u8)> {
    if exists|b: u8| is_canonical_bump(prefix, key, b, program_id) {
        let b: u8 = choose|b: u8| is_canonical_bump(prefix, key, b, program_id);
        Some((program_address(prefix, key, b, program_id).unwrap(), b))
    } else {
        None
    }
}

/// At most one bump is canonical.
pub proof fn lemma_canonical_bump_unique(prefix: Seq<u8>, key: Seq<u8>, program_id: Seq<u8>, b1: u8, b2: u8)
    requires
        is_canonical_bump(prefix, key, b1, program_id),
        is_canonical_bump(prefix, key, b2, program_id),
    ensures
        b1 == b2,
{
    if b1 < b2 {
        assert(program_address(prefix, key, b2, program_id) is None);
    } else if b2 < b1 {
        assert(program_address(prefix, key, b1, program_id) is None);
    }
}

/// Calls `Pubkey::create_program_address(&[prefix, key, &[bump]], program_id)`
/// (anchor's `Pubkey` is `solana_address::Address`). Trusted: the result is
/// `program_address` of the arguments, the address taken as its 32 bytes and
/// every error collapsed to `None`, and an address that comes out lies off
/// the curve (the source refuses a hash that is a curve point); nothing more
/// is claimed of which addresses come out (a SHA-256 hash decides that).
#[verifier::external_body]
pub(crate) fn create_program_address(prefix: &[u8], key: &Address, bump: u8, program_id: &Address) -> (r: Option<Address>)
    ensures
        match r {
            Some(a) => program_address(prefix@, key@, bump, program_id@) == Some(a@) && !is_on_curve(a@),
            None => program_address(prefix@, key@, bump, program_id@) is None,
        },
{
    let pid = anchor_lang::prelude::Pubkey::new_from_array(*program_id);
    let bump_seed: [u8; 1] = [bump];
    match anchor_lang::prelude::Pubkey::create_program_address(&[prefix, &key[..], &bump_seed[..]], &pid) {
        Ok(address) => Some(address.to_bytes()),
        Err(_) => None,
    }
}

/// Calls `Pubkey::try_find_program_address(&[prefix, key], program_id)`.
/// Trusted, as its source shows: it tries the bumps from 255 down to 1 with
/// `create_program_address` and returns the first address found with its
/// bump, so that bump yields the address and every larger bump yields none;
/// it returns `None` only when no bump from 1 to 255 yields an address (it
/// also stops early on an error other than an invalid seed, which can only
/// be a seed too long, and then no bump yields one either). The address it
/// returns comes from `create_program_address`, so it lies off the curve.
#[verifier::external_body]
fn try_find_program_address(prefix: &[u8], key: &Address, program_id: &Address) -> (r: Option<(Address, u8)>)
    ensures
        match r {
            Some((a, b)) => is_canonical_bump(prefix@, key@, b, program_id@)
                && program_address(prefix@, key@, b, program_id@) == Some(a@) && !is_on_curve(a@),
            None => forall|b: u8| 1 <= b ==> #[trigger] program_address(prefix@, key@, b, program_id@) is None,
        },
{
    let pid = anchor_lang::prelude::Pubkey::new_from_array(*program_id);
    match anchor_lang::prelude::Pubkey::try_find_program_address(&[prefix, &key[..]], &pid) {
        Some((address, bump)) => Some((address.to_bytes(), bump)),
        None => None,
    }
}

/// Finds the address of `[prefix, key]` under `program_id` and its canonical
/// bump, as the program does where no bump is given (`seeds = [..], bump`).
pub fn find_program_address(prefix: &[u8], key: &Address, program_id: &Address) -> (r: Option<(Address, u8)>)
    ensures
        match r {
            Some((a, b)) => derived_address(prefix@, key@, program_id@) == Some((a@, b)) && !is_on_curve(a@),
            None => derived_address(prefix@, key@, program_id@) is None,
        },
{
    let r = try_find_program_address(prefix, key, program_id);
    proof {
        match r {
            Some((a, b)) => {
                let c: u8 = choose|c: u8| is_canonical_bump(prefix@, key@, c, program_id@);
                lemma_canonical_bump_unique(prefix@, key@, program_id@, b, c);
            },
            None => {
                if exists|c: u8| is_canonical_bump(prefix@, key@, c, program_id@) {
                    let c: u8 = choose|c: u8| is_canonical_bump(prefix@, key@, c, program_id@);
                    assert(program_address(prefix@, key@, c, program_id@) is None);
                }
            },
        }
    }
    r
}

/// The address of the state account of `authority`'s vault under
/// `program_id`, as clients derive it; `None` where no bump yields one.
pub fn derive_vault_state(authority: &Address, program_id: &Address) -> (r: Option<Address>)
    ensures
        match r {
            Some(a) => derived_address(STATE_SEED@, authority@, program_id@) matches Some((s, _)) && s == a@
                && !is_on_curve(a@),
            None => derived_address(STATE_SEED@, authority@, program_id@) is None,
        },
{
    match find_program_address(&STATE_SEED, authority, program_id) {
        Some((address, _)) => Some(address),
        None => None,
    }
}

/// The address of the account that holds `authority`'s vault lamports under
/// `program_id`, as clients derive it; `None` where no bump yields one.
pub fn derive_vault(authority: &Address, program_id: &Address) -> (r: Option<Address>)
    ensures
        match r {
            Some(a) => derived_address(VAULT_SEED@, authority@, program_id@) matches Some((s, _)) && s == a@
                && !is_on_curve(a@),
            None => derived_address(VAULT_SEED@, authority@, program_id@) is None,
        },
{
    match find_program_address(&VAULT_SEED, authority, program_id) {
        Some((address, _)) => Some(address),
        None => None,
    }
}

} // verus!
