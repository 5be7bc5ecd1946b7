use vstd::prelude::*;

use crate::address::{same_address, Address};
use crate::error::VaultError;
use crate::rent::rent_paying;
use crate::ledger::{
    accounts_wf, balance_in, lemma_put_wf, lemma_record_in_put, lemma_record_in_wf, put, record_in,
    state_in, AccountRecord, Accounts, Ledger,
};

verus! {

/// The address of the system program: 32 zero bytes.
pub open spec fn spec_system_program_id() -> Seq<u8> {
    Seq::new(32, |_i: int| 0u8)
}

/// Reads `anchor_lang::system_program::ID`, declared from the base58 string
/// `11111111111111111111111111111111`. Trusted: its bytes are all zero.
#[verifier::external_body]
fn system_program_id() -> (id: Address)
    ensures
        id@ == spec_system_program_id(),
{
    anchor_lang::system_program::ID.to_bytes()
}

/// `key` is the address of the system program.
pub fn is_system_program(key: &Address) -> (r: bool)
    ensures
        r == (key@ == spec_system_program_id()),
{
    broadcast use vstd::array::group_array_axioms;
    let id = system_program_id();
    let r = same_address(key, &id);
    proof {
        if key@ == id@ {
            assert(*key =~= id);
        }
    }
    r
}

/// A move of `lamports` from `from` to `to` by the system program.
#[derive(Clone, Copy, Debug)]
pub struct Transfer {
    /// The account debited.
    pub from: Address,
    /// The account credited.
    pub to: Address,
    /// How many lamports move.
    pub lamports: u64,
}

/// What the system program's transfer makes of `accounts`: it refuses to
/// debit an account that holds data or that holds fewer lamports than asked,
/// and a credit that would overflow; a transfer from an account to itself
/// changes nothing.
pub open spec fn transfer_outcome(accounts: Accounts, t: Transfer) -> Result<Accounts, VaultError> {
    let from = record_in(accounts, t.from);
    let to = record_in(accounts, t.to);
    if from.state is Some {
        Err(VaultError::InvalidArgument)
    } else if from.lamports < t.lamports {
        Err(VaultError::ResultWithNegativeLamports)
    } else if t.from == t.to {
        Ok(accounts)
    } else if to.lamports + t.lamports > u64::MAX {
        Err(VaultError::ArithmeticOverflow)
    } else {
        Ok(
            put(
                put(accounts, AccountRecord { lamports: (from.lamports - t.lamports) as u64, ..from }),
                AccountRecord { lamports: (to.lamports + t.lamports) as u64, ..to },
            ),
        )
    }
}

/// The error that the system program's transfer `t` would report on `ledger`.
pub(crate) fn transfer_error(ledger: &Ledger, t: &Transfer) -> (r: Option<VaultError>)
    ensures
        match transfer_outcome(ledger.accounts(), *t) {
            Ok(_) => r is None,
            Err(e) => r == Some(e),
        },
{
    let from = ledger.record(&t.from);
    if from.state.is_some() {
        return Some(VaultError::InvalidArgument);
    }
    if from.lamports < t.lamports {
        return Some(VaultError::ResultWithNegativeLamports);
    }
    if same_address(&t.from, &t.to) {
        return None;
    }
    let to = ledger.record(&t.to);
    if to.lamports.checked_add(t.lamports).is_none() {
        return Some(VaultError::ArithmeticOverflow);
    }
    None
}

/// What the record of `key` becomes under the system program's transfer
/// `t`, which must succeed.
pub(crate) fn record_after_transfer(ledger: &Ledger, t: &Transfer, key: &Address) -> (r: AccountRecord)
    requires
        transfer_outcome(ledger.accounts(), *t) is Ok,
    ensures
        r == record_in(transfer_outcome(ledger.accounts(), *t)->Ok_0, *key),
{
    let rec = ledger.record(key);
    if same_address(&t.from, &t.to) {
        return rec;
    }
    let from = ledger.record(&t.from);
    let to = ledger.record(&t.to);
    let debited = AccountRecord { lamports: from.lamports - t.lamports, ..from };
    let credited = AccountRecord { lamports: to.lamports + t.lamports, ..to };
    proof {
        lemma_record_in_put(ledger.accounts(), debited, *key);
        lemma_record_in_put(put(ledger.accounts(), debited), credited, *key);
    }
    if same_address(key, &t.to) {
        if credited.lamports == 0 {
            AccountRecord { key: *key, lamports: 0, state: None }
        } else {
            credited
        }
    } else if same_address(key, &t.from) {
        if debited.lamports == 0 {
            AccountRecord { key: *key, lamports: 0, state: None }
        } else {
            debited
        }
    } else {
        rec
    }
}

/// Performs the system program's transfer `t`, which must succeed and leave
/// neither of its two accounts rent-paying.
pub(crate) fn apply_transfer(ledger: &mut Ledger, t: &Transfer)
    requires
        transfer_outcome(old(ledger).accounts(), *t) is Ok,
        !rent_paying(
            old(ledger).spec_lamports_per_byte(),
            record_in(transfer_outcome(old(ledger).accounts(), *t)->Ok_0, t.from),
        ),
        !rent_paying(
            old(ledger).spec_lamports_per_byte(),
            record_in(transfer_outcome(old(ledger).accounts(), *t)->Ok_0, t.to),
        ),
    ensures
        final(ledger).accounts() == transfer_outcome(old(ledger).accounts(), *t)->Ok_0,
        final(ledger).spec_program_id() == old(ledger).spec_program_id(),
        final(ledger).spec_lamports_per_byte() == old(ledger).spec_lamports_per_byte(),
{
    if same_address(&t.from, &t.to) {
        return;
    }
    let from = ledger.record(&t.from);
    let to = ledger.record(&t.to);
    let debited = AccountRecord { lamports: from.lamports - t.lamports, ..from };
    let credited = AccountRecord { lamports: to.lamports + t.lamports, ..to };
    proof {
        let before = ledger.accounts();
        lemma_record_in_put(before, debited, t.from);
        lemma_record_in_put(put(before, debited), credited, t.from);
        lemma_record_in_put(put(before, debited), credited, t.to);
    }
    ledger.store(debited);
    ledger.store(credited);
}

/// A transfer that succeeds moves exactly its lamports from one account to
/// the other and changes nothing else: every other account keeps its record,
/// no account's data changes, the two balances keep their sum, and the
/// accounts stay well formed.
pub proof fn lemma_transfer_moves_lamports(accounts: Accounts, t: Transfer)
    requires
        accounts_wf(accounts),
        transfer_outcome(accounts, t) is Ok,
    ensures
        ({
            let after = transfer_outcome(accounts, t)->Ok_0;
            &&& accounts_wf(after)
            &&& forall|k: Address| k != t.from && k != t.to ==> #[trigger] record_in(after, k) == record_in(accounts, k)
            &&& forall|k: Address| #[trigger] state_in(after, k) == state_in(accounts, k)
            &&& state_in(accounts, t.from) is None
            &&& t.lamports <= balance_in(accounts, t.from)
            &&& t.from == t.to ==> after == accounts
            &&& t.from != t.to ==> balance_in(after, t.from) == balance_in(accounts, t.from) - t.lamports
            &&& t.from != t.to ==> balance_in(after, t.to) == balance_in(accounts, t.to) + t.lamports
        }),
{
    if t.from != t.to {
        let from = record_in(accounts, t.from);
        let to = record_in(accounts, t.to);
        let debited = AccountRecord { lamports: (from.lamports - t.lamports) as u64, ..from };
        let credited = AccountRecord { lamports: (to.lamports + t.lamports) as u64, ..to };
        let mid = put(accounts, debited);
        let after = put(mid, credited);
        lemma_record_in_wf(accounts, t.from);
        lemma_record_in_wf(accounts, t.to);
        lemma_put_wf(accounts, debited);
        lemma_put_wf(mid, credited);
        assert forall|k: Address| k != t.from && k != t.to implies #[trigger] record_in(after, k) == record_in(accounts, k) by {
            lemma_record_in_put(accounts, debited, k);
            lemma_record_in_put(mid, credited, k);
        }
        assert forall|k: Address| #[trigger] state_in(after, k) == state_in(accounts, k) by {
            lemma_record_in_put(accounts, debited, k);
            lemma_record_in_put(mid, credited, k);
            lemma_record_in_wf(accounts, k);
        }
        lemma_record_in_put(accounts, debited, t.from);
        lemma_record_in_put(mid, credited, t.from);
        lemma_record_in_put(accounts, debited, t.to);
        lemma_record_in_put(mid, credited, t.to);
    }
}

} // verus!
