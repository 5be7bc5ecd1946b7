use vstd::prelude::*;

use crate::address::{same_address, Address};
use crate::error::VaultError;
use crate::rent::{
    check_rent_transition, lamports_per_byte_ok, minimum_balance, rent_paying, rent_transition_allowed,
};
use crate::state::{VaultState, VAULT_STATE_SPACE};

verus! {

/// An account as the ledger holds it.
#[derive(Clone, Copy, Debug)]
pub struct AccountRecord {
    /// The account's address.
    pub key: Address,
    /// The lamports it holds.
    pub lamports: u64,
    /// `Some` where the vault program owns the account and it holds a vault
    /// state; `None` for an account that the system program owns and that
    /// holds no data.
    pub state: Option<VaultState>,
}

/// The accounts of a ledger, by address. An address that is not in the map
/// names an account that does not exist: no lamports, owned by the system
/// program, no data.
pub type Accounts = Map<Address, AccountRecord>;

/// The record of `key` in `accounts`, an empty system account where there is none.
pub open spec fn record_in(accounts: Accounts, key: Address) -> AccountRecord {
    if accounts.contains_key(key) {
        accounts[key]
    } else {
        AccountRecord { key, lamports: 0, state: None }
    }
}

/// The lamports of `key` in `accounts`.
pub open spec fn balance_in(accounts: Accounts, key: Address) -> u64 {
    record_in(accounts, key).lamports
}

/// The vault state that `key` holds in `accounts`, if the program owns it.
pub open spec fn state_in(accounts: Accounts, key: Address) -> Option<VaultState> {
    record_in(accounts, key).state
}

/// `accounts` with `record` stored under its key; an account left without
/// lamports ceases to exist, as the runtime drops such accounts.
pub open spec fn put(accounts: Accounts, record: AccountRecord) -> Accounts {
    if record.lamports == 0 {
        accounts.remove(record.key)
    } else {
        accounts.insert(record.key, record)
    }
}

/// Every record is stored under its own key and holds lamports.
pub open spec fn accounts_wf(accounts: Accounts) -> bool {
    forall|k: Address| #[trigger] accounts.contains_key(k) ==> accounts[k].key == k && accounts[k].lamports > 0
}

/// No account of `accounts` is rent-paying.
pub open spec fn rent_settled(lamports_per_byte: u64, accounts: Accounts) -> bool {
    forall|k: Address| #[trigger] accounts.contains_key(k) ==> !rent_paying(lamports_per_byte, accounts[k])
}

/// What every ledger keeps: well-formed accounts, none of them rent-paying,
/// and a rent rate whose minimum balances are computed exactly.
pub open spec fn ledger_wf(lamports_per_byte: u64, accounts: Accounts) -> bool {
    &&& accounts_wf(accounts)
    &&& rent_settled(lamports_per_byte, accounts)
    &&& lamports_per_byte_ok(lamports_per_byte)
}

/// The runtime's rule on rent states, applied at the end of a transaction
/// that ran from `pre` to `result` and named the accounts `a`, `b` and `c`:
/// where any of them ends in a rent state that the rule forbids, the
/// transaction fails with `InsufficientFundsForRent`.
pub open spec fn rent_checked(
    lamports_per_byte: u64,
    pre: Accounts,
    result: Result<Accounts, VaultError>,
    a: Address,
    b: Address,
    c: Address,
) -> Result<Accounts, VaultError> {
    match result {
        Err(e) => Err(e),
        Ok(post) => if rent_transition_allowed(lamports_per_byte, record_in(pre, a), record_in(post, a))
            && rent_transition_allowed(lamports_per_byte, record_in(pre, b), record_in(post, b))
            && rent_transition_allowed(lamports_per_byte, record_in(pre, c), record_in(post, c)) {
            Ok(post)
        } else {
            Err(VaultError::InsufficientFundsForRent)
        },
    }
}

/// Storing a record changes that key's record only.
pub proof fn lemma_record_in_put(accounts: Accounts, record: AccountRecord, key: Address)
    ensures
        record_in(put(accounts, record), key) == if key == record.key {
            if record.lamports == 0 {
                AccountRecord { key, lamports: 0, state: None }
            } else {
                record
            }
        } else {
            record_in(accounts, key)
        },
{
}

/// Storing a record under its own key keeps the accounts well formed.
pub proof fn lemma_put_wf(accounts: Accounts, record: AccountRecord)
    requires
        accounts_wf(accounts),
    ensures
        accounts_wf(put(accounts, record)),
{
}

/// In well-formed accounts a key's record carries that key, and the key is
/// present exactly where its record holds lamports.
pub proof fn lemma_record_in_wf(accounts: Accounts, key: Address)
    requires
        accounts_wf(accounts),
    ensures
        record_in(accounts, key).key == key,
        accounts.contains_key(key) == (record_in(accounts, key).lamports > 0),
{
}

/// Well-formed accounts that agree on every key's record are equal.
pub proof fn lemma_accounts_ext(a: Accounts, b: Accounts)
    requires
        accounts_wf(a),
        accounts_wf(b),
        forall|k: Address| #[trigger] record_in(a, k) == record_in(b, k),
    ensures
        a == b,
{
    assert forall|k: Address| #[trigger] a.contains_key(k) == b.contains_key(k) by {
        assert(record_in(a, k) == record_in(b, k));
    }
    assert forall|k: Address| #[trigger] a.contains_key(k) implies a[k] == b[k] by {
        assert(record_in(a, k) == record_in(b, k));
    }
    assert(a =~= b);
}

/// The accounts that the vault program touches, with the two values of the
/// cluster that it reads: its own address and the rent rate, in lamports per
/// byte, that sets every account's rent-exempt minimum balance.
///
/// An instruction runs as one transaction signed by one account: the
/// runtime refuses it where the signer lies off the ed25519 curve (no key
/// can sign for such an address); otherwise it either succeeds whole or
/// changes nothing (a program that panics fails its transaction too), and at
/// its end the runtime's rule on rent states holds for every account it
/// names. The ledger leaves out
/// transaction fees and writable flags (every account that an instruction
/// names is taken to be writable, as the client marks them).
pub struct Ledger {
    program_id: Address,
    lamports_per_byte: u64,
    records: Vec<AccountRecord>,
}

/// No two records share a key, and every record holds lamports.
pub open spec fn records_wf(records: Seq<AccountRecord>) -> bool {
    &&& forall|i: int, j: int| 0 <= i < records.len() && 0 <= j < records.len() && i != j
        ==> #[trigger] records[i].key != #[trigger] records[j].key
    &&& forall|i: int| 0 <= i < records.len() ==> #[trigger] records[i].lamports > 0
}

/// The map of accounts that `records` describes.
pub open spec fn records_map(records: Seq<AccountRecord>) -> Accounts {
    Map::new(
        |k: Address| exists|i: int| 0 <= i < records.len() && #[trigger] records[i].key == k,
        |k: Address| records[choose|i: int| 0 <= i < records.len() && #[trigger] records[i].key == k],
    )
}

proof fn lemma_records_map_at(records: Seq<AccountRecord>, i: int)
    requires
        records_wf(records),
        0 <= i < records.len(),
    ensures
        records_map(records).contains_key(records[i].key),
        records_map(records)[records[i].key] == records[i],
{
    let k = records[i].key;
    assert(records_map(records).contains_key(k));
    let j: int = choose|j: int| 0 <= j < records.len() && #[trigger] records[j].key == k;
    assert(i == j);
}

proof fn lemma_records_map_wf(records: Seq<AccountRecord>)
    requires
        records_wf(records),
    ensures
        accounts_wf(records_map(records)),
{
    assert forall|k: Address| #[trigger] records_map(records).contains_key(k) implies records_map(
        records,
    )[k].key == k && records_map(records)[k].lamports > 0 by {
        let i: int = choose|i: int| 0 <= i < records.len() && #[trigger] records[i].key == k;
        lemma_records_map_at(records, i);
    }
}

impl Ledger {
    #[verifier::type_invariant]
    closed spec fn inv(self) -> bool {
        &&& records_wf(self.records@)
        &&& rent_settled(self.lamports_per_byte, records_map(self.records@))
        &&& lamports_per_byte_ok(self.lamports_per_byte)
    }

    /// The accounts of the ledger, by address.
    pub closed spec fn accounts(self) -> Accounts {
        records_map(self.records@)
    }

    /// The address of the vault program.
    pub closed spec fn spec_program_id(self) -> Address {
        self.program_id
    }

    /// The cluster's rent rate in lamports per byte.
    pub closed spec fn spec_lamports_per_byte(self) -> u64 {
        self.lamports_per_byte
    }

    /// A ledger with no accounts, for the vault program at `program_id`, on a
    /// cluster charging `lamports_per_byte` for each byte an account takes.
    pub fn new(program_id: Address, lamports_per_byte: u64) -> (l: Ledger)
        requires
            lamports_per_byte_ok(lamports_per_byte),
        ensures
            l.accounts() == Map::<Address, AccountRecord>::empty(),
            ledger_wf(l.spec_lamports_per_byte(), l.accounts()),
            l.spec_program_id() == program_id,
            l.spec_lamports_per_byte() == lamports_per_byte,
    {
        let l = Ledger { program_id, lamports_per_byte, records: Vec::new() };
        assert(l.accounts() =~= Map::<Address, AccountRecord>::empty());
        l
    }

    /// The address of the vault program.
    pub fn program_id(&self) -> (r: Address)
        ensures
            r == self.spec_program_id(),
    {
        self.program_id
    }

    /// The cluster's rent rate in lamports per byte.
    pub fn lamports_per_byte(&self) -> (r: u64)
        ensures
            r == self.spec_lamports_per_byte(),
            lamports_per_byte_ok(r),
    {
        proof {
            use_type_invariant(self);
        }
        self.lamports_per_byte
    }

    /// The index of the record of `key`, if there is one.
    fn position(&self, key: &Address) -> (r: Option<usize>)
        ensures
            match r {
                Some(i) => i < self.records@.len() && self.records@[i as int].key == *key,
                None => forall|i: int| 0 <= i < self.records@.len() ==> #[trigger] self.records@[i].key != *key,
            },
    {
        let n: usize = self.records.len();
        let mut i: usize = 0;
        while i < n
            invariant
                n == self.records@.len(),
                i <= n,
                forall|j: int| 0 <= j < i ==> #[trigger] self.records@[j].key != *key,
            decreases n - i,
        {
            if same_address(&self.records[i].key, key) {
                return Some(i);
            }
            i = i + 1;
        }
        None
    }

    /// The record of `key`.
    pub fn record(&self, key: &Address) -> (r: AccountRecord)
        ensures
            r == record_in(self.accounts(), *key),
            ledger_wf(self.spec_lamports_per_byte(), self.accounts()),
    {
        proof {
            use_type_invariant(self);
            lemma_records_map_wf(self.records@);
        }
        match self.position(key) {
            Some(i) => {
                proof {
                    lemma_records_map_at(self.records@, i as int);
                }
                self.records[i]
            },
            None => {
                assert(!self.accounts().contains_key(*key));
                AccountRecord { key: *key, lamports: 0, state: None }
            },
        }
    }

    /// Brings the well-formedness of the ledger's accounts into the proof.
    pub(crate) fn accounts_are_wf(&self)
        ensures
            ledger_wf(self.spec_lamports_per_byte(), self.accounts()),
    {
        proof {
            use_type_invariant(self);
            lemma_records_map_wf(self.records@);
        }
    }

    /// The lamports that `key` holds.
    pub fn balance(&self, key: &Address) -> (r: u64)
        ensures
            r == balance_in(self.accounts(), *key),
    {
        self.record(key).lamports
    }

    /// The vault state that `key` holds, if the vault program owns it.
    pub fn vault_state(&self, key: &Address) -> (r: Option<VaultState>)
        ensures
            r == state_in(self.accounts(), *key),
    {
        self.record(key).state
    }

    /// Stores `record`, which is not rent-paying, under its key.
    pub(crate) fn store(&mut self, record: AccountRecord)
        requires
            !rent_paying(old(self).spec_lamports_per_byte(), record),
        ensures
            final(self).accounts() == put(old(self).accounts(), record),
            final(self).spec_program_id() == old(self).spec_program_id(),
            final(self).spec_lamports_per_byte() == old(self).spec_lamports_per_byte(),
    {
        proof {
            use_type_invariant(&*self);
        }
        let ghost old_records = self.records@;
        let pos = self.position(&record.key);
        let mut records: Vec<AccountRecord> = Vec::new();
        std::mem::swap(&mut records, &mut self.records);
        assert(records@ == old_records);
        if record.lamports == 0 {
            match pos {
                Some(i) => {
                    records.remove(i);
                },
                None => {},
            }
        } else {
            match pos {
                Some(i) => {
                    records.set(i, record);
                },
                None => {
                    records.push(record);
                },
            }
        }
        proof {
            lemma_store_records(old_records, records@, record, pos);
            let m = records_map(records@);
            let old_m = records_map(old_records);
            assert forall|k: Address| #[trigger] m.contains_key(k) implies !rent_paying(self.lamports_per_byte, m[k]) by {
                if k != record.key {
                    assert(old_m.contains_key(k));
                }
            }
        }
        self.records = records;
    }

    /// Credits `lamports` to `key` from outside the ledger, creating the
    /// account where it does not exist, as one transaction. It fails, and
    /// changes nothing, with `ArithmeticOverflow` where the balance would
    /// exceed `u64::MAX`, and with `InsufficientFundsForRent` where the
    /// account would end rent-paying against the runtime's rule.
    pub fn airdrop(&mut self, key: &Address, lamports: u64) -> (r: Result<(), VaultError>)
        ensures
            ledger_wf(final(self).spec_lamports_per_byte(), final(self).accounts()),
            final(self).spec_program_id() == old(self).spec_program_id(),
            final(self).spec_lamports_per_byte() == old(self).spec_lamports_per_byte(),
            ({
                let pre = record_in(old(self).accounts(), *key);
                let post = AccountRecord { lamports: (pre.lamports + lamports) as u64, ..pre };
                match r {
                    Ok(()) => pre.lamports + lamports <= u64::MAX
                        && rent_transition_allowed(old(self).spec_lamports_per_byte(), pre, post)
                        && final(self).accounts() == put(old(self).accounts(), post),
                    Err(e) => final(self).accounts() == old(self).accounts() && if pre.lamports + lamports > u64::MAX {
                        e == VaultError::ArithmeticOverflow
                    } else {
                        e == VaultError::InsufficientFundsForRent && !rent_transition_allowed(
                            old(self).spec_lamports_per_byte(),
                            pre,
                            post,
                        )
                    },
                }
            }),
    {
        let rec = self.record(key);
        let lamports_per_byte = self.lamports_per_byte();
        match rec.lamports.checked_add(lamports) {
            Some(total) => {
                let post = AccountRecord { lamports: total, ..rec };
                if !check_rent_transition(lamports_per_byte, &rec, &post) {
                    return Err(VaultError::InsufficientFundsForRent);
                }
                proof {
                    if self.accounts().contains_key(*key) {
                        assert(!rent_paying(lamports_per_byte, self.accounts()[*key]));
                    }
                }
                self.store(post);
                self.accounts_are_wf();
                Ok(())
            },
            None => Err(VaultError::ArithmeticOverflow),
        }
    }
}

proof fn lemma_store_records(
    old_records: Seq<AccountRecord>,
    new_records: Seq<AccountRecord>,
    record: AccountRecord,
    pos: Option<usize>,
)
    requires
        records_wf(old_records),
        match pos {
            Some(i) => i < old_records.len() && old_records[i as int].key == record.key,
            None => forall|i: int| 0 <= i < old_records.len() ==> #[trigger] old_records[i].key != record.key,
        },
        record.lamports == 0 ==> new_records == match pos {
            Some(i) => old_records.remove(i as int),
            None => old_records,
        },
        record.lamports != 0 ==> new_records == match pos {
            Some(i) => old_records.update(i as int, record),
            None => old_records.push(record),
        },
    ensures
        records_wf(new_records),
        records_map(new_records) == put(records_map(old_records), record),
{
    let old_map = records_map(old_records);
    let new_map = records_map(new_records);
    let expected = put(old_map, record);
    assert(records_wf(new_records)) by {
        if record.lamports == 0 {
            match pos {
                Some(i) => {
                    assert forall|a: int, b: int|
                        0 <= a < new_records.len() && 0 <= b < new_records.len() && a != b
                            implies #[trigger] new_records[a].key != #[trigger] new_records[b].key by {
                        let a0: int = if a < i { a } else { a + 1 };
                        let b0 = if b < i { b } else { b + 1 };
                        assert(new_records[a] == old_records[a0]);
                        assert(new_records[b] == old_records[b0]);
                    }
                    assert forall|a: int| 0 <= a < new_records.len() implies #[trigger] new_records[a].lamports > 0 by {
                        let a0: int = if a < i { a } else { a + 1 };
                        assert(new_records[a] == old_records[a0]);
                    }
                },
                None => {},
            }
        } else {
            match pos {
                Some(i) => {
                    assert forall|a: int, b: int|
                        0 <= a < new_records.len() && 0 <= b < new_records.len() && a != b
                            implies #[trigger] new_records[a].key != #[trigger] new_records[b].key by {
                        if a == i {
                            assert(old_records[a].key == new_records[a].key);
                        } else if b == i {
                            assert(old_records[b].key == new_records[b].key);
                        }
                    }
                },
                None => {
                    assert forall|a: int, b: int|
                        0 <= a < new_records.len() && 0 <= b < new_records.len() && a != b
                            implies #[trigger] new_records[a].key != #[trigger] new_records[b].key by {
                        if a == old_records.len() {
                            assert(old_records[b].key != record.key);
                        } else if b == old_records.len() {
                            assert(old_records[a].key != record.key);
                        }
                    }
                },
            }
        }
    }
    assert forall|k: Address| #[trigger] new_map.contains_key(k) == expected.contains_key(k) && (new_map.contains_key(k) ==> new_map[k] == expected[k]) by {
        if new_map.contains_key(k) {
            let a: int = choose|a: int| 0 <= a < new_records.len() && #[trigger] new_records[a].key == k;
            lemma_records_map_at(new_records, a);
            if record.lamports == 0 {
                match pos {
                    Some(i) => {
                        let a0: int = if a < i { a } else { a + 1 };
                        assert(new_records[a] == old_records[a0]);
                        lemma_records_map_at(old_records, a0);
                        assert(a0 != i);
                    },
                    None => {
                        lemma_records_map_at(old_records, a);
                    },
                }
            } else {
                match pos {
                    Some(i) => {
                        if a != i {
                            lemma_records_map_at(old_records, a);
                        }
                    },
                    None => {
                        if a < old_records.len() {
                            lemma_records_map_at(old_records, a);
                        }
                    },
                }
            }
        }
        if expected.contains_key(k) {
            if k == record.key {
                match pos {
                    Some(i) => {
                        lemma_records_map_at(new_records, i as int);
                    },
                    None => {
                        lemma_records_map_at(new_records, old_records.len() as int);
                    },
                }
            } else {
                let a0: int = choose|a: int| 0 <= a < old_records.len() && #[trigger] old_records[a].key == k;
                lemma_records_map_at(old_records, a0);
                if record.lamports == 0 {
                    match pos {
                        Some(i) => {
                            assert(a0 != i);
                            let a: int = if a0 < i { a0 } else { a0 - 1 };
                            assert(new_records[a] == old_records[a0]);
                            lemma_records_map_at(new_records, a);
                        },
                        None => {
                            lemma_records_map_at(new_records, a0);
                        },
                    }
                } else {
                    assert(new_records[a0] == old_records[a0]);
                    lemma_records_map_at(new_records, a0);
                }
            }
        }
    }
    assert(new_map =~= expected);
}

} // verus!
