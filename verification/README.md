# vault

A verified model of a small Solana vault program written with Anchor.

Each authority owns one vault: a state account at the address derived from
`"state"` and the authority, which records the authority and the bump of its
own address, and a data-less account at the address derived from `"vault"`
and the authority, which holds the lamports. `initialize` creates the state,
`deposit` moves lamports from the authority into the vault, and `withdraw`
moves them back; only the recorded authority can do either.

What is verified is a model. The ledger in `src/` describes what Anchor's
generated account checks, the system program's transfers and the runtime
(signature verification, its rule on rent states, a program that panics)
do to the accounts, written from their sources and documentation. Nothing
checks the model against the real framework or a running cluster: the
proofs hold of the model, and the model's fidelity rests on that reading.
Transaction fees and the writable flags of accounts are left out.

Layout:

- `src/` — the library, verified with Verus:
  - `address.rs`, `pda.rs`: addresses and their derivation (the calls into
    `anchor-lang` for program-derived addresses are the trusted items);
  - `ledger.rs`, `system.rs`, `rent.rs`: the accounts the program touches,
    the system program's transfers, and the runtime's rule on rent states
    (rent-exempt minimums come from `anchor-lang`'s `Rent`);
  - `instructions/`: the framework's account checks, the three handlers and
    the ledger operations that run them, each specified by an outcome
    function;
  - `laws.rs`: properties across the operations, proved, among them that a
    vault's balance is its successful deposits less its successful
    withdrawals over any sequence of transactions, and that a new state
    account keeps exactly its rent-exempt minimum.
- `tests/` — scenarios of initialize, deposit and withdraw, and edge cases, run against the library.
- `app/` — the on-chain Anchor program, which lets the framework check the
  accounts, asks the library what to do, and makes the system-program calls.
