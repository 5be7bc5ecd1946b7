//! A verified model of a per-user SOL vault program.
//!
//! Each authority owns one vault: a program-derived *state* account that
//! remembers who the authority is, and a program-derived, data-less *vault*
//! account that holds lamports. The authority can deposit lamports into the
//! vault and withdraw them again; nobody else can withdraw.
//!
//! The crate states, over a model of the accounts that the program touches
//! (the [`ledger::Ledger`]), exactly which transactions succeed, which error
//! each failing one reports, and how balances and vault states change.

pub mod address;
pub mod pda;
pub mod state;
pub mod error;
pub mod ledger;
pub mod system;
pub mod rent;
pub mod instructions;
pub mod laws;


pub use address::Address;
