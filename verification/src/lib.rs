//! A small bookkeeping core: accounts, transactions and the rules that keep
//! an account's statement balance and spendable funds consistent.
//!
//! Money is held as an integer count of minor units (`money`, on top of the
//! digit strings of `decimal`). Accounts and transactions (`account`,
//! `transaction`) live in in-memory repositories (`accounts`,
//! `transactions`) whose invariants are stated as well-formedness
//! predicates and kept by every operation: ids are positive and strictly
//! ascending, and exactly one account is the default while any exists. The
//! operations themselves are the functions of `ledger`; what holds of every
//! state and of every sequence of operations is proved in `laws`.
//!
//! Dates are Julian day numbers (`calendar`). The calendar arithmetic comes
//! from outside this crate and is the only code here that is trusted rather
//! than verified.

pub mod account;
pub mod accounts;
pub mod calendar;
pub mod decimal;
pub mod error;
pub mod laws;
pub mod ledger;
pub mod money;
pub mod summary;
pub mod transaction;
pub mod transactions;
pub mod utils;
