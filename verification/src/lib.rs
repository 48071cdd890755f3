//! Per-client account ledgers that settle a stream of payment transactions.
//!
//! Balances are exact decimals: a 96-bit signed mantissa and a power-of-ten
//! scale, computed by `rust_decimal`. An [`account::Account`] advances by one
//! [`transaction::Transaction`] at a time, and [`ledger`] routes a stream of
//! transactions to one account per client.

pub mod account;
pub mod amount;
pub mod decimal;
pub mod ledger;
pub mod theorems;
pub mod transaction;
