//! A single-pass transaction bookkeeping engine.
//!
//! The engine folds a sequence of transactions into per-client account
//! states. A deposit or withdraw introduces a new, globally unique
//! transaction id; a dispute, resolve or chargeback refers back to an
//! earlier id and inherits its amount. Every account maintains the balance
//! equation `total == available + held` at all times.
//!
//! Monetary amounts are fixed-point values: an `i64` counts ten-thousandths
//! of a currency unit, so `10.0001` units are stored as `100001`.

pub mod account;
pub mod ledger;
pub mod transaction;

pub use account::{Account, AccountError};
pub use ledger::{Ledger, LedgerError};
pub use transaction::{SerialTransaction, Transaction, TransactionError, TxType};
