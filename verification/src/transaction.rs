//! Typed transactions and their construction from raw input records.

use vstd::prelude::*;

verus! {

/// Identifies the client that owns an account.
pub type ClientId = u16;

/// Identifies a transaction; unique among all accepted deposits and withdraws.
pub type TxId = u32;

/// Errors raised while turning a raw record into a [`Transaction`].
#[derive(Debug, PartialEq, Eq, Structural)]
pub enum TransactionError {
    /// The record's kind string is not one of the five known kinds.
    InvalidTxType,
    /// The record carries an amount below zero.
    NegativeAmount,
}

/// The closed set of transaction kinds.
///
/// `Deposit` and `Withdraw` are value kinds: they introduce a new
/// transaction id. `Dispute`, `Resolve` and `Chargeback` are reference
/// kinds: they refer to an earlier id and inherit its amount.
#[derive(Debug, PartialEq, Eq, Clone, Copy, Structural)]
pub enum TxType {
    Deposit,
    Withdraw,
    Dispute,
    Resolve,
    Chargeback,
}

/// A raw input record, as an external reader hands it over: the kind is
/// still a string and the amount may be missing.
///
/// The amount, when present, is a fixed-point count of ten-thousandths of
/// a currency unit; it is signed so that a negative input can be detected
/// and rejected rather than silently accepted.
#[derive(Debug)]
pub struct SerialTransaction {
    pub tx_type: String,
    pub client: ClientId,
    pub tx: TxId,
    pub amount: Option<i64>,
}

/// A validated transaction. `amount` is never negative: construction
/// through [`Transaction::try_from`] rejects negative inputs, and for
/// reference kinds the ledger substitutes the referenced entry's amount.
#[derive(Debug, PartialEq, Eq, Clone, Copy, Structural)]
pub struct Transaction {
    pub tx_type: TxType,
    pub client: ClientId,
    pub tx: TxId,
    pub amount: i64,
}

/// Which kind, if any, a kind string denotes. Matching is case-sensitive,
/// and both "withdraw" and "withdrawal" denote a withdraw.
pub open spec fn tx_type_of(s: Seq<char>) -> Result<TxType, TransactionError> {
    if s == "deposit"@ {
        Ok(TxType::Deposit)
    } else if s == "withdraw"@ || s == "withdrawal"@ {
        Ok(TxType::Withdraw)
    } else if s == "dispute"@ {
        Ok(TxType::Dispute)
    } else if s == "resolve"@ {
        Ok(TxType::Resolve)
    } else if s == "chargeback"@ {
        Ok(TxType::Chargeback)
    } else {
        Err(TransactionError::InvalidTxType)
    }
}

/// The transaction a raw record denotes, or the error that rejects it.
/// A missing amount defaults to zero; the kind is checked first, so an
/// unknown kind wins over a negative amount.
pub open spec fn transaction_of(rec: SerialTransaction) -> Result<Transaction, TransactionError> {
    match tx_type_of(rec.tx_type@) {
        Err(e) => Err(e),
        Ok(kind) => {
            let amount = match rec.amount {
                Some(a) => a,
                None => 0,
            };
            if amount < 0 {
                Err(TransactionError::NegativeAmount)
            } else {
                Ok(Transaction { tx_type: kind, client: rec.client, tx: rec.tx, amount })
            }
        },
    }
}

impl TxType {
    /// Parses a kind string.
    pub fn try_from(value: &str) -> (r: Result<TxType, TransactionError>)
        ensures
            r == tx_type_of(value@),
    {
        let v = value.to_owned();
        if v == "deposit".to_owned() {
            Ok(TxType::Deposit)
        } else if v == "withdraw".to_owned() || v == "withdrawal".to_owned() {
            Ok(TxType::Withdraw)
        } else if v == "dispute".to_owned() {
            Ok(TxType::Dispute)
        } else if v == "resolve".to_owned() {
            Ok(TxType::Resolve)
        } else if v == "chargeback".to_owned() {
            Ok(TxType::Chargeback)
        } else {
            Err(TransactionError::InvalidTxType)
        }
    }
}

impl Transaction {
    /// Validates a raw record: the kind string must be known and the
    /// amount, if present, must not be negative.
    pub fn try_from(value: SerialTransaction) -> (r: Result<Transaction, TransactionError>)
        ensures
            r == transaction_of(value),
            r matches Ok(t) ==> t.amount >= 0,
    {
        let tx_type = match TxType::try_from(value.tx_type.as_str()) {
            Ok(kind) => kind,
            Err(e) => {
                return Err(e);
            },
        };
        let amount = match value.amount {
            Some(a) => a,
            None => 0,
        };
        if amount < 0 {
            Err(TransactionError::NegativeAmount)
        } else {
            Ok(Transaction { tx_type, client: value.client, tx: value.tx, amount })
        }
    }
}

} // verus!
