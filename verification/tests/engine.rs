// End-to-end scenarios through the ledger, and record validation.
// Amounts are fixed-point: an i64 counts ten-thousandths of a currency
// unit, so 10.0001 units are written 100001.

use tx_engine::account::{Account, AccountError};
use tx_engine::ledger::{Ledger, LedgerError};
use tx_engine::transaction::{SerialTransaction, Transaction, TransactionError, TxType};

fn tx(tx_type: TxType, client: u16, id: u32, amount: i64) -> Transaction {
    Transaction { tx_type, client, tx: id, amount }
}

fn single_account(ledger: Ledger) -> Account {
    let accounts = ledger.into_accounts();
    assert_eq!(1, accounts.len());
    accounts[0]
}

#[test]
fn balance_equation_holds_after_every_step() {
    let mut ledger = Ledger::new();
    let steps = vec![
        tx(TxType::Deposit, 1, 1, 1000000),
        tx(TxType::Deposit, 2, 2, 30000),
        tx(TxType::Withdraw, 1, 3, 400000),
        tx(TxType::Dispute, 1, 1, 0),
        tx(TxType::Resolve, 1, 1, 0),
        tx(TxType::Dispute, 2, 2, 0),
        tx(TxType::Chargeback, 2, 2, 0),
    ];
    for step in steps {
        ledger.try_add(step).unwrap();
        for account in ledger.accounts_vec() {
            assert_eq!(account.total, account.available + account.held);
        }
    }
}

#[test]
fn unknown_reference_is_a_noop() {
    let mut ledger = Ledger::new();
    ledger.try_add(tx(TxType::Deposit, 1, 1, 50000)).unwrap();
    for kind in vec![TxType::Dispute, TxType::Resolve, TxType::Chargeback] {
        ledger.try_add(tx(kind, 1, 999, 0)).unwrap();
    }
    let account = single_account(ledger);
    assert_eq!(50000, account.available);
    assert_eq!(0, account.held);
    assert_eq!(50000, account.total);
    assert_eq!(false, account.locked);
}

#[test]
fn duplicate_transaction_id_is_rejected_and_changes_nothing() {
    let mut ledger = Ledger::new();
    ledger.try_add(tx(TxType::Deposit, 5, 1, 100000)).unwrap();
    let second = ledger.try_add(tx(TxType::Withdraw, 5, 1, 30000));
    assert_eq!(Err(LedgerError::DuplicateTransaction), second);
    let account = single_account(ledger);
    assert_eq!(100000, account.available);
    assert_eq!(100000, account.total);
}

#[test]
fn dispute_ahead_of_its_deposit_is_dropped() {
    let mut ledger = Ledger::new();
    ledger.try_add(tx(TxType::Dispute, 5, 1, 0)).unwrap();
    ledger.try_add(tx(TxType::Deposit, 5, 1, 100000)).unwrap();
    let account = single_account(ledger);
    assert_eq!(5, account.client);
    assert_eq!(100000, account.available);
    assert_eq!(0, account.held);
}

#[test]
fn withdraw_of_the_whole_available_balance_succeeds() {
    let mut ledger = Ledger::new();
    ledger.try_add(tx(TxType::Deposit, 1, 1, 100000)).unwrap();
    ledger.try_add(tx(TxType::Withdraw, 1, 2, 100000)).unwrap();
    let account = single_account(ledger);
    assert_eq!(0, account.available);
    assert_eq!(0, account.total);
}

#[test]
fn withdraw_a_hair_over_the_available_balance_fails() {
    let mut ledger = Ledger::new();
    ledger.try_add(tx(TxType::Deposit, 1, 1, 100000)).unwrap();
    let result = ledger.try_add(tx(TxType::Withdraw, 1, 2, 100001));
    assert_eq!(Err(LedgerError::AccountError(AccountError::InsufficientFunds)), result);
    let account = single_account(ledger);
    assert_eq!(100000, account.available);
    assert_eq!(100000, account.total);
}

#[test]
fn full_dispute_chargeback_cycle_empties_and_locks_the_account() {
    let mut ledger = Ledger::new();
    ledger.try_add(tx(TxType::Deposit, 1, 1, 1000000)).unwrap();
    ledger.try_add(tx(TxType::Dispute, 1, 1, 0)).unwrap();
    ledger.try_add(tx(TxType::Chargeback, 1, 1, 0)).unwrap();
    let account = single_account(ledger);
    assert_eq!(0, account.available);
    assert_eq!(0, account.held);
    assert_eq!(0, account.total);
    assert_eq!(true, account.locked);
}

#[test]
fn resolve_cancels_a_dispute() {
    let mut ledger = Ledger::new();
    ledger.try_add(tx(TxType::Deposit, 1, 1, 500000)).unwrap();
    ledger.try_add(tx(TxType::Dispute, 1, 1, 0)).unwrap();
    ledger.try_add(tx(TxType::Resolve, 1, 1, 0)).unwrap();
    let account = single_account(ledger);
    assert_eq!(500000, account.available);
    assert_eq!(0, account.held);
    assert_eq!(500000, account.total);
    assert_eq!(false, account.locked);
}

#[test]
fn dispute_holds_the_disputed_amount() {
    let mut ledger = Ledger::new();
    ledger.try_add(tx(TxType::Deposit, 1, 1, 700000)).unwrap();
    ledger.try_add(tx(TxType::Deposit, 1, 2, 25000)).unwrap();
    ledger.try_add(tx(TxType::Dispute, 1, 2, 0)).unwrap();
    let account = single_account(ledger);
    assert_eq!(700000, account.available);
    assert_eq!(25000, account.held);
    assert_eq!(725000, account.total);
}

#[test]
fn accounts_are_kept_per_client() {
    let mut ledger = Ledger::new();
    ledger.try_add(tx(TxType::Deposit, 1, 1, 10000)).unwrap();
    ledger.try_add(tx(TxType::Deposit, 2, 2, 20000)).unwrap();
    ledger.try_add(tx(TxType::Deposit, 1, 3, 5000)).unwrap();
    let accounts = ledger.into_accounts();
    assert_eq!(2, accounts.len());
    assert_eq!(1, accounts[0].client);
    assert_eq!(15000, accounts[0].total);
    assert_eq!(2, accounts[1].client);
    assert_eq!(20000, accounts[1].total);
}

#[test]
fn tx_type_parses_each_known_kind() {
    assert_eq!(Ok(TxType::Deposit), TxType::try_from("deposit"));
    assert_eq!(Ok(TxType::Withdraw), TxType::try_from("withdraw"));
    assert_eq!(Ok(TxType::Withdraw), TxType::try_from("withdrawal"));
    assert_eq!(Ok(TxType::Dispute), TxType::try_from("dispute"));
    assert_eq!(Ok(TxType::Resolve), TxType::try_from("resolve"));
    assert_eq!(Ok(TxType::Chargeback), TxType::try_from("chargeback"));
}

#[test]
fn tx_type_rejects_unknown_and_differently_cased_kinds() {
    assert_eq!(Err(TransactionError::InvalidTxType), TxType::try_from("transfer"));
    assert_eq!(Err(TransactionError::InvalidTxType), TxType::try_from("Deposit"));
    assert_eq!(Err(TransactionError::InvalidTxType), TxType::try_from(""));
}

#[test]
fn transaction_construction_defaults_a_missing_amount_to_zero() {
    let rec = SerialTransaction {
        tx_type: String::from("deposit"),
        client: 7,
        tx: 9,
        amount: None,
    };
    let built = Transaction::try_from(rec).unwrap();
    assert_eq!(TxType::Deposit, built.tx_type);
    assert_eq!(7, built.client);
    assert_eq!(9, built.tx);
    assert_eq!(0, built.amount);
}

#[test]
fn transaction_construction_rejects_a_negative_amount() {
    let rec = SerialTransaction {
        tx_type: String::from("deposit"),
        client: 7,
        tx: 9,
        amount: Some(-1),
    };
    assert_eq!(Err(TransactionError::NegativeAmount), Transaction::try_from(rec));
}

#[test]
fn transaction_construction_checks_the_kind_before_the_amount() {
    let rec = SerialTransaction {
        tx_type: String::from("transfer"),
        client: 7,
        tx: 9,
        amount: Some(-1),
    };
    assert_eq!(Err(TransactionError::InvalidTxType), Transaction::try_from(rec));
}
