// Amounts and balances are fixed-point: an i64 counts ten-thousandths of
// a currency unit, so 2.3 units are written 23000.

use tx_engine::account::{Account, AccountError};
use tx_engine::transaction::{Transaction, TxType};

#[test]
fn account_derives_debug() -> () {
    println!("{:?}", Account::with_client_id(77));
}

#[test]
fn try_add_returns_ok_on_deposit() -> Result<(), AccountError> {
    let mut account = Account::new();

    let tx = Transaction { tx_type: TxType::Deposit, client: 0, tx: 0, amount: 23000 };

    let result = account.try_add(&tx);
    assert!(result.is_ok());
    result?;
    assert_eq!(23000, account.available);
    assert_eq!(23000, account.total);
    Ok(())
}

#[test]
fn withdraw_returns_ok_on_sufficient_funds() -> Result<(), AccountError> {
    let mut account = Account::new();
    account.total = 990001;
    account.available = 990001;

    let result = account.withdraw(330001);
    assert!(result.is_ok());
    result?;
    assert_eq!(660000, account.available);
    assert_eq!(660000, account.total);
    Ok(())
}

#[test]
fn withdraw_returns_error_when_available_funds_are_insufficient() {
    let mut account = Account::new();
    account.total = 990001;
    account.available = 990001;

    let result = account.withdraw(990002);
    assert!(result.is_err());
    result
        .map_err(|o| {
            assert_eq!(AccountError::InsufficientFunds, o);
        })
        .unwrap_err()
}

#[test]
fn dispute_decreases_available_and_increases_held() -> Result<(), AccountError> {
    let mut account = Account::new();
    account.available = 420024;
    account.held = 240042;

    account.dispute(100000)?;
    assert_eq!(320024, account.available);
    assert_eq!(340042, account.held);
    Ok(())
}

#[test]
fn resolve_increase_available_and_decreases_held() -> Result<(), AccountError> {
    let mut account = Account::new();
    account.available = 420024;
    account.held = 240042;

    account.resolve(100000)?;
    assert_eq!(520024, account.available);
    assert_eq!(140042, account.held);
    Ok(())
}

#[test]
fn chargeback_decreases_total_and_held_and_locks_account() -> Result<(), AccountError> {
    let mut account = Account::new();
    account.total = 235711;
    account.held = 33500;

    account.chargeback(20000)?;
    assert_eq!(215711, account.total);
    assert_eq!(13500, account.held);
    assert_eq!(true, account.locked);
    Ok(())
}
