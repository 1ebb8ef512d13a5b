//! One client's balances, and the state machine that each transaction
//! kind drives.

use vstd::prelude::*;
use crate::transaction::{ClientId, Transaction, TxType};

verus! {

/// One client's account: a balance triple and a lock flag.
///
/// Balances are fixed-point values in ten-thousandths of a currency unit.
/// Every account maintains [`account_wf`]: `total == available + held`.
/// `available` or `held` may go below zero, since a dispute or resolve is
/// applied unconditionally.
#[derive(Debug, Clone, Copy)]
pub struct Account {
    pub client: ClientId,
    pub available: i64,
    pub held: i64,
    pub total: i64,
    pub locked: bool,
}

/// Errors raised while applying a transaction to an account.
#[derive(Debug, PartialEq, Eq, Structural)]
pub enum AccountError {
    /// A withdraw asked for more than the available balance.
    InsufficientFunds,
}

/// The balance equation every account maintains: the total is the
/// available part plus the held part, exactly.
pub open spec fn account_wf(a: Account) -> bool {
    a.total == a.available + a.held
}

/// The account a client starts with: zero balances, unlocked.
pub open spec fn initial_account(client: ClientId) -> Account {
    Account { client, available: 0i64, held: 0i64, total: 0i64, locked: false }
}

/// Whether applying `kind` with `amount` to `a` stays within the `i64`
/// range of the balance fields. This is purely a machine limit: the
/// state machine itself puts no upper bound on balances.
pub open spec fn apply_fits(a: Account, kind: TxType, amount: i64) -> bool {
    match kind {
        TxType::Deposit => a.available + amount <= i64::MAX && a.total + amount <= i64::MAX,
        TxType::Withdraw => amount <= a.available ==> i64::MIN <= a.total - amount,
        TxType::Dispute => i64::MIN <= a.available - amount && a.held + amount <= i64::MAX,
        TxType::Resolve => a.available + amount <= i64::MAX && i64::MIN <= a.held - amount,
        TxType::Chargeback => i64::MIN <= a.held - amount && i64::MIN <= a.total - amount,
    }
}

/// The state machine: what applying `kind` with `amount` to `a` yields.
/// Only a withdraw can fail, when the available balance is short; every
/// other kind is unconditional. A chargeback locks the account, and no
/// kind ever unlocks one.
pub open spec fn apply_outcome(a: Account, kind: TxType, amount: i64) -> Result<
    Account,
    AccountError,
> {
    match kind {
        TxType::Deposit => Ok(
            Account {
                available: (a.available + amount) as i64,
                total: (a.total + amount) as i64,
                ..a
            },
        ),
        TxType::Withdraw => if a.available < amount {
            Err(AccountError::InsufficientFunds)
        } else {
            Ok(
                Account {
                    available: (a.available - amount) as i64,
                    total: (a.total - amount) as i64,
                    ..a
                },
            )
        },
        TxType::Dispute => Ok(
            Account {
                available: (a.available - amount) as i64,
                held: (a.held + amount) as i64,
                ..a
            },
        ),
        TxType::Resolve => Ok(
            Account {
                available: (a.available + amount) as i64,
                held: (a.held - amount) as i64,
                ..a
            },
        ),
        TxType::Chargeback => Ok(
            Account {
                held: (a.held - amount) as i64,
                total: (a.total - amount) as i64,
                locked: true,
                ..a
            },
        ),
    }
}

impl Account {
    /// A fresh account for client 0.
    pub fn new() -> (a: Account)
        ensures
            a == initial_account(0),
    {
        Account { client: 0, available: 0, held: 0, total: 0, locked: false }
    }

    /// A fresh account for the given client.
    pub fn with_client_id(id: ClientId) -> (a: Account)
        ensures
            a == initial_account(id),
    {
        let mut account = Account::new();
        account.client = id;
        account
    }

    /// Whether applying `kind` with `amount` here stays within the `i64`
    /// range of the balance fields: the executable side of [`apply_fits`].
    pub fn fits(&self, kind: TxType, amount: i64) -> (r: bool)
        requires
            0 <= amount,
        ensures
            r == apply_fits(*self, kind, amount),
    {
        match kind {
            TxType::Deposit => self.available.checked_add(amount).is_some()
                && self.total.checked_add(amount).is_some(),
            TxType::Withdraw => if amount <= self.available {
                self.total.checked_sub(amount).is_some()
            } else {
                true
            },
            TxType::Dispute => self.available.checked_sub(amount).is_some()
                && self.held.checked_add(amount).is_some(),
            TxType::Resolve => self.available.checked_add(amount).is_some()
                && self.held.checked_sub(amount).is_some(),
            TxType::Chargeback => self.held.checked_sub(amount).is_some()
                && self.total.checked_sub(amount).is_some(),
        }
    }

    /// Adds the amount to the available and total balances.
    pub fn deposit(&mut self, amount: i64) -> (r: Result<(), AccountError>)
        requires
            0 <= amount,
            apply_fits(*old(self), TxType::Deposit, amount),
        ensures
            r is Ok,
            Ok::<Account, AccountError>(*final(self)) == apply_outcome(
                *old(self),
                TxType::Deposit,
                amount,
            ),
    {
        self.available = self.available + amount;
        self.total = self.total + amount;
        Ok(())
    }

    /// Removes the amount from the available and total balances, unless
    /// the available balance is short of it; then nothing changes.
    pub fn withdraw(&mut self, amount: i64) -> (r: Result<(), AccountError>)
        requires
            0 <= amount,
            apply_fits(*old(self), TxType::Withdraw, amount),
        ensures
            r is Err <==> old(self).available < amount,
            r is Err ==> r == Err::<(), AccountError>(AccountError::InsufficientFunds)
                && *final(self) == *old(self),
            r is Ok ==> Ok::<Account, AccountError>(*final(self)) == apply_outcome(
                *old(self),
                TxType::Withdraw,
                amount,
            ),
    {
        if self.available < amount {
            Err(AccountError::InsufficientFunds)
        } else {
            self.total = self.total - amount;
            self.available = self.available - amount;
            Ok(())
        }
    }

    /// Moves the amount from the available to the held balance.
    pub fn dispute(&mut self, amount: i64) -> (r: Result<(), AccountError>)
        requires
            0 <= amount,
            apply_fits(*old(self), TxType::Dispute, amount),
        ensures
            r is Ok,
            Ok::<Account, AccountError>(*final(self)) == apply_outcome(
                *old(self),
                TxType::Dispute,
                amount,
            ),
    {
        self.available = self.available - amount;
        self.held = self.held + amount;
        Ok(())
    }

    /// Moves the amount back from the held to the available balance.
    pub fn resolve(&mut self, amount: i64) -> (r: Result<(), AccountError>)
        requires
            0 <= amount,
            apply_fits(*old(self), TxType::Resolve, amount),
        ensures
            r is Ok,
            Ok::<Account, AccountError>(*final(self)) == apply_outcome(
                *old(self),
                TxType::Resolve,
                amount,
            ),
    {
        self.available = self.available + amount;
        self.held = self.held - amount;
        Ok(())
    }

    /// Removes the amount from the held and total balances and locks the
    /// account for good.
    pub fn chargeback(&mut self, amount: i64) -> (r: Result<(), AccountError>)
        requires
            0 <= amount,
            apply_fits(*old(self), TxType::Chargeback, amount),
        ensures
            r is Ok,
            Ok::<Account, AccountError>(*final(self)) == apply_outcome(
                *old(self),
                TxType::Chargeback,
                amount,
            ),
    {
        self.held = self.held - amount;
        self.total = self.total - amount;
        self.locked = true;
        Ok(())
    }

    /// Dispatches the transaction to the operation its kind names.
    pub fn try_add(&mut self, tx: &Transaction) -> (r: Result<(), AccountError>)
        requires
            0 <= tx.amount,
            apply_fits(*old(self), tx.tx_type, tx.amount),
        ensures
            match apply_outcome(*old(self), tx.tx_type, tx.amount) {
                Ok(a) => r is Ok && *final(self) == a,
                Err(e) => r == Err::<(), AccountError>(e) && *final(self) == *old(self),
            },
    {
        match tx.tx_type {
            TxType::Deposit => self.deposit(tx.amount),
            TxType::Withdraw => self.withdraw(tx.amount),
            TxType::Dispute => self.dispute(tx.amount),
            TxType::Resolve => self.resolve(tx.amount),
            TxType::Chargeback => self.chargeback(tx.amount),
        }
    }
}

/// Law: every operation that applies preserves the balance equation
/// `total == available + held`.
pub proof fn lemma_apply_preserves_balance_equation(a: Account, kind: TxType, amount: i64)
    requires
        account_wf(a),
        0 <= amount,
        apply_fits(a, kind, amount),
    ensures
        apply_outcome(a, kind, amount) matches Ok(b) ==> account_wf(b),
{
}

/// Law: a resolve undoes a dispute of the same amount exactly; the
/// account comes back to the state it had before the dispute.
pub proof fn lemma_resolve_cancels_dispute(a: Account, amount: i64)
    requires
        0 <= amount,
        apply_fits(a, TxType::Dispute, amount),
    ensures
        apply_outcome(a, TxType::Dispute, amount) is Ok,
        apply_fits(apply_outcome(a, TxType::Dispute, amount)->Ok_0, TxType::Resolve, amount),
        apply_outcome(apply_outcome(a, TxType::Dispute, amount)->Ok_0, TxType::Resolve, amount)
            == Ok::<Account, AccountError>(a),
{
}

} // verus!
