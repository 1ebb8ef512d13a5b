//! The ledger: the accepted-transaction history, the set of accounts,
//! and the verification that decides what each incoming transaction does.

use vstd::prelude::*;
use crate::account::{
    Account, AccountError, account_wf, apply_fits, apply_outcome, initial_account,
};
use crate::transaction::{ClientId, Transaction, TransactionError, TxId, TxType};

verus! {

/// The top-level error surface of [`Ledger::try_add`].
#[derive(Debug, PartialEq, Eq, Structural)]
pub enum LedgerError {
    /// Reserved: an unknown reference is currently dropped silently
    /// rather than reported.
    TransactionNotFound,
    /// A deposit or withdraw reused a transaction id already in the
    /// history.
    DuplicateTransaction,
    /// An account refused the transaction.
    AccountError(AccountError),
    /// A raw record could not be turned into a transaction.
    TransactionError(TransactionError),
}

impl From<AccountError> for LedgerError {
    fn from(e: AccountError) -> (r: LedgerError) {
        LedgerError::AccountError(e)
    }
}

impl vstd::std_specs::convert::FromSpecImpl<AccountError> for LedgerError {
    open spec fn obeys_from_spec() -> bool {
        true
    }

    open spec fn from_spec(e: AccountError) -> LedgerError {
        LedgerError::AccountError(e)
    }
}

impl From<TransactionError> for LedgerError {
    fn from(e: TransactionError) -> (r: LedgerError) {
        LedgerError::TransactionError(e)
    }
}

impl vstd::std_specs::convert::FromSpecImpl<TransactionError> for LedgerError {
    open spec fn obeys_from_spec() -> bool {
        true
    }

    open spec fn from_spec(e: TransactionError) -> LedgerError {
        LedgerError::TransactionError(e)
    }
}

/// Whether the kind refers back to an earlier transaction (dispute,
/// resolve, chargeback) rather than introducing a new one.
pub open spec fn is_reference_kind(kind: TxType) -> bool {
    kind == TxType::Dispute || kind == TxType::Resolve || kind == TxType::Chargeback
}

/// The first history entry carrying the given transaction id, if any.
pub open spec fn lookup_tx(history: Seq<Transaction>, id: TxId) -> Option<Transaction>
    decreases history.len(),
{
    if history.len() == 0 {
        None
    } else if history[0].tx == id {
        Some(history[0])
    } else {
        lookup_tx(history.drop_first(), id)
    }
}

/// The position of the account owned by the given client, if any.
pub open spec fn lookup_client(accounts: Seq<Account>, client: ClientId) -> Option<int>
    decreases accounts.len(),
{
    if accounts.len() == 0 {
        None
    } else if accounts[0].client == client {
        Some(0int)
    } else {
        match lookup_client(accounts.drop_first(), client) {
            Some(i) => Some(i + 1),
            None => None,
        }
    }
}

/// What verification decides for an incoming transaction, without
/// touching any state.
///
/// A reference kind resolves against the history: if the id is found,
/// the outcome is the derived transaction, which keeps the incoming
/// kind, id and client but copies the amount from the entry found;
/// if not, the outcome is a silent no-op, not an error. A value kind
/// is accepted unchanged when its id is new, and rejected as a
/// duplicate when any history entry already carries it.
pub open spec fn verify_outcome(history: Seq<Transaction>, tx: Transaction) -> Result<
    Option<Transaction>,
    LedgerError,
> {
    if is_reference_kind(tx.tx_type) {
        match lookup_tx(history, tx.tx) {
            Some(found) => Ok(
                Some(
                    Transaction {
                        tx_type: tx.tx_type,
                        client: tx.client,
                        tx: tx.tx,
                        amount: found.amount,
                    },
                ),
            ),
            None => Ok(None),
        }
    } else {
        match lookup_tx(history, tx.tx) {
            None => Ok(Some(tx)),
            Some(_) => Err(LedgerError::DuplicateTransaction),
        }
    }
}

/// The account a transaction lands on: the client's existing account,
/// or a fresh one if this client has none yet.
pub open spec fn target_account(accounts: Seq<Account>, client: ClientId) -> Account {
    match lookup_client(accounts, client) {
        Some(i) => accounts[i],
        None => initial_account(client),
    }
}

/// What applying an accepted transaction does to the account set: the
/// owning account is updated in place, or appended if the client is new.
/// On failure the set is left as it was.
pub open spec fn accounts_outcome(accounts: Seq<Account>, tx: Transaction) -> Result<
    Seq<Account>,
    AccountError,
> {
    match apply_outcome(target_account(accounts, tx.client), tx.tx_type, tx.amount) {
        Ok(updated) => Ok(
            match lookup_client(accounts, tx.client) {
                Some(i) => accounts.update(i, updated),
                None => accounts.push(updated),
            },
        ),
        Err(e) => Err(e),
    }
}

/// One step of the fold: what [`Ledger::try_add`] does to the history
/// and the account set. Only an accepted transaction changes anything,
/// and it is appended to the history exactly when its application
/// succeeded.
pub open spec fn step_outcome(
    history: Seq<Transaction>,
    accounts: Seq<Account>,
    tx: Transaction,
) -> Result<(Seq<Transaction>, Seq<Account>), LedgerError> {
    match verify_outcome(history, tx) {
        Err(e) => Err(e),
        Ok(None) => Ok((history, accounts)),
        Ok(Some(t)) => match accounts_outcome(accounts, t) {
            Ok(accs) => Ok((history.push(t), accs)),
            Err(e) => Err(LedgerError::AccountError(e)),
        },
    }
}

/// Whether one step stays within the `i64` range of the balance fields;
/// a machine limit, nothing more (see [`apply_fits`]).
pub open spec fn step_fits(
    history: Seq<Transaction>,
    accounts: Seq<Account>,
    tx: Transaction,
) -> bool {
    match verify_outcome(history, tx) {
        Ok(Some(t)) => apply_fits(target_account(accounts, t.client), t.tx_type, t.amount),
        _ => true,
    }
}

/// How [`lookup_tx`] relates to the history entries themselves: it fails
/// exactly when no entry carries the id, and what it finds is an entry
/// carrying the id.
pub proof fn lemma_lookup_tx_properties(history: Seq<Transaction>, id: TxId)
    ensures
        lookup_tx(history, id) is None <==> (forall|j: int|
            0 <= j < history.len() ==> (#[trigger] history[j]).tx != id),
        lookup_tx(history, id) matches Some(t) ==> t.tx == id && (exists|j: int|
            0 <= j < history.len() && history[j] == t),
    decreases history.len(),
{
    if history.len() > 0 && history[0].tx != id {
        let rest = history.drop_first();
        lemma_lookup_tx_properties(rest, id);
        assert(forall|j: int| 0 <= j < rest.len() ==> rest[j] == history[j + 1]);
        if lookup_tx(history, id) is None {
            assert forall|j: int| 0 <= j < history.len() implies (#[trigger] history[j]).tx
                != id by {
                if j > 0 {
                    assert(history[j] == rest[j - 1]);
                }
            }
        } else {
            let t = lookup_tx(rest, id)->Some_0;
            let j = choose|j: int| 0 <= j < rest.len() && rest[j] == t;
            assert(history[j + 1] == t);
        }
    }
}

/// The first match wins: if position `i` carries the id and no earlier
/// position does, the lookup returns the entry at `i`.
pub proof fn lemma_lookup_tx_first(history: Seq<Transaction>, id: TxId, i: int)
    requires
        0 <= i < history.len(),
        history[i].tx == id,
        forall|j: int| 0 <= j < i ==> (#[trigger] history[j]).tx != id,
    ensures
        lookup_tx(history, id) == Some(history[i]),
    decreases i,
{
    if i > 0 {
        let rest = history.drop_first();
        assert(forall|j: int| 0 <= j < rest.len() ==> rest[j] == history[j + 1]);
        assert forall|j: int| 0 <= j < i - 1 implies (#[trigger] rest[j]).tx != id by {
            assert(rest[j] == history[j + 1]);
        }
        lemma_lookup_tx_first(rest, id, i - 1);
    }
}

/// How [`lookup_client`] relates to the account set: it fails exactly
/// when no account belongs to the client, and the position it finds is
/// the first one that does.
pub proof fn lemma_lookup_client_properties(accounts: Seq<Account>, client: ClientId)
    ensures
        lookup_client(accounts, client) is None <==> (forall|j: int|
            0 <= j < accounts.len() ==> (#[trigger] accounts[j]).client != client),
        lookup_client(accounts, client) matches Some(i)
            ==> 0 <= i < accounts.len() && accounts[i].client == client && (forall|j: int|
            0 <= j < i ==> (#[trigger] accounts[j]).client != client),
    decreases accounts.len(),
{
    if accounts.len() > 0 && accounts[0].client != client {
        let rest = accounts.drop_first();
        lemma_lookup_client_properties(rest, client);
        assert(forall|j: int| 0 <= j < rest.len() ==> rest[j] == accounts[j + 1]);
        if lookup_client(accounts, client) is None {
            assert forall|j: int| 0 <= j < accounts.len() implies (#[trigger] accounts[j]).client
                != client by {
                if j > 0 {
                    assert(accounts[j] == rest[j - 1]);
                }
            }
        } else {
            let i = lookup_client(rest, client)->Some_0;
            assert(accounts[i + 1] == rest[i]);
            assert forall|j: int| 0 <= j < i + 1 implies (#[trigger] accounts[j]).client
                != client by {
                if j > 0 {
                    assert(accounts[j] == rest[j - 1]);
                }
            }
        }
    }
}

/// The first match wins, account-set side.
pub proof fn lemma_lookup_client_first(accounts: Seq<Account>, client: ClientId, i: int)
    requires
        0 <= i < accounts.len(),
        accounts[i].client == client,
        forall|j: int| 0 <= j < i ==> (#[trigger] accounts[j]).client != client,
    ensures
        lookup_client(accounts, client) == Some(i),
    decreases i,
{
    if i > 0 {
        let rest = accounts.drop_first();
        assert forall|j: int| 0 <= j < i - 1 implies (#[trigger] rest[j]).client != client by {
            assert(rest[j] == accounts[j + 1]);
        }
        assert(rest[i - 1] == accounts[i]);
        lemma_lookup_client_first(rest, client, i - 1);
    }
}

/// The position of the first history entry carrying the target id, as
/// [`lookup_tx`] describes it.
pub fn find_tx_by(transactions: &Vec<Transaction>, target: TxId) -> (r: Option<usize>)
    ensures
        match r {
            Some(i) => i < transactions@.len() && transactions@[i as int].tx == target
                && lookup_tx(transactions@, target) == Some(transactions@[i as int]),
            None => lookup_tx(transactions@, target) is None,
        },
{
    let mut index: usize = 0;
    while index < transactions.len()
        invariant
            index <= transactions@.len(),
            forall|j: int| 0 <= j < index ==> (#[trigger] transactions@[j]).tx != target,
        decreases transactions@.len() - index,
    {
        if transactions[index].tx == target {
            proof {
                lemma_lookup_tx_first(transactions@, target, index as int);
            }
            return Some(index);
        }
        index = index + 1;
    }
    proof {
        lemma_lookup_tx_properties(transactions@, target);
    }
    None
}

/// The position of the account owned by the target client, as
/// [`lookup_client`] describes it.
pub fn find_account_by(accounts: &Vec<Account>, target: ClientId) -> (r: Option<usize>)
    ensures
        match r {
            Some(i) => i < accounts@.len() && accounts@[i as int].client == target
                && lookup_client(accounts@, target) == Some(i as int),
            None => lookup_client(accounts@, target) is None,
        },
{
    let mut index: usize = 0;
    while index < accounts.len()
        invariant
            index <= accounts@.len(),
            forall|j: int| 0 <= j < index ==> (#[trigger] accounts@[j]).client != target,
        decreases accounts@.len() - index,
    {
        if accounts[index].client == target {
            proof {
                lemma_lookup_client_first(accounts@, target, index as int);
            }
            return Some(index);
        }
        index = index + 1;
    }
    proof {
        lemma_lookup_client_properties(accounts@, target);
    }
    None
}

/// Decides what an incoming transaction does, against the given history:
/// exactly [`verify_outcome`].
pub fn verify(history: &Vec<Transaction>, tx: Transaction) -> (r: Result<
    Option<Transaction>,
    LedgerError,
>)
    ensures
        r == verify_outcome(history@, tx),
{
    match tx.tx_type {
        TxType::Dispute | TxType::Resolve | TxType::Chargeback => {
            match find_tx_by(history, tx.tx) {
                Some(index) => {
                    let reference = history[index];
                    Ok(
                        Some(
                            Transaction {
                                tx_type: tx.tx_type,
                                tx: tx.tx,
                                client: tx.client,
                                amount: reference.amount,
                            },
                        ),
                    )
                },
                None => Ok(None),
            }
        },
        _ => {
            match find_tx_by(history, tx.tx) {
                None => Ok(Some(tx)),
                _ => Err(LedgerError::DuplicateTransaction),
            }
        },
    }
}

/// Applies an accepted transaction to the account set: exactly
/// [`accounts_outcome`]. On failure the set is untouched.
pub fn accounts_try_add(accounts: &mut Vec<Account>, tx: &Transaction) -> (r: Result<
    (),
    AccountError,
>)
    requires
        0 <= tx.amount,
        apply_fits(target_account(old(accounts)@, tx.client), tx.tx_type, tx.amount),
    ensures
        match accounts_outcome(old(accounts)@, *tx) {
            Ok(s) => r is Ok && final(accounts)@ == s,
            Err(e) => r == Err::<(), AccountError>(e) && final(accounts)@ == old(accounts)@,
        },
{
    match find_account_by(accounts, tx.client) {
        Some(index) => {
            let mut account = accounts[index];
            match account.try_add(tx) {
                Ok(()) => {
                    accounts.set(index, account);
                    Ok(())
                },
                Err(e) => Err(e),
            }
        },
        None => {
            let mut account = Account::with_client_id(tx.client);
            match account.try_add(tx) {
                Ok(()) => {
                    accounts.push(account);
                    Ok(())
                },
                Err(e) => Err(e),
            }
        },
    }
}

/// The ledger: every transaction accepted so far, and every account
/// that has received one.
pub struct Ledger {
    transactions: Vec<Transaction>,
    accounts: Vec<Account>,
}

impl Ledger {
    /// The accepted-transaction history, in order of acceptance.
    pub closed spec fn history(&self) -> Seq<Transaction> {
        self.transactions@
    }

    /// The accounts, in order of first appearance of their clients.
    pub closed spec fn accounts(&self) -> Seq<Account> {
        self.accounts@
    }

    /// The ledger's invariant: every account keeps the balance equation
    /// and belongs to a distinct client; every accepted amount is
    /// non-negative; and a value transaction's id is new with respect to
    /// everything accepted before it.
    pub open spec fn wf(&self) -> bool {
        &&& forall|i: int|
            0 <= i < self.accounts().len() ==> account_wf(#[trigger] self.accounts()[i])
        &&& forall|i: int, j: int|
            0 <= i < j < self.accounts().len() ==> (#[trigger] self.accounts()[i]).client != (
            #[trigger] self.accounts()[j]).client
        &&& forall|i: int| 0 <= i < self.history().len() ==> (#[trigger] self.history()[i]).amount
            >= 0
        &&& forall|i: int, j: int|
            0 <= i < j < self.history().len() && !is_reference_kind(
                (#[trigger] self.history()[j]).tx_type,
            ) ==> (#[trigger] self.history()[i]).tx != self.history()[j].tx
    }

    /// An empty ledger.
    pub fn new() -> (l: Ledger)
        ensures
            l.history() == Seq::<Transaction>::empty(),
            l.accounts() == Seq::<Account>::empty(),
            l.wf(),
    {
        Ledger { transactions: Vec::new(), accounts: Vec::new() }
    }

    /// Whether one call of [`Ledger::try_add`] with this transaction
    /// stays within the `i64` range of the balance fields: the
    /// executable side of [`step_fits`]. An unverified caller tests
    /// this before handing the transaction over.
    pub fn can_apply(&self, tx: &Transaction) -> (r: bool)
        requires
            self.wf(),
            0 <= tx.amount,
        ensures
            r == step_fits(self.history(), self.accounts(), *tx),
    {
        match verify(&self.transactions, *tx) {
            Ok(Some(t)) => {
                proof {
                    lemma_lookup_tx_properties(self.transactions@, tx.tx);
                    if is_reference_kind(tx.tx_type) {
                        let found = lookup_tx(self.transactions@, tx.tx)->Some_0;
                        let j = choose|j: int|
                            0 <= j < self.transactions@.len() && self.transactions@[j] == found;
                        assert(self.history()[j].amount >= 0);
                    }
                }
                let base = match find_account_by(&self.accounts, t.client) {
                    Some(index) => self.accounts[index],
                    None => Account::with_client_id(t.client),
                };
                base.fits(t.tx_type, t.amount)
            },
            _ => true,
        }
    }

    /// Verifies one incoming transaction and, if it is accepted, applies
    /// it to the owning account and records it: exactly [`step_outcome`].
    /// On any failure the ledger is left as it was.
    pub fn try_add(&mut self, tx: Transaction) -> (r: Result<(), LedgerError>)
        requires
            old(self).wf(),
            0 <= tx.amount,
            step_fits(old(self).history(), old(self).accounts(), tx),
        ensures
            final(self).wf(),
            match step_outcome(old(self).history(), old(self).accounts(), tx) {
                Ok(next) => r is Ok && final(self).history() == next.0 && final(self).accounts()
                    == next.1,
                Err(e) => r == Err::<(), LedgerError>(e) && final(self).history() == old(
                    self,
                ).history() && final(self).accounts() == old(self).accounts(),
            },
    {
        match verify(&self.transactions, tx) {
            Err(e) => Err(e),
            Ok(None) => Ok(()),
            Ok(Some(t)) => {
                proof {
                    lemma_lookup_tx_properties(self.transactions@, tx.tx);
                    if is_reference_kind(tx.tx_type) {
                        let found = lookup_tx(self.transactions@, tx.tx)->Some_0;
                        let j = choose|j: int|
                            0 <= j < self.transactions@.len() && self.transactions@[j] == found;
                        assert(self.history()[j].amount >= 0);
                    }
                }
                match accounts_try_add(&mut self.accounts, &t) {
                    Err(e) => Err(LedgerError::AccountError(e)),
                    Ok(()) => {
                        self.transactions.push(t);
                        proof {
                            self.lemma_step_preserves_wf(*old(self), tx, t);
                        }
                        Ok(())
                    },
                }
            },
        }
    }

    /// The glue of the preservation argument for [`Ledger::try_add`]:
    /// from the old ledger's invariant to the new one's.
    proof fn lemma_step_preserves_wf(&self, prev: Ledger, tx: Transaction, t: Transaction)
        requires
            prev.wf(),
            0 <= tx.amount,
            step_fits(prev.history(), prev.accounts(), tx),
            verify_outcome(prev.history(), tx) == Ok::<Option<Transaction>, LedgerError>(Some(t)),
            accounts_outcome(prev.accounts(), t) == Ok::<Seq<Account>, AccountError>(
                self.accounts(),
            ),
            self.history() == prev.history().push(t),
            0 <= t.amount,
        ensures
            self.wf(),
    {
        let history = prev.history();
        let accounts = prev.accounts();
        lemma_lookup_tx_properties(history, tx.tx);
        lemma_lookup_client_properties(accounts, t.client);
        let base = target_account(accounts, t.client);
        crate::account::lemma_apply_preserves_balance_equation(base, t.tx_type, t.amount);
        let updated = apply_outcome(base, t.tx_type, t.amount)->Ok_0;
        // the updated account keeps its client and its balance equation,
        // so both account clauses carry over entry by entry
        assert forall|i: int| 0 <= i < self.accounts().len() implies account_wf(
            #[trigger] self.accounts()[i],
        ) by {
            if self.accounts()[i] != updated {
                assert(self.accounts()[i] == accounts[i]);
            }
        }
        assert forall|i: int, j: int| 0 <= i < j < self.accounts().len() implies (
        #[trigger] self.accounts()[i]).client != (#[trigger] self.accounts()[j]).client by {
            match lookup_client(accounts, t.client) {
                Some(k) => {
                    assert(self.accounts() == accounts.update(k, updated));
                    assert(updated.client == accounts[k].client);
                },
                None => {
                    assert(self.accounts() == accounts.push(updated));
                },
            }
        }
        // the recorded amount is the incoming one, or one already in the
        // history, so it is non-negative either way
        assert forall|i: int| 0 <= i < self.history().len() implies (
        #[trigger] self.history()[i]).amount >= 0 by {
            if i < history.len() {
                assert(history[i].amount >= 0);
            }
        }
        // a recorded value transaction's id was checked fresh against the
        // whole history of its time
        assert forall|i: int, j: int|
            0 <= i < j < self.history().len() && !is_reference_kind(
                (#[trigger] self.history()[j]).tx_type,
            ) implies (#[trigger] self.history()[i]).tx != self.history()[j].tx by {
            if j < history.len() {
                assert(history[i].tx != history[j].tx);
            } else {
                assert(self.history()[j] == t);
                if !is_reference_kind(t.tx_type) {
                    assert(lookup_tx(history, tx.tx) is None);
                    assert(history[i].tx != tx.tx);
                }
            }
        }
    }

    /// Read access to the accounts; the order is the order of first
    /// appearance of their clients.
    pub fn accounts_vec(&self) -> (r: &Vec<Account>)
        ensures
            r@ == self.accounts(),
    {
        &self.accounts
    }

    /// Hands the accounts over for rendering, consuming the ledger; the
    /// order is the order of first appearance of their clients.
    pub fn into_accounts(self) -> (r: Vec<Account>)
        ensures
            r@ == self.accounts(),
    {
        let Ledger { transactions: _, accounts } = self;
        accounts
    }
}

/// Law: a reference transaction whose id is nowhere in the history is a
/// no-op — it neither errors nor changes the history or any account.
pub proof fn lemma_unknown_reference_is_noop(
    history: Seq<Transaction>,
    accounts: Seq<Account>,
    tx: Transaction,
)
    requires
        is_reference_kind(tx.tx_type),
        forall|j: int| 0 <= j < history.len() ==> (#[trigger] history[j]).tx != tx.tx,
    ensures
        step_outcome(history, accounts, tx) == Ok::<(Seq<Transaction>, Seq<Account>), LedgerError>(
            (history, accounts),
        ),
{
    lemma_lookup_tx_properties(history, tx.tx);
}

/// Law: a deposit or withdraw whose id some history entry already
/// carries is rejected as a duplicate — and a rejected step changes
/// nothing, as [`Ledger::try_add`] ensures.
pub proof fn lemma_duplicate_value_is_rejected(
    history: Seq<Transaction>,
    accounts: Seq<Account>,
    tx: Transaction,
)
    requires
        !is_reference_kind(tx.tx_type),
        exists|j: int| 0 <= j < history.len() && (#[trigger] history[j]).tx == tx.tx,
    ensures
        step_outcome(history, accounts, tx) == Err::<(Seq<Transaction>, Seq<Account>), LedgerError>(
            LedgerError::DuplicateTransaction,
        ),
{
    lemma_lookup_tx_properties(history, tx.tx);
}

} // verus!
