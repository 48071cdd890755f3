//! The account ledger of one client and the rules by which a transaction
//! changes it.

use crate::amount::Amount;
use crate::decimal::{
    checked_difference, checked_sum, decimal_add, decimal_lt, decimal_sub, difference_is_exact,
    sum_is_exact,
};
use crate::transaction::{Transaction, TransactionType};
use std::collections::HashMap;
use vstd::prelude::*;

verus! {

broadcast use vstd::std_specs::hash::group_hash_axioms;

/// The ledger of one client.
///
/// `transactions` holds every deposit and withdrawal that was applied, by
/// transaction id. The other three maps record which ids were disputed,
/// resolved and charged back; no rule reads them.
#[derive(Debug)]
pub struct Account {
    pub client: u16,
    pub available: Amount,
    pub held: Amount,
    pub total: Amount,
    pub locked: bool,
    pub transactions: HashMap<u32, Transaction>,
    pub disputed_transactions: HashMap<u32, Transaction>,
    pub resolved_transactions: HashMap<u32, Transaction>,
    pub chargeback_transactions: HashMap<u32, Transaction>,
}

/// An account as a mathematical value: its balances, its lock and its four
/// records as maps.
pub struct AccountState {
    pub client: u16,
    pub available: Amount,
    pub held: Amount,
    pub total: Amount,
    pub locked: bool,
    pub transactions: Map<u32, Transaction>,
    pub disputed_transactions: Map<u32, Transaction>,
    pub resolved_transactions: Map<u32, Transaction>,
    pub chargeback_transactions: Map<u32, Transaction>,
}

impl AccountState {
    /// An account without funds or history.
    pub open spec fn fresh(client: u16) -> AccountState {
        AccountState {
            client,
            available: Amount::zero_spec(),
            held: Amount::zero_spec(),
            total: Amount::zero_spec(),
            locked: false,
            transactions: Map::empty(),
            disputed_transactions: Map::empty(),
            resolved_transactions: Map::empty(),
            chargeback_transactions: Map::empty(),
        }
    }

    /// The balances and every recorded deposit and withdrawal hold
    /// representable amounts.
    pub open spec fn wf(self) -> bool {
        &&& self.available.wf()
        &&& self.held.wf()
        &&& self.total.wf()
        &&& forall|tx: u32| #[trigger]
            self.transactions.contains_key(tx) ==> self.transactions[tx].wf()
    }

    /// The total is the sum of the available and the held funds.
    pub open spec fn balanced(self) -> bool {
        self.total.value() == self.available.value() + self.held.value()
    }

    /// Every record is filed under its own transaction id and in the map of
    /// its kind: deposits and withdrawals in `transactions`, and disputes,
    /// resolves and chargebacks each in the map named after them.
    pub open spec fn records_in_place(self) -> bool {
        &&& forall|tx: u32| #[trigger]
            self.transactions.contains_key(tx) ==> {
                &&& self.transactions[tx].tx == tx
                &&& (self.transactions[tx].transaction_type == TransactionType::deposit
                    || self.transactions[tx].transaction_type == TransactionType::withdrawal)
            }
        &&& forall|tx: u32| #[trigger]
            self.disputed_transactions.contains_key(tx) ==> {
                &&& self.disputed_transactions[tx].tx == tx
                &&& self.disputed_transactions[tx].transaction_type == TransactionType::dispute
            }
        &&& forall|tx: u32| #[trigger]
            self.resolved_transactions.contains_key(tx) ==> {
                &&& self.resolved_transactions[tx].tx == tx
                &&& self.resolved_transactions[tx].transaction_type == TransactionType::resolve
            }
        &&& forall|tx: u32| #[trigger]
            self.chargeback_transactions.contains_key(tx) ==> {
                &&& self.chargeback_transactions[tx].tx == tx
                &&& self.chargeback_transactions[tx].transaction_type
                    == TransactionType::chargeback
            }
    }

    /// The amount recorded for the deposit or withdrawal `tx`.
    pub open spec fn recorded_amount(self, tx: u32) -> Amount {
        self.transactions[tx].amount_or_zero()
    }

    /// A deposit adds its amount to the available funds and to the total and
    /// is recorded.
    pub open spec fn deposit(self, t: Transaction) -> Option<AccountState> {
        match (
            checked_sum(self.available, t.amount_or_zero()),
            checked_sum(self.total, t.amount_or_zero()),
        ) {
            (Some(available), Some(total)) => Some(
                AccountState {
                    available,
                    total,
                    transactions: self.transactions.insert(t.tx, t),
                    ..self
                },
            ),
            _ => None,
        }
    }

    /// A withdrawal that the available funds cover takes its amount from them
    /// and from the total and is recorded. Any other withdrawal changes
    /// nothing.
    pub open spec fn withdrawal(self, t: Transaction) -> Option<AccountState> {
        if self.available.less_than(t.amount_or_zero()) {
            Some(self)
        } else {
            match (
                checked_difference(self.available, t.amount_or_zero()),
                checked_difference(self.total, t.amount_or_zero()),
            ) {
                (Some(available), Some(total)) => Some(
                    AccountState {
                        available,
                        total,
                        transactions: self.transactions.insert(t.tx, t),
                        ..self
                    },
                ),
                _ => None,
            }
        }
    }

    /// A dispute of a recorded transaction moves the recorded amount from the
    /// available to the held funds. A dispute of an unknown id changes
    /// nothing.
    pub open spec fn dispute(self, t: Transaction) -> Option<AccountState> {
        if !self.transactions.contains_key(t.tx) {
            Some(self)
        } else {
            match (
                checked_difference(self.available, self.recorded_amount(t.tx)),
                checked_sum(self.held, self.recorded_amount(t.tx)),
            ) {
                (Some(available), Some(held)) => Some(
                    AccountState {
                        available,
                        held,
                        disputed_transactions: self.disputed_transactions.insert(t.tx, t),
                        ..self
                    },
                ),
                _ => None,
            }
        }
    }

    /// A resolve of a recorded transaction moves the recorded amount from the
    /// held back to the available funds. A resolve of an unknown id changes
    /// nothing.
    pub open spec fn resolve(self, t: Transaction) -> Option<AccountState> {
        if !self.transactions.contains_key(t.tx) {
            Some(self)
        } else {
            match (
                checked_difference(self.held, self.recorded_amount(t.tx)),
                checked_sum(self.available, self.recorded_amount(t.tx)),
            ) {
                (Some(held), Some(available)) => Some(
                    AccountState {
                        available,
                        held,
                        resolved_transactions: self.resolved_transactions.insert(t.tx, t),
                        ..self
                    },
                ),
                _ => None,
            }
        }
    }

    /// A chargeback of a recorded transaction removes the recorded amount
    /// from the held funds and from the total and locks the account. A
    /// chargeback of an unknown id changes nothing.
    pub open spec fn chargeback(self, t: Transaction) -> Option<AccountState> {
        if !self.transactions.contains_key(t.tx) {
            Some(self)
        } else {
            match (
                checked_difference(self.held, self.recorded_amount(t.tx)),
                checked_difference(self.total, self.recorded_amount(t.tx)),
            ) {
                (Some(held), Some(total)) => Some(
                    AccountState {
                        held,
                        total,
                        locked: true,
                        chargeback_transactions: self.chargeback_transactions.insert(t.tx, t),
                        ..self
                    },
                ),
                _ => None,
            }
        }
    }

    /// Whether `t` is applied without rounding: the two balances that it
    /// moves, if it moves any, fit in 96 bits at the scale they are computed
    /// at.
    pub open spec fn computes_exactly(self, t: Transaction) -> bool {
        match t.transaction_type {
            TransactionType::deposit => {
                &&& sum_is_exact(self.available, t.amount_or_zero())
                &&& sum_is_exact(self.total, t.amount_or_zero())
            },
            TransactionType::withdrawal => {
                ||| self.available.less_than(t.amount_or_zero())
                ||| {
                    &&& difference_is_exact(self.available, t.amount_or_zero())
                    &&& difference_is_exact(self.total, t.amount_or_zero())
                }
            },
            TransactionType::dispute => {
                ||| !self.transactions.contains_key(t.tx)
                ||| {
                    &&& difference_is_exact(self.available, self.recorded_amount(t.tx))
                    &&& sum_is_exact(self.held, self.recorded_amount(t.tx))
                }
            },
            TransactionType::resolve => {
                ||| !self.transactions.contains_key(t.tx)
                ||| {
                    &&& difference_is_exact(self.held, self.recorded_amount(t.tx))
                    &&& sum_is_exact(self.available, self.recorded_amount(t.tx))
                }
            },
            TransactionType::chargeback => {
                ||| !self.transactions.contains_key(t.tx)
                ||| {
                    &&& difference_is_exact(self.held, self.recorded_amount(t.tx))
                    &&& difference_is_exact(self.total, self.recorded_amount(t.tx))
                }
            },
        }
    }

    /// The account after `t`, or `None` where a balance would overflow.
    pub open spec fn apply(self, t: Transaction) -> Option<AccountState> {
        match t.transaction_type {
            TransactionType::deposit => self.deposit(t),
            TransactionType::withdrawal => self.withdrawal(t),
            TransactionType::dispute => self.dispute(t),
            TransactionType::resolve => self.resolve(t),
            TransactionType::chargeback => self.chargeback(t),
        }
    }
}

impl View for Account {
    type V = AccountState;

    open spec fn view(&self) -> AccountState {
        AccountState {
            client: self.client,
            available: self.available,
            held: self.held,
            total: self.total,
            locked: self.locked,
            transactions: self.transactions@,
            disputed_transactions: self.disputed_transactions@,
            resolved_transactions: self.resolved_transactions@,
            chargeback_transactions: self.chargeback_transactions@,
        }
    }
}

impl Clone for Account {
    fn clone(&self) -> (r: Account)
        ensures
            r@ == self@,
    {
        Account {
            client: self.client,
            available: self.available,
            held: self.held,
            total: self.total,
            locked: self.locked,
            transactions: self.transactions.clone(),
            disputed_transactions: self.disputed_transactions.clone(),
            resolved_transactions: self.resolved_transactions.clone(),
            chargeback_transactions: self.chargeback_transactions.clone(),
        }
    }
}

impl Account {
    /// The balances and every recorded deposit and withdrawal hold
    /// representable amounts.
    pub open spec fn wf(&self) -> bool {
        self@.wf()
    }

    /// An account without funds or history.
    pub fn new(client: u16) -> (r: Account)
        ensures
            r@ == AccountState::fresh(client),
            r.wf(),
    {
        Account {
            client,
            available: Amount::zero(),
            held: Amount::zero(),
            total: Amount::zero(),
            locked: false,
            transactions: HashMap::new(),
            disputed_transactions: HashMap::new(),
            resolved_transactions: HashMap::new(),
            chargeback_transactions: HashMap::new(),
        }
    }

    /// Whether a deposit or withdrawal with this id has been recorded.
    pub fn transaction_exists(&self, tx: &u32) -> (r: bool)
        ensures
            r == self@.transactions.contains_key(*tx),
    {
        self.transactions.contains_key(tx)
    }

    /// The amount recorded for `tx`, which must have been recorded.
    fn recorded(&self, tx: u32) -> (r: Amount)
        requires
            self.wf(),
            self@.transactions.contains_key(tx),
        ensures
            r == self@.recorded_amount(tx),
            r.wf(),
    {
        match self.transactions.get(&tx) {
            Some(t) => t.amount_or_default(),
            None => Amount::zero(),
        }
    }

    /// Whether `transaction` can be applied without a balance overflowing.
    pub fn can_process(&self, transaction: &Transaction) -> (r: bool)
        requires
            self.wf(),
            transaction.wf(),
        ensures
            r == self@.apply(*transaction).is_some(),
    {
        let tx = transaction.tx;
        let amount = transaction.amount_or_default();
        match transaction.transaction_type {
            TransactionType::deposit => {
                let available = decimal_add(self.available, amount);
                let total = decimal_add(self.total, amount);
                available.is_some() && total.is_some()
            },
            TransactionType::withdrawal => {
                if decimal_lt(self.available, amount) {
                    return true;
                }
                let available = decimal_sub(self.available, amount);
                let total = decimal_sub(self.total, amount);
                available.is_some() && total.is_some()
            },
            TransactionType::dispute => {
                if !self.transaction_exists(&tx) {
                    return true;
                }
                let disputed = self.recorded(tx);
                let available = decimal_sub(self.available, disputed);
                let held = decimal_add(self.held, disputed);
                available.is_some() && held.is_some()
            },
            TransactionType::resolve => {
                if !self.transaction_exists(&tx) {
                    return true;
                }
                let resolved = self.recorded(tx);
                let held = decimal_sub(self.held, resolved);
                let available = decimal_add(self.available, resolved);
                held.is_some() && available.is_some()
            },
            TransactionType::chargeback => {
                if !self.transaction_exists(&tx) {
                    return true;
                }
                let charged = self.recorded(tx);
                let held = decimal_sub(self.held, charged);
                let total = decimal_sub(self.total, charged);
                held.is_some() && total.is_some()
            },
        }
    }

    /// Applies `transaction` if no balance overflows, and says whether it
    /// did. An account that cannot take the transaction is left as it was.
    pub fn try_process_transaction(&mut self, transaction: Transaction) -> (applied: bool)
        requires
            old(self).wf(),
            transaction.wf(),
        ensures
            applied == old(self)@.apply(transaction).is_some(),
            applied ==> final(self)@ == old(self)@.apply(transaction).unwrap(),
            !applied ==> *final(self) == *old(self),
            final(self).wf(),
    {
        if self.can_process(&transaction) {
            self.process_transaction(transaction);
            true
        } else {
            false
        }
    }

    /// Applies `transaction` to the account.
    ///
    /// The caller has to know that no balance overflows;
    /// [`Account::try_process_transaction`] asks for nothing of the kind.
    pub fn process_transaction(&mut self, transaction: Transaction)
        requires
            old(self).wf(),
            transaction.wf(),
            old(self)@.apply(transaction) is Some,
        ensures
            final(self)@ == old(self)@.apply(transaction).unwrap(),
            final(self).wf(),
    {
        let tx = transaction.tx;
        let amount = transaction.amount_or_default();
        match transaction.transaction_type {
            TransactionType::deposit => {
                let available = decimal_add(self.available, amount);
                let total = decimal_add(self.total, amount);
                self.available = available.unwrap();
                self.total = total.unwrap();
                self.transactions.insert(tx, transaction);
            },
            TransactionType::withdrawal => {
                if decimal_lt(self.available, amount) {
                    return;
                }
                let available = decimal_sub(self.available, amount);
                let total = decimal_sub(self.total, amount);
                self.available = available.unwrap();
                self.total = total.unwrap();
                self.transactions.insert(tx, transaction);
            },
            TransactionType::dispute => {
                if !self.transaction_exists(&tx) {
                    return;
                }
                let disputed = self.recorded(tx);
                let available = decimal_sub(self.available, disputed);
                let held = decimal_add(self.held, disputed);
                self.available = available.unwrap();
                self.held = held.unwrap();
                self.disputed_transactions.insert(tx, transaction);
            },
            TransactionType::resolve => {
                if !self.transaction_exists(&tx) {
                    return;
                }
                let resolved = self.recorded(tx);
                let held = decimal_sub(self.held, resolved);
                let available = decimal_add(self.available, resolved);
                self.held = held.unwrap();
                self.available = available.unwrap();
                self.resolved_transactions.insert(tx, transaction);
            },
            TransactionType::chargeback => {
                if !self.transaction_exists(&tx) {
                    return;
                }
                let charged = self.recorded(tx);
                let held = decimal_sub(self.held, charged);
                let total = decimal_sub(self.total, charged);
                self.held = held.unwrap();
                self.total = total.unwrap();
                self.locked = true;
                self.chargeback_transactions.insert(tx, transaction);
            },
        }
    }
}

} // verus!
