//! The transaction record: the unit of input.

use crate::amount::Amount;
use vstd::prelude::*;

verus! {

/// What a transaction asks for.
#[allow(non_camel_case_types)]
#[derive(Clone, Copy, Debug, PartialEq, Eq, Structural)]
pub enum TransactionType {
    deposit,
    withdrawal,
    dispute,
    resolve,
    chargeback,
}

/// One record of the input stream.
///
/// `amount` is read for deposits and withdrawals only. A dispute, resolve or
/// chargeback refers to an earlier transaction by `tx` and moves the amount
/// that was recorded for it, whatever its own `amount` holds.
#[derive(Clone, Copy, Debug)]
pub struct Transaction {
    pub transaction_type: TransactionType,
    pub client: u16,
    pub tx: u32,
    pub amount: Option<Amount>,
}

impl Transaction {
    /// The amount, if there is one, is representable.
    pub open spec fn wf(self) -> bool {
        self.amount matches Some(a) ==> a.wf()
    }

    /// The amount of the record, zero where it has none.
    pub open spec fn amount_or_zero(self) -> Amount {
        match self.amount {
            Some(a) => a,
            None => Amount::zero_spec(),
        }
    }

    /// The amount of the record, zero where it has none.
    pub fn amount_or_default(&self) -> (r: Amount)
        ensures
            r == self.amount_or_zero(),
    {
        match self.amount {
            Some(a) => a,
            None => Amount::zero(),
        }
    }
}

} // verus!
