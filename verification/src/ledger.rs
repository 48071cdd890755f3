//! The dispatcher: one account per client, created when the client is first
//! seen, and a stream of transactions routed to them in input order.

use crate::account::{Account, AccountState};
use crate::transaction::Transaction;
use std::collections::hash_map::Entry;
use std::collections::HashMap;
use vstd::prelude::*;

verus! {

broadcast use vstd::std_specs::hash::group_hash_axioms;

/// The account that a transaction of `client` meets: the one on record, or a
/// fresh one where the client has none yet.
pub open spec fn account_of(accounts: Map<u16, AccountState>, client: u16) -> AccountState {
    if accounts.contains_key(client) {
        accounts[client]
    } else {
        AccountState::fresh(client)
    }
}

/// The accounts after `t` has been applied to the account of its client, or
/// `None` where a balance of that account would overflow.
pub open spec fn route(accounts: Map<u16, AccountState>, t: Transaction) -> Option<
    Map<u16, AccountState>,
> {
    match account_of(accounts, t.client).apply(t) {
        Some(next) => Some(accounts.insert(t.client, next)),
        None => None,
    }
}

/// The accounts after every transaction of `ts` has been routed, first to
/// last, or `None` where one of them would overflow a balance.
pub open spec fn route_all(accounts: Map<u16, AccountState>, ts: Seq<Transaction>) -> Option<
    Map<u16, AccountState>,
>
    decreases ts.len(),
{
    if ts.len() == 0 {
        Some(accounts)
    } else {
        match route_all(accounts, ts.drop_last()) {
            Some(before) => route(before, ts.last()),
            None => None,
        }
    }
}

/// A run that is free of overflow is free of overflow at every point.
pub proof fn lemma_route_all_prefix(accounts: Map<u16, AccountState>, ts: Seq<Transaction>, n: int)
    requires
        0 <= n <= ts.len(),
        route_all(accounts, ts) is Some,
    ensures
        route_all(accounts, ts.take(n)) is Some,
    decreases ts.len(),
{
    if n == ts.len() {
        assert(ts.take(n) =~= ts);
    } else {
        assert(ts.drop_last().take(n) =~= ts.take(n));
        lemma_route_all_prefix(accounts, ts.drop_last(), n);
    }
}

/// Every account is well formed and is filed under its own client id.
pub open spec fn accounts_wf(accounts: Map<u16, AccountState>) -> bool {
    forall|client: u16| #[trigger]
        accounts.contains_key(client) ==> accounts[client].wf() && accounts[client].client
            == client
}

/// The accounts of a run, by client id.
///
/// It starts empty and changes only by [`Dispatcher::dispatch`], so every
/// account it holds is well formed and is filed under its own client id.
#[derive(Debug)]
pub struct Dispatcher {
    accounts: HashMap<u16, Account>,
}

impl View for Dispatcher {
    type V = Map<u16, AccountState>;

    closed spec fn view(&self) -> Map<u16, AccountState> {
        self.accounts@.map_values(|a: Account| a@)
    }
}

impl Dispatcher {
    /// Every account is well formed and is filed under its own client id.
    pub open spec fn wf(&self) -> bool {
        accounts_wf(self@)
    }

    /// A dispatcher that has seen no client.
    pub fn new() -> (r: Dispatcher)
        ensures
            r@ == Map::<u16, AccountState>::empty(),
            r.wf(),
    {
        let r = Dispatcher { accounts: HashMap::new() };
        assert(r@ =~= Map::<u16, AccountState>::empty());
        r
    }

    /// How many clients have been seen.
    pub fn len(&self) -> (r: usize)
        ensures
            r == self@.len(),
    {
        proof {
            assert(self@.dom() =~= self.accounts@.dom());
        }
        self.accounts.len()
    }

    /// The account of `client`, if the client has been seen.
    pub fn get(&self, client: u16) -> (r: Option<&Account>)
        ensures
            match r {
                Some(account) => self@.contains_key(client) && account@ == self@[client],
                None => !self@.contains_key(client),
            },
    {
        self.accounts.get(&client)
    }

    /// Hands out the accounts, by client id.
    pub fn into_accounts(self) -> (r: HashMap<u16, Account>)
        ensures
            r@.map_values(|a: Account| a@) == self@,
    {
        self.accounts
    }

    /// Routes `transaction` to the account of its client, which is created
    /// if this is the client's first transaction, and says whether it was
    /// applied. Where a balance would overflow, nothing changes.
    pub fn dispatch(&mut self, transaction: Transaction) -> (applied: bool)
        requires
            old(self).wf(),
            transaction.wf(),
        ensures
            applied == route(old(self)@, transaction).is_some(),
            applied ==> final(self)@ == route(old(self)@, transaction).unwrap(),
            !applied ==> final(self)@ == old(self)@,
            final(self).wf(),
    {
        let client = transaction.client;
        match self.accounts.entry(client) {
            Entry::Vacant(entry) => {
                // Nothing can overflow the balances of an account that holds no funds.
                let mut account = Account::new(client);
                account.process_transaction(transaction);
                entry.insert(account);
                assert(self@ =~= old(self)@.insert(client, account@));
                true
            },
            Entry::Occupied(mut entry) => {
                let applied = entry.get_mut().try_process_transaction(transaction);
                assert(applied ==> self@ =~= old(self)@.insert(client, self.accounts@[client]@));
                assert(!applied ==> self@ =~= old(self)@);
                applied
            },
        }
    }

    /// Routes the transactions in input order and stops before the first one
    /// that would overflow a balance. Returns how many were applied: all of
    /// them exactly when the whole run is free of overflow.
    pub fn dispatch_all(&mut self, transactions: &Vec<Transaction>) -> (applied: usize)
        requires
            old(self).wf(),
            forall|i: int| 0 <= i < transactions@.len() ==> (#[trigger] transactions@[i]).wf(),
        ensures
            applied <= transactions@.len(),
            route_all(old(self)@, transactions@.take(applied as int)) == Some(final(self)@),
            applied < transactions@.len() ==> route(final(self)@, transactions@[applied as int])
                is None,
            (applied == transactions@.len()) == route_all(old(self)@, transactions@).is_some(),
            final(self).wf(),
    {
        let mut i: usize = 0;
        while i < transactions.len()
            invariant
                i <= transactions@.len(),
                self.wf(),
                route_all(old(self)@, transactions@.take(i as int)) == Some(self@),
                forall|k: int| 0 <= k < transactions@.len() ==> (#[trigger] transactions@[k]).wf(),
            decreases transactions@.len() - i,
        {
            let applied = self.dispatch(transactions[i]);
            proof {
                let next = transactions@.take(i + 1);
                assert(next.drop_last() =~= transactions@.take(i as int));
                assert(next.last() == transactions@[i as int]);
            }
            if !applied {
                proof {
                    if route_all(old(self)@, transactions@) is Some {
                        lemma_route_all_prefix(old(self)@, transactions@, i + 1);
                    }
                }
                return i;
            }
            i += 1;
        }
        proof {
            assert(transactions@.take(i as int) =~= transactions@);
        }
        i
    }
}

} // verus!
