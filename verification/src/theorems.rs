//! What holds of every account and of every run, proved from the rules of
//! [`AccountState::apply`] and [`route`].

use crate::account::AccountState;
use crate::amount::lemma_less_than_compares_values;
use crate::decimal::{lemma_exact_difference, lemma_exact_sum};
use crate::ledger::{account_of, accounts_wf, route, route_all};
use crate::transaction::{Transaction, TransactionType};
use vstd::prelude::*;

verus! {

/// The account after every transaction of `ts` has been applied, first to
/// last, or `None` where one of them would overflow a balance.
pub open spec fn apply_all(account: AccountState, ts: Seq<Transaction>) -> Option<AccountState>
    decreases ts.len(),
{
    if ts.len() == 0 {
        Some(account)
    } else {
        match apply_all(account, ts.drop_last()) {
            Some(before) => before.apply(ts.last()),
            None => None,
        }
    }
}

/// Whether every transaction of `ts`, applied in turn, is applied without
/// rounding.
pub open spec fn run_is_exact(account: AccountState, ts: Seq<Transaction>) -> bool
    decreases ts.len(),
{
    ts.len() == 0 || (run_is_exact(account, ts.drop_last()) && match apply_all(
        account,
        ts.drop_last(),
    ) {
        Some(before) => before.computes_exactly(ts.last()),
        None => false,
    })
}

/// Whether every transaction of `ts`, routed in turn, is applied to its
/// account without rounding.
pub open spec fn routes_exactly(accounts: Map<u16, AccountState>, ts: Seq<Transaction>) -> bool
    decreases ts.len(),
{
    ts.len() == 0 || (routes_exactly(accounts, ts.drop_last()) && match route_all(
        accounts,
        ts.drop_last(),
    ) {
        Some(before) => account_of(before, ts.last().client).computes_exactly(ts.last()),
        None => false,
    })
}

/// In every account the total is the sum of the available and the held
/// funds.
pub open spec fn all_balanced(accounts: Map<u16, AccountState>) -> bool {
    forall|client: u16| #[trigger] accounts.contains_key(client) ==> accounts[client].balanced()
}

/// A transaction that is applied without rounding keeps the total equal to
/// the sum of the available and the held funds, and keeps every amount
/// representable.
pub proof fn theorem_apply_keeps_balance(account: AccountState, t: Transaction)
    requires
        account.wf(),
        t.wf(),
        account.balanced(),
        account.computes_exactly(t),
    ensures
        account.apply(t) is Some,
        account.apply(t).unwrap().balanced(),
        account.apply(t).unwrap().wf(),
        account.apply(t).unwrap().client == account.client,
{
    let amount = t.amount_or_zero();
    match t.transaction_type {
        TransactionType::deposit => {
            lemma_exact_sum(account.available, amount);
            lemma_exact_sum(account.total, amount);
        },
        TransactionType::withdrawal => {
            if !account.available.less_than(amount) {
                lemma_exact_difference(account.available, amount);
                lemma_exact_difference(account.total, amount);
            }
        },
        TransactionType::dispute => {
            if account.transactions.contains_key(t.tx) {
                let recorded = account.recorded_amount(t.tx);
                lemma_exact_difference(account.available, recorded);
                lemma_exact_sum(account.held, recorded);
            }
        },
        TransactionType::resolve => {
            if account.transactions.contains_key(t.tx) {
                let recorded = account.recorded_amount(t.tx);
                lemma_exact_difference(account.held, recorded);
                lemma_exact_sum(account.available, recorded);
            }
        },
        TransactionType::chargeback => {
            if account.transactions.contains_key(t.tx) {
                let recorded = account.recorded_amount(t.tx);
                lemma_exact_difference(account.held, recorded);
                lemma_exact_difference(account.total, recorded);
            }
        },
    }
}

/// After any run of transactions that are applied without rounding, the
/// total of an account is the sum of its available and its held funds.
pub proof fn theorem_run_keeps_balance(account: AccountState, ts: Seq<Transaction>)
    requires
        account.wf(),
        forall|i: int| 0 <= i < ts.len() ==> (#[trigger] ts[i]).wf(),
        account.balanced(),
        run_is_exact(account, ts),
    ensures
        apply_all(account, ts) is Some,
        apply_all(account, ts).unwrap().balanced(),
        apply_all(account, ts).unwrap().wf(),
    decreases ts.len(),
{
    if ts.len() > 0 {
        theorem_run_keeps_balance(account, ts.drop_last());
        theorem_apply_keeps_balance(apply_all(account, ts.drop_last()).unwrap(), ts.last());
    }
}

/// A dispute, resolve or chargeback that refers to a transaction that the
/// account has not recorded changes nothing: no balance, not the lock, no
/// record.
pub proof fn theorem_unknown_reference_changes_nothing(account: AccountState, t: Transaction)
    requires
        t.transaction_type == TransactionType::dispute || t.transaction_type
            == TransactionType::resolve || t.transaction_type == TransactionType::chargeback,
        !account.transactions.contains_key(t.tx),
    ensures
        account.apply(t) == Some(account),
{
}

/// A withdrawal of more than the available funds changes nothing, and one
/// that is applied without rounding leaves available funds that are not
/// negative.
pub proof fn theorem_withdrawal_never_overdraws(account: AccountState, t: Transaction)
    requires
        account.wf(),
        t.wf(),
        t.transaction_type == TransactionType::withdrawal,
        account.computes_exactly(t),
    ensures
        account.available.value() < t.amount_or_zero().value() ==> account.apply(t) == Some(
            account,
        ),
        account.available.value() >= t.amount_or_zero().value() ==> {
            &&& account.apply(t) is Some
            &&& account.apply(t).unwrap().available.value() == account.available.value()
                - t.amount_or_zero().value()
            &&& account.apply(t).unwrap().available.value() >= 0
            &&& account.apply(t).unwrap().total.value() == account.total.value()
                - t.amount_or_zero().value()
            &&& account.apply(t).unwrap().held == account.held
        },
{
    lemma_less_than_compares_values(account.available, t.amount_or_zero());
    if !account.available.less_than(t.amount_or_zero()) {
        lemma_exact_difference(account.available, t.amount_or_zero());
        lemma_exact_difference(account.total, t.amount_or_zero());
    }
}

/// No transaction unlocks an account, changes its client or forgets a
/// recorded deposit or withdrawal.
pub proof fn theorem_lock_and_history_are_permanent(account: AccountState, t: Transaction)
    requires
        account.apply(t) is Some,
    ensures
        account.locked ==> account.apply(t).unwrap().locked,
        account.apply(t).unwrap().client == account.client,
        forall|tx: u32| #[trigger]
            account.transactions.contains_key(tx) ==> account.apply(
                t,
            ).unwrap().transactions.contains_key(tx),
{
}

/// Records stay where they belong: a transaction is filed under its own id
/// and only in the map of its kind.
pub proof fn theorem_records_stay_in_place(account: AccountState, t: Transaction)
    requires
        account.records_in_place(),
        account.apply(t) is Some,
    ensures
        account.apply(t).unwrap().records_in_place(),
        AccountState::fresh(account.client).records_in_place(),
{
}

/// A dispute, resolve or chargeback moves the amount that was recorded for
/// the transaction it refers to: two such records of one kind that refer to
/// the same transaction leave the same balances and the same lock, whatever
/// amounts they carry themselves.
pub proof fn theorem_reference_ignores_own_amount(
    account: AccountState,
    t: Transaction,
    u: Transaction,
)
    requires
        t.transaction_type == TransactionType::dispute || t.transaction_type
            == TransactionType::resolve || t.transaction_type == TransactionType::chargeback,
        u.transaction_type == t.transaction_type,
        u.tx == t.tx,
    ensures
        account.apply(t) is Some <==> account.apply(u) is Some,
        account.apply(t) is Some ==> {
            &&& account.apply(t).unwrap().available == account.apply(u).unwrap().available
            &&& account.apply(t).unwrap().held == account.apply(u).unwrap().held
            &&& account.apply(t).unwrap().total == account.apply(u).unwrap().total
            &&& account.apply(t).unwrap().locked == account.apply(u).unwrap().locked
            &&& account.apply(t).unwrap().transactions == account.apply(u).unwrap().transactions
        },
{
}

/// A dispute of a recorded transaction followed by its resolve, both applied
/// without rounding, brings the three balances back to the numbers they
/// were, and neither step touches the total.
pub proof fn theorem_dispute_then_resolve_restores(
    account: AccountState,
    dispute: Transaction,
    resolve: Transaction,
)
    requires
        account.wf(),
        dispute.transaction_type == TransactionType::dispute,
        resolve.transaction_type == TransactionType::resolve,
        dispute.tx == resolve.tx,
        account.transactions.contains_key(dispute.tx),
        account.computes_exactly(dispute),
        account.apply(dispute) is Some ==> account.apply(dispute).unwrap().computes_exactly(
            resolve,
        ),
    ensures
        account.apply(dispute) is Some,
        account.apply(dispute).unwrap().total == account.total,
        account.apply(dispute).unwrap().held.value() == account.held.value()
            + account.recorded_amount(dispute.tx).value(),
        account.apply(dispute).unwrap().apply(resolve) is Some,
        account.apply(dispute).unwrap().apply(resolve).unwrap().total == account.total,
        account.apply(dispute).unwrap().apply(resolve).unwrap().available.value()
            == account.available.value(),
        account.apply(dispute).unwrap().apply(resolve).unwrap().held.value()
            == account.held.value(),
        account.apply(dispute).unwrap().apply(resolve).unwrap().locked == account.locked,
{
    let recorded = account.recorded_amount(dispute.tx);
    lemma_exact_difference(account.available, recorded);
    lemma_exact_sum(account.held, recorded);
    let disputed = account.apply(dispute).unwrap();
    assert(disputed.recorded_amount(resolve.tx) == recorded);
    lemma_exact_difference(disputed.held, recorded);
    lemma_exact_sum(disputed.available, recorded);
}

/// A dispute of a recorded transaction followed by its chargeback, both
/// applied without rounding, takes the recorded amount out of the available
/// funds and out of the total, leaves the held funds at the number they
/// were, and locks the account.
pub proof fn theorem_dispute_then_chargeback_removes(
    account: AccountState,
    dispute: Transaction,
    chargeback: Transaction,
)
    requires
        account.wf(),
        dispute.transaction_type == TransactionType::dispute,
        chargeback.transaction_type == TransactionType::chargeback,
        dispute.tx == chargeback.tx,
        account.transactions.contains_key(dispute.tx),
        account.computes_exactly(dispute),
        account.apply(dispute) is Some ==> account.apply(dispute).unwrap().computes_exactly(
            chargeback,
        ),
    ensures
        account.apply(dispute) is Some,
        account.apply(dispute).unwrap().apply(chargeback) is Some,
        account.apply(dispute).unwrap().apply(chargeback).unwrap().available.value()
            == account.available.value() - account.recorded_amount(dispute.tx).value(),
        account.apply(dispute).unwrap().apply(chargeback).unwrap().held.value()
            == account.held.value(),
        account.apply(dispute).unwrap().apply(chargeback).unwrap().total.value()
            == account.total.value() - account.recorded_amount(dispute.tx).value(),
        account.apply(dispute).unwrap().apply(chargeback).unwrap().locked,
{
    let recorded = account.recorded_amount(dispute.tx);
    lemma_exact_difference(account.available, recorded);
    lemma_exact_sum(account.held, recorded);
    let disputed = account.apply(dispute).unwrap();
    assert(disputed.recorded_amount(chargeback.tx) == recorded);
    lemma_exact_difference(disputed.held, recorded);
    lemma_exact_difference(disputed.total, recorded);
}

/// Routing a transaction changes the account of its client and no other.
pub proof fn theorem_route_touches_one_account(accounts: Map<u16, AccountState>, t: Transaction)
    requires
        route(accounts, t) is Some,
    ensures
        route(accounts, t).unwrap().contains_key(t.client),
        route(accounts, t).unwrap()[t.client] == account_of(accounts, t.client).apply(t).unwrap(),
        forall|client: u16|
            client != t.client ==> {
                &&& #[trigger] route(accounts, t).unwrap().contains_key(client)
                    == accounts.contains_key(client)
                &&& route(accounts, t).unwrap()[client] == accounts[client]
            },
{
}

/// Routing a transaction that is applied without rounding keeps every
/// account balanced and well formed.
pub proof fn theorem_route_keeps_balance(accounts: Map<u16, AccountState>, t: Transaction)
    requires
        accounts_wf(accounts),
        all_balanced(accounts),
        t.wf(),
        account_of(accounts, t.client).computes_exactly(t),
    ensures
        route(accounts, t) is Some,
        all_balanced(route(accounts, t).unwrap()),
        accounts_wf(route(accounts, t).unwrap()),
{
    theorem_apply_keeps_balance(account_of(accounts, t.client), t);
}

/// After any run of transactions that are applied without rounding, every
/// account is balanced and well formed.
pub proof fn theorem_route_all_keeps_balance(accounts: Map<u16, AccountState>, ts: Seq<Transaction>)
    requires
        accounts_wf(accounts),
        all_balanced(accounts),
        forall|i: int| 0 <= i < ts.len() ==> (#[trigger] ts[i]).wf(),
        routes_exactly(accounts, ts),
    ensures
        route_all(accounts, ts) is Some,
        all_balanced(route_all(accounts, ts).unwrap()),
        accounts_wf(route_all(accounts, ts).unwrap()),
    decreases ts.len(),
{
    if ts.len() > 0 {
        theorem_route_all_keeps_balance(accounts, ts.drop_last());
        theorem_route_keeps_balance(route_all(accounts, ts.drop_last()).unwrap(), ts.last());
    }
}

} // verus!
