use account_ledger::account::Account;
use account_ledger::amount::{Amount, MAX_MANTISSA};
use account_ledger::ledger::Dispatcher;
use account_ledger::transaction::{Transaction, TransactionType};
use rust_decimal::Decimal;

fn dec(mantissa: i64, scale: u32) -> Option<Amount> {
    Some(Amount { mantissa: mantissa as i128, scale })
}

fn decimal(a: Amount) -> Decimal {
    Decimal::from_i128_with_scale(a.mantissa, a.scale)
}

fn row(transaction_type: TransactionType, client: u16, tx: u32, amount: Option<Amount>) -> Transaction {
    Transaction { transaction_type, client, tx, amount }
}

/// Four clients in one input: deposits and withdrawals only, an open
/// dispute, a resolved dispute and a chargeback.
fn sample_rows() -> Vec<Transaction> {
    vec![
        row(TransactionType::deposit, 1, 1, dec(10, 1)),
        row(TransactionType::deposit, 2, 2, dec(90, 1)),
        row(TransactionType::deposit, 1, 3, dec(20, 1)),
        row(TransactionType::withdrawal, 1, 4, dec(15, 1)),
        row(TransactionType::deposit, 2, 5, dec(60, 1)),
        row(TransactionType::deposit, 1, 6, dec(52599, 4)),
        row(TransactionType::dispute, 2, 5, None),
        row(TransactionType::deposit, 3, 7, dec(90, 1)),
        row(TransactionType::deposit, 3, 8, dec(60, 1)),
        row(TransactionType::dispute, 3, 8, None),
        row(TransactionType::resolve, 3, 8, None),
        row(TransactionType::deposit, 4, 9, dec(90, 1)),
        row(TransactionType::deposit, 4, 10, dec(60, 1)),
        row(TransactionType::dispute, 4, 10, None),
        row(TransactionType::chargeback, 4, 10, None),
    ]
}

fn get_test_data() -> Dispatcher {
    let rows = sample_rows();
    let mut dispatcher = Dispatcher::new();
    assert_eq!(dispatcher.dispatch_all(&rows), rows.len());
    dispatcher
}

#[test]
fn test_csv_add_deposits_and_withdrawals() {
    let test_accounts_map = get_test_data();
    assert_eq!(decimal(test_accounts_map.get(1).unwrap().available), Decimal::new(67599, 4));
}

#[test]
fn test_csv_dispute() {
    let test_accounts_map = get_test_data();
    assert_eq!(decimal(test_accounts_map.get(2).unwrap().available), Decimal::new(90, 1));
    assert_eq!(decimal(test_accounts_map.get(2).unwrap().held), Decimal::new(60, 1));
    assert_eq!(decimal(test_accounts_map.get(2).unwrap().total), Decimal::new(150, 1));
}

#[test]
fn test_csv_resolve() {
    let test_accounts_map = get_test_data();
    assert_eq!(decimal(test_accounts_map.get(3).unwrap().available), Decimal::new(150, 1));
    assert_eq!(decimal(test_accounts_map.get(3).unwrap().held), Decimal::new(0, 1));
    assert_eq!(decimal(test_accounts_map.get(3).unwrap().total), Decimal::new(150, 1));
}

#[test]
fn test_csv_chargeback() {
    let test_accounts_map = get_test_data();
    assert_eq!(decimal(test_accounts_map.get(4).unwrap().available), Decimal::new(90, 1));
    assert_eq!(decimal(test_accounts_map.get(4).unwrap().held), Decimal::new(0, 1));
    assert_eq!(decimal(test_accounts_map.get(4).unwrap().total), Decimal::new(90, 1));
    assert!(test_accounts_map.get(4).unwrap().locked);
}

#[test]
fn test_parse_csv_data_not_empty() {
    let test_accounts_map = get_test_data();
    assert_ne!(test_accounts_map.len(), 0);
}

#[test]
fn test_parse_csv_data_contents() {
    let test_accounts_map = get_test_data();
    assert_eq!(test_accounts_map.get(1).unwrap().transactions.len(), 4);
    assert_eq!(test_accounts_map.get(2).unwrap().transactions.len(), 2);
    assert_eq!(test_accounts_map.get(2).unwrap().disputed_transactions.len(), 1);
}

#[test]
fn four_clients_end_as_written() {
    let d = get_test_data();
    assert_eq!(d.len(), 4);
    let one = d.get(1).unwrap();
    assert_eq!(one.available, Amount { mantissa: 67599, scale: 4 });
    assert_eq!(one.held, Amount { mantissa: 0, scale: 0 });
    assert_eq!(one.total, Amount { mantissa: 67599, scale: 4 });
    assert!(!one.locked);
    let two = d.get(2).unwrap();
    assert_eq!(two.available, Amount { mantissa: 90, scale: 1 });
    assert_eq!(two.held, Amount { mantissa: 60, scale: 1 });
    assert_eq!(two.total, Amount { mantissa: 150, scale: 1 });
    assert!(!two.locked);
    let three = d.get(3).unwrap();
    assert_eq!(three.available, Amount { mantissa: 150, scale: 1 });
    assert_eq!(three.held, Amount { mantissa: 0, scale: 1 });
    assert_eq!(three.total, Amount { mantissa: 150, scale: 1 });
    assert!(!three.locked);
    assert_eq!(three.resolved_transactions.len(), 1);
    let four = d.get(4).unwrap();
    assert_eq!(four.available, Amount { mantissa: 90, scale: 1 });
    assert_eq!(four.held, Amount { mantissa: 0, scale: 1 });
    assert_eq!(four.total, Amount { mantissa: 90, scale: 1 });
    assert!(four.locked);
    assert_eq!(four.chargeback_transactions.len(), 1);
    assert!(d.get(5).is_none());
}

#[test]
fn every_account_stays_balanced_through_the_run() {
    let mut d = Dispatcher::new();
    for t in sample_rows() {
        assert!(d.dispatch(t));
        for client in 1..=4u16 {
            if let Some(account) = d.get(client) {
                assert_eq!(client, account.client);
                assert_eq!(
                    decimal(account.total),
                    decimal(account.available).checked_add(decimal(account.held)).unwrap()
                );
            }
        }
    }
    let accounts = d.into_accounts();
    assert_eq!(accounts.len(), 4);
    for (client, account) in accounts.iter() {
        assert_eq!(*client, account.client);
        assert_eq!(
            decimal(account.total),
            decimal(account.available).checked_add(decimal(account.held)).unwrap()
        );
    }
}

#[test]
fn new_dispatcher_knows_no_client() {
    let d = Dispatcher::new();
    assert_eq!(d.len(), 0);
    assert!(d.get(0).is_none());
    assert!(d.into_accounts().is_empty());
}

#[test]
fn first_transaction_of_a_client_creates_its_account() {
    let mut d = Dispatcher::new();
    assert!(d.dispatch(row(TransactionType::deposit, 7, 1, dec(125, 2))));
    assert_eq!(d.len(), 1);
    let a = d.get(7).unwrap();
    assert_eq!(a.client, 7);
    assert_eq!(a.available, Amount { mantissa: 125, scale: 2 });
    assert_eq!(a.total, Amount { mantissa: 125, scale: 2 });
    assert!(a.transaction_exists(&1));
}

#[test]
fn ignored_first_transaction_still_creates_the_account() {
    let mut d = Dispatcher::new();
    assert!(d.dispatch(row(TransactionType::chargeback, 9, 1, None)));
    assert!(d.dispatch(row(TransactionType::withdrawal, 10, 2, dec(1, 0))));
    assert_eq!(d.len(), 2);
    for client in [9u16, 10u16] {
        let a = d.get(client).unwrap();
        assert_eq!(a.client, client);
        assert_eq!(a.available, Amount { mantissa: 0, scale: 0 });
        assert_eq!(a.held, Amount { mantissa: 0, scale: 0 });
        assert_eq!(a.total, Amount { mantissa: 0, scale: 0 });
        assert!(!a.locked);
        assert!(a.transactions.is_empty());
    }
}

#[test]
fn a_transaction_reaches_only_the_account_of_its_client() {
    let mut d = Dispatcher::new();
    assert!(d.dispatch(row(TransactionType::deposit, 1, 1, dec(5, 0))));
    assert!(d.dispatch(row(TransactionType::deposit, 2, 2, dec(7, 0))));
    // Client 2 cannot dispute a deposit of client 1.
    assert!(d.dispatch(row(TransactionType::dispute, 2, 1, None)));
    assert_eq!(d.get(1).unwrap().available, Amount { mantissa: 5, scale: 0 });
    assert_eq!(d.get(1).unwrap().held, Amount { mantissa: 0, scale: 0 });
    assert_eq!(d.get(2).unwrap().available, Amount { mantissa: 7, scale: 0 });
    assert_eq!(d.get(2).unwrap().held, Amount { mantissa: 0, scale: 0 });
    assert_eq!(d.get(2).unwrap().disputed_transactions.len(), 0);
}

#[test]
fn order_within_a_client_matters() {
    let mut early = Dispatcher::new();
    early.dispatch_all(&vec![
        row(TransactionType::dispute, 1, 1, None),
        row(TransactionType::deposit, 1, 1, dec(5, 0)),
    ]);
    assert_eq!(early.get(1).unwrap().available, Amount { mantissa: 5, scale: 0 });
    assert_eq!(early.get(1).unwrap().held, Amount { mantissa: 0, scale: 0 });

    let mut late = Dispatcher::new();
    late.dispatch_all(&vec![
        row(TransactionType::deposit, 1, 1, dec(5, 0)),
        row(TransactionType::dispute, 1, 1, None),
    ]);
    assert_eq!(late.get(1).unwrap().available, Amount { mantissa: 0, scale: 0 });
    assert_eq!(late.get(1).unwrap().held, Amount { mantissa: 5, scale: 0 });
}

#[test]
fn dispatch_all_of_nothing_changes_nothing() {
    let mut d = Dispatcher::new();
    assert_eq!(d.dispatch_all(&Vec::new()), 0);
    assert_eq!(d.len(), 0);
}

#[test]
fn overflow_is_reported_and_leaves_the_account_alone() {
    let max = Amount { mantissa: MAX_MANTISSA, scale: 0 };
    let mut a = Account::new(1);
    let first = row(TransactionType::deposit, 1, 1, Some(max));
    let second = row(TransactionType::deposit, 1, 2, Some(max));
    assert!(a.can_process(&first));
    assert!(a.try_process_transaction(first));
    assert_eq!(a.available, max);
    assert!(!a.can_process(&second));
    assert!(!a.try_process_transaction(second));
    assert_eq!(a.available, max);
    assert_eq!(a.total, max);
    assert_eq!(a.transactions.len(), 1);
    assert!(!a.transaction_exists(&2));
    // A withdrawal brings the account back into range.
    let third = row(TransactionType::withdrawal, 1, 3, dec(1, 0));
    assert!(a.can_process(&third));
    assert!(a.try_process_transaction(third));
    assert_eq!(a.available, Amount { mantissa: MAX_MANTISSA - 1, scale: 0 });
}

#[test]
fn negative_overflow_is_reported() {
    let max = Amount { mantissa: MAX_MANTISSA, scale: 0 };
    let mut a = Account::new(1);
    assert!(a.try_process_transaction(row(TransactionType::deposit, 1, 1, Some(max))));
    assert!(a.try_process_transaction(row(TransactionType::dispute, 1, 1, None)));
    assert_eq!(a.available, Amount { mantissa: 0, scale: 0 });
    assert_eq!(a.held, max);
    // A second dispute would need held funds of twice the maximum.
    assert!(a.try_process_transaction(row(TransactionType::withdrawal, 1, 2, dec(0, 0))));
    let again = row(TransactionType::dispute, 1, 1, None);
    assert!(!a.can_process(&again));
    assert!(!a.try_process_transaction(again));
    assert_eq!(a.held, max);
    assert_eq!(a.total, max);
}

#[test]
fn dispatch_stops_before_the_first_overflow() {
    let max = Amount { mantissa: MAX_MANTISSA, scale: 0 };
    let rows = vec![
        row(TransactionType::deposit, 1, 1, Some(max)),
        row(TransactionType::deposit, 2, 2, dec(3, 0)),
        row(TransactionType::deposit, 1, 3, dec(1, 0)),
        row(TransactionType::deposit, 2, 4, dec(4, 0)),
    ];
    let mut d = Dispatcher::new();
    assert_eq!(d.dispatch_all(&rows), 2);
    assert_eq!(d.get(1).unwrap().available, max);
    assert_eq!(d.get(1).unwrap().transactions.len(), 1);
    assert_eq!(d.get(2).unwrap().available, Amount { mantissa: 3, scale: 0 });
    assert!(!d.dispatch(rows[2]));
    assert_eq!(d.len(), 2);
    assert_eq!(d.get(1).unwrap().available, max);
    assert!(d.dispatch(rows[3]));
    assert_eq!(d.get(2).unwrap().available, Amount { mantissa: 7, scale: 0 });
}
