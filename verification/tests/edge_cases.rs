// Error variants, the lock latch, bounds checking, and snapshots.
// Monetary values are fixed-point: 1_0000 is one currency unit.

use transactions_processor::payment_engine::PaymentEngine;
use transactions_processor::payment_engine::PaymentEngineError;
use transactions_processor::payment_engine::Transaction;
use transactions_processor::payment_engine::TransactionType;

fn locked_account_engine(client: u16) -> PaymentEngine {
    let mut engine = PaymentEngine::new();
    engine
        .process_transaction(Transaction::new(
            client,
            1,
            TransactionType::Deposit { amount: 10_0000 },
        ))
        .unwrap();
    engine
        .process_transaction(Transaction::new(client, 1, TransactionType::Dispute))
        .unwrap();
    engine
        .process_transaction(Transaction::new(client, 1, TransactionType::Chargeback))
        .unwrap();
    engine
}

#[test]
fn test_deposit_on_locked_account() {
    let mut engine = locked_account_engine(7);
    let deposit = Transaction::new(7, 2, TransactionType::Deposit { amount: 5_0000 });
    let result = engine.process_transaction(deposit);
    assert!(matches!(result, Err(PaymentEngineError::AccountLocked(7))));
    let account = engine
        .get_accounts_statuses()
        .into_iter()
        .find(|a| a.client == 7)
        .unwrap();
    assert_eq!(account.available, 0);
    assert_eq!(account.total, 0);
    assert!(account.locked);
}

#[test]
fn test_withdrawal_on_locked_account() {
    let mut engine = locked_account_engine(8);
    let withdrawal = Transaction::new(8, 2, TransactionType::Withdrawal { amount: 5_0000 });
    let result = engine.process_transaction(withdrawal);
    assert!(matches!(result, Err(PaymentEngineError::AccountLocked(8))));
}

#[test]
fn test_lock_survives_later_transactions() {
    let mut engine = locked_account_engine(9);
    let _ = engine.process_transaction(Transaction::new(
        9,
        2,
        TransactionType::Deposit { amount: 5_0000 },
    ));
    let _ = engine.process_transaction(Transaction::new(9, 99, TransactionType::Dispute));
    let account = engine
        .get_accounts_statuses()
        .into_iter()
        .find(|a| a.client == 9)
        .unwrap();
    assert!(account.locked);
}

#[test]
fn test_dispute_twice_already_disputed() {
    let mut engine = PaymentEngine::new();
    engine
        .process_transaction(Transaction::new(1, 1, TransactionType::Deposit { amount: 10_0000 }))
        .unwrap();
    engine
        .process_transaction(Transaction::new(1, 1, TransactionType::Dispute))
        .unwrap();
    let result = engine.process_transaction(Transaction::new(1, 1, TransactionType::Dispute));
    assert!(matches!(result, Err(PaymentEngineError::TransactionAlreadyDisputed(1))));
    let account = engine
        .get_accounts_statuses()
        .into_iter()
        .find(|a| a.client == 1)
        .unwrap();
    assert_eq!(account.available, 0);
    assert_eq!(account.held, 10_0000);
    assert_eq!(account.total, 10_0000);
}

#[test]
fn test_resolve_not_disputed() {
    let mut engine = PaymentEngine::new();
    engine
        .process_transaction(Transaction::new(1, 1, TransactionType::Deposit { amount: 10_0000 }))
        .unwrap();
    let result = engine.process_transaction(Transaction::new(1, 1, TransactionType::Resolve));
    assert!(matches!(result, Err(PaymentEngineError::NotDisputed(1))));
}

#[test]
fn test_chargeback_not_disputed() {
    let mut engine = PaymentEngine::new();
    engine
        .process_transaction(Transaction::new(1, 1, TransactionType::Deposit { amount: 10_0000 }))
        .unwrap();
    let result = engine.process_transaction(Transaction::new(1, 1, TransactionType::Chargeback));
    assert!(matches!(result, Err(PaymentEngineError::NotDisputed(1))));
    let account = engine
        .get_accounts_statuses()
        .into_iter()
        .find(|a| a.client == 1)
        .unwrap();
    assert!(!account.locked);
    assert_eq!(account.total, 10_0000);
}

#[test]
fn test_balance_invariant_across_stream() {
    let mut engine = PaymentEngine::new();
    let stream = vec![
        Transaction::new(1, 1, TransactionType::Deposit { amount: 100_0000 }),
        Transaction::new(2, 2, TransactionType::Deposit { amount: 55_5000 }),
        Transaction::new(1, 3, TransactionType::Withdrawal { amount: 30_0000 }),
        Transaction::new(1, 3, TransactionType::Dispute),
        Transaction::new(2, 2, TransactionType::Dispute),
        Transaction::new(1, 3, TransactionType::Resolve),
        Transaction::new(2, 2, TransactionType::Chargeback),
        Transaction::new(2, 4, TransactionType::Deposit { amount: 1_0000 }),
        Transaction::new(3, 99, TransactionType::Dispute),
    ];
    for transaction in stream {
        let _ = engine.process_transaction(transaction);
        for account in engine.get_accounts_statuses() {
            assert_eq!(account.total, account.available + account.held);
        }
    }
}

#[test]
fn test_transaction_in_bounds() {
    let mut engine = PaymentEngine::new();
    let big = Transaction::new(1, 1, TransactionType::Deposit { amount: i64::MAX });
    assert!(engine.transaction_in_bounds(&big));
    engine.process_transaction(big).unwrap();
    let one_more = Transaction::new(1, 2, TransactionType::Deposit { amount: 1 });
    assert!(!engine.transaction_in_bounds(&one_more));
    let other_client = Transaction::new(2, 3, TransactionType::Deposit { amount: 1 });
    assert!(engine.transaction_in_bounds(&other_client));
    let negative = Transaction::new(1, 4, TransactionType::Deposit { amount: -1 });
    assert!(engine.transaction_in_bounds(&negative));
}

#[test]
fn test_snapshot_one_entry_per_client() {
    let mut engine = PaymentEngine::new();
    engine
        .process_transaction(Transaction::new(1, 1, TransactionType::Deposit { amount: 1_0000 }))
        .unwrap();
    engine
        .process_transaction(Transaction::new(2, 2, TransactionType::Deposit { amount: 2_0000 }))
        .unwrap();
    engine
        .process_transaction(Transaction::new(1, 3, TransactionType::Deposit { amount: 3_0000 }))
        .unwrap();
    let statuses = engine.get_accounts_statuses();
    assert_eq!(statuses.len(), 2);
    assert_eq!(statuses.iter().filter(|a| a.client == 1).count(), 1);
    assert_eq!(statuses.iter().filter(|a| a.client == 2).count(), 1);
    assert_eq!(statuses.iter().find(|a| a.client == 1).unwrap().available, 4_0000);
    assert_eq!(statuses.iter().find(|a| a.client == 2).unwrap().available, 2_0000);
}

#[test]
fn test_snapshot_of_empty_engine() {
    let engine = PaymentEngine::new();
    assert!(engine.get_accounts_statuses().is_empty());
}
