// Decoded-row conversion and version banners.

use transactions_processor::CsvTransaction;
use transactions_processor::CsvTransactionType;
use transactions_processor::RecordError;
use transactions_processor::payment_engine::TransactionType;
use transactions_processor::version::long_version;
use transactions_processor::version::short_version;

#[test]
fn test_deposit_record_becomes_deposit() {
    let record = CsvTransaction {
        transaction_type: CsvTransactionType::Deposit,
        client: 1,
        tx: 1001,
        amount: Some(42_5000),
    };
    let transaction = record.into_transaction().unwrap();
    assert_eq!(transaction.client, 1);
    assert_eq!(transaction.id, 1001);
    assert!(matches!(transaction.kind, TransactionType::Deposit { amount: 42_5000 }));
}

#[test]
fn test_withdrawal_record_becomes_withdrawal() {
    let record = CsvTransaction {
        transaction_type: CsvTransactionType::Withdrawal,
        client: 2,
        tx: 1002,
        amount: Some(10_0000),
    };
    let transaction = record.into_transaction().unwrap();
    assert_eq!(transaction.client, 2);
    assert_eq!(transaction.id, 1002);
    assert!(matches!(transaction.kind, TransactionType::Withdrawal { amount: 10_0000 }));
}

#[test]
fn test_dispute_record_ignores_amount() {
    let record = CsvTransaction {
        transaction_type: CsvTransactionType::Dispute,
        client: 3,
        tx: 1003,
        amount: None,
    };
    let transaction = record.into_transaction().unwrap();
    assert_eq!(transaction.client, 3);
    assert_eq!(transaction.id, 1003);
    assert!(matches!(transaction.kind, TransactionType::Dispute));

    let with_amount = CsvTransaction {
        transaction_type: CsvTransactionType::Resolve,
        client: 3,
        tx: 1004,
        amount: Some(9_0000),
    };
    let transaction = with_amount.into_transaction().unwrap();
    assert!(matches!(transaction.kind, TransactionType::Resolve));
}

#[test]
fn test_deposit_record_without_amount_is_rejected() {
    let record = CsvTransaction {
        transaction_type: CsvTransactionType::Deposit,
        client: 1,
        tx: 1,
        amount: None,
    };
    assert_eq!(record.into_transaction(), Err(RecordError::MissingAmount));

    let record = CsvTransaction {
        transaction_type: CsvTransactionType::Withdrawal,
        client: 1,
        tx: 2,
        amount: None,
    };
    assert_eq!(record.into_transaction(), Err(RecordError::MissingAmount));
}

#[test]
fn test_version_banners() {
    assert_eq!(short_version(), "0.1.0");
    assert_eq!(long_version(), "0.1.0 (0000000000000000000000000000000000000000, unknown)");
}
