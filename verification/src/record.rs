use vstd::prelude::*;

use crate::payment_engine::Transaction;
use crate::payment_engine::TransactionType;

verus! {

/// One decoded input row, as plain values.  The I/O shell parses the wire
/// format and hands the engine one of these per row; amounts arrive as
/// fixed-point `i64` values counting ten-thousandths.
#[derive(Debug, Clone, Copy)]
pub struct CsvTransaction {
    pub transaction_type: CsvTransactionType,
    pub client: u16,
    pub tx: u32,
    pub amount: Option<i64>,
}

/// The five transaction kinds as they appear on an input row, before the
/// amount is attached to the kind.
#[derive(Debug, Clone, Copy, PartialEq, Eq, Structural)]
pub enum CsvTransactionType {
    Deposit,
    Withdrawal,
    Dispute,
    Resolve,
    Chargeback,
}

/// Why a decoded row could not become a transaction.
#[derive(Debug, Clone, Copy, PartialEq, Eq, Structural)]
pub enum RecordError {
    /// A deposit or withdrawal row without an amount.
    MissingAmount,
}

/// What [`CsvTransaction::into_transaction`] returns: a deposit or
/// withdrawal needs an amount and fails without one; the three
/// dispute-class kinds ignore the amount field.
pub open spec fn spec_into_transaction(r: CsvTransaction) -> Result<Transaction, RecordError> {
    match r.transaction_type {
        CsvTransactionType::Deposit => match r.amount {
            Some(amount) => Ok(
                Transaction {
                    client: r.client,
                    id: r.tx,
                    is_disputed: false,
                    kind: TransactionType::Deposit { amount },
                },
            ),
            None => Err(RecordError::MissingAmount),
        },
        CsvTransactionType::Withdrawal => match r.amount {
            Some(amount) => Ok(
                Transaction {
                    client: r.client,
                    id: r.tx,
                    is_disputed: false,
                    kind: TransactionType::Withdrawal { amount },
                },
            ),
            None => Err(RecordError::MissingAmount),
        },
        CsvTransactionType::Dispute => Ok(
            Transaction {
                client: r.client,
                id: r.tx,
                is_disputed: false,
                kind: TransactionType::Dispute,
            },
        ),
        CsvTransactionType::Resolve => Ok(
            Transaction {
                client: r.client,
                id: r.tx,
                is_disputed: false,
                kind: TransactionType::Resolve,
            },
        ),
        CsvTransactionType::Chargeback => Ok(
            Transaction {
                client: r.client,
                id: r.tx,
                is_disputed: false,
                kind: TransactionType::Chargeback,
            },
        ),
    }
}

impl CsvTransaction {
    /// Turn a decoded row into an engine transaction; see
    /// [`spec_into_transaction`] for the exact result on every input.
    pub fn into_transaction(self) -> (t: Result<Transaction, RecordError>)
        ensures
            t == spec_into_transaction(self),
    {
        let kind = match self.transaction_type {
            CsvTransactionType::Deposit => match self.amount {
                Some(amount) => TransactionType::Deposit { amount },
                None => {
                    return Err(RecordError::MissingAmount);
                },
            },
            CsvTransactionType::Withdrawal => match self.amount {
                Some(amount) => TransactionType::Withdrawal { amount },
                None => {
                    return Err(RecordError::MissingAmount);
                },
            },
            CsvTransactionType::Dispute => TransactionType::Dispute,
            CsvTransactionType::Resolve => TransactionType::Resolve,
            CsvTransactionType::Chargeback => TransactionType::Chargeback,
        };
        Ok(Transaction::new(self.client, self.tx, kind))
    }
}

} // verus!
