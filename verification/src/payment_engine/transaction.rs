use vstd::prelude::*;

verus! {

/// One parsed transaction record, as fed to the engine.
///
/// Amounts are fixed-point: an `i64` counting units of one ten-thousandth
/// of the currency.  Only deposits and withdrawals carry an amount and are
/// retained in the engine's history; the three dispute-lifecycle kinds
/// refer to a stored entry by `id`.
#[derive(Debug, Clone, Copy, PartialEq, Eq, Structural)]
pub struct Transaction {
    pub client: u16,
    pub id: u32,
    pub is_disputed: bool,
    pub kind: TransactionType,
}

#[derive(Debug, Clone, Copy, PartialEq, Eq, Structural)]
pub enum TransactionType {
    Deposit { amount: i64 },
    Withdrawal { amount: i64 },
    Dispute,
    Resolve,
    Chargeback,
}

impl Transaction {
    /// A fresh transaction record; its dispute flag starts cleared.
    pub fn new(client: u16, transaction_id: u32, kind: TransactionType) -> (t: Transaction)
        ensures
            t == (Transaction { client, id: transaction_id, is_disputed: false, kind }),
    {
        Transaction { client, id: transaction_id, is_disputed: false, kind }
    }
}

/// The amount at stake when a stored entry is disputed: the entry's own
/// amount for a deposit, its negation for a withdrawal.  Disputing a
/// withdrawal holds a negative amount, which un-does the withdrawal's
/// debit while keeping `total == available + held` intact.
pub open spec fn signed_amount(kind: TransactionType) -> int {
    match kind {
        TransactionType::Deposit { amount } => amount as int,
        TransactionType::Withdrawal { amount } => -(amount as int),
        _ => 0,
    }
}

/// Whether a transaction kind may be stored in the history: only deposits
/// and withdrawals are, and only with the non-negative amount that the
/// engine validated before storing.
pub open spec fn stored_kind_ok(kind: TransactionType) -> bool {
    match kind {
        TransactionType::Deposit { amount } => amount >= 0,
        TransactionType::Withdrawal { amount } => amount >= 0,
        _ => false,
    }
}

} // verus!
