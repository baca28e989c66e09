mod account;
mod transaction;

use std::collections::HashMap;

use vstd::prelude::*;

pub use account::AccountStatus;
pub use account::AccountView;
pub use account::account_wf;
pub use account::spec_chargeback;
pub use account::spec_deposit;
pub use account::spec_hold_funds;
pub use account::spec_new_account;
pub use account::spec_release_funds;
pub use account::spec_withdraw;
pub use transaction::Transaction;
pub use transaction::TransactionType;
pub use transaction::signed_amount;
pub use transaction::stored_kind_ok;

verus! {

broadcast use vstd::std_specs::hash::group_hash_axioms;

/// The ledger: per-client accounts, and the history of every deposit and
/// withdrawal applied so far, keyed by transaction id.  The history is
/// what the three dispute-lifecycle operations refer back to.
#[derive(Debug, Clone)]
pub struct PaymentEngine {
    clients: HashMap<u16, AccountStatus>,
    order: Vec<u16>,
    transactions: HashMap<u32, Transaction>,
}

/// The mathematical state of a [`PaymentEngine`]: the account map and the
/// stored history, free of any container detail.
#[verifier::ext_equal]
pub struct EngineView {
    pub accounts: Map<u16, AccountView>,
    pub txs: Map<u32, Transaction>,
}

/// The engine's invariant over its mathematical state: every account is
/// keyed by its own client id and keeps `total == available + held`, and
/// every stored history entry is keyed by its own transaction id and is a
/// deposit or withdrawal with a non-negative amount.
pub open spec fn engine_wf(e: EngineView) -> bool {
    &&& forall|c: u16| #[trigger] e.accounts.contains_key(c) ==> e.accounts[c].client == c
        && account_wf(e.accounts[c])
    &&& forall|id: u32| #[trigger] e.txs.contains_key(id) ==> e.txs[id].id == id
        && stored_kind_ok(e.txs[id].kind)
}

/// The account a transaction for `client` acts on: the stored one, or a
/// fresh zeroed account when the client has not been seen before.
pub open spec fn target_account(e: EngineView, client: u16) -> AccountView {
    if e.accounts.contains_key(client) {
        e.accounts[client]
    } else {
        spec_new_account(client)
    }
}

/// The state after the engine has looked up or lazily created the account
/// for `client`; this happens before any validation, so even a rejected
/// transaction leaves a fresh zeroed account behind.
pub open spec fn with_account(e: EngineView, client: u16) -> EngineView {
    EngineView { accounts: e.accounts.insert(client, target_account(e, client)), ..e }
}

/// Resolution of a dispute-class transaction to the stored entry it
/// contests: the entry must exist, belong to the same client, and be a
/// deposit or withdrawal; each failure is its own error, checked in this
/// order.
pub open spec fn spec_dispute_target(e: EngineView, t: Transaction) -> Result<
    Transaction,
    PaymentEngineError,
> {
    if !e.txs.contains_key(t.id) {
        Err(PaymentEngineError::TransactionNotFound(t.id))
    } else if e.txs[t.id].client != t.client {
        Err(PaymentEngineError::DisputeForDifferentClient)
    } else if !stored_kind_ok(e.txs[t.id].kind) {
        Err(PaymentEngineError::InvalidTransactionType)
    } else {
        Ok(e.txs[t.id])
    }
}

/// The engine's transition function: the state and result of processing
/// one transaction.  Balances are unbounded integers here; the executable
/// engine matches this function exactly on every input within its bounds
/// (see [`tx_in_bounds`]).
pub open spec fn spec_process(e: EngineView, t: Transaction) -> (EngineView, Result<
    (),
    PaymentEngineError,
>) {
    let a = target_account(e, t.client);
    let e0 = with_account(e, t.client);
    match t.kind {
        TransactionType::Deposit { amount } => {
            if amount < 0 {
                (e0, Err(PaymentEngineError::InvalidAmount(amount)))
            } else {
                let (a2, r) = spec_deposit(a, amount as int);
                if r is Ok {
                    (
                        EngineView {
                            accounts: e0.accounts.insert(t.client, a2),
                            txs: e0.txs.insert(t.id, t),
                        },
                        r,
                    )
                } else {
                    (e0, r)
                }
            }
        },
        TransactionType::Withdrawal { amount } => {
            if amount < 0 {
                (e0, Err(PaymentEngineError::InvalidAmount(amount)))
            } else {
                let (a2, r) = spec_withdraw(a, amount as int);
                if r is Ok {
                    (
                        EngineView {
                            accounts: e0.accounts.insert(t.client, a2),
                            txs: e0.txs.insert(t.id, t),
                        },
                        r,
                    )
                } else {
                    (e0, r)
                }
            }
        },
        TransactionType::Dispute => {
            match spec_dispute_target(e0, t) {
                Err(err) => (e0, Err(err)),
                Ok(ot) => {
                    if ot.is_disputed {
                        (e0, Err(PaymentEngineError::TransactionAlreadyDisputed(t.id)))
                    } else {
                        (
                            EngineView {
                                accounts: e0.accounts.insert(
                                    t.client,
                                    spec_hold_funds(a, signed_amount(ot.kind)),
                                ),
                                txs: e0.txs.insert(
                                    t.id,
                                    Transaction { is_disputed: true, ..ot },
                                ),
                            },
                            Ok(()),
                        )
                    }
                },
            }
        },
        TransactionType::Resolve => {
            match spec_dispute_target(e0, t) {
                Err(err) => (e0, Err(err)),
                Ok(ot) => {
                    if !ot.is_disputed {
                        (e0, Err(PaymentEngineError::NotDisputed(t.id)))
                    } else {
                        (
                            EngineView {
                                accounts: e0.accounts.insert(
                                    t.client,
                                    spec_release_funds(a, signed_amount(ot.kind)),
                                ),
                                txs: e0.txs.insert(
                                    t.id,
                                    Transaction { is_disputed: false, ..ot },
                                ),
                            },
                            Ok(()),
                        )
                    }
                },
            }
        },
        TransactionType::Chargeback => {
            match spec_dispute_target(e0, t) {
                Err(err) => (e0, Err(err)),
                Ok(ot) => {
                    if !ot.is_disputed {
                        (e0, Err(PaymentEngineError::NotDisputed(t.id)))
                    } else {
                        (
                            EngineView {
                                accounts: e0.accounts.insert(
                                    t.client,
                                    spec_chargeback(a, signed_amount(ot.kind)),
                                ),
                                txs: e0.txs.insert(
                                    t.id,
                                    Transaction { is_disputed: false, ..ot },
                                ),
                            },
                            Ok(()),
                        )
                    }
                },
            }
        },
    }
}

/// Whether an integer fits the fixed-point balance type.
pub open spec fn fits_i64(x: int) -> bool {
    i64::MIN <= x <= i64::MAX
}

/// The machine-limit side condition of [`PaymentEngine::process_transaction`]:
/// every balance the transaction would write fits an `i64`.  A transaction
/// that is rejected performs no balance arithmetic, so the condition only
/// binds on the path that succeeds.
pub open spec fn tx_in_bounds(e: EngineView, t: Transaction) -> bool {
    let a = target_account(e, t.client);
    let e0 = with_account(e, t.client);
    match t.kind {
        TransactionType::Deposit { amount } => amount >= 0 && !a.locked ==> fits_i64(
            a.available + amount,
        ) && fits_i64(a.total + amount),
        TransactionType::Withdrawal { amount } => amount >= 0 && !a.locked && a.available
            >= amount ==> fits_i64(a.total - amount),
        TransactionType::Dispute => match spec_dispute_target(e0, t) {
            Ok(ot) => !ot.is_disputed ==> fits_i64(a.available - signed_amount(ot.kind))
                && fits_i64(a.held + signed_amount(ot.kind)),
            Err(_) => true,
        },
        TransactionType::Resolve => match spec_dispute_target(e0, t) {
            Ok(ot) => ot.is_disputed ==> fits_i64(a.held - signed_amount(ot.kind)) && fits_i64(
                a.available + signed_amount(ot.kind),
            ),
            Err(_) => true,
        },
        TransactionType::Chargeback => match spec_dispute_target(e0, t) {
            Ok(ot) => ot.is_disputed ==> fits_i64(a.held - signed_amount(ot.kind)) && fits_i64(
                a.total - signed_amount(ot.kind),
            ),
            Err(_) => true,
        },
    }
}

impl View for PaymentEngine {
    type V = EngineView;

    closed spec fn view(&self) -> EngineView {
        EngineView {
            accounts: Map::new(
                |c: u16| self.clients@.contains_key(c),
                |c: u16| self.clients@[c]@,
            ),
            txs: self.transactions@,
        }
    }
}

impl PaymentEngine {
    /// Internal bookkeeping: `order` lists exactly the known client ids,
    /// each once, so that a snapshot can walk the account map.
    pub closed spec fn order_ok(&self) -> bool {
        &&& self.order@.no_duplicates()
        &&& forall|i: int|
            0 <= i < self.order@.len() ==> self.clients@.contains_key(#[trigger] self.order@[i])
        &&& forall|c: u16| #[trigger] self.clients@.contains_key(c) ==> self.order@.contains(c)
    }

    /// The engine's invariant: established by [`PaymentEngine::new`] and
    /// preserved by every operation.
    pub open spec fn wf(&self) -> bool {
        engine_wf(self@) && self.order_ok()
    }

    /// An empty ledger: no accounts, no history.
    pub fn new() -> (engine: PaymentEngine)
        ensures
            engine.wf(),
            engine@ == (EngineView { accounts: Map::empty(), txs: Map::empty() }),
    {
        let engine = PaymentEngine {
            clients: HashMap::new(),
            order: Vec::new(),
            transactions: HashMap::new(),
        };
        proof {
            assert(engine@ =~= (EngineView { accounts: Map::empty(), txs: Map::empty() }));
        }
        engine
    }
}

impl PaymentEngine {
    /// Look up or lazily create the account for `client`.  This runs
    /// before any validation, exactly as [`with_account`] says.
    fn ensure_account(&mut self, client: u16)
        requires
            old(self).wf(),
        ensures
            final(self).wf(),
            final(self)@ == with_account(old(self)@, client),
            final(self).clients@.contains_key(client),
    {
        if !self.clients.contains_key(&client) {
            let fresh = AccountStatus::new(client);
            self.clients.insert(client, fresh);
            self.order.push(client);
        }
        proof {
            assert(self@ =~~= with_account(old(self)@, client));
            assert forall|c2: u16| self@.accounts.contains_key(c2) implies (self@.accounts[c2].client
                == c2 && account_wf(self@.accounts[c2])) by {
                if c2 != client {
                    assert(old(self)@.accounts.contains_key(c2));
                } else if old(self)@.accounts.contains_key(client) {
                    assert(self@.accounts[c2] == old(self)@.accounts[client]);
                }
            }
            assert forall|i: int|
                0 <= i < self.order@.len() implies self.clients@.contains_key(
                #[trigger] self.order@[i],
            ) by {
                if i < old(self).order@.len() {
                    assert(old(self).clients@.contains_key(old(self).order@[i]));
                }
            }
            assert(self.order@.no_duplicates()) by {
                assert forall|i: int, j: int|
                    0 <= i < j < self.order@.len() implies self.order@[i] != self.order@[j] by {
                    if j == self.order@.len() - 1 && self.order@.len() > old(self).order@.len() {
                        assert(old(self).clients@.contains_key(old(self).order@[i]));
                    }
                }
            }
            assert forall|c2: u16| #[trigger]
                self.clients@.contains_key(c2) implies self.order@.contains(c2) by {
                if old(self).clients@.contains_key(c2) {
                    let k = choose|k: int|
                        0 <= k < old(self).order@.len() && old(self).order@[k] == c2;
                    assert(self.order@[k] == c2);
                } else {
                    assert(self.order@[self.order@.len() - 1] == c2);
                }
            }
        }
    }

    /// Apply one transaction: look up or lazily create the client's
    /// account, dispatch on the kind, mutate the account, and record a
    /// successful deposit or withdrawal in the history.  The new state and
    /// the result are exactly [`spec_process`] of the state before, which
    /// pins down every accepted and every rejected case and its error.
    ///
    /// The `tx_in_bounds` precondition only excludes inputs whose new
    /// balances would not fit the fixed-point type; use
    /// [`Self::transaction_in_bounds`] to test it.
    #[verifier::rlimit(50)]
    pub fn process_transaction(&mut self, transaction: Transaction) -> (r: Result<
        (),
        PaymentEngineError,
    >)
        requires
            old(self).wf(),
            tx_in_bounds(old(self)@, transaction),
        ensures
            final(self).wf(),
            final(self)@ == spec_process(old(self)@, transaction).0,
            r == spec_process(old(self)@, transaction).1,
    {
        let ghost e = self@;
        proof {
            lemma_process_preserves_wf(e, transaction);
        }
        self.ensure_account(transaction.client);
        match transaction.kind {
            TransactionType::Deposit { amount } => {
                if amount < 0 {
                    return Err(PaymentEngineError::InvalidAmount(amount));
                }
                let mut account = *self.clients.get(&transaction.client).unwrap();
                proof {
                    assert(account == self.clients@[transaction.client]);
                    assert(self@.accounts[transaction.client] == account@);
                    assert(account@ == target_account(e, transaction.client));
                }
                let result = account.deposit(amount);
                match result {
                    Ok(()) => {
                        self.clients.insert(transaction.client, account);
                        self.transactions.insert(transaction.id, transaction);
                        proof {
                            assert(self@ =~~= spec_process(e, transaction).0);
                            assert(spec_process(e, transaction).1 == Ok::<(), PaymentEngineError>(()));
                        }
                        Ok(())
                    },
                    Err(err) => {
                        proof {
                            assert(spec_process(e, transaction).1 == Err::<(), PaymentEngineError>(err));
                        }
                        Err(err)
                    },
                }
            },
            TransactionType::Withdrawal { amount } => {
                if amount < 0 {
                    return Err(PaymentEngineError::InvalidAmount(amount));
                }
                let mut account = *self.clients.get(&transaction.client).unwrap();
                proof {
                    assert(account == self.clients@[transaction.client]);
                    assert(self@.accounts[transaction.client] == account@);
                    assert(account@ == target_account(e, transaction.client));
                }
                let result = account.withdraw(amount);
                match result {
                    Ok(()) => {
                        self.clients.insert(transaction.client, account);
                        self.transactions.insert(transaction.id, transaction);
                        proof {
                            assert(self@ =~~= spec_process(e, transaction).0);
                            assert(spec_process(e, transaction).1 == Ok::<(), PaymentEngineError>(()));
                        }
                        Ok(())
                    },
                    Err(err) => {
                        proof {
                            assert(spec_process(e, transaction).1 == Err::<(), PaymentEngineError>(err));
                        }
                        Err(err)
                    },
                }
            },
            TransactionType::Dispute | TransactionType::Resolve | TransactionType::Chargeback => {
                let original = match self.transactions.get(&transaction.id) {
                    Some(original) => *original,
                    None => {
                        return Err(PaymentEngineError::TransactionNotFound(transaction.id));
                    },
                };
                if original.client != transaction.client {
                    return Err(PaymentEngineError::DisputeForDifferentClient);
                }
                let amount: i64 = match original.kind {
                    TransactionType::Deposit { amount } => amount,
                    TransactionType::Withdrawal { amount } => -amount,
                    _ => {
                        return Err(PaymentEngineError::InvalidTransactionType);
                    },
                };
                let mut account = *self.clients.get(&transaction.client).unwrap();
                proof {
                    assert(account == self.clients@[transaction.client]);
                    assert(self@.accounts[transaction.client] == account@);
                    assert(account@ == target_account(e, transaction.client));
                }
                match transaction.kind {
                    TransactionType::Dispute => {
                        if original.is_disputed {
                            return Err(
                                PaymentEngineError::TransactionAlreadyDisputed(transaction.id),
                            );
                        }
                        let mut updated = original;
                        updated.is_disputed = true;
                        let hold_result = account.hold_funds(amount);
                        self.transactions.insert(transaction.id, updated);
                        self.clients.insert(transaction.client, account);
                        proof {
                            assert(self@ =~~= spec_process(e, transaction).0);
                            assert(spec_process(e, transaction).1 == Ok::<(), PaymentEngineError>(()));
                        }
                        match hold_result {
                            Ok(()) => Ok(()),
                            Err(err) => Err(err),
                        }
                    },
                    TransactionType::Resolve => {
                        if !original.is_disputed {
                            return Err(PaymentEngineError::NotDisputed(transaction.id));
                        }
                        let mut updated = original;
                        updated.is_disputed = false;
                        account.release_funds(amount);
                        self.transactions.insert(transaction.id, updated);
                        self.clients.insert(transaction.client, account);
                        proof {
                            assert(self@ =~~= spec_process(e, transaction).0);
                            assert(spec_process(e, transaction).1 == Ok::<(), PaymentEngineError>(()));
                        }
                        Ok(())
                    },
                    TransactionType::Chargeback => {
                        if !original.is_disputed {
                            return Err(PaymentEngineError::NotDisputed(transaction.id));
                        }
                        let mut updated = original;
                        updated.is_disputed = false;
                        account.chargeback(amount);
                        self.transactions.insert(transaction.id, updated);
                        self.clients.insert(transaction.client, account);
                        proof {
                            assert(self@ =~~= spec_process(e, transaction).0);
                            assert(spec_process(e, transaction).1 == Ok::<(), PaymentEngineError>(()));
                        }
                        Ok(())
                    },
                    TransactionType::Deposit { .. } | TransactionType::Withdrawal { .. } => {
                        vstd::pervasive::unreached()
                    },
                }
            },
        }
    }

    /// Whether processing `transaction` now would keep every balance it
    /// writes within the fixed-point type: the exact precondition of
    /// [`Self::process_transaction`].  An unverified caller tests this
    /// before handing the transaction over.
    pub fn transaction_in_bounds(&self, transaction: &Transaction) -> (b: bool)
        requires
            self.wf(),
        ensures
            b == tx_in_bounds(self@, *transaction),
    {
        let account = match self.clients.get(&transaction.client) {
            Some(account) => *account,
            None => AccountStatus::new(transaction.client),
        };
        proof {
            assert(account@ == target_account(self@, transaction.client));
        }
        match transaction.kind {
            TransactionType::Deposit { amount } => {
                if amount < 0 || account.locked {
                    true
                } else {
                    account.available.checked_add(amount).is_some()
                        && account.total.checked_add(amount).is_some()
                }
            },
            TransactionType::Withdrawal { amount } => {
                if amount < 0 || account.locked || account.available < amount {
                    true
                } else {
                    account.total.checked_sub(amount).is_some()
                }
            },
            TransactionType::Dispute | TransactionType::Resolve | TransactionType::Chargeback => {
                let original = match self.transactions.get(&transaction.id) {
                    Some(original) => *original,
                    None => {
                        return true;
                    },
                };
                if original.client != transaction.client {
                    return true;
                }
                let amount: i64 = match original.kind {
                    TransactionType::Deposit { amount } => amount,
                    TransactionType::Withdrawal { amount } => -amount,
                    _ => {
                        return true;
                    },
                };
                match transaction.kind {
                    TransactionType::Dispute => {
                        if original.is_disputed {
                            true
                        } else {
                            account.available.checked_sub(amount).is_some()
                                && account.held.checked_add(amount).is_some()
                        }
                    },
                    TransactionType::Resolve => {
                        if !original.is_disputed {
                            true
                        } else {
                            account.held.checked_sub(amount).is_some()
                                && account.available.checked_add(amount).is_some()
                        }
                    },
                    TransactionType::Chargeback => {
                        if !original.is_disputed {
                            true
                        } else {
                            account.held.checked_sub(amount).is_some()
                                && account.total.checked_sub(amount).is_some()
                        }
                    },
                    TransactionType::Deposit { .. } | TransactionType::Withdrawal { .. } => {
                        vstd::pervasive::unreached()
                    },
                }
            },
        }
    }

    /// A snapshot of every known account, one entry per client, in no
    /// promised order.
    pub fn get_accounts_statuses(&self) -> (statuses: Vec<AccountStatus>)
        requires
            self.wf(),
        ensures
            statuses@.len() == self@.accounts.dom().len(),
            forall|i: int|
                0 <= i < statuses@.len() ==> self@.accounts.contains_key(
                    #[trigger] statuses@[i].client,
                ) && statuses@[i]@ == self@.accounts[statuses@[i].client],
            forall|c: u16|
                #[trigger] self@.accounts.contains_key(c) ==> exists|i: int|
                    0 <= i < statuses@.len() && statuses@[i].client == c,
            forall|i: int, j: int|
                0 <= i < j < statuses@.len() ==> statuses@[i].client != statuses@[j].client,
    {
        let mut statuses: Vec<AccountStatus> = Vec::new();
        let mut idx: usize = 0;
        while idx < self.order.len()
            invariant
                self.wf(),
                idx <= self.order@.len(),
                statuses@.len() == idx,
                forall|k: int| 0 <= k < idx ==> #[trigger] statuses@[k].client == self.order@[k],
                forall|k: int|
                    0 <= k < idx ==> self@.accounts.contains_key(#[trigger] statuses@[k].client)
                        && statuses@[k]@ == self@.accounts[statuses@[k].client],
            decreases self.order@.len() - idx,
        {
            let client_id = self.order[idx];
            proof {
                assert(self.clients@.contains_key(client_id));
            }
            let account = *self.clients.get(&client_id).unwrap();
            proof {
                assert(account == self.clients@[client_id]);
                assert(self@.accounts.contains_key(client_id));
                assert(account@ == self@.accounts[client_id]);
                assert(account.client == client_id);
            }
            statuses.push(account);
            idx = idx + 1;
        }
        proof {
            assert forall|c: u16| self@.accounts.contains_key(c) implies exists|i: int|
                0 <= i < statuses@.len() && statuses@[i].client == c by {
                assert(self.order@.contains(c));
                let j = choose|j: int| 0 <= j < self.order@.len() && self.order@[j] == c;
                assert(statuses@[j].client == c);
            }
            self.order@.unique_seq_to_set();
            assert(self.order@.to_set() =~= self@.accounts.dom());
        }
        statuses
    }
}

/// Law: processing any transaction from a well-formed state leaves a
/// well-formed state; in particular every account still has
/// `total == available + held`, exactly.
pub proof fn lemma_process_preserves_wf(e: EngineView, t: Transaction)
    requires
        engine_wf(e),
    ensures
        engine_wf(spec_process(e, t).0),
{
    let e0 = with_account(e, t.client);
    assert(engine_wf(e0));
}

/// Law: `locked` is a one-way latch.  Processing any transaction keeps
/// every existing account, and an account that was locked before is still
/// locked after; nothing ever clears the flag.
pub proof fn lemma_locked_is_monotone(e: EngineView, t: Transaction)
    ensures
        forall|c: u16| #[trigger]
            e.accounts.contains_key(c) ==> spec_process(e, t).0.accounts.contains_key(c) && (
            e.accounts[c].locked ==> spec_process(e, t).0.accounts[c].locked),
{
}

/// Law: a rejected transaction is a no-op on the ledger's balances.  When
/// processing returns an error, the stored history is unchanged, every
/// account that existed keeps its exact state, and the only possible
/// change is the lazy creation of a fresh zeroed account for the
/// transaction's client.
pub proof fn lemma_rejection_changes_nothing(e: EngineView, t: Transaction)
    requires
        spec_process(e, t).1 is Err,
    ensures
        spec_process(e, t).0.txs == e.txs,
        forall|c: u16| #[trigger]
            e.accounts.contains_key(c) ==> spec_process(e, t).0.accounts[c] == e.accounts[c],
        !e.accounts.contains_key(t.client) ==> spec_process(e, t).0.accounts[t.client]
            == spec_new_account(t.client),
{
}

/// Law: a dispute-class transaction naming an unknown transaction id, or
/// an entry stored for a different client, is rejected and mutates no
/// account; at most the client's account is lazily created, fresh and
/// zeroed.
pub proof fn lemma_dispute_unknown_or_cross_client(e: EngineView, t: Transaction)
    requires
        t.kind is Dispute || t.kind is Resolve || t.kind is Chargeback,
        !e.txs.contains_key(t.id) || e.txs[t.id].client != t.client,
    ensures
        spec_process(e, t).1 is Err,
        spec_process(e, t).0.txs == e.txs,
        forall|c: u16| #[trigger]
            e.accounts.contains_key(c) ==> spec_process(e, t).0.accounts[c] == e.accounts[c],
{
    lemma_rejection_changes_nothing(e, t);
}

/// Under the engine's invariant the guarded `InvalidTransactionType`
/// error can never actually occur: the history stores nothing but
/// deposits and withdrawals, so a dispute-class transaction never finds an
/// entry of another kind.
pub proof fn lemma_invalid_transaction_type_unreachable(e: EngineView, t: Transaction)
    requires
        engine_wf(e),
    ensures
        spec_process(e, t).1 != Err::<(), PaymentEngineError>(
            PaymentEngineError::InvalidTransactionType,
        ),
{
}

impl Default for PaymentEngine {
    fn default() -> (engine: PaymentEngine)
        ensures
            engine.wf(),
            engine@ == (EngineView { accounts: Map::empty(), txs: Map::empty() }),
    {
        PaymentEngine::new()
    }
}

/// Everything that can go wrong while processing one transaction.
#[derive(Debug, Clone, Copy, PartialEq, Eq, Structural)]
pub enum PaymentEngineError {
    /// A withdrawal asked for more than `available`.
    InsufficientFunds,
    /// A deposit or withdrawal reached an account locked by a chargeback;
    /// carries the client id.
    AccountLocked(u16),
    /// A dispute-class transaction named a stored entry that is not a
    /// deposit or withdrawal.  Unreachable through this engine, which
    /// stores nothing else, but guarded all the same.
    InvalidTransactionType,
    /// A deposit or withdrawal carried a negative amount.
    InvalidAmount(i64),
    /// A dispute-class transaction named an id with no stored entry.
    TransactionNotFound(u32),
    /// A dispute named an entry already under dispute.
    TransactionAlreadyDisputed(u32),
    /// A resolve or chargeback named an entry not under dispute.
    NotDisputed(u32),
    /// A dispute-class transaction named an entry stored for a different
    /// client.
    DisputeForDifferentClient,
}

} // verus!
