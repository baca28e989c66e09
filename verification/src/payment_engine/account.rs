use vstd::prelude::*;

use crate::payment_engine::PaymentEngineError;

verus! {

/// One client's monetary state.  Balances are fixed-point: an `i64`
/// counting units of one ten-thousandth of the currency.
///
/// The intended invariant, `total == available + held`, is stated by
/// [`account_wf`]; every engine operation preserves it.
#[derive(Debug, Clone, Copy, PartialEq, Eq, Structural)]
pub struct AccountStatus {
    pub client: u16,
    pub available: i64,
    pub held: i64,
    pub total: i64,
    pub locked: bool,
}

/// The mathematical shadow of an [`AccountStatus`]: the same fields with
/// unbounded integer balances, so that specifications can speak of balance
/// arithmetic without overflow side conditions.
pub struct AccountView {
    pub client: u16,
    pub available: int,
    pub held: int,
    pub total: int,
    pub locked: bool,
}

impl View for AccountStatus {
    type V = AccountView;

    open spec fn view(&self) -> AccountView {
        AccountView {
            client: self.client,
            available: self.available as int,
            held: self.held as int,
            total: self.total as int,
            locked: self.locked,
        }
    }
}

/// The per-account balance invariant: the full balance is exactly the sum
/// of what is withdrawable and what is frozen pending disputes.
pub open spec fn account_wf(a: AccountView) -> bool {
    a.total == a.available + a.held
}

/// A freshly created account: all balances zero, not locked.
pub open spec fn spec_new_account(client: u16) -> AccountView {
    AccountView { client, available: 0, held: 0, total: 0, locked: false }
}

/// What [`AccountStatus::deposit`] does: rejected while locked, otherwise
/// the amount is added to both `available` and `total`.
pub open spec fn spec_deposit(a: AccountView, amount: int) -> (AccountView, Result<
    (),
    PaymentEngineError,
>) {
    if a.locked {
        (a, Err(PaymentEngineError::AccountLocked(a.client)))
    } else {
        (
            AccountView { available: a.available + amount, total: a.total + amount, ..a },
            Ok(()),
        )
    }
}

/// What [`AccountStatus::withdraw`] does: rejected while locked or when
/// `available` does not cover the amount, otherwise the amount is taken
/// from both `available` and `total`.
pub open spec fn spec_withdraw(a: AccountView, amount: int) -> (AccountView, Result<
    (),
    PaymentEngineError,
>) {
    if a.locked {
        (a, Err(PaymentEngineError::AccountLocked(a.client)))
    } else if a.available < amount {
        (a, Err(PaymentEngineError::InsufficientFunds))
    } else {
        (
            AccountView { available: a.available - amount, total: a.total - amount, ..a },
            Ok(()),
        )
    }
}

/// What [`AccountStatus::hold_funds`] does: reclassify the amount from
/// `available` to `held`, unconditionally.
pub open spec fn spec_hold_funds(a: AccountView, amount: int) -> AccountView {
    AccountView { available: a.available - amount, held: a.held + amount, ..a }
}

/// What [`AccountStatus::release_funds`] does: reclassify the amount from
/// `held` back to `available`, unconditionally.
pub open spec fn spec_release_funds(a: AccountView, amount: int) -> AccountView {
    AccountView { held: a.held - amount, available: a.available + amount, ..a }
}

/// What [`AccountStatus::chargeback`] does: remove the amount from `held`
/// and `total` and latch the lock, unconditionally.
pub open spec fn spec_chargeback(a: AccountView, amount: int) -> AccountView {
    AccountView { held: a.held - amount, total: a.total - amount, locked: true, ..a }
}

impl AccountStatus {
    /// A fresh account for `client_id`: zero balances, unlocked.
    pub fn new(client_id: u16) -> (a: AccountStatus)
        ensures
            a@ == spec_new_account(client_id),
    {
        AccountStatus { client: client_id, available: 0, held: 0, total: 0, locked: false }
    }

    /// Add new money.  Fails with `AccountLocked` on a locked account and
    /// then changes nothing.  The engine rejects negative amounts before
    /// calling; this operation itself accepts any amount whose sums fit.
    pub fn deposit(&mut self, amount: i64) -> (r: Result<(), PaymentEngineError>)
        requires
            !old(self).locked ==> i64::MIN <= old(self)@.available + amount <= i64::MAX
                && i64::MIN <= old(self)@.total + amount <= i64::MAX,
        ensures
            (final(self)@, r) == spec_deposit(old(self)@, amount as int),
    {
        if self.locked {
            return Err(PaymentEngineError::AccountLocked(self.client));
        }
        self.available = self.available + amount;
        self.total = self.total + amount;
        Ok(())
    }

    /// Take money out.  Fails with `AccountLocked` on a locked account and
    /// with `InsufficientFunds` when `available` does not cover the
    /// amount; either failure changes nothing.
    pub fn withdraw(&mut self, amount: i64) -> (r: Result<(), PaymentEngineError>)
        requires
            !old(self).locked && old(self).available >= amount ==> i64::MIN <= old(
                self,
            )@.available - amount <= i64::MAX && i64::MIN <= old(self)@.total - amount
                <= i64::MAX,
        ensures
            (final(self)@, r) == spec_withdraw(old(self)@, amount as int),
    {
        if self.locked {
            return Err(PaymentEngineError::AccountLocked(self.client));
        }
        if self.available < amount {
            return Err(PaymentEngineError::InsufficientFunds);
        }
        self.available = self.available - amount;
        self.total = self.total - amount;
        Ok(())
    }

    /// Freeze the amount pending a dispute: a bookkeeping reclassification
    /// from `available` to `held`, with no lock or sufficiency check, so
    /// `available` may legitimately go negative.  Always succeeds.
    pub fn hold_funds(&mut self, amount: i64) -> (r: Result<(), PaymentEngineError>)
        requires
            i64::MIN <= old(self)@.available - amount <= i64::MAX,
            i64::MIN <= old(self)@.held + amount <= i64::MAX,
        ensures
            final(self)@ == spec_hold_funds(old(self)@, amount as int),
            r is Ok,
    {
        self.available = self.available - amount;
        self.held = self.held + amount;
        Ok(())
    }

    /// Unfreeze a disputed amount: the inverse of [`Self::hold_funds`].
    pub fn release_funds(&mut self, amount: i64)
        requires
            i64::MIN <= old(self)@.held - amount <= i64::MAX,
            i64::MIN <= old(self)@.available + amount <= i64::MAX,
        ensures
            final(self)@ == spec_release_funds(old(self)@, amount as int),
    {
        self.held = self.held - amount;
        self.available = self.available + amount;
    }

    /// Confirm the loss of a disputed amount and permanently lock the
    /// account.  Not blocked by the lock: this is the operation that sets
    /// it.
    pub fn chargeback(&mut self, amount: i64)
        requires
            i64::MIN <= old(self)@.held - amount <= i64::MAX,
            i64::MIN <= old(self)@.total - amount <= i64::MAX,
        ensures
            final(self)@ == spec_chargeback(old(self)@, amount as int),
    {
        self.held = self.held - amount;
        self.total = self.total - amount;
        self.locked = true;
    }
}

} // verus!
