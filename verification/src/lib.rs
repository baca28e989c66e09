//! An in-memory ledger engine for a stream of financial transactions.
//!
//! The engine folds deposits, withdrawals and the three dispute-lifecycle
//! operations (dispute, resolve, chargeback) into per-client account
//! balances.  Monetary values are fixed-point decimals: an `i64` counting
//! units of one ten-thousandth (four fractional digits), so that balance
//! arithmetic is exact.
//!
//! Rejection policy, applied uniformly: every rejected transaction -
//! whether a hard validation failure or an expected business outcome such
//! as an insufficient-funds withdrawal - returns a typed error for that
//! one transaction and leaves every balance unchanged; it is up to the
//! caller to record the error and carry on with the next transaction.
//! Nothing a single bad record can do aborts a run.

pub mod payment_engine;
pub mod record;
pub mod version;

pub use record::CsvTransaction;
pub use record::CsvTransactionType;
pub use record::RecordError;
pub use version::GIT_HASH;
pub use version::VERSION;
