//! Verified core of an on-ledger treasury suite: time-based token release
//! schedules (linear payroll streams and cliff/linear vesting grants) together
//! with the bookkeeping layers around them (DAO budget proposals and a
//! multi-signature withdrawal workflow).
//!
//! Every module models its contract state as an explicit value and proves the
//! accounting invariants: claimed amounts never exceed totals, accrual is
//! monotone in time and clamped to the schedule total, and termination settles
//! value so that claims plus refunds equal the original total exactly.
//!
//! The host environment (account authentication, persistent storage, token
//! transfers, event publication, and the ledger clock) stays outside this
//! crate; callers authenticate the acting account, pass the current ledger
//! timestamp in, and perform the transfers that the results describe.

pub mod accounts;
pub mod accrual;
pub mod governance;
pub mod history;
pub mod stream;
pub mod treasury;
pub mod vesting;
