//! A statistics ledger for the outcomes of transactions that were executed
//! elsewhere: how many were attempted, how many succeeded or failed and why,
//! which fee tier they used, and what the last hundred outcomes were.
//!
//! The ledger is three independent aggregates, each a plain value that the
//! caller loads, hands to one of the operations in [`instructions`], and
//! stores again when the operation returned `Ok`.
//!
//! - [`registry`], [`catalog`] and [`fees`] hold the aggregates, what each of
//!   them stands for as a mathematical value, and the one step that each can
//!   take.
//! - [`accounts`] groups the aggregates as the operations take them, and says
//!   what a whole ledger is.
//! - [`instructions`] holds the four operations.
//! - [`trace`] says what holds of a ledger after any sequence of calls.
//!
//! Every counter is advanced with a check for overflow, one counter after the
//! other. An operation that meets a full counter returns `CountOverflow` and
//! leaves the counters that it had already advanced as they are; the contract
//! of each operation says exactly which. A store that commits only what an
//! accepted call leaves behind sees every call as all or nothing.

pub mod accounts;
pub mod catalog;
pub mod error;
pub mod fees;
pub mod instructions;
pub mod registry;
pub mod trace;

pub use crate::accounts::{Initialize, RecordFailure, RegisterTxOutcome, UpdatePriorityFee};
pub use crate::catalog::FailureCatalog;
pub use crate::error::TxGuardError;
pub use crate::fees::PriorityFeeStats;
pub use crate::instructions::{initialize, record_failure, register_tx_outcome, update_priority_fee};
pub use crate::registry::TransactionRegistry;
