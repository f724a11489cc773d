//! Marshaling and transaction-signing layer between canonically encoded ledger
//! records and fixed-layout values that foreign callers consume.
//!
//! - `data`: the fixed-layout values and the status every operation ends in.
//! - `record`: ledger values as the canonical decoder yields them.
//! - `account_resource`, `event`, `transaction`: the marshalers.
//! - `error`: the last-error protocol.
//! - `bytes`, `barrier`: byte copies and an optimization barrier.
pub mod account_resource;
pub mod barrier;
pub mod bytes;
pub mod data;
pub mod error;
pub mod event;
pub mod record;
pub mod transaction;
