//! Converter from brokerage transaction records to plain-text double-entry
//! bookkeeping postings.
//!
//! A decoded [`record::TransactionRecord`] together with an account name is
//! turned into a balanced ledger entry (or into nothing at all, for the
//! record kinds that carry no transferable value). The conversion is a pure
//! function of the record, the account name and an explicit reference
//! instant; all of its output is pinned down by contracts.

pub mod args;
pub mod clock;
pub mod decimal;
pub mod engine;
pub mod laws;
pub mod record;
pub mod ticker;
pub mod timestamp;
