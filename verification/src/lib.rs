//! Parametric flood insurance: a policy ledger whose payouts are gated on a
//! measured water level, and the ingestion cache that keeps the latest
//! reading of each monitored site.
//!
//! Water levels and thresholds are fixed-point numbers, in hundredths of a
//! foot. Every entry point takes the caller's identity and the current time
//! as arguments; nothing in this crate reads a clock, a network or a disk.

pub mod amount;
pub mod assoc;
pub mod cache;
pub mod errors;
pub mod guarantees;
pub mod holders;
pub mod identity;
pub mod json;
pub mod ledger;
pub mod level;
pub mod mirror;
pub mod oracle;
pub mod policy;
pub mod reading;
pub mod stable;
pub mod table;
pub mod usgs;
