//! An epoch-based token staking ledger.
//!
//! Users lock a fungible asset into a custodial pool for one of four fixed
//! epoch buckets, each with its own lock duration and annual yield rate, and
//! later withdraw principal plus accrued reward. This crate holds the core
//! that is worth verifying: the per-user staking record, the epoch policy
//! table, the reward-accrual arithmetic, and the stake / unstake state
//! machine with its error rules. Durable storage of records and the actual
//! movement of asset units between balances are external collaborators: the
//! surrounding program performs them and commits a record only when the
//! paired transfer went through.

pub mod errors;
pub mod policy;
pub mod record;
pub mod reward;
pub mod machine;
pub mod laws;
