//! Request translation and execution orchestration for a Zcash rollup.

pub mod error;
pub mod ledger;
pub mod mailbox;
pub mod payload;
pub mod request;
pub mod service;
pub mod units;
