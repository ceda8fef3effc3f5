//! Node monitor: polls a set of remote accounts, keeps the latest snapshot,
//! and records aggregate history for subscriptions at their own intervals.

pub mod clock;
pub mod history;
pub mod nodes;
pub mod amount;
pub mod models;
pub mod recorder;
pub mod poller;
pub mod config;
pub mod verification_code;
pub mod apis;
pub mod res;
