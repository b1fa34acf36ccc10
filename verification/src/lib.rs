//! Balance ledger for a chat-community tip bot.
//!
//! The crate keeps one table of users, each with an external address and a
//! token balance, in an embedded SQLite database reached through `rusqlite`.
//! On top of the store it enforces the domain rules: address-format checks,
//! registration, balance queries, tips between users with a compensation
//! rule, and a one-shot faucet.  A dispatcher maps a textual command name and
//! its arguments onto exactly one of those operations.

pub mod store;
pub mod text;
pub mod ledger;
pub mod laws;
pub mod dispatch;
