//! A ledger for business accounts.
//!
//! Balances are kept in minor currency units and change only through credit,
//! debit and transfer operations that are atomic and idempotent. Completed
//! transactions are announced to registered webhook endpoints with signed
//! payloads, and every delivery attempt is kept as an audit record.
//!
//! The library decides; it does no input or output of its own. The engine
//! ([`services::transaction_service`]) and the notifier
//! ([`services::delivery`]) are state machines: each step names a command for
//! the store or a request for an endpoint, and whoever runs the machine
//! carries it out and hands back what happened. [`store`] fixes what a
//! faithful store answers, and [`ledger`] and [`registry`] are stores that keep
//! everything in memory and are proved to behave so. What holds of every
//! operation is stated in [`laws`].

pub mod config;
pub mod error;
pub mod handlers;
pub mod laws;
pub mod ledger;
pub mod middleware;
pub mod models;
pub mod platform;
pub mod registry;
pub mod services;
pub mod state;
pub mod store;
pub mod text;
