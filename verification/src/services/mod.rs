//! The two services of the ledger: the transaction engine and the webhook
//! notifier.

pub mod delivery;
pub mod settlement;
pub mod transaction_service;
pub mod webhook_service;
