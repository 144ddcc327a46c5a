//! What the service does with a request once its sender is known: it checks
//! that the sender owns what the request names, calls the service that does
//! the work and shapes the response.

pub mod accounts;
pub mod health;
pub mod transactions;
pub mod webhooks;
