//! What runs before a request reaches its handler.

pub mod auth;
