//! The records the ledger keeps and the shapes of its requests and responses.
//!
//! Identifiers are 128-bit numbers, timestamps are microseconds since the
//! Unix epoch, and amounts are whole minor currency units.

use vstd::prelude::*;

pub mod account;
pub mod api_key;
pub mod transaction;
pub mod webhook;

verus! {

/// A copy of an optional text.
pub fn copy_text(text: &Option<String>) -> (copy: Option<String>)
    ensures
        copy == *text,
{
    match text {
        Some(s) => Some(s.clone()),
        None => None,
    }
}

} // verus!
