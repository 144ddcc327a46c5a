//! API keys, by which businesses are told apart.

use vstd::prelude::*;

verus! {

/// The record of an API key. The key itself is not kept, only its SHA-256
/// digest.
#[derive(Debug, PartialEq, Eq)]
pub struct ApiKey {
    pub id: u128,
    /// The SHA-256 digest of the key, as 64 hexadecimal digits.
    pub key_hash: String,
    /// The name of the business that uses the key.
    pub business_name: String,
    pub created_at: i64,
    /// A key that is switched off authenticates nobody.
    pub is_active: bool,
}

/// The mathematical value of an [`ApiKey`].
pub struct ApiKeyView {
    pub id: u128,
    pub key_hash: Seq<char>,
    pub business_name: Seq<char>,
    pub created_at: i64,
    pub is_active: bool,
}

impl View for ApiKey {
    type V = ApiKeyView;

    open spec fn view(&self) -> ApiKeyView {
        ApiKeyView {
            id: self.id,
            key_hash: self.key_hash@,
            business_name: self.business_name@,
            created_at: self.created_at,
            is_active: self.is_active,
        }
    }
}

impl DeepView for ApiKey {
    type V = ApiKeyView;

    open spec fn deep_view(&self) -> ApiKeyView {
        self@
    }
}

} // verus!
