//! Authentication by API key.
//!
//! A request carries its key in the header `Authorization: Bearer <key>`.
//! The key is hashed with SHA-256 and the digest, as hexadecimal text, is
//! looked up among the keys that are switched on.

use crate::error::{AppError, AppErrorView};
use crate::models::api_key::{ApiKey, ApiKeyView};
use crate::platform::{hex_encode, hex_string, sha256, sha256_digest};
use vstd::prelude::*;
use vstd::utf8::encode_utf8;

verus! {

/// Who makes a request.
#[derive(Debug, PartialEq, Eq)]
pub struct AuthContext {
    /// The API key that authenticated the request.
    pub api_key_id: u128,
    /// The name of the business that uses the key.
    pub business_name: String,
}

/// The mathematical value of an [`AuthContext`].
pub struct AuthView {
    pub api_key_id: u128,
    pub business_name: Seq<char>,
}

impl View for AuthContext {
    type V = AuthView;

    open spec fn view(&self) -> AuthView {
        AuthView { api_key_id: self.api_key_id, business_name: self.business_name@ }
    }
}

/// The seven characters before the key in the header.
pub open spec fn bearer_prefix() -> Seq<char> {
    seq!['B', 'e', 'a', 'r', 'e', 'r', ' ']
}

/// The key that the header value `header` carries, if the value begins with
/// `Bearer` and a blank.
pub open spec fn bearer_token(header: Seq<char>) -> Option<Seq<char>> {
    if header.len() >= 7 && header.subrange(0, 7) == bearer_prefix() {
        Some(header.subrange(7, header.len() as int))
    } else {
        None
    }
}

/// The text under which the key `api_key` is filed: the SHA-256 digest of
/// its bytes as hexadecimal digits.
pub open spec fn key_hash(api_key: Seq<char>) -> Seq<char> {
    hex_encode(sha256(encode_utf8(api_key)))
}

/// The digest text that the header value `header` stands for, or the error
/// that answers a header without a key.
pub open spec fn presented_hash(header: Option<Seq<char>>) -> Result<Seq<char>, AppErrorView> {
    match header {
        Some(value) => match bearer_token(value) {
            Some(token) => Ok(key_hash(token)),
            None => Err(AppErrorView::InvalidApiKey),
        },
        None => Err(AppErrorView::InvalidApiKey),
    }
}

/// The context that the key record `record` gives, or the error that
/// answers a key that is unknown or switched off.
pub open spec fn granted(record: Option<ApiKeyView>) -> Result<AuthView, AppErrorView> {
    match record {
        Some(key) => if key.is_active {
            Ok(AuthView { api_key_id: key.id, business_name: key.business_name })
        } else {
            Err(AppErrorView::InvalidApiKey)
        },
        None => Err(AppErrorView::InvalidApiKey),
    }
}

/// Entry `i` of `keys` is switched on and filed under `hash`.
pub open spec fn key_at(keys: Seq<ApiKeyView>, i: int, hash: Seq<char>) -> bool {
    0 <= i < keys.len() && keys[i].is_active && keys[i].key_hash == hash
}

/// The first key among `keys` that is switched on and filed under `hash`.
pub open spec fn lookup(keys: Seq<ApiKeyView>, hash: Seq<char>) -> Option<ApiKeyView>
    decreases keys.len(),
{
    if keys.len() == 0 {
        None
    } else if key_at(keys, 0, hash) {
        Some(keys[0])
    } else {
        lookup(keys.drop_first(), hash)
    }
}

/// What the request with the header value `header` is granted, given the
/// keys `keys`.
pub open spec fn authentication(keys: Seq<ApiKeyView>, header: Option<Seq<char>>) -> Result<
    AuthView,
    AppErrorView,
> {
    match presented_hash(header) {
        Ok(hash) => granted(lookup(keys, hash)),
        Err(error) => Err(error),
    }
}

/// The mathematical value of the result of an authentication.
pub open spec fn auth_view(result: Result<AuthContext, AppError>) -> Result<AuthView, AppErrorView> {
    match result {
        Ok(context) => Ok(context@),
        Err(error) => Err(error@),
    }
}

/// The mathematical value of a digest text or the error in its place.
pub open spec fn hash_view(result: Result<String, AppError>) -> Result<Seq<char>, AppErrorView> {
    match result {
        Ok(hash) => Ok(hash@),
        Err(error) => Err(error@),
    }
}

/// The key that the header value `header` carries.
pub fn extract_bearer_token(header: &str) -> (token: Option<String>)
    ensures
        token.deep_view() == bearer_token(header@),
{
    let length = header.unicode_len();
    if length < 7 {
        return None;
    }
    let begins = header.get_char(0) == 'B' && header.get_char(1) == 'e' && header.get_char(2)
        == 'a' && header.get_char(3) == 'r' && header.get_char(4) == 'e' && header.get_char(5)
        == 'r' && header.get_char(6) == ' ';
    if !begins {
        assert(header@.subrange(0, 7) != bearer_prefix()) by {
            if header@.subrange(0, 7) == bearer_prefix() {
                assert(forall|i: int| 0 <= i < 7 ==> header@.subrange(0, 7)[i] == header@[i]);
                assert(bearer_prefix()[0] == 'B' && bearer_prefix()[1] == 'e' && bearer_prefix()[2]
                    == 'a' && bearer_prefix()[3] == 'r' && bearer_prefix()[4] == 'e'
                    && bearer_prefix()[5] == 'r' && bearer_prefix()[6] == ' ');
            }
        }
        return None;
    }
    assert(header@.subrange(0, 7) =~= bearer_prefix());
    Some(header.substring_char(7, length).to_string())
}

/// The text under which the key `api_key` is filed.
pub fn hash_api_key(api_key: &str) -> (hash: String)
    ensures
        hash@ == key_hash(api_key@),
{
    let digest = sha256_digest(api_key.as_bytes());
    hex_string(digest.as_slice())
}

/// The digest text that a request presents, from the value of its
/// authorization header.
pub fn presented_key_hash(header: Option<&str>) -> (result: Result<String, AppError>)
    ensures
        hash_view(result) == presented_hash(
            match header {
                Some(value) => Some(value@),
                None => None,
            },
        ),
{
    match header {
        None => Err(AppError::InvalidApiKey),
        Some(value) => match extract_bearer_token(value) {
            None => Err(AppError::InvalidApiKey),
            Some(token) => Ok(hash_api_key(token.as_str())),
        },
    }
}

/// The context that a key record gives: the record must exist and be
/// switched on.
pub fn authenticate(record: Option<&ApiKey>) -> (result: Result<AuthContext, AppError>)
    ensures
        auth_view(result) == granted(
            match record {
                Some(key) => Some(key@),
                None => None,
            },
        ),
{
    match record {
        Some(key) => {
            if key.is_active {
                Ok(AuthContext { api_key_id: key.id, business_name: key.business_name.clone() })
            } else {
                Err(AppError::InvalidApiKey)
            }
        },
        None => Err(AppError::InvalidApiKey),
    }
}

/// Authenticates a request by the value of its authorization header against
/// the keys `keys`.
pub fn auth_middleware(keys: &Vec<ApiKey>, header: Option<&str>) -> (result: Result<
    AuthContext,
    AppError,
>)
    ensures
        auth_view(result) == authentication(
            keys.deep_view(),
            match header {
                Some(value) => Some(value@),
                None => None,
            },
        ),
{
    let hash = match presented_key_hash(header) {
        Ok(hash) => hash,
        Err(error) => {
            return Err(error);
        },
    };
    let ghost all = keys.deep_view();
    let ghost presented = match header {
        Some(value) => Some(value@),
        None => None,
    };
    let mut i: usize = 0;
    assert(all.skip(0) =~= all);
    while i < keys.len()
        invariant
            i <= keys@.len(),
            all == keys.deep_view(),
            presented == match header {
                Some(value) => Some(value@),
                None => None,
            },
            presented_hash(presented) == Ok::<Seq<char>, AppErrorView>(hash@),
            lookup(all, hash@) == lookup(all.skip(i as int), hash@),
        decreases keys@.len() - i,
    {
        let ghost rest = all.skip(i as int);
        assert(rest[0] == keys@[i as int]@);
        assert(rest.drop_first() =~= all.skip(i as int + 1));
        if keys[i].is_active && keys[i].key_hash == hash {
            assert(key_at(rest, 0, hash@));
            return authenticate(Some(&keys[i]));
        }
        i += 1;
    }
    authenticate(None)
}

} // verus!
