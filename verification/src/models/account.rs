//! Accounts, the request that opens one and the response that shows one to a
//! client.

use vstd::prelude::*;

verus! {

/// An account of a business and its balance.
#[derive(Debug, PartialEq, Eq)]
pub struct Account {
    /// Unique identifier.
    pub id: u128,
    /// The API key of the business that owns the account.
    pub api_key_id: u128,
    /// Human-readable name.
    pub account_name: String,
    /// Balance in minor units; never negative.
    pub balance_cents: i64,
    /// ISO 4217 currency code.
    pub currency: String,
    /// When the account was opened.
    pub created_at: i64,
    /// When the balance last changed.
    pub updated_at: i64,
}

/// The mathematical value of an [`Account`].
pub struct AccountView {
    pub id: u128,
    pub api_key_id: u128,
    pub account_name: Seq<char>,
    pub balance_cents: i64,
    pub currency: Seq<char>,
    pub created_at: i64,
    pub updated_at: i64,
}

impl AccountView {
    /// This account with another balance, changed at `now`.
    pub open spec fn with_balance(self, balance_cents: i64, now: i64) -> AccountView {
        AccountView { balance_cents, updated_at: now, ..self }
    }
}

impl View for Account {
    type V = AccountView;

    open spec fn view(&self) -> AccountView {
        AccountView {
            id: self.id,
            api_key_id: self.api_key_id,
            account_name: self.account_name@,
            balance_cents: self.balance_cents,
            currency: self.currency@,
            created_at: self.created_at,
            updated_at: self.updated_at,
        }
    }
}

impl DeepView for Account {
    type V = AccountView;

    open spec fn deep_view(&self) -> AccountView {
        self@
    }
}

impl Clone for Account {
    fn clone(&self) -> (copy: Self)
        ensures
            copy == *self,
    {
        Account {
            id: self.id,
            api_key_id: self.api_key_id,
            account_name: self.account_name.clone(),
            balance_cents: self.balance_cents,
            currency: self.currency.clone(),
            created_at: self.created_at,
            updated_at: self.updated_at,
        }
    }
}

/// A request to open an account.
#[derive(Debug, PartialEq, Eq)]
pub struct CreateAccountRequest {
    /// Name of the new account.
    pub account_name: String,
    /// Currency code; [`default_currency`] where the caller gives none.
    pub currency: String,
    /// Opening balance in minor units; zero where the caller gives none.
    pub initial_balance_cents: i64,
}

/// The currency of an account or transaction for which none was given.
pub fn default_currency() -> (code: String)
    ensures
        code@ == "USD"@,
{
    "USD".to_string()
}

/// An account as a client sees it: the record without its owner.
#[derive(Debug, PartialEq, Eq)]
pub struct AccountResponse {
    pub id: u128,
    pub account_name: String,
    pub balance_cents: i64,
    pub currency: String,
    pub created_at: i64,
    pub updated_at: i64,
}

/// The mathematical value of an [`AccountResponse`].
pub struct AccountResponseView {
    pub id: u128,
    pub account_name: Seq<char>,
    pub balance_cents: i64,
    pub currency: Seq<char>,
    pub created_at: i64,
    pub updated_at: i64,
}

impl AccountView {
    /// The account as a client sees it.
    pub open spec fn shown(self) -> AccountResponseView {
        AccountResponseView {
            id: self.id,
            account_name: self.account_name,
            balance_cents: self.balance_cents,
            currency: self.currency,
            created_at: self.created_at,
            updated_at: self.updated_at,
        }
    }
}

impl View for AccountResponse {
    type V = AccountResponseView;

    open spec fn view(&self) -> AccountResponseView {
        AccountResponseView {
            id: self.id,
            account_name: self.account_name@,
            balance_cents: self.balance_cents,
            currency: self.currency@,
            created_at: self.created_at,
            updated_at: self.updated_at,
        }
    }
}

impl DeepView for AccountResponse {
    type V = AccountResponseView;

    open spec fn deep_view(&self) -> AccountResponseView {
        self@
    }
}

impl AccountResponse {
    /// The response that shows `account`.
    pub open spec fn of(account: Account) -> AccountResponse {
        AccountResponse {
            id: account.id,
            account_name: account.account_name,
            balance_cents: account.balance_cents,
            currency: account.currency,
            created_at: account.created_at,
            updated_at: account.updated_at,
        }
    }
}

impl From<Account> for AccountResponse {
    fn from(account: Account) -> (response: Self) {
        AccountResponse {
            id: account.id,
            account_name: account.account_name,
            balance_cents: account.balance_cents,
            currency: account.currency,
            created_at: account.created_at,
            updated_at: account.updated_at,
        }
    }
}

impl vstd::std_specs::convert::FromSpecImpl<Account> for AccountResponse {
    open spec fn obeys_from_spec() -> bool {
        true
    }

    open spec fn from_spec(account: Account) -> AccountResponse {
        AccountResponse::of(account)
    }
}

} // verus!
