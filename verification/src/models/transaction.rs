//! Transactions, the requests that create them and the response that shows
//! them to a client.

use crate::models::copy_text;
use vstd::prelude::*;

verus! {

/// What a transaction does to the accounts it names.
#[derive(Debug, Clone, Copy, PartialEq, Eq, Structural)]
pub enum TransactionKind {
    /// Money enters an account.
    Credit,
    /// Money leaves an account.
    Debit,
    /// Money moves from one account to another.
    Transfer,
}

impl TransactionKind {
    /// The name of the kind as it is stored and sent.
    pub open spec fn name(self) -> Seq<char> {
        match self {
            TransactionKind::Credit => "credit"@,
            TransactionKind::Debit => "debit"@,
            TransactionKind::Transfer => "transfer"@,
        }
    }

    /// The name of the kind as it is stored and sent.
    pub fn as_str(&self) -> (text: &'static str)
        ensures
            text@ == self.name(),
    {
        match self {
            TransactionKind::Credit => "credit",
            TransactionKind::Debit => "debit",
            TransactionKind::Transfer => "transfer",
        }
    }

    /// The kind with the given name, if there is one.
    pub fn parse(text: &str) -> (kind: Option<TransactionKind>)
        ensures
            kind matches Some(k) ==> k.name() == text@,
            kind is None ==> forall|k: TransactionKind| k.name() != text@,
    {
        let owned = text.to_string();
        if owned == "credit".to_string() {
            Some(TransactionKind::Credit)
        } else if owned == "debit".to_string() {
            Some(TransactionKind::Debit)
        } else if owned == "transfer".to_string() {
            Some(TransactionKind::Transfer)
        } else {
            None
        }
    }
}

/// How a recorded transaction ended.
#[derive(Debug, Clone, Copy, PartialEq, Eq, Structural)]
pub enum TransactionStatus {
    /// The balances were changed.
    Completed,
    /// The operation was rejected and recorded.
    Failed,
}

impl TransactionStatus {
    /// The name of the status as it is stored and sent.
    pub open spec fn name(self) -> Seq<char> {
        match self {
            TransactionStatus::Completed => "completed"@,
            TransactionStatus::Failed => "failed"@,
        }
    }

    /// The name of the status as it is stored and sent.
    pub fn as_str(&self) -> (text: &'static str)
        ensures
            text@ == self.name(),
    {
        match self {
            TransactionStatus::Completed => "completed",
            TransactionStatus::Failed => "failed",
        }
    }

    /// The status with the given name, if there is one.
    pub fn parse(text: &str) -> (status: Option<TransactionStatus>)
        ensures
            status matches Some(s) ==> s.name() == text@,
            status is None ==> forall|s: TransactionStatus| s.name() != text@,
    {
        let owned = text.to_string();
        if owned == "completed".to_string() {
            Some(TransactionStatus::Completed)
        } else if owned == "failed".to_string() {
            Some(TransactionStatus::Failed)
        } else {
            None
        }
    }
}

/// One entry of the transaction log.
#[derive(Debug, PartialEq, Eq)]
pub struct Transaction {
    /// Unique identifier.
    pub id: u128,
    /// Caller-chosen token; at most one transaction exists per token.
    pub idempotency_key: Option<String>,
    /// Credit, debit or transfer.
    pub transaction_type: TransactionKind,
    /// The account that pays; absent for a credit.
    pub from_account_id: Option<u128>,
    /// The account that receives; absent for a debit.
    pub to_account_id: Option<u128>,
    /// Amount in minor units, strictly positive.
    pub amount_cents: i64,
    /// ISO 4217 currency code.
    pub currency: String,
    /// Free text supplied by the caller.
    pub description: Option<String>,
    /// Completed or failed.
    pub status: TransactionStatus,
    /// When the transaction was recorded.
    pub created_at: i64,
    /// Opaque structured payload, as JSON text.
    pub metadata: Option<String>,
}

/// The mathematical value of a [`Transaction`].
pub struct TransactionView {
    pub id: u128,
    pub idempotency_key: Option<Seq<char>>,
    pub transaction_type: TransactionKind,
    pub from_account_id: Option<u128>,
    pub to_account_id: Option<u128>,
    pub amount_cents: i64,
    pub currency: Seq<char>,
    pub description: Option<Seq<char>>,
    pub status: TransactionStatus,
    pub created_at: i64,
    pub metadata: Option<Seq<char>>,
}

impl TransactionView {
    /// The amount is positive and the accounts named fit the kind: a credit
    /// names only a receiver, a debit only a payer, a transfer two different
    /// accounts.
    pub open spec fn well_formed(self) -> bool {
        &&& self.amount_cents > 0
        &&& match self.transaction_type {
            TransactionKind::Credit => self.from_account_id is None && self.to_account_id is Some,
            TransactionKind::Debit => self.from_account_id is Some && self.to_account_id is None,
            TransactionKind::Transfer => {
                &&& self.from_account_id is Some
                &&& self.to_account_id is Some
                &&& self.from_account_id != self.to_account_id
            },
        }
    }
}

impl View for Transaction {
    type V = TransactionView;

    open spec fn view(&self) -> TransactionView {
        TransactionView {
            id: self.id,
            idempotency_key: self.idempotency_key.deep_view(),
            transaction_type: self.transaction_type,
            from_account_id: self.from_account_id,
            to_account_id: self.to_account_id,
            amount_cents: self.amount_cents,
            currency: self.currency@,
            description: self.description.deep_view(),
            status: self.status,
            created_at: self.created_at,
            metadata: self.metadata.deep_view(),
        }
    }
}

impl DeepView for Transaction {
    type V = TransactionView;

    open spec fn deep_view(&self) -> TransactionView {
        self@
    }
}

impl Transaction {
    /// Whether the amount is positive and the accounts named fit the kind.
    pub fn is_well_formed(&self) -> (ok: bool)
        ensures
            ok == self@.well_formed(),
    {
        if self.amount_cents <= 0 {
            return false;
        }
        match self.transaction_type {
            TransactionKind::Credit => self.from_account_id.is_none()
                && self.to_account_id.is_some(),
            TransactionKind::Debit => self.from_account_id.is_some()
                && self.to_account_id.is_none(),
            TransactionKind::Transfer => match (self.from_account_id, self.to_account_id) {
                (Some(from), Some(to)) => from != to,
                _ => false,
            },
        }
    }
}

impl Clone for Transaction {
    fn clone(&self) -> (copy: Self)
        ensures
            copy == *self,
    {
        Transaction {
            id: self.id,
            idempotency_key: copy_text(&self.idempotency_key),
            transaction_type: self.transaction_type,
            from_account_id: self.from_account_id,
            to_account_id: self.to_account_id,
            amount_cents: self.amount_cents,
            currency: self.currency.clone(),
            description: copy_text(&self.description),
            status: self.status,
            created_at: self.created_at,
            metadata: copy_text(&self.metadata),
        }
    }
}

/// A request to add money to an account.
#[derive(Debug, PartialEq, Eq)]
pub struct CreditRequest {
    /// The account that receives.
    pub account_id: u128,
    /// Amount in minor units.
    pub amount_cents: i64,
    /// Free text.
    pub description: Option<String>,
    /// Token that makes a retry safe.
    pub idempotency_key: Option<String>,
}

/// A request to take money from an account.
#[derive(Debug, PartialEq, Eq)]
pub struct DebitRequest {
    /// The account that pays.
    pub account_id: u128,
    /// Amount in minor units.
    pub amount_cents: i64,
    /// Free text.
    pub description: Option<String>,
    /// Token that makes a retry safe.
    pub idempotency_key: Option<String>,
}

/// A request to move money between two accounts.
#[derive(Debug, PartialEq, Eq)]
pub struct TransferRequest {
    /// The account that pays.
    pub from_account_id: u128,
    /// The account that receives.
    pub to_account_id: u128,
    /// Amount in minor units.
    pub amount_cents: i64,
    /// Free text.
    pub description: Option<String>,
    /// Token that makes a retry safe.
    pub idempotency_key: Option<String>,
}

/// A transaction as a client sees it: the log entry without its idempotency
/// key and metadata.
#[derive(Debug, PartialEq, Eq)]
pub struct TransactionResponse {
    pub id: u128,
    pub transaction_type: TransactionKind,
    pub from_account_id: Option<u128>,
    pub to_account_id: Option<u128>,
    pub amount_cents: i64,
    pub currency: String,
    pub description: Option<String>,
    pub status: TransactionStatus,
    pub created_at: i64,
}

/// What clients and endpoints are told of a transaction: everything but its
/// idempotency key and metadata.
pub struct SummaryView {
    pub id: u128,
    pub transaction_type: TransactionKind,
    pub from_account_id: Option<u128>,
    pub to_account_id: Option<u128>,
    pub amount_cents: i64,
    pub currency: Seq<char>,
    pub description: Option<Seq<char>>,
    pub status: TransactionStatus,
    pub created_at: i64,
}

/// What clients and endpoints are told of `transaction`.
pub open spec fn summary(transaction: TransactionView) -> SummaryView {
    SummaryView {
        id: transaction.id,
        transaction_type: transaction.transaction_type,
        from_account_id: transaction.from_account_id,
        to_account_id: transaction.to_account_id,
        amount_cents: transaction.amount_cents,
        currency: transaction.currency,
        description: transaction.description,
        status: transaction.status,
        created_at: transaction.created_at,
    }
}

impl View for TransactionResponse {
    type V = SummaryView;

    open spec fn view(&self) -> SummaryView {
        SummaryView {
            id: self.id,
            transaction_type: self.transaction_type,
            from_account_id: self.from_account_id,
            to_account_id: self.to_account_id,
            amount_cents: self.amount_cents,
            currency: self.currency@,
            description: self.description.deep_view(),
            status: self.status,
            created_at: self.created_at,
        }
    }
}

impl DeepView for TransactionResponse {
    type V = SummaryView;

    open spec fn deep_view(&self) -> SummaryView {
        self@
    }
}

impl TransactionResponse {
    /// The response that shows `transaction`.
    pub open spec fn of(transaction: Transaction) -> TransactionResponse {
        TransactionResponse {
            id: transaction.id,
            transaction_type: transaction.transaction_type,
            from_account_id: transaction.from_account_id,
            to_account_id: transaction.to_account_id,
            amount_cents: transaction.amount_cents,
            currency: transaction.currency,
            description: transaction.description,
            status: transaction.status,
            created_at: transaction.created_at,
        }
    }
}

impl From<Transaction> for TransactionResponse {
    fn from(transaction: Transaction) -> (response: Self) {
        TransactionResponse {
            id: transaction.id,
            transaction_type: transaction.transaction_type,
            from_account_id: transaction.from_account_id,
            to_account_id: transaction.to_account_id,
            amount_cents: transaction.amount_cents,
            currency: transaction.currency,
            description: transaction.description,
            status: transaction.status,
            created_at: transaction.created_at,
        }
    }
}

impl vstd::std_specs::convert::FromSpecImpl<Transaction> for TransactionResponse {
    open spec fn obeys_from_spec() -> bool {
        true
    }

    open spec fn from_spec(transaction: Transaction) -> TransactionResponse {
        TransactionResponse::of(transaction)
    }
}

} // verus!
