//! The error taxonomy of the ledger and how each error is presented to an
//! HTTP client.

use vstd::prelude::*;

verus! {

/// Everything that can go wrong while serving a request.
#[derive(Debug, PartialEq, Eq)]
pub enum AppError {
    /// The storage layer failed. The text is internal detail and is never
    /// shown to a client.
    Database(String),
    /// The API key is missing, unknown or inactive.
    InvalidApiKey,
    /// The account does not exist or belongs to another business.
    AccountNotFound,
    /// A debit or transfer asks for more than the account holds.
    InsufficientBalance,
    /// The request is malformed; the text says how.
    InvalidRequest(String),
    /// The amount is zero or negative.
    InvalidAmount,
    /// The webhook endpoint does not exist or belongs to another business.
    WebhookNotFound,
}

/// The mathematical value of an [`AppError`].
pub enum AppErrorView {
    Database(Seq<char>),
    InvalidApiKey,
    AccountNotFound,
    InsufficientBalance,
    InvalidRequest(Seq<char>),
    InvalidAmount,
    WebhookNotFound,
}

impl View for AppError {
    type V = AppErrorView;

    open spec fn view(&self) -> AppErrorView {
        match self {
            AppError::Database(detail) => AppErrorView::Database(detail@),
            AppError::InvalidApiKey => AppErrorView::InvalidApiKey,
            AppError::AccountNotFound => AppErrorView::AccountNotFound,
            AppError::InsufficientBalance => AppErrorView::InsufficientBalance,
            AppError::InvalidRequest(reason) => AppErrorView::InvalidRequest(reason@),
            AppError::InvalidAmount => AppErrorView::InvalidAmount,
            AppError::WebhookNotFound => AppErrorView::WebhookNotFound,
        }
    }
}

impl Clone for AppError {
    fn clone(&self) -> (copy: Self)
        ensures
            copy == *self,
    {
        match self {
            AppError::Database(detail) => AppError::Database(detail.clone()),
            AppError::InvalidApiKey => AppError::InvalidApiKey,
            AppError::AccountNotFound => AppError::AccountNotFound,
            AppError::InsufficientBalance => AppError::InsufficientBalance,
            AppError::InvalidRequest(reason) => AppError::InvalidRequest(reason.clone()),
            AppError::InvalidAmount => AppError::InvalidAmount,
            AppError::WebhookNotFound => AppError::WebhookNotFound,
        }
    }
}

impl DeepView for AppError {
    type V = AppErrorView;

    open spec fn deep_view(&self) -> AppErrorView {
        self@
    }
}

/// Why the ledger engine refused an operation.
#[derive(Debug, Clone, Copy, PartialEq, Eq, Structural)]
pub enum Rejection {
    /// The amount is zero or negative.
    InvalidAmount,
    /// A transfer names the same account twice.
    SameAccount,
    /// The accounts named do not fit the kind of the operation.
    Malformed,
    /// An account named does not exist.
    AccountNotFound,
    /// The paying account holds less than the amount.
    InsufficientBalance,
    /// The store failed or refused; the unit of work was undone.
    StorageFailure,
}

impl Rejection {
    /// The error that reports this rejection to a caller.
    pub open spec fn error(self) -> AppErrorView {
        match self {
            Rejection::InvalidAmount => AppErrorView::InvalidAmount,
            Rejection::SameAccount => AppErrorView::InvalidRequest(
                "Cannot transfer to same account"@,
            ),
            Rejection::Malformed => AppErrorView::InvalidRequest(
                "Accounts do not fit the transaction type"@,
            ),
            Rejection::AccountNotFound => AppErrorView::AccountNotFound,
            Rejection::InsufficientBalance => AppErrorView::InsufficientBalance,
            Rejection::StorageFailure => AppErrorView::Database("storage failure"@),
        }
    }

    /// The error that reports this rejection to a caller.
    pub fn into_error(self) -> (error: AppError)
        ensures
            error@ == self.error(),
    {
        match self {
            Rejection::InvalidAmount => AppError::InvalidAmount,
            Rejection::SameAccount => AppError::InvalidRequest(
                "Cannot transfer to same account".to_string(),
            ),
            Rejection::Malformed => AppError::InvalidRequest(
                "Accounts do not fit the transaction type".to_string(),
            ),
            Rejection::AccountNotFound => AppError::AccountNotFound,
            Rejection::InsufficientBalance => AppError::InsufficientBalance,
            Rejection::StorageFailure => AppError::Database("storage failure".to_string()),
        }
    }
}

/// What an HTTP client is told about an error.
#[derive(Debug, PartialEq, Eq)]
pub struct ErrorBody {
    /// The HTTP status code.
    pub status: u16,
    /// A stable machine-readable code.
    pub code: String,
    /// A human-readable message.
    pub message: String,
}

impl AppError {
    /// The HTTP status code that stands for this error.
    pub open spec fn spec_status(self) -> int {
        match self {
            AppError::Database(_) => 500,
            AppError::InvalidApiKey => 401,
            AppError::AccountNotFound => 404,
            AppError::InsufficientBalance => 422,
            AppError::InvalidRequest(_) => 400,
            AppError::InvalidAmount => 400,
            AppError::WebhookNotFound => 404,
        }
    }

    /// The machine-readable code of this error.
    pub open spec fn spec_code(self) -> Seq<char> {
        match self {
            AppError::Database(_) => "internal_error"@,
            AppError::InvalidApiKey => "invalid_api_key"@,
            AppError::AccountNotFound => "account_not_found"@,
            AppError::InsufficientBalance => "insufficient_balance"@,
            AppError::InvalidRequest(_) => "invalid_request"@,
            AppError::InvalidAmount => "invalid_amount"@,
            AppError::WebhookNotFound => "webhook_not_found"@,
        }
    }

    /// The text that describes this error in logs.
    pub open spec fn spec_description(self) -> Seq<char> {
        match self {
            AppError::Database(detail) => "Database error: "@ + detail@,
            AppError::InvalidApiKey => "Invalid API key"@,
            AppError::AccountNotFound => "Account not found"@,
            AppError::InsufficientBalance => "Insufficient balance"@,
            AppError::InvalidRequest(_) => "Invalid request"@,
            AppError::InvalidAmount => "Amount must be positive"@,
            AppError::WebhookNotFound => "Webhook endpoint not found"@,
        }
    }

    /// The message shown to a client. Storage detail is replaced by a fixed
    /// sentence; a malformed request is answered with its own explanation.
    pub open spec fn spec_message(self) -> Seq<char> {
        match self {
            AppError::Database(_) => "An internal error occurred"@,
            AppError::InvalidRequest(reason) => reason@,
            _ => self.spec_description(),
        }
    }

    /// The HTTP status code that stands for this error.
    pub fn status_code(&self) -> (status: u16)
        ensures
            status == self.spec_status(),
    {
        match self {
            AppError::Database(_) => 500,
            AppError::InvalidApiKey => 401,
            AppError::AccountNotFound => 404,
            AppError::InsufficientBalance => 422,
            AppError::InvalidRequest(_) => 400,
            AppError::InvalidAmount => 400,
            AppError::WebhookNotFound => 404,
        }
    }

    /// The machine-readable code of this error.
    pub fn code(&self) -> (code: String)
        ensures
            code@ == self.spec_code(),
    {
        match self {
            AppError::Database(_) => "internal_error".to_string(),
            AppError::InvalidApiKey => "invalid_api_key".to_string(),
            AppError::AccountNotFound => "account_not_found".to_string(),
            AppError::InsufficientBalance => "insufficient_balance".to_string(),
            AppError::InvalidRequest(_) => "invalid_request".to_string(),
            AppError::InvalidAmount => "invalid_amount".to_string(),
            AppError::WebhookNotFound => "webhook_not_found".to_string(),
        }
    }

    /// The text that describes this error in logs.
    pub fn describe(&self) -> (text: String)
        ensures
            text@ == self.spec_description(),
    {
        match self {
            AppError::Database(detail) => "Database error: ".to_string().concat(detail.as_str()),
            AppError::InvalidApiKey => "Invalid API key".to_string(),
            AppError::AccountNotFound => "Account not found".to_string(),
            AppError::InsufficientBalance => "Insufficient balance".to_string(),
            AppError::InvalidRequest(_) => "Invalid request".to_string(),
            AppError::InvalidAmount => "Amount must be positive".to_string(),
            AppError::WebhookNotFound => "Webhook endpoint not found".to_string(),
        }
    }

    /// The message shown to a client.
    pub fn message(&self) -> (text: String)
        ensures
            text@ == self.spec_message(),
    {
        match self {
            AppError::Database(_) => "An internal error occurred".to_string(),
            AppError::InvalidRequest(reason) => reason.clone(),
            _ => self.describe(),
        }
    }

    /// Status, code and message of the response that answers this error.
    pub fn into_response(self) -> (body: ErrorBody)
        ensures
            body.status == self.spec_status(),
            body.code@ == self.spec_code(),
            body.message@ == self.spec_message(),
    {
        ErrorBody { status: self.status_code(), code: self.code(), message: self.message() }
    }
}

} // verus!
