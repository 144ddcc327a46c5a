use ledger_engine::config::{default_port, Config, DEFAULT_PORT};
use ledger_engine::error::{AppError, ErrorBody, Rejection};
use ledger_engine::handlers::health::health_check;
use ledger_engine::models::account::{default_currency, Account, AccountResponse};
use ledger_engine::models::copy_text;
use ledger_engine::models::transaction::{
    TransactionKind, TransactionResponse, TransactionStatus,
};
use ledger_engine::services::transaction_service::{
    credit_row, debit_row, draft_credit, draft_debit, draft_transfer, report, transfer_row,
};
use ledger_engine::models::transaction::{CreditRequest, DebitRequest, TransferRequest};
use ledger_engine::text::{int_to_text, natural_to_text};

#[test]
fn port_defaults_to_3000() {
    assert_eq!(default_port(), 3000);
    assert_eq!(DEFAULT_PORT, 3000);
    let config = Config::new("postgres://localhost/ledger".to_string(), None);
    assert_eq!(config.server_port, 3000);
    assert_eq!(config.database_url, "postgres://localhost/ledger");
    assert_eq!(config.listen_address(), (0, 0, 0, 0, 3000));
    let config = Config::new("postgres://localhost/ledger".to_string(), Some(8080));
    assert_eq!(config.server_port, 8080);
    assert_eq!(config.listen_address(), (0, 0, 0, 0, 8080));
}

#[test]
fn currency_defaults_to_usd() {
    assert_eq!(default_currency(), "USD");
}

#[test]
fn kinds_have_stable_names() {
    assert_eq!(TransactionKind::Credit.as_str(), "credit");
    assert_eq!(TransactionKind::Debit.as_str(), "debit");
    assert_eq!(TransactionKind::Transfer.as_str(), "transfer");
    assert_eq!(TransactionKind::parse("credit"), Some(TransactionKind::Credit));
    assert_eq!(TransactionKind::parse("debit"), Some(TransactionKind::Debit));
    assert_eq!(TransactionKind::parse("transfer"), Some(TransactionKind::Transfer));
    assert_eq!(TransactionKind::parse("Credit"), None);
    assert_eq!(TransactionKind::parse(""), None);
}

#[test]
fn statuses_have_stable_names() {
    assert_eq!(TransactionStatus::Completed.as_str(), "completed");
    assert_eq!(TransactionStatus::Failed.as_str(), "failed");
    assert_eq!(TransactionStatus::parse("completed"), Some(TransactionStatus::Completed));
    assert_eq!(TransactionStatus::parse("failed"), Some(TransactionStatus::Failed));
    assert_eq!(TransactionStatus::parse("pending"), None);
}

#[test]
fn rows_are_well_formed_by_kind() {
    assert!(credit_row(1, 5, None, None, 9, 0).is_well_formed());
    assert!(debit_row(1, 5, None, None, 9, 0).is_well_formed());
    assert!(transfer_row(1, 2, 5, None, None, 9, 0).is_well_formed());
    assert!(!transfer_row(1, 1, 5, None, None, 9, 0).is_well_formed());
    assert!(!credit_row(1, 0, None, None, 9, 0).is_well_formed());
    assert!(!debit_row(1, -5, None, None, 9, 0).is_well_formed());
}

#[test]
fn every_error_has_its_status_code_and_message() {
    let cases = vec![
        (AppError::Database("connection reset".to_string()), 500, "internal_error", "An internal error occurred"),
        (AppError::InvalidApiKey, 401, "invalid_api_key", "Invalid API key"),
        (AppError::AccountNotFound, 404, "account_not_found", "Account not found"),
        (AppError::InsufficientBalance, 422, "insufficient_balance", "Insufficient balance"),
        (AppError::InvalidRequest("bad input".to_string()), 400, "invalid_request", "bad input"),
        (AppError::InvalidAmount, 400, "invalid_amount", "Amount must be positive"),
        (AppError::WebhookNotFound, 404, "webhook_not_found", "Webhook endpoint not found"),
    ];
    for (error, status, code, message) in cases {
        assert_eq!(error.status_code(), status);
        assert_eq!(error.code(), code);
        assert_eq!(error.message(), message);
        assert_eq!(
            error.into_response(),
            ErrorBody { status, code: code.to_string(), message: message.to_string() }
        );
    }
}

#[test]
fn storage_detail_is_described_but_never_shown() {
    let error = AppError::Database("connection reset".to_string());
    assert_eq!(error.describe(), "Database error: connection reset");
    assert!(!error.message().contains("connection"));
    assert_eq!(AppError::InvalidRequest("why".to_string()).describe(), "Invalid request");
    assert_eq!(AppError::AccountNotFound.describe(), "Account not found");
}

#[test]
fn rejections_are_reported_as_errors() {
    assert_eq!(Rejection::InvalidAmount.into_error(), AppError::InvalidAmount);
    assert_eq!(
        Rejection::SameAccount.into_error(),
        AppError::InvalidRequest("Cannot transfer to same account".to_string())
    );
    assert_eq!(Rejection::AccountNotFound.into_error(), AppError::AccountNotFound);
    assert_eq!(Rejection::InsufficientBalance.into_error(), AppError::InsufficientBalance);
    assert_eq!(
        Rejection::StorageFailure.into_error(),
        AppError::Database("storage failure".to_string())
    );
    assert_eq!(report(Err(Rejection::InvalidAmount)), Err(AppError::InvalidAmount));
    let row = credit_row(1, 5, None, None, 9, 0);
    assert_eq!(report(Ok(row.clone())), Ok(row));
}

#[test]
fn responses_leave_out_what_clients_must_not_see() {
    let row = transfer_row(1, 2, 5, Some("d".to_string()), Some("k".to_string()), 9, 33);
    assert_eq!(
        TransactionResponse::from(row),
        TransactionResponse {
            id: 9,
            transaction_type: TransactionKind::Transfer,
            from_account_id: Some(1),
            to_account_id: Some(2),
            amount_cents: 5,
            currency: "USD".to_string(),
            description: Some("d".to_string()),
            status: TransactionStatus::Completed,
            created_at: 33,
        }
    );
    let account = Account {
        id: 4,
        api_key_id: 99,
        account_name: "main".to_string(),
        balance_cents: 12,
        currency: "EUR".to_string(),
        created_at: 1,
        updated_at: 2,
    };
    assert_eq!(account.clone(), account);
    assert_eq!(
        AccountResponse::from(account),
        AccountResponse {
            id: 4,
            account_name: "main".to_string(),
            balance_cents: 12,
            currency: "EUR".to_string(),
            created_at: 1,
            updated_at: 2,
        }
    );
}

#[test]
fn optional_text_is_copied() {
    assert_eq!(copy_text(&Some("a".to_string())), Some("a".to_string()));
    assert_eq!(copy_text(&None), None);
}

#[test]
fn health_reports_the_store() {
    let well = health_check(true).unwrap();
    assert_eq!(well.status, "healthy");
    assert_eq!(well.database, "connected");
    assert!(well.timestamp > 1_600_000_000_000_000);
    assert_eq!(health_check(false), Err(AppError::Database("storage failure".to_string())));
}

#[test]
fn integers_are_written_in_decimal() {
    assert_eq!(int_to_text(0), "0");
    assert_eq!(int_to_text(7), "7");
    assert_eq!(int_to_text(10), "10");
    assert_eq!(int_to_text(-1), "-1");
    assert_eq!(int_to_text(1050), "1050");
    assert_eq!(int_to_text(-90210), "-90210");
    assert_eq!(int_to_text(i64::MAX), "9223372036854775807");
    assert_eq!(int_to_text(i64::MIN), "-9223372036854775808");
    assert_eq!(natural_to_text(u64::MAX), "18446744073709551615");
    assert_eq!(natural_to_text(9), "9");
    for n in [1i64, 12, 123, 1234567890, -42, 100000, 99, 101] {
        assert_eq!(int_to_text(n), n.to_string());
    }
}

#[test]
fn drafted_rows_follow_their_requests() {
    let row = draft_credit(CreditRequest {
        account_id: 5,
        amount_cents: 10,
        description: Some("d".to_string()),
        idempotency_key: Some("k".to_string()),
    });
    assert_eq!(row, credit_row(5, 10, Some("d".to_string()), Some("k".to_string()), row.id, row.created_at));
    let row = draft_debit(DebitRequest {
        account_id: 5,
        amount_cents: 10,
        description: None,
        idempotency_key: None,
    });
    assert_eq!(row, debit_row(5, 10, None, None, row.id, row.created_at));
    let row = draft_transfer(TransferRequest {
        from_account_id: 5,
        to_account_id: 6,
        amount_cents: 10,
        description: None,
        idempotency_key: None,
    });
    assert_eq!(row, transfer_row(5, 6, 10, None, None, row.id, row.created_at));
    assert_eq!((row.id >> 76) & 0xf, 4);
}
