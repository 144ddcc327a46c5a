use ledger_engine::error::{AppError, Rejection};
use ledger_engine::ledger::Ledger;
use ledger_engine::models::account::Account;
use ledger_engine::models::transaction::{Transaction, TransactionKind, TransactionStatus};
use ledger_engine::services::transaction_service::{
    credit_row, debit_row, execute_credit, execute_debit, execute_transfer, get_transaction_by_id,
    settle, transfer_row,
};

const A: u128 = 0xa0;
const B: u128 = 0xb0;
const OWNER: u128 = 0x77;

fn account(id: u128, balance_cents: i64) -> Account {
    Account {
        id,
        api_key_id: OWNER,
        account_name: format!("account {}", id),
        balance_cents,
        currency: "USD".to_string(),
        created_at: 1_000,
        updated_at: 1_000,
    }
}

fn ledger_with(accounts: Vec<Account>) -> Ledger {
    let mut ledger = Ledger::new();
    for a in accounts {
        assert!(ledger.add_account(a));
    }
    ledger
}

#[test]
fn credit_adds_to_the_balance() {
    let mut ledger = ledger_with(vec![account(A, 1000)]);
    let t = execute_credit(&mut ledger, A, 500, None, None).unwrap();
    assert_eq!(ledger.balance_of(A), Some(1500));
    assert_eq!(t.transaction_type, TransactionKind::Credit);
    assert_eq!(t.to_account_id, Some(A));
    assert_eq!(t.from_account_id, None);
    assert_eq!(t.amount_cents, 500);
    assert_eq!(t.status, TransactionStatus::Completed);
    assert_eq!(t.currency, "USD");
    assert_eq!(ledger.transaction_count(), 1);
}

#[test]
fn debit_beyond_the_balance_is_rejected() {
    let mut ledger = ledger_with(vec![account(A, 300)]);
    let result = execute_debit(&mut ledger, A, 500, None, None);
    assert_eq!(result, Err(AppError::InsufficientBalance));
    assert_eq!(ledger.balance_of(A), Some(300));
    assert_eq!(ledger.transaction_count(), 0);
}

#[test]
fn transfer_moves_the_amount() {
    let mut ledger = ledger_with(vec![account(A, 1000), account(B, 0)]);
    let t = execute_transfer(&mut ledger, A, B, 400, None, None).unwrap();
    assert_eq!(ledger.balance_of(A), Some(600));
    assert_eq!(ledger.balance_of(B), Some(400));
    assert_eq!(ledger.transaction_count(), 1);
    assert_eq!(t.transaction_type, TransactionKind::Transfer);
    assert_eq!(t.from_account_id, Some(A));
    assert_eq!(t.to_account_id, Some(B));
    assert_eq!(t.amount_cents, 400);
}

#[test]
fn negative_credit_is_rejected_as_invalid_amount() {
    let mut ledger = ledger_with(vec![account(A, 1000)]);
    let result = execute_credit(&mut ledger, A, -10, None, None);
    assert_eq!(result, Err(AppError::InvalidAmount));
    assert_eq!(ledger.balance_of(A), Some(1000));
    assert_eq!(ledger.transaction_count(), 0);
}

#[test]
fn zero_amount_is_rejected_for_every_kind() {
    let mut ledger = ledger_with(vec![account(A, 1000), account(B, 0)]);
    assert_eq!(execute_credit(&mut ledger, A, 0, None, None), Err(AppError::InvalidAmount));
    assert_eq!(execute_debit(&mut ledger, A, 0, None, None), Err(AppError::InvalidAmount));
    assert_eq!(execute_transfer(&mut ledger, A, B, 0, None, None), Err(AppError::InvalidAmount));
    assert_eq!(ledger.transaction_count(), 0);
}

#[test]
fn invalid_amount_is_rejected_even_for_a_missing_account() {
    let mut ledger = Ledger::new();
    assert_eq!(execute_credit(&mut ledger, A, -1, None, None), Err(AppError::InvalidAmount));
}

#[test]
fn transfer_to_the_same_account_is_an_invalid_request() {
    let mut ledger = ledger_with(vec![account(A, 1000)]);
    let result = execute_transfer(&mut ledger, A, A, 100, None, None);
    assert_eq!(
        result,
        Err(AppError::InvalidRequest("Cannot transfer to same account".to_string()))
    );
    assert_eq!(ledger.balance_of(A), Some(1000));
}

#[test]
fn missing_account_is_not_found() {
    let mut ledger = ledger_with(vec![account(A, 1000)]);
    assert_eq!(execute_credit(&mut ledger, B, 5, None, None), Err(AppError::AccountNotFound));
    assert_eq!(execute_debit(&mut ledger, B, 5, None, None), Err(AppError::AccountNotFound));
    assert_eq!(execute_transfer(&mut ledger, A, B, 5, None, None), Err(AppError::AccountNotFound));
    assert_eq!(execute_transfer(&mut ledger, B, A, 5, None, None), Err(AppError::AccountNotFound));
    assert_eq!(ledger.balance_of(A), Some(1000));
    assert_eq!(ledger.transaction_count(), 0);
}

#[test]
fn missing_receiver_is_reported_before_insufficient_funds() {
    let mut ledger = ledger_with(vec![account(A, 10)]);
    assert_eq!(execute_transfer(&mut ledger, A, B, 500, None, None), Err(AppError::AccountNotFound));
}

#[test]
fn transfer_beyond_the_balance_is_rejected() {
    let mut ledger = ledger_with(vec![account(A, 100), account(B, 7)]);
    let result = execute_transfer(&mut ledger, A, B, 101, None, None);
    assert_eq!(result, Err(AppError::InsufficientBalance));
    assert_eq!(ledger.balance_of(A), Some(100));
    assert_eq!(ledger.balance_of(B), Some(7));
}

#[test]
fn debit_of_the_whole_balance_leaves_zero() {
    let mut ledger = ledger_with(vec![account(A, 300)]);
    execute_debit(&mut ledger, A, 300, None, None).unwrap();
    assert_eq!(ledger.balance_of(A), Some(0));
}

#[test]
fn credit_that_would_overflow_is_a_storage_failure() {
    let mut ledger = ledger_with(vec![account(A, i64::MAX - 5)]);
    let result = execute_credit(&mut ledger, A, 6, None, None);
    assert_eq!(result, Err(AppError::Database("storage failure".to_string())));
    assert_eq!(ledger.balance_of(A), Some(i64::MAX - 5));
    assert_eq!(ledger.transaction_count(), 0);
    execute_credit(&mut ledger, A, 5, None, None).unwrap();
    assert_eq!(ledger.balance_of(A), Some(i64::MAX));
}

#[test]
fn transfer_that_would_overflow_the_receiver_changes_nothing() {
    let mut ledger = ledger_with(vec![account(A, 100), account(B, i64::MAX)]);
    let result = execute_transfer(&mut ledger, A, B, 1, None, None);
    assert_eq!(result, Err(AppError::Database("storage failure".to_string())));
    assert_eq!(ledger.balance_of(A), Some(100));
    assert_eq!(ledger.balance_of(B), Some(i64::MAX));
}

#[test]
fn same_idempotency_key_yields_one_transaction() {
    let mut ledger = ledger_with(vec![account(A, 0)]);
    let first = execute_credit(&mut ledger, A, 500, None, Some("k1".to_string())).unwrap();
    let second = execute_credit(&mut ledger, A, 500, None, Some("k1".to_string())).unwrap();
    assert_eq!(first, second);
    assert_eq!(ledger.balance_of(A), Some(500));
    assert_eq!(ledger.transaction_count(), 1);
}

#[test]
fn replay_returns_the_earlier_transaction_even_if_the_request_differs() {
    let mut ledger = ledger_with(vec![account(A, 1000), account(B, 0)]);
    let first = execute_debit(&mut ledger, A, 100, Some("fee".to_string()), Some("k".to_string()))
        .unwrap();
    let second = execute_transfer(&mut ledger, A, B, 900, None, Some("k".to_string())).unwrap();
    assert_eq!(first, second);
    assert_eq!(second.transaction_type, TransactionKind::Debit);
    assert_eq!(ledger.balance_of(A), Some(900));
    assert_eq!(ledger.balance_of(B), Some(0));
}

#[test]
fn rejected_operation_does_not_use_up_its_key() {
    let mut ledger = ledger_with(vec![account(A, 50)]);
    let key = Some("pay".to_string());
    assert_eq!(
        execute_debit(&mut ledger, A, 80, None, key.clone()),
        Err(AppError::InsufficientBalance)
    );
    execute_credit(&mut ledger, A, 50, None, None).unwrap();
    let t = execute_debit(&mut ledger, A, 80, None, key).unwrap();
    assert_eq!(t.amount_cents, 80);
    assert_eq!(ledger.balance_of(A), Some(20));
}

#[test]
fn different_keys_yield_different_transactions() {
    let mut ledger = ledger_with(vec![account(A, 0)]);
    let first = execute_credit(&mut ledger, A, 10, None, Some("k1".to_string())).unwrap();
    let second = execute_credit(&mut ledger, A, 10, None, Some("k2".to_string())).unwrap();
    assert_ne!(first.id, second.id);
    assert_eq!(ledger.balance_of(A), Some(20));
    assert_eq!(ledger.transaction_count(), 2);
}

#[test]
fn transfer_can_be_read_back() {
    let mut ledger = ledger_with(vec![account(A, 1000), account(B, 0)]);
    let t = execute_transfer(&mut ledger, A, B, 250, Some("rent".to_string()), None).unwrap();
    let found = get_transaction_by_id(&ledger, t.id).unwrap().unwrap();
    assert_eq!(found, t);
    assert_eq!(found.status, TransactionStatus::Completed);
    assert_eq!(found.amount_cents, 250);
    assert_eq!(found.from_account_id, Some(A));
    assert_eq!(found.to_account_id, Some(B));
    assert_eq!(found.description, Some("rent".to_string()));
}

#[test]
fn unknown_transaction_is_not_found() {
    let ledger = ledger_with(vec![account(A, 1000)]);
    assert_eq!(get_transaction_by_id(&ledger, 12345), Ok(None));
}

#[test]
fn new_transactions_have_random_version_four_identifiers() {
    let mut ledger = ledger_with(vec![account(A, 0)]);
    let first = execute_credit(&mut ledger, A, 1, None, None).unwrap();
    let second = execute_credit(&mut ledger, A, 1, None, None).unwrap();
    assert_ne!(first.id, second.id);
    assert_eq!((first.id >> 76) & 0xf, 4);
    assert_eq!((first.id >> 62) & 0x3, 2);
    assert!(first.created_at > 1_600_000_000_000_000);
}

#[test]
fn transfers_conserve_the_sum_of_the_two_balances() {
    let mut ledger = ledger_with(vec![account(A, 700), account(B, 300)]);
    let amounts = [1i64, 699, 5, 1000, 250, 1];
    for (i, amount) in amounts.iter().enumerate() {
        let (from, to) = if i % 2 == 0 { (A, B) } else { (B, A) };
        let _ = execute_transfer(&mut ledger, from, to, *amount, None, None);
        let a = ledger.balance_of(A).unwrap();
        let b = ledger.balance_of(B).unwrap();
        assert_eq!(a + b, 1000);
        assert!(a >= 0 && b >= 0);
    }
}

#[test]
fn racing_debits_never_make_the_balance_negative() {
    let mut ledger = ledger_with(vec![account(A, 1000)]);
    let mut accepted = 0;
    for _ in 0..20 {
        if execute_debit(&mut ledger, A, 300, None, None).is_ok() {
            accepted += 1;
        }
        assert!(ledger.balance_of(A).unwrap() >= 0);
    }
    assert_eq!(accepted, 3);
    assert_eq!(ledger.balance_of(A), Some(100));
    assert_eq!(ledger.transaction_count(), 3);
}

#[test]
fn settle_returns_the_row_it_was_given() {
    let mut ledger = ledger_with(vec![account(A, 1000), account(B, 0)]);
    let row = transfer_row(A, B, 400, Some("x".to_string()), Some("k".to_string()), 9, 1234);
    let expected = Transaction {
        id: 9,
        idempotency_key: Some("k".to_string()),
        transaction_type: TransactionKind::Transfer,
        from_account_id: Some(A),
        to_account_id: Some(B),
        amount_cents: 400,
        currency: "USD".to_string(),
        description: Some("x".to_string()),
        status: TransactionStatus::Completed,
        created_at: 1234,
        metadata: None,
    };
    assert_eq!(row, expected);
    assert_eq!(settle(&mut ledger, row), Ok(expected.clone()));
    assert_eq!(ledger.find(9), Some(expected));
    assert_eq!(ledger.account(A).unwrap().updated_at, 1234);
    assert_eq!(ledger.account(B).unwrap().updated_at, 1234);
    assert_eq!(ledger.account(A).unwrap().created_at, 1_000);
}

#[test]
fn settle_refuses_an_identifier_that_is_taken() {
    let mut ledger = ledger_with(vec![account(A, 1000)]);
    settle(&mut ledger, credit_row(A, 5, None, None, 1, 10)).unwrap();
    let result = settle(&mut ledger, debit_row(A, 5, None, None, 1, 11));
    assert_eq!(result, Err(Rejection::StorageFailure));
    assert_eq!(ledger.balance_of(A), Some(1005));
    assert_eq!(ledger.transaction_count(), 1);
}

#[test]
fn settle_refuses_a_row_that_does_not_fit_its_kind() {
    let mut ledger = ledger_with(vec![account(A, 1000), account(B, 0)]);
    let mut row = credit_row(A, 5, None, None, 1, 10);
    row.from_account_id = Some(B);
    assert_eq!(settle(&mut ledger, row), Err(Rejection::Malformed));
    let mut row = debit_row(A, 5, None, None, 2, 10);
    row.from_account_id = None;
    assert_eq!(settle(&mut ledger, row), Err(Rejection::Malformed));
    assert_eq!(ledger.transaction_count(), 0);
    assert_eq!(
        Rejection::Malformed.into_error(),
        AppError::InvalidRequest("Accounts do not fit the transaction type".to_string())
    );
}

#[test]
fn operation_while_a_unit_of_work_is_open_is_a_storage_failure() {
    let mut ledger = ledger_with(vec![account(A, 1000)]);
    ledger.begin();
    assert_eq!(
        settle(&mut ledger, credit_row(A, 5, None, None, 1, 10)),
        Err(Rejection::StorageFailure)
    );
    assert_eq!(ledger.balance_of(A), Some(1000));
    ledger.rollback();
    assert!(settle(&mut ledger, credit_row(A, 5, None, None, 1, 10)).is_ok());
}
