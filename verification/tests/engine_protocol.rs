use ledger_engine::error::Rejection;
use ledger_engine::models::transaction::Transaction;
use ledger_engine::services::transaction_service::{
    credit_row, debit_row, fault_of, transfer_row, LedgerOperation, Phase, Step,
};
use ledger_engine::store::{StoreCommand, StoreReply};

const LOW: u128 = 5;
const HIGH: u128 = 9;

fn run(row: Transaction, replies: Vec<StoreReply>) -> (Vec<StoreCommand>, Result<Transaction, Rejection>) {
    let mut commands = Vec::new();
    let (mut op, mut step) = LedgerOperation::start(row);
    let mut replies = replies.into_iter();
    loop {
        match step {
            Step::Finish(result) => {
                assert_eq!(op.phase(), Phase::Done);
                assert!(replies.next().is_none());
                return (commands, result);
            }
            Step::Run(command) => {
                commands.push(command);
                let reply = replies.next().expect("the engine asked for more than expected");
                let next = op.advance(reply);
                op = next.0;
                step = next.1;
            }
        }
    }
}

#[test]
fn invalid_amount_sends_no_command() {
    let (commands, result) = run(credit_row(1, -10, None, None, 7, 0), vec![]);
    assert!(commands.is_empty());
    assert_eq!(result, Err(Rejection::InvalidAmount));
    let (commands, result) = run(transfer_row(1, 2, 0, None, Some("k".to_string()), 7, 0), vec![]);
    assert!(commands.is_empty());
    assert_eq!(result, Err(Rejection::InvalidAmount));
}

#[test]
fn same_account_transfer_sends_no_command() {
    let (commands, result) = run(transfer_row(3, 3, 10, None, None, 7, 0), vec![]);
    assert!(commands.is_empty());
    assert_eq!(result, Err(Rejection::SameAccount));
}

#[test]
fn amount_is_checked_before_the_accounts() {
    assert_eq!(fault_of(&transfer_row(3, 3, 0, None, None, 7, 0)), Some(Rejection::InvalidAmount));
    assert_eq!(fault_of(&transfer_row(3, 4, 1, None, None, 7, 0)), None);
}

#[test]
fn credit_runs_the_whole_protocol() {
    let row = credit_row(LOW, 500, None, None, 7, 42);
    let (commands, result) = run(
        row.clone(),
        vec![
            StoreReply::Begun,
            StoreReply::Locked(Some(1000)),
            StoreReply::Adjusted,
            StoreReply::Inserted(row.clone()),
            StoreReply::Committed,
        ],
    );
    assert_eq!(
        commands,
        vec![
            StoreCommand::Begin,
            StoreCommand::LockAccount(LOW),
            StoreCommand::AdjustBalance { account_id: LOW, delta_cents: 500, at: 42 },
            StoreCommand::Insert(row.clone()),
            StoreCommand::Commit,
        ]
    );
    assert_eq!(result, Ok(row));
}

#[test]
fn debit_withdraws_after_the_balance_check() {
    let row = debit_row(LOW, 300, None, None, 7, 42);
    let (commands, result) = run(
        row.clone(),
        vec![
            StoreReply::Begun,
            StoreReply::Locked(Some(300)),
            StoreReply::Adjusted,
            StoreReply::Inserted(row.clone()),
            StoreReply::Committed,
        ],
    );
    assert_eq!(
        commands[2],
        StoreCommand::AdjustBalance { account_id: LOW, delta_cents: -300, at: 42 }
    );
    assert_eq!(commands.len(), 5);
    assert_eq!(result, Ok(row));
}

#[test]
fn insufficient_balance_rolls_back_without_touching_a_balance() {
    let row = debit_row(LOW, 500, None, None, 7, 42);
    let (commands, result) = run(
        row,
        vec![StoreReply::Begun, StoreReply::Locked(Some(300)), StoreReply::RolledBack],
    );
    assert_eq!(
        commands,
        vec![StoreCommand::Begin, StoreCommand::LockAccount(LOW), StoreCommand::Rollback]
    );
    assert_eq!(result, Err(Rejection::InsufficientBalance));
}

#[test]
fn transfer_locks_the_smaller_identifier_first() {
    let row = transfer_row(HIGH, LOW, 40, None, None, 7, 42);
    let (commands, result) = run(
        row.clone(),
        vec![
            StoreReply::Begun,
            StoreReply::Locked(Some(0)),
            StoreReply::Locked(Some(100)),
            StoreReply::Adjusted,
            StoreReply::Adjusted,
            StoreReply::Inserted(row.clone()),
            StoreReply::Committed,
        ],
    );
    assert_eq!(
        commands,
        vec![
            StoreCommand::Begin,
            StoreCommand::LockAccount(LOW),
            StoreCommand::LockAccount(HIGH),
            StoreCommand::AdjustBalance { account_id: HIGH, delta_cents: -40, at: 42 },
            StoreCommand::AdjustBalance { account_id: LOW, delta_cents: 40, at: 42 },
            StoreCommand::Insert(row.clone()),
            StoreCommand::Commit,
        ]
    );
    assert_eq!(result, Ok(row));
}

#[test]
fn opposite_transfers_lock_in_the_same_order() {
    let replies = || {
        vec![
            StoreReply::Begun,
            StoreReply::Locked(Some(100)),
            StoreReply::Locked(Some(100)),
            StoreReply::Adjusted,
            StoreReply::Adjusted,
        ]
    };
    let locks = |row: Transaction| {
        let (mut op, mut step) = LedgerOperation::start(row);
        let mut seen = Vec::new();
        for reply in replies() {
            if let Step::Run(StoreCommand::LockAccount(id)) = &step {
                seen.push(*id);
            }
            let next = op.advance(reply);
            op = next.0;
            step = next.1;
        }
        seen
    };
    assert_eq!(locks(transfer_row(LOW, HIGH, 1, None, None, 1, 0)), vec![LOW, HIGH]);
    assert_eq!(locks(transfer_row(HIGH, LOW, 1, None, None, 2, 0)), vec![LOW, HIGH]);
}

#[test]
fn transfer_reads_the_payers_balance_whichever_lock_came_first() {
    let row = transfer_row(HIGH, LOW, 50, None, None, 7, 42);
    let (commands, result) = run(
        row,
        vec![
            StoreReply::Begun,
            StoreReply::Locked(Some(1000)),
            StoreReply::Locked(Some(49)),
            StoreReply::RolledBack,
        ],
    );
    assert_eq!(commands.last(), Some(&StoreCommand::Rollback));
    assert_eq!(result, Err(Rejection::InsufficientBalance));
    let row = transfer_row(LOW, HIGH, 50, None, None, 7, 42);
    let (_, result) = run(
        row,
        vec![
            StoreReply::Begun,
            StoreReply::Locked(Some(49)),
            StoreReply::Locked(Some(1000)),
            StoreReply::RolledBack,
        ],
    );
    assert_eq!(result, Err(Rejection::InsufficientBalance));
}

#[test]
fn missing_second_account_rolls_back() {
    let row = transfer_row(LOW, HIGH, 50, None, None, 7, 42);
    let (commands, result) = run(
        row,
        vec![
            StoreReply::Begun,
            StoreReply::Locked(Some(100)),
            StoreReply::Locked(None),
            StoreReply::RolledBack,
        ],
    );
    assert_eq!(commands.len(), 4);
    assert_eq!(commands[3], StoreCommand::Rollback);
    assert_eq!(result, Err(Rejection::AccountNotFound));
}

#[test]
fn key_is_looked_up_before_a_unit_of_work_is_opened() {
    let earlier = credit_row(LOW, 500, None, Some("k1".to_string()), 1, 10);
    let retry = credit_row(LOW, 500, None, Some("k1".to_string()), 2, 20);
    let (commands, result) = run(retry, vec![StoreReply::Found(Some(earlier.clone()))]);
    assert_eq!(commands, vec![StoreCommand::FindByKey("k1".to_string())]);
    assert_eq!(result, Ok(earlier));
}

#[test]
fn conflict_on_the_key_returns_the_transaction_that_won() {
    let winner = credit_row(LOW, 500, None, Some("k1".to_string()), 1, 10);
    let loser = credit_row(LOW, 500, None, Some("k1".to_string()), 2, 11);
    let (commands, result) = run(
        loser.clone(),
        vec![
            StoreReply::Found(None),
            StoreReply::Begun,
            StoreReply::Locked(Some(0)),
            StoreReply::Adjusted,
            StoreReply::KeyConflict,
            StoreReply::RolledBack,
            StoreReply::Found(Some(winner.clone())),
        ],
    );
    assert_eq!(
        commands,
        vec![
            StoreCommand::FindByKey("k1".to_string()),
            StoreCommand::Begin,
            StoreCommand::LockAccount(LOW),
            StoreCommand::AdjustBalance { account_id: LOW, delta_cents: 500, at: 11 },
            StoreCommand::Insert(loser),
            StoreCommand::Rollback,
            StoreCommand::FindByKey("k1".to_string()),
        ]
    );
    assert_eq!(result, Ok(winner));
}

#[test]
fn conflict_without_a_winner_is_a_storage_failure() {
    let row = credit_row(LOW, 500, None, Some("k1".to_string()), 2, 11);
    let (_, result) = run(
        row,
        vec![
            StoreReply::Found(None),
            StoreReply::Begun,
            StoreReply::Locked(Some(0)),
            StoreReply::Adjusted,
            StoreReply::KeyConflict,
            StoreReply::RolledBack,
            StoreReply::Found(None),
        ],
    );
    assert_eq!(result, Err(Rejection::StorageFailure));
}

#[test]
fn storage_failure_after_a_change_rolls_back() {
    let row = transfer_row(LOW, HIGH, 50, None, None, 7, 42);
    let (commands, result) = run(
        row,
        vec![
            StoreReply::Begun,
            StoreReply::Locked(Some(100)),
            StoreReply::Locked(Some(100)),
            StoreReply::Adjusted,
            StoreReply::Failed,
            StoreReply::RolledBack,
        ],
    );
    assert_eq!(commands.last(), Some(&StoreCommand::Rollback));
    assert!(!commands.contains(&StoreCommand::Commit));
    assert_eq!(result, Err(Rejection::StorageFailure));
}

#[test]
fn failed_commit_is_rolled_back_and_reported() {
    let row = credit_row(LOW, 500, None, None, 7, 42);
    let (commands, result) = run(
        row.clone(),
        vec![
            StoreReply::Begun,
            StoreReply::Locked(Some(0)),
            StoreReply::Adjusted,
            StoreReply::Inserted(row),
            StoreReply::Failed,
            StoreReply::Failed,
        ],
    );
    assert_eq!(commands[4], StoreCommand::Commit);
    assert_eq!(commands[5], StoreCommand::Rollback);
    assert_eq!(result, Err(Rejection::StorageFailure));
}

#[test]
fn failure_to_open_a_unit_of_work_ends_the_operation() {
    let row = credit_row(LOW, 500, None, None, 7, 42);
    let (commands, result) = run(row, vec![StoreReply::Failed]);
    assert_eq!(commands, vec![StoreCommand::Begin]);
    assert_eq!(result, Err(Rejection::StorageFailure));
}

#[test]
fn the_row_the_store_wrote_is_what_is_returned() {
    let row = credit_row(LOW, 500, None, None, 7, 42);
    let mut written = row.clone();
    written.created_at = 99;
    let (_, result) = run(
        row,
        vec![
            StoreReply::Begun,
            StoreReply::Locked(Some(0)),
            StoreReply::Adjusted,
            StoreReply::Inserted(written.clone()),
            StoreReply::Committed,
        ],
    );
    assert_eq!(result, Ok(written));
}

#[test]
fn a_finished_operation_stays_finished() {
    let (op, step) = LedgerOperation::start(credit_row(LOW, 0, None, None, 7, 42));
    assert_eq!(step, Step::Finish(Err(Rejection::InvalidAmount)));
    let (op, step) = op.advance(StoreReply::Begun);
    assert_eq!(op.phase(), Phase::Done);
    assert_eq!(step, Step::Finish(Err(Rejection::StorageFailure)));
    assert_eq!(op.row().amount_cents, 0);
}

#[test]
fn only_a_committed_operation_has_completed_a_transaction() {
    let row = credit_row(LOW, 500, None, Some("k".to_string()), 7, 42);
    let (mut op, mut step) = LedgerOperation::start(row.clone());
    for reply in [
        StoreReply::Found(None),
        StoreReply::Begun,
        StoreReply::Locked(Some(0)),
        StoreReply::Adjusted,
        StoreReply::Inserted(row.clone()),
    ] {
        assert_eq!(op.completed(), None);
        let next = op.advance(reply);
        op = next.0;
        step = next.1;
    }
    assert_eq!(step, Step::Run(StoreCommand::Commit));
    assert_eq!(op.completed(), None);
    let (op, step) = op.advance(StoreReply::Committed);
    assert_eq!(step, Step::Finish(Ok(row.clone())));
    assert_eq!(op.completed(), Some(row.clone()));

    let (op, _) = LedgerOperation::start(row.clone());
    let (op, step) = op.advance(StoreReply::Found(Some(row.clone())));
    assert_eq!(step, Step::Finish(Ok(row.clone())));
    assert_eq!(op.completed(), None);

    let (mut op, _) = LedgerOperation::start(row.clone());
    for reply in [
        StoreReply::Found(None),
        StoreReply::Begun,
        StoreReply::Locked(Some(0)),
        StoreReply::Adjusted,
        StoreReply::Inserted(row.clone()),
        StoreReply::Failed,
        StoreReply::RolledBack,
    ] {
        op = op.advance(reply).0;
    }
    assert_eq!(op.phase(), Phase::Done);
    assert_eq!(op.completed(), None);
}
