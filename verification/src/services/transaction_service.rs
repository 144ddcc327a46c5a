//! The transaction engine.
//!
//! An operation is a row to be written to the transaction log. The engine
//! turns it into a conversation with the store: it validates the row, looks
//! for an earlier transaction with the same idempotency key, opens a unit of
//! work, locks the account rows in ascending order of their identifiers,
//! checks the balances, moves the money, writes the row and commits. Any
//! failure on the way undoes the unit of work. [`LedgerOperation`] holds the
//! decisions; whoever owns the store carries out the commands.

use crate::error::{AppError, AppErrorView, Rejection};
use crate::ledger::Ledger;
use crate::models::account::default_currency;
use crate::models::copy_text;
use crate::models::transaction::{
    CreditRequest,
    DebitRequest,
    Transaction,
    TransactionKind,
    TransactionStatus,
    TransactionView,
    TransferRequest,
};
use crate::platform::{current_time, fresh_id};
use crate::services::settlement::{lemma_first_step_on_track, lemma_step_keeps_track, on_track};
use crate::state::{fault, first_lock, second_lock};
use crate::store::{CommandView, ReplyView, StoreCommand, StoreReply};
use vstd::prelude::*;

verus! {

/// Where an operation stands. Each phase but `Done` waits for the reply to
/// the command that was sent on entering it.
#[derive(Debug, Clone, Copy, PartialEq, Eq, Structural)]
pub enum Phase {
    /// Looking for a transaction with the idempotency key.
    Lookup,
    /// Opening the unit of work.
    Opening,
    /// Locking the first account row.
    LockFirst,
    /// Locking the second account row.
    LockSecond,
    /// Taking the amount from the paying account.
    Withdraw,
    /// Giving the amount to the receiving account.
    Deposit,
    /// Writing the row to the log.
    Insert,
    /// Committing the unit of work.
    Commit,
    /// Undoing the unit of work after a conflict on the idempotency key.
    Undo,
    /// Reading the transaction that won the conflict.
    Reread,
    /// Undoing the unit of work after a failure.
    Abort,
    /// Finished.
    Done,
}

impl Phase {
    /// How many replies an operation in this phase can still wait for.
    pub open spec fn rank(self) -> nat {
        match self {
            Phase::Lookup => 9,
            Phase::Opening => 8,
            Phase::LockFirst => 7,
            Phase::LockSecond => 6,
            Phase::Withdraw => 5,
            Phase::Deposit => 4,
            Phase::Insert => 3,
            Phase::Commit => 2,
            Phase::Undo => 2,
            Phase::Reread => 1,
            Phase::Abort => 1,
            Phase::Done => 0,
        }
    }
}

/// What the engine asks for next.
#[derive(Debug, PartialEq, Eq)]
pub enum Step {
    /// Send this command to the store and hand back its reply.
    Run(StoreCommand),
    /// The operation is over with this result.
    Finish(Result<Transaction, Rejection>),
}

/// The mathematical value of a [`Step`].
pub enum StepView {
    Run(CommandView),
    Finish(Result<TransactionView, Rejection>),
}

/// The mathematical value of the result of an operation.
pub open spec fn result_view(result: Result<Transaction, Rejection>) -> Result<
    TransactionView,
    Rejection,
> {
    match result {
        Ok(transaction) => Ok(transaction@),
        Err(rejection) => Err(rejection),
    }
}

impl View for Step {
    type V = StepView;

    open spec fn view(&self) -> StepView {
        match self {
            Step::Run(command) => StepView::Run(command@),
            Step::Finish(result) => StepView::Finish(result_view(*result)),
        }
    }
}

/// One credit, debit or transfer on its way through the store.
#[derive(Debug)]
pub struct LedgerOperation {
    row: Transaction,
    phase: Phase,
    first_balance: i64,
    failure: Rejection,
    inserted: Option<Transaction>,
    committed: bool,
}

/// The mathematical value of a [`LedgerOperation`].
pub struct OperationView {
    /// The row to write.
    pub row: TransactionView,
    /// Where the operation stands.
    pub phase: Phase,
    /// The balance read under the first lock, from `LockSecond` on.
    pub first_balance: i64,
    /// What to report once the unit of work is undone, in `Abort`.
    pub failure: Rejection,
    /// The row as the store wrote it, from `Commit` on.
    pub inserted: Option<TransactionView>,
    /// The unit of work that wrote the row was committed.
    pub committed: bool,
}

impl OperationView {
    /// The operation ends with `result`.
    pub open spec fn stop(self, result: Result<TransactionView, Rejection>) -> (
        OperationView,
        StepView,
    ) {
        (OperationView { phase: Phase::Done, ..self }, StepView::Finish(result))
    }

    /// The unit of work is undone and `why` is reported afterwards.
    pub open spec fn abort(self, why: Rejection) -> (OperationView, StepView) {
        (
            OperationView { phase: Phase::Abort, failure: why, ..self },
            StepView::Run(CommandView::Rollback),
        )
    }

    /// The operation enters `phase` by sending `command`.
    pub open spec fn proceed(self, phase: Phase, command: CommandView) -> (
        OperationView,
        StepView,
    ) {
        (OperationView { phase, ..self }, StepView::Run(command))
    }

    /// The command that takes the amount from the paying account `from`.
    pub open spec fn withdrawal(self, from: u128) -> CommandView {
        CommandView::AdjustBalance {
            account_id: from,
            delta_cents: (-self.row.amount_cents) as i64,
            at: self.row.created_at,
        }
    }

    /// The command that gives the amount to the receiving account `to`.
    pub open spec fn deposit(self, to: u128) -> CommandView {
        CommandView::AdjustBalance {
            account_id: to,
            delta_cents: self.row.amount_cents,
            at: self.row.created_at,
        }
    }

    /// With all rows locked and the balances read: refuse a payment that the
    /// paying account cannot cover or that the receiving account cannot
    /// hold, else start moving the money.
    pub open spec fn decide(self, payer_balance: i64, receiver_balance: i64) -> (
        OperationView,
        StepView,
    ) {
        if self.row.from_account_id is Some && payer_balance < self.row.amount_cents {
            self.abort(Rejection::InsufficientBalance)
        } else if self.row.to_account_id is Some && receiver_balance > i64::MAX
            - self.row.amount_cents {
            self.abort(Rejection::StorageFailure)
        } else if self.row.from_account_id is Some {
            self.proceed(Phase::Withdraw, self.withdrawal(self.row.from_account_id->0))
        } else if self.row.to_account_id is Some {
            self.proceed(Phase::Deposit, self.deposit(self.row.to_account_id->0))
        } else {
            self.abort(Rejection::StorageFailure)
        }
    }

    /// The first step of the operation for `row`: an unsound row ends it
    /// before any command is sent; a row with an idempotency key is looked up
    /// first; any other row opens a unit of work.
    pub open spec fn first(row: TransactionView) -> (OperationView, StepView) {
        let fresh = OperationView {
            row,
            phase: Phase::Done,
            first_balance: 0,
            failure: Rejection::StorageFailure,
            inserted: None,
            committed: false,
        };
        if fault(row) is Some {
            fresh.stop(Err(fault(row)->0))
        } else if row.idempotency_key is Some {
            fresh.proceed(Phase::Lookup, CommandView::FindByKey(row.idempotency_key->0))
        } else {
            fresh.proceed(Phase::Opening, CommandView::Begin)
        }
    }

    /// The operation and its next step after the store has answered `reply`.
    pub open spec fn next(self, reply: ReplyView) -> (OperationView, StepView) {
        match self.phase {
            Phase::Lookup => match reply {
                ReplyView::Found(Some(earlier)) => self.stop(Ok(earlier)),
                ReplyView::Found(None) => self.proceed(Phase::Opening, CommandView::Begin),
                _ => self.stop(Err(Rejection::StorageFailure)),
            },
            Phase::Opening => match reply {
                ReplyView::Begun => self.proceed(
                    Phase::LockFirst,
                    CommandView::LockAccount(first_lock(self.row)),
                ),
                _ => self.stop(Err(Rejection::StorageFailure)),
            },
            Phase::LockFirst => match reply {
                ReplyView::Locked(Some(balance)) => match second_lock(self.row) {
                    Some(second) => (
                        OperationView { phase: Phase::LockSecond, first_balance: balance, ..self },
                        StepView::Run(CommandView::LockAccount(second)),
                    ),
                    None => self.decide(balance, balance),
                },
                ReplyView::Locked(None) => self.abort(Rejection::AccountNotFound),
                _ => self.abort(Rejection::StorageFailure),
            },
            Phase::LockSecond => match reply {
                ReplyView::Locked(Some(balance)) => if self.row.from_account_id == Some(
                    first_lock(self.row),
                ) {
                    self.decide(self.first_balance, balance)
                } else {
                    self.decide(balance, self.first_balance)
                },
                ReplyView::Locked(None) => self.abort(Rejection::AccountNotFound),
                _ => self.abort(Rejection::StorageFailure),
            },
            Phase::Withdraw => match reply {
                ReplyView::Adjusted => if self.row.to_account_id is Some {
                    self.proceed(Phase::Deposit, self.deposit(self.row.to_account_id->0))
                } else {
                    self.proceed(Phase::Insert, CommandView::Insert(self.row))
                },
                _ => self.abort(Rejection::StorageFailure),
            },
            Phase::Deposit => match reply {
                ReplyView::Adjusted => self.proceed(Phase::Insert, CommandView::Insert(self.row)),
                _ => self.abort(Rejection::StorageFailure),
            },
            Phase::Insert => match reply {
                ReplyView::Inserted(written) => (
                    OperationView { phase: Phase::Commit, inserted: Some(written), ..self },
                    StepView::Run(CommandView::Commit),
                ),
                ReplyView::KeyConflict => if self.row.idempotency_key is Some {
                    self.proceed(Phase::Undo, CommandView::Rollback)
                } else {
                    self.abort(Rejection::StorageFailure)
                },
                _ => self.abort(Rejection::StorageFailure),
            },
            Phase::Commit => match reply {
                ReplyView::Committed => match self.inserted {
                    Some(written) => (OperationView { committed: true, ..self }).stop(Ok(written)),
                    None => self.stop(Err(Rejection::StorageFailure)),
                },
                _ => self.abort(Rejection::StorageFailure),
            },
            Phase::Undo => match reply {
                ReplyView::RolledBack => match self.row.idempotency_key {
                    Some(key) => self.proceed(Phase::Reread, CommandView::FindByKey(key)),
                    None => self.stop(Err(Rejection::StorageFailure)),
                },
                _ => self.stop(Err(Rejection::StorageFailure)),
            },
            Phase::Reread => match reply {
                ReplyView::Found(Some(winner)) => self.stop(Ok(winner)),
                _ => self.stop(Err(Rejection::StorageFailure)),
            },
            Phase::Abort => self.stop(Err(self.failure)),
            Phase::Done => self.stop(Err(Rejection::StorageFailure)),
        }
    }
}

impl View for LedgerOperation {
    type V = OperationView;

    closed spec fn view(&self) -> OperationView {
        OperationView {
            row: self.row@,
            phase: self.phase,
            first_balance: self.first_balance,
            failure: self.failure,
            inserted: self.inserted.deep_view(),
            committed: self.committed,
        }
    }
}

/// The account whose row is locked first.
fn first_lock_of(row: &Transaction) -> (id: u128)
    ensures
        id == first_lock(row@),
{
    match (row.from_account_id, row.to_account_id) {
        (Some(from), Some(to)) => if from <= to {
            from
        } else {
            to
        },
        (Some(from), None) => from,
        (None, Some(to)) => to,
        (None, None) => 0,
    }
}

/// The account whose row is locked second, if there are two.
fn second_lock_of(row: &Transaction) -> (id: Option<u128>)
    ensures
        id == second_lock(row@),
{
    match (row.from_account_id, row.to_account_id) {
        (Some(from), Some(to)) => Some(
            if from <= to {
                to
            } else {
                from
            },
        ),
        _ => None,
    }
}

/// What is wrong with a row before any account is looked at.
pub fn fault_of(row: &Transaction) -> (found: Option<Rejection>)
    ensures
        found == fault(row@),
{
    if row.amount_cents <= 0 {
        return Some(Rejection::InvalidAmount);
    }
    match (row.transaction_type, row.from_account_id, row.to_account_id) {
        (TransactionKind::Transfer, Some(from), Some(to)) => {
            if from == to {
                return Some(Rejection::SameAccount);
            }
        },
        _ => {},
    }
    if !row.is_well_formed() {
        Some(Rejection::Malformed)
    } else {
        None
    }
}

impl LedgerOperation {
    /// The row is sound, unless the operation is over.
    #[verifier::type_invariant]
    spec fn sound(self) -> bool {
        self.phase != Phase::Done ==> fault(self.row@) is None
    }

    /// Where the operation stands.
    pub fn phase(&self) -> (phase: Phase)
        ensures
            phase == self@.phase,
    {
        self.phase
    }

    /// The transaction that the operation has written and committed, if it
    /// has: the fact to publish to those who wait for completed transactions.
    /// An operation that was refused or that returned an earlier transaction
    /// has completed none.
    pub fn completed(&self) -> (transaction: Option<Transaction>)
        ensures
            transaction.deep_view() == if self@.committed {
                self@.inserted
            } else {
                None
            },
    {
        if self.committed {
            match &self.inserted {
                Some(written) => Some(written.clone()),
                None => None,
            }
        } else {
            None
        }
    }

    /// The row that the operation writes.
    pub fn row(&self) -> (row: &Transaction)
        ensures
            row@ == self@.row,
    {
        &self.row
    }

    fn stop(self, result: Result<Transaction, Rejection>) -> (next: (LedgerOperation, Step))
        ensures
            (next.0@, next.1@) == self@.stop(result_view(result)),
    {
        let mut op = self;
        op.phase = Phase::Done;
        (op, Step::Finish(result))
    }

    fn abort(self, why: Rejection) -> (next: (LedgerOperation, Step))
        requires
            fault(self@.row) is None,
        ensures
            (next.0@, next.1@) == self@.abort(why),
    {
        let mut op = self;
        op.phase = Phase::Abort;
        op.failure = why;
        (op, Step::Run(StoreCommand::Rollback))
    }

    fn proceed(self, phase: Phase, command: StoreCommand) -> (next: (LedgerOperation, Step))
        requires
            fault(self@.row) is None,
        ensures
            (next.0@, next.1@) == self@.proceed(phase, command@),
    {
        let mut op = self;
        op.phase = phase;
        (op, Step::Run(command))
    }

    fn withdrawal(&self, from: u128) -> (command: StoreCommand)
        requires
            fault(self@.row) is None,
        ensures
            command@ == self@.withdrawal(from),
    {
        StoreCommand::AdjustBalance {
            account_id: from,
            delta_cents: -self.row.amount_cents,
            at: self.row.created_at,
        }
    }

    fn deposit(&self, to: u128) -> (command: StoreCommand)
        ensures
            command@ == self@.deposit(to),
    {
        StoreCommand::AdjustBalance {
            account_id: to,
            delta_cents: self.row.amount_cents,
            at: self.row.created_at,
        }
    }

    fn write(&self) -> (command: StoreCommand)
        ensures
            command@ == CommandView::Insert(self@.row),
    {
        StoreCommand::Insert(self.row.clone())
    }

    fn decide(self, payer_balance: i64, receiver_balance: i64) -> (next: (LedgerOperation, Step))
        requires
            fault(self@.row) is None,
        ensures
            (next.0@, next.1@) == self@.decide(payer_balance, receiver_balance),
    {
        let amount = self.row.amount_cents;
        if self.row.from_account_id.is_some() && payer_balance < amount {
            return self.abort(Rejection::InsufficientBalance);
        }
        if self.row.to_account_id.is_some() && receiver_balance > i64::MAX - amount {
            return self.abort(Rejection::StorageFailure);
        }
        match (self.row.from_account_id, self.row.to_account_id) {
            (Some(from), _) => {
                let command = self.withdrawal(from);
                self.proceed(Phase::Withdraw, command)
            },
            (None, Some(to)) => {
                let command = self.deposit(to);
                self.proceed(Phase::Deposit, command)
            },
            (None, None) => self.abort(Rejection::StorageFailure),
        }
    }

    /// Starts the operation that writes `row`. An unsound row ends it at
    /// once, before any command is sent.
    pub fn start(row: Transaction) -> (next: (LedgerOperation, Step))
        ensures
            (next.0@, next.1@) == OperationView::first(row@),
    {
        let found = fault_of(&row);
        let key = copy_text(&row.idempotency_key);
        let op = LedgerOperation {
            row,
            phase: Phase::Done,
            first_balance: 0,
            failure: Rejection::StorageFailure,
            inserted: None,
            committed: false,
        };
        match found {
            Some(rejection) => op.stop(Err(rejection)),
            None => match key {
                Some(key) => op.proceed(Phase::Lookup, StoreCommand::FindByKey(key)),
                None => op.proceed(Phase::Opening, StoreCommand::Begin),
            },
        }
    }

    /// Takes the reply of the store to the last command and says what to do
    /// next.
    pub fn advance(self, reply: StoreReply) -> (next: (LedgerOperation, Step))
        ensures
            (next.0@, next.1@) == self@.next(reply@),
    {
        proof {
            use_type_invariant(&self);
        }
        match self.phase {
            Phase::Lookup => match reply {
                StoreReply::Found(Some(earlier)) => self.stop(Ok(earlier)),
                StoreReply::Found(None) => self.proceed(Phase::Opening, StoreCommand::Begin),
                _ => self.stop(Err(Rejection::StorageFailure)),
            },
            Phase::Opening => match reply {
                StoreReply::Begun => {
                    let first = first_lock_of(&self.row);
                    self.proceed(Phase::LockFirst, StoreCommand::LockAccount(first))
                },
                _ => self.stop(Err(Rejection::StorageFailure)),
            },
            Phase::LockFirst => match reply {
                StoreReply::Locked(Some(balance)) => match second_lock_of(&self.row) {
                    Some(second) => {
                        let mut op = self;
                        op.phase = Phase::LockSecond;
                        op.first_balance = balance;
                        (op, Step::Run(StoreCommand::LockAccount(second)))
                    },
                    None => self.decide(balance, balance),
                },
                StoreReply::Locked(None) => self.abort(Rejection::AccountNotFound),
                _ => self.abort(Rejection::StorageFailure),
            },
            Phase::LockSecond => match reply {
                StoreReply::Locked(Some(balance)) => {
                    let first = first_lock_of(&self.row);
                    let payer_first = match self.row.from_account_id {
                        Some(from) => from == first,
                        None => false,
                    };
                    let held = self.first_balance;
                    if payer_first {
                        self.decide(held, balance)
                    } else {
                        self.decide(balance, held)
                    }
                },
                StoreReply::Locked(None) => self.abort(Rejection::AccountNotFound),
                _ => self.abort(Rejection::StorageFailure),
            },
            Phase::Withdraw => match reply {
                StoreReply::Adjusted => match self.row.to_account_id {
                    Some(to) => {
                        let command = self.deposit(to);
                        self.proceed(Phase::Deposit, command)
                    },
                    None => {
                        let command = self.write();
                        self.proceed(Phase::Insert, command)
                    },
                },
                _ => self.abort(Rejection::StorageFailure),
            },
            Phase::Deposit => match reply {
                StoreReply::Adjusted => {
                    let command = self.write();
                    self.proceed(Phase::Insert, command)
                },
                _ => self.abort(Rejection::StorageFailure),
            },
            Phase::Insert => match reply {
                StoreReply::Inserted(written) => {
                    let mut op = self;
                    op.phase = Phase::Commit;
                    op.inserted = Some(written);
                    (op, Step::Run(StoreCommand::Commit))
                },
                StoreReply::KeyConflict => if self.row.idempotency_key.is_some() {
                    self.proceed(Phase::Undo, StoreCommand::Rollback)
                } else {
                    self.abort(Rejection::StorageFailure)
                },
                _ => self.abort(Rejection::StorageFailure),
            },
            Phase::Commit => match reply {
                StoreReply::Committed => {
                    let written = match &self.inserted {
                        Some(written) => Some(written.clone()),
                        None => None,
                    };
                    match written {
                        Some(written) => {
                            let mut op = self;
                            op.committed = true;
                            op.stop(Ok(written))
                        },
                        None => self.stop(Err(Rejection::StorageFailure)),
                    }
                },
                _ => self.abort(Rejection::StorageFailure),
            },
            Phase::Undo => match reply {
                StoreReply::RolledBack => match copy_text(&self.row.idempotency_key) {
                    Some(key) => self.proceed(Phase::Reread, StoreCommand::FindByKey(key)),
                    None => self.stop(Err(Rejection::StorageFailure)),
                },
                _ => self.stop(Err(Rejection::StorageFailure)),
            },
            Phase::Reread => match reply {
                StoreReply::Found(Some(winner)) => self.stop(Ok(winner)),
                _ => self.stop(Err(Rejection::StorageFailure)),
            },
            Phase::Abort => {
                let why = self.failure;
                self.stop(Err(why))
            },
            Phase::Done => self.stop(Err(Rejection::StorageFailure)),
        }
    }
}

/// Runs the operation that writes `row` against `ledger`, from its first
/// step to its last.
///
/// The result and the ledger afterwards are those of one atomic operation:
/// either the balances are moved and `row` is appended, or nothing changes.
pub fn settle(ledger: &mut Ledger, row: Transaction) -> (result: Result<Transaction, Rejection>)
    requires
        old(ledger).wf(),
    ensures
        final(ledger).wf(),
        final(ledger).state() == old(ledger).state().settled(row@),
        final(ledger).order() == old(ledger).order(),
        result_view(result) == old(ledger).state().outcome(row@),
{
    let ghost origin = ledger.state();
    let ghost target = row@;
    proof {
        ledger.lemma_well_formed();
        lemma_first_step_on_track(origin, row@);
    }
    let first = LedgerOperation::start(row);
    let mut op = first.0;
    let mut step = first.1;
    loop
        invariant
            ledger.wf(),
            op@.row == target,
            target == row@,
            origin == old(ledger).state(),
            ledger.order() == old(ledger).order(),
            origin.well_formed(),
            on_track(origin, op@, step@, ledger.state()),
        decreases op@.phase.rank(),
    {
        match step {
            Step::Finish(result) => {
                return result;
            },
            Step::Run(command) => {
                proof {
                    lemma_step_keeps_track(origin, op@, command@, ledger.state());
                }
                let reply = ledger.perform(command);
                let next = op.advance(reply);
                op = next.0;
                step = next.1;
            },
        }
    }
}

/// The row of a credit: `amount_cents` enter `account_id`.
pub open spec fn credit_draft(
    account_id: u128,
    amount_cents: i64,
    description: Option<Seq<char>>,
    idempotency_key: Option<Seq<char>>,
    id: u128,
    now: i64,
) -> TransactionView {
    TransactionView {
        id,
        idempotency_key,
        transaction_type: TransactionKind::Credit,
        from_account_id: None,
        to_account_id: Some(account_id),
        amount_cents,
        currency: "USD"@,
        description,
        status: TransactionStatus::Completed,
        created_at: now,
        metadata: None,
    }
}

/// The row of a debit: `amount_cents` leave `account_id`.
pub open spec fn debit_draft(
    account_id: u128,
    amount_cents: i64,
    description: Option<Seq<char>>,
    idempotency_key: Option<Seq<char>>,
    id: u128,
    now: i64,
) -> TransactionView {
    TransactionView {
        id,
        idempotency_key,
        transaction_type: TransactionKind::Debit,
        from_account_id: Some(account_id),
        to_account_id: None,
        amount_cents,
        currency: "USD"@,
        description,
        status: TransactionStatus::Completed,
        created_at: now,
        metadata: None,
    }
}

/// The row of a transfer: `amount_cents` move from `from_account_id` to
/// `to_account_id`.
pub open spec fn transfer_draft(
    from_account_id: u128,
    to_account_id: u128,
    amount_cents: i64,
    description: Option<Seq<char>>,
    idempotency_key: Option<Seq<char>>,
    id: u128,
    now: i64,
) -> TransactionView {
    TransactionView {
        id,
        idempotency_key,
        transaction_type: TransactionKind::Transfer,
        from_account_id: Some(from_account_id),
        to_account_id: Some(to_account_id),
        amount_cents,
        currency: "USD"@,
        description,
        status: TransactionStatus::Completed,
        created_at: now,
        metadata: None,
    }
}

/// The row of a credit with the identifier `id`, recorded at `now`.
pub fn credit_row(
    account_id: u128,
    amount_cents: i64,
    description: Option<String>,
    idempotency_key: Option<String>,
    id: u128,
    now: i64,
) -> (row: Transaction)
    ensures
        row@ == credit_draft(
            account_id,
            amount_cents,
            description.deep_view(),
            idempotency_key.deep_view(),
            id,
            now,
        ),
{
    Transaction {
        id,
        idempotency_key,
        transaction_type: TransactionKind::Credit,
        from_account_id: None,
        to_account_id: Some(account_id),
        amount_cents,
        currency: default_currency(),
        description,
        status: TransactionStatus::Completed,
        created_at: now,
        metadata: None,
    }
}

/// The row of a debit with the identifier `id`, recorded at `now`.
pub fn debit_row(
    account_id: u128,
    amount_cents: i64,
    description: Option<String>,
    idempotency_key: Option<String>,
    id: u128,
    now: i64,
) -> (row: Transaction)
    ensures
        row@ == debit_draft(
            account_id,
            amount_cents,
            description.deep_view(),
            idempotency_key.deep_view(),
            id,
            now,
        ),
{
    Transaction {
        id,
        idempotency_key,
        transaction_type: TransactionKind::Debit,
        from_account_id: Some(account_id),
        to_account_id: None,
        amount_cents,
        currency: default_currency(),
        description,
        status: TransactionStatus::Completed,
        created_at: now,
        metadata: None,
    }
}

/// The row of a transfer with the identifier `id`, recorded at `now`.
pub fn transfer_row(
    from_account_id: u128,
    to_account_id: u128,
    amount_cents: i64,
    description: Option<String>,
    idempotency_key: Option<String>,
    id: u128,
    now: i64,
) -> (row: Transaction)
    ensures
        row@ == transfer_draft(
            from_account_id,
            to_account_id,
            amount_cents,
            description.deep_view(),
            idempotency_key.deep_view(),
            id,
            now,
        ),
{
    Transaction {
        id,
        idempotency_key,
        transaction_type: TransactionKind::Transfer,
        from_account_id: Some(from_account_id),
        to_account_id: Some(to_account_id),
        amount_cents,
        currency: default_currency(),
        description,
        status: TransactionStatus::Completed,
        created_at: now,
        metadata: None,
    }
}

/// The row of the credit that `request` asks for, with a new random
/// identifier and the current time.
pub fn draft_credit(request: CreditRequest) -> (row: Transaction)
    ensures
        row@ == credit_draft(
            request.account_id,
            request.amount_cents,
            request.description.deep_view(),
            request.idempotency_key.deep_view(),
            row.id,
            row.created_at,
        ),
{
    credit_row(
        request.account_id,
        request.amount_cents,
        request.description,
        request.idempotency_key,
        fresh_id(),
        current_time(),
    )
}

/// The row of the debit that `request` asks for, with a new random
/// identifier and the current time.
pub fn draft_debit(request: DebitRequest) -> (row: Transaction)
    ensures
        row@ == debit_draft(
            request.account_id,
            request.amount_cents,
            request.description.deep_view(),
            request.idempotency_key.deep_view(),
            row.id,
            row.created_at,
        ),
{
    debit_row(
        request.account_id,
        request.amount_cents,
        request.description,
        request.idempotency_key,
        fresh_id(),
        current_time(),
    )
}

/// The row of the transfer that `request` asks for, with a new random
/// identifier and the current time.
pub fn draft_transfer(request: TransferRequest) -> (row: Transaction)
    ensures
        row@ == transfer_draft(
            request.from_account_id,
            request.to_account_id,
            request.amount_cents,
            request.description.deep_view(),
            request.idempotency_key.deep_view(),
            row.id,
            row.created_at,
        ),
{
    transfer_row(
        request.from_account_id,
        request.to_account_id,
        request.amount_cents,
        request.description,
        request.idempotency_key,
        fresh_id(),
        current_time(),
    )
}

/// The outcome of an operation as its caller sees it: a rejection becomes
/// the error that reports it.
pub open spec fn reported(outcome: Result<TransactionView, Rejection>) -> Result<
    TransactionView,
    AppErrorView,
> {
    match outcome {
        Ok(transaction) => Ok(transaction),
        Err(rejection) => Err(rejection.error()),
    }
}

/// The mathematical value of what an operation returns to its caller.
pub open spec fn response_view(response: Result<Transaction, AppError>) -> Result<
    TransactionView,
    AppErrorView,
> {
    match response {
        Ok(transaction) => Ok(transaction@),
        Err(error) => Err(error@),
    }
}

/// Turns a rejection into the error that reports it.
pub fn report(outcome: Result<Transaction, Rejection>) -> (response: Result<Transaction, AppError>)
    ensures
        response_view(response) == reported(result_view(outcome)),
{
    match outcome {
        Ok(transaction) => Ok(transaction),
        Err(rejection) => Err(rejection.into_error()),
    }
}

/// Adds `amount_cents` to the balance of `account_id`.
///
/// The transaction gets a new random identifier and the current time. With
/// these, the result and the ledger afterwards are those of the atomic
/// operation on the row of the credit.
pub fn execute_credit(
    ledger: &mut Ledger,
    account_id: u128,
    amount_cents: i64,
    description: Option<String>,
    idempotency_key: Option<String>,
) -> (response: Result<Transaction, AppError>)
    requires
        old(ledger).wf(),
    ensures
        final(ledger).wf(),
        final(ledger).order() == old(ledger).order(),
        exists|id: u128, now: i64|
            {
                let row = #[trigger] credit_draft(
                    account_id,
                    amount_cents,
                    description.deep_view(),
                    idempotency_key.deep_view(),
                    id,
                    now,
                );
                &&& final(ledger).state() == old(ledger).state().settled(row)
                &&& response_view(response) == reported(old(ledger).state().outcome(row))
            },
{
    let row = draft_credit(
        CreditRequest { account_id, amount_cents, description, idempotency_key },
    );
    report(settle(ledger, row))
}

/// Takes `amount_cents` from the balance of `account_id`.
///
/// The transaction gets a new random identifier and the current time. With
/// these, the result and the ledger afterwards are those of the atomic
/// operation on the row of the debit.
pub fn execute_debit(
    ledger: &mut Ledger,
    account_id: u128,
    amount_cents: i64,
    description: Option<String>,
    idempotency_key: Option<String>,
) -> (response: Result<Transaction, AppError>)
    requires
        old(ledger).wf(),
    ensures
        final(ledger).wf(),
        final(ledger).order() == old(ledger).order(),
        exists|id: u128, now: i64|
            {
                let row = #[trigger] debit_draft(
                    account_id,
                    amount_cents,
                    description.deep_view(),
                    idempotency_key.deep_view(),
                    id,
                    now,
                );
                &&& final(ledger).state() == old(ledger).state().settled(row)
                &&& response_view(response) == reported(old(ledger).state().outcome(row))
            },
{
    let row = draft_debit(DebitRequest { account_id, amount_cents, description, idempotency_key });
    report(settle(ledger, row))
}

/// Moves `amount_cents` from `from_account_id` to `to_account_id`.
///
/// The transaction gets a new random identifier and the current time. With
/// these, the result and the ledger afterwards are those of the atomic
/// operation on the row of the transfer.
pub fn execute_transfer(
    ledger: &mut Ledger,
    from_account_id: u128,
    to_account_id: u128,
    amount_cents: i64,
    description: Option<String>,
    idempotency_key: Option<String>,
) -> (response: Result<Transaction, AppError>)
    requires
        old(ledger).wf(),
    ensures
        final(ledger).wf(),
        final(ledger).order() == old(ledger).order(),
        exists|id: u128, now: i64|
            {
                let row = #[trigger] transfer_draft(
                    from_account_id,
                    to_account_id,
                    amount_cents,
                    description.deep_view(),
                    idempotency_key.deep_view(),
                    id,
                    now,
                );
                &&& final(ledger).state() == old(ledger).state().settled(row)
                &&& response_view(response) == reported(old(ledger).state().outcome(row))
            },
{
    let row = draft_transfer(
        TransferRequest {
            from_account_id,
            to_account_id,
            amount_cents,
            description,
            idempotency_key,
        },
    );
    report(settle(ledger, row))
}

/// The transaction with the identifier `transaction_id`, if the log holds
/// one.
pub fn get_transaction_by_id(ledger: &Ledger, transaction_id: u128) -> (response: Result<
    Option<Transaction>,
    AppError,
>)
    requires
        ledger.wf(),
    ensures
        response matches Ok(found) && found.deep_view() == ledger@.find(transaction_id),
{
    Ok(ledger.find(transaction_id))
}

} // verus!
