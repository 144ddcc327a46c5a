//! Credits, debits, transfers and the reading of a transaction, on behalf
//! of an authenticated business.

use crate::error::{AppError, AppErrorView, Rejection};
use crate::ledger::Ledger;
use crate::middleware::auth::AuthContext;
use crate::models::transaction::{
    summary,
    CreditRequest,
    DebitRequest,
    SummaryView,
    Transaction,
    TransactionResponse,
    TransactionView,
    TransferRequest,
};
use crate::services::settlement::{lemma_first_step_on_track, lemma_step_keeps_track, on_track};
use crate::services::transaction_service::{
    credit_draft,
    debit_draft,
    draft_credit,
    draft_debit,
    draft_transfer,
    fault_of,
    transfer_draft,
    LedgerOperation,
    OperationView,
    Step,
    StepView,
};
use crate::state::{fault, LedgerState};
use crate::store::{CommandView, ReplyView, StoreCommand, StoreReply, StoreState};
use vstd::prelude::*;

verus! {

/// The account exists and belongs to `owner`.
pub open spec fn owns(state: LedgerState, owner: u128, account_id: u128) -> bool {
    state.accounts.contains_key(account_id) && state.accounts[account_id].api_key_id == owner
}

/// Every account that `row` names belongs to `owner`.
pub open spec fn owns_accounts(state: LedgerState, owner: u128, row: TransactionView) -> bool {
    &&& row.from_account_id is Some ==> owns(state, owner, row.from_account_id->0)
    &&& row.to_account_id is Some ==> owns(state, owner, row.to_account_id->0)
}

/// Why the operation described by `row` is turned away before the engine
/// sees it, if it is: an unsound row first, then an account that `owner`
/// does not own, which is answered as if it did not exist.
pub open spec fn turned_away(state: LedgerState, owner: u128, row: TransactionView) -> Option<
    Rejection,
> {
    if fault(row) is Some {
        fault(row)
    } else if !owns_accounts(state, owner, row) {
        Some(Rejection::AccountNotFound)
    } else {
        None
    }
}

/// What `owner` is answered when it submits the operation described by
/// `row`.
pub open spec fn answer(store: StoreState, owner: u128, row: TransactionView) -> Result<
    SummaryView,
    AppErrorView,
> {
    match turned_away(store.current, owner, row) {
        Some(rejection) => Err(rejection.error()),
        None => match store.outcome(row) {
            Ok(transaction) => Ok(summary(transaction)),
            Err(rejection) => Err(rejection.error()),
        },
    }
}

/// The store after `owner` has submitted the operation described by `row`.
pub open spec fn after_answer(store: StoreState, owner: u128, row: TransactionView) -> StoreState {
    if turned_away(store.current, owner, row) is Some {
        store
    } else {
        store.settled(row)
    }
}

/// The mathematical value of the answer to a submitted operation.
pub open spec fn answer_view(result: Result<TransactionResponse, AppError>) -> Result<
    SummaryView,
    AppErrorView,
> {
    match result {
        Ok(response) => Ok(response@),
        Err(error) => Err(error@),
    }
}

fn owned(ledger: &Ledger, owner: u128, account_id: Option<u128>) -> (yes: bool)
    requires
        ledger.wf(),
    ensures
        yes == (account_id is Some ==> owns(ledger@, owner, account_id->0)),
{
    match account_id {
        None => true,
        Some(id) => match ledger.owner_of(id) {
            Some(key) => key == owner,
            None => false,
        },
    }
}

/// The accounts that `row` names, the paying one first.
pub open spec fn named(row: TransactionView) -> Seq<u128> {
    match (row.from_account_id, row.to_account_id) {
        (Some(from), Some(to)) => seq![from, to],
        (Some(from), None) => seq![from],
        (None, Some(to)) => seq![to],
        (None, None) => seq![],
    }
}

/// How many entries of `accounts` are accounts of `owner`.
pub open spec fn owned_count(state: LedgerState, owner: u128, accounts: Seq<u128>) -> int
    decreases accounts.len(),
{
    if accounts.len() == 0 {
        0
    } else if owns(state, owner, accounts.last()) {
        owned_count(state, owner, accounts.drop_last()) + 1
    } else {
        owned_count(state, owner, accounts.drop_last())
    }
}

proof fn lemma_count_of_few(state: LedgerState, owner: u128, accounts: Seq<u128>)
    requires
        accounts.len() <= 2,
    ensures
        accounts.len() == 0 ==> owned_count(state, owner, accounts) == 0,
        accounts.len() == 1 ==> owned_count(state, owner, accounts) == if owns(
            state,
            owner,
            accounts[0],
        ) {
            1int
        } else {
            0int
        },
        accounts.len() == 2 ==> owned_count(state, owner, accounts) == (if owns(
            state,
            owner,
            accounts[0],
        ) {
            1int
        } else {
            0int
        }) + (if owns(state, owner, accounts[1]) {
            1int
        } else {
            0int
        }),
{
    reveal_with_fuel(owned_count, 4);
    if accounts.len() == 2 {
        let first = accounts.drop_last();
        assert(first.last() == accounts[0]);
        assert(first.drop_last().len() == 0);
    } else if accounts.len() == 1 {
        assert(accounts.drop_last().len() == 0);
    }
}

/// All accounts that a row names are owned exactly if as many are owned as
/// are named.
pub proof fn lemma_owned_count(state: LedgerState, owner: u128, row: TransactionView)
    ensures
        owns_accounts(state, owner, row) <==> owned_count(state, owner, named(row)) == named(
            row,
        ).len(),
        0 <= owned_count(state, owner, named(row)) <= 2,
{
    lemma_count_of_few(state, owner, named(row));
}

/// Where a submission stands.
#[derive(Debug, Clone, Copy, PartialEq, Eq, Structural)]
pub enum SubmitStage {
    /// Waiting to learn how many of the named accounts the sender owns.
    Checking,
    /// The engine is at work.
    Running,
    /// Finished.
    Done,
}

/// What a submission asks for next.
#[derive(Debug, PartialEq, Eq)]
pub enum SubmitStep {
    /// Count how many of `accounts` belong to `owner` and hand back the
    /// count.
    CountOwned { owner: u128, accounts: Vec<u128> },
    /// Send this command to the store and hand back its reply.
    Run(StoreCommand),
    /// The submission is answered.
    Finish(Result<TransactionResponse, AppError>),
}

/// The mathematical value of a [`SubmitStep`].
pub enum SubmitStepView {
    CountOwned { owner: u128, accounts: Seq<u128> },
    Run(CommandView),
    Finish(Result<SummaryView, AppErrorView>),
}

impl View for SubmitStep {
    type V = SubmitStepView;

    open spec fn view(&self) -> SubmitStepView {
        match self {
            SubmitStep::CountOwned { owner, accounts } => SubmitStepView::CountOwned {
                owner: *owner,
                accounts: accounts@,
            },
            SubmitStep::Run(command) => SubmitStepView::Run(command@),
            SubmitStep::Finish(result) => SubmitStepView::Finish(answer_view(*result)),
        }
    }
}

/// What happened to the last step of a submission.
#[derive(Debug, PartialEq, Eq)]
pub enum SubmitReply {
    /// So many of the accounts belong to the owner.
    Owned(u64),
    /// The store answered this.
    Store(StoreReply),
}

/// The mathematical value of a [`SubmitReply`].
pub enum SubmitReplyView {
    Owned(u64),
    Store(ReplyView),
}

impl View for SubmitReply {
    type V = SubmitReplyView;

    open spec fn view(&self) -> SubmitReplyView {
        match self {
            SubmitReply::Owned(count) => SubmitReplyView::Owned(*count),
            SubmitReply::Store(reply) => SubmitReplyView::Store(reply@),
        }
    }
}

/// One operation submitted by a business: first the ownership of the
/// accounts is settled, then the engine runs.
#[derive(Debug)]
pub struct Submission {
    owner: u128,
    row: Transaction,
    stage: SubmitStage,
    operation: Option<LedgerOperation>,
}

/// The mathematical value of a [`Submission`].
pub struct SubmissionView {
    pub owner: u128,
    pub row: TransactionView,
    pub stage: SubmitStage,
    pub operation: Option<OperationView>,
}

impl SubmissionView {
    /// The submission ends with `result`.
    pub open spec fn stop(self, result: Result<SummaryView, AppErrorView>) -> (
        SubmissionView,
        SubmitStepView,
    ) {
        (SubmissionView { stage: SubmitStage::Done, ..self }, SubmitStepView::Finish(result))
    }

    /// The submission follows the engine: a command of the engine is passed
    /// on, its result is the answer.
    pub open spec fn follow(self, engine: (OperationView, StepView)) -> (
        SubmissionView,
        SubmitStepView,
    ) {
        match engine.1 {
            StepView::Run(command) => (
                SubmissionView {
                    stage: SubmitStage::Running,
                    operation: Some(engine.0),
                    ..self
                },
                SubmitStepView::Run(command),
            ),
            StepView::Finish(result) => (SubmissionView { operation: Some(engine.0), ..self }).stop(
                match result {
                    Ok(transaction) => Ok(summary(transaction)),
                    Err(rejection) => Err(rejection.error()),
                },
            ),
        }
    }

    /// The first step of the submission of `row` by `owner`: an unsound row
    /// is answered at once, before anything is read; else the ownership of the
    /// accounts is asked for.
    pub open spec fn first(owner: u128, row: TransactionView) -> (SubmissionView, SubmitStepView) {
        let fresh = SubmissionView { owner, row, stage: SubmitStage::Done, operation: None };
        if fault(row) is Some {
            fresh.stop(Err(fault(row)->0.error()))
        } else {
            (
                SubmissionView { stage: SubmitStage::Checking, ..fresh },
                SubmitStepView::CountOwned { owner, accounts: named(row) },
            )
        }
    }

    /// The submission and its next step after `reply`. If the sender owns
    /// fewer accounts than the row names, the answer is that an account was
    /// not found. A reply of the wrong sort counts as a failure of the store.
    pub open spec fn next(self, reply: SubmitReplyView) -> (SubmissionView, SubmitStepView) {
        match self.stage {
            SubmitStage::Checking => match reply {
                SubmitReplyView::Owned(count) => if count == named(self.row).len() {
                    self.follow(OperationView::first(self.row))
                } else {
                    self.stop(Err(Rejection::AccountNotFound.error()))
                },
                SubmitReplyView::Store(_) => self.stop(Err(Rejection::StorageFailure.error())),
            },
            SubmitStage::Running => match self.operation {
                Some(operation) => self.follow(
                    operation.next(
                        match reply {
                            SubmitReplyView::Store(answered) => answered,
                            SubmitReplyView::Owned(_) => ReplyView::Failed,
                        },
                    ),
                ),
                None => self.stop(Err(Rejection::StorageFailure.error())),
            },
            SubmitStage::Done => self.stop(Err(Rejection::StorageFailure.error())),
        }
    }

    /// The transaction that the submission has written and committed, if it
    /// has.
    pub open spec fn completed(self) -> Option<TransactionView> {
        match self.operation {
            Some(operation) => if operation.committed {
                operation.inserted
            } else {
                None
            },
            None => None,
        }
    }

    /// How many replies the submission can still wait for.
    pub open spec fn rank(self) -> nat {
        match self.stage {
            SubmitStage::Checking => 20,
            SubmitStage::Running => match self.operation {
                Some(operation) => operation.phase.rank() + 1,
                None => 1,
            },
            SubmitStage::Done => 0,
        }
    }
}

impl View for Submission {
    type V = SubmissionView;

    closed spec fn view(&self) -> SubmissionView {
        SubmissionView {
            owner: self.owner,
            row: self.row@,
            stage: self.stage,
            operation: match self.operation {
                Some(operation) => Some(operation@),
                None => None,
            },
        }
    }
}

impl Submission {
    /// While the engine is at work, there is an engine.
    #[verifier::type_invariant]
    spec fn sound(self) -> bool {
        self.stage == SubmitStage::Running ==> self.operation is Some
    }

    /// The transaction that the submission has written and committed, if it
    /// has.
    pub fn completed(&self) -> (transaction: Option<Transaction>)
        ensures
            transaction.deep_view() == self@.completed(),
    {
        match &self.operation {
            Some(operation) => operation.completed(),
            None => None,
        }
    }

    /// Where the submission stands.
    pub fn stage(&self) -> (stage: SubmitStage)
        ensures
            stage == self@.stage,
    {
        self.stage
    }

    fn stop(self, result: Result<TransactionResponse, AppError>) -> (next: (Submission, SubmitStep))
        ensures
            (next.0@, next.1@) == self@.stop(answer_view(result)),
    {
        let mut submission = self;
        submission.stage = SubmitStage::Done;
        (submission, SubmitStep::Finish(result))
    }

    fn follow(self, engine: (LedgerOperation, Step)) -> (next: (Submission, SubmitStep))
        ensures
            (next.0@, next.1@) == self@.follow((engine.0@, engine.1@)),
    {
        let mut submission = self;
        submission.operation = Some(engine.0);
        match engine.1 {
            Step::Run(command) => {
                submission.stage = SubmitStage::Running;
                (submission, SubmitStep::Run(command))
            },
            Step::Finish(Ok(transaction)) => submission.stop(
                Ok(TransactionResponse::from(transaction)),
            ),
            Step::Finish(Err(rejection)) => submission.stop(Err(rejection.into_error())),
        }
    }

    /// Starts the submission of `row` by `owner`.
    pub fn start(owner: u128, row: Transaction) -> (next: (Submission, SubmitStep))
        ensures
            (next.0@, next.1@) == SubmissionView::first(owner, row@),
    {
        let found = fault_of(&row);
        let mut accounts: Vec<u128> = Vec::new();
        match row.from_account_id {
            Some(from) => accounts.push(from),
            None => {},
        }
        match row.to_account_id {
            Some(to) => accounts.push(to),
            None => {},
        }
        assert(accounts@ =~= named(row@));
        let submission = Submission { owner, row, stage: SubmitStage::Done, operation: None };
        match found {
            Some(rejection) => submission.stop(Err(rejection.into_error())),
            None => {
                let mut submission = submission;
                submission.stage = SubmitStage::Checking;
                (submission, SubmitStep::CountOwned { owner, accounts })
            },
        }
    }

    /// Takes what happened to the last step and says what to do next.
    pub fn advance(self, reply: SubmitReply) -> (next: (Submission, SubmitStep))
        ensures
            (next.0@, next.1@) == self@.next(reply@),
    {
        proof {
            use_type_invariant(&self);
        }
        match self.stage {
            SubmitStage::Checking => match reply {
                SubmitReply::Owned(count) => {
                    let needed: u64 = if self.row.from_account_id.is_some()
                        && self.row.to_account_id.is_some() {
                        2
                    } else if self.row.from_account_id.is_some() || self.row.to_account_id.is_some() {
                        1
                    } else {
                        0
                    };
                    if count == needed {
                        let engine = LedgerOperation::start(self.row.clone());
                        self.follow(engine)
                    } else {
                        self.stop(Err(Rejection::AccountNotFound.into_error()))
                    }
                },
                SubmitReply::Store(_) => self.stop(Err(Rejection::StorageFailure.into_error())),
            },
            SubmitStage::Running => {
                let Submission { owner, row, stage, operation } = self;
                let submission = Submission { owner, row, stage: SubmitStage::Done, operation: None };
                match operation {
                    Some(operation) => {
                        let answered = match reply {
                            SubmitReply::Store(answered) => answered,
                            SubmitReply::Owned(_) => StoreReply::Failed,
                        };
                        let engine = operation.advance(answered);
                        submission.follow(engine)
                    },
                    None => submission.stop(Err(Rejection::StorageFailure.into_error())),
                }
            },
            SubmitStage::Done => self.stop(Err(Rejection::StorageFailure.into_error())),
        }
    }
}

/// The submission of `row` by `owner` changes the store `store`: it is not
/// turned away, no unit of work is open and the engine accepts the row.
pub open spec fn takes_effect(store: StoreState, owner: u128, row: TransactionView) -> bool {
    &&& turned_away(store.current, owner, row) is None
    &&& store.checkpoint is None
    &&& store.current.accepts(row)
}

/// The submission `submission`, about to take `step`, is on its way from
/// the store `origin` to the answer and the store that [`answer`] and
/// [`after_answer`] describe. When it is answered, it has completed a
/// transaction exactly if it has changed the store, and that transaction is
/// its row.
pub open spec fn submission_on_track(
    origin: StoreState,
    submission: SubmissionView,
    step: SubmitStepView,
    store: StoreState,
) -> bool {
    let row = submission.row;
    let owner = submission.owner;
    match step {
        SubmitStepView::Finish(result) => {
            &&& store == after_answer(origin, owner, row)
            &&& result == answer(origin, owner, row)
            &&& submission.completed() == if takes_effect(origin, owner, row) {
                Some(row)
            } else {
                None
            }
        },
        SubmitStepView::CountOwned { owner: asked, accounts } => {
            &&& submission.stage == SubmitStage::Checking
            &&& submission.operation is None
            &&& fault(row) is None
            &&& asked == owner
            &&& accounts == named(row)
            &&& store == origin
        },
        SubmitStepView::Run(command) => {
            &&& submission.stage == SubmitStage::Running
            &&& fault(row) is None
            &&& owns_accounts(origin.current, owner, row)
            &&& submission.operation is Some
            &&& submission.operation->0.row == row
            &&& on_track(origin, submission.operation->0, StepView::Run(command), store)
        },
    }
}

/// A faithful store and a true count keep a submission on track.
pub proof fn lemma_submission_keeps_track(
    origin: StoreState,
    submission: SubmissionView,
    step: SubmitStepView,
    store: StoreState,
)
    requires
        origin.well_formed(),
        step !is Finish,
        submission_on_track(origin, submission, step, store),
    ensures
        ({
            let reply = match step {
                SubmitStepView::CountOwned { owner, accounts } => SubmitReplyView::Owned(
                    owned_count(store.current, owner, accounts) as u64,
                ),
                SubmitStepView::Run(command) => SubmitReplyView::Store(store.reply(command)),
                SubmitStepView::Finish(_) => SubmitReplyView::Owned(0),
            };
            let after = match step {
                SubmitStepView::Run(command) => store.after(command),
                _ => store,
            };
            &&& submission_on_track(
                origin,
                submission.next(reply).0,
                submission.next(reply).1,
                after,
            )
            &&& submission.next(reply).0.rank() < submission.rank()
        }),
{
    let row = submission.row;
    match step {
        SubmitStepView::CountOwned { owner, accounts } => {
            lemma_owned_count(origin.current, owner, row);
            lemma_first_step_on_track(origin, row);
        },
        SubmitStepView::Run(command) => {
            lemma_step_keeps_track(origin, submission.operation->0, command, store);
        },
        SubmitStepView::Finish(_) => {},
    }
}

fn count_owned(ledger: &Ledger, owner: u128, accounts: &Vec<u128>) -> (count: u64)
    requires
        ledger.wf(),
        accounts@.len() <= 2,
    ensures
        count == owned_count(ledger@, owner, accounts@),
{
    let mut count: u64 = 0;
    let mut i: usize = 0;
    assert(accounts@.take(0) =~= Seq::<u128>::empty());
    while i < accounts.len()
        invariant
            ledger.wf(),
            i <= accounts@.len() <= 2,
            count <= i,
            count == owned_count(ledger@, owner, accounts@.take(i as int)),
        decreases accounts@.len() - i,
    {
        assert(accounts@.take(i as int + 1).drop_last() =~= accounts@.take(i as int));
        if owned(ledger, owner, Some(accounts[i])) {
            count += 1;
        }
        i += 1;
    }
    assert(accounts@.take(i as int) =~= accounts@);
    count
}

/// Submits the operation described by `row` on behalf of `owner` and runs
/// it against `ledger`. Returns the answer and the transaction that the
/// submission has completed, if it has: the one to announce to the endpoints
/// of `owner`. A transaction is completed exactly if the ledger was changed.
pub fn run_submission(ledger: &mut Ledger, owner: u128, row: Transaction) -> (result: (
    Result<TransactionResponse, AppError>,
    Option<Transaction>,
))
    requires
        old(ledger).wf(),
    ensures
        final(ledger).wf(),
        final(ledger).order() == old(ledger).order(),
        answer_view(result.0) == answer(old(ledger).state(), owner, row@),
        final(ledger).state() == after_answer(old(ledger).state(), owner, row@),
        result.1.deep_view() == if takes_effect(old(ledger).state(), owner, row@) {
            Some(row@)
        } else {
            None
        },
{
    let ghost origin = ledger.state();
    let ghost target = row@;
    proof {
        ledger.lemma_well_formed();
    }
    let first = Submission::start(owner, row);
    let mut submission = first.0;
    let mut step = first.1;
    loop
        invariant
            ledger.wf(),
            submission@.row == target,
            submission@.owner == owner,
            target == row@,
            origin == old(ledger).state(),
            ledger.order() == old(ledger).order(),
            origin.well_formed(),
            submission_on_track(origin, submission@, step@, ledger.state()),
        decreases submission@.rank(),
    {
        proof {
            if step@ !is Finish {
                lemma_submission_keeps_track(origin, submission@, step@, ledger.state());
            }
        }
        let reply = match step {
            SubmitStep::Finish(result) => {
                return (result, submission.completed());
            },
            SubmitStep::CountOwned { owner, accounts } => SubmitReply::Owned(
                count_owned(ledger, owner, &accounts),
            ),
            SubmitStep::Run(command) => SubmitReply::Store(ledger.perform(command)),
        };
        let next = submission.advance(reply);
        submission = next.0;
        step = next.1;
    }
}

/// Submits the operation described by `row` on behalf of `owner` and runs
/// it against `ledger`.
pub fn submit(ledger: &mut Ledger, owner: u128, row: Transaction) -> (result: Result<
    TransactionResponse,
    AppError,
>)
    requires
        old(ledger).wf(),
    ensures
        final(ledger).wf(),
        final(ledger).order() == old(ledger).order(),
        answer_view(result) == answer(old(ledger).state(), owner, row@),
        final(ledger).state() == after_answer(old(ledger).state(), owner, row@),
{
    run_submission(ledger, owner, row).0
}

/// What `owner` is shown of the transaction `found`, given how many of the
/// accounts it names belong to `owner`: the transaction if there is one and
/// at least one of its accounts is owned, else the answer that nothing was
/// found.
pub fn shown_if_visible(found: Option<Transaction>, owned: u64) -> (result: Result<
    TransactionResponse,
    AppError,
>)
    ensures
        answer_view(result) == match found {
            Some(transaction) => if owned > 0 {
                Ok(summary(transaction@))
            } else {
                Err(AppErrorView::AccountNotFound)
            },
            None => Err(AppErrorView::AccountNotFound),
        },
{
    match found {
        Some(transaction) => {
            if owned > 0 {
                Ok(TransactionResponse::from(transaction))
            } else {
                Err(AppError::AccountNotFound)
            }
        },
        None => Err(AppError::AccountNotFound),
    }
}

/// Credits an account of the business that `auth` stands for.
///
/// The transaction gets a new random identifier and the current time. With
/// these, the answer and the ledger afterwards are those of [`answer`] and
/// [`after_answer`] for the row of the credit.
pub fn create_credit(ledger: &mut Ledger, auth: &AuthContext, request: CreditRequest) -> (result:
    Result<TransactionResponse, AppError>)
    requires
        old(ledger).wf(),
    ensures
        final(ledger).wf(),
        exists|id: u128, now: i64|
            {
                let row = #[trigger] credit_draft(
                    request.account_id,
                    request.amount_cents,
                    request.description.deep_view(),
                    request.idempotency_key.deep_view(),
                    id,
                    now,
                );
                &&& answer_view(result) == answer(old(ledger).state(), auth.api_key_id, row)
                &&& final(ledger).state() == after_answer(
                    old(ledger).state(),
                    auth.api_key_id,
                    row,
                )
            },
{
    submit(ledger, auth.api_key_id, draft_credit(request))
}

/// Debits an account of the business that `auth` stands for.
///
/// The transaction gets a new random identifier and the current time. With
/// these, the answer and the ledger afterwards are those of [`answer`] and
/// [`after_answer`] for the row of the debit.
pub fn create_debit(ledger: &mut Ledger, auth: &AuthContext, request: DebitRequest) -> (result:
    Result<TransactionResponse, AppError>)
    requires
        old(ledger).wf(),
    ensures
        final(ledger).wf(),
        exists|id: u128, now: i64|
            {
                let row = #[trigger] debit_draft(
                    request.account_id,
                    request.amount_cents,
                    request.description.deep_view(),
                    request.idempotency_key.deep_view(),
                    id,
                    now,
                );
                &&& answer_view(result) == answer(old(ledger).state(), auth.api_key_id, row)
                &&& final(ledger).state() == after_answer(
                    old(ledger).state(),
                    auth.api_key_id,
                    row,
                )
            },
{
    submit(ledger, auth.api_key_id, draft_debit(request))
}

/// Transfers between two accounts of the business that `auth` stands for.
///
/// The transaction gets a new random identifier and the current time. With
/// these, the answer and the ledger afterwards are those of [`answer`] and
/// [`after_answer`] for the row of the transfer.
pub fn create_transfer(ledger: &mut Ledger, auth: &AuthContext, request: TransferRequest) -> (result:
    Result<TransactionResponse, AppError>)
    requires
        old(ledger).wf(),
    ensures
        final(ledger).wf(),
        exists|id: u128, now: i64|
            {
                let row = #[trigger] transfer_draft(
                    request.from_account_id,
                    request.to_account_id,
                    request.amount_cents,
                    request.description.deep_view(),
                    request.idempotency_key.deep_view(),
                    id,
                    now,
                );
                &&& answer_view(result) == answer(old(ledger).state(), auth.api_key_id, row)
                &&& final(ledger).state() == after_answer(
                    old(ledger).state(),
                    auth.api_key_id,
                    row,
                )
            },
{
    submit(ledger, auth.api_key_id, draft_transfer(request))
}

/// The transaction `transaction_id` as `owner` may see it: it must exist
/// and name at least one account of `owner`.
pub open spec fn visible(state: LedgerState, owner: u128, transaction_id: u128) -> Option<
    TransactionView,
> {
    match state.find(transaction_id) {
        Some(transaction) => if (transaction.from_account_id is Some && owns(
            state,
            owner,
            transaction.from_account_id->0,
        )) || (transaction.to_account_id is Some && owns(
            state,
            owner,
            transaction.to_account_id->0,
        )) {
            Some(transaction)
        } else {
            None
        },
        None => None,
    }
}

/// Reads a transaction on behalf of the business that `auth` stands for. A
/// transaction that names no account of that business is answered as if it
/// did not exist.
pub fn get_transaction(ledger: &Ledger, auth: &AuthContext, transaction_id: u128) -> (result:
    Result<TransactionResponse, AppError>)
    requires
        ledger.wf(),
    ensures
        answer_view(result) == match visible(ledger@, auth.api_key_id, transaction_id) {
            Some(transaction) => Ok(summary(transaction)),
            None => Err(AppErrorView::AccountNotFound),
        },
{
    let found = ledger.find(transaction_id);
    let owned = match &found {
        Some(transaction) => {
            let mut accounts: Vec<u128> = Vec::new();
            match transaction.from_account_id {
                Some(from) => accounts.push(from),
                None => {},
            }
            match transaction.to_account_id {
                Some(to) => accounts.push(to),
                None => {},
            }
            assert(accounts@ =~= named(transaction@));
            proof {
                lemma_owned_count(ledger@, auth.api_key_id, transaction@);
                lemma_some_owned(ledger@, auth.api_key_id, transaction@);
            }
            count_owned(ledger, auth.api_key_id, &accounts)
        },
        None => 0,
    };
    shown_if_visible(found, owned)
}

/// At least one account that a row names is owned exactly if the count of
/// owned accounts is positive.
pub proof fn lemma_some_owned(state: LedgerState, owner: u128, row: TransactionView)
    ensures
        owned_count(state, owner, named(row)) > 0 <==> ((row.from_account_id is Some && owns(
            state,
            owner,
            row.from_account_id->0,
        )) || (row.to_account_id is Some && owns(state, owner, row.to_account_id->0))),
{
    lemma_count_of_few(state, owner, named(row));
}

} // verus!
