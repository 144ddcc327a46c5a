//! Why the conversation that the engine holds with a faithful store amounts
//! to one atomic operation.

use crate::error::Rejection;
use crate::models::transaction::TransactionView;
use crate::services::transaction_service::{OperationView, Phase, StepView};
use crate::state::{fault, first_lock, second_lock, LedgerState};
use crate::store::{CommandView, StoreState};
use vstd::prelude::*;

verus! {

/// A unit of work is open on `state`, which is also the state to return to.
pub open spec fn untouched(state: LedgerState) -> StoreState {
    StoreState { current: state, checkpoint: Some(state) }
}

/// The row can be paid for: it is no replay, its accounts exist, the payer
/// has the funds and the receiver has the room.
pub open spec fn payable(state: LedgerState, op: OperationView) -> bool {
    &&& !state.replays(op.row)
    &&& state.knows_accounts(op.row)
    &&& state.funds_suffice(op.row)
    &&& state.room_suffices(op.row)
}

/// The operation `op`, about to take `step`, is on its way from the store
/// `origin` to the store that the atomic operation leaves behind.
///
/// A finished operation has left exactly that store and returns exactly the
/// outcome of the atomic operation; it has completed a transaction exactly if
/// the atomic operation is accepted. An unfinished one has changed nothing
/// that a rollback would not undo, and has checked all that its phase
/// presupposes. It is never found undoing a lost race for its idempotency
/// key: where one operation talks to the store at a time, no race is lost.
pub open spec fn on_track(
    origin: StoreState,
    op: OperationView,
    step: StepView,
    store: StoreState,
) -> bool {
    let row = op.row;
    let start = origin.current;
    match step {
        StepView::Finish(result) => {
            &&& store == origin.settled(row)
            &&& result == origin.outcome(row)
            &&& op.committed == (origin.checkpoint is None && start.accepts(row))
            &&& op.committed ==> op.inserted == Some(row)
        },
        StepView::Run(command) => {
            &&& fault(row) is None
            &&& !op.committed
            &&& match op.phase {
                Phase::Lookup => {
                    &&& row.idempotency_key is Some
                    &&& command == CommandView::FindByKey(row.idempotency_key->0)
                    &&& store == origin
                },
                Phase::Opening => {
                    &&& command == CommandView::Begin
                    &&& !start.replays(row)
                    &&& store == origin
                },
                Phase::LockFirst => {
                    &&& command == CommandView::LockAccount(first_lock(row))
                    &&& origin.checkpoint is None
                    &&& !start.replays(row)
                    &&& store == untouched(start)
                },
                Phase::LockSecond => {
                    &&& second_lock(row) is Some
                    &&& command == CommandView::LockAccount(second_lock(row)->0)
                    &&& origin.checkpoint is None
                    &&& !start.replays(row)
                    &&& start.accounts.contains_key(first_lock(row))
                    &&& op.first_balance == start.accounts[first_lock(row)].balance_cents
                    &&& store == untouched(start)
                },
                Phase::Withdraw => {
                    &&& row.from_account_id is Some
                    &&& command == op.withdrawal(row.from_account_id->0)
                    &&& origin.checkpoint is None
                    &&& payable(start, op)
                    &&& store == untouched(start)
                },
                Phase::Deposit => {
                    &&& row.to_account_id is Some
                    &&& command == op.deposit(row.to_account_id->0)
                    &&& origin.checkpoint is None
                    &&& payable(start, op)
                    &&& store == (StoreState {
                        current: start.withdrawn(row),
                        checkpoint: Some(start),
                    })
                },
                Phase::Insert => {
                    &&& command == CommandView::Insert(row)
                    &&& origin.checkpoint is None
                    &&& payable(start, op)
                    &&& store == (StoreState {
                        current: start.withdrawn(row).deposited(row),
                        checkpoint: Some(start),
                    })
                },
                Phase::Commit => {
                    &&& command == CommandView::Commit
                    &&& origin.checkpoint is None
                    &&& start.accepts(row)
                    &&& op.inserted == Some(row)
                    &&& store == (StoreState {
                        current: start.posted(row),
                        checkpoint: Some(start),
                    })
                },
                Phase::Abort => {
                    &&& command == CommandView::Rollback
                    &&& origin.checkpoint is None
                    &&& !start.accepts(row)
                    &&& start.outcome(row) == Err::<TransactionView, Rejection>(op.failure)
                    &&& store.checkpoint == Some(start)
                },
                Phase::Undo => false,
                Phase::Reread => false,
                Phase::Done => false,
            }
        },
    }
}

/// The first step of an operation is on track.
pub proof fn lemma_first_step_on_track(origin: StoreState, row: TransactionView)
    requires
        origin.well_formed(),
    ensures
        on_track(origin, OperationView::first(row).0, OperationView::first(row).1, origin),
{
}

/// A faithful store keeps the operation on track: if `op` is on track and
/// sends `command`, then after the store has served the command and the
/// engine has taken the reply, the operation is on track again, in a phase of
/// lower rank.
pub proof fn lemma_step_keeps_track(
    origin: StoreState,
    op: OperationView,
    command: CommandView,
    store: StoreState,
)
    requires
        origin.well_formed(),
        on_track(origin, op, StepView::Run(command), store),
    ensures
        on_track(
            origin,
            op.next(store.reply(command)).0,
            op.next(store.reply(command)).1,
            store.after(command),
        ),
        op.next(store.reply(command)).0.phase.rank() < op.phase.rank(),
{
    let row = op.row;
    let start = origin.current;
    let reply = store.reply(command);
    let next = op.next(reply);
    let after = store.after(command);
    match op.phase {
        Phase::Withdraw => {
            let from = row.from_account_id->0;
            assert(store.can_adjust(from, (-row.amount_cents) as i64));
            assert(after.current == start.withdrawn(row));
        },
        Phase::Deposit => {
            let to = row.to_account_id->0;
            let paid = start.withdrawn(row);
            assert(paid.accounts.contains_key(to));
            assert(paid.balance(to) == start.balance(to));
            assert(store.can_adjust(to, row.amount_cents));
            assert(after.current == paid.deposited(row));
        },
        Phase::Insert => {
            let moved = start.withdrawn(row).deposited(row);
            assert(moved.log == start.log);
            assert(!store.key_taken(row)) by {
                if row.idempotency_key is Some {
                    let key = row.idempotency_key->0;
                    assert(forall|i: int| moved.key_at(i, key) == start.key_at(i, key));
                }
            }
            assert(moved.holds_id(row.id) == start.holds_id(row.id)) by {
                assert(forall|i: int| moved.id_at(i, row.id) == start.id_at(i, row.id));
            }
        },
        _ => {},
    }
}

} // verus!
